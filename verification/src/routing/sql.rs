//! Building SQL text with numbered parameters (`$1`, `$2`, ...).
use vstd::prelude::*;
use vstd::string::*;
use crate::text::{decimal, push_decimal, push_char};

verus! {

/// The placeholder of parameter `n`: `$n`.
pub open spec fn param(n: nat) -> Seq<char> {
    seq!['$'] + decimal(n)
}

/// Appends the placeholder of parameter `n`, after a comma when `with_comma`
/// is set (an element of an SQL array literal).
pub fn write_sql_array(sql: &mut String, n: usize, with_comma: bool)
    ensures
        final(sql)@ == old(sql)@ + (if with_comma { seq![','] } else { Seq::<char>::empty() }) + param(
            n as nat,
        ),
{
    if with_comma {
        push_char(sql, ',');
    }
    push_char(sql, '$');
    push_decimal(sql, n);
    assert(sql@ =~= old(sql)@ + (if with_comma { seq![','] } else { Seq::<char>::empty() }) + param(
        n as nat,
    ));
}

} // verus!
