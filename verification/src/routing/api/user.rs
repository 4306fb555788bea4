//! User routes: the statement that updates a user's name and email.
use vstd::prelude::*;
use vstd::string::*;
use crate::routing::sql::param;
use crate::text::push_decimal;

pub mod totp;

verus! {

/// The update statement for a user, the user's id being parameter 1: the
/// new name (when given) is parameter 2, the new email (when given and not
/// cleared) the next one; `email` is `None` when the email is left alone,
/// `Some(false)` when it is cleared and `Some(true)` when it is replaced.
pub open spec fn user_update_spec(username: bool, email: Option<bool>) -> Seq<char> {
    let a = if username { " username = "@ + param(2) } else { Seq::empty() };
    let b = match email {
        None => Seq::empty(),
        Some(v) => (if username { seq![','] } else { Seq::<char>::empty() }) + (if v {
            " email = "@ + param(if username { 3 } else { 2 }) + ", email_verified = false"@
        } else {
            " email = null, email_verified = false"@
        }),
    };
    "update users set"@ + a + b + " where id = $1"@
}

/// The update statement for a user (see [`user_update_spec`]).
pub fn user_update_query(username: bool, email: Option<bool>) -> (r: String)
    ensures
        r@ == user_update_spec(username, email),
{
    let mut q = String::from_str("update users set");
    let mut next: usize = 2;
    if username {
        q.append(" username = ");
        crate::text::push_char(&mut q, '$');
        push_decimal(&mut q, 2);
        next = 3;
    }
    match email {
        None => {},
        Some(v) => {
            if username {
                crate::text::push_char(&mut q, ',');
            }
            if v {
                q.append(" email = ");
                crate::text::push_char(&mut q, '$');
                push_decimal(&mut q, next);
                q.append(", email_verified = false");
            } else {
                q.append(" email = null, email_verified = false");
            }
        },
    }
    q.append(" where id = $1");
    q
}

} // verus!
