//! Password peppers and session keys: choosing the pepper that replaces a
//! retired one, rewriting the password hashes in batches, and dropping
//! session keys.
use vstd::prelude::*;
use vstd::string::*;
use crate::error::api::ApiErrorKind;
use crate::routing::sql::{param, write_sql_array};

verus! {

/// The version in the path of a password pepper route.
pub struct PaswordVersionPath {
    pub version: u64,
}

/// How many session keys to drop, newest first.
pub struct SessionDeleteQuery {
    pub amount: Option<usize>,
}

/// The index of the first key of version `v`, or -1.
pub open spec fn version_index<K>(keys: Seq<(u64, K)>, v: u64) -> int
    decreases keys.len(),
{
    if keys.len() == 0 {
        -1
    } else if keys[0].0 == v {
        0
    } else {
        let r = version_index(keys.drop_first(), v);
        if r < 0 {
            -1
        } else {
            r + 1
        }
    }
}

/// The index of the last key whose version is not `v`, or -1.
pub open spec fn last_other_index<K>(keys: Seq<(u64, K)>, v: u64) -> int
    decreases keys.len(),
{
    if keys.len() == 0 {
        -1
    } else if keys.last().0 != v {
        keys.len() - 1
    } else {
        last_other_index(keys.drop_last(), v)
    }
}

proof fn lemma_version_index<K>(keys: Seq<(u64, K)>, v: u64, i: int)
    requires
        0 <= i <= keys.len(),
        forall|j: int| 0 <= j < i ==> (#[trigger] keys[j]).0 != v,
        i < keys.len() ==> keys[i].0 == v,
    ensures
        i < keys.len() ==> version_index(keys, v) == i,
        i == keys.len() ==> version_index(keys, v) == -1,
    decreases i,
{
    if i > 0 {
        let t = keys.drop_first();
        assert forall|j: int| 0 <= j < i - 1 implies (#[trigger] t[j]).0 != v by {
            assert(t[j] == keys[j + 1]);
        }
        if i < keys.len() {
            assert(t[i - 1] == keys[i]);
        }
        lemma_version_index(t, v, i - 1);
        assert(keys[0].0 != v);
    }
}

/// Finds the pepper of version `version` and the pepper that takes over the
/// passwords it protects: the newest pepper of another version. `keys` are
/// the peppers in order of version, as indices into it.
pub fn password_get_next_avail<K>(version: u64, keys: &Vec<(u64, K)>) -> (r: Result<
    (usize, Option<usize>),
    ApiErrorKind,
>)
    ensures
        match r {
            Err(k) => k == ApiErrorKind::SecretNotFound && version_index(keys@, version) == -1,
            Ok((found, other)) => found as int == version_index(keys@, version) && found < keys@.len()
                && keys@[found as int].0 == version && match other {
                None => last_other_index(keys@, version) == -1,
                Some(o) => o as int == last_other_index(keys@, version) && o < keys@.len(),
            },
        },
{
    let mut i: usize = 0;
    while i < keys.len() && keys[i].0 != version
        invariant
            i <= keys@.len(),
            forall|j: int| 0 <= j < i ==> (#[trigger] keys@[j]).0 != version,
        decreases keys.len() - i,
    {
        i = i + 1;
    }
    proof {
        lemma_version_index(keys@, version, i as int);
    }
    if i == keys.len() {
        return Err(ApiErrorKind::SecretNotFound);
    }
    let f = i;
    let mut j: usize = keys.len();
    assert(keys@.take(j as int) =~= keys@);
    while j > 0 && keys[j - 1].0 == version
        invariant
            j <= keys@.len(),
            last_other_index(keys@.take(j as int), version) == last_other_index(keys@, version),
        decreases j,
    {
        assert(keys@.take(j as int).drop_last() =~= keys@.take(j - 1));
        j = j - 1;
    }
    if j == 0 {
        Ok((f, None))
    } else {
        assert(keys@.take(j as int).last() == keys@[j - 1]);
        Ok((f, Some(j - 1)))
    }
}

/// The number of elements left after dropping `amount` of `len` (none when
/// no amount is given).
pub open spec fn kept_after_drop(len: nat, amount: Option<usize>) -> nat {
    match amount {
        None => len,
        Some(a) => if a >= len { 0 } else { (len - a) as nat },
    }
}

/// Drops up to `amount` session keys, newest (last) first.
pub fn drop_session_keys<K>(keys: &mut Vec<K>, amount: Option<usize>)
    ensures
        final(keys)@ == old(keys)@.take(kept_after_drop(old(keys)@.len(), amount) as int),
{
    let mut left = match amount {
        None => {
            assert(old(keys)@.take(old(keys)@.len() as int) =~= old(keys)@);
            return;
        },
        Some(a) => a,
    };
    while left > 0 && keys.len() > 0
        invariant
            keys@ == old(keys)@.take(keys@.len() as int),
            keys@.len() + (amount->0 - left) == old(keys)@.len(),
            left <= amount->0,
            amount is Some,
        decreases left,
    {
        keys.pop();
        left = left - 1;
        assert(keys@ =~= old(keys)@.take(keys@.len() as int));
    }
}

/// The elements of an SQL array literal holding the parameters `start`,
/// `start + step`, ... (`count` of them), separated by commas.
pub open spec fn array_elems(start: nat, step: nat, count: nat) -> Seq<char>
    decreases count,
{
    if count == 0 {
        Seq::empty()
    } else {
        array_elems(start, step, (count - 1) as nat) + (if count > 1 { seq![','] } else {
            Seq::<char>::empty()
        }) + param((start + step * (count - 1)) as nat)
    }
}

/// The statement that rewrites one batch of `rows` password hashes: row `j`
/// (from 0) binds its user id, pepper version and hash to the parameters
/// `3j + 1`, `3j + 2` and `3j + 3`.
pub open spec fn rotation_update_spec(rows: nat) -> Seq<char> {
    "with to_update as (select * from unnest(ARRAY["@ + array_elems(1, 3, rows)
        + "]::bigint[], ARRAY["@ + array_elems(2, 3, rows) + "]::bigint[], ARRAY["@
        + array_elems(3, 3, rows)
        + "]) as t(user_id, version, hash)) update auth_password set user_id = to_update.user_id, version = to_update.version, hash = to_update.hash from to_update where to_update.user_id = auth_password.user_id"@
}

/// The statement that rewrites a batch of password hashes (see
/// [`rotation_update_spec`]).
pub fn rotation_update_query(rows: usize) -> (r: String)
    requires
        rows <= usize::MAX / 3,
    ensures
        r@ == rotation_update_spec(rows as nat),
{
    let mut ids = String::new();
    let mut vers = String::new();
    let mut hashes = String::new();
    let mut j: usize = 0;
    while j < rows
        invariant
            j <= rows <= usize::MAX / 3,
            ids@ == array_elems(1, 3, j as nat),
            vers@ == array_elems(2, 3, j as nat),
            hashes@ == array_elems(3, 3, j as nat),
        decreases rows - j,
    {
        write_sql_array(&mut ids, 3 * j + 1, j > 0);
        write_sql_array(&mut vers, 3 * j + 2, j > 0);
        write_sql_array(&mut hashes, 3 * j + 3, j > 0);
        j = j + 1;
    }
    let mut q = String::from_str("with to_update as (select * from unnest(ARRAY[");
    q.append(ids.as_str());
    q.append("]::bigint[], ARRAY[");
    q.append(vers.as_str());
    q.append("]::bigint[], ARRAY[");
    q.append(hashes.as_str());
    q.append(
        "]) as t(user_id, version, hash)) update auth_password set user_id = to_update.user_id, version = to_update.version, hash = to_update.hash from to_update where to_update.user_id = auth_password.user_id",
    );
    q
}


/// How many password hashes one rotation statement rewrites at most.
pub const ROTATION_BATCH: usize = 10;

/// The sizes of the rotation statements for `rows` password hashes read one
/// after another: full batches of [`ROTATION_BATCH`], then what is left, if
/// anything; no statement for no hashes.
pub open spec fn batch_sizes(rows: nat) -> Seq<usize>
    decreases rows,
{
    if rows == 0 {
        Seq::empty()
    } else if rows <= 10 {
        seq![rows as usize]
    } else {
        seq![10usize] + batch_sizes((rows - 10) as nat)
    }
}

/// The sizes of the rotation statements for `rows` password hashes (see
/// [`batch_sizes`]).
pub fn rotation_batches(rows: usize) -> (r: Vec<usize>)
    ensures
        r@ == batch_sizes(rows as nat),
{
    let mut out: Vec<usize> = Vec::new();
    let mut left: usize = rows;
    assert(batch_sizes(rows as nat) =~= out@ + batch_sizes(left as nat));
    while left > 0
        invariant
            batch_sizes(rows as nat) == out@ + batch_sizes(left as nat),
        decreases left,
    {
        if left <= ROTATION_BATCH {
            out.push(left);
            assert(batch_sizes(rows as nat) =~= out@ + batch_sizes(0));
            left = 0;
        } else {
            let ghost before = out@;
            out.push(ROTATION_BATCH);
            assert(before + batch_sizes(left as nat) =~= out@ + batch_sizes((left - 10) as nat));
            left = left - ROTATION_BATCH;
        }
    }
    assert(out@ + batch_sizes(0) =~= out@);
    out
}

/// The pepper version a rotated password hash is stored under: that of the
/// pepper taking over, or 0 (no pepper) when there is none, the hash then
/// being stored without a pepper.
pub fn rotated_version(next: Option<u64>) -> (r: u64)
    ensures
        r == match next {
            Some(v) => v,
            None => 0,
        },
{
    match next {
        Some(v) => v,
        None => 0,
    }
}

} // verus!
