//! Roles: the statement that stores a role's permissions, each distinct
//! (scope, ability) pair once.
use vstd::prelude::*;
use vstd::string::*;
use crate::routing::sql::param;
use crate::text::push_decimal;
use crate::error::api::ApiErrorKind;

verus! {

/// The distinct pairs of `ps`, in the order of their first occurrence.
pub open spec fn dedup_pairs(ps: Seq<(u16, u16)>) -> Seq<(u16, u16)>
    decreases ps.len(),
{
    if ps.len() == 0 {
        Seq::empty()
    } else {
        let d = dedup_pairs(ps.drop_last());
        if d.contains(ps.last()) {
            d
        } else {
            d.push(ps.last())
        }
    }
}

/// The value rows of the statement: row `j` (from 0) is `($1, $a, $b)` with
/// `a = 2 + 2j` and `b = 3 + 2j`, the role being parameter 1.
pub open spec fn values_text(n: nat) -> Seq<char>
    decreases n,
{
    if n == 0 {
        Seq::empty()
    } else {
        values_text((n - 1) as nat) + (if n > 1 { ", ("@ } else { " ("@ }) + "$1, "@ + param(2 * n)
            + ", "@ + param(2 * n + 1) + ")"@
    }
}

/// The statement storing the permissions of a role.
pub open spec fn permission_insert_spec(ps: Seq<(u16, u16)>) -> Seq<char> {
    "insert into authz_permissions (role_id, scope, ability) values"@ + values_text(
        dedup_pairs(ps).len(),
    )
}

/// The statement storing a role's permissions, and the distinct
/// (scope, ability) pairs it binds, in order: pair `j` is bound to the
/// parameters `2 + 2j` (scope) and `3 + 2j` (ability).
pub fn permission_insert_query(perms: &Vec<(u16, u16)>) -> (r: (String, Vec<(u16, u16)>))
    requires
        perms@.len() < usize::MAX / 4,
    ensures
        r.1@ == dedup_pairs(perms@),
        r.0@ == permission_insert_spec(perms@),
{
    let mut provided: Vec<(u16, u16)> = Vec::new();
    let mut rows = String::new();
    let mut i: usize = 0;
    assert(perms@.take(0) =~= Seq::<(u16, u16)>::empty());
    while i < perms.len()
        invariant
            i <= perms@.len() < usize::MAX / 4,
            provided@ == dedup_pairs(perms@.take(i as int)),
            provided@.len() <= i,
            rows@ == values_text(provided@.len() as nat),
        decreases perms.len() - i,
    {
        let pair = perms[i];
        assert(perms@.take(i + 1).drop_last() =~= perms@.take(i as int));
        assert(perms@.take(i + 1).last() == pair);
        let mut k: usize = 0;
        let mut seen = false;
        while k < provided.len()
            invariant
                k <= provided@.len(),
                !seen ==> forall|j: int| 0 <= j < k ==> provided@[j] != pair,
                seen ==> provided@.contains(pair),
            decreases provided.len() - k,
        {
            if provided[k].0 == pair.0 && provided[k].1 == pair.1 {
                seen = true;
                assert(provided@[k as int] == pair);
            }
            k = k + 1;
        }
        if !seen {
            let n = provided.len() + 1;
            if n > 1 {
                rows.append(", (");
            } else {
                rows.append(" (");
            }
            rows.append("$1, ");
            crate::text::push_char(&mut rows, '$');
            push_decimal(&mut rows, 2 * n);
            rows.append(", ");
            crate::text::push_char(&mut rows, '$');
            push_decimal(&mut rows, 2 * n + 1);
            rows.append(")");
            provided.push(pair);
            assert(rows@ =~= values_text(provided@.len() as nat));
        }
        i = i + 1;
    }
    assert(perms@.take(perms@.len() as int) =~= perms@);
    let mut q = String::from_str("insert into authz_permissions (role_id, scope, ability) values");
    q.append(rows.as_str());
    (q, provided)
}

proof fn lemma_push_contains<A>(s: Seq<A>, x: A, p: A)
    ensures
        s.push(x).contains(p) <==> (s.contains(p) || p == x),
{
    if s.contains(p) {
        let k = choose|k: int| 0 <= k < s.len() && s[k] == p;
        assert(s.push(x)[k] == p);
    }
    if p == x {
        assert(s.push(x)[s.len() as int] == x);
    }
    if s.push(x).contains(p) {
        let k = choose|k: int| 0 <= k < s.len() + 1 && s.push(x)[k] == p;
        if k < s.len() {
            assert(s[k] == p);
        }
    }
}

/// Law: the stored pairs are exactly the pairs given, each once.
pub proof fn lemma_dedup_pairs(ps: Seq<(u16, u16)>)
    ensures
        forall|i: int, j: int|
            0 <= i < j < dedup_pairs(ps).len() ==> dedup_pairs(ps)[i] != dedup_pairs(ps)[j],
        forall|p: (u16, u16)| ps.contains(p) <==> dedup_pairs(ps).contains(p),
    decreases ps.len(),
{
    if ps.len() > 0 {
        let init = ps.drop_last();
        let x = ps.last();
        lemma_dedup_pairs(init);
        let d = dedup_pairs(init);
        assert(ps =~= init.push(x));
        assert forall|p: (u16, u16)| ps.contains(p) <==> dedup_pairs(ps).contains(p) by {
            lemma_push_contains(init, x, p);
            lemma_push_contains(d, x, p);
        }
        if !d.contains(x) {
            assert forall|i: int, j: int|
                0 <= i < j < dedup_pairs(ps).len() implies dedup_pairs(ps)[i]
                != dedup_pairs(ps)[j] by {
                if j == d.len() {
                    assert(d[i] == dedup_pairs(ps)[i]);
                }
            }
        }
    }
}


/// What an update does to a role's stored permissions.
pub enum PermissionChange {
    /// They stay as they are.
    Keep,
    /// They are all removed.
    Clear,
    /// They are all removed, then the statement stores the given pairs.
    Replace(String, Vec<(u16, u16)>),
}

/// The permissions a role holds after a change.
pub open spec fn applied(c: PermissionChange, old: Seq<(u16, u16)>) -> Seq<(u16, u16)> {
    match c {
        PermissionChange::Keep => old,
        PermissionChange::Clear => Seq::empty(),
        PermissionChange::Replace(_, pairs) => pairs@,
    }
}

/// The permissions a role should hold after an update: given permissions
/// replace the old ones, each distinct pair once; otherwise the old ones stay.
pub open spec fn stored_after(old: Seq<(u16, u16)>, perms: Option<Seq<(u16, u16)>>) -> Seq<(u16, u16)> {
    match perms {
        None => old,
        Some(ps) => dedup_pairs(ps),
    }
}

/// The decision on a role update.
pub struct RoleUpdate {
    /// Whether the role is renamed.
    pub rename: bool,
    /// What happens to its permissions.
    pub permissions: PermissionChange,
}

/// Decides an update of a role, in this order: a role that does not exist
/// is refused with `RoleNotFound`; an update that neither renames it nor
/// gives permissions is refused with `NoWork`. Given permissions replace the
/// stored ones: all are removed, then the distinct pairs are stored (no
/// statement when none are given).
pub fn role_update_plan(found: bool, rename: bool, perms: Option<&Vec<(u16, u16)>>) -> (r: Result<
    RoleUpdate,
    ApiErrorKind,
>)
    requires
        perms matches Some(ps) ==> ps@.len() < usize::MAX / 4,
    ensures
        !found ==> (r matches Err(k) && k == ApiErrorKind::RoleNotFound),
        found && !rename && perms is None ==> (r matches Err(k) && k == ApiErrorKind::NoWork),
        found && (rename || perms is Some) ==> (r matches Ok(u) && u.rename == rename && (forall|
            old: Seq<(u16, u16)>,
        |
            #![trigger applied(u.permissions, old)]
            applied(u.permissions, old) == stored_after(
                old,
                match perms {
                    Some(ps) => Some(ps@),
                    None => None,
                },
            )) && match perms {
            None => u.permissions is Keep,
            Some(ps) => if ps@.len() == 0 {
                u.permissions is Clear
            } else {
                u.permissions matches PermissionChange::Replace(q, pairs) && q@ == permission_insert_spec(
                    ps@,
                ) && pairs@ == dedup_pairs(ps@)
            },
        }),
{
    if !found {
        return Err(ApiErrorKind::RoleNotFound);
    }
    if !rename && perms.is_none() {
        return Err(ApiErrorKind::NoWork);
    }
    let permissions = match perms {
        None => PermissionChange::Keep,
        Some(ps) => if ps.len() == 0 {
            assert(dedup_pairs(ps@) =~= Seq::<(u16, u16)>::empty());
            PermissionChange::Clear
        } else {
            let (q, pairs) = permission_insert_query(ps);
            PermissionChange::Replace(q, pairs)
        },
    };
    Ok(RoleUpdate { rename, permissions })
}

/// Decides the creation of a role: when storing the role reported its name
/// as already used, it is refused with `AlreadyExists`; otherwise its
/// permissions are stored, each distinct pair once, by the statement given
/// (none when no permissions are given).
pub fn role_create_plan(name_taken: bool, perms: &Vec<(u16, u16)>) -> (r: Result<
    Option<(String, Vec<(u16, u16)>)>,
    ApiErrorKind,
>)
    requires
        perms@.len() < usize::MAX / 4,
    ensures
        name_taken ==> (r matches Err(k) && k == ApiErrorKind::AlreadyExists),
        !name_taken && perms@.len() == 0 ==> r matches Ok(None),
        !name_taken && perms@.len() > 0 ==> (r matches Ok(Some((q, pairs))) && q@ == permission_insert_spec(
            perms@,
        ) && pairs@ == dedup_pairs(perms@)),
{
    if name_taken {
        return Err(ApiErrorKind::AlreadyExists);
    }
    if perms.len() == 0 {
        return Ok(None);
    }
    Ok(Some(permission_insert_query(perms)))
}

} // verus!
