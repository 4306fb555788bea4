use rfs::routing::api::fs::{contents_plan, created_tags, dir_tree_query};
use rfs::routing::api::fs::new_dir_plan;
use rfs::routing::api::fs::item_update_plan;
use rfs::routing::api::sec::roles::{role_create_plan, role_update_plan, PermissionChange};
use rfs::fs::backend::Node;
use rfs::routing::api::fs::storage::storage_create_plan;
use rfs::routing::api::sec::secrets::{rotated_version, rotation_batches};
use rfs::error::api::ApiErrorKind;
use rfs::net::html::is_html_accept;
use rfs::config::{PathKind, Probe};
use rfs::routing::api::fs::storage::{
    check_local_path, name_taken, storage_update_query, update_allowed, StorageRefusal,
};
use rfs::routing::api::fs::{item_update_query, ItemKind, Removal, RowAction, TreeDeletion};
use rfs::routing::api::sec::roles::permission_insert_query;
use rfs::routing::api::sec::secrets::{
    drop_session_keys, password_get_next_avail, rotation_update_query,
};
use rfs::routing::api::user::user_update_query;
use rfs::routing::sql::write_sql_array;

#[test]
fn sql_array_elements() {
    let mut s = String::new();
    write_sql_array(&mut s, 1, false);
    write_sql_array(&mut s, 4, true);
    write_sql_array(&mut s, 17, true);
    assert_eq!(s, "$1,$4,$17");
}

#[test]
fn rotation_statement_for_two_rows() {
    assert_eq!(
        rotation_update_query(2),
        "with to_update as (select * from unnest(ARRAY[$1,$4]::bigint[], ARRAY[$2,$5]::bigint[], ARRAY[$3,$6]) as t(user_id, version, hash)) update auth_password set user_id = to_update.user_id, version = to_update.version, hash = to_update.hash from to_update where to_update.user_id = auth_password.user_id"
    );
}

#[test]
fn rotation_statement_for_one_row() {
    let q = rotation_update_query(1);
    assert!(q.starts_with("with to_update as (select * from unnest(ARRAY[$1]::bigint[], ARRAY[$2]::bigint[], ARRAY[$3]) as t("));
}

#[test]
fn next_pepper_is_newest_other_version() {
    let keys = vec![(1u64, "a"), (2, "b"), (3, "c")];
    assert_eq!(password_get_next_avail(2, &keys), Ok((1, Some(2))));
    assert_eq!(password_get_next_avail(3, &keys), Ok((2, Some(1))));
    assert_eq!(password_get_next_avail(1, &keys), Ok((0, Some(2))));
}

#[test]
fn only_pepper_has_no_successor() {
    let keys = vec![(7u64, ())];
    assert_eq!(password_get_next_avail(7, &keys), Ok((0, None)));
}

#[test]
fn unknown_pepper_version() {
    let keys = vec![(1u64, ()), (2, ())];
    assert_eq!(password_get_next_avail(5, &keys), Err(ApiErrorKind::SecretNotFound));
    let none: Vec<(u64, ())> = Vec::new();
    assert_eq!(password_get_next_avail(1, &none), Err(ApiErrorKind::SecretNotFound));
}

#[test]
fn session_keys_dropped_newest_first() {
    let mut keys = vec![1, 2, 3, 4];
    drop_session_keys(&mut keys, Some(3));
    assert_eq!(keys, vec![1]);
    let mut keys = vec![1, 2];
    drop_session_keys(&mut keys, Some(5));
    assert!(keys.is_empty());
    let mut keys = vec![1, 2];
    drop_session_keys(&mut keys, None);
    assert_eq!(keys, vec![1, 2]);
    let mut keys = vec![1, 2];
    drop_session_keys(&mut keys, Some(0));
    assert_eq!(keys, vec![1, 2]);
}

#[test]
fn permissions_stored_once_each() {
    let (q, pairs) = permission_insert_query(&vec![(1, 2), (3, 4), (1, 2), (5, 6), (3, 4)]);
    assert_eq!(pairs, vec![(1, 2), (3, 4), (5, 6)]);
    assert_eq!(
        q,
        "insert into authz_permissions (role_id, scope, ability) values ($1, $2, $3), ($1, $4, $5), ($1, $6, $7)"
    );
}

#[test]
fn single_permission() {
    let (q, pairs) = permission_insert_query(&vec![(9, 9)]);
    assert_eq!(pairs, vec![(9, 9)]);
    assert_eq!(q, "insert into authz_permissions (role_id, scope, ability) values ($1, $2, $3)");
}

#[test]
fn user_update_statements() {
    assert_eq!(user_update_query(true, None), "update users set username = $2 where id = $1");
    assert_eq!(
        user_update_query(true, Some(true)),
        "update users set username = $2, email = $3, email_verified = false where id = $1"
    );
    assert_eq!(
        user_update_query(false, Some(true)),
        "update users set email = $2, email_verified = false where id = $1"
    );
    assert_eq!(
        user_update_query(false, Some(false)),
        "update users set email = null, email_verified = false where id = $1"
    );
    assert_eq!(
        user_update_query(true, Some(false)),
        "update users set username = $2, email = null, email_verified = false where id = $1"
    );
}

#[test]
fn storage_update_statements() {
    assert_eq!(storage_update_query(false, false), None);
    assert_eq!(
        storage_update_query(true, false),
        Some("update storage set updated = $2name = $3 where storage_id = $1".to_owned())
    );
    assert_eq!(
        storage_update_query(false, true),
        Some("update storage set updated = $2where storage_id = $1".to_owned())
    );
}

#[test]
fn item_update_statements() {
    assert_eq!(item_update_query(None), "update fs set updated = $2 where id = $1");
    assert_eq!(item_update_query(Some("")), "update fs set updated = $2, comment = null where id = $1");
    assert_eq!(
        item_update_query(Some("note")),
        "update fs set updated = $2, comment = $3 where id = $1"
    );
}

#[test]
fn tree_deletion_keeps_parents_of_kept_items() {
    let mut t = TreeDeletion::new();
    // deepest first: file 3 in dir 2, file 4 in dir 2 (fails), dir 2 in root dir 1
    let a = t.decide(3, ItemKind::File, true);
    assert!(a == RowAction::RemoveFile);
    t.record(3, 2, a, Removal::Removed);
    let a = t.decide(4, ItemKind::File, true);
    t.record(4, 2, a, Removal::Failed);
    let a = t.decide(2, ItemKind::Directory, true);
    assert!(a == RowAction::SkipChild);
    t.record(2, 1, a, Removal::NotFound);
    let a = t.decide(1, ItemKind::Directory, true);
    assert!(a == RowAction::SkipChild);
    t.record(1, 0, a, Removal::NotFound);
    assert_eq!(t.deleted(), &vec![3]);
    assert_eq!(t.failed(), &vec![4]);
    assert_eq!(t.skipped(), &vec![2, 1]);
}

#[test]
fn tree_deletion_of_everything() {
    let mut t = TreeDeletion::new();
    let a = t.decide(5, ItemKind::File, true);
    t.record(5, 4, a, Removal::NotFound);
    let a = t.decide(4, ItemKind::Directory, true);
    assert!(a == RowAction::RemoveDir);
    t.record(4, 1, a, Removal::Removed);
    let a = t.decide(6, ItemKind::File, false);
    assert!(a == RowAction::BackendMismatch);
    t.record(6, 1, a, Removal::Removed);
    assert!(t.decide(1, ItemKind::Directory, true) == RowAction::SkipChild);
    assert!(t.decide(7, ItemKind::Other, true) == RowAction::Unhandled);
    assert_eq!(t.deleted(), &vec![5, 4]);
    assert_eq!(t.failed(), &vec![6]);
    assert!(t.skipped().is_empty());
}

#[test]
fn html_accept_header() {
    assert!(matches!(is_html_accept(None), Ok(None)));
    let m = is_html_accept(Some("application/json,text/*;q=0.8,text/html;q=0.5")).unwrap().unwrap();
    assert_eq!(m.type_, "text");
    assert_eq!(m.subtype, "html");
    assert_eq!(m.params, vec![("q".to_owned(), "0.5".to_owned())]);
    let m = is_html_accept(Some("TEXT/HTML")).unwrap().unwrap();
    assert!(m.type_.eq_ignore_ascii_case("text") && m.subtype.eq_ignore_ascii_case("html"));
    assert!(m.params.is_empty());
    assert!(matches!(is_html_accept(Some("*/*")), Ok(None)));
    assert!(matches!(is_html_accept(Some("application/json, image/png")), Ok(None)));
    assert!(matches!(is_html_accept(Some("text/plain")), Ok(None)));
}

#[test]
fn html_accept_refuses_non_header_text() {
    assert_eq!(is_html_accept(Some("\u{e9}")).err(), Some(ApiErrorKind::InvalidHeaderValue));
    assert_eq!(is_html_accept(Some("text/html\n")).err(), Some(ApiErrorKind::InvalidHeaderValue));
    assert!(matches!(is_html_accept(Some("text/html;\tq=1")), Ok(_)));
}

#[test]
fn local_storage_directory_checks() {


    let dir = Probe::Found(PathKind::Directory);
    assert!(check_local_path("/srv/store", &dir).is_ok());
    assert!(matches!(
        check_local_path("srv/store", &dir),
        Err(StorageRefusal::Kind(ApiErrorKind::NotAbsolutePath))
    ));
    assert!(matches!(
        check_local_path("/srv/store", &Probe::Missing),
        Err(StorageRefusal::Kind(ApiErrorKind::DirNotFound))
    ));
    assert!(matches!(
        check_local_path("/srv/store", &Probe::Found(PathKind::File)),
        Err(StorageRefusal::Kind(ApiErrorKind::NotDirectory))
    ));
    match check_local_path("/srv/store", &Probe::Failed("denied".to_owned())) {
        Err(StorageRefusal::Io(m)) => assert_eq!(m, "denied"),
        _ => panic!("expected the lookup failure"),
    }
}

#[test]
fn storage_update_gates() {

    assert_eq!(update_allowed(true, true, true), Err(ApiErrorKind::StorageNotFound));
    assert_eq!(update_allowed(false, false, true), Err(ApiErrorKind::PermissionDenied));
    assert_eq!(update_allowed(false, true, false), Err(ApiErrorKind::NoWork));
    assert_eq!(update_allowed(false, true, true), Ok(()));
    assert!(name_taken(Some(4), 5));
    assert!(!name_taken(Some(5), 5));
    assert!(!name_taken(None, 5));
}

#[test]
fn new_directory_decisions() {
    use_new_dir_checks();
}

fn use_new_dir_checks() {
    let d = new_dir_plan(ItemKind::Directory, "root/home", "docs", Some("c"), true, true, false, "/srv/store", "home")
        .ok()
        .unwrap();
    assert_eq!(d.full, "/srv/store/home/docs");
    match &d.backend {
        Node::Local(l) => assert_eq!(l.path, "home/docs"),
    }
    assert_eq!(d.path, "root/home");
    assert_eq!(d.basename, "docs");
    assert_eq!(d.comment.as_deref(), Some("c"));
    let d = new_dir_plan(ItemKind::Other, "root", "docs", None, true, true, false, "/srv/store", "")
        .ok()
        .unwrap();
    assert_eq!(d.full, "/srv/store/docs");
    assert!(d.comment.is_none());
    assert!(matches!(
        new_dir_plan(ItemKind::File, "p", "docs", None, false, true, true, "/s", ""),
        Err(ApiErrorKind::ValidationFailed)
    ));
    assert!(matches!(
        new_dir_plan(ItemKind::File, "p", "docs", None, true, true, true, "/s", ""),
        Err(ApiErrorKind::InvalidType)
    ));
    assert!(matches!(
        new_dir_plan(ItemKind::Directory, "p", "docs", None, true, true, true, "/s", ""),
        Err(ApiErrorKind::AlreadyExists)
    ));
}

#[test]
fn tags_of_new_items() {
    assert!(matches!(created_tags(None, true), Ok(t) if t.is_empty()));
    let t = vec![("a".to_owned(), "b".to_owned())];
    assert!(matches!(created_tags(Some(t.clone()), true), Ok(x) if x == t));
    assert!(matches!(created_tags(Some(t), false), Err(ApiErrorKind::InvalidTags)));
}

#[test]
fn contents_listing_queries() {
    assert!(matches!(contents_plan(ItemKind::File, None), Err(ApiErrorKind::NotDirectory)));
    let q = contents_plan(ItemKind::Directory, Some(3)).ok().unwrap();
    assert!(q.after_last);
    assert!(q.query.ends_with("where fs.parent = $1 and fs.id > (select fs.id from fs where fs.uid = $2) order by fs.id limit $3"));
    let q = contents_plan(ItemKind::Other, None).ok().unwrap();
    assert!(!q.after_last);
    assert!(q.query.ends_with("where fs.parent = $1 order by fs.id limit $2 offset $3"));
    assert!(dir_tree_query().ends_with("order by level desc, parent, fs_type, id"));
}

#[test]
fn item_update_decisions() {
    assert!(matches!(item_update_plan(None, None), Err(ApiErrorKind::NoWork)));
    assert!(matches!(item_update_plan(Some("x"), Some(false)), Err(ApiErrorKind::InvalidTags)));
    let u = item_update_plan(Some(""), Some(true)).ok().unwrap();
    assert_eq!(u.query, "update fs set updated = $2, comment = null where id = $1");
    assert_eq!(u.comment, Some(None));
    assert!(u.replace_tags);
    let u = item_update_plan(Some("note"), None).ok().unwrap();
    assert_eq!(u.comment, Some(Some("note".to_owned())));
    assert!(!u.replace_tags);
    let u = item_update_plan(None, Some(true)).ok().unwrap();
    assert_eq!(u.query, "update fs set updated = $2 where id = $1");
    assert_eq!(u.comment, None);
}

#[test]
fn role_updates() {
    assert!(matches!(role_update_plan(false, true, None), Err(ApiErrorKind::RoleNotFound)));
    assert!(matches!(role_update_plan(true, false, None), Err(ApiErrorKind::NoWork)));
    let u = role_update_plan(true, true, None).ok().unwrap();
    assert!(u.rename && matches!(u.permissions, PermissionChange::Keep));
    let empty: Vec<(u16, u16)> = Vec::new();
    let u = role_update_plan(true, false, Some(&empty)).ok().unwrap();
    assert!(matches!(u.permissions, PermissionChange::Clear));
    let ps = vec![(1, 1), (1, 1), (2, 3)];
    match role_update_plan(true, false, Some(&ps)).ok().unwrap().permissions {
        PermissionChange::Replace(q, pairs) => {
            assert_eq!(pairs, vec![(1, 1), (2, 3)]);
            assert_eq!(q, "insert into authz_permissions (role_id, scope, ability) values ($1, $2, $3), ($1, $4, $5)");
        }
        _ => panic!("expected a replacement"),
    }
    assert!(matches!(role_create_plan(true, &ps), Err(ApiErrorKind::AlreadyExists)));
    assert!(matches!(role_create_plan(false, &empty), Ok(None)));
    match role_create_plan(false, &ps) {
        Ok(Some((_, pairs))) => assert_eq!(pairs, vec![(1, 1), (2, 3)]),
        _ => panic!("expected the permissions"),
    }
}

#[test]
fn storage_creation() {
    let dir = Probe::Found(PathKind::Directory);
    match storage_create_plan("/srv/store", &dir, "main", true, false, true) {
        Ok(root) => {
            assert_eq!(root.basename, "main");
            match root.backend {
                Node::Local(l) => assert_eq!(l.path, ""),
            }
        }
        Err(_) => panic!("storage refused"),
    }
    assert!(matches!(
        storage_create_plan("rel", &dir, "main", true, false, true),
        Err(StorageRefusal::Kind(ApiErrorKind::NotAbsolutePath))
    ));
    assert!(matches!(
        storage_create_plan("/srv/store", &Probe::Missing, "main", true, false, true),
        Err(StorageRefusal::Kind(ApiErrorKind::DirNotFound))
    ));
    assert!(matches!(
        storage_create_plan("/srv/store", &dir, "main", false, false, true),
        Err(StorageRefusal::Kind(ApiErrorKind::ValidationFailed))
    ));
    assert!(matches!(
        storage_create_plan("/srv/store", &dir, "main", true, true, true),
        Err(StorageRefusal::Kind(ApiErrorKind::AlreadyExists))
    ));
    assert!(matches!(
        storage_create_plan("/srv/store", &dir, "main", true, false, false),
        Err(StorageRefusal::Kind(ApiErrorKind::InvalidTags))
    ));
}

#[test]
fn rotation_batching() {
    assert_eq!(rotation_batches(0), Vec::<usize>::new());
    assert_eq!(rotation_batches(7), vec![7]);
    assert_eq!(rotation_batches(10), vec![10]);
    assert_eq!(rotation_batches(20), vec![10, 10]);
    assert_eq!(rotation_batches(25), vec![10, 10, 5]);
    assert_eq!(rotated_version(Some(4)), 4);
    assert_eq!(rotated_version(None), 0);
}
