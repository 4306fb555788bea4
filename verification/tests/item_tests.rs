use rfs::fs::backend::{Node, NodeLocal};
use rfs::fs::item::{ContainerRef, FsType, IdSet, Item, ItemRow, query_to_item};
use rfs::fs::traits::Common;

fn ids(n: i64) -> IdSet {
    IdSet { local: n, uid: format!("uid{n}") }
}

fn row(fs_type: FsType) -> ItemRow {
    ItemRow {
        fs_type,
        id: ids(5),
        user: ids(1),
        storage: ids(2),
        parent: Some(ids(4)),
        basename: "notes.txt".to_owned(),
        path: Some("root/docs".to_owned()),
        size: Some(12),
        mime: Some(("text".to_owned(), "plain".to_owned())),
        hash: Some([3u8; 32]),
        backend: Node::Local(NodeLocal { path: "docs/notes.txt".to_owned() }),
        comment: None,
        created: 100,
        updated: None,
        deleted: None,
    }
}

#[test]
fn rows_become_items_of_their_kind() {
    match query_to_item(row(FsType::File), vec![("k".to_owned(), "v".to_owned())]) {
        Item::File(f) => {
            assert_eq!(f.size, 12);
            assert_eq!(f.mime.1, "plain");
            assert_eq!(f.parent.local, 4);
            assert_eq!(f.full_path(), "root/docs/notes.txt");
            assert_eq!(f.tags.len(), 1);
        }
        _ => panic!("expected a file"),
    }
    match query_to_item(row(FsType::Directory), Vec::new()) {
        Item::Directory(d) => assert_eq!(d.parent(), Some(4)),
        _ => panic!("expected a directory"),
    }
    match query_to_item(row(FsType::Root), Vec::new()) {
        Item::Root(r) => {
            assert_eq!(r.parent(), None);
            assert_eq!(r.full_path(), "notes.txt");
        }
        _ => panic!("expected a root"),
    }
}

#[test]
fn containers_and_parent_parts() {
    let dir = query_to_item(row(FsType::Directory), Vec::new());
    assert!(matches!(dir.as_container(), Some(ContainerRef::Directory(_))));
    assert_eq!(dir.id().local, 5);
    assert_eq!(dir.user().uid, "uid1");
    assert_eq!(dir.storage().local, 2);
    match dir.try_into_parent_parts() {
        Ok((id, path, _)) => {
            assert_eq!(id.local, 5);
            assert_eq!(path, "root/docs/notes.txt");
        }
        Err(_) => panic!("a directory holds items"),
    }
    let file = query_to_item(row(FsType::File), Vec::new());
    assert!(file.as_container().is_none());
    let file = match file.try_into_parent_parts() {
        Err(f) => f,
        Ok(_) => panic!("a file holds nothing"),
    };
    assert_eq!(file.into_file().basename, "notes.txt");
    assert!(query_to_item(row(FsType::Root), Vec::new()).try_into_file().is_none());
}

#[test]
fn comments_and_tags_are_replaced() {
    let mut item = query_to_item(row(FsType::Root), Vec::new());
    assert_eq!(item.set_comment(Some("first".to_owned())), None);
    assert_eq!(item.set_comment(None), Some("first".to_owned()));
    let old = item.set_tags(vec![("a".to_owned(), "b".to_owned())]);
    assert!(old.is_empty());
    let old = item.set_tags(Vec::new());
    assert_eq!(old, vec![("a".to_owned(), "b".to_owned())]);
}
