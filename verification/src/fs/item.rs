//! File system items: the root of a storage medium, directories and files,
//! and the operations on an item whatever its kind.
use vstd::prelude::*;
use vstd::string::*;
use crate::fs::backend::Node;
use crate::fs::traits::{Common, Container};
use crate::text::push_char;

verus! {

/// The two ids of a record: its database id and its public uid.
#[derive(PartialEq, Eq)]
pub struct IdSet {
    pub local: i64,
    pub uid: String,
}

/// The root item of a storage medium.
pub struct Root {
    pub id: IdSet,
    pub user: IdSet,
    pub storage: IdSet,
    pub basename: String,
    pub backend: Node,
    pub tags: Vec<(String, String)>,
    pub comment: Option<String>,
    pub created: i64,
    pub updated: Option<i64>,
    pub deleted: Option<i64>,
}

/// A directory: under `parent`, at `path` within its storage.
pub struct Directory {
    pub id: IdSet,
    pub user: IdSet,
    pub storage: IdSet,
    pub backend: Node,
    pub parent: IdSet,
    pub basename: String,
    pub path: String,
    pub tags: Vec<(String, String)>,
    pub comment: Option<String>,
    pub created: i64,
    pub updated: Option<i64>,
    pub deleted: Option<i64>,
}

/// A file: under `parent`, at `path` within its storage, with its media
/// type (type and subtype), size and BLAKE3 digest.
pub struct File {
    pub id: IdSet,
    pub user: IdSet,
    pub storage: IdSet,
    pub parent: IdSet,
    pub path: String,
    pub basename: String,
    pub mime: (String, String),
    pub size: u64,
    pub hash: [u8; 32],
    pub backend: Node,
    pub tags: Vec<(String, String)>,
    pub comment: Option<String>,
    pub created: i64,
    pub updated: Option<i64>,
    pub deleted: Option<i64>,
}

/// `path/basename`.
pub open spec fn under(path: Seq<char>, basename: Seq<char>) -> Seq<char> {
    path + seq!['/'] + basename
}

fn path_under(path: &String, basename: &String) -> (r: String)
    ensures
        r@ == under(path@, basename@),
{
    let mut s = path.clone();
    push_char(&mut s, '/');
    s.append(basename.as_str());
    s
}

impl Common for Root {
    fn id(&self) -> (r: i64)
        ensures
            r == self.id.local,
    {
        self.id.local
    }

    fn parent(&self) -> (r: Option<i64>)
        ensures
            r is None,
    {
        None
    }

    fn user_id(&self) -> (r: i64)
        ensures
            r == self.user.local,
    {
        self.user.local
    }

    fn storage_id(&self) -> (r: i64)
        ensures
            r == self.storage.local,
    {
        self.storage.local
    }

    fn full_path(&self) -> (r: String)
        ensures
            r@ == self.basename@,
    {
        self.basename.clone()
    }

    fn created(&self) -> (r: i64)
        ensures
            r == self.created,
    {
        self.created
    }

    fn updated(&self) -> (r: Option<i64>)
        ensures
            r == self.updated,
    {
        self.updated
    }
}

impl Container for Root {}

impl Common for Directory {
    fn id(&self) -> (r: i64)
        ensures
            r == self.id.local,
    {
        self.id.local
    }

    fn parent(&self) -> (r: Option<i64>)
        ensures
            r == Some(self.parent.local),
    {
        Some(self.parent.local)
    }

    fn user_id(&self) -> (r: i64)
        ensures
            r == self.user.local,
    {
        self.user.local
    }

    fn storage_id(&self) -> (r: i64)
        ensures
            r == self.storage.local,
    {
        self.storage.local
    }

    fn full_path(&self) -> (r: String)
        ensures
            r@ == under(self.path@, self.basename@),
    {
        path_under(&self.path, &self.basename)
    }

    fn created(&self) -> (r: i64)
        ensures
            r == self.created,
    {
        self.created
    }

    fn updated(&self) -> (r: Option<i64>)
        ensures
            r == self.updated,
    {
        self.updated
    }
}

impl Container for Directory {}

impl Common for File {
    fn id(&self) -> (r: i64)
        ensures
            r == self.id.local,
    {
        self.id.local
    }

    fn parent(&self) -> (r: Option<i64>)
        ensures
            r == Some(self.parent.local),
    {
        Some(self.parent.local)
    }

    fn user_id(&self) -> (r: i64)
        ensures
            r == self.user.local,
    {
        self.user.local
    }

    fn storage_id(&self) -> (r: i64)
        ensures
            r == self.storage.local,
    {
        self.storage.local
    }

    fn full_path(&self) -> (r: String)
        ensures
            r@ == under(self.path@, self.basename@),
    {
        path_under(&self.path, &self.basename)
    }

    fn created(&self) -> (r: i64)
        ensures
            r == self.created,
    {
        self.created
    }

    fn updated(&self) -> (r: Option<i64>)
        ensures
            r == self.updated,
    {
        self.updated
    }
}

/// A file system item of any kind.
pub enum Item {
    Root(Root),
    Directory(Directory),
    File(File),
}

/// An item that can hold others, borrowed from an [`Item`].
pub enum ContainerRef<'a> {
    Root(&'a Root),
    Directory(&'a Directory),
}

/// The path within the storage of an item that holds others: a root's
/// basename, a directory's `path/basename`.
pub open spec fn container_path(item: Item) -> Option<Seq<char>> {
    match item {
        Item::Root(r) => Some(r.basename@),
        Item::Directory(d) => Some(under(d.path@, d.basename@)),
        Item::File(_) => None,
    }
}

impl Item {
    /// The item's ids.
    pub fn id(&self) -> (r: &IdSet)
        ensures
            match self {
                Item::Root(x) => r == &x.id,
                Item::Directory(x) => r == &x.id,
                Item::File(x) => r == &x.id,
            },
    {
        match self {
            Item::Root(x) => &x.id,
            Item::Directory(x) => &x.id,
            Item::File(x) => &x.id,
        }
    }

    /// The ids of the item's owner.
    pub fn user(&self) -> (r: &IdSet)
        ensures
            match self {
                Item::Root(x) => r == &x.user,
                Item::Directory(x) => r == &x.user,
                Item::File(x) => r == &x.user,
            },
    {
        match self {
            Item::Root(x) => &x.user,
            Item::Directory(x) => &x.user,
            Item::File(x) => &x.user,
        }
    }

    /// The ids of the item's storage medium.
    pub fn storage(&self) -> (r: &IdSet)
        ensures
            match self {
                Item::Root(x) => r == &x.storage,
                Item::Directory(x) => r == &x.storage,
                Item::File(x) => r == &x.storage,
            },
    {
        match self {
            Item::Root(x) => &x.storage,
            Item::Directory(x) => &x.storage,
            Item::File(x) => &x.storage,
        }
    }

    /// The item as one that holds others: a root or a directory, not a file.
    pub fn as_container(&self) -> (r: Option<ContainerRef<'_>>)
        ensures
            match self {
                Item::Root(x) => r matches Some(ContainerRef::Root(y)) && y == x,
                Item::Directory(x) => r matches Some(ContainerRef::Directory(y)) && y == x,
                Item::File(_) => r is None,
            },
    {
        match self {
            Item::Root(x) => Some(ContainerRef::Root(x)),
            Item::Directory(x) => Some(ContainerRef::Directory(x)),
            Item::File(_) => None,
        }
    }

    /// Replaces the item's comment, giving back the one it had.
    pub fn set_comment(&mut self, comment: Option<String>) -> (r: Option<String>)
        ensures
            match (*old(self), *final(self)) {
                (Item::Root(a), Item::Root(b)) => r == a.comment && b == Root { comment, ..a },
                (Item::Directory(a), Item::Directory(b)) => r == a.comment && b == Directory {
                    comment,
                    ..a
                },
                (Item::File(a), Item::File(b)) => r == a.comment && b == File { comment, ..a },
                _ => false,
            },
    {
        let mut c = comment;
        match self {
            Item::Root(x) => {
                std::mem::swap(&mut x.comment, &mut c);
            },
            Item::Directory(x) => {
                std::mem::swap(&mut x.comment, &mut c);
            },
            Item::File(x) => {
                std::mem::swap(&mut x.comment, &mut c);
            },
        }
        c
    }

    /// Replaces the item's tags, giving back the ones it had.
    pub fn set_tags(&mut self, tags: Vec<(String, String)>) -> (r: Vec<(String, String)>)
        ensures
            match (*old(self), *final(self)) {
                (Item::Root(a), Item::Root(b)) => r == a.tags && b == Root { tags, ..a },
                (Item::Directory(a), Item::Directory(b)) => r == a.tags && b == Directory {
                    tags,
                    ..a
                },
                (Item::File(a), Item::File(b)) => r == a.tags && b == File { tags, ..a },
                _ => false,
            },
    {
        let mut t = tags;
        match self {
            Item::Root(x) => {
                std::mem::swap(&mut x.tags, &mut t);
            },
            Item::Directory(x) => {
                std::mem::swap(&mut x.tags, &mut t);
            },
            Item::File(x) => {
                std::mem::swap(&mut x.tags, &mut t);
            },
        }
        t
    }

    /// What a new item under this one needs: this item's ids, its path
    /// within the storage (see [`container_path`]) and its backend; a file
    /// holds nothing and is given back.
    pub fn try_into_parent_parts(self) -> (r: Result<(IdSet, String, Node), Item>)
        ensures
            match self {
                Item::Root(x) => r matches Ok((id, p, b)) && id == x.id && p@ == x.basename@ && b == x.backend,
                Item::Directory(x) => r matches Ok((id, p, b)) && id == x.id && p@ == under(x.path@, x.basename@)
                    && b == x.backend,
                Item::File(_) => r == Err::<(IdSet, String, Node), Item>(self),
            },
    {
        match self {
            Item::Root(x) => {
                let p = x.full_path();
                Ok((x.id, p, x.backend))
            },
            Item::Directory(x) => {
                let p = x.full_path();
                Ok((x.id, p, x.backend))
            },
            Item::File(x) => Err(Item::File(x)),
        }
    }

    /// The item as a file, when it is one.
    pub fn try_into_file(self) -> (r: Option<File>)
        ensures
            match self {
                Item::File(x) => r == Some(x),
                _ => r is None,
            },
    {
        match self {
            Item::File(x) => Some(x),
            _ => None,
        }
    }

    /// The item, which must be a file, as a file.
    pub fn into_file(self) -> (r: File)
        requires
            self is File,
        ensures
            Some(r) == (match self {
                Item::File(x) => Some(x),
                _ => None,
            }),
    {
        self.try_into_file().unwrap()
    }
}


/// The kind of item a database row holds.
#[derive(PartialEq, Eq, Structural, Clone, Copy)]
pub enum FsType {
    Root,
    Directory,
    File,
}

/// The columns of an item's row, as plain values: the parent, path, size,
/// media type and digest are there for files and directories (size, media
/// type and digest for files only).
pub struct ItemRow {
    pub fs_type: FsType,
    pub id: IdSet,
    pub user: IdSet,
    pub storage: IdSet,
    pub parent: Option<IdSet>,
    pub basename: String,
    pub path: Option<String>,
    pub size: Option<u64>,
    pub mime: Option<(String, String)>,
    pub hash: Option<[u8; 32]>,
    pub backend: Node,
    pub comment: Option<String>,
    pub created: i64,
    pub updated: Option<i64>,
    pub deleted: Option<i64>,
}

/// Whether a row has the columns its kind needs.
pub open spec fn row_complete(row: ItemRow) -> bool {
    match row.fs_type {
        FsType::Root => true,
        FsType::Directory => row.parent is Some && row.path is Some,
        FsType::File => row.parent is Some && row.path is Some && row.size is Some && row.mime is Some
            && row.hash is Some,
    }
}

/// The item a row holds, with its tags: a root, a directory or a file as
/// the row's kind says, each from the columns of that kind.
pub fn query_to_item(row: ItemRow, tags: Vec<(String, String)>) -> (r: Item)
    requires
        row_complete(row),
    ensures
        match row.fs_type {
            FsType::Root => r == Item::Root(
                Root {
                    id: row.id,
                    user: row.user,
                    storage: row.storage,
                    basename: row.basename,
                    backend: row.backend,
                    tags,
                    comment: row.comment,
                    created: row.created,
                    updated: row.updated,
                    deleted: row.deleted,
                },
            ),
            FsType::Directory => r == Item::Directory(
                Directory {
                    id: row.id,
                    user: row.user,
                    storage: row.storage,
                    backend: row.backend,
                    parent: row.parent->0,
                    basename: row.basename,
                    path: row.path->0,
                    tags,
                    comment: row.comment,
                    created: row.created,
                    updated: row.updated,
                    deleted: row.deleted,
                },
            ),
            FsType::File => r == Item::File(
                File {
                    id: row.id,
                    user: row.user,
                    storage: row.storage,
                    parent: row.parent->0,
                    path: row.path->0,
                    basename: row.basename,
                    mime: row.mime->0,
                    size: row.size->0,
                    hash: row.hash->0,
                    backend: row.backend,
                    tags,
                    comment: row.comment,
                    created: row.created,
                    updated: row.updated,
                    deleted: row.deleted,
                },
            ),
        },
{
    let ItemRow {
        fs_type,
        id,
        user,
        storage,
        parent,
        basename,
        path,
        size,
        mime,
        hash,
        backend,
        comment,
        created,
        updated,
        deleted,
    } = row;
    match fs_type {
        FsType::Root => Item::Root(
            Root { id, user, storage, basename, backend, tags, comment, created, updated, deleted },
        ),
        FsType::Directory => Item::Directory(
            Directory {
                id,
                user,
                storage,
                backend,
                parent: parent.unwrap(),
                basename,
                path: path.unwrap(),
                tags,
                comment,
                created,
                updated,
                deleted,
            },
        ),
        FsType::File => Item::File(
            File {
                id,
                user,
                storage,
                parent: parent.unwrap(),
                path: path.unwrap(),
                basename,
                mime: mime.unwrap(),
                size: size.unwrap(),
                hash: hash.unwrap(),
                backend,
                tags,
                comment,
                created,
                updated,
                deleted,
            },
        ),
    }
}

} // verus!
