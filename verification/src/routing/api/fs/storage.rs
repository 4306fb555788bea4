//! Storage routes: the statement that updates a storage medium.
use vstd::prelude::*;
use vstd::string::*;
use crate::config::{PathKind, Probe, ProbeView};
use crate::error::api::ApiErrorKind;
use crate::path::{absolute, is_absolute};
use crate::fs::backend::{Node, NodeLocal};

verus! {

/// The update statement for a storage medium, when its name or backend is
/// given: the storage's id is parameter 1, the update time parameter 2 and
/// the new name parameter 3. The text is the one the server sends, the name
/// assignment following the update time without a separating comma.
pub open spec fn storage_update_spec(name: bool, backend: bool) -> Option<Seq<char>> {
    if name || backend {
        Some(
            "update storage set updated = $2"@ + (if name { "name = $3 "@ } else { Seq::empty() })
                + "where storage_id = $1"@,
        )
    } else {
        None
    }
}

/// The update statement for a storage medium (see [`storage_update_spec`]).
pub fn storage_update_query(name: bool, backend: bool) -> (r: Option<String>)
    ensures
        match r {
            None => storage_update_spec(name, backend) is None,
            Some(q) => storage_update_spec(name, backend) == Some(q@),
        },
{
    if name || backend {
        let mut q = String::from_str("update storage set updated = $2");
        if name {
            q.append("name = $3 ");
        }
        q.append("where storage_id = $1");
        Some(q)
    } else {
        None
    }
}

/// Why a storage medium is not created: an API error, or the failure of
/// looking up its directory (with the failure's text).
pub enum StorageRefusal {
    Kind(ApiErrorKind),
    Io(String),
}

/// Checks the directory of a new local storage medium: it must be an
/// absolute path (`NotAbsolutePath`), and `found`, what looking it up on
/// the file system gave, must be a directory (`DirNotFound` when nothing is
/// there, `NotDirectory` for anything else, the lookup's own failure when
/// it failed).
pub fn check_local_path(path: &str, found: &Probe) -> (r: Result<(), StorageRefusal>)
    ensures
        !is_absolute(path@) ==> (r matches Err(StorageRefusal::Kind(k)) && k
            == ApiErrorKind::NotAbsolutePath),
        is_absolute(path@) ==> match found@ {
            ProbeView::Found(PathKind::Directory) => r is Ok,
            ProbeView::Found(_) => r matches Err(StorageRefusal::Kind(k)) && k
                == ApiErrorKind::NotDirectory,
            ProbeView::Missing => r matches Err(StorageRefusal::Kind(k)) && k
                == ApiErrorKind::DirNotFound,
            ProbeView::Failed(m) => r matches Err(StorageRefusal::Io(t)) && t@ == m,
        },
{
    if !absolute(path) {
        return Err(StorageRefusal::Kind(ApiErrorKind::NotAbsolutePath));
    }
    match found {
        Probe::Found(PathKind::Directory) => Ok(()),
        Probe::Found(_) => Err(StorageRefusal::Kind(ApiErrorKind::NotDirectory)),
        Probe::Missing => Err(StorageRefusal::Kind(ApiErrorKind::DirNotFound)),
        Probe::Failed(m) => Err(StorageRefusal::Io(m.clone())),
    }
}

/// Whether a storage medium may be updated: a deleted one is not found
/// (`StorageNotFound`), only its owner may change it (`PermissionDenied`),
/// and the update must change something (`NoWork`); checked in that order.
pub fn update_allowed(deleted: bool, owner: bool, has_work: bool) -> (r: Result<(), ApiErrorKind>)
    ensures
        r == (if deleted {
            Err(ApiErrorKind::StorageNotFound)
        } else if !owner {
            Err(ApiErrorKind::PermissionDenied)
        } else if !has_work {
            Err(ApiErrorKind::NoWork)
        } else {
            Ok(())
        }),
{
    if deleted {
        Err(ApiErrorKind::StorageNotFound)
    } else if !owner {
        Err(ApiErrorKind::PermissionDenied)
    } else if !has_work {
        Err(ApiErrorKind::NoWork)
    } else {
        Ok(())
    }
}

/// Whether a new name is taken by another storage medium: the storage found
/// under that name, if any, is not the one being updated.
pub fn name_taken(found: Option<i64>, local_id: i64) -> (r: bool)
    ensures
        r == (found matches Some(id) && id != local_id),
{
    match found {
        Some(id) => id != local_id,
        None => false,
    }
}


/// The root item made together with a new storage medium, in the same
/// transaction: named after the storage, at the storage's own directory.
pub struct StorageRoot {
    pub basename: String,
    pub backend: Node,
}

/// Decides the creation of a local storage medium named `name` at `path`,
/// in this order: the directory checks of [`check_local_path`] (on `found`,
/// what looking up `path` gave); a name that is not valid is refused with
/// `ValidationFailed`; a name already used with `AlreadyExists`; tags that
/// are not valid with `InvalidTags`, and then nothing is committed.
/// Otherwise the storage is stored with its name, owner and tags, and with
/// it its root item, whose basename is the storage's name and whose backend
/// is the storage's directory itself (the empty relative path).
pub fn storage_create_plan(
    path: &str,
    found: &Probe,
    name: &str,
    name_ok: bool,
    name_taken: bool,
    tags_ok: bool,
) -> (r: Result<StorageRoot, StorageRefusal>)
    ensures
        !is_absolute(path@) ==> (r matches Err(StorageRefusal::Kind(k)) && k
            == ApiErrorKind::NotAbsolutePath),
        is_absolute(path@) && !(found@ matches ProbeView::Found(PathKind::Directory)) ==> (r matches Err(_)
            && match found@ {
            ProbeView::Found(_) => r matches Err(StorageRefusal::Kind(k)) && k
                == ApiErrorKind::NotDirectory,
            ProbeView::Missing => r matches Err(StorageRefusal::Kind(k)) && k
                == ApiErrorKind::DirNotFound,
            ProbeView::Failed(m) => r matches Err(StorageRefusal::Io(t)) && t@ == m,
        }),
        (is_absolute(path@) && found@ matches ProbeView::Found(PathKind::Directory)) ==> (if !name_ok {
            r matches Err(StorageRefusal::Kind(k)) && k == ApiErrorKind::ValidationFailed
        } else if name_taken {
            r matches Err(StorageRefusal::Kind(k)) && k == ApiErrorKind::AlreadyExists
        } else if !tags_ok {
            r matches Err(StorageRefusal::Kind(k)) && k == ApiErrorKind::InvalidTags
        } else {
            r matches Ok(root) && root.basename@ == name@ && (root.backend matches Node::Local(l)
                && l.path@ == Seq::<char>::empty())
        }),
{
    match check_local_path(path, found) {
        Err(e) => {
            return Err(e);
        },
        Ok(()) => {},
    }
    if !name_ok {
        return Err(StorageRefusal::Kind(ApiErrorKind::ValidationFailed));
    }
    if name_taken {
        return Err(StorageRefusal::Kind(ApiErrorKind::AlreadyExists));
    }
    if !tags_ok {
        return Err(StorageRefusal::Kind(ApiErrorKind::InvalidTags));
    }
    Ok(StorageRoot {
        basename: name.to_string(),
        backend: Node::Local(NodeLocal { path: String::new() }),
    })
}

} // verus!
