//! What every file system item offers, and the mark of the items that can
//! hold others.
use vstd::prelude::*;

verus! {

/// What every file system item offers: its id, its parent's id (none for a
/// root), its owner, its storage, its path within the storage, and when it
/// was created and last updated (milliseconds since the epoch).
pub trait Common {
    fn id(&self) -> i64;

    fn parent(&self) -> Option<i64>;

    fn user_id(&self) -> i64;

    fn storage_id(&self) -> i64;

    fn full_path(&self) -> String;

    fn created(&self) -> i64;

    fn updated(&self) -> Option<i64>;
}

/// An item that can hold other items: a root or a directory.
pub trait Container: Common {}

} // verus!
