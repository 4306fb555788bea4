//! File system routes: metadata updates, the removal of a directory tree and
//! the headers a download is sent with.
use vstd::prelude::*;
use vstd::string::*;

pub mod storage;
pub mod upload;

use upload::{blake3_name, hex_digit, hex_text};
use crate::error::api::ApiErrorKind;
use crate::path::{is_absolute, join, join_spec};
use crate::fs::backend::{Node, NodeLocal};

verus! {

/// The update statement for an item's metadata: the item's id is parameter
/// 1 and the update time parameter 2; a given comment clears the comment
/// when empty and is otherwise parameter 3.
pub open spec fn item_update_spec(comment: Option<Seq<char>>) -> Seq<char> {
    "update fs set updated = $2"@ + match comment {
        None => Seq::empty(),
        Some(c) => if c.len() == 0 { ", comment = null"@ } else { ", comment = $3"@ },
    } + " where id = $1"@
}

/// The update statement for an item's metadata (see [`item_update_spec`]).
pub fn item_update_query(comment: Option<&str>) -> (r: String)
    ensures
        r@ == item_update_spec(match comment { Some(c) => Some(c@), None => None }),
{
    let mut q = String::from_str("update fs set updated = $2");
    match comment {
        None => {},
        Some(c) => {
            if c.unicode_len() == 0 {
                q.append(", comment = null");
            } else {
                q.append(", comment = $3");
            }
        },
    }
    q.append(" where id = $1");
    q
}


/// The kind of an item met while removing a directory tree.
#[derive(PartialEq, Eq, Structural, Clone, Copy)]
pub enum ItemKind {
    File,
    Directory,
    Other,
}

/// What to do with one item of a directory tree being removed.
#[derive(PartialEq, Eq, Structural, Clone, Copy)]
pub enum RowAction {
    /// Keep the item: something under it was not removed.
    SkipChild,
    /// Keep the item: its backend does not match the storage's.
    BackendMismatch,
    /// Remove the item's file.
    RemoveFile,
    /// Remove the item's (by now empty) directory.
    RemoveDir,
    /// Keep the item: its kind is not handled.
    Unhandled,
}

/// How removing an item from the storage went.
#[derive(PartialEq, Eq, Structural, Clone, Copy)]
pub enum Removal {
    Removed,
    NotFound,
    Failed,
}

/// The progress of removing a directory tree whose items are visited
/// deepest first: the parents that must be kept, and the items deleted,
/// failed and skipped so far.
pub struct TreeDeletion {
    skip_parents: Vec<i64>,
    deleted: Vec<i64>,
    failed: Vec<i64>,
    skipped: Vec<i64>,
}

pub struct TreeDeletionView {
    pub skip: Set<i64>,
    pub deleted: Seq<i64>,
    pub failed: Seq<i64>,
    pub skipped: Seq<i64>,
}

impl View for TreeDeletion {
    type V = TreeDeletionView;

    closed spec fn view(&self) -> TreeDeletionView {
        TreeDeletionView {
            skip: self.skip_parents@.to_set(),
            deleted: self.deleted@,
            failed: self.failed@,
            skipped: self.skipped@,
        }
    }
}

/// What to do with an item (see [`RowAction`]).
pub open spec fn decide_spec(v: TreeDeletionView, id: i64, kind: ItemKind, backend_matches: bool) -> RowAction {
    if v.skip.contains(id) {
        RowAction::SkipChild
    } else if !backend_matches {
        RowAction::BackendMismatch
    } else {
        match kind {
            ItemKind::File => RowAction::RemoveFile,
            ItemKind::Directory => RowAction::RemoveDir,
            ItemKind::Other => RowAction::Unhandled,
        }
    }
}

/// Whether an item is deleted: it was removed, or was already gone.
pub open spec fn is_deleted(action: RowAction, removal: Removal) -> bool {
    (action == RowAction::RemoveFile || action == RowAction::RemoveDir) && removal != Removal::Failed
}

/// The progress after an item was handled: a deleted item is recorded as
/// deleted; otherwise it is recorded as failed (a mismatched backend or a
/// failed removal) or skipped, and its parent must be kept.
pub open spec fn record_spec(
    v: TreeDeletionView,
    id: i64,
    parent: i64,
    action: RowAction,
    removal: Removal,
) -> TreeDeletionView {
    if is_deleted(action, removal) {
        TreeDeletionView { deleted: v.deleted.push(id), ..v }
    } else if action == RowAction::SkipChild || action == RowAction::Unhandled {
        TreeDeletionView { skip: v.skip.insert(parent), skipped: v.skipped.push(id), ..v }
    } else {
        TreeDeletionView { skip: v.skip.insert(parent), failed: v.failed.push(id), ..v }
    }
}

impl TreeDeletion {
    /// Nothing handled yet.
    pub fn new() -> (r: Self)
        ensures
            r@.skip == Set::<i64>::empty(),
            r@.deleted == Seq::<i64>::empty(),
            r@.failed == Seq::<i64>::empty(),
            r@.skipped == Seq::<i64>::empty(),
    {
        let r = TreeDeletion {
            skip_parents: Vec::new(),
            deleted: Vec::new(),
            failed: Vec::new(),
            skipped: Vec::new(),
        };
        assert(r@.skip =~= Set::<i64>::empty());
        r
    }

    /// The items deleted so far, in order.
    pub fn deleted(&self) -> (r: &Vec<i64>)
        ensures
            r@ == self@.deleted,
    {
        &self.deleted
    }

    /// The items whose removal failed so far, in order.
    pub fn failed(&self) -> (r: &Vec<i64>)
        ensures
            r@ == self@.failed,
    {
        &self.failed
    }

    /// The items skipped so far, in order.
    pub fn skipped(&self) -> (r: &Vec<i64>)
        ensures
            r@ == self@.skipped,
    {
        &self.skipped
    }

    fn must_keep(&self, id: i64) -> (r: bool)
        ensures
            r == self@.skip.contains(id),
    {
        let mut i: usize = 0;
        while i < self.skip_parents.len()
            invariant
                i <= self.skip_parents@.len(),
                forall|j: int| 0 <= j < i ==> self.skip_parents@[j] != id,
            decreases self.skip_parents.len() - i,
        {
            if self.skip_parents[i] == id {
                assert(self.skip_parents@.contains(id));
                return true;
            }
            i = i + 1;
        }
        false
    }

    fn keep(&mut self, parent: i64)
        ensures
            final(self)@.skip == old(self)@.skip.insert(parent),
            final(self)@.deleted == old(self)@.deleted,
            final(self)@.failed == old(self)@.failed,
            final(self)@.skipped == old(self)@.skipped,
    {
        if !self.must_keep(parent) {
            self.skip_parents.push(parent);
            assert(self.skip_parents@.to_set() =~= old(self).skip_parents@.to_set().insert(parent)) by {
                assert forall|x: i64| self.skip_parents@.contains(x) <==> old(
                    self,
                ).skip_parents@.contains(x) || x == parent by {
                    if self.skip_parents@.contains(x) {
                        let k = choose|k: int| 0 <= k < self.skip_parents@.len() && self.skip_parents@[k] == x;
                        if k < old(self).skip_parents@.len() {
                            assert(old(self).skip_parents@[k] == x);
                        }
                    }
                    if old(self).skip_parents@.contains(x) {
                        let k = choose|k: int|
                            0 <= k < old(self).skip_parents@.len() && old(self).skip_parents@[k] == x;
                        assert(self.skip_parents@[k] == x);
                    }
                    if x == parent {
                        assert(self.skip_parents@[self.skip_parents@.len() - 1] == x);
                    }
                }
            }
        } else {
            assert(old(self)@.skip.insert(parent) =~= old(self)@.skip);
        }
    }

    /// What to do with the item `id` (see [`decide_spec`]).
    pub fn decide(&self, id: i64, kind: ItemKind, backend_matches: bool) -> (r: RowAction)
        ensures
            r == decide_spec(self@, id, kind, backend_matches),
    {
        if self.must_keep(id) {
            RowAction::SkipChild
        } else if !backend_matches {
            RowAction::BackendMismatch
        } else {
            match kind {
                ItemKind::File => RowAction::RemoveFile,
                ItemKind::Directory => RowAction::RemoveDir,
                ItemKind::Other => RowAction::Unhandled,
            }
        }
    }

    /// Records how the item `id`, under `parent`, was handled (see
    /// [`record_spec`]); `removal` matters only for removals.
    pub fn record(&mut self, id: i64, parent: i64, action: RowAction, removal: Removal)
        ensures
            final(self)@ == record_spec(old(self)@, id, parent, action, removal),
    {
        let removes = action == RowAction::RemoveFile || action == RowAction::RemoveDir;
        if removes && removal != Removal::Failed {
            self.deleted.push(id);
        } else if action == RowAction::SkipChild || action == RowAction::Unhandled {
            self.keep(parent);
            self.skipped.push(id);
        } else {
            self.keep(parent);
            self.failed.push(id);
        }
    }
}

/// Law: once an item under `parent` is not deleted, `parent` is kept: when
/// its turn comes it is skipped, whatever its kind and backend.
pub proof fn lemma_kept_child_keeps_parent(
    v: TreeDeletionView,
    id: i64,
    parent: i64,
    action: RowAction,
    removal: Removal,
    kind: ItemKind,
    backend_matches: bool,
)
    requires
        !is_deleted(action, removal),
    ensures
        decide_spec(record_spec(v, id, parent, action, removal), parent, kind, backend_matches)
            == RowAction::SkipChild,
{
}

/// Law: handling an item never releases a parent that must be kept, and an
/// item is recorded as deleted exactly when its removal succeeded or found
/// nothing to remove.
pub proof fn lemma_record_monotone(v: TreeDeletionView, id: i64, parent: i64, action: RowAction, removal: Removal)
    ensures
        v.skip.subset_of(record_spec(v, id, parent, action, removal).skip),
        record_spec(v, id, parent, action, removal).deleted == (if is_deleted(action, removal) {
            v.deleted.push(id)
        } else {
            v.deleted
        }),
{
}


fn hex_digit_char(v: u8) -> (r: char)
    requires
        v < 16,
    ensures
        r == hex_digit(v as int),
{
    if v < 10 {
        (48u8 + v) as char
    } else {
        (97u8 + v - 10) as char
    }
}

/// The `x-checksum` header a download is sent with: `blake3:` and the
/// file's digest in lower case hexadecimal (see [`hex_text`]).
pub fn checksum_header(hash: &[u8; 32]) -> (r: String)
    ensures
        r@ == blake3_name() + seq![':'] + hex_text(hash@),
{
    let mut s = String::new();
    let name = vec!['b', 'l', 'a', 'k', 'e', '3', ':'];
    crate::text::push_chars(&mut s, &name);
    assert(s@ =~= blake3_name() + seq![':']);
    let ghost head = s@;
    let mut i: usize = 0;
    while i < 32
        invariant
            hash@.len() == 32,
            i <= 32,
            s@ == head + hex_text(hash@.take(i as int)),
        decreases 32 - i,
    {
        let b = hash[i];
        let hi = hex_digit_char(b / 16);
        let lo = hex_digit_char(b % 16);
        crate::text::push_char(&mut s, hi);
        crate::text::push_char(&mut s, lo);
        assert(hex_text(hash@.take(i + 1)) =~= hex_text(hash@.take(i as int)).push(hi).push(lo));
        i = i + 1;
    }
    assert(hash@.take(32) =~= hash@);
    s
}

/// The `content-disposition` header a download is sent with: an attachment
/// named after the file, the name between double quotes.
pub fn attachment_header(basename: &str) -> (r: String)
    ensures
        r@ == "attachment; filename=\""@ + basename@ + "\""@,
{
    let mut s = String::from_str("attachment; filename=\"");
    s.append(basename);
    s.append("\"");
    s
}


/// One item of a directory tree met during its removal: its id, its
/// parent's id, its depth in the tree (the removed directory at 1), its kind,
/// whether its backend matches the storage's, and how removing it from the
/// storage would go.
pub struct DeletionStep {
    pub id: i64,
    pub parent: i64,
    pub level: i32,
    pub kind: ItemKind,
    pub backend_matches: bool,
    pub removal: Removal,
}

/// The progress after handling the items `steps` in order, each as
/// [`TreeDeletion::decide`] decides and [`TreeDeletion::record`] records.
pub open spec fn walk(v: TreeDeletionView, steps: Seq<DeletionStep>) -> TreeDeletionView
    decreases steps.len(),
{
    if steps.len() == 0 {
        v
    } else {
        let s = steps[0];
        let a = decide_spec(v, s.id, s.kind, s.backend_matches);
        walk(record_spec(v, s.id, s.parent, a, s.removal), steps.drop_first())
    }
}

/// What is done with the item at position `i` of the walk.
pub open spec fn action_at(v: TreeDeletionView, steps: Seq<DeletionStep>, i: int) -> RowAction {
    decide_spec(walk(v, steps.take(i)), steps[i].id, steps[i].kind, steps[i].backend_matches)
}

proof fn lemma_walk_split(v: TreeDeletionView, a: Seq<DeletionStep>, b: Seq<DeletionStep>)
    ensures
        walk(v, a + b) == walk(walk(v, a), b),
    decreases a.len(),
{
    if a.len() > 0 {
        let s = a[0];
        let v1 = record_spec(v, s.id, s.parent, decide_spec(v, s.id, s.kind, s.backend_matches), s.removal);
        assert((a + b).drop_first() =~= a.drop_first() + b);
        lemma_walk_split(v1, a.drop_first(), b);
    } else {
        assert(a + b =~= b);
    }
}

proof fn lemma_walk_keeps_skip(v: TreeDeletionView, b: Seq<DeletionStep>)
    ensures
        v.skip.subset_of(walk(v, b).skip),
    decreases b.len(),
{
    if b.len() > 0 {
        let s = b[0];
        let a = decide_spec(v, s.id, s.kind, s.backend_matches);
        lemma_record_monotone(v, s.id, s.parent, a, s.removal);
        lemma_walk_keeps_skip(record_spec(v, s.id, s.parent, a, s.removal), b.drop_first());
    }
}

/// Law (a whole tree): when an item of the walk is not deleted, its parent,
/// wherever it comes later in the walk, is skipped and so kept as well; no
/// kept item is left without its parent.
pub proof fn lemma_walk_keeps_ancestors(v: TreeDeletionView, steps: Seq<DeletionStep>, i: int, j: int)
    requires
        0 <= i < j < steps.len(),
        steps[j].id == steps[i].parent,
        !is_deleted(action_at(v, steps, i), steps[i].removal),
    ensures
        action_at(v, steps, j) == RowAction::SkipChild,
        !is_deleted(action_at(v, steps, j), steps[j].removal),
{
    let s = steps[i];
    let before = walk(v, steps.take(i));
    let a = action_at(v, steps, i);
    let after = record_spec(before, s.id, s.parent, a, s.removal);
    lemma_walk_split(v, steps.take(i), seq![s]);
    assert(steps.take(i) + seq![s] =~= steps.take(i + 1));
    assert(seq![s].drop_first() =~= Seq::<DeletionStep>::empty());
    assert(walk(before, seq![s]) == walk(after, Seq::<DeletionStep>::empty()));
    assert(walk(v, steps.take(i + 1)) == after);
    assert(after.skip.contains(s.parent));
    let mid = steps.subrange(i + 1, j);
    lemma_walk_split(v, steps.take(i + 1), mid);
    assert(steps.take(i + 1) + mid =~= steps.take(j));
    lemma_walk_keeps_skip(after, mid);
    assert(walk(v, steps.take(j)).skip.contains(steps[j].id));
}


/// Law (a whole tree): an item ends up among the deleted ones only when it
/// already was, or when an item of the walk with that id was removed from
/// the storage or found already gone there.
pub proof fn lemma_walk_deletes_only_removed(v: TreeDeletionView, steps: Seq<DeletionStep>, x: i64)
    ensures
        walk(v, steps).deleted.contains(x) ==> v.deleted.contains(x) || exists|i: int|
            0 <= i < steps.len() && steps[i].id == x && is_deleted(
                #[trigger] action_at(v, steps, i),
                steps[i].removal,
            ),
    decreases steps.len(),
{
    if steps.len() > 0 {
        let s = steps[0];
        let a = decide_spec(v, s.id, s.kind, s.backend_matches);
        let v1 = record_spec(v, s.id, s.parent, a, s.removal);
        let rest = steps.drop_first();
        lemma_walk_deletes_only_removed(v1, rest, x);
        assert(steps.take(0) =~= Seq::<DeletionStep>::empty());
        assert(action_at(v, steps, 0) == a);
        if walk(v, steps).deleted.contains(x) && !v.deleted.contains(x) {
            if v1.deleted.contains(x) {
                if !is_deleted(a, s.removal) {
                    assert(v1.deleted == v.deleted);
                }
                assert(v1.deleted =~= v.deleted.push(s.id));
                assert(v.deleted.push(s.id).contains(x));
                if x != s.id {
                    let k = choose|k: int| 0 <= k < v.deleted.push(s.id).len() && v.deleted.push(s.id)[k] == x;
                    assert(v.deleted[k] == x);
                }
                assert(steps[0].id == x && is_deleted(action_at(v, steps, 0), steps[0].removal));
            } else {
                let i = choose|i: int|
                    0 <= i < rest.len() && rest[i].id == x && is_deleted(
                        #[trigger] action_at(v1, rest, i),
                        rest[i].removal,
                    );
                assert(steps.take(i + 1).drop_first() =~= rest.take(i));
                assert(walk(v, steps.take(i + 1)) == walk(v1, rest.take(i)));
                assert(action_at(v, steps, i + 1) == action_at(v1, rest, i));
                assert(steps[i + 1] == rest[i]);
            }
        }
    }
}


/// What creating a directory under an item decides, in this order: a given
/// comment that is not valid and a basename that is not valid are refused
/// with `ValidationFailed`; a file cannot hold a directory (`InvalidType`);
/// a name already used in the parent is refused with `AlreadyExists`.
/// Otherwise the directory goes at `basename` under the parent's path
/// (`container_path`, relative to the storage's directory `storage_path`):
/// the full path on disk and the path relative to the storage.
pub open spec fn new_dir_spec(
    parent: ItemKind,
    basename: Seq<char>,
    comment_ok: bool,
    name_ok: bool,
    name_taken: bool,
    storage_path: Seq<char>,
    container_path: Seq<char>,
) -> Result<(Seq<char>, Seq<char>), ApiErrorKind> {
    if !comment_ok || !name_ok {
        Err(ApiErrorKind::ValidationFailed)
    } else if parent == ItemKind::File {
        Err(ApiErrorKind::InvalidType)
    } else if name_taken {
        Err(ApiErrorKind::AlreadyExists)
    } else {
        Ok((join_spec(join_spec(storage_path, container_path), basename), join_spec(container_path, basename)))
    }
}

/// What a new directory's record holds besides its ids, owner, storage and
/// times: its backend (its path relative to the storage), the path of its
/// parent within the storage, its basename and its comment; and where it is
/// made on disk.
pub struct NewDir {
    pub full: String,
    pub backend: Node,
    pub path: String,
    pub basename: String,
    pub comment: Option<String>,
}

/// Decides the creation of a directory (see [`new_dir_spec`]). `comment_ok`
/// and `name_ok` are the outcomes of the comment and basename checks, and
/// `name_taken` whether the parent already holds an item of that name. The
/// parent's path is relative to its storage, as item paths are;
/// `parent_path` is the parent's own path within the storage, which the new
/// record keeps as its path.
pub fn new_dir_plan(
    parent: ItemKind,
    parent_path: &str,
    basename: &str,
    comment: Option<&str>,
    comment_ok: bool,
    name_ok: bool,
    name_taken: bool,
    storage_path: &str,
    container_path: &str,
) -> (r: Result<NewDir, ApiErrorKind>)
    requires
        !is_absolute(container_path@),
    ensures
        match r {
            Ok(d) => {
                &&& new_dir_spec(parent, basename@, comment_ok, name_ok, name_taken, storage_path@, container_path@)
                    == Ok::<(Seq<char>, Seq<char>), ApiErrorKind>((d.full@, join_spec(container_path@, basename@)))
                &&& d.backend matches Node::Local(l) && l.path@ == join_spec(container_path@, basename@)
                &&& d.path@ == parent_path@
                &&& d.basename@ == basename@
                &&& match comment {
                    None => d.comment is None,
                    Some(c) => d.comment matches Some(t) && t@ == c@,
                }
            },
            Err(k) => new_dir_spec(parent, basename@, comment_ok, name_ok, name_taken, storage_path@, container_path@)
                == Err::<(Seq<char>, Seq<char>), ApiErrorKind>(k),
        },
{
    if !comment_ok || !name_ok {
        return Err(ApiErrorKind::ValidationFailed);
    }
    if parent == ItemKind::File {
        return Err(ApiErrorKind::InvalidType);
    }
    if name_taken {
        return Err(ApiErrorKind::AlreadyExists);
    }
    let dir = join(storage_path, container_path);
    let full = join(dir.as_str(), basename);
    let rel = join(container_path, basename);
    let comment = match comment {
        None => None,
        Some(c) => Some(c.to_string()),
    };
    Ok(NewDir {
        full,
        backend: Node::Local(NodeLocal { path: rel }),
        path: parent_path.to_string(),
        basename: basename.to_string(),
        comment,
    })
}

/// The tags a new item is stored with: the given ones, or none when none
/// are given. Given tags that are not valid (`valid`, the outcome of their
/// check) are refused with `InvalidTags`; this check comes after the item is
/// made on disk and its record inserted, and then nothing is committed.
pub fn created_tags(given: Option<Vec<(String, String)>>, valid: bool) -> (r: Result<
    Vec<(String, String)>,
    ApiErrorKind,
>)
    ensures
        match given {
            None => r matches Ok(t) && t@.len() == 0,
            Some(g) => if valid {
                r == Ok::<Vec<(String, String)>, ApiErrorKind>(g)
            } else {
                r == Err::<Vec<(String, String)>, ApiErrorKind>(ApiErrorKind::InvalidTags)
            },
        },
{
    match given {
        None => Ok(Vec::new()),
        Some(g) => if valid {
            Ok(g)
        } else {
            Err(ApiErrorKind::InvalidTags)
        },
    }
}

/// The decision on an item's metadata update, before anything is written.
pub struct ItemUpdate {
    /// The update statement (see [`item_update_spec`]).
    pub query: String,
    /// The item's comment afterwards, when it changes: cleared by an empty
    /// comment.
    pub comment: Option<Option<String>>,
    /// Whether the item's tags are replaced by the given ones.
    pub replace_tags: bool,
}

/// Decides an update of an item's metadata: an update that sets neither a
/// comment nor tags is refused with `NoWork` (before the item is looked up);
/// given tags that are not valid are refused with `InvalidTags`, and then
/// nothing is committed. Otherwise the statement is run, an empty comment
/// clears the comment and another one replaces it, and given tags replace
/// the item's tags. `tags_valid` is the outcome of checking the given tags,
/// none when no tags are given.
pub fn item_update_plan(comment: Option<&str>, tags_valid: Option<bool>) -> (r: Result<ItemUpdate, ApiErrorKind>)
    ensures
        comment is None && tags_valid is None ==> r == Err::<ItemUpdate, ApiErrorKind>(ApiErrorKind::NoWork),
        !(comment is None && tags_valid is None) && tags_valid == Some(false) ==> r == Err::<ItemUpdate, ApiErrorKind>(
            ApiErrorKind::InvalidTags,
        ),
        !(comment is None && tags_valid is None) && tags_valid != Some(false) ==> (r matches Ok(u)
            && u.query@ == item_update_spec(match comment { Some(c) => Some(c@), None => None })
            && u.replace_tags == (tags_valid is Some) && match comment {
            None => u.comment is None,
            Some(c) => u.comment matches Some(n) && if c@.len() == 0 {
                n is None
            } else {
                n matches Some(t) && t@ == c@
            },
        }),
{
    if comment.is_none() && tags_valid.is_none() {
        return Err(ApiErrorKind::NoWork);
    }
    if tags_valid == Some(false) {
        return Err(ApiErrorKind::InvalidTags);
    }
    let query = item_update_query(comment);
    let new_comment = match comment {
        None => None,
        Some(c) => if c.unicode_len() == 0 {
            Some(None)
        } else {
            Some(Some(c.to_string()))
        },
    };
    Ok(ItemUpdate { query, comment: new_comment, replace_tags: tags_valid.is_some() })
}


/// Whether the items come as the tree query orders them: deepest first
/// (`order by level desc`).
pub open spec fn deepest_first(steps: Seq<DeletionStep>) -> bool {
    forall|i: int, j: int| 0 <= i < j < steps.len() ==> steps[i].level >= steps[j].level
}

/// Whether the depths are those of a tree: an item is one level below its
/// parent.
pub open spec fn tree_levels(steps: Seq<DeletionStep>) -> bool {
    forall|i: int, j: int|
        0 <= i < steps.len() && 0 <= j < steps.len() && steps[j].id == steps[i].parent
            ==> steps[i].level == steps[j].level + 1
}

/// Law (a whole tree, in the order the tree query gives): an item is
/// deleted only when it was removed from the storage or found already gone
/// there; and when an item is kept, its parent is kept too, so no kept item
/// loses its parent.
pub proof fn lemma_no_orphans(v: TreeDeletionView, steps: Seq<DeletionStep>)
    requires
        deepest_first(steps),
        tree_levels(steps),
    ensures
        forall|i: int, j: int|
            0 <= i < steps.len() && 0 <= j < steps.len() && steps[j].id == steps[i].parent
                && !is_deleted(#[trigger] action_at(v, steps, i), steps[i].removal) ==> !is_deleted(
                #[trigger] action_at(v, steps, j),
                steps[j].removal,
            ),
        forall|x: i64|
            #[trigger] walk(v, steps).deleted.contains(x) ==> v.deleted.contains(x) || exists|i: int|
                0 <= i < steps.len() && steps[i].id == x && is_deleted(
                    #[trigger] action_at(v, steps, i),
                    steps[i].removal,
                ),
{
    assert forall|i: int, j: int|
        0 <= i < steps.len() && 0 <= j < steps.len() && steps[j].id == steps[i].parent
            && !is_deleted(#[trigger] action_at(v, steps, i), steps[i].removal) implies !is_deleted(
        #[trigger] action_at(v, steps, j),
        steps[j].removal,
    ) by {
        assert(steps[i].level == steps[j].level + 1);
        if j <= i {
            if j < i {
                assert(steps[j].level >= steps[i].level);
            }
        }
        lemma_walk_keeps_ancestors(v, steps, i, j);
    }
    assert forall|x: i64| #[trigger] walk(v, steps).deleted.contains(x) implies v.deleted.contains(x)
        || exists|i: int|
        0 <= i < steps.len() && steps[i].id == x && is_deleted(
            #[trigger] action_at(v, steps, i),
            steps[i].removal,
        ) by {
        lemma_walk_deletes_only_removed(v, steps, x);
    }
}


/// The query that lists a directory tree for its removal (the directory's
/// id is parameter 1): every item with its parent, kind, backend and depth,
/// the directory at depth 1 and each item one deeper than its parent,
/// deepest first ([`deepest_first`], [`tree_levels`]).
pub open spec fn dir_tree_spec() -> Seq<char> {
    "with recursive dir_tree as (select fs_root.id, fs_root.parent, fs_root.fs_type, fs_root.backend, 1 as level, fs_root.hash from fs fs_root where id = $1 union select fs_contents.id, fs_contents.parent, fs_contents.fs_type, fs_contents.backend, dir_tree.level + 1 as level, fs_contents.hash from fs fs_contents inner join dir_tree on dir_tree.id = fs_contents.parent) select * from dir_tree order by level desc, parent, fs_type, id"@
}

/// The query that lists a directory tree for its removal (see
/// [`dir_tree_spec`]).
pub fn dir_tree_query() -> (r: String)
    ensures
        r@ == dir_tree_spec(),
{
    String::from_str("with recursive dir_tree as (select fs_root.id, fs_root.parent, fs_root.fs_type, fs_root.backend, 1 as level, fs_root.hash from fs fs_root where id = $1 union select fs_contents.id, fs_contents.parent, fs_contents.fs_type, fs_contents.backend, dir_tree.level + 1 as level, fs_contents.hash from fs fs_contents inner join dir_tree on dir_tree.id = fs_contents.parent) select * from dir_tree order by level desc, parent, fs_type, id")
}


/// The query listing the items after the one whose uid is parameter 2, in
/// the container whose id is parameter 1, at most parameter 3 of them.
pub open spec fn contents_after_spec() -> Seq<char> {
    "select fs.uid, users.uid, storage.uid, fs_parent.uid, fs.basename, fs.fs_type, fs.fs_path, fs.fs_size, fs.mime_type, fs.mime_subtype, fs.created, fs.updated from fs left join users on fs.user_id = users.id left join storage on fs.storage_id = storage.id left join fs as fs_parent on fs.parent = fs_parent.id where fs.parent = $1 and fs.id > (select fs.id from fs where fs.uid = $2) order by fs.id limit $3"@
}

/// The query listing one page of a container's items (container id,
/// page size, offset).
pub open spec fn contents_page_spec() -> Seq<char> {
    "select fs.uid, users.uid, storage.uid, fs_parent.uid, fs.basename, fs.fs_type, fs.fs_path, fs.fs_size, fs.mime_type, fs.mime_subtype, fs.created, fs.updated from fs left join users on fs.user_id = users.id left join storage on fs.storage_id = storage.id left join fs as fs_parent on fs.parent = fs_parent.id where fs.parent = $1 order by fs.id limit $2 offset $3"@
}

/// How a listing of a container's items is queried.
pub struct ContentsQuery {
    /// The statement.
    pub query: String,
    /// Whether it continues after a given item (otherwise it reads a page
    /// at an offset).
    pub after_last: bool,
}

/// Decides how to list an item's contents: a file holds nothing and is
/// refused with `NotDirectory`; otherwise the items after the last one seen
/// are listed when one is given, else a page at an offset.
pub fn contents_plan(container: ItemKind, last_id: Option<i64>) -> (r: Result<ContentsQuery, ApiErrorKind>)
    ensures
        container == ItemKind::File ==> (r matches Err(k) && k == ApiErrorKind::NotDirectory),
        container != ItemKind::File ==> (r matches Ok(q) && q.after_last == (last_id is Some)
            && q.query@ == (if last_id is Some { contents_after_spec() } else { contents_page_spec() })),
{
    if container == ItemKind::File {
        return Err(ApiErrorKind::NotDirectory);
    }
    match last_id {
        Some(_) => Ok(ContentsQuery { query: String::from_str("select fs.uid, users.uid, storage.uid, fs_parent.uid, fs.basename, fs.fs_type, fs.fs_path, fs.fs_size, fs.mime_type, fs.mime_subtype, fs.created, fs.updated from fs left join users on fs.user_id = users.id left join storage on fs.storage_id = storage.id left join fs as fs_parent on fs.parent = fs_parent.id where fs.parent = $1 and fs.id > (select fs.id from fs where fs.uid = $2) order by fs.id limit $3"), after_last: true }),
        None => Ok(ContentsQuery { query: String::from_str("select fs.uid, users.uid, storage.uid, fs_parent.uid, fs.basename, fs.fs_type, fs.fs_path, fs.fs_size, fs.mime_type, fs.mime_subtype, fs.created, fs.updated from fs left join users on fs.user_id = users.id left join storage on fs.storage_id = storage.id left join fs as fs_parent on fs.parent = fs_parent.id where fs.parent = $1 order by fs.id limit $2 offset $3"), after_last: false }),
    }
}

} // verus!
