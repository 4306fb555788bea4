//! Uploading a file: reading the upload's headers, the digest of the bytes
//! received, and the order of the file moves that put an upload in place or
//! undo it when a step fails.
use vstd::prelude::*;
use vstd::string::*;
use std::str::FromStr;
use crate::error::api::ApiErrorKind;
use crate::text::{chars_of, chars_eq, string_of};
use crate::path::{join, join_spec, parent, parent_spec};
use crate::net::html::{header_text_ok, is_header_text};
use crate::fs::backend::{Node, NodeLocal};
use crate::fs::item::{File, IdSet};
use crate::path::is_absolute;

verus! {

/// Where the name of an uploaded file may be given, besides the
/// `x-basename` header.
pub struct UploadQuery {
    pub basename: Option<String>,
}

/// The value of a hexadecimal digit, or -1 for any other character.
pub open spec fn hex_value(c: char) -> int {
    if '0' as u32 <= c as u32 <= '9' as u32 {
        c as u32 - '0' as u32
    } else if 'a' as u32 <= c as u32 <= 'f' as u32 {
        c as u32 - 'a' as u32 + 10
    } else if 'A' as u32 <= c as u32 <= 'F' as u32 {
        c as u32 - 'A' as u32 + 10
    } else {
        -1
    }
}

/// Whether `s` spells a BLAKE3 digest: 64 hexadecimal digits, either case.
pub open spec fn is_hex_digest(s: Seq<char>) -> bool {
    &&& s.len() == 64
    &&& forall|i: int| 0 <= i < 64 ==> hex_value(#[trigger] s[i]) >= 0
}

/// The 32 bytes spelled by 64 hexadecimal digits, two digits a byte, the
/// high digit first.
pub open spec fn hex_bytes(s: Seq<char>) -> Seq<u8> {
    Seq::new(32, |i: int| (16 * hex_value(s[2 * i]) + hex_value(s[2 * i + 1])) as u8)
}

/// `blake3::Hash::from_hex`: accepts exactly 64 hexadecimal digits (either
/// case) and gives the 32 bytes they spell, two digits a byte, the high digit
/// first; anything else is refused.
#[verifier::external_body]
fn hash_from_hex(s: &str) -> (r: Option<[u8; 32]>)
    ensures
        r is Some <==> is_hex_digest(s@),
        r matches Some(b) ==> b@ == hex_bytes(s@),
{
    match blake3::Hash::from_hex(s) {
        Ok(h) => Some(*h.as_bytes()),
        Err(_) => None,
    }
}

/// The index of the last `c` in `s`, or -1.
pub open spec fn last_index_of(s: Seq<char>, c: char) -> int
    decreases s.len(),
{
    if s.len() == 0 {
        -1
    } else if s.last() == c {
        s.len() - 1
    } else {
        last_index_of(s.drop_last(), c)
    }
}

/// The name of the one digest algorithm an upload can be checked with.
pub open spec fn blake3_name() -> Seq<char> {
    seq!['b', 'l', 'a', 'k', 'e', '3']
}

/// What the `x-hash` header asks an upload to be checked against: nothing
/// without the header; otherwise the header is `algorithm:digest`, split at
/// its last colon, the algorithm must be `blake3` and the digest 64
/// hexadecimal digits.
pub open spec fn validation_hash_spec(header: Option<Seq<char>>) -> Result<
    Option<Seq<u8>>,
    ApiErrorKind,
> {
    match header {
        None => Ok(None),
        Some(h) => {
            let k = last_index_of(h, ':');
            if k < 0 || h.take(k) != blake3_name() || !is_hex_digest(h.skip(k + 1)) {
                Err(ApiErrorKind::InvalidHeaderValue)
            } else {
                Ok(Some(hex_bytes(h.skip(k + 1))))
            }
        }
    }
}

/// The lower case hexadecimal digit for `v` (`v < 16`).
pub open spec fn hex_digit(v: int) -> char {
    if v < 10 {
        (('0' as u32) + v) as char
    } else {
        (('a' as u32) + v - 10) as char
    }
}

/// The lower case hexadecimal text of `b`, two digits a byte, the high
/// digit first.
pub open spec fn hex_text(b: Seq<u8>) -> Seq<char> {
    Seq::new(2 * b.len(), |i: int| if i % 2 == 0 { hex_digit(b[i / 2] as int / 16) } else {
        hex_digit(b[i / 2] as int % 16)
    })
}

proof fn lemma_hex_digit(v: int)
    requires
        0 <= v < 16,
    ensures
        hex_value(hex_digit(v)) == v,
        hex_digit(v) != ':',
{
}

proof fn lemma_last_colon(pre: Seq<char>, post: Seq<char>)
    requires
        forall|i: int| 0 <= i < post.len() ==> post[i] != ':',
    ensures
        last_index_of(pre.push(':') + post, ':') == pre.len(),
    decreases post.len(),
{
    if post.len() == 0 {
        assert(pre.push(':') + post =~= pre.push(':'));
    } else {
        let s = pre.push(':') + post;
        assert(s.drop_last() =~= pre.push(':') + post.drop_last());
        lemma_last_colon(pre, post.drop_last());
    }
}

/// Law: the `x-hash` header written for a digest, `blake3:` and the digest
/// in lower case hexadecimal (the `x-checksum` header a download is sent
/// with), is read back as that digest.
pub proof fn lemma_validation_hash_round_trip(b: Seq<u8>)
    requires
        b.len() == 32,
    ensures
        validation_hash_spec(Some(blake3_name() + seq![':'] + hex_text(b))) == Ok::<
            Option<Seq<u8>>,
            ApiErrorKind,
        >(Some(b)),
{
    let t = hex_text(b);
    let h = blake3_name() + seq![':'] + t;
    assert forall|i: int| 0 <= i < t.len() implies t[i] != ':' && hex_value(#[trigger] t[i]) >= 0 by {
        if i % 2 == 0 {
            lemma_hex_digit(b[i / 2] as int / 16);
        } else {
            lemma_hex_digit(b[i / 2] as int % 16);
        }
    }
    assert(h =~= blake3_name().push(':') + t);
    lemma_last_colon(blake3_name(), t);
    assert(h.take(6) =~= blake3_name());
    assert(h.skip(7) =~= t);
    assert forall|k: int| 0 <= k < 32 implies (#[trigger] hex_bytes(t)[k]) == b[k] by {
        lemma_hex_digit(b[k] as int / 16);
        lemma_hex_digit(b[k] as int % 16);
        assert(t[2 * k] == hex_digit(b[k] as int / 16));
        assert(t[2 * k + 1] == hex_digit(b[k] as int % 16));
    }
    assert(hex_bytes(t) =~= b);
}

/// A header's text, when there is one.
pub open spec fn header_view(header: Option<&str>) -> Option<Seq<char>> {
    match header {
        None => None,
        Some(h) => Some(h@),
    }
}

/// The digest bytes of a checked header.
pub open spec fn digest_view(r: Result<Option<[u8; 32]>, ApiErrorKind>) -> Result<
    Option<Seq<u8>>,
    ApiErrorKind,
> {
    match r {
        Ok(None) => Ok(None),
        Ok(Some(b)) => Ok(Some(b@)),
        Err(k) => Err(k),
    }
}

/// Reads the `x-hash` header of an upload (see [`validation_hash_spec`]).
pub fn get_validation_hash(header: Option<&str>) -> (r: Result<Option<[u8; 32]>, ApiErrorKind>)
    ensures
        digest_view(r) == validation_hash_spec(header_view(header)),
{
    let h = match header {
        None => {
            return Ok(None);
        },
        Some(h) => h,
    };
    let cs = chars_of(h);
    let mut j: usize = cs.len();
    assert(cs@.take(j as int) =~= cs@);
    while j > 0 && cs[j - 1] != ':'
        invariant
            j <= cs@.len(),
            last_index_of(cs@.take(j as int), ':') == last_index_of(cs@, ':'),
        decreases j,
    {
        assert(cs@.take(j as int).drop_last() =~= cs@.take(j - 1));
        j = j - 1;
    }
    if j == 0 {
        return Err(ApiErrorKind::InvalidHeaderValue);
    }
    assert(cs@.take(j as int).last() == cs@[j - 1]);
    let k = j - 1;
    let mut algo: Vec<char> = Vec::new();
    let mut i: usize = 0;
    while i < k
        invariant
            k < cs@.len(),
            i <= k,
            algo@ == cs@.take(i as int),
        decreases k - i,
    {
        algo.push(cs[i]);
        i = i + 1;
        assert(algo@ =~= cs@.take(i as int));
    }
    let name = vec!['b', 'l', 'a', 'k', 'e', '3'];
    assert(name@ =~= blake3_name());
    if !chars_eq(&algo, &name) {
        return Err(ApiErrorKind::InvalidHeaderValue);
    }
    let mut digest: Vec<char> = Vec::new();
    let mut i: usize = j;
    while i < cs.len()
        invariant
            j <= i <= cs@.len(),
            digest@ == cs@.subrange(j as int, i as int),
        decreases cs.len() - i,
    {
        digest.push(cs[i]);
        i = i + 1;
        assert(digest@ =~= cs@.subrange(j as int, i as int));
    }
    assert(digest@ =~= cs@.skip(j as int));
    let text = string_of(&digest);
    match hash_from_hex(text.as_str()) {
        None => Err(ApiErrorKind::InvalidHeaderValue),
        Some(b) => Ok(Some(b)),
    }
}

/// The type and subtype of a media type, as `mime::Mime::from_str` parses
/// `s`, or nothing when it refuses `s`.
pub uninterp spec fn mime_parts(s: Seq<char>) -> Option<(Seq<char>, Seq<char>)>;

/// `mime::Mime::from_str`: parses a media type and gives its type and
/// subtype as the parsed value holds them; the parse itself is only named
/// ([`mime_parts`]), not stated.
#[verifier::external_body]
fn parse_mime(s: &str) -> (r: Option<(String, String)>)
    ensures
        match r {
            None => mime_parts(s@) is None,
            Some(p) => mime_parts(s@) == Some((p.0@, p.1@)),
        },
{
    match mime::Mime::from_str(s) {
        Ok(m) => Some((m.type_().as_str().to_string(), m.subtype().as_str().to_string())),
        Err(_) => None,
    }
}

/// What a parsed `content-type` header gives: its type and subtype, or
/// `InvalidMimeType` when it did not parse.
pub fn mime_outcome(parsed: Option<(String, String)>) -> (r: Result<(String, String), ApiErrorKind>)
    ensures
        match parsed {
            None => r == Err::<(String, String), ApiErrorKind>(ApiErrorKind::InvalidMimeType),
            Some(p) => r == Ok::<(String, String), ApiErrorKind>(p),
        },
{
    match parsed {
        None => Err(ApiErrorKind::InvalidMimeType),
        Some(p) => Ok(p),
    }
}

/// Reads the `content-type` header of an upload: its type and subtype.
/// Without the header the upload is refused with `NoContentType`, with one
/// that holds anything but tabs and visible ASCII characters with
/// `InvalidHeaderValue`, with one that does not parse with
/// `InvalidMimeType`.
pub fn get_mime(header: Option<&str>) -> (r: Result<(String, String), ApiErrorKind>)
    ensures
        header is None ==> r == Err::<(String, String), ApiErrorKind>(ApiErrorKind::NoContentType),
        header matches Some(h) ==> if !is_header_text(h@) {
            r == Err::<(String, String), ApiErrorKind>(ApiErrorKind::InvalidHeaderValue)
        } else {
            match r {
                Ok(p) => mime_parts(h@) == Some((p.0@, p.1@)),
                Err(k) => k == ApiErrorKind::InvalidMimeType && mime_parts(h@) is None,
            }
        },
{
    match header {
        None => Err(ApiErrorKind::NoContentType),
        Some(h) => {
            if !header_text_ok(h) {
                return Err(ApiErrorKind::InvalidHeaderValue);
            }
            mime_outcome(parse_mime(h))
        },
    }
}

/// The name an upload gives its file: the query's `basename` when given,
/// else the `x-basename` header; none without either.
pub open spec fn chosen_basename(query: Option<Seq<char>>, header: Option<Seq<char>>) -> Option<Seq<char>> {
    match query {
        Some(b) => Some(b),
        None => header,
    }
}

/// Whether the `x-basename` header is read (no name in the query) and holds
/// text a header cannot hold (see [`is_header_text`]).
pub open spec fn basename_header_refused(from_header: bool, header: Option<Seq<char>>) -> bool {
    from_header && (header matches Some(h) && !is_header_text(h))
}

/// The name of an uploaded file (see [`chosen_basename`]). Without either
/// the upload is refused with `MissingData`; an `x-basename` header that
/// holds anything but tabs and visible ASCII characters with
/// `InvalidHeaderValue`; a name that the basename check refused
/// (`name_ok`, the check's outcome on the chosen name) with
/// `ValidationFailed`.
pub fn get_basename(query: &UploadQuery, header: Option<&str>, name_ok: bool) -> (r: Result<
    String,
    ApiErrorKind,
>)
    ensures
        basename_header_refused(query.basename is None, header_view(header)) ==> r == Err::<
            String,
            ApiErrorKind,
        >(ApiErrorKind::InvalidHeaderValue),
        !basename_header_refused(query.basename is None, header_view(header)) ==> match chosen_basename(
            match query.basename {
                Some(b) => Some(b@),
                None => None,
            },
            header_view(header),
        ) {
            None => r == Err::<String, ApiErrorKind>(ApiErrorKind::MissingData),
            Some(n) => if name_ok {
                r matches Ok(s) && s@ == n
            } else {
                r == Err::<String, ApiErrorKind>(ApiErrorKind::ValidationFailed)
            },
        },
{
    let found = match &query.basename {
        Some(b) => b.clone(),
        None => match header {
            Some(h) => {
                if !header_text_ok(h) {
                    return Err(ApiErrorKind::InvalidHeaderValue);
                }
                h.to_string()
            },
            None => {
                return Err(ApiErrorKind::MissingData);
            },
        },
    };
    if !name_ok {
        return Err(ApiErrorKind::ValidationFailed);
    }
    Ok(found)
}

#[verifier::external_type_specification]
#[verifier::external_body]
pub struct ExHasher(blake3::Hasher);

/// What a `blake3::Hasher` has been fed so far, in order.
pub uninterp spec fn hasher_input(h: blake3::Hasher) -> Seq<u8>;

/// The BLAKE3 digest of `data`, as `blake3::Hasher::finalize` gives it.
pub uninterp spec fn blake3_digest(data: Seq<u8>) -> Seq<u8>;

/// `blake3::Hasher::new`: a hasher that has been fed nothing.
#[verifier::external_body]
fn hasher_new() -> (h: blake3::Hasher)
    ensures
        hasher_input(h) == Seq::<u8>::empty(),
{
    blake3::Hasher::new()
}

/// `blake3::Hasher::update`: feeds `data` after what the hasher was fed
/// before.
#[verifier::external_body]
fn hasher_update(h: &mut blake3::Hasher, data: &[u8])
    ensures
        hasher_input(*final(h)) == hasher_input(*old(h)) + data@,
{
    h.update(data);
}

/// `blake3::Hasher::finalize`: the digest of everything fed so far (the
/// hasher itself is not changed); the digest is only named
/// ([`blake3_digest`]), not stated.
#[verifier::external_body]
fn hasher_finalize(h: &blake3::Hasher) -> (r: [u8; 32])
    ensures
        r@ == blake3_digest(hasher_input(*h)),
{
    *h.finalize().as_bytes()
}

/// The running digest of an upload's body and the count of bytes the writer
/// reported written.
pub struct UploadDigest {
    hasher: blake3::Hasher,
    written: usize,
}

impl UploadDigest {
    /// The bytes of the body taken in so far.
    pub closed spec fn fed(&self) -> Seq<u8> {
        hasher_input(self.hasher)
    }

    /// The bytes the writer reported written so far.
    pub closed spec fn written(&self) -> nat {
        self.written as nat
    }

    /// Nothing taken in yet.
    pub fn new() -> (r: Self)
        ensures
            r.fed() == Seq::<u8>::empty(),
            r.written() == 0,
    {
        UploadDigest { hasher: hasher_new(), written: 0 }
    }

    /// Takes in one chunk of the body, of which the writer reported `wrote`
    /// bytes written. The chunk is always added to the digest; the count
    /// grows by `wrote`, and the upload is refused with `MaxSize` when the
    /// count would no longer fit a `usize` (the count is then unchanged).
    pub fn absorb(&mut self, chunk: &[u8], wrote: usize) -> (r: Result<(), ApiErrorKind>)
        ensures
            final(self).fed() == old(self).fed() + chunk@,
            r is Ok <==> old(self).written() + wrote <= usize::MAX,
            r is Ok ==> final(self).written() == old(self).written() + wrote,
            r is Err ==> r == Err::<(), ApiErrorKind>(ApiErrorKind::MaxSize)
                && final(self).written() == old(self).written(),
    {
        hasher_update(&mut self.hasher, chunk);
        match self.written.checked_add(wrote) {
            Some(n) => {
                self.written = n;
                Ok(())
            },
            None => Err(ApiErrorKind::MaxSize),
        }
    }

    /// The size and digest of the body. When a digest to check against is
    /// given and differs from the body's, the upload is refused with
    /// `InvalidHash`.
    pub fn finish(&self, validate: Option<[u8; 32]>) -> (r: Result<(u64, [u8; 32]), ApiErrorKind>)
        ensures
            r is Err <==> (validate matches Some(v) && v@ != blake3_digest(self.fed())),
            r is Err ==> r == Err::<(u64, [u8; 32]), ApiErrorKind>(ApiErrorKind::InvalidHash),
            r matches Ok((size, hash)) ==> size == self.written() && hash@ == blake3_digest(
                self.fed(),
            ),
    {
        let hash = hasher_finalize(&self.hasher);
        if let Some(v) = validate {
            if !bytes_eq(&v, &hash) {
                return Err(ApiErrorKind::InvalidHash);
            }
        }
        Ok((self.written as u64, hash))
    }
}

/// Whether two digests are equal.
pub fn bytes_eq(a: &[u8; 32], b: &[u8; 32]) -> (r: bool)
    ensures
        r == (a@ == b@),
{
    let mut i: usize = 0;
    while i < 32
        invariant
            a@.len() == 32,
            b@.len() == 32,
            i <= 32,
            forall|j: int| 0 <= j < i ==> a@[j] == b@[j],
        decreases 32 - i,
    {
        if a[i] != b[i] {
            return false;
        }
        i = i + 1;
    }
    assert(a@ =~= b@);
    true
}

/// Whether an upload creates a new file in a directory or replaces the
/// contents of an existing file.
#[derive(PartialEq, Eq, Structural, Clone, Copy, Debug)]
pub enum UploadKind {
    Create,
    Replace,
}

/// Whether the upload's target may be written: a new file must not exist
/// yet (`AlreadyExists`), a replaced one must exist (`FileNotFound`).
pub fn check_target(kind: UploadKind, exists: bool) -> (r: Result<(), ApiErrorKind>)
    ensures
        kind == UploadKind::Create ==> (r is Ok <==> !exists),
        kind == UploadKind::Replace ==> (r is Ok <==> exists),
        r is Err ==> r == Err::<(), ApiErrorKind>(
            if kind == UploadKind::Create {
                ApiErrorKind::AlreadyExists
            } else {
                ApiErrorKind::FileNotFound
            },
        ),
{
    match kind {
        UploadKind::Create => if exists {
            Err(ApiErrorKind::AlreadyExists)
        } else {
            Ok(())
        },
        UploadKind::Replace => if exists {
            Ok(())
        } else {
            Err(ApiErrorKind::FileNotFound)
        },
    }
}

/// One step of putting an upload in place, or of undoing one. The upload
/// touches three paths: the target (`full`), a temporary file next to it
/// (`tmp`) and, when replacing, a place for the previous contents (`prev`).
#[derive(PartialEq, Eq, Structural, Clone, Copy, Debug)]
pub enum FileOp {
    /// Create the temporary file (it must not exist yet).
    CreateTmp,
    /// Write the body into the temporary file.
    WriteTmp,
    /// Insert or update the file's record in the open transaction.
    Record,
    /// Rename the target to `prev`.
    MoveFullToPrev,
    /// Rename the temporary file to the target.
    MoveTmpToFull,
    /// Commit the transaction.
    Commit,
    /// Remove `prev`.
    RemovePrev,
    /// Remove the temporary file.
    RemoveTmp,
    /// Remove the target.
    RemoveFull,
    /// Rename `prev` back to the target.
    MovePrevToFull,
}

/// What one of the upload's paths holds.
#[derive(PartialEq, Eq, Structural, Clone, Copy, Debug)]
pub enum Content {
    /// A file being written.
    Partial,
    /// The contents before the upload.
    Old,
    /// The uploaded body.
    New,
}

/// The upload's three paths, and whether its record is in the open
/// transaction and whether that transaction is committed.
#[derive(PartialEq, Eq, Structural, Clone, Copy, Debug)]
pub struct Layout {
    pub tmp: Option<Content>,
    pub full: Option<Content>,
    pub prev: Option<Content>,
    pub recorded: bool,
    pub committed: bool,
}

/// The paths before an upload starts.
pub open spec fn initial_layout(kind: UploadKind) -> Layout {
    Layout {
        tmp: None,
        full: if kind == UploadKind::Create { None } else { Some(Content::Old) },
        prev: None,
        recorded: false,
        committed: false,
    }
}

/// Whether a step can be taken: what it creates is not there yet, what it
/// moves or removes is there.
pub open spec fn enabled(op: FileOp, l: Layout) -> bool {
    match op {
        FileOp::CreateTmp => l.tmp is None,
        FileOp::WriteTmp => l.tmp is Some,
        FileOp::Record => !l.recorded,
        FileOp::MoveFullToPrev => l.full is Some && l.prev is None,
        FileOp::MoveTmpToFull => l.tmp is Some,
        FileOp::Commit => l.recorded && !l.committed,
        FileOp::RemovePrev => l.prev is Some,
        FileOp::RemoveTmp => l.tmp is Some,
        FileOp::RemoveFull => l.full is Some,
        FileOp::MovePrevToFull => l.prev is Some,
    }
}

/// The paths after a step that succeeded (a rename replaces what its
/// destination held).
pub open spec fn apply(op: FileOp, l: Layout) -> Layout {
    match op {
        FileOp::CreateTmp => Layout { tmp: Some(Content::Partial), ..l },
        FileOp::WriteTmp => Layout { tmp: Some(Content::New), ..l },
        FileOp::Record => Layout { recorded: true, ..l },
        FileOp::MoveFullToPrev => Layout { prev: l.full, full: None, ..l },
        FileOp::MoveTmpToFull => Layout { full: l.tmp, tmp: None, ..l },
        FileOp::Commit => Layout { committed: true, ..l },
        FileOp::RemovePrev => Layout { prev: None, ..l },
        FileOp::RemoveTmp => Layout { tmp: None, ..l },
        FileOp::RemoveFull => Layout { full: None, ..l },
        FileOp::MovePrevToFull => Layout { full: l.prev, prev: None, ..l },
    }
}

/// The paths after the steps `ops`, all succeeding, in order.
pub open spec fn run(l: Layout, ops: Seq<FileOp>) -> Layout
    decreases ops.len(),
{
    if ops.len() == 0 {
        l
    } else {
        run(apply(ops[0], l), ops.drop_first())
    }
}

/// Whether each of the steps `ops` can be taken when its turn comes.
pub open spec fn runs_enabled(l: Layout, ops: Seq<FileOp>) -> bool
    decreases ops.len(),
{
    ops.len() == 0 || (enabled(ops[0], l) && runs_enabled(apply(ops[0], l), ops.drop_first()))
}

/// The steps of an upload, in order. A replacement moves the old contents
/// aside before the new ones take their place, and removes them last.
pub open spec fn plan_spec(kind: UploadKind) -> Seq<FileOp> {
    if kind == UploadKind::Create {
        seq![
            FileOp::CreateTmp,
            FileOp::WriteTmp,
            FileOp::Record,
            FileOp::MoveTmpToFull,
            FileOp::Commit,
        ]
    } else {
        seq![
            FileOp::CreateTmp,
            FileOp::WriteTmp,
            FileOp::Record,
            FileOp::MoveFullToPrev,
            FileOp::MoveTmpToFull,
            FileOp::Commit,
            FileOp::RemovePrev,
        ]
    }
}

/// The steps that undo an upload whose step `failed` (counted from 0 in
/// [`plan_spec`]) did not succeed. Nothing is undone when the temporary file
/// could not be created, nor when only the removal of the old contents
/// failed.
pub open spec fn undo_spec(kind: UploadKind, failed: nat) -> Seq<FileOp> {
    if failed == 0 {
        seq![]
    } else if failed <= 3 {
        seq![FileOp::RemoveTmp]
    } else if kind == UploadKind::Create {
        seq![FileOp::RemoveFull]
    } else if failed == 4 {
        seq![FileOp::MovePrevToFull, FileOp::RemoveTmp]
    } else if failed == 5 {
        seq![FileOp::MovePrevToFull]
    } else {
        seq![]
    }
}

/// The steps of an upload (see [`plan_spec`]).
pub fn upload_plan(kind: UploadKind) -> (r: Vec<FileOp>)
    ensures
        r@ == plan_spec(kind),
{
    let mut v = vec![FileOp::CreateTmp, FileOp::WriteTmp, FileOp::Record];
    if kind == UploadKind::Replace {
        v.push(FileOp::MoveFullToPrev);
    }
    v.push(FileOp::MoveTmpToFull);
    v.push(FileOp::Commit);
    if kind == UploadKind::Replace {
        v.push(FileOp::RemovePrev);
    }
    assert(v@ =~= plan_spec(kind));
    v
}

/// The steps that undo an upload whose step `failed` did not succeed (see
/// [`undo_spec`]).
pub fn undo_steps(kind: UploadKind, failed: usize) -> (r: Vec<FileOp>)
    requires
        failed < plan_spec(kind).len(),
    ensures
        r@ == undo_spec(kind, failed as nat),
{
    let r = if failed == 0 {
        vec![]
    } else if failed <= 3 {
        vec![FileOp::RemoveTmp]
    } else if kind == UploadKind::Create {
        vec![FileOp::RemoveFull]
    } else if failed == 4 {
        vec![FileOp::MovePrevToFull, FileOp::RemoveTmp]
    } else if failed == 5 {
        vec![FileOp::MovePrevToFull]
    } else {
        vec![]
    };
    assert(r@ =~= undo_spec(kind, failed as nat));
    r
}

/// Law: when every step succeeds, the uploaded body is at the target, no
/// temporary or previous file is left and the record is committed.
pub proof fn lemma_upload_completes(kind: UploadKind)
    ensures
        runs_enabled(initial_layout(kind), plan_spec(kind)),
        run(initial_layout(kind), plan_spec(kind)) == (Layout {
            tmp: None,
            full: Some(Content::New),
            prev: None,
            recorded: true,
            committed: true,
        }),
{
    reveal_with_fuel(run, 8);
    reveal_with_fuel(runs_enabled, 8);
}

/// Law: when a step fails and the steps that undo it succeed, the target
/// holds what it held before the upload, no temporary or previous file is
/// left and nothing is committed; the one exception is a failed removal of
/// the old contents, after which the body is at the target and committed and
/// the old contents are left at `prev`.
pub proof fn lemma_upload_undone(kind: UploadKind, failed: nat)
    requires
        failed < plan_spec(kind).len(),
    ensures
        ({
            let at = run(initial_layout(kind), plan_spec(kind).take(failed as int));
            let end = run(at, undo_spec(kind, failed));
            &&& runs_enabled(initial_layout(kind), plan_spec(kind).take(failed as int))
            &&& enabled(plan_spec(kind)[failed as int], at)
            &&& runs_enabled(at, undo_spec(kind, failed))
            &&& if kind == UploadKind::Replace && failed == 6 {
                end == Layout {
                    tmp: None,
                    full: Some(Content::New),
                    prev: Some(Content::Old),
                    recorded: true,
                    committed: true,
                }
            } else {
                &&& end.full == initial_layout(kind).full
                &&& end.tmp is None
                &&& end.prev is None
                &&& !end.committed
            }
        }),
{
    reveal_with_fuel(run, 8);
    reveal_with_fuel(runs_enabled, 8);
    let p = plan_spec(kind);
    if kind == UploadKind::Create {
        if failed == 0 {
            assert(p.take(0) =~= seq![]);
        } else if failed == 1 {
            assert(p.take(1) =~= seq![FileOp::CreateTmp]);
        } else if failed == 2 {
            assert(p.take(2) =~= seq![FileOp::CreateTmp, FileOp::WriteTmp]);
        } else if failed == 3 {
            assert(p.take(3) =~= seq![FileOp::CreateTmp, FileOp::WriteTmp, FileOp::Record]);
        } else {
            assert(p.take(4) =~= seq![
                FileOp::CreateTmp,
                FileOp::WriteTmp,
                FileOp::Record,
                FileOp::MoveTmpToFull,
            ]);
        }
    } else {
        if failed == 0 {
            assert(p.take(0) =~= seq![]);
        } else if failed == 1 {
            assert(p.take(1) =~= seq![FileOp::CreateTmp]);
        } else if failed == 2 {
            assert(p.take(2) =~= seq![FileOp::CreateTmp, FileOp::WriteTmp]);
        } else if failed == 3 {
            assert(p.take(3) =~= seq![FileOp::CreateTmp, FileOp::WriteTmp, FileOp::Record]);
        } else if failed == 4 {
            assert(p.take(4) =~= seq![
                FileOp::CreateTmp,
                FileOp::WriteTmp,
                FileOp::Record,
                FileOp::MoveFullToPrev,
            ]);
        } else if failed == 5 {
            assert(p.take(5) =~= seq![
                FileOp::CreateTmp,
                FileOp::WriteTmp,
                FileOp::Record,
                FileOp::MoveFullToPrev,
                FileOp::MoveTmpToFull,
            ]);
        } else {
            assert(p.take(6) =~= seq![
                FileOp::CreateTmp,
                FileOp::WriteTmp,
                FileOp::Record,
                FileOp::MoveFullToPrev,
                FileOp::MoveTmpToFull,
                FileOp::Commit,
            ]);
        }
    }
}

/// The paths an upload writes: the target, the temporary file the body is
/// written to, and, when replacing, where the old contents are moved aside.
pub struct UploadPaths {
    pub full: String,
    pub tmp: String,
    pub prev: Option<String>,
}

/// The name of a file kept next to the target while an upload runs:
/// `<uid>.<tag>.rfs`.
pub open spec fn side_name(uid: Seq<char>, tag: Seq<char>) -> Seq<char> {
    uid + seq!['.'] + tag + seq!['.', 'r', 'f', 's']
}

/// `<uid>.<tag>.rfs`.
fn side_file(uid: &str, tag: &str) -> (r: String)
    ensures
        r@ == side_name(uid@, tag@),
{
    let mut name = uid.to_string();
    crate::text::push_char(&mut name, '.');
    name.append(tag);
    crate::text::push_char(&mut name, '.');
    crate::text::push_char(&mut name, 'r');
    crate::text::push_char(&mut name, 'f');
    crate::text::push_char(&mut name, 's');
    assert(name@ =~= side_name(uid@, tag@));
    name
}

/// The paths of a new file named `basename` in the directory at `node`
/// under the storage root `root`; the temporary file sits in the same
/// directory.
pub fn create_paths(root: &str, node: &str, basename: &str, uid: &str) -> (r: UploadPaths)
    ensures
        r.full@ == join_spec(join_spec(root@, node@), basename@),
        r.tmp@ == join_spec(join_spec(root@, node@), side_name(uid@, "tmp"@)),
        r.prev is None,
{
    let dir = join(root, node);
    let full = join(dir.as_str(), basename);
    let tmp_name = side_file(uid, "tmp");
    let tmp = join(dir.as_str(), tmp_name.as_str());
    UploadPaths { full, tmp, prev: None }
}

/// The paths of the file at `node` under the storage root `root`, whose
/// contents are replaced; the temporary and previous files sit in the
/// target's parent directory. Nothing when the target has no parent.
pub fn replace_paths(root: &str, node: &str, uid: &str) -> (r: Option<UploadPaths>)
    ensures
        r is None <==> parent_spec(join_spec(root@, node@)) is None,
        r matches Some(p) ==> {
            let dir = parent_spec(join_spec(root@, node@))->0;
            &&& p.full@ == join_spec(root@, node@)
            &&& p.tmp@ == join_spec(dir, side_name(uid@, "tmp"@))
            &&& p.prev matches Some(v) && v@ == join_spec(dir, side_name(uid@, "prev"@))
        },
{
    let full = join(root, node);
    let dir = match parent(full.as_str()) {
        None => {
            return None;
        },
        Some(d) => d,
    };
    let tmp_name = side_file(uid, "tmp");
    let prev_name = side_file(uid, "prev");
    let tmp = join(dir.as_str(), tmp_name.as_str());
    let prev = join(dir.as_str(), prev_name.as_str());
    Some(UploadPaths { full, tmp, prev: Some(prev) })
}


/// The record of a file made by an upload: `id` as its record was inserted,
/// under `parent` (whose path within the storage is `path`), owned by `user`
/// in `storage`, with the uploaded body's media type, size and digest, no
/// tags and no comment, created at `created` and not updated. Its backend is
/// its path relative to the storage: `basename` under the parent's
/// directory `node_path`.
pub fn new_file_record(
    id: IdSet,
    user: IdSet,
    storage: IdSet,
    parent: IdSet,
    path: String,
    basename: String,
    node_path: &str,
    mime: (String, String),
    size: u64,
    hash: [u8; 32],
    created: i64,
) -> (r: File)
    requires
        !is_absolute(node_path@),
    ensures
        r.id == id,
        r.user == user,
        r.storage == storage,
        r.parent == parent,
        r.path == path,
        r.basename == basename,
        r.mime == mime,
        r.size == size,
        r.hash == hash,
        r.backend matches Node::Local(l) && l.path@ == join_spec(node_path@, basename@),
        r.tags@.len() == 0,
        r.comment is None,
        r.created == created,
        r.updated is None,
        r.deleted is None,
{
    let rel = join(node_path, basename.as_str());
    File {
        id,
        user,
        storage,
        parent,
        path,
        basename,
        mime,
        size,
        hash,
        backend: Node::Local(NodeLocal { path: rel }),
        tags: Vec::new(),
        comment: None,
        created,
        updated: None,
        deleted: None,
    }
}

/// The record of a file whose contents an upload replaced: the new media
/// type, size and digest, updated at `now`; everything else as it was.
pub fn replaced_record(file: File, mime: (String, String), size: u64, hash: [u8; 32], now: i64) -> (r: File)
    ensures
        r == (File { mime, size, hash, updated: Some(now), ..file }),
{
    let mut f = file;
    f.mime = mime;
    f.size = size;
    f.hash = hash;
    f.updated = Some(now);
    f
}

} // verus!
