//! Content negotiation: whether a request's `accept` header asks for HTML.
use vstd::prelude::*;
use crate::text::chars_of;
use crate::error::api::ApiErrorKind;

verus! {

#[verifier::external_type_specification]
#[verifier::external_body]
pub struct ExMimeIter<'a>(mime::MimeIter<'a>);

/// `mime::Mime`, the item type of `MimeIter`'s `Iterator` impl: Verus asks
/// for it to be declared once `MimeIter` is used.
#[verifier::external_type_specification]
#[verifier::external_body]
pub struct ExMime(mime::Mime);

/// A media type: its type, its subtype and its parameters (name and value),
/// as `mime` holds them.
pub struct MediaType {
    pub type_: String,
    pub subtype: String,
    pub params: Vec<(String, String)>,
}

/// What a [`MediaType`] holds, as plain text.
pub struct MediaTypeView {
    pub type_: Seq<char>,
    pub subtype: Seq<char>,
    pub params: Seq<(Seq<char>, Seq<char>)>,
}

/// The text of a list of parameters.
pub open spec fn params_view(v: Seq<(String, String)>) -> Seq<(Seq<char>, Seq<char>)> {
    v.map_values(|p: (String, String)| (p.0@, p.1@))
}

impl View for MediaType {
    type V = MediaTypeView;

    open spec fn view(&self) -> MediaTypeView {
        MediaTypeView { type_: self.type_@, subtype: self.subtype@, params: params_view(self.params@) }
    }
}

/// The media types a `mime::MimeIter` still yields, in order: each part
/// that parses, nothing for a part that does not.
pub uninterp spec fn mime_iter_items(it: mime::MimeIter<'_>) -> Seq<Option<MediaTypeView>>;

/// Whether a `mime::MimeIter` walks a text made of ASCII characters only,
/// so that every byte position in it is a character boundary.
pub uninterp spec fn mime_iter_ascii(it: mime::MimeIter<'_>) -> bool;

/// The media types `mime::MimeIter::new` yields for a header value.
pub uninterp spec fn accept_parts(s: Seq<char>) -> Seq<Option<MediaTypeView>>;

/// Whether a text holds ASCII characters only.
pub open spec fn is_ascii_text(s: Seq<char>) -> bool {
    forall|i: int| 0 <= i < s.len() ==> (#[trigger] s[i]) as u32 <= 0x7f
}

/// `mime::MimeIter::new`: an iterator over the comma separated media types
/// of `s`, which must be ASCII; what it yields is only named
/// ([`accept_parts`]), not stated, but each part it yields uses up at least
/// one byte of `s`, so there are fewer parts than `usize::MAX`.
#[verifier::external_body]
fn mime_iter_new<'a>(s: &'a str) -> (r: mime::MimeIter<'a>)
    requires
        is_ascii_text(s@),
    ensures
        mime_iter_items(r) == accept_parts(s@),
        mime_iter_items(r).len() < usize::MAX,
        mime_iter_ascii(r),
{
    mime::MimeIter::new(s)
}

/// The view of one yielded media type.
pub open spec fn part_view(p: Option<MediaType>) -> Option<MediaTypeView> {
    match p {
        None => None,
        Some(t) => Some(t@),
    }
}

/// `Iterator::next` on a `mime::MimeIter` over an ASCII text (`next`
/// slices the text at byte positions, which for other text could fall inside
/// a character): the next part, its type, subtype and parameters when it
/// parses; nothing once the parts are used up, after which the iterator keeps
/// yielding nothing.
#[verifier::external_body]
fn mime_iter_next(it: &mut mime::MimeIter) -> (r: Option<Option<MediaType>>)
    requires
        mime_iter_ascii(*old(it)),
    ensures
        mime_iter_ascii(*final(it)),
        mime_iter_items(*old(it)).len() == 0 ==> r is None && mime_iter_items(*final(it)).len()
            == 0,
        mime_iter_items(*old(it)).len() > 0 ==> (r matches Some(p) && part_view(p)
            == mime_iter_items(*old(it))[0] && mime_iter_items(*final(it)) == mime_iter_items(
            *old(it),
        ).drop_first()),
{
    match it.next() {
        None => None,
        Some(Ok(m)) => Some(Some(MediaType {
            type_: m.type_().as_str().to_string(),
            subtype: m.subtype().as_str().to_string(),
            params: m.params().map(|(k, v)| (k.as_str().to_string(), v.as_str().to_string())).collect(),
        })),
        Some(Err(_)) => Some(None),
    }
}

/// A character with ASCII upper case letters made lower case.
pub open spec fn ascii_lower(c: char) -> char {
    if 'A' as u32 <= c as u32 <= 'Z' as u32 {
        ((c as u32) + 32) as char
    } else {
        c
    }
}

/// Whether two texts are equal when ASCII letters are compared without
/// regard to case (the way media type names compare).
pub open spec fn eq_ignore_case(a: Seq<char>, b: Seq<char>) -> bool {
    a.len() == b.len() && forall|i: int| 0 <= i < a.len() ==> ascii_lower(#[trigger] a[i])
        == ascii_lower(b[i])
}

/// Whether a media type is `text/html`.
pub open spec fn is_html(p: Option<MediaTypeView>) -> bool {
    p matches Some(t) && eq_ignore_case(t.type_, seq!['t', 'e', 'x', 't']) && eq_ignore_case(
        t.subtype,
        seq!['h', 't', 'm', 'l'],
    )
}

/// The position of the first `text/html` part of `parts`, or nothing.
pub open spec fn first_html(parts: Seq<Option<MediaTypeView>>) -> Option<nat>
    decreases parts.len(),
{
    if parts.len() == 0 {
        None
    } else if is_html(parts[0]) {
        Some(0)
    } else {
        match first_html(parts.drop_first()) {
            None => None,
            Some(k) => Some(k + 1),
        }
    }
}

fn lower_char(c: char) -> (r: char)
    ensures
        r == ascii_lower(c),
{
    if 'A' <= c && c <= 'Z' {
        ((c as u8) + 32) as char
    } else {
        c
    }
}

/// Whether `a` equals the lower case ASCII word `w` without regard to case.
fn same_name(a: &str, w: &Vec<char>) -> (r: bool)
    requires
        forall|i: int| 0 <= i < w@.len() ==> ascii_lower(#[trigger] w@[i]) == w@[i],
    ensures
        r == eq_ignore_case(a@, w@),
{
    let cs = chars_of(a);
    if cs.len() != w.len() {
        return false;
    }
    let mut i: usize = 0;
    while i < cs.len()
        invariant
            cs@ == a@,
            cs@.len() == w@.len(),
            forall|j: int| 0 <= j < w@.len() ==> ascii_lower(#[trigger] w@[j]) == w@[j],
            i <= cs@.len(),
            forall|j: int| 0 <= j < i ==> ascii_lower(#[trigger] cs@[j]) == ascii_lower(w@[j]),
        decreases cs.len() - i,
    {
        if lower_char(cs[i]) != w[i] {
            return false;
        }
        i = i + 1;
    }
    true
}

/// The views of the parts of a header.
pub open spec fn parts_view(v: Seq<Option<MediaType>>) -> Seq<Option<MediaTypeView>> {
    v.map_values(|p: Option<MediaType>| part_view(p))
}

/// The media types of the parts of an ASCII `accept` header, in order (see
/// [`accept_parts`]).
pub fn accept_header_parts(a: &str) -> (r: Vec<Option<MediaType>>)
    requires
        is_ascii_text(a@),
    ensures
        parts_view(r@) == accept_parts(a@),
{
    let mut it = mime_iter_new(a);
    let ghost all = accept_parts(a@);
    let mut out: Vec<Option<MediaType>> = Vec::new();
    assert(all.skip(0) =~= all);
    loop
        invariant
            all == accept_parts(a@),
            all.len() < usize::MAX,
            out@.len() <= all.len(),
            parts_view(out@) == all.take(out@.len() as int),
            mime_iter_items(it) == all.skip(out@.len() as int),
            mime_iter_ascii(it),
        decreases all.len() - out@.len(),
    {
        let ghost rest = mime_iter_items(it);
        match mime_iter_next(&mut it) {
            None => {
                assert(all.take(out@.len() as int) =~= all);
                return out;
            },
            Some(part) => {
                let ghost k: int = out@.len() as int;
                assert(rest[0] == all[k as int]);
                out.push(part);
                assert(parts_view(out@) =~= all.take(k + 1));
                assert(rest.drop_first() =~= all.skip(k + 1));
            },
        }
    }
}

/// The first part that is `text/html` (see [`first_html`]), removed from the
/// list.
pub fn take_first_html(parts: Vec<Option<MediaType>>) -> (r: Option<MediaType>)
    ensures
        match first_html(parts_view(parts@)) {
            None => r is None,
            Some(k) => r matches Some(m) && Some(m@) == parts_view(parts@)[k as int],
        },
{
    let ghost all = parts_view(parts@);
    let text = vec!['t', 'e', 'x', 't'];
    let html = vec!['h', 't', 'm', 'l'];
    assert(text@ =~= seq!['t', 'e', 'x', 't']);
    assert(html@ =~= seq!['h', 't', 'm', 'l']);
    let n = parts.len();
    let mut rest = parts;
    let mut k: usize = 0;
    assert(all.skip(0) =~= all);
    while rest.len() > 0
        invariant
            all == parts_view(parts@),
            all.len() == n,
            all.len() == k + rest@.len(),
            parts_view(rest@) == all.skip(k as int),
            first_html(all) == match first_html(all.skip(k as int)) {
                None => None,
                Some(j) => Some((j + k) as nat),
            },
            text@ == seq!['t', 'e', 'x', 't'],
            html@ == seq!['h', 't', 'm', 'l'],
        decreases rest.len(),
    {
        let ghost tail = all.skip(k as int);
        let part = rest.remove(0);
        assert(tail[0] == part_view(part));
        assert(parts_view(rest@) =~= tail.drop_first());
        let hit = match &part {
            None => false,
            Some(t) => same_name(t.type_.as_str(), &text) && same_name(t.subtype.as_str(), &html),
        };
        if hit {
            assert(is_html(tail[0]));
            assert(all[k as int] == tail[0]);
            return part;
        }
        assert(!is_html(tail[0]));
        assert(tail.drop_first() =~= all.skip(k + 1));
        k = k + 1;
    }
    assert(all.skip(k as int) =~= Seq::<Option<MediaTypeView>>::empty());
    None
}

/// Whether a header value is text a header can hold: tabs and the visible
/// ASCII characters (what `HeaderValue::to_str` accepts).
pub open spec fn is_header_text(s: Seq<char>) -> bool {
    forall|i: int|
        0 <= i < s.len() ==> (#[trigger] s[i]) == '\t' || (0x20 <= s[i] as u32 && s[i] as u32 <= 0x7e)
}

/// Whether a header value is text a header can hold (see
/// [`is_header_text`]).
pub fn header_text_ok(s: &str) -> (r: bool)
    ensures
        r == is_header_text(s@),
{
    let cs = chars_of(s);
    let mut i: usize = 0;
    while i < cs.len()
        invariant
            cs@ == s@,
            i <= cs@.len(),
            forall|j: int| 0 <= j < i ==> (#[trigger] cs@[j]) == '\t' || (0x20 <= cs@[j] as u32
                && cs@[j] as u32 <= 0x7e),
        decreases cs.len() - i,
    {
        let c = cs[i];
        let u = c as u32;
        if !(c == '\t' || (0x20 <= u && u <= 0x7e)) {
            return false;
        }
        i = i + 1;
    }
    true
}

/// What an `accept` header asks of HTML: the first of its media types that
/// is `text/html` (letters compared without regard to case), with its
/// parameters; nothing without the header or without such a part. A header
/// holding anything but tabs and visible ASCII characters is refused with
/// `InvalidHeaderValue`.
pub fn is_html_accept(accept: Option<&str>) -> (r: Result<Option<MediaType>, ApiErrorKind>)
    ensures
        match accept {
            None => r matches Ok(None),
            Some(a) => if !is_header_text(a@) {
                r == Err::<Option<MediaType>, ApiErrorKind>(ApiErrorKind::InvalidHeaderValue)
            } else {
                match first_html(accept_parts(a@)) {
                    None => r matches Ok(None),
                    Some(k) => r matches Ok(Some(m)) && Some(m@) == accept_parts(a@)[k as int],
                }
            },
        },
{
    match accept {
        None => Ok(None),
        Some(a) => {
            if !header_text_ok(a) {
                return Err(ApiErrorKind::InvalidHeaderValue);
            }
            let parts = accept_header_parts(a);
            Ok(take_first_html(parts))
        },
    }
}

} // verus!
