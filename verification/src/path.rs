//! Path handling on `/`-separated paths: splitting into components, lexical
//! normalization, joining, and the parent, file name and extension of a path.
use vstd::prelude::*;
use vstd::string::*;
use crate::text::{chars_of, push_char, push_chars, string_of, chars_eq};

verus! {

/// The pieces of `s` between `/` separators, in order; empty pieces stand for
/// repeated, leading or trailing separators.
pub open spec fn pieces(s: Seq<char>) -> Seq<Seq<char>>
    decreases s.len(),
{
    if s.len() == 0 {
        seq![Seq::<char>::empty()]
    } else if s.last() == '/' {
        pieces(s.drop_last()).push(Seq::<char>::empty())
    } else {
        let p = pieces(s.drop_last());
        p.update(p.len() - 1, p.last().push(s.last()))
    }
}

/// A piece that names no component: empty or the current directory `.`.
pub open spec fn is_skipped(p: Seq<char>) -> bool {
    p.len() == 0 || p == seq!['.']
}

/// A piece that names the parent directory `..`.
pub open spec fn is_parent_piece(p: Seq<char>) -> bool {
    p == seq!['.', '.']
}

/// A normal component: neither skipped nor `..`.
pub open spec fn is_normal_piece(p: Seq<char>) -> bool {
    !is_skipped(p) && !is_parent_piece(p)
}

/// The effect of one piece on the stack of kept components: `.` and empty
/// pieces are ignored, `..` drops the last kept component (if any), any other
/// piece is kept.
pub open spec fn push_piece(stack: Seq<Seq<char>>, p: Seq<char>) -> Seq<Seq<char>> {
    if is_skipped(p) {
        stack
    } else if is_parent_piece(p) {
        if stack.len() > 0 {
            stack.drop_last()
        } else {
            stack
        }
    } else {
        stack.push(p)
    }
}

/// The components kept after applying the pieces in order to an empty stack.
pub open spec fn fold_pieces(ps: Seq<Seq<char>>) -> Seq<Seq<char>>
    decreases ps.len(),
{
    if ps.len() == 0 {
        Seq::empty()
    } else {
        push_piece(fold_pieces(ps.drop_last()), ps.last())
    }
}

/// Whether a path is absolute (starts at the root `/`).
pub open spec fn is_absolute(s: Seq<char>) -> bool {
    s.len() > 0 && s[0] == '/'
}

/// Components joined with `/`.
pub open spec fn join_pieces(st: Seq<Seq<char>>) -> Seq<char>
    decreases st.len(),
{
    if st.len() == 0 {
        Seq::empty()
    } else if st.len() == 1 {
        st[0]
    } else {
        join_pieces(st.drop_last()) + seq!['/'] + st.last()
    }
}

/// A path built from a root flag and its components.
pub open spec fn render(rooted: bool, st: Seq<Seq<char>>) -> Seq<char> {
    if rooted {
        seq!['/'] + join_pieces(st)
    } else {
        join_pieces(st)
    }
}

/// Lexical normalization: `.` components and repeated separators vanish and
/// every `..` removes the component before it (at the root, or at the start
/// of a relative path, it is dropped).
pub open spec fn normalize_spec(s: Seq<char>) -> Seq<char> {
    render(is_absolute(s), fold_pieces(pieces(s)))
}

/// `base.join(p)`: `p` when it is absolute or `base` is empty, otherwise `p`
/// appended to `base` with one separator between them.
pub open spec fn join_spec(base: Seq<char>, p: Seq<char>) -> Seq<char> {
    if is_absolute(p) {
        p
    } else if base.len() == 0 {
        p
    } else if base.last() == '/' {
        base + p
    } else {
        base + seq!['/'] + p
    }
}

/// Where a configured path points when read relative to `base`: an absolute
/// path is taken as given, a relative one is joined to `base` and normalized.
pub open spec fn resolve_spec(base: Seq<char>, given: Seq<char>) -> Seq<char> {
    if is_absolute(given) {
        given
    } else {
        normalize_spec(join_spec(base, given))
    }
}

/// The path without trailing separators and trailing `/.` pieces (a path of
/// one character is kept as it is).
pub open spec fn strip_tail(s: Seq<char>) -> Seq<char>
    decreases s.len(),
{
    if s.len() > 1 && s.last() == '/' {
        strip_tail(s.drop_last())
    } else if s.len() > 1 && s.last() == '.' && s[s.len() - 2] == '/' {
        strip_tail(s.drop_last())
    } else {
        s
    }
}

/// The index of the last `/` in `s`, or -1.
pub open spec fn last_slash(s: Seq<char>) -> int
    decreases s.len(),
{
    if s.len() == 0 {
        -1
    } else if s.last() == '/' {
        s.len() - 1
    } else {
        last_slash(s.drop_last())
    }
}

/// `Path::parent`: `None` for the empty path and the root, otherwise the
/// path before its last component.
pub open spec fn parent_spec(s: Seq<char>) -> Option<Seq<char>> {
    let t = strip_tail(s);
    if t.len() == 0 || t == seq!['/'] {
        None
    } else {
        let i = last_slash(t);
        if i < 0 {
            Some(Seq::empty())
        } else {
            Some(strip_tail(t.take(i + 1)))
        }
    }
}

/// `Path::file_name`: the last component when it is a normal one.
pub open spec fn file_name_spec(s: Seq<char>) -> Option<Seq<char>> {
    let t = strip_tail(s);
    let name = t.skip(last_slash(t) + 1);
    if name.len() == 0 || name == seq!['.'] || name == seq!['.', '.'] {
        None
    } else {
        Some(name)
    }
}

/// The index of the last `.` in `s`, or -1.
pub open spec fn last_dot(s: Seq<char>) -> int
    decreases s.len(),
{
    if s.len() == 0 {
        -1
    } else if s.last() == '.' {
        s.len() - 1
    } else {
        last_dot(s.drop_last())
    }
}

/// `Path::extension`: what follows the last `.` of the file name, unless the
/// name has no `.` or its only `.` is the first character.
pub open spec fn extension_spec(s: Seq<char>) -> Option<Seq<char>> {
    match file_name_spec(s) {
        None => None,
        Some(f) => {
            let d = last_dot(f);
            if d <= 0 {
                None
            } else {
                Some(f.skip(d + 1))
            }
        },
    }
}

/// The views of a sequence of character vectors.
pub open spec fn views(v: Seq<Vec<char>>) -> Seq<Seq<char>> {
    v.map_values(|x: Vec<char>| x@)
}

proof fn lemma_pieces_nonempty(s: Seq<char>)
    ensures
        pieces(s).len() >= 1,
    decreases s.len(),
{
    if s.len() > 0 {
        lemma_pieces_nonempty(s.drop_last());
    }
}

fn apply_piece(stack: &mut Vec<Vec<char>>, piece: Vec<char>)
    ensures
        views(final(stack)@) == push_piece(views(old(stack)@), piece@),
{
    let ghost old_v = views(stack@);
    let dot: Vec<char> = vec!['.'];
    let dotdot: Vec<char> = vec!['.', '.'];
    if piece.len() == 0 || chars_eq(&piece, &dot) {
        assert(dot@ =~= seq!['.']);
    } else if chars_eq(&piece, &dotdot) {
        assert(dotdot@ =~= seq!['.', '.']);
        assert(!(piece@ =~= seq!['.'])) by {
            assert(piece@.len() == 2);
        }
        if stack.len() > 0 {
            stack.pop();
            assert(views(stack@) =~= old_v.drop_last());
        }
    } else {
        assert(dot@ =~= seq!['.']);
        assert(dotdot@ =~= seq!['.', '.']);
        stack.push(piece);
        assert(views(stack@) =~= old_v.push(piece@));
    }
}

fn render_exec(rooted: bool, stack: &Vec<Vec<char>>) -> (r: String)
    ensures
        r@ == render(rooted, views(stack@)),
{
    let mut s = String::new();
    if rooted {
        push_char(&mut s, '/');
    }
    let ghost pre: Seq<char> = s@;
    assert(pre =~= (if rooted { seq!['/'] } else { Seq::<char>::empty() }));
    let mut i: usize = 0;
    while i < stack.len()
        invariant
            i <= stack@.len(),
            s@ == pre + join_pieces(views(stack@).take(i as int)),
        decreases stack.len() - i,
    {
        let ghost vs = views(stack@);
        assert(vs.take(i + 1).drop_last() =~= vs.take(i as int));
        if i > 0 {
            push_char(&mut s, '/');
        }
        push_chars(&mut s, &stack[i]);
        i = i + 1;
        assert(s@ =~= pre + join_pieces(vs.take(i as int)));
    }
    assert(views(stack@).take(stack@.len() as int) =~= views(stack@));
    s
}

/// The lexical normalization of a path (see [`normalize_spec`]).
pub fn normalize(path: &str) -> (r: String)
    ensures
        r@ == normalize_spec(path@),
{
    let cs = chars_of(path);
    let n = cs.len();
    let mut stack: Vec<Vec<char>> = Vec::new();
    let mut cur: Vec<char> = Vec::new();
    let ghost mut done: Seq<Seq<char>> = Seq::empty();
    let mut i: usize = 0;
    assert(cs@.take(0) =~= Seq::<char>::empty());
    assert(done.push(cur@) =~= seq![Seq::<char>::empty()]);
    while i < n
        invariant
            n == cs@.len(),
            i <= n,
            pieces(cs@.take(i as int)) == done.push(cur@),
            views(stack@) == fold_pieces(done),
        decreases n - i,
    {
        let c = cs[i];
        let ghost t1 = cs@.take(i + 1);
        assert(t1.drop_last() =~= cs@.take(i as int));
        assert(t1.last() == c);
        if c == '/' {
            let piece = cur;
            cur = Vec::new();
            apply_piece(&mut stack, piece);
            proof {
                assert(done.push(piece@).drop_last() =~= done);
                done = done.push(piece@);
                assert(done.push(cur@) =~= pieces(cs@.take(i as int)).push(Seq::<char>::empty()));
            }
        } else {
            cur.push(c);
            proof {
                let p = pieces(cs@.take(i as int));
                assert(p.update(p.len() - 1, p.last().push(c)) =~= done.push(cur@));
            }
        }
        i = i + 1;
    }
    assert(cs@.take(n as int) =~= cs@);
    let ghost last = cur@;
    apply_piece(&mut stack, cur);
    assert(done.push(last).drop_last() =~= done);
    let rooted = n > 0 && cs[0] == '/';
    render_exec(rooted, &stack)
}

/// `base.join(p)` (see [`join_spec`]).
pub fn join(base: &str, p: &str) -> (r: String)
    ensures
        r@ == join_spec(base@, p@),
{
    let bs = chars_of(base);
    let ps = chars_of(p);
    if ps.len() > 0 && ps[0] == '/' {
        return string_of(&ps);
    }
    if bs.len() == 0 {
        return string_of(&ps);
    }
    let mut s = string_of(&bs);
    if bs[bs.len() - 1] != '/' {
        push_char(&mut s, '/');
    }
    push_chars(&mut s, &ps);
    s
}

/// Where `given` points when read relative to `base` (see [`resolve_spec`]).
pub fn resolve(base: &str, given: &str) -> (r: String)
    ensures
        r@ == resolve_spec(base@, given@),
{
    let gs = chars_of(given);
    if gs.len() > 0 && gs[0] == '/' {
        return string_of(&gs);
    }
    let joined = join(base, given);
    normalize(joined.as_str())
}

/// Whether a path is absolute.
pub fn absolute(s: &str) -> (r: bool)
    ensures
        r == is_absolute(s@),
{
    let cs = chars_of(s);
    cs.len() > 0 && cs[0] == '/'
}

fn strip_tail_len(cs: &Vec<char>, end: usize) -> (j: usize)
    requires
        end <= cs@.len(),
    ensures
        j <= end,
        strip_tail(cs@.take(end as int)) == cs@.take(j as int),
{
    let mut j = end;
    while j > 1 && (cs[j - 1] == '/' || (cs[j - 1] == '.' && cs[j - 2] == '/'))
        invariant
            j <= end <= cs@.len(),
            strip_tail(cs@.take(j as int)) == strip_tail(cs@.take(end as int)),
        decreases j,
    {
        assert(cs@.take(j as int).drop_last() =~= cs@.take(j - 1));
        j = j - 1;
    }
    j
}

fn last_slash_in(cs: &Vec<char>, end: usize) -> (i: Option<usize>)
    requires
        end <= cs@.len(),
    ensures
        match i {
            None => last_slash(cs@.take(end as int)) == -1,
            Some(k) => k as int == last_slash(cs@.take(end as int)) && k < end,
        },
{
    let mut j = end;
    while j > 0 && cs[j - 1] != '/'
        invariant
            j <= end <= cs@.len(),
            last_slash(cs@.take(j as int)) == last_slash(cs@.take(end as int)),
        decreases j,
    {
        assert(cs@.take(j as int).drop_last() =~= cs@.take(j - 1));
        j = j - 1;
    }
    if j == 0 {
        None
    } else {
        Some(j - 1)
    }
}

fn slice_chars(cs: &Vec<char>, from: usize, to: usize) -> (r: Vec<char>)
    requires
        from <= to <= cs@.len(),
    ensures
        r@ == cs@.subrange(from as int, to as int),
{
    let mut r: Vec<char> = Vec::new();
    let mut k = from;
    while k < to
        invariant
            from <= k <= to <= cs@.len(),
            r@ == cs@.subrange(from as int, k as int),
        decreases to - k,
    {
        r.push(cs[k]);
        k = k + 1;
        assert(r@ =~= cs@.subrange(from as int, k as int));
    }
    r
}

/// The parent of a path (see [`parent_spec`]).
pub fn parent(s: &str) -> (r: Option<String>)
    ensures
        match r {
            None => parent_spec(s@) is None,
            Some(p) => parent_spec(s@) == Some(p@),
        },
{
    let cs = chars_of(s);
    assert(cs@.take(cs@.len() as int) =~= cs@);
    let t = strip_tail_len(&cs, cs.len());
    let ghost tv = cs@.take(t as int);
    if t == 0 || (t == 1 && cs[0] == '/') {
        assert(t == 1 ==> tv =~= seq!['/']);
        return None;
    }
    assert(tv != seq!['/']) by {
        if tv =~= seq!['/'] {
            assert(tv[0] == cs@[0]);
        }
    }
    let i = match last_slash_in(&cs, t) {
        None => {
            return Some(String::new());
        },
        Some(i) => i,
    };
    let k = strip_tail_len(&cs, i + 1);
    assert(tv.take(i + 1) =~= cs@.take(i + 1));
    let v = slice_chars(&cs, 0, k);
    assert(v@ =~= cs@.take(k as int));
    Some(string_of(&v))
}


fn file_name_chars(cs: &Vec<char>) -> (r: Option<Vec<char>>)
    ensures
        match r {
            None => file_name_spec(cs@) is None,
            Some(f) => file_name_spec(cs@) == Some(f@),
        },
{
    assert(cs@.take(cs@.len() as int) =~= cs@);
    let t = strip_tail_len(cs, cs.len());
    let ghost tv = cs@.take(t as int);
    let start = match last_slash_in(cs, t) {
        None => 0,
        Some(i) => i + 1,
    };
    let name = slice_chars(cs, start, t);
    assert(name@ =~= tv.skip(last_slash(tv) + 1));
    let dot: Vec<char> = vec!['.'];
    let dotdot: Vec<char> = vec!['.', '.'];
    assert(dot@ =~= seq!['.']);
    assert(dotdot@ =~= seq!['.', '.']);
    if name.len() == 0 || chars_eq(&name, &dot) || chars_eq(&name, &dotdot) {
        None
    } else {
        Some(name)
    }
}

/// The file name of a path (see [`file_name_spec`]).
pub fn file_name(s: &str) -> (r: Option<String>)
    ensures
        match r {
            None => file_name_spec(s@) is None,
            Some(f) => file_name_spec(s@) == Some(f@),
        },
{
    let cs = chars_of(s);
    match file_name_chars(&cs) {
        None => None,
        Some(f) => Some(string_of(&f)),
    }
}

fn last_dot_in(cs: &Vec<char>) -> (i: Option<usize>)
    ensures
        match i {
            None => last_dot(cs@) == -1,
            Some(k) => k as int == last_dot(cs@) && k < cs@.len(),
        },
{
    let mut j = cs.len();
    assert(cs@.take(j as int) =~= cs@);
    while j > 0 && cs[j - 1] != '.'
        invariant
            j <= cs@.len(),
            last_dot(cs@.take(j as int)) == last_dot(cs@),
        decreases j,
    {
        assert(cs@.take(j as int).drop_last() =~= cs@.take(j - 1));
        j = j - 1;
    }
    if j == 0 {
        None
    } else {
        assert(cs@.take(j as int).last() == '.');
        Some(j - 1)
    }
}

/// The extension of a path (see [`extension_spec`]).
pub fn extension(s: &str) -> (r: Option<String>)
    ensures
        match r {
            None => extension_spec(s@) is None,
            Some(e) => extension_spec(s@) == Some(e@),
        },
{
    let cs = chars_of(s);
    match file_name_chars(&cs) {
        None => None,
        Some(f) => match last_dot_in(&f) {
            None => None,
            Some(d) => {
                assert(f@.len() == f.len());
                if d == 0 {
                    None
                } else {
                    let e = slice_chars(&f, d + 1, f.len());
                    assert(e@ =~= f@.skip(d + 1));
                    Some(string_of(&e))
                }
            },
        },
    }
}


/// A sequence of characters without separators.
pub open spec fn slash_free(p: Seq<char>) -> bool {
    forall|k: int| 0 <= k < p.len() ==> p[k] != '/'
}

/// Components that a normalized path can hold: normal and free of separators.
pub open spec fn clean_components(st: Seq<Seq<char>>) -> bool {
    forall|k: int| 0 <= k < st.len() ==> is_normal_piece(#[trigger] st[k]) && slash_free(st[k])
}

proof fn lemma_pieces_slash_free(s: Seq<char>)
    ensures
        forall|k: int| 0 <= k < pieces(s).len() ==> slash_free(#[trigger] pieces(s)[k]),
    decreases s.len(),
{
    lemma_pieces_nonempty(s);
    if s.len() > 0 {
        lemma_pieces_slash_free(s.drop_last());
        lemma_pieces_nonempty(s.drop_last());
        let p = pieces(s.drop_last());
        if s.last() != '/' {
            assert forall|k: int| 0 <= k < pieces(s).len() implies slash_free(#[trigger] pieces(s)[k]) by {
                if k == p.len() - 1 {
                    assert(slash_free(p[k]));
                    assert(pieces(s)[k] =~= p.last().push(s.last()));
                }
            }
        }
    }
}

proof fn lemma_fold_clean(ps: Seq<Seq<char>>)
    requires
        forall|k: int| 0 <= k < ps.len() ==> slash_free(#[trigger] ps[k]),
    ensures
        clean_components(fold_pieces(ps)),
    decreases ps.len(),
{
    if ps.len() > 0 {
        let init = ps.drop_last();
        assert forall|k: int| 0 <= k < init.len() implies slash_free(#[trigger] init[k]) by {
            assert(init[k] == ps[k]);
        }
        lemma_fold_clean(init);
        let f = fold_pieces(init);
        let l = ps.last();
        assert(slash_free(ps[ps.len() - 1]));
        if is_skipped(l) {
        } else if is_parent_piece(l) {
            if f.len() > 0 {
                assert forall|k: int| 0 <= k < f.drop_last().len() implies is_normal_piece(
                    #[trigger] f.drop_last()[k],
                ) && slash_free(f.drop_last()[k]) by {
                    assert(f.drop_last()[k] == f[k]);
                }
            }
        } else {
            assert forall|k: int| 0 <= k < f.push(l).len() implies is_normal_piece(
                #[trigger] f.push(l)[k],
            ) && slash_free(f.push(l)[k]) by {
                if k < f.len() {
                    assert(f.push(l)[k] == f[k]);
                }
            }
        }
    }
}

proof fn lemma_pieces_append_free(x: Seq<char>, b: Seq<char>)
    requires
        slash_free(b),
    ensures
        pieces(x + b) == pieces(x).drop_last().push(pieces(x).last() + b),
    decreases b.len(),
{
    lemma_pieces_nonempty(x);
    if b.len() == 0 {
        assert(x + b =~= x);
        assert(pieces(x).last() + b =~= pieces(x).last());
        assert(pieces(x).drop_last().push(pieces(x).last()) =~= pieces(x));
    } else {
        let b0 = b.drop_last();
        assert(slash_free(b0));
        lemma_pieces_append_free(x, b0);
        assert((x + b).drop_last() =~= x + b0);
        assert((x + b).last() == b.last());
        lemma_pieces_nonempty(x + b0);
        let p = pieces(x + b0);
        assert(b.last() != '/') by {
            assert(b[b.len() - 1] != '/');
        }
        assert((pieces(x).last() + b0).push(b.last()) =~= pieces(x).last() + b);
        assert(p.update(p.len() - 1, p.last().push(b.last())) =~= pieces(x).drop_last().push(
            pieces(x).last() + b,
        ));
    }
}

proof fn lemma_pieces_slash(x: Seq<char>)
    ensures
        pieces(x + seq!['/']) == pieces(x).push(Seq::<char>::empty()),
{
    assert((x + seq!['/']).drop_last() =~= x);
}

proof fn lemma_pieces_join(x: Seq<char>, st: Seq<Seq<char>>)
    requires
        st.len() > 0,
        clean_components(st),
    ensures
        pieces(x + join_pieces(st)) == pieces(x).drop_last().push(pieces(x).last() + st[0]) + st.skip(1),
    decreases st.len(),
{
    assert(slash_free(st[0]) && is_normal_piece(st[0]));
    if st.len() == 1 {
        lemma_pieces_append_free(x, st[0]);
        assert(st.skip(1) =~= Seq::<Seq<char>>::empty());
        assert(pieces(x).drop_last().push(pieces(x).last() + st[0]) + st.skip(1)
            =~= pieces(x).drop_last().push(pieces(x).last() + st[0]));
    } else {
        let st0 = st.drop_last();
        let l = st.last();
        assert(clean_components(st0)) by {
            assert forall|k: int| 0 <= k < st0.len() implies is_normal_piece(#[trigger] st0[k])
                && slash_free(st0[k]) by {
                assert(st0[k] == st[k]);
            }
        }
        assert(slash_free(st[st.len() - 1]));
        lemma_pieces_join(x, st0);
        let y = x + join_pieces(st0);
        assert(x + join_pieces(st) =~= (y + seq!['/']) + l);
        lemma_pieces_append_free(y + seq!['/'], l);
        lemma_pieces_slash(y);
        assert(pieces(y).push(Seq::<char>::empty()).drop_last() =~= pieces(y));
        assert(Seq::<char>::empty() + l =~= l);
        assert(st0[0] == st[0]);
        assert(st.skip(1) =~= st0.skip(1).push(l));
        assert(pieces(x + join_pieces(st)) =~= pieces(x).drop_last().push(pieces(x).last() + st[0])
            + st.skip(1));
    }
}

proof fn lemma_fold_clean_identity(st: Seq<Seq<char>>)
    requires
        clean_components(st),
    ensures
        fold_pieces(st) == st,
        fold_pieces(seq![Seq::<char>::empty()] + st) == st,
    decreases st.len(),
{
    if st.len() == 0 {
        assert(seq![Seq::<char>::empty()] + st =~= seq![Seq::<char>::empty()]);
        assert(seq![Seq::<char>::empty()].drop_last() =~= Seq::<Seq<char>>::empty());
    } else {
        let st0 = st.drop_last();
        assert(clean_components(st0)) by {
            assert forall|k: int| 0 <= k < st0.len() implies is_normal_piece(#[trigger] st0[k])
                && slash_free(st0[k]) by {
                assert(st0[k] == st[k]);
            }
        }
        lemma_fold_clean_identity(st0);
        assert(is_normal_piece(st[st.len() - 1]));
        assert(st0.push(st.last()) =~= st);
        assert((seq![Seq::<char>::empty()] + st).drop_last() =~= seq![Seq::<char>::empty()] + st0);
    }
}

proof fn lemma_join_len(st: Seq<Seq<char>>)
    requires
        st.len() > 0,
        clean_components(st),
    ensures
        join_pieces(st).len() >= 1,
        join_pieces(st)[0] == st[0][0],
    decreases st.len(),
{
    assert(is_normal_piece(st[0]));
    if st.len() > 1 {
        let st0 = st.drop_last();
        assert(clean_components(st0)) by {
            assert forall|k: int| 0 <= k < st0.len() implies is_normal_piece(#[trigger] st0[k])
                && slash_free(st0[k]) by {
                assert(st0[k] == st[k]);
            }
        }
        lemma_join_len(st0);
    }
}

proof fn lemma_render_roundtrip(rooted: bool, st: Seq<Seq<char>>)
    requires
        clean_components(st),
    ensures
        is_absolute(render(rooted, st)) == rooted,
        fold_pieces(pieces(render(rooted, st))) == st,
{
    lemma_fold_clean_identity(st);
    let e = Seq::<char>::empty();
    if st.len() == 0 {
        if rooted {
            assert(render(rooted, st) =~= seq!['/']);
            assert(e + seq!['/'] =~= seq!['/']);
            lemma_pieces_slash(e);
            assert(pieces(e).push(e) =~= seq![e] + st.push(e));
            assert(seq![e, e] =~= seq![e] + seq![e]);
            assert(fold_pieces(seq![e, e]) == fold_pieces(seq![e, e].drop_last()));
            assert(seq![e, e].drop_last() =~= seq![e]);
            assert(seq![e].drop_last() =~= Seq::<Seq<char>>::empty());
        } else {
            assert(render(rooted, st) =~= e);
            assert(seq![e].drop_last() =~= Seq::<Seq<char>>::empty());
        }
    } else {
        assert(slash_free(st[0]) && is_normal_piece(st[0]));
        if rooted {
            lemma_pieces_join(seq!['/'], st);
            lemma_pieces_slash(e);
            assert(e + seq!['/'] =~= seq!['/']);
            assert(pieces(seq!['/']) =~= seq![e, e]);
            assert(e + st[0] =~= st[0]);
            assert(seq![e, e].drop_last().push(e + st[0]) + st.skip(1) =~= seq![e] + st);
        } else {
            lemma_pieces_join(e, st);
            assert(e + join_pieces(st) =~= join_pieces(st));
            assert(e + st[0] =~= st[0]);
            assert(seq![e].drop_last().push(e + st[0]) + st.skip(1) =~= st);
            lemma_join_len(st);
        }
    }
}

/// Law: the components kept by normalization are never `.`, `..` or empty
/// and hold no separator.
pub proof fn lemma_normalize_clean(s: Seq<char>)
    ensures
        clean_components(fold_pieces(pieces(s))),
{
    lemma_pieces_slash_free(s);
    lemma_fold_clean(pieces(s));
}

/// Law: normalization keeps a path absolute or relative, and normalizing a
/// normalized path changes nothing.
pub proof fn lemma_normalize_idempotent(s: Seq<char>)
    ensures
        is_absolute(normalize_spec(s)) == is_absolute(s),
        normalize_spec(normalize_spec(s)) == normalize_spec(s),
{
    lemma_normalize_clean(s);
    lemma_render_roundtrip(is_absolute(s), fold_pieces(pieces(s)));
}


/// The pieces of a path between `/` separators (see [`pieces`]), as
/// `str::split('/')` gives them.
pub fn split_pieces(cs: &Vec<char>) -> (r: Vec<Vec<char>>)
    ensures
        views(r@) == pieces(cs@),
{
    let n = cs.len();
    let mut out: Vec<Vec<char>> = Vec::new();
    let mut cur: Vec<char> = Vec::new();
    let mut i: usize = 0;
    assert(cs@.take(0) =~= Seq::<char>::empty());
    assert(views(out@).push(cur@) =~= seq![Seq::<char>::empty()]);
    while i < n
        invariant
            n == cs@.len(),
            i <= n,
            pieces(cs@.take(i as int)) == views(out@).push(cur@),
        decreases n - i,
    {
        let c = cs[i];
        let ghost t1 = cs@.take(i + 1);
        assert(t1.drop_last() =~= cs@.take(i as int));
        assert(t1.last() == c);
        let ghost before = views(out@);
        if c == '/' {
            let piece = cur;
            cur = Vec::new();
            out.push(piece);
            assert(views(out@) =~= before.push(piece@));
            assert(views(out@).push(cur@) =~= pieces(cs@.take(i as int)).push(Seq::<char>::empty()));
        } else {
            cur.push(c);
            proof {
                let p = pieces(cs@.take(i as int));
                assert(p.update(p.len() - 1, p.last().push(c)) =~= before.push(cur@));
            }
        }
        i = i + 1;
    }
    assert(cs@.take(n as int) =~= cs@);
    let ghost before = views(out@);
    out.push(cur);
    assert(views(out@) =~= before.push(views(out@).last()));
    out
}


/// The media type served for a file extension: images (`jpg`, `jpeg`,
/// `png`, `gif`, `svg`, `webp`, `ico`), text (`css`, `html`, `txt`) and
/// scripts and data (`js`, `json`); nothing for any other extension.
pub open spec fn ext_mime(ext: Seq<char>) -> Option<Seq<char>> {
    if ext == seq!['j', 'p', 'g'] || ext == seq!['j', 'p', 'e', 'g'] {
        Some("image/jpeg"@)
    } else if ext == seq!['p', 'n', 'g'] {
        Some("image/png"@)
    } else if ext == seq!['g', 'i', 'f'] {
        Some("image/gif"@)
    } else if ext == seq!['s', 'v', 'g'] {
        Some("image/svg+xml"@)
    } else if ext == seq!['w', 'e', 'b', 'p'] {
        Some("image/webp"@)
    } else if ext == seq!['i', 'c', 'o'] {
        Some("image/x-icon"@)
    } else if ext == seq!['c', 's', 's'] {
        Some("text/css"@)
    } else if ext == seq!['h', 't', 'm', 'l'] {
        Some("text/html"@)
    } else if ext == seq!['t', 'x', 't'] {
        Some("text/plain"@)
    } else if ext == seq!['j', 's'] {
        Some("application/javascript"@)
    } else if ext == seq!['j', 's', 'o', 'n'] {
        Some("application/json"@)
    } else {
        None
    }
}

/// The media type of a file with extension `ext` (see [`ext_mime`]);
/// `application/octet-stream` for a file without one or with an unknown one.
pub open spec fn mime_from_ext_spec(ext: Option<Seq<char>>) -> Seq<char> {
    match ext {
        Some(e) => match ext_mime(e) {
            Some(m) => m,
            None => "application/octet-stream"@,
        },
        None => "application/octet-stream"@,
    }
}

/// The media type a file is served with, from its extension (see
/// [`mime_from_ext_spec`]).
pub fn mime_from_ext(ext: Option<&str>) -> (r: String)
    ensures
        r@ == mime_from_ext_spec(match ext {
            Some(e) => Some(e@),
            None => None,
        }),
{
    let e = match ext {
        None => {
            return String::from_str("application/octet-stream");
        },
        Some(e) => chars_of(e),
    };
    let jpg = vec!['j', 'p', 'g'];
    let jpeg = vec!['j', 'p', 'e', 'g'];
    let png = vec!['p', 'n', 'g'];
    let gif = vec!['g', 'i', 'f'];
    let svg = vec!['s', 'v', 'g'];
    let webp = vec!['w', 'e', 'b', 'p'];
    let ico = vec!['i', 'c', 'o'];
    let css = vec!['c', 's', 's'];
    let html = vec!['h', 't', 'm', 'l'];
    let txt = vec!['t', 'x', 't'];
    let js = vec!['j', 's'];
    let json = vec!['j', 's', 'o', 'n'];
    assert(jpg@ =~= seq!['j', 'p', 'g']);
    assert(jpeg@ =~= seq!['j', 'p', 'e', 'g']);
    assert(png@ =~= seq!['p', 'n', 'g']);
    assert(gif@ =~= seq!['g', 'i', 'f']);
    assert(svg@ =~= seq!['s', 'v', 'g']);
    assert(webp@ =~= seq!['w', 'e', 'b', 'p']);
    assert(ico@ =~= seq!['i', 'c', 'o']);
    assert(css@ =~= seq!['c', 's', 's']);
    assert(html@ =~= seq!['h', 't', 'm', 'l']);
    assert(txt@ =~= seq!['t', 'x', 't']);
    assert(js@ =~= seq!['j', 's']);
    assert(json@ =~= seq!['j', 's', 'o', 'n']);
    if chars_eq(&e, &jpg) || chars_eq(&e, &jpeg) {
        String::from_str("image/jpeg")
    } else if chars_eq(&e, &png) {
        String::from_str("image/png")
    } else if chars_eq(&e, &gif) {
        String::from_str("image/gif")
    } else if chars_eq(&e, &svg) {
        String::from_str("image/svg+xml")
    } else if chars_eq(&e, &webp) {
        String::from_str("image/webp")
    } else if chars_eq(&e, &ico) {
        String::from_str("image/x-icon")
    } else if chars_eq(&e, &css) {
        String::from_str("text/css")
    } else if chars_eq(&e, &html) {
        String::from_str("text/html")
    } else if chars_eq(&e, &txt) {
        String::from_str("text/plain")
    } else if chars_eq(&e, &js) {
        String::from_str("application/javascript")
    } else if chars_eq(&e, &json) {
        String::from_str("application/json")
    } else {
        String::from_str("application/octet-stream")
    }
}

} // verus!
