//! Paths as text: joining, cutting into segments, and comparing by
//! segments.
//!
//! A path is a string whose segments are separated by `/`. Joining follows
//! the Unix rule: a part that begins with `/` stands for itself, any other
//! part is put below the base.

use vstd::prelude::*;
use vstd::slice::slice_subrange;
use crate::text::{
    chars_of, find, find_char, lemma_find, lemma_find_is, push_chars, same_chars, string_of,
};

verus! {

/// Whether a path begins at the root.
pub open spec fn is_absolute(p: Seq<char>) -> bool {
    p.len() > 0 && p[0] == '/'
}

/// `part` below `base`; a `part` that begins at the root replaces `base`.
pub open spec fn joined(base: Seq<char>, part: Seq<char>) -> Seq<char> {
    if is_absolute(part) {
        part
    } else if base.len() == 0 || base.last() == '/' {
        base + part
    } else {
        base + seq!['/'] + part
    }
}

/// `base` with each of `parts` joined to it in turn.
pub open spec fn joined_all(base: Seq<char>, parts: Seq<Seq<char>>) -> Seq<char>
    decreases parts.len(),
{
    if parts.len() == 0 {
        base
    } else {
        joined(joined_all(base, parts.drop_last()), parts.last())
    }
}

/// Whether a run between two separators counts as a segment: an empty run
/// and `.` name no directory and are passed over.
pub open spec fn is_segment(run: Seq<char>) -> bool {
    run.len() > 0 && run != seq!['.']
}

/// The segments of a path, in order.
pub open spec fn segments(p: Seq<char>) -> Seq<Seq<char>>
    decreases p.len(),
{
    let i: int = find(p, '/');
    let first = if is_segment(p.take(i)) {
        seq![p.take(i)]
    } else {
        Seq::empty()
    };
    if 0 <= i < p.len() {
        first + segments(p.skip(i + 1))
    } else {
        first
    }
}

/// Whether the segments at the end of `path` are those of `suffix`. A
/// `suffix` that begins at the root matches only the whole of a path that
/// does so too.
pub open spec fn ends_with_path(path: Seq<char>, suffix: Seq<char>) -> bool {
    if is_absolute(suffix) {
        is_absolute(path) && segments(path) == segments(suffix)
    } else {
        segments(suffix).is_suffix_of(segments(path))
    }
}

/// Whether a run of characters is one segment and no more: it names a
/// directory and holds no separator.
pub open spec fn is_plain(run: Seq<char>) -> bool {
    is_segment(run) && !run.contains('/')
}

/// Whether each of the runs is one segment.
pub open spec fn all_plain(runs: Seq<Seq<char>>) -> bool {
    forall|i: int| 0 <= i < runs.len() ==> is_plain(#[trigger] runs[i])
}

/// A plain run is its own only segment.
pub proof fn lemma_segments_of_plain(run: Seq<char>)
    requires
        is_plain(run),
    ensures
        segments(run) == seq![run],
{
    assert forall|j: int| 0 <= j < run.len() implies run[j] != '/' by {
        assert(run.contains(run[j]));
    }
    lemma_find_is(run, '/', run.len() as int);
    assert(run.take(run.len() as int) =~= run);
}

/// Joining a plain run to a path adds it as the last segment and changes
/// no other.
pub proof fn lemma_segments_of_joined(base: Seq<char>, part: Seq<char>)
    requires
        is_plain(part),
    ensures
        segments(joined(base, part)) == segments(base).push(part),
        base.is_prefix_of(joined(base, part)),
        joined(base, part).len() > base.len(),
    decreases base.len(),
{
    let whole = joined(base, part);
    assert(part.contains(part[0]));
    assert(!is_absolute(part));
    lemma_segments_of_plain(part);
    if base.len() == 0 {
        assert(whole =~= part);
        assert(segments(base) =~= Seq::<Seq<char>>::empty());
        assert(segments(base).push(part) =~= seq![part]);
    } else {
        lemma_find(base, '/');
        let i: int = find(base, '/');
        if i < base.len() {
            let rest = base.skip(i + 1);
            assert forall|j: int| 0 <= j < i implies whole[j] != '/' by {
                assert(whole[j] == base[j]);
            }
            assert(whole[i] == base[i]);
            lemma_find_is(whole, '/', i);
            assert(whole.take(i) =~= base.take(i));
            if rest.len() > 0 {
                assert(rest.last() == base.last());
            }
            assert(whole.skip(i + 1) =~= joined(rest, part));
            lemma_segments_of_joined(rest, part);
            assert(segments(whole) =~= segments(base).push(part));
        } else {
            assert(base.last() == base[base.len() - 1]);
            assert(whole =~= base + seq!['/'] + part);
            assert forall|j: int| 0 <= j < base.len() implies whole[j] != '/' by {
                assert(whole[j] == base[j]);
            }
            lemma_find_is(whole, '/', base.len() as int);
            assert(whole.take(base.len() as int) =~= base);
            assert(whole.skip(base.len() as int + 1) =~= part);
            assert(base.take(base.len() as int) =~= base);
            assert(segments(whole) =~= segments(base).push(part));
        }
    }
}

/// Joining plain runs to a path adds them as its last segments, in order,
/// and changes no other: the result lies below the path it began with.
pub proof fn lemma_segments_of_joined_all(base: Seq<char>, parts: Seq<Seq<char>>)
    requires
        all_plain(parts),
    ensures
        segments(joined_all(base, parts)) == segments(base) + parts,
        base.is_prefix_of(joined_all(base, parts)),
        parts.len() > 0 ==> joined_all(base, parts).len() > base.len(),
    decreases parts.len(),
{
    if parts.len() == 0 {
        assert(segments(base) + parts =~= segments(base));
    } else {
        let before = parts.drop_last();
        assert forall|i: int| 0 <= i < before.len() implies is_plain(#[trigger] before[i]) by {
            assert(before[i] == parts[i]);
        }
        lemma_segments_of_joined_all(base, before);
        lemma_segments_of_joined(joined_all(base, before), parts.last());
        assert((segments(base) + before).push(parts.last()) =~= segments(base) + parts);
    }
}

/// A path as seen from `root`: the segments that it has after those of
/// `root`, joined; `None` if it does not lie below `root`.
pub open spec fn relative_to(path: Seq<char>, root: Seq<char>) -> Option<Seq<char>> {
    if is_absolute(path) == is_absolute(root) && segments(root).is_prefix_of(segments(path)) {
        Some(joined_all(Seq::empty(), segments(path).skip(segments(root).len() as int)))
    } else {
        None
    }
}

/// `part` below `base`.
pub fn join(base: &str, part: &str) -> (r: String)
    ensures
        r@ == joined(base@, part@),
{
    let b = chars_of(base);
    let p = chars_of(part);
    if p.len() > 0 && p[0] == '/' {
        return string_of(p.as_slice());
    }
    let mut r = string_of(b.as_slice());
    if b.len() > 0 && b[b.len() - 1] != '/' {
        r.push('/');
    }
    push_chars(&mut r, p.as_slice());
    r
}

/// `base` with each of `parts` joined to it in turn.
pub fn join_all(base: &str, parts: &Vec<String>) -> (r: String)
    ensures
        r@ == joined_all(base@, parts.deep_view()),
{
    let mut r = base.to_owned();
    let mut i: usize = 0;
    while i < parts.len()
        invariant
            i <= parts.len(),
            r@ == joined_all(base@, parts.deep_view().take(i as int)),
        decreases parts.len() - i,
    {
        proof {
            let next = parts.deep_view().take(i + 1);
            assert(next.drop_last() =~= parts.deep_view().take(i as int));
            assert(next.last() == parts[i as int]@);
        }
        r = join(r.as_str(), parts[i].as_str());
        i += 1;
    }
    assert(parts.deep_view().take(parts.len() as int) =~= parts.deep_view());
    r
}

/// The segments of a run of characters, in order.
pub fn segments_of(p: &[char]) -> (r: Vec<String>)
    ensures
        r.deep_view() == segments(p@),
{
    let mut r: Vec<String> = Vec::new();
    let dot = chars_of(".");
    proof {
        reveal_strlit(".");
        assert(dot@ =~= seq!['.']);
    }
    let mut pos: usize = 0;
    proof {
        assert(p@.skip(0) =~= p@);
        assert(r.deep_view() + segments(p@) =~= segments(p@));
    }
    loop
        invariant_except_break
            pos <= p.len(),
            dot@ == seq!['.'],
            segments(p@) == r.deep_view() + segments(p@.skip(pos as int)),
        ensures
            r.deep_view() == segments(p@),
        decreases p.len() - pos,
    {
        let rest = slice_subrange(p, pos, p.len());
        let n: usize = find_char(rest, '/');
        let run = slice_subrange(rest, 0, n);
        let ghost before = r.deep_view();
        proof {
            assert(rest@ =~= p@.skip(pos as int));
            assert(run@ =~= rest@.take(n as int));
        }
        if n > 0 && !same_chars(run, dot.as_slice()) {
            r.push(string_of(run));
            assert(r.deep_view() =~= before + seq![run@]);
        }
        if n == rest.len() {
            assert(r.deep_view() =~= before + segments(rest@));
            break ;
        }
        proof {
            assert(rest@.skip(n + 1) =~= p@.skip(pos + n + 1));
            assert(r.deep_view() + segments(p@.skip(pos + n + 1)) =~= before + segments(rest@));
        }
        pos = pos + n + 1;
    }
    r
}

/// The segments of a path, in order.
pub fn split_segments(path: &str) -> (r: Vec<String>)
    ensures
        r.deep_view() == segments(path@),
{
    let p = chars_of(path);
    segments_of(p.as_slice())
}

/// Whether the last `count` strings of `whole` are those of `end`, one for
/// one.
fn ends_with_strings(whole: &Vec<String>, end: &Vec<String>) -> (r: bool)
    ensures
        r == end.deep_view().is_suffix_of(whole.deep_view()),
{
    if end.len() > whole.len() {
        return false;
    }
    let shift: usize = whole.len() - end.len();
    let ghost w = whole.deep_view();
    let ghost e = end.deep_view();
    let mut i: usize = 0;
    while i < end.len()
        invariant
            i <= end.len(),
            shift + end.len() == whole.len(),
            w == whole.deep_view(),
            e == end.deep_view(),
            forall|j: int| 0 <= j < i ==> w[shift + j] == #[trigger] e[j],
        decreases end.len() - i,
    {
        if whole[shift + i] != end[i] {
            assert(w.subrange(shift as int, w.len() as int)[i as int] != e[i as int]);
            return false;
        }
        i += 1;
    }
    assert(e =~= w.subrange(shift as int, w.len() as int));
    true
}

/// Whether the segments at the end of `path` are those of `suffix`.
pub fn path_ends_with(path: &str, suffix: &str) -> (r: bool)
    ensures
        r == ends_with_path(path@, suffix@),
{
    let p = chars_of(path);
    let s = chars_of(suffix);
    let ps = segments_of(p.as_slice());
    let ss = segments_of(s.as_slice());
    if s.len() > 0 && s[0] == '/' {
        let rooted = p.len() > 0 && p[0] == '/';
        let same = ps.len() == ss.len() && ends_with_strings(&ps, &ss);
        proof {
            if ps.len() == ss.len() {
                assert(ps.deep_view().subrange(0, ps.len() as int) =~= ps.deep_view());
            }
        }
        rooted && same
    } else {
        ends_with_strings(&ps, &ss)
    }
}

/// The path as seen from `root`, if it lies below `root`.
pub fn relative_name(path: &str, root: &str) -> (r: Option<String>)
    ensures
        r.deep_view() == relative_to(path@, root@),
{
    let p = chars_of(path);
    let b = chars_of(root);
    let rooted_path = p.len() > 0 && p[0] == '/';
    let rooted_base = b.len() > 0 && b[0] == '/';
    if rooted_path != rooted_base {
        return None;
    }
    let ps = split_segments(path);
    let bs = split_segments(root);
    if bs.len() > ps.len() {
        return None;
    }
    let ghost all = ps.deep_view();
    let ghost base = bs.deep_view();
    let mut i: usize = 0;
    while i < bs.len()
        invariant
            i <= bs.len() <= ps.len(),
            all == ps.deep_view(),
            base == bs.deep_view(),
            all == segments(path@),
            base == segments(root@),
            forall|j: int| 0 <= j < i ==> all[j] == #[trigger] base[j],
        decreases bs.len() - i,
    {
        if ps[i] != bs[i] {
            assert(all.subrange(0, base.len() as int)[i as int] != base[i as int]);
            return None;
        }
        i += 1;
    }
    assert(base =~= all.subrange(0, base.len() as int));
    let mut name = String::new();
    let mut k: usize = bs.len();
    let ghost rest = all.skip(bs.len() as int);
    while k < ps.len()
        invariant
            bs.len() <= k <= ps.len(),
            all == ps.deep_view(),
            rest == all.skip(bs.len() as int),
            name@ == joined_all(Seq::empty(), rest.take(k - bs.len())),
        decreases ps.len() - k,
    {
        proof {
            let next = rest.take(k - bs.len() + 1);
            assert(next.drop_last() =~= rest.take(k - bs.len()));
            assert(next.last() == ps[k as int]@);
        }
        name = join(name.as_str(), ps[k].as_str());
        k += 1;
    }
    assert(rest.take(ps.len() - bs.len()) =~= rest);
    Some(name)
}

} // verus!
