//! Paths of inbound messages, read as sequences of segments.

use vstd::prelude::*;
use vstd::string::*;

verus! {

/// The character that separates the segments of a path.
pub open spec fn separator() -> char {
    '/'
}

/// The segments of a path: its maximal runs of characters other than the
/// separator, in order. Leading, trailing and doubled separators therefore
/// yield no empty segment.
pub open spec fn path_segments(path: Seq<char>) -> Seq<Seq<char>>
    decreases path.len(),
{
    if path.len() == 0 {
        Seq::empty()
    } else {
        let before = path_segments(path.drop_last());
        let c = path.last();
        if c == separator() {
            before
        } else if path.len() >= 2 && path[path.len() - 2] != separator() {
            before.drop_last().push(before.last().push(c))
        } else {
            before.push(seq![c])
        }
    }
}

/// What a scan has found of `path` once it has read `read` characters, the
/// last `read - start` of them forming a run that is still open.
spec fn scanned(path: Seq<char>, start: int, read: int, closed: Seq<Seq<char>>) -> bool {
    &&& 0 <= start <= read <= path.len()
    &&& forall|k: int| start <= k < read ==> path[k] != separator()
    &&& start < read ==> path_segments(path.take(read)) == closed.push(path.subrange(start, read))
    &&& start == read ==> path_segments(path.take(read)) == closed
    &&& start == read && read > 0 ==> path[read - 1] == separator()
}

/// Reading one more character keeps a scan in step with `path_segments`.
proof fn lemma_scan_step(path: Seq<char>, start: int, read: int, closed: Seq<Seq<char>>)
    requires
        scanned(path, start, read, closed),
        read < path.len(),
    ensures
        path[read] == separator() && start < read ==> scanned(
            path,
            read + 1,
            read + 1,
            closed.push(path.subrange(start, read)),
        ),
        path[read] == separator() && start == read ==> scanned(path, read + 1, read + 1, closed),
        path[read] != separator() ==> scanned(path, start, read + 1, closed),
{
    let next = path.take(read + 1);
    assert(next.drop_last() =~= path.take(read));
    assert(next.last() == path[read]);
    if path[read] != separator() {
        if start < read {
            let run = path.subrange(start, read);
            assert(next[next.len() - 2] == path[read - 1]);
            assert(closed.push(run).drop_last() =~= closed);
            assert(closed.push(run).last() == run);
            assert(run.push(path[read]) =~= path.subrange(start, read + 1));
        } else {
            assert(seq![path[read]] =~= path.subrange(start, read + 1));
            if read > 0 {
                assert(next[next.len() - 2] == path[read - 1]);
            }
        }
    }
}

/// Splits a path into its segments.
pub fn split_path(path: &str) -> (segments: Vec<String>)
    ensures
        segments.deep_view() == path_segments(path@),
{
    let length = path.unicode_len();
    let mut segments: Vec<String> = Vec::new();
    let mut start: usize = 0;
    let mut read: usize = 0;
    assert(path@.take(0) =~= Seq::<char>::empty());
    assert(segments.deep_view() =~= Seq::<Seq<char>>::empty());
    for c in chars: path.chars()
        invariant
            chars.seq() == path@,
            length == path@.len(),
            read == chars.index(),
            scanned(path@, start as int, read as int, segments.deep_view()),
    {
        proof {
            lemma_scan_step(path@, start as int, read as int, segments.deep_view());
        }
        if c == '/' {
            if start < read {
                let ghost closed = segments.deep_view();
                let run = path.substring_char(start, read).to_owned();
                segments.push(run);
                assert(segments.deep_view() =~= closed.push(path@.subrange(start as int, read as int)));
            }
            start = read + 1;
        }
        read = read + 1;
    }
    if start < read {
        let ghost closed = segments.deep_view();
        let run = path.substring_char(start, read).to_owned();
        segments.push(run);
        assert(segments.deep_view() =~= closed.push(path@.subrange(start as int, read as int)));
    }
    assert(path@.take(read as int) =~= path@);
    segments
}

/// No segment is empty, and none holds the separator.
pub proof fn lemma_segments_are_runs(path: Seq<char>)
    ensures
        forall|i: int|
            0 <= i < path_segments(path).len() ==> (#[trigger] path_segments(path)[i]).len() > 0,
        forall|i: int, k: int|
            0 <= i < path_segments(path).len() && 0 <= k < path_segments(path)[i].len()
                ==> #[trigger] path_segments(path)[i][k] != separator(),
        path.len() > 0 && path.last() != separator() ==> path_segments(path).len() > 0
            && path_segments(path).last().last() == path.last(),
    decreases path.len(),
{
    if path.len() > 0 {
        let earlier = path.drop_last();
        lemma_segments_are_runs(earlier);
        let before = path_segments(earlier);
        let now = path_segments(path);
        let c = path.last();
        if c != separator() {
            if path.len() >= 2 && path[path.len() - 2] != separator() {
                assert(earlier.last() == path[path.len() - 2]);
                assert(now == before.drop_last().push(before.last().push(c)));
            } else {
                assert(now == before.push(seq![c]));
            }
            assert forall|i: int| 0 <= i < now.len() implies (#[trigger] now[i]).len() > 0 by {
                if i < now.len() - 1 {
                    assert(now[i] == before[i]);
                }
            }
            assert forall|i: int, k: int| 0 <= i < now.len() && 0 <= k < now[i].len() implies #[trigger] now[i][k]
                != separator() by {
                if i < now.len() - 1 {
                    assert(now[i] == before[i]);
                } else if k < now[i].len() - 1 {
                    assert(now[i][k] == before.last()[k]);
                }
            }
        }
    }
}

/// A path without separator that is not empty is its own single segment.
pub proof fn lemma_name_is_one_segment(name: Seq<char>)
    requires
        name.len() > 0,
        forall|k: int| 0 <= k < name.len() ==> name[k] != separator(),
    ensures
        path_segments(name) == seq![name],
    decreases name.len(),
{
    let earlier = name.drop_last();
    if name.len() == 1 {
        assert(path_segments(earlier) =~= Seq::<Seq<char>>::empty());
        assert(seq![name.last()] =~= name);
        assert(path_segments(name) =~= seq![name]);
    } else {
        lemma_name_is_one_segment(earlier);
        assert(earlier.push(name.last()) =~= name);
        assert(path_segments(name) =~= seq![name]);
    }
}

/// A path can be split at any separator: its segments are those of the part
/// before the separator, followed by those of the part after it.
pub proof fn lemma_segments_split_at_separator(before: Seq<char>, after: Seq<char>)
    ensures
        path_segments(before + seq![separator()] + after) == path_segments(before) + path_segments(after),
    decreases after.len(),
{
    let path = before + seq![separator()] + after;
    let head = path_segments(before);
    if after.len() == 0 {
        assert(path.drop_last() =~= before);
        assert(path_segments(after) =~= Seq::<Seq<char>>::empty());
        assert(path_segments(path) =~= head + path_segments(after));
    } else {
        let earlier = after.drop_last();
        let c = after.last();
        lemma_segments_split_at_separator(before, earlier);
        lemma_segments_are_runs(earlier);
        let tail = path_segments(earlier);
        assert(path.drop_last() =~= before + seq![separator()] + earlier);
        assert(path.last() == c);
        if c != separator() {
            if earlier.len() > 0 && earlier.last() != separator() {
                assert(path[path.len() - 2] == earlier.last());
                assert(after[after.len() - 2] == earlier.last());
                assert((head + tail).drop_last() =~= head + tail.drop_last());
                assert((head + tail).last() == tail.last());
                assert(path_segments(path) =~= head + path_segments(after));
            } else {
                assert(path[path.len() - 2] == separator());
                assert(path_segments(path) =~= head + path_segments(after));
            }
        }
    }
}

} // verus!
