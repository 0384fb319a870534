//! Splitting a byte stream into lines. A line runs up to and including the
//! next `\n`; the last line may lack one. No terminator is normalised, so a
//! `\r\n` line keeps its `\r`.
use vstd::prelude::*;

verus! {

/// The line feed byte.
pub const LINE_FEED: u8 = 10;

/// The end (exclusive) of the line that starts at `start`: one past the next
/// line feed, or the end of the input when no line feed follows.
pub open spec fn line_end(bytes: Seq<u8>, start: int) -> int
    decreases bytes.len() - start,
{
    if start >= bytes.len() {
        bytes.len() as int
    } else if bytes[start] == LINE_FEED {
        start + 1
    } else {
        line_end(bytes, start + 1)
    }
}

/// The lines of `bytes` from position `start` on.
pub open spec fn lines_from(bytes: Seq<u8>, start: int) -> Seq<Seq<u8>>
    recommends
        0 <= start,
    decreases bytes.len() - start,
{
    if start < 0 || start >= bytes.len() {
        seq![]
    } else {
        let end = line_end(bytes, start);
        if end <= start || end > bytes.len() {
            seq![]
        } else {
            seq![bytes.subrange(start, end)] + lines_from(bytes, end)
        }
    }
}

/// The lines of `bytes`, in order.
pub open spec fn split_lines(bytes: Seq<u8>) -> Seq<Seq<u8>> {
    lines_from(bytes, 0)
}

/// The concatenation of a sequence of lines.
pub open spec fn join_lines(lines: Seq<Seq<u8>>) -> Seq<u8>
    decreases lines.len(),
{
    if lines.len() == 0 {
        seq![]
    } else {
        join_lines(lines.drop_last()) + lines.last()
    }
}

/// A line ends strictly after it starts, no later than the input's end, and
/// holds no line feed before its last byte.
pub proof fn lemma_line_end_bounds(bytes: Seq<u8>, start: int)
    requires
        0 <= start < bytes.len(),
    ensures
        start < line_end(bytes, start) <= bytes.len(),
        forall|k: int| start <= k < line_end(bytes, start) - 1 ==> bytes[k] != LINE_FEED,
        line_end(bytes, start) < bytes.len() ==> bytes[line_end(bytes, start) - 1] == LINE_FEED,
    decreases bytes.len() - start,
{
    if bytes[start] != LINE_FEED {
        if start + 1 < bytes.len() {
            lemma_line_end_bounds(bytes, start + 1);
        } else {
            assert(line_end(bytes, start + 1) == bytes.len());
        }
    }
}

/// Joining `lines` and then more lines is joining the lot.
proof fn lemma_join_append(lines: Seq<Seq<u8>>, more: Seq<Seq<u8>>)
    ensures
        join_lines(lines + more) == join_lines(lines) + join_lines(more),
    decreases more.len(),
{
    if more.len() == 0 {
        assert(lines + more =~= lines);
        assert(join_lines(lines) + join_lines(more) =~= join_lines(lines));
    } else {
        lemma_join_append(lines, more.drop_last());
        assert((lines + more).drop_last() =~= lines + more.drop_last());
        assert(join_lines(lines) + join_lines(more) =~= join_lines(lines) + join_lines(
            more.drop_last(),
        ) + more.last());
    }
}

/// The lines from `start` on join to the input's bytes from `start` on.
proof fn lemma_join_lines_from(bytes: Seq<u8>, start: int)
    requires
        0 <= start <= bytes.len(),
    ensures
        join_lines(lines_from(bytes, start)) == bytes.subrange(start, bytes.len() as int),
    decreases bytes.len() - start,
{
    if start == bytes.len() {
        assert(bytes.subrange(start, bytes.len() as int) =~= Seq::<u8>::empty());
    } else {
        let end = line_end(bytes, start);
        lemma_line_end_bounds(bytes, start);
        lemma_join_lines_from(bytes, end);
        let first = seq![bytes.subrange(start, end)];
        lemma_join_append(first, lines_from(bytes, end));
        assert(first.drop_last() =~= Seq::<Seq<u8>>::empty());
        assert(join_lines(first.drop_last()) == Seq::<u8>::empty());
        assert(join_lines(first) =~= bytes.subrange(start, end));
        assert(bytes.subrange(start, end) + bytes.subrange(end, bytes.len() as int)
            =~= bytes.subrange(start, bytes.len() as int));
    }
}

/// Splitting loses and adds nothing: the lines join back to the input.
pub proof fn lemma_lines_join_to_input(bytes: Seq<u8>)
    ensures
        join_lines(split_lines(bytes)) == bytes,
{
    lemma_join_lines_from(bytes, 0);
    assert(bytes.subrange(0, bytes.len() as int) =~= bytes);
}

/// Every line but the last ends in a line feed, and no line holds a line feed
/// before its last byte.
pub proof fn lemma_lines_shape(bytes: Seq<u8>, start: int)
    requires
        0 <= start <= bytes.len(),
    ensures
        forall|i: int|
            0 <= i < lines_from(bytes, start).len() ==> {
                let line = #[trigger] lines_from(bytes, start)[i];
                &&& line.len() > 0
                &&& forall|k: int| 0 <= k < line.len() - 1 ==> line[k] != LINE_FEED
                &&& i < lines_from(bytes, start).len() - 1 ==> line.last() == LINE_FEED
            },
    decreases bytes.len() - start,
{
    if start < bytes.len() {
        let end = line_end(bytes, start);
        lemma_line_end_bounds(bytes, start);
        lemma_lines_shape(bytes, end);
        let rest = lines_from(bytes, end);
        if end < bytes.len() {
            lemma_line_end_bounds(bytes, end);
            assert(rest.len() > 0);
        }
        assert forall|i: int| 0 <= i < lines_from(bytes, start).len() implies {
            let line = #[trigger] lines_from(bytes, start)[i];
            &&& line.len() > 0
            &&& forall|k: int| 0 <= k < line.len() - 1 ==> line[k] != LINE_FEED
            &&& i < lines_from(bytes, start).len() - 1 ==> line.last() == LINE_FEED
        } by {
            if i > 0 {
                assert(lines_from(bytes, start)[i] == rest[i - 1]);
            }
        }
    }
}

/// Finds the end (exclusive) of the line that starts at `start`.
pub fn find_line_end(bytes: &[u8], start: usize) -> (end: usize)
    requires
        start < bytes@.len(),
    ensures
        end as int == line_end(bytes@, start as int),
{
    let mut j: usize = start;
    while j < bytes.len() && bytes[j] != LINE_FEED
        invariant
            start <= j <= bytes@.len(),
            line_end(bytes@, j as int) == line_end(bytes@, start as int),
        decreases bytes@.len() - j,
    {
        j = j + 1;
    }
    if j < bytes.len() {
        j + 1
    } else {
        j
    }
}

} // verus!
