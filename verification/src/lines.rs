//! Splitting a span of bytes into text lines.
//!
//! A line ends at a line feed; a carriage return directly before that line
//! feed belongs to the line ending as well. Bytes after the last line feed
//! form a last line of their own, kept as they are.

use vstd::prelude::*;
use vstd::slice::slice_subrange;
use vstd::slice::slice_to_vec;

verus! {

/// The line feed byte.
pub const LF: u8 = 10;

/// The carriage return byte.
pub const CR: u8 = 13;

/// The number of bytes before the first line feed of `data`, or the length of
/// `data` where it holds no line feed.
pub open spec fn line_end(data: Seq<u8>) -> int
    decreases data.len(),
{
    if data.len() == 0 || data[0] == LF {
        0
    } else {
        1 + line_end(data.drop_first())
    }
}

/// `line` without the carriage return at its end, if it has one.
pub open spec fn without_cr(line: Seq<u8>) -> Seq<u8> {
    if line.len() > 0 && line.last() == CR {
        line.drop_last()
    } else {
        line
    }
}

/// The lines of `data`, in order. Each line feed ends a line, which is handed
/// out without its ending; what follows the last line feed is a line too,
/// unless nothing follows it.
pub open spec fn lines_of(data: Seq<u8>) -> Seq<Seq<u8>>
    decreases data.len(),
{
    let end = line_end(data);
    if data.len() == 0 {
        Seq::empty()
    } else if 0 <= end < data.len() {
        seq![without_cr(data.subrange(0, end))] + lines_of(
            data.subrange(end + 1, data.len() as int),
        )
    } else {
        seq![data]
    }
}

/// Where `line_end` lies: within the data, behind bytes that are no line
/// feeds, and on a line feed unless it is the end of the data.
pub proof fn lemma_line_end(data: Seq<u8>)
    ensures
        0 <= line_end(data) <= data.len(),
        forall|j: int| 0 <= j < line_end(data) ==> data[j] != LF,
        line_end(data) < data.len() ==> data[line_end(data)] == LF,
    decreases data.len(),
{
    if data.len() > 0 && data[0] != LF {
        let rest = data.drop_first();
        lemma_line_end(rest);
        assert forall|j: int| 0 <= j < line_end(data) implies data[j] != LF by {
            if j > 0 {
                assert(data[j] == rest[j - 1]);
            }
        }
    }
}

/// An index that lies where `line_end` is said to lie is `line_end`.
pub proof fn lemma_line_end_is(data: Seq<u8>, end: int)
    requires
        0 <= end <= data.len(),
        forall|j: int| 0 <= j < end ==> data[j] != LF,
        end < data.len() ==> data[end] == LF,
    ensures
        line_end(data) == end,
{
    lemma_line_end(data);
}

/// What the deep view of a list of lines is: the views of its lines, in order.
pub proof fn lemma_lines_deep_view(lines: Vec<Vec<u8>>)
    ensures
        lines.deep_view().len() == lines@.len(),
        forall|i: int| 0 <= i < lines@.len() ==> #[trigger] lines.deep_view()[i] == lines@[i]@,
{
    assert forall|i: int| 0 <= i < lines@.len() implies #[trigger] lines.deep_view()[i]
        == lines@[i]@ by {
    }
}

/// Appends `line` to `lines`.
pub(crate) fn push_line(lines: &mut Vec<Vec<u8>>, line: Vec<u8>)
    ensures
        final(lines).deep_view() == old(lines).deep_view().push(line@),
{
    proof {
        lemma_lines_deep_view(*lines);
    }
    lines.push(line);
    proof {
        lemma_lines_deep_view(*lines);
    }
}

/// Splits `data` into its lines.
pub fn split_lines(data: &[u8]) -> (lines: Vec<Vec<u8>>)
    ensures
        lines.deep_view() == lines_of(data@),
{
    let total: usize = data.len();
    let mut lines: Vec<Vec<u8>> = Vec::new();
    let mut start: usize = 0;
    assert(data@.subrange(0, total as int) =~= data@);
    while start < total
        invariant
            total == data@.len(),
            start <= total,
            lines.deep_view() + lines_of(data@.subrange(start as int, total as int)) == lines_of(
                data@,
            ),
        decreases total - start,
    {
        let mut end: usize = start;
        while end < total && data[end] != LF
            invariant
                total == data@.len(),
                start <= end <= total,
                forall|j: int| start <= j < end ==> data@[j] != LF,
            decreases total - end,
        {
            end += 1;
        }
        let terminated: bool = end < total;
        let mut stop: usize = end;
        if terminated && stop > start && data[stop - 1] == CR {
            stop -= 1;
        }
        let line: Vec<u8> = slice_to_vec(slice_subrange(data, start, stop));
        let next: usize = if terminated {
            end + 1
        } else {
            end
        };
        proof {
            let rest = data@.subrange(start as int, total as int);
            lemma_line_end_is(rest, end - start);
            if terminated {
                assert(without_cr(rest.subrange(0, end - start)) =~= line@);
                assert(rest.subrange(end - start + 1, rest.len() as int) =~= data@.subrange(
                    next as int,
                    total as int,
                ));
            }
        }
        push_line(&mut lines, line);
        start = next;
    }
    lines
}

} // verus!
