//! Trigger detection: does a line hold the trigger text?

use crate::lines::lemma_lines_deep_view;
use crate::lines::push_line;
use vstd::prelude::*;
use vstd::slice::slice_to_vec;
use vstd::string::StringSliceAdditionalSpecFns;

verus! {

/// The line that announces a newly generated floor in the game's log.
pub const DEFAULT_TRIGGER: &'static str = "Players finished generating the new floor";

/// The bytes of [`DEFAULT_TRIGGER`].
pub fn default_trigger() -> (trigger: Vec<u8>)
    ensures
        trigger@ == DEFAULT_TRIGGER.spec_bytes(),
{
    slice_to_vec(DEFAULT_TRIGGER.as_bytes())
}

/// `needle` stands in `hay` starting at index `at`.
pub open spec fn occurs_at(needle: Seq<u8>, hay: Seq<u8>, at: int) -> bool {
    &&& 0 <= at
    &&& at + needle.len() <= hay.len()
    &&& hay.subrange(at, at + needle.len()) == needle
}

/// `needle` is a contiguous part of `hay`. The empty text is part of every text.
pub open spec fn occurs_in(needle: Seq<u8>, hay: Seq<u8>) -> bool {
    exists|at: int| occurs_at(needle, hay, at)
}

/// The first `upto` bytes of `needle` stand in `hay` from index `at` on.
spec fn agrees_upto(needle: Seq<u8>, hay: Seq<u8>, at: int, upto: int) -> bool {
    forall|k: int| 0 <= k < upto ==> hay[at + k] == needle[k]
}

proof fn lemma_occurs_at_pointwise(needle: Seq<u8>, hay: Seq<u8>, at: int)
    requires
        0 <= at,
        at + needle.len() <= hay.len(),
    ensures
        occurs_at(needle, hay, at) <==> agrees_upto(needle, hay, at, needle.len() as int),
{
    let part = hay.subrange(at, at + needle.len());
    if agrees_upto(needle, hay, at, needle.len() as int) {
        assert forall|k: int| 0 <= k < needle.len() implies part[k] == needle[k] by {
        }
        assert(part =~= needle);
    }
    if occurs_at(needle, hay, at) {
        assert forall|k: int| 0 <= k < needle.len() implies hay[at + k] == needle[k] by {
        }
    }
}

/// Does `trigger` stand at index `at` of `line`?
fn matches_at(line: &[u8], trigger: &[u8], at: usize) -> (found: bool)
    requires
        at + trigger@.len() <= line@.len(),
    ensures
        found == occurs_at(trigger@, line@, at as int),
{
    let width: usize = trigger.len();
    let room: usize = line.len();
    let mut k: usize = 0;
    while k < width
        invariant
            width == trigger@.len(),
            room == line@.len(),
            k <= width,
            at + width <= room,
            agrees_upto(trigger@, line@, at as int, k as int),
        decreases trigger@.len() - k,
    {
        if line[at + k] != trigger[k] {
            proof {
                lemma_occurs_at_pointwise(trigger@, line@, at as int);
            }
            return false;
        }
        k += 1;
    }
    proof {
        lemma_occurs_at_pointwise(trigger@, line@, at as int);
    }
    true
}

/// Exact, case-sensitive containment: `true` exactly when the bytes of
/// `trigger` stand somewhere in `line`, one after the other.
pub fn contains_trigger(line: &[u8], trigger: &[u8]) -> (found: bool)
    ensures
        found == occurs_in(trigger@, line@),
{
    if trigger.len() > line.len() {
        return false;
    }
    let last: usize = line.len() - trigger.len();
    let mut at: usize = 0;
    loop
        invariant
            last == line@.len() - trigger@.len(),
            at <= last,
            forall|j: int| 0 <= j < at ==> !occurs_at(trigger@, line@, j),
        decreases last - at,
    {
        if matches_at(line, trigger, at) {
            return true;
        }
        if at == last {
            return false;
        }
        at += 1;
    }
}

/// The lines among `lines` that hold `trigger`, in their order; a line that
/// holds it several times is kept once.
pub open spec fn matching_lines(lines: Seq<Seq<u8>>, trigger: Seq<u8>) -> Seq<Seq<u8>>
    decreases lines.len(),
{
    if lines.len() == 0 {
        Seq::empty()
    } else {
        let earlier = matching_lines(lines.drop_last(), trigger);
        if occurs_in(trigger, lines.last()) {
            earlier.push(lines.last())
        } else {
            earlier
        }
    }
}

/// Picks the lines that hold `trigger`: one entry for each such line, in the
/// order of `lines`.
pub fn select_matching(lines: &Vec<Vec<u8>>, trigger: &[u8]) -> (hits: Vec<Vec<u8>>)
    ensures
        hits.deep_view() == matching_lines(lines.deep_view(), trigger@),
{
    let mut hits: Vec<Vec<u8>> = Vec::new();
    let mut i: usize = 0;
    proof {
        lemma_lines_deep_view(*lines);
    }
    while i < lines.len()
        invariant
            i <= lines@.len(),
            lines.deep_view().len() == lines@.len(),
            hits.deep_view() == matching_lines(lines.deep_view().take(i as int), trigger@),
        decreases lines@.len() - i,
    {
        proof {
            lemma_lines_deep_view(*lines);
            assert(lines.deep_view().take(i + 1).drop_last() =~= lines.deep_view().take(i as int));
        }
        if contains_trigger(lines[i].as_slice(), trigger) {
            let hit: Vec<u8> = slice_to_vec(lines[i].as_slice());
            push_line(&mut hits, hit);
        }
        i += 1;
    }
    assert(lines.deep_view().take(i as int) =~= lines.deep_view());
    hits
}

} // verus!
