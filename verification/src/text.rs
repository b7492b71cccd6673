//! Trigger detection on text: looking for the bytes of a trigger among the
//! bytes of a line finds exactly the lines whose text holds the trigger's
//! text, as long as both are UTF-8.

use crate::trigger::contains_trigger;
use crate::trigger::occurs_at;
use crate::trigger::occurs_in;
use vstd::prelude::*;
use vstd::utf8::decode_utf8;
use vstd::utf8::decode_utf8_split;
use vstd::utf8::encode_utf8;
use vstd::utf8::encode_utf8_decode_utf8;
use vstd::utf8::encode_utf8_valid_utf8;
use vstd::utf8::is_char_boundary;
use vstd::utf8::is_char_boundary_iff_not_is_continuation_byte;
use vstd::utf8::pop_first_scalar;
use vstd::utf8::valid_first_scalar;
use vstd::utf8::valid_utf8;
use vstd::utf8::valid_utf8_split;

verus! {

/// The characters of `needle` stand in `hay` from index `at` on.
pub open spec fn text_occurs_at(needle: Seq<char>, hay: Seq<char>, at: int) -> bool {
    &&& 0 <= at
    &&& at + needle.len() <= hay.len()
    &&& hay.subrange(at, at + needle.len()) == needle
}

/// The text `needle` is a contiguous part of the text `hay`.
pub open spec fn text_occurs_in(needle: Seq<char>, hay: Seq<char>) -> bool {
    exists|at: int| text_occurs_at(needle, hay, at)
}

/// The encoding of two texts, one after the other, is the encoding of the
/// first followed by the encoding of the second.
pub proof fn lemma_encode_concat(first: Seq<char>, second: Seq<char>)
    ensures
        encode_utf8(first + second) == encode_utf8(first) + encode_utf8(second),
    decreases first.len(),
{
    if first.len() > 0 {
        let whole = first + second;
        assert(whole.drop_first() =~= first.drop_first() + second);
        lemma_encode_concat(first.drop_first(), second);
    }
}

/// Well-formed bytes that begin other well-formed bytes end where a
/// character of those ends.
proof fn lemma_prefix_ends_on_boundary(prefix: Seq<u8>, bytes: Seq<u8>)
    requires
        valid_utf8(prefix),
        valid_utf8(bytes),
        prefix.len() <= bytes.len(),
        bytes.subrange(0, prefix.len() as int) == prefix,
    ensures
        is_char_boundary(bytes, prefix.len() as int),
    decreases prefix.len(),
{
    if prefix.len() > 0 {
        assert(valid_first_scalar(prefix));
        let rest = pop_first_scalar(prefix);
        let others = pop_first_scalar(bytes);
        assert(others.subrange(0, rest.len() as int) =~= rest);
        lemma_prefix_ends_on_boundary(rest, others);
    }
}

/// Looking for the encoding of a text among the encoding of another finds
/// exactly what looking for the text in the text finds.
pub proof fn law_bytes_find_what_text_finds(needle: Seq<char>, hay: Seq<char>)
    ensures
        occurs_in(encode_utf8(needle), encode_utf8(hay)) <==> text_occurs_in(needle, hay),
{
    let small = encode_utf8(needle);
    let large = encode_utf8(hay);
    encode_utf8_valid_utf8(needle);
    encode_utf8_valid_utf8(hay);
    encode_utf8_decode_utf8(needle);
    encode_utf8_decode_utf8(hay);
    if text_occurs_in(needle, hay) {
        let at = choose|at: int| text_occurs_at(needle, hay, at);
        let before = hay.subrange(0, at);
        let after = hay.subrange(at + needle.len(), hay.len() as int);
        assert(hay =~= (before + needle) + after);
        lemma_encode_concat(before + needle, after);
        lemma_encode_concat(before, needle);
        let start = encode_utf8(before).len() as int;
        assert(large.subrange(start, start + small.len()) =~= small);
        assert(occurs_at(small, large, start));
    }
    if occurs_in(small, large) {
        let start = choose|start: int| occurs_at(small, large, start);
        if needle.len() == 0 {
            assert(hay.subrange(0, 0) =~= needle);
            assert(text_occurs_at(needle, hay, 0));
        } else {
            is_char_boundary_iff_not_is_continuation_byte(small, 0);
            is_char_boundary_iff_not_is_continuation_byte(large, start);
            assert(is_char_boundary(large, start));
            valid_utf8_split(large, start);
            decode_utf8_split(large, start);
            let head = large.subrange(0, start);
            let tail = large.subrange(start, large.len() as int);
            assert(tail.subrange(0, small.len() as int) =~= small);
            lemma_prefix_ends_on_boundary(small, tail);
            valid_utf8_split(tail, small.len() as int);
            decode_utf8_split(tail, small.len() as int);
            let rest = tail.subrange(small.len() as int, tail.len() as int);
            let at = decode_utf8(head).len() as int;
            assert(hay =~= decode_utf8(head) + (needle + decode_utf8(rest)));
            assert(hay.subrange(at, at + needle.len()) =~= needle);
            assert(text_occurs_at(needle, hay, at));
        }
    }
}

/// Exact, case-sensitive containment of text: `true` exactly when the
/// characters of `trigger` stand somewhere in `line`, one after the other.
pub fn text_contains_trigger(line: &str, trigger: &str) -> (found: bool)
    ensures
        found == text_occurs_in(trigger@, line@),
{
    proof {
        law_bytes_find_what_text_finds(trigger@, line@);
    }
    contains_trigger(line.as_bytes(), trigger.as_bytes())
}

} // verus!
