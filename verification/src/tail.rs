//! Position tracking for reading what was appended to a file.
//!
//! A [`TailReader`] remembers up to which byte the file has been handed out.
//! It never touches the file: the caller reports the file's present length,
//! is told which span to read, and hands the bytes of that span back.

use crate::lines::lines_of;
use crate::lines::split_lines;
use vstd::prelude::*;

verus! {

/// What a [`TailReader`] stands for: the number of bytes handed out so far and
/// the file length that was reported last.
pub struct TailView {
    pub offset: nat,
    pub observed: nat,
}

/// What to do after the file's present length has been compared with the
/// remembered offset.
#[derive(Clone, Copy, Debug, PartialEq, Eq, Structural)]
pub enum ReadPlan {
    /// The file has not grown: nothing to read.
    Idle,
    /// The file is shorter than the offset: the offset was moved back to the
    /// file's end, and nothing is read.
    Truncated,
    /// Read the bytes from `from` up to, not including, `to`.
    Read { from: u64, to: u64 },
}

/// Why bytes that were handed back were refused.
#[derive(Clone, Copy, Debug, PartialEq, Eq, Structural)]
pub enum TailError {
    /// The bytes do not fill the span from the offset to the reported length.
    SpanMismatch,
}

/// The position of an incremental reader in a growing file.
pub struct TailReader {
    offset: u64,
    observed: u64,
}

/// The state after the length `current_len` was reported: a shorter file pulls
/// the offset back to its end, any other leaves the offset where it was.
pub open spec fn after_poll(before: TailView, current_len: nat) -> TailView {
    TailView {
        offset: if current_len < before.offset {
            current_len
        } else {
            before.offset
        },
        observed: current_len,
    }
}

/// The plan that belongs to the report of `current_len`.
pub open spec fn plan_for(before: TailView, current_len: u64) -> ReadPlan {
    if current_len == before.offset {
        ReadPlan::Idle
    } else if current_len < before.offset {
        ReadPlan::Truncated
    } else {
        ReadPlan::Read { from: before.offset as u64, to: current_len }
    }
}

/// `len` bytes are exactly what lies between the offset and the reported length.
pub open spec fn fills_span(before: TailView, len: nat) -> bool {
    before.offset + len == before.observed
}

/// The state after the span up to the reported length was handed out.
pub open spec fn after_read(before: TailView) -> TailView {
    TailView { offset: before.observed, observed: before.observed }
}

impl View for TailReader {
    type V = TailView;

    closed spec fn view(&self) -> TailView {
        TailView { offset: self.offset as nat, observed: self.observed as nat }
    }
}

impl TailReader {
    #[verifier::type_invariant]
    spec fn within_file(&self) -> bool {
        self.offset <= self.observed
    }

    /// A reader for a file that is `file_len` bytes long at this moment. It
    /// starts at the file's end: what the file holds already is never handed
    /// out.
    pub fn open(file_len: u64) -> (reader: TailReader)
        ensures
            reader@ == (TailView { offset: file_len as nat, observed: file_len as nat }),
    {
        TailReader { offset: file_len, observed: file_len }
    }

    /// The number of bytes handed out so far, counted from the file's start.
    pub fn offset(&self) -> (offset: u64)
        ensures
            offset == self@.offset,
            self@.offset <= self@.observed,
    {
        proof {
            use_type_invariant(self);
        }
        self.offset
    }

    /// The file length that was reported last.
    pub fn observed_len(&self) -> (len: u64)
        ensures
            len == self@.observed,
            self@.offset <= self@.observed,
    {
        proof {
            use_type_invariant(self);
        }
        self.observed
    }

    /// Takes note of the file's present length and says what to read.
    ///
    /// The offset moves only where the file has become shorter than it, and
    /// then to the file's end. It is not advanced here: that is done by
    /// [`TailReader::take_new_lines`], once the span has been read.
    pub fn poll_new_lines(&mut self, current_len: u64) -> (plan: ReadPlan)
        ensures
            final(self)@ == after_poll(old(self)@, current_len as nat),
            plan == plan_for(old(self)@, current_len),
            final(self)@.offset <= current_len,
            current_len >= old(self)@.offset ==> final(self)@.offset == old(self)@.offset,
    {
        proof {
            use_type_invariant(&*self);
        }
        let from: u64 = self.offset;
        if current_len < from {
            *self = TailReader { offset: current_len, observed: current_len };
            ReadPlan::Truncated
        } else {
            *self = TailReader { offset: from, observed: current_len };
            if current_len == from {
                ReadPlan::Idle
            } else {
                ReadPlan::Read { from, to: current_len }
            }
        }
    }

    /// Takes the bytes that were read for the last plan and hands out their
    /// lines.
    ///
    /// `data` is accepted where it is exactly what lies between the offset and
    /// the length reported last; the offset then moves to that length. Any
    /// other `data` is refused and leaves the reader as it was.
    ///
    /// What follows the last line feed of `data` is handed out as a line too:
    /// the reader keeps nothing back for a later call.
    pub fn take_new_lines(&mut self, data: &[u8]) -> (taken: Result<Vec<Vec<u8>>, TailError>)
        ensures
            match taken {
                Ok(lines) => {
                    &&& fills_span(old(self)@, data@.len())
                    &&& lines.deep_view() == lines_of(data@)
                    &&& final(self)@ == after_read(old(self)@)
                },
                Err(error) => {
                    &&& !fills_span(old(self)@, data@.len())
                    &&& error == TailError::SpanMismatch
                    &&& final(self)@ == old(self)@
                },
            },
            final(self)@.offset >= old(self)@.offset,
            final(self)@.offset <= final(self)@.observed,
            final(self)@.observed == old(self)@.observed,
    {
        proof {
            use_type_invariant(&*self);
        }
        let span: u64 = self.observed - self.offset;
        if data.len() as u64 != span {
            return Err(TailError::SpanMismatch);
        }
        let lines = split_lines(data);
        let end: u64 = self.observed;
        *self = TailReader { offset: end, observed: end };
        Ok(lines)
    }
}

} // verus!
