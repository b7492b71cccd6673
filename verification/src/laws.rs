//! What holds of the engine as a whole, stated over the models that the
//! contracts of its functions use.

use crate::event::EventView;
use crate::lines::lemma_line_end;
use crate::lines::lemma_line_end_is;
use crate::lines::line_end;
use crate::lines::lines_of;
use crate::lines::without_cr;
use crate::lines::CR;
use crate::lines::LF;
use crate::manager::after_finished;
use crate::manager::after_start;
use crate::manager::after_stop;
use crate::manager::holds_session;
use crate::manager::start_refusal;
use crate::manager::stop_takes_effect;
use crate::manager::ManagerError;
use crate::manager::ManagerView;
use crate::session::action_on_event;
use crate::session::after_begin;
use crate::session::after_event;
use crate::session::after_failure;
use crate::session::after_finish;
use crate::session::asks_to_stop;
use crate::session::in_phase;
use crate::session::Action;
use crate::session::Failure;
use crate::session::Phase;
use crate::session::SessionView;
use crate::tail::after_poll;
use crate::tail::after_read;
use crate::tail::fills_span;
use crate::tail::plan_for;
use crate::tail::ReadPlan;
use crate::tail::TailView;
use crate::trigger::matching_lines;
use vstd::prelude::*;

verus! {

/// A line as a writer appends it: it holds no line feed, and it does not end
/// in a carriage return, which would be part of its ending.
pub open spec fn is_line(line: Seq<u8>) -> bool {
    &&& forall|i: int| 0 <= i < line.len() ==> line[i] != LF
    &&& line.len() > 0 ==> line.last() != CR
}

/// The bytes that end a line in a file.
pub open spec fn line_ending(crlf: bool) -> Seq<u8> {
    if crlf {
        seq![CR, LF]
    } else {
        seq![LF]
    }
}

/// The bytes that a writer appends for `lines`: each line with its ending.
pub open spec fn written(lines: Seq<Seq<u8>>, crlf: bool) -> Seq<u8>
    decreases lines.len(),
{
    if lines.len() == 0 {
        Seq::empty()
    } else {
        written(lines.drop_last(), crlf) + lines.last() + line_ending(crlf)
    }
}

/// All lines of `batches`, in order.
pub open spec fn all_lines(batches: Seq<Seq<Seq<u8>>>) -> Seq<Seq<u8>>
    decreases batches.len(),
{
    if batches.len() == 0 {
        Seq::empty()
    } else {
        all_lines(batches.drop_last()) + batches.last()
    }
}

/// A file that is followed: what it holds, where its reader stands, and the
/// lines for which the side effect was fired so far.
pub struct Followed {
    pub content: Seq<u8>,
    pub tail: TailView,
    pub fired: Seq<Seq<u8>>,
}

/// What one change notification does after `appended` was written to the
/// file: the file's new length is reported, the span that is asked for is
/// read and scanned, and the side effect is fired for each line of it that
/// holds `trigger`.
pub open spec fn follow_one(before: Followed, appended: Seq<u8>, trigger: Seq<u8>) -> Followed {
    let content = before.content + appended;
    let polled = after_poll(before.tail, content.len());
    match plan_for(before.tail, content.len() as u64) {
        ReadPlan::Read { from, to } => Followed {
            content,
            tail: after_read(polled),
            fired: before.fired + matching_lines(
                lines_of(content.subrange(from as int, to as int)),
                trigger,
            ),
        },
        _ => Followed { content, tail: polled, fired: before.fired },
    }
}

/// What happens when the batches of `batches` are written one after the
/// other, with one change notification after each.
pub open spec fn follow(before: Followed, batches: Seq<Seq<Seq<u8>>>, crlf: bool, trigger: Seq<u8>)
    -> Followed
    decreases batches.len(),
{
    if batches.len() == 0 {
        before
    } else {
        follow_one(
            follow(before, batches.drop_last(), crlf, trigger),
            written(batches.last(), crlf),
            trigger,
        )
    }
}

/// No line that is handed out holds a line feed.
pub proof fn law_lines_hold_no_line_feed(data: Seq<u8>)
    ensures
        forall|i: int, j: int|
            0 <= i < lines_of(data).len() && 0 <= j < lines_of(data)[i].len() ==> (
            #[trigger] lines_of(data)[i][j]) != LF,
    decreases data.len(),
{
    if data.len() > 0 {
        lemma_line_end(data);
        let end = line_end(data);
        if end < data.len() {
            let rest = data.subrange(end + 1, data.len() as int);
            law_lines_hold_no_line_feed(rest);
            assert forall|i: int, j: int|
                0 <= i < lines_of(data).len() && 0 <= j < lines_of(data)[i].len() implies (
                #[trigger] lines_of(data)[i][j]) != LF by {
                if i > 0 {
                    assert(lines_of(data)[i] == lines_of(rest)[i - 1]);
                }
            }
        }
    }
}

/// Text that ends a line, followed by more text, has the lines of the one and
/// then the lines of the other.
pub proof fn lemma_lines_of_concat(first: Seq<u8>, second: Seq<u8>)
    requires
        first.len() == 0 || first.last() == LF,
    ensures
        lines_of(first + second) == lines_of(first) + lines_of(second),
    decreases first.len(),
{
    let whole = first + second;
    if first.len() > 0 {
        lemma_line_end(first);
        let end = line_end(first);
        lemma_line_end_is(whole, end);
        let rest = first.subrange(end + 1, first.len() as int);
        lemma_lines_of_concat(rest, second);
        assert(whole.subrange(0, end) =~= first.subrange(0, end));
        assert(whole.subrange(end + 1, whole.len() as int) =~= rest + second);
    }
}

/// One line with its ending reads back as that line.
pub proof fn lemma_lines_of_one(line: Seq<u8>, crlf: bool)
    requires
        is_line(line),
    ensures
        lines_of(line + line_ending(crlf)) == seq![line],
{
    let text = line + line_ending(crlf);
    let end: int = if crlf {
        line.len() as int + 1
    } else {
        line.len() as int
    };
    lemma_line_end_is(text, end);
    assert(without_cr(text.subrange(0, end)) == line);
    assert(lines_of(text.subrange(end + 1, text.len() as int)) =~= Seq::<Seq<u8>>::empty());
}

/// What was written for some lines is empty or ends in a line feed.
pub proof fn lemma_written_ends_lines(lines: Seq<Seq<u8>>, crlf: bool)
    ensures
        written(lines, crlf).len() == 0 || written(lines, crlf).last() == LF,
        lines.len() == 0 ==> written(lines, crlf).len() == 0,
{
}

/// What was written for some lines reads back as those lines.
pub proof fn lemma_lines_of_written(lines: Seq<Seq<u8>>, crlf: bool)
    requires
        forall|i: int| 0 <= i < lines.len() ==> is_line(#[trigger] lines[i]),
    ensures
        lines_of(written(lines, crlf)) == lines,
    decreases lines.len(),
{
    if lines.len() > 0 {
        let earlier = lines.drop_last();
        assert forall|i: int| 0 <= i < earlier.len() implies is_line(#[trigger] earlier[i]) by {
            assert(earlier[i] == lines[i]);
        }
        lemma_lines_of_written(earlier, crlf);
        lemma_written_ends_lines(earlier, crlf);
        let tail = lines.last() + line_ending(crlf);
        assert(written(lines, crlf) =~= written(earlier, crlf) + tail);
        lemma_lines_of_concat(written(earlier, crlf), tail);
        lemma_lines_of_one(lines.last(), crlf);
    }
}

/// The lines that hold the trigger among `first` followed by `second` are
/// those among `first` followed by those among `second`.
pub proof fn lemma_matching_concat(first: Seq<Seq<u8>>, second: Seq<Seq<u8>>, trigger: Seq<u8>)
    ensures
        matching_lines(first + second, trigger) == matching_lines(first, trigger)
            + matching_lines(second, trigger),
    decreases second.len(),
{
    if second.len() > 0 {
        let whole = first + second;
        assert(whole.drop_last() =~= first + second.drop_last());
        lemma_matching_concat(first, second.drop_last(), trigger);
    }
}

/// The side effect is fired once for each appended line that holds the
/// trigger, in the order of the lines, however the lines are grouped into
/// batches that are written and noticed one after the other. The number of
/// firings is therefore the number of appended lines that hold the trigger,
/// and the reader ends at the end of the file.
pub proof fn law_fired_once_per_trigger_line(
    before: Followed,
    batches: Seq<Seq<Seq<u8>>>,
    crlf: bool,
    trigger: Seq<u8>,
)
    requires
        before.tail.offset == before.content.len(),
        follow(before, batches, crlf, trigger).content.len() <= u64::MAX,
        forall|i: int, j: int|
            0 <= i < batches.len() && 0 <= j < batches[i].len() ==> is_line(
                #[trigger] batches[i][j],
            ),
    ensures
        follow(before, batches, crlf, trigger).fired == before.fired + matching_lines(
            all_lines(batches),
            trigger,
        ),
        follow(before, batches, crlf, trigger).fired.len() == before.fired.len() + matching_lines(
            all_lines(batches),
            trigger,
        ).len(),
        follow(before, batches, crlf, trigger).tail.offset == follow(
            before,
            batches,
            crlf,
            trigger,
        ).content.len(),
    decreases batches.len(),
{
    if batches.len() > 0 {
        let earlier = batches.drop_last();
        let last = batches.last();
        let middle = follow(before, earlier, crlf, trigger);
        let appended = written(last, crlf);
        let content = middle.content + appended;
        assert forall|i: int, j: int|
            0 <= i < earlier.len() && 0 <= j < earlier[i].len() implies is_line(
            #[trigger] earlier[i][j],
        ) by {
            assert(earlier[i] == batches[i]);
        }
        law_fired_once_per_trigger_line(before, earlier, crlf, trigger);
        assert forall|j: int| 0 <= j < last.len() implies is_line(#[trigger] last[j]) by {
            assert(last[j] == batches[batches.len() - 1][j]);
        }
        lemma_lines_of_written(last, crlf);
        lemma_written_ends_lines(last, crlf);
        lemma_matching_concat(all_lines(earlier), last, trigger);
        if appended.len() > 0 {
            assert(content.subrange(middle.content.len() as int, content.len() as int)
                =~= appended);
        }
    }
}

/// The reading position stays within the file as it was last seen, and it
/// moves back only where the file was found shorter than the position.
pub proof fn law_offset_stays_within_file(before: TailView, current_len: nat)
    requires
        before.offset <= before.observed,
    ensures
        after_poll(before, current_len).offset <= current_len,
        after_poll(before, current_len).observed == current_len,
        after_poll(before, current_len).offset < before.offset <==> current_len < before.offset,
        current_len < before.offset ==> after_poll(before, current_len).offset == current_len,
        current_len >= before.offset ==> after_poll(before, current_len).offset == before.offset,
        after_read(before).offset >= before.offset,
        after_read(before).offset <= after_read(before).observed,
{
}

/// After text was appended to a file that had been handed out to its end, the
/// span that is asked for is exactly the appended text, and reading it moves
/// the position to the file's new end.
pub proof fn law_span_is_the_appended_text(before: TailView, content: Seq<u8>, appended: Seq<u8>)
    requires
        before.offset == content.len(),
        before.offset <= before.observed,
        appended.len() > 0,
        content.len() + appended.len() <= u64::MAX,
    ensures
        plan_for(before, (content + appended).len() as u64) == (ReadPlan::Read {
            from: content.len() as u64,
            to: (content + appended).len() as u64,
        }),
        (content + appended).subrange(content.len() as int, (content + appended).len() as int)
            == appended,
        fills_span(after_poll(before, (content + appended).len()), appended.len()),
        after_read(after_poll(before, (content + appended).len())).offset == (content
            + appended).len(),
{
}

/// Once a stop was asked for, by the flag or by a shutdown event, the first
/// event that a running session takes ends it: it goes to `Stopping` without
/// looking at the file, and is `Stopped` as soon as its file and watch are
/// released.
pub proof fn law_stop_ends_session_on_next_event(
    session: SessionView,
    event: EventView,
    cancel_requested: bool,
)
    requires
        session.phase == Phase::Running,
        asks_to_stop(event, cancel_requested),
    ensures
        after_event(session, event, cancel_requested) == in_phase(session, Phase::Stopping),
        action_on_event(session, event, cancel_requested) == Action::Release,
        after_finish(after_event(session, event, cancel_requested)) == in_phase(
            session,
            Phase::Stopped,
        ),
{
}

/// How far a session has come: the phases in the order in which a session
/// goes through them.
pub open spec fn phase_rank(phase: Phase) -> nat {
    match phase {
        Phase::Starting => 0,
        Phase::Running => 1,
        Phase::Stopping => 2,
        Phase::Stopped => 3,
    }
}

/// Whatever a session is told, it never goes back to an earlier phase, and
/// it is left only forwards: from `Starting` to any later phase, from
/// `Running` to `Stopping`, from `Stopping` to `Stopped`.
pub proof fn law_phases_only_advance(
    session: SessionView,
    file_len: nat,
    event: EventView,
    cancel_requested: bool,
    failure: Failure,
)
    ensures
        phase_rank(after_begin(session, file_len, cancel_requested).phase) >= phase_rank(
            session.phase,
        ),
        phase_rank(after_event(session, event, cancel_requested).phase) >= phase_rank(
            session.phase,
        ),
        phase_rank(after_failure(session, failure).phase) >= phase_rank(session.phase),
        phase_rank(after_finish(session).phase) >= phase_rank(session.phase),
        session.phase == Phase::Running ==> {
            &&& after_event(session, event, cancel_requested).phase != Phase::Stopped
            &&& after_failure(session, failure).phase != Phase::Stopped
        },
{
}

/// A session that has stopped stays as it is, whatever it is told.
pub proof fn law_stopped_is_final(
    session: SessionView,
    file_len: nat,
    event: EventView,
    cancel_requested: bool,
    failure: Failure,
)
    requires
        session.phase == Phase::Stopped,
    ensures
        after_begin(session, file_len, cancel_requested) == session,
        after_event(session, event, cancel_requested) == session,
        action_on_event(session, event, cancel_requested) == Action::Halt,
        after_failure(session, failure) == session,
        after_finish(session) == session,
{
}

/// A stop that is asked for before the session has begun to run still leads
/// to `Stopped`, by way of `Stopping`, so that what was opened is released.
pub proof fn law_early_stop_still_stops(session: SessionView, file_len: nat)
    requires
        session.phase == Phase::Starting,
    ensures
        after_begin(session, file_len, true).phase == Phase::Stopping,
        after_finish(after_begin(session, file_len, true)).phase == Phase::Stopped,
{
}

/// A stop that is asked of a session a second time, or of a session that has
/// stopped, changes nothing and has nothing to do.
pub proof fn law_repeated_stop_is_no_op(manager: ManagerView, id: nat)
    ensures
        !stop_takes_effect(after_stop(manager, id), id),
        after_stop(after_stop(manager, id), id) == after_stop(manager, id),
        !stop_takes_effect(after_finished(manager, id), id),
        after_stop(after_finished(manager, id), id) == after_finished(manager, id),
{
}

/// While a session that was started has not been reported as stopped, a
/// second start is refused as `AlreadyRunning` and leaves the manager with
/// the first session, also after a stop was asked of the first.
pub proof fn law_second_start_is_refused(manager: ManagerView, id: nat)
    requires
        start_refusal(manager) is None,
    ensures
        start_refusal(after_start(manager)) == Some(ManagerError::AlreadyRunning),
        after_start(after_start(manager)) == after_start(manager),
        holds_session(after_start(manager), manager.issued),
        start_refusal(after_stop(after_start(manager), id)) == Some(ManagerError::AlreadyRunning),
        after_start(after_stop(after_start(manager), id)) == after_stop(after_start(manager), id),
{
}

/// An event that names another path than the watched file never makes the
/// session look at the file: the session stays as it was, and the answer is
/// never `Poll`.
pub proof fn law_foreign_event_is_discarded(
    session: SessionView,
    path: Seq<char>,
    cancel_requested: bool,
)
    requires
        path != session.file_path,
    ensures
        action_on_event(session, EventView::PathChanged(path), cancel_requested) != Action::Poll,
        after_event(session, EventView::PathChanged(path), cancel_requested).tail == session.tail,
        !cancel_requested ==> after_event(session, EventView::PathChanged(path), cancel_requested)
            == session,
        session.phase == Phase::Running && !cancel_requested ==> action_on_event(
            session,
            EventView::PathChanged(path),
            cancel_requested,
        ) == Action::Wait,
{
}

} // verus!
