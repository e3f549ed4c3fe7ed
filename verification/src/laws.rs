//! What holds of every session, however its driver behaves.
//!
//! A run is any finite sequence of reports. Reports out of turn change
//! nothing, so every sequence is a run and the laws below need no side
//! conditions on it.

use vstd::prelude::*;
use crate::input::Event;
use crate::policy::{is_escape_press, requests_close};
use crate::session::{Phase, Report, SessionView};
use crate::window::WindowView;

verus! {

/// The session after a run of reports, first to last.
pub open spec fn after_all(session: SessionView, reports: Seq<Report>) -> SessionView
    decreases reports.len(),
{
    if reports.len() == 0 {
        session
    } else {
        after_all(session, reports.drop_last()).after(reports.last())
    }
}

/// A session is consistent when it begins.
pub proof fn lemma_start_consistent(window: WindowView)
    ensures
        SessionView::start(window).consistent(),
{
}

/// No report breaks consistency.
pub proof fn lemma_report_keeps_consistent(session: SessionView, report: Report)
    requires
        session.consistent(),
    ensures
        session.after(report).consistent(),
{
}

/// Every session is consistent after every run.
pub proof fn lemma_run_consistent(window: WindowView, reports: Seq<Report>)
    ensures
        after_all(SessionView::start(window), reports).consistent(),
    decreases reports.len(),
{
    if reports.len() > 0 {
        lemma_run_consistent(window, reports.drop_last());
        lemma_report_keeps_consistent(
            after_all(SessionView::start(window), reports.drop_last()),
            reports.last(),
        );
    }
}

/// The close flag is monotonic: once it is set, no run resets it. The
/// dimensions and the title of the window never change at all.
pub proof fn lemma_close_flag_monotonic(session: SessionView, reports: Seq<Report>)
    ensures
        session.window.close_flag ==> after_all(session, reports).window.close_flag,
        after_all(session, reports).window.width == session.window.width,
        after_all(session, reports).window.height == session.window.height,
        after_all(session, reports).window.title == session.window.title,
    decreases reports.len(),
{
    if reports.len() > 0 {
        lemma_close_flag_monotonic(session, reports.drop_last());
    }
}

/// A batch of events sets the close flag exactly when it holds a press of
/// the escape key; otherwise the flag stays as it was. In particular a batch
/// of nothing but that press stops the loop, and a batch with a release of
/// the escape key and no press leaves the flag alone.
pub proof fn lemma_batch_closes_iff_escape_press(session: SessionView, batch: Seq<Event>)
    requires
        session.phase == Phase::Polling,
    ensures
        session.after(Report::Events(batch)).window.close_flag <==> session.window.close_flag
            || exists|i: int| 0 <= i < batch.len() && is_escape_press(#[trigger] batch[i]),
        requests_close(batch) ==> !session.after(Report::Events(batch)).should_continue(),
        batch.len() == 1 ==> (requests_close(batch) <==> is_escape_press(batch[0])),
{
    if batch.len() == 1 && is_escape_press(batch[0]) {
        assert(requests_close(batch));
    }
}

/// One frame is drawn in every iteration, whatever the batch held, an empty
/// batch included: after the events a frame is due, and once the renderer
/// was invoked no second frame is in turn before the next batch.
pub proof fn lemma_one_frame_per_iteration(
    session: SessionView,
    batch: Seq<Event>,
    rendered: bool,
    again: bool,
)
    requires
        session.phase == Phase::Polling,
    ensures
        session.after(Report::Events(batch)).phase == Phase::Rendering,
        session.after(Report::Events(batch)).frames == session.frames,
        session.after(Report::Events(batch)).after(Report::Frame(rendered)).frames
            == session.frames + 1,
        session.after(Report::Events(batch)).after(Report::Frame(rendered)).after(
            Report::Frame(again),
        ) == session.after(Report::Events(batch)).after(Report::Frame(rendered)),
{
}

/// The loop ends after the frame of the iteration in which the close flag
/// was set or in which the frame failed, and only then; either way the
/// shutdown is in turn next.
pub proof fn lemma_loop_ends_into_shutdown(session: SessionView, rendered: bool)
    requires
        session.phase == Phase::Rendering,
    ensures
        session.after(Report::Frame(rendered)).phase == if rendered
            && session.should_continue() {
            Phase::Polling
        } else {
            Phase::Closing
        },
        session.after(Report::Frame(rendered)).phase == Phase::Closing ==> session.after(
            Report::Frame(rendered),
        ).admits(Report::ShutDown),
        session.after(Report::Frame(rendered)).failed <==> session.failed || !rendered,
{
}

/// A session is shut down at most once in any run, and exactly once if the
/// run finished it. By then every processed batch has had its frame.
pub proof fn lemma_shutdown_exactly_once(window: WindowView, reports: Seq<Report>)
    ensures
        after_all(SessionView::start(window), reports).shutdowns <= 1,
        after_all(SessionView::start(window), reports).phase == Phase::Finished <==> after_all(
            SessionView::start(window),
            reports,
        ).shutdowns == 1,
        after_all(SessionView::start(window), reports).phase == Phase::Finished ==> after_all(
            SessionView::start(window),
            reports,
        ).frames == after_all(SessionView::start(window), reports).iterations,
{
    lemma_run_consistent(window, reports);
}

/// The loop of a session ends only for a reason, whichever it is: in every
/// run, a session that is closing or finished has its close flag set or had
/// a frame fail. A finished session holds nothing: all that was acquired
/// went into the plan of its shutdown.
pub proof fn lemma_loop_ends_for_a_reason(window: WindowView, reports: Seq<Report>)
    ensures
        after_all(SessionView::start(window), reports).phase == Phase::Closing || after_all(
            SessionView::start(window),
            reports,
        ).phase == Phase::Finished ==> after_all(SessionView::start(window), reports).failed
            || after_all(SessionView::start(window), reports).window.close_flag,
        after_all(SessionView::start(window), reports).phase == Phase::Finished ==> after_all(
            SessionView::start(window),
            reports,
        ).resources.len() == 0,
    decreases reports.len(),
{
    if reports.len() > 0 {
        lemma_loop_ends_for_a_reason(window, reports.drop_last());
    }
}

/// A finished session stays as it is: no batch is processed, no frame is
/// drawn and no second shutdown happens, whatever is reported to it. Only
/// a close request can still set the flag of its window.
pub proof fn lemma_finished_is_final(session: SessionView, reports: Seq<Report>)
    requires
        session.phase == Phase::Finished,
    ensures
        after_all(session, reports) == (SessionView {
            window: after_all(session, reports).window,
            ..session
        }),
    decreases reports.len(),
{
    if reports.len() > 0 {
        lemma_finished_is_final(session, reports.drop_last());
    }
}

} // verus!
