//! The session: a window, what it holds, and where its loop stands.
//!
//! A driver around the session does the outside work. In each iteration it
//! drains the pending events and hands them to `process_events`, then draws
//! one frame and hands the outcome to `render_frame`. When the loop has
//! ended it calls `shutdown` and releases what the plan names.

use vstd::prelude::*;
use crate::input::Event;
use crate::policy::{Action, apply_filter, filter_all, lemma_filter_next, requests_close};
use crate::resource::{Release, Resource, plan_release, release_plan};
use crate::window::{SessionError, Window, WindowView};

verus! {

/// Where the loop of a session stands, named by what it waits for.
#[derive(Clone, Copy, Debug, PartialEq, Eq, Structural, Hash)]
pub enum Phase {
    /// The loop goes on: the pending events are to be drained next.
    Polling,
    /// The events of this iteration are processed: one frame is to be drawn.
    Rendering,
    /// The loop has ended: what the session holds is to be released.
    Closing,
    /// Everything is released.
    Finished,
}

/// What the driver reports to a session.
pub enum Report {
    /// The events drained by one poll, in arrival order.
    Events(Seq<Event>),
    /// The renderer was invoked; `true` if it drew the frame.
    Frame(bool),
    /// A graphics object was created.
    Acquired(Resource),
    /// The window was asked to close from outside the event queue.
    CloseRequested,
    /// The shutdown was carried out.
    ShutDown,
}

/// What a session is, as a value.
pub struct SessionView {
    pub window: WindowView,
    pub phase: Phase,
    /// A frame failed to render.
    pub failed: bool,
    /// The graphics objects held, in order of acquisition.
    pub resources: Seq<Resource>,
    /// How many batches of events were processed.
    pub iterations: nat,
    /// How many times the renderer was invoked.
    pub frames: nat,
    /// How many times the session was shut down.
    pub shutdowns: nat,
}

impl SessionView {
    /// The session that begins with `window`. The loop is entered only if the
    /// window has not been asked to close already.
    pub open spec fn start(window: WindowView) -> SessionView {
        SessionView {
            window,
            phase: if window.close_flag {
                Phase::Closing
            } else {
                Phase::Polling
            },
            failed: false,
            resources: Seq::empty(),
            iterations: 0,
            frames: 0,
            shutdowns: 0,
        }
    }

    /// Whether the loop goes on: the negation of the close flag.
    pub open spec fn should_continue(self) -> bool {
        !self.window.close_flag
    }

    /// How the counters of a session go with its phase.
    ///
    /// Outside an iteration the renderer was invoked once for each batch of
    /// events processed; inside one, the frame of the current batch is still
    /// due. The session was shut down once if it is finished and never
    /// otherwise, and no frame has failed while the loop goes on.
    pub open spec fn consistent(self) -> bool {
        match self.phase {
            Phase::Polling => {
                &&& self.frames == self.iterations
                &&& self.shutdowns == 0
                &&& !self.failed
            },
            Phase::Rendering => {
                &&& self.frames + 1 == self.iterations
                &&& self.shutdowns == 0
                &&& !self.failed
            },
            Phase::Closing => {
                &&& self.frames == self.iterations
                &&& self.shutdowns == 0
            },
            Phase::Finished => {
                &&& self.frames == self.iterations
                &&& self.shutdowns == 1
            },
        }
    }

    /// Whether `report` is in turn.
    pub open spec fn admits(self, report: Report) -> bool {
        match report {
            Report::Events(_) => self.phase == Phase::Polling,
            Report::Frame(_) => self.phase == Phase::Rendering,
            Report::Acquired(_) => self.phase != Phase::Finished,
            Report::CloseRequested => true,
            Report::ShutDown => self.phase == Phase::Closing,
        }
    }

    /// The session after a batch of events: the close flag is set if an event
    /// of the batch asks for it, and a frame is due whatever the batch held.
    pub open spec fn after_events(self, batch: Seq<Event>) -> SessionView {
        SessionView {
            window: WindowView {
                close_flag: self.window.close_flag || requests_close(batch),
                ..self.window
            },
            phase: Phase::Rendering,
            iterations: self.iterations + 1,
            ..self
        }
    }

    /// The session after the renderer was invoked: the loop goes on if the
    /// frame was drawn and the close flag is not set, and ends otherwise.
    pub open spec fn after_frame(self, rendered: bool) -> SessionView {
        SessionView {
            phase: if rendered && self.should_continue() {
                Phase::Polling
            } else {
                Phase::Closing
            },
            failed: self.failed || !rendered,
            frames: self.frames + 1,
            ..self
        }
    }

    /// The session after one more graphics object was acquired.
    pub open spec fn after_acquired(self, resource: Resource) -> SessionView {
        SessionView { resources: self.resources.push(resource), ..self }
    }

    /// The session after a close request: only the close flag changes.
    pub open spec fn after_close_request(self) -> SessionView {
        SessionView { window: WindowView { close_flag: true, ..self.window }, ..self }
    }

    /// The session after its shutdown: nothing is held any more.
    pub open spec fn after_shutdown(self) -> SessionView {
        SessionView {
            phase: Phase::Finished,
            resources: Seq::empty(),
            shutdowns: self.shutdowns + 1,
            ..self
        }
    }

    /// The session after `report`. A report out of turn changes nothing.
    pub open spec fn after(self, report: Report) -> SessionView {
        if !self.admits(report) {
            self
        } else {
            match report {
                Report::Events(batch) => self.after_events(batch),
                Report::Frame(rendered) => self.after_frame(rendered),
                Report::Acquired(resource) => self.after_acquired(resource),
                Report::CloseRequested => self.after_close_request(),
                Report::ShutDown => self.after_shutdown(),
            }
        }
    }
}

/// Where the loop stands and what it has done so far.
struct Progress {
    phase: Phase,
    failed: bool,
    iterations: Ghost<nat>,
    frames: Ghost<nat>,
    shutdowns: Ghost<nat>,
}

impl Progress {
    #[verifier::type_invariant]
    spec fn counters_go_with_phase(self) -> bool {
        match self.phase {
            Phase::Polling => self.frames@ == self.iterations@ && self.shutdowns@ == 0
                && !self.failed,
            Phase::Rendering => self.frames@ + 1 == self.iterations@ && self.shutdowns@ == 0
                && !self.failed,
            Phase::Closing => self.frames@ == self.iterations@ && self.shutdowns@ == 0,
            Phase::Finished => self.frames@ == self.iterations@ && self.shutdowns@ == 1,
        }
    }
}

/// One window session, from the creation of its window to its shutdown.
///
/// Every session is consistent, in the sense of `SessionView::consistent`,
/// from its beginning to its end.
pub struct Session {
    window: Window,
    resources: Vec<Resource>,
    progress: Progress,
}

impl View for Session {
    type V = SessionView;

    closed spec fn view(&self) -> SessionView {
        SessionView {
            window: self.window@,
            phase: self.progress.phase,
            failed: self.progress.failed,
            resources: self.resources@,
            iterations: self.progress.iterations@,
            frames: self.progress.frames@,
            shutdowns: self.progress.shutdowns@,
        }
    }
}

impl Session {
    /// Begins the session of `window`, which it owns from now on.
    pub fn new(window: Window) -> (session: Session)
        ensures
            session@ == SessionView::start(window@),
            session@.consistent(),
    {
        let phase = if window.should_close() {
            Phase::Closing
        } else {
            Phase::Polling
        };
        Session {
            window,
            resources: Vec::new(),
            progress: Progress {
                phase,
                failed: false,
                iterations: Ghost(0),
                frames: Ghost(0),
                shutdowns: Ghost(0),
            },
        }
    }

    /// The window of this session.
    pub fn window(&self) -> (window: &Window)
        ensures
            window@ == self@.window,
    {
        &self.window
    }

    /// Where the loop stands.
    pub fn phase(&self) -> (phase: Phase)
        ensures
            phase == self@.phase,
            self@.consistent(),
    {
        proof {
            use_type_invariant(&self.progress);
        }
        self.progress.phase
    }

    /// Whether the loop goes on: the negation of the close flag.
    pub fn should_continue(&self) -> (go_on: bool)
        ensures
            go_on == self@.should_continue(),
            go_on == !self@.window.close_flag,
    {
        !self.window.should_close()
    }

    /// The render failure that ended the loop, if there was one.
    pub fn failure(&self) -> (failure: Option<SessionError>)
        ensures
            failure == if self@.failed {
                Some(SessionError::Render)
            } else {
                None::<SessionError>
            },
    {
        if self.progress.failed {
            Some(SessionError::Render)
        } else {
            None
        }
    }

    /// Sets the close flag, for a close request that did not come as an
    /// event. The loop notices it after the frame of the current iteration.
    pub fn request_close(&mut self)
        ensures
            final(self)@ == old(self)@.after(Report::CloseRequested),
            final(self)@ == old(self)@.after_close_request(),
            final(self)@.consistent(),
    {
        proof {
            use_type_invariant(&self.progress);
        }
        self.window.request_close();
    }

    /// Records a graphics object that the driver created, so that the
    /// shutdown releases it.
    pub fn acquire(&mut self, resource: Resource)
        requires
            old(self)@.phase != Phase::Finished,
        ensures
            final(self)@ == old(self)@.after(Report::Acquired(resource)),
            final(self)@ == old(self)@.after_acquired(resource),
            final(self)@.consistent(),
    {
        proof {
            use_type_invariant(&self.progress);
        }
        self.resources.push(resource);
    }

    /// Processes the events drained by one poll.
    ///
    /// Every event is mapped to its action, first to last, and the result
    /// holds one action for each position of the batch. An event that asks
    /// to close sets the close flag; the events after it are processed all
    /// the same. A frame is due afterwards, whatever the batch held.
    pub fn process_events(&mut self, batch: &[Event]) -> (actions: Vec<Action>)
        requires
            old(self)@.phase == Phase::Polling,
        ensures
            actions@ == filter_all(batch@),
            final(self)@ == old(self)@.after(Report::Events(batch@)),
            final(self)@ == old(self)@.after_events(batch@),
            final(self)@.consistent(),
    {
        proof {
            use_type_invariant(&self.progress);
        }
        let ghost before = self@;
        let mut actions: Vec<Action> = Vec::new();
        let mut i: usize = 0;
        while i < batch.len()
            invariant
                i <= batch.len(),
                before.phase == Phase::Polling,
                before.consistent(),
                actions@ == filter_all(batch@.take(i as int)),
                self@ == (SessionView {
                    window: WindowView {
                        close_flag: before.window.close_flag || requests_close(
                            batch@.take(i as int),
                        ),
                        ..before.window
                    },
                    ..before
                }),
            decreases batch.len() - i,
        {
            let action = apply_filter(&batch[i]);
            match action {
                Action::RequestClose => {
                    self.window.request_close();
                },
                Action::Ignore => {},
            }
            actions.push(action);
            proof {
                lemma_filter_next(batch@, i as int);
            }
            i += 1;
        }
        proof {
            assert(batch@.take(i as int) =~= batch@);
        }
        self.progress = Progress {
            phase: Phase::Rendering,
            failed: self.progress.failed,
            iterations: Ghost(self.progress.iterations@ + 1),
            frames: self.progress.frames,
            shutdowns: self.progress.shutdowns,
        };
        actions
    }

    /// Records that the renderer was invoked for this iteration, and whether
    /// it drew the frame. Returns where the loop stands now: it goes on if
    /// the frame was drawn and the close flag is not set, and ends otherwise.
    pub fn render_frame(&mut self, rendered: bool) -> (next: Phase)
        requires
            old(self)@.phase == Phase::Rendering,
        ensures
            final(self)@ == old(self)@.after(Report::Frame(rendered)),
            final(self)@ == old(self)@.after_frame(rendered),
            final(self)@.consistent(),
            next == final(self)@.phase,
    {
        proof {
            use_type_invariant(&self.progress);
        }
        let next = if rendered && self.should_continue() {
            Phase::Polling
        } else {
            Phase::Closing
        };
        self.progress = Progress {
            phase: next,
            failed: self.progress.failed || !rendered,
            iterations: self.progress.iterations,
            frames: Ghost(self.progress.frames@ + 1),
            shutdowns: self.progress.shutdowns,
        };
        next
    }

    /// Ends the session. Returns what the driver has to release, in order:
    /// the graphics objects from the last acquired to the first, then the
    /// rendering context, then the window. This is the one shutdown of the
    /// session: afterwards no report but a close request is in turn.
    pub fn shutdown(&mut self) -> (plan: Vec<Release>)
        requires
            old(self)@.phase == Phase::Closing,
        ensures
            plan@ == release_plan(old(self)@.resources),
            final(self)@ == old(self)@.after(Report::ShutDown),
            final(self)@ == old(self)@.after_shutdown(),
            final(self)@.consistent(),
            old(self)@.shutdowns == 0,
            final(self)@.shutdowns == 1,
    {
        proof {
            use_type_invariant(&self.progress);
        }
        let plan = plan_release(self.resources.as_slice());
        self.resources = Vec::new();
        self.progress = Progress {
            phase: Phase::Finished,
            failed: self.progress.failed,
            iterations: self.progress.iterations,
            frames: self.progress.frames,
            shutdowns: Ghost(self.progress.shutdowns@ + 1),
        };
        plan
    }
}

} // verus!
