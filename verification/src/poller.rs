//! The telemetry poller: the life cycle of the background task that fetches
//! spectral frames, and the frame that is currently on show.
//!
//! The poller owns no thread. Whoever runs the task reports to the poller
//! and does what it answers: `start` says whether to spawn the task,
//! `next_step` whether to poll once more, `deliver` takes the outcome of a
//! poll and says how long to pause, `request_stop` says whether there is a
//! task to wait for, and `finish_stop` records that the task has ended.

use vstd::prelude::*;
use crate::error::BridgeError;

verus! {

/// Pause between two polls, in milliseconds.
pub const POLL_INTERVAL_MS: u64 = 100;

/// Where the poller is in its life cycle.
#[derive(Clone, Copy, Debug, PartialEq, Eq, Structural)]
pub enum Phase {
    /// No task exists.
    Idle,
    /// The task is polling.
    Running,
    /// The task has been told to end and has not ended yet.
    Stopping,
}

/// What the task does at the top of its loop.
#[derive(Clone, Copy, Debug, PartialEq, Eq, Structural)]
pub enum WorkerStep {
    /// Fetch one frame and deliver it.
    Poll,
    /// Leave the loop.
    Exit,
}

/// What came of one delivered poll.
#[derive(Clone, Copy, Debug, PartialEq, Eq, Structural)]
pub struct Tick {
    /// Whether the frame replaced the one on show.
    pub published: bool,
    /// How long the task pauses before its next step, in milliseconds.
    pub sleep_ms: u64,
}

/// What a poller holds: its phase and the frame on show.
pub struct PollerView<S> {
    pub phase: Phase,
    pub frame: Seq<S>,
}

impl<S> PollerView<S> {
    /// Whether a delivered poll is published: a task exists and the poll
    /// succeeded.
    pub open spec fn publishes(self, polled: Result<Vec<S>, BridgeError>) -> bool {
        self.phase != Phase::Idle && polled is Ok
    }

    /// The state after `start`.
    pub open spec fn after_start(self) -> Self {
        if self.phase == Phase::Idle {
            PollerView { phase: Phase::Running, ..self }
        } else {
            self
        }
    }

    /// The state after the outcome of a poll was delivered: a published
    /// frame replaces the frame on show entirely.
    pub open spec fn after_deliver(self, polled: Result<Vec<S>, BridgeError>) -> Self {
        if self.publishes(polled) {
            PollerView { frame: polled->Ok_0@, ..self }
        } else {
            self
        }
    }

    /// The state after `request_stop`.
    pub open spec fn after_request_stop(self) -> Self {
        if self.phase == Phase::Running {
            PollerView { phase: Phase::Stopping, ..self }
        } else {
            self
        }
    }

    /// The state after `finish_stop`.
    pub open spec fn after_finish_stop(self) -> Self {
        if self.phase == Phase::Stopping {
            PollerView { phase: Phase::Idle, ..self }
        } else {
            self
        }
    }

    /// The state after a complete teardown: the stop request and the end of
    /// the task.
    pub open spec fn after_stop(self) -> Self {
        self.after_request_stop().after_finish_stop()
    }

    /// The state after the outcomes `polls` were delivered one after another,
    /// the first one first.
    pub open spec fn after_polls(self, polls: Seq<Result<Vec<S>, BridgeError>>) -> Self
        decreases polls.len(),
    {
        if polls.len() == 0 {
            self
        } else {
            self.after_polls(polls.drop_last()).after_deliver(polls.last())
        }
    }
}

/// The frame of the last poll among `polls` that succeeded, if any did.
pub open spec fn newest_frame<S>(polls: Seq<Result<Vec<S>, BridgeError>>) -> Option<Seq<S>>
    decreases polls.len(),
{
    if polls.len() == 0 {
        None
    } else if polls.last() is Ok {
        Some(polls.last()->Ok_0@)
    } else {
        newest_frame(polls.drop_last())
    }
}

/// Life cycle of the polling task and the latest published frame.
pub struct Poller<S> {
    phase: Phase,
    frame: Vec<S>,
}

impl<S> View for Poller<S> {
    type V = PollerView<S>;

    closed spec fn view(&self) -> PollerView<S> {
        PollerView { phase: self.phase, frame: self.frame@ }
    }
}

impl<S> Poller<S> {
    /// An idle poller that shows `initial` until the first frame arrives.
    pub fn new(initial: Vec<S>) -> (poller: Self)
        ensures
            poller@ == (PollerView { phase: Phase::Idle, frame: initial@ }),
    {
        Poller { phase: Phase::Idle, frame: initial }
    }

    /// The current phase.
    pub fn phase(&self) -> (phase: Phase)
        ensures
            phase == self@.phase,
    {
        self.phase
    }

    /// The frame on show: the most recently published one.
    pub fn frame(&self) -> (frame: &Vec<S>)
        ensures
            frame@ == self@.frame,
    {
        &self.frame
    }

    /// The view became active. An idle poller starts running and the result
    /// is `true`: the caller spawns the task. While a task exists nothing
    /// changes and the result is `false`, so there is never a second task.
    pub fn start(&mut self) -> (spawn: bool)
        ensures
            spawn == (old(self)@.phase == Phase::Idle),
            final(self)@ == old(self)@.after_start(),
    {
        match self.phase {
            Phase::Idle => {
                self.phase = Phase::Running;
                true
            },
            _ => false,
        }
    }

    /// What the task does next, asked once at the top of each iteration: it
    /// polls while the poller is running and leaves its loop otherwise.
    pub fn next_step(&self) -> (step: WorkerStep)
        ensures
            step == (if self@.phase == Phase::Running {
                WorkerStep::Poll
            } else {
                WorkerStep::Exit
            }),
    {
        match self.phase {
            Phase::Running => WorkerStep::Poll,
            _ => WorkerStep::Exit,
        }
    }

    /// Takes the outcome of one poll. While a task exists, a frame that was
    /// fetched replaces the frame on show; a failed poll leaves it as it was.
    /// An idle poller has no task, so whatever arrives is late and is
    /// dropped. The pause before the next step is the same in every case.
    pub fn deliver(&mut self, polled: Result<Vec<S>, BridgeError>) -> (tick: Tick)
        ensures
            tick.published == old(self)@.publishes(polled),
            tick.sleep_ms == POLL_INTERVAL_MS,
            final(self)@ == old(self)@.after_deliver(polled),
            old(self)@.phase == Phase::Idle ==> final(self)@ == old(self)@,
    {
        let live = match self.phase {
            Phase::Idle => false,
            _ => true,
        };
        let published = match polled {
            Ok(frame) => {
                if live {
                    self.frame = frame;
                }
                live
            },
            Err(_) => false,
        };
        Tick { published, sleep_ms: POLL_INTERVAL_MS }
    }

    /// The view is being torn down. A running poller starts stopping and the
    /// result is `true`: the caller waits for the task to end and then calls
    /// `finish_stop`. Otherwise nothing changes and the result is `false`.
    pub fn request_stop(&mut self) -> (join: bool)
        ensures
            join == (old(self)@.phase == Phase::Running),
            final(self)@ == old(self)@.after_request_stop(),
    {
        match self.phase {
            Phase::Running => {
                self.phase = Phase::Stopping;
                true
            },
            _ => false,
        }
    }

    /// The task has ended. A stopping poller becomes idle; otherwise
    /// nothing changes.
    pub fn finish_stop(&mut self)
        ensures
            final(self)@ == old(self)@.after_finish_stop(),
    {
        match self.phase {
            Phase::Stopping => {
                self.phase = Phase::Idle;
            },
            _ => {},
        }
    }
}

/// The life cycle is `Idle`, `Running`, `Stopping`, `Idle`: starting an idle
/// poller makes it run, a stop request makes a running poller stop, and the
/// end of the task makes a stopping poller idle. The frame on show is the
/// same throughout.
pub proof fn lemma_life_cycle<S>(idle: PollerView<S>)
    requires
        idle.phase == Phase::Idle,
    ensures
        idle.after_start().phase == Phase::Running,
        idle.after_start().after_request_stop().phase == Phase::Stopping,
        idle.after_start().after_request_stop().after_finish_stop() == idle,
{
}

/// While a task exists, starting again changes nothing: no second task is
/// ever asked for.
pub proof fn lemma_single_task<S>(state: PollerView<S>)
    requires
        state.phase != Phase::Idle,
    ensures
        state.after_start() == state,
{
}

/// Frames are published in poll order and only the newest one is kept: after
/// any run of polls, a poller with a task shows the frame of the last poll
/// that succeeded, or the frame it showed before if none did. Delivering
/// never changes the phase, and an idle poller is left exactly as it was.
pub proof fn lemma_overwrite_latest<S>(
    state: PollerView<S>,
    polls: Seq<Result<Vec<S>, BridgeError>>,
)
    ensures
        state.after_polls(polls).phase == state.phase,
        state.phase != Phase::Idle ==> state.after_polls(polls).frame == (match newest_frame(
            polls,
        ) {
            Some(frame) => frame,
            None => state.frame,
        }),
        state.phase == Phase::Idle ==> state.after_polls(polls) == state,
    decreases polls.len(),
{
    if polls.len() > 0 {
        lemma_overwrite_latest(state, polls.drop_last());
    }
}

/// After a complete teardown, from whatever state, the poller is idle, and
/// nothing that is delivered afterwards is published: the frame on show
/// stays as it was, whether the late poll succeeded or not.
pub proof fn lemma_no_publish_after_stop<S>(
    state: PollerView<S>,
    late: Result<Vec<S>, BridgeError>,
)
    ensures
        state.after_stop().phase == Phase::Idle,
        state.after_stop().frame == state.frame,
        !state.after_stop().publishes(late),
        state.after_stop().after_deliver(late) == state.after_stop(),
{
}

} // verus!
