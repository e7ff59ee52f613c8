//! The ingest worker's life cycle as a state machine.
//!
//! The worker's thread feeds the machine what it observes: the exit flag at
//! the top of each round, and how the round's ingest pass ended. The machine
//! answers what to do next. A pass that was started always runs to its end:
//! the exit flag is looked at between passes only.

use vstd::prelude::*;

verus! {

/// How long a pass waits for the first batch, in milliseconds.
pub const RECV_TIMEOUT_MS: u64 = 200;

/// Idle time after which the worker warns that nothing is arriving, in
/// milliseconds.
pub const STALL_WARNING_MS: u64 = 30_000;

/// Stack size of the worker's thread, in bytes.
pub const WORKER_STACK_BYTES: usize = 8 * 1024 * 1024;

/// Where the worker stands.
#[derive(Clone, Copy, Debug, PartialEq, Eq, Structural)]
pub enum Phase {
    /// Between passes, or inside one.
    Running,
    /// The worker has left its loop for good.
    Exited,
}

/// How one ingest pass ended.
#[derive(Clone, Copy, Debug, PartialEq, Eq, Structural)]
pub enum IngestOutcome {
    /// A batch was received and processed.
    Completed,
    /// No batch arrived within the receive timeout.
    Timeout,
    /// The inbound channel is closed.
    Disconnected,
    /// The pass failed otherwise, in the block store.
    Failed,
}

/// What the worker's thread observed.
#[derive(Clone, Copy, Debug, PartialEq, Eq, Structural)]
pub enum Event {
    /// The value of the exit flag, read at the top of a round.
    ExitFlag(bool),
    /// The end of the round's ingest pass, and the clock's reading then, in
    /// milliseconds.
    Ingested(IngestOutcome, u64),
}

/// What the worker's thread does next.
#[derive(Clone, Copy, Debug, PartialEq, Eq, Structural)]
pub enum Action {
    /// Run one ingest pass.
    Ingest,
    /// Go to the next round.
    Continue,
    /// Warn that no data is arriving, then go to the next round.
    WarnStalled,
    /// Count and log the error, then go to the next round.
    CountError,
    /// Leave the loop; the teardown guard then raises the exit flag.
    Stop,
}

/// The worker's state: its phase, and the clock's reading when data last
/// arrived or a stall was last reported, in milliseconds.
#[derive(Clone, Copy, Debug, PartialEq, Eq, Structural)]
pub struct Worker {
    pub phase: Phase,
    pub last_progress_ms: u64,
}

/// Whether the worker has been idle for longer than the stall threshold at
/// the clock reading `now_ms`.
pub open spec fn stalled(last_progress_ms: u64, now_ms: u64) -> bool {
    now_ms - last_progress_ms > STALL_WARNING_MS
}

/// One transition: the state after `event`, and the action it calls for.
///
/// `Exited` is terminal. A running worker exits when it sees the exit flag set
/// or finds the inbound channel closed. It keeps running through a completed
/// pass, which restarts the idle clock; through a timeout, which restarts the
/// clock only when it reports a stall; and through a failed pass, which
/// leaves the clock alone.
pub open spec fn step(worker: Worker, event: Event) -> (Worker, Action) {
    match worker.phase {
        Phase::Exited => (worker, Action::Stop),
        Phase::Running => match event {
            Event::ExitFlag(true) => (
                Worker { phase: Phase::Exited, last_progress_ms: worker.last_progress_ms },
                Action::Stop,
            ),
            Event::ExitFlag(false) => (worker, Action::Ingest),
            Event::Ingested(IngestOutcome::Completed, now_ms) => (
                Worker { phase: Phase::Running, last_progress_ms: now_ms },
                Action::Continue,
            ),
            Event::Ingested(IngestOutcome::Timeout, now_ms) => if stalled(
                worker.last_progress_ms,
                now_ms,
            ) {
                (Worker { phase: Phase::Running, last_progress_ms: now_ms }, Action::WarnStalled)
            } else {
                (worker, Action::Continue)
            },
            Event::Ingested(IngestOutcome::Disconnected, _) => (
                Worker { phase: Phase::Exited, last_progress_ms: worker.last_progress_ms },
                Action::Stop,
            ),
            Event::Ingested(IngestOutcome::Failed, _) => (worker, Action::CountError),
        },
    }
}

/// The state after all of `events`, in order.
pub open spec fn run(worker: Worker, events: Seq<Event>) -> Worker
    decreases events.len(),
{
    if events.len() == 0 {
        worker
    } else {
        step(run(worker, events.drop_last()), events.last()).0
    }
}

/// The action that the `at`-th of `events` calls for.
pub open spec fn action_at(worker: Worker, events: Seq<Event>, at: int) -> Action {
    step(run(worker, events.take(at)), events[at]).1
}

impl Worker {
    /// A running worker whose idle clock starts at `now_ms`.
    pub fn new(now_ms: u64) -> (worker: Worker)
        ensures
            worker == (Worker { phase: Phase::Running, last_progress_ms: now_ms }),
    {
        Worker { phase: Phase::Running, last_progress_ms: now_ms }
    }

    /// Whether the worker has left its loop.
    pub fn has_exited(&self) -> (exited: bool)
        ensures
            exited == (self.phase == Phase::Exited),
    {
        match self.phase {
            Phase::Exited => true,
            Phase::Running => false,
        }
    }

    /// Takes one event and says what to do next.
    pub fn handle(&mut self, event: Event) -> (action: Action)
        ensures
            (*final(self), action) == step(*old(self), event),
    {
        match self.phase {
            Phase::Exited => Action::Stop,
            Phase::Running => match event {
                Event::ExitFlag(raised) => {
                    if raised {
                        self.phase = Phase::Exited;
                        Action::Stop
                    } else {
                        Action::Ingest
                    }
                },
                Event::Ingested(outcome, now_ms) => match outcome {
                    IngestOutcome::Completed => {
                        self.last_progress_ms = now_ms;
                        Action::Continue
                    },
                    IngestOutcome::Timeout => {
                        if now_ms > self.last_progress_ms && now_ms - self.last_progress_ms
                            > STALL_WARNING_MS {
                            self.last_progress_ms = now_ms;
                            Action::WarnStalled
                        } else {
                            Action::Continue
                        }
                    },
                    IngestOutcome::Disconnected => {
                        self.phase = Phase::Exited;
                        Action::Stop
                    },
                    IngestOutcome::Failed => Action::CountError,
                },
            },
        }
    }
}

/// A worker that has exited stays exited, whatever it is fed.
pub proof fn lemma_exited_is_terminal(worker: Worker, events: Seq<Event>)
    requires
        worker.phase == Phase::Exited,
    ensures
        run(worker, events) == worker,
    decreases events.len(),
{
    if events.len() > 0 {
        lemma_exited_is_terminal(worker, events.drop_last());
    }
}

/// Once an event has called for `Stop`, the worker is in `Exited` after it and
/// after every later event.
pub proof fn lemma_exit_is_final(worker: Worker, events: Seq<Event>, at: int, later: int)
    requires
        0 <= at < later <= events.len(),
        action_at(worker, events, at) == Action::Stop,
    ensures
        run(worker, events.take(later)).phase == Phase::Exited,
    decreases later,
{
    let upto = events.take(later);
    assert(upto.drop_last() == events.take(later - 1));
    assert(upto.last() == events[later - 1]);
    if later - 1 > at {
        lemma_exit_is_final(worker, events, at, later - 1);
    }
}

/// After the exit flag was seen set, no event calls for another ingest pass:
/// every event from that one on is answered with `Stop`.
pub proof fn lemma_no_ingest_after_exit_flag(
    worker: Worker,
    events: Seq<Event>,
    seen: int,
    later: int,
)
    requires
        0 <= seen <= later < events.len(),
        events[seen] == Event::ExitFlag(true),
    ensures
        action_at(worker, events, later) == Action::Stop,
{
    if later > seen {
        lemma_exit_is_final(worker, events, seen, later);
    }
}

/// The worker leaves its loop exactly when it enters `Exited`: an event is
/// answered with `Stop` if and only if the state after it is `Exited`.
pub proof fn lemma_stop_iff_exited(worker: Worker, event: Event)
    ensures
        (step(worker, event).1 == Action::Stop) == (step(worker, event).0.phase == Phase::Exited),
{
}

/// Only a set exit flag or a closed inbound channel ends a running worker;
/// completed, timed-out and failed passes keep it running.
pub proof fn lemma_exit_causes(worker: Worker, event: Event)
    requires
        worker.phase == Phase::Running,
    ensures
        (step(worker, event).0.phase == Phase::Exited) == (event == Event::ExitFlag(true) || (
        event matches Event::Ingested(outcome, _) && outcome == IngestOutcome::Disconnected)),
{
}

} // verus!
