//! The poll loop: it takes items from the queue, keeps a bounded number of
//! workers busy, and winds down when it is cancelled.
//!
//! The loop decides; its caller does what it decides and reports back.

use crate::logging::{LogLevel, LogRecord};
use crate::text::{decimal, decimal_string};
use vstd::prelude::*;
use vstd::string::StringExecFns;

verus! {

/// Seconds for which a receive may wait for a message.
pub const LONG_POLL_SECONDS: u64 = 20;

/// Seconds for which the loop rests after a failed receive.
pub const BACKOFF_SECONDS: u64 = 5;

/// What the loop waits for.
#[derive(Debug, Clone, Copy, PartialEq, Eq, Structural)]
pub enum LoopPhase {
    /// A receive is under way.
    Polling,
    /// A worker is being started for the item that came.
    Spawning,
    /// The loop rests after a failed receive.
    BackingOff,
    /// All workers are busy; the loop waits for one to finish.
    AwaitingWorker,
    /// The finished workers are being cleared away.
    Reaping,
    /// The loop was cancelled and waits for its workers to finish.
    Draining,
    /// The loop is over.
    Stopped,
}

/// What the loop is told: how what it last asked for has ended.
#[derive(Debug, Clone, Copy, PartialEq, Eq, Structural)]
pub enum Event {
    /// The receive brought an item.
    Received,
    /// The receive brought nothing.
    Empty,
    /// The receive failed.
    ReceiveFailed,
    /// The worker runs.
    Spawned,
    /// The rest is over.
    BackoffElapsed,
    /// A worker has finished.
    WorkerFinished,
    /// So many finished workers were cleared away; `cancelled` says whether
    /// the loop has been cancelled by now.
    Reaped { finished: usize, cancelled: bool },
    /// All workers have finished.
    Drained,
    /// The loop was cancelled while it waited.
    Cancelled,
}

/// What the loop asks for.
#[derive(Debug, Clone, Copy, PartialEq, Eq, Structural)]
pub enum Action {
    /// Receive an item, waiting up to so many seconds, or until cancelled.
    Poll { wait_seconds: u64 },
    /// Start a worker for the item that came.
    Spawn,
    /// Rest for so many seconds, or until cancelled.
    Backoff { seconds: u64 },
    /// Wait until a worker finishes, or until cancelled.
    AwaitWorker,
    /// Clear away the workers that have finished, without waiting.
    Reap,
    /// Wait until the `waiting` workers that still run have finished.
    Drain { waiting: usize },
    /// Return. `drained` says whether workers had to be waited for.
    Stop { drained: bool },
}

/// The state of the loop.
pub struct LoopState {
    /// The most workers that may run at a time.
    pub max_tasks: nat,
    /// The workers that were started and not yet seen to finish.
    pub in_flight: nat,
    /// Whether the loop knows that it was cancelled.
    pub cancelled: bool,
    pub phase: LoopPhase,
}

/// The state in which a loop for `max_tasks` workers begins: its first
/// receive is under way.
pub open spec fn initial(max_tasks: nat) -> LoopState {
    LoopState { max_tasks, in_flight: 0, cancelled: false, phase: LoopPhase::Polling }
}

/// What the loop asks for while it waits in `state`.
pub open spec fn pending(state: LoopState) -> Action {
    match state.phase {
        LoopPhase::Polling => Action::Poll { wait_seconds: LONG_POLL_SECONDS },
        LoopPhase::Spawning => Action::Spawn,
        LoopPhase::BackingOff => Action::Backoff { seconds: BACKOFF_SECONDS },
        LoopPhase::AwaitingWorker => Action::AwaitWorker,
        LoopPhase::Reaping => Action::Reap,
        LoopPhase::Draining => Action::Drain { waiting: state.in_flight as usize },
        LoopPhase::Stopped => Action::Stop { drained: false },
    }
}

/// Where the loop goes once the receive and what followed from it are dealt
/// with: it waits for a worker while all are busy, unless it was cancelled,
/// and else clears away the finished ones.
pub open spec fn checkpoint(state: LoopState) -> (LoopState, Action) {
    if !state.cancelled && state.in_flight >= state.max_tasks {
        (LoopState { phase: LoopPhase::AwaitingWorker, ..state }, Action::AwaitWorker)
    } else {
        (LoopState { phase: LoopPhase::Reaping, ..state }, Action::Reap)
    }
}

/// Where the loop goes once the finished workers are cleared away: on to the
/// next receive, or, if it was cancelled, to the end, by way of its workers
/// if any still run.
pub open spec fn after_reap(state: LoopState) -> (LoopState, Action) {
    if !state.cancelled {
        (
            LoopState { phase: LoopPhase::Polling, ..state },
            Action::Poll { wait_seconds: LONG_POLL_SECONDS },
        )
    } else if state.in_flight > 0 {
        (
            LoopState { phase: LoopPhase::Draining, ..state },
            Action::Drain { waiting: state.in_flight as usize },
        )
    } else {
        (LoopState { phase: LoopPhase::Stopped, ..state }, Action::Stop { drained: false })
    }
}

/// `n` less `m`, and 0 where that would be negative.
pub open spec fn less(n: nat, m: nat) -> nat {
    if m <= n {
        (n - m) as nat
    } else {
        0
    }
}

/// The step of the loop: the state after `event`, and what the loop asks
/// for next. An event that does not answer what the loop last asked for
/// changes nothing, and the loop asks again.
pub open spec fn advance(state: LoopState, event: Event) -> (LoopState, Action) {
    match (state.phase, event) {
        (LoopPhase::Polling, Event::Received) => (
            LoopState { in_flight: state.in_flight + 1, phase: LoopPhase::Spawning, ..state },
            Action::Spawn,
        ),
        (LoopPhase::Polling, Event::Empty) => checkpoint(state),
        (LoopPhase::Polling, Event::ReceiveFailed) => (
            LoopState { phase: LoopPhase::BackingOff, ..state },
            Action::Backoff { seconds: BACKOFF_SECONDS },
        ),
        (LoopPhase::Polling, Event::Cancelled) => checkpoint(
            LoopState { cancelled: true, ..state },
        ),
        (LoopPhase::Spawning, Event::Spawned) => checkpoint(state),
        (LoopPhase::BackingOff, Event::BackoffElapsed) => checkpoint(state),
        (LoopPhase::BackingOff, Event::Cancelled) => checkpoint(
            LoopState { cancelled: true, ..state },
        ),
        (LoopPhase::AwaitingWorker, Event::WorkerFinished) => checkpoint(
            LoopState { in_flight: less(state.in_flight, 1), ..state },
        ),
        (LoopPhase::AwaitingWorker, Event::Cancelled) => checkpoint(
            LoopState { cancelled: true, ..state },
        ),
        (LoopPhase::Reaping, Event::Reaped { finished, cancelled }) => after_reap(
            LoopState {
                in_flight: less(state.in_flight, finished as nat),
                cancelled: state.cancelled || cancelled,
                ..state
            },
        ),
        (LoopPhase::Draining, Event::Drained) => (
            LoopState { in_flight: 0, phase: LoopPhase::Stopped, ..state },
            Action::Stop { drained: true },
        ),
        _ => (state, pending(state)),
    }
}

/// What holds of every state that the loop can reach.
pub open spec fn well_formed(state: LoopState) -> bool {
    &&& state.max_tasks >= 1 ==> state.in_flight <= state.max_tasks
    &&& state.in_flight <= state.max_tasks + 1
    &&& (state.phase == LoopPhase::Polling || state.phase == LoopPhase::BackingOff) ==> (
    state.in_flight == 0 || state.in_flight < state.max_tasks)
    &&& state.cancelled ==> (state.phase == LoopPhase::Reaping || state.phase
        == LoopPhase::Draining || state.phase == LoopPhase::Stopped)
    &&& (state.phase == LoopPhase::Reaping && !state.cancelled) ==> state.in_flight
        < state.max_tasks
    &&& state.phase == LoopPhase::Draining ==> state.cancelled
    &&& state.phase == LoopPhase::Stopped ==> state.cancelled && state.in_flight == 0
}

/// The state of the loop after it was told `events`, one after the other.
pub open spec fn run(state: LoopState, events: Seq<Event>) -> LoopState
    decreases events.len(),
{
    if events.len() == 0 {
        state
    } else {
        advance(run(state, events.drop_last()), events.last()).0
    }
}

/// A step leads from a state that the loop can reach to another.
pub proof fn lemma_advance_well_formed(state: LoopState, event: Event)
    requires
        well_formed(state),
    ensures
        well_formed(advance(state, event).0),
{
}

/// Every run leads from a state that the loop can reach to another.
pub proof fn lemma_run_well_formed(state: LoopState, events: Seq<Event>)
    requires
        well_formed(state),
    ensures
        well_formed(run(state, events)),
    decreases events.len(),
{
    if events.len() > 0 {
        lemma_run_well_formed(state, events.drop_last());
        lemma_advance_well_formed(run(state, events.drop_last()), events.last());
    }
}

/// The concurrency bound. Whatever the loop is told, and in whatever order:
/// a loop for at least one worker never has more workers in flight than it
/// was made for.
pub proof fn law_concurrency_bound(max_tasks: nat, events: Seq<Event>)
    requires
        max_tasks >= 1,
    ensures
        run(initial(max_tasks), events).max_tasks == max_tasks,
        run(initial(max_tasks), events).in_flight <= max_tasks,
    decreases events.len(),
{
    lemma_run_well_formed(initial(max_tasks), events);
    if events.len() > 0 {
        law_concurrency_bound(max_tasks, events.drop_last());
    }
}

/// Drain safety. The loop stops only when no worker is in flight; and a loop
/// that has stopped stays stopped, whatever it is told: it has no worker in
/// flight and asks for nothing but to return.
pub proof fn law_drain_safety(state: LoopState, event: Event, later: Seq<Event>)
    requires
        well_formed(state),
    ensures
        advance(state, event).1 is Stop ==> advance(state, event).0.phase == LoopPhase::Stopped,
        advance(state, event).0.phase == LoopPhase::Stopped ==> {
            let end = run(advance(state, event).0, later);
            &&& end.phase == LoopPhase::Stopped
            &&& end.in_flight == 0
            &&& forall|e: Event| advance(end, e).1 is Stop
        },
    decreases later.len(),
{
    let stopped = advance(state, event).0;
    lemma_advance_well_formed(state, event);
    if stopped.phase == LoopPhase::Stopped {
        lemma_run_well_formed(stopped, later);
        if later.len() > 0 {
            law_drain_safety(state, event, later.drop_last());
        }
    }
}

/// Cancellation. A loop that is told of its cancellation while it waits for
/// a receive, rests after a failed one, or waits for a worker, at once goes
/// on to clear away its finished workers. And a loop that knows of its
/// cancellation knows it for good, whatever it is told, and from then on
/// never asks to receive, to start a worker, to rest or to wait for one
/// worker: it clears away, waits for all its workers, and returns.
pub proof fn law_cancellation(state: LoopState, event: Event, later: Seq<Event>)
    requires
        well_formed(state),
    ensures
        (event == Event::Cancelled && (state.phase == LoopPhase::Polling || state.phase
            == LoopPhase::BackingOff || state.phase == LoopPhase::AwaitingWorker)) ==> advance(
            state,
            event,
        ).0.cancelled && advance(state, event).1 == Action::Reap,
        advance(state, event).0.cancelled ==> {
            let end = run(advance(state, event).0, later);
            &&& end.cancelled
            &&& forall|e: Event|
                {
                    let asked = #[trigger] advance(end, e).1;
                    asked is Reap || asked is Drain || asked is Stop
                }
        },
    decreases later.len(),
{
    let first = advance(state, event).0;
    lemma_advance_well_formed(state, event);
    if first.cancelled {
        lemma_run_well_formed(first, later);
        if later.len() > 0 {
            law_cancellation(state, event, later.drop_last());
        }
    }
}

/// A cancelled loop is quick to end: once the finished workers are cleared
/// away it waits for those that still run, if there are any, and then
/// returns.
pub proof fn law_cancelled_loop_ends(state: LoopState, finished: usize, cancelled: bool)
    requires
        well_formed(state),
        state.phase == LoopPhase::Reaping,
        state.cancelled || cancelled,
    ensures
        ({
            let (next, asked) = advance(state, Event::Reaped { finished, cancelled });
            if next.in_flight == 0 {
                asked == (Action::Stop { drained: false })
            } else {
                asked == (Action::Drain { waiting: next.in_flight as usize }) && advance(
                    next,
                    Event::Drained,
                ).1 == (Action::Stop { drained: true })
            }
        }),
{
}

/// The poll loop.
#[derive(Debug)]
pub struct PollLoop {
    max_tasks: usize,
    in_flight: usize,
    cancelled: bool,
    phase: LoopPhase,
}

impl View for PollLoop {
    type V = LoopState;

    closed spec fn view(&self) -> LoopState {
        LoopState {
            max_tasks: self.max_tasks as nat,
            in_flight: self.in_flight as nat,
            cancelled: self.cancelled,
            phase: self.phase,
        }
    }
}

impl PollLoop {
    #[verifier::type_invariant]
    spec fn reachable(&self) -> bool {
        well_formed(self@)
    }

    /// A loop for `max_tasks` workers, and what it asks for first: a
    /// receive.
    pub fn start(max_tasks: usize) -> (begun: (PollLoop, Action))
        ensures
            begun.0@ == initial(max_tasks as nat),
            begun.1 == pending(initial(max_tasks as nat)),
    {
        (
            PollLoop { max_tasks, in_flight: 0, cancelled: false, phase: LoopPhase::Polling },
            Action::Poll { wait_seconds: LONG_POLL_SECONDS },
        )
    }

    /// The most workers that may run at a time.
    pub fn max_tasks(&self) -> (n: usize)
        ensures
            n == self@.max_tasks,
    {
        self.max_tasks
    }

    /// The workers that were started and not yet seen to finish. A loop for
    /// at least one worker never has more of them than it was made for.
    pub fn in_flight(&self) -> (n: usize)
        ensures
            n == self@.in_flight,
            self@.max_tasks >= 1 ==> n <= self@.max_tasks,
    {
        proof {
            use_type_invariant(self);
        }
        self.in_flight
    }

    /// Whether the loop knows that it was cancelled.
    pub fn is_cancelled(&self) -> (cancelled: bool)
        ensures
            cancelled == self@.cancelled,
    {
        self.cancelled
    }

    /// What the loop waits for.
    pub fn phase(&self) -> (phase: LoopPhase)
        ensures
            phase == self@.phase,
    {
        self.phase
    }

    /// Whether the loop is over.
    pub fn is_stopped(&self) -> (stopped: bool)
        ensures
            stopped == (self@.phase == LoopPhase::Stopped),
            stopped ==> self@.in_flight == 0,
    {
        proof {
            use_type_invariant(self);
        }
        self.phase == LoopPhase::Stopped
    }

    fn pending_action(&self) -> (action: Action)
        ensures
            action == pending(self@),
    {
        match self.phase {
            LoopPhase::Polling => Action::Poll { wait_seconds: LONG_POLL_SECONDS },
            LoopPhase::Spawning => Action::Spawn,
            LoopPhase::BackingOff => Action::Backoff { seconds: BACKOFF_SECONDS },
            LoopPhase::AwaitingWorker => Action::AwaitWorker,
            LoopPhase::Reaping => Action::Reap,
            LoopPhase::Draining => Action::Drain { waiting: self.in_flight },
            LoopPhase::Stopped => Action::Stop { drained: false },
        }
    }

    /// The loop with so many workers in flight, at the checkpoint.
    fn at_checkpoint(&self, in_flight: usize, cancelled: bool) -> (next: (PollLoop, Action))
        requires
            well_formed(
                checkpoint(
                    LoopState { in_flight: in_flight as nat, cancelled, ..self@ },
                ).0,
            ),
        ensures
            (next.0@, next.1) == checkpoint(
                LoopState { in_flight: in_flight as nat, cancelled, ..self@ },
            ),
    {
        let max_tasks = self.max_tasks;
        if !cancelled && in_flight >= max_tasks {
            (
                PollLoop { max_tasks, in_flight, cancelled, phase: LoopPhase::AwaitingWorker },
                Action::AwaitWorker,
            )
        } else {
            (PollLoop { max_tasks, in_flight, cancelled, phase: LoopPhase::Reaping }, Action::Reap)
        }
    }

    /// The loop with so many workers in flight, past the reaping.
    fn past_reaping(&self, in_flight: usize, cancelled: bool) -> (next: (PollLoop, Action))
        requires
            well_formed(
                after_reap(
                    LoopState { in_flight: in_flight as nat, cancelled, ..self@ },
                ).0,
            ),
        ensures
            (next.0@, next.1) == after_reap(
                LoopState { in_flight: in_flight as nat, cancelled, ..self@ },
            ),
    {
        let max_tasks = self.max_tasks;
        if !cancelled {
            (
                PollLoop { max_tasks, in_flight, cancelled, phase: LoopPhase::Polling },
                Action::Poll { wait_seconds: LONG_POLL_SECONDS },
            )
        } else if in_flight > 0 {
            (
                PollLoop { max_tasks, in_flight, cancelled, phase: LoopPhase::Draining },
                Action::Drain { waiting: in_flight },
            )
        } else {
            (
                PollLoop { max_tasks, in_flight, cancelled, phase: LoopPhase::Stopped },
                Action::Stop { drained: false },
            )
        }
    }

    /// Takes the loop one step on: `event` tells how what it last asked for
    /// has ended. Returns what it asks for next.
    pub fn step(&mut self, event: Event) -> (action: Action)
        ensures
            (final(self)@, action) == advance(old(self)@, event),
    {
        proof {
            use_type_invariant(&*self);
            lemma_advance_well_formed(self@, event);
        }
        let max_tasks = self.max_tasks;
        let in_flight = self.in_flight;
        let cancelled = self.cancelled;
        let (next, action) = match (self.phase, event) {
            (LoopPhase::Polling, Event::Received) => (
                PollLoop {
                    max_tasks,
                    in_flight: in_flight + 1,
                    cancelled,
                    phase: LoopPhase::Spawning,
                },
                Action::Spawn,
            ),
            (LoopPhase::Polling, Event::Empty) => self.at_checkpoint(in_flight, cancelled),
            (LoopPhase::Polling, Event::ReceiveFailed) => (
                PollLoop { max_tasks, in_flight, cancelled, phase: LoopPhase::BackingOff },
                Action::Backoff { seconds: BACKOFF_SECONDS },
            ),
            (LoopPhase::Polling, Event::Cancelled) => self.at_checkpoint(in_flight, true),
            (LoopPhase::Spawning, Event::Spawned) => self.at_checkpoint(in_flight, cancelled),
            (LoopPhase::BackingOff, Event::BackoffElapsed) => self.at_checkpoint(
                in_flight,
                cancelled,
            ),
            (LoopPhase::BackingOff, Event::Cancelled) => self.at_checkpoint(in_flight, true),
            (LoopPhase::AwaitingWorker, Event::WorkerFinished) => {
                let left = if in_flight > 0 {
                    in_flight - 1
                } else {
                    0
                };
                self.at_checkpoint(left, cancelled)
            },
            (LoopPhase::AwaitingWorker, Event::Cancelled) => self.at_checkpoint(in_flight, true),
            (LoopPhase::Reaping, Event::Reaped { finished, cancelled: seen }) => {
                let left = if finished <= in_flight {
                    in_flight - finished
                } else {
                    0
                };
                self.past_reaping(left, cancelled || seen)
            },
            (LoopPhase::Draining, Event::Drained) => (
                PollLoop { max_tasks, in_flight: 0, cancelled, phase: LoopPhase::Stopped },
                Action::Stop { drained: true },
            ),
            _ => (
                PollLoop { max_tasks, in_flight, cancelled, phase: self.phase },
                self.pending_action(),
            ),
        };
        *self = next;
        action
    }
}

/// The line that tells of a failed receive.
pub open spec fn receive_failure_text(cause: Seq<char>) -> Seq<char> {
    "An error occurred fetching from the queue (will retry in 5s): "@ + cause
}

/// Reports a failed receive.
pub fn receive_failure_record(error: &crate::queue::Error) -> (record: LogRecord)
    ensures
        record@ == (LogLevel::Error, receive_failure_text(crate::queue::error_chain(*error))),
{
    let text = String::from_str(
        "An error occurred fetching from the queue (will retry in 5s): ",
    ).concat(error.describe().as_str());
    LogRecord { level: LogLevel::Error, message: text }
}

/// The line that goes with an action, if one does: that the loop waits for
/// its workers, and that they have all finished.
pub open spec fn action_line(action: Action) -> Option<(LogLevel, Seq<char>)> {
    match action {
        Action::Drain { waiting } => Some(
            (LogLevel::Info, "Waiting for "@ + decimal(waiting as nat) + " tasks to finish..."@),
        ),
        Action::Stop { drained } => if drained {
            Some((LogLevel::Info, "All tasks complete."@))
        } else {
            None
        },
        _ => None,
    }
}

/// Reports what goes with an action.
pub fn action_record(action: Action) -> (record: Option<LogRecord>)
    ensures
        match record {
            Some(r) => action_line(action) == Some(r@),
            None => action_line(action) is None,
        },
{
    match action {
        Action::Drain { waiting } => {
            let mut text = String::from_str("Waiting for ");
            text.append(decimal_string(waiting).as_str());
            text.append(" tasks to finish...");
            Some(LogRecord { level: LogLevel::Info, message: text })
        },
        Action::Stop { drained } => if drained {
            Some(
                LogRecord {
                    level: LogLevel::Info,
                    message: String::from_str("All tasks complete."),
                },
            )
        } else {
            None
        },
        _ => None,
    }
}

} // verus!
