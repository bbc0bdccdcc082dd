use fcgiq::logging::LogLevel;
use fcgiq::queue::Error;
use fcgiq::runner::{
    action_record, receive_failure_record, Action, Event, LoopPhase, PollLoop, BACKOFF_SECONDS,
    LONG_POLL_SECONDS,
};

const POLL: Action = Action::Poll { wait_seconds: 20 };
const BACKOFF: Action = Action::Backoff { seconds: 5 };
const REAPED_NONE: Event = Event::Reaped { finished: 0, cancelled: false };

/// Runs a loop through the events and returns what it asked for after each.
fn drive(machine: &mut PollLoop, events: &[Event]) -> Vec<Action> {
    events.iter().map(|e| machine.step(*e)).collect()
}

#[test]
fn waiting_times() {
    assert_eq!(LONG_POLL_SECONDS, 20);
    assert_eq!(BACKOFF_SECONDS, 5);
}

#[test]
fn a_loop_begins_with_a_receive() {
    let (machine, first) = PollLoop::start(4);
    assert_eq!(first, POLL);
    assert_eq!(machine.max_tasks(), 4);
    assert_eq!(machine.in_flight(), 0);
    assert!(!machine.is_cancelled());
    assert!(!machine.is_stopped());
    assert_eq!(machine.phase(), LoopPhase::Polling);
}

#[test]
fn an_item_is_handed_to_a_worker() {
    let (mut machine, _) = PollLoop::start(4);
    assert_eq!(machine.step(Event::Received), Action::Spawn);
    assert_eq!(machine.in_flight(), 1);
    assert_eq!(machine.step(Event::Spawned), Action::Reap);
    assert_eq!(machine.step(REAPED_NONE), POLL);
    assert_eq!(machine.in_flight(), 1);
}

#[test]
fn an_empty_receive_changes_nothing() {
    let (mut machine, _) = PollLoop::start(4);
    assert_eq!(machine.step(Event::Empty), Action::Reap);
    assert_eq!(machine.step(REAPED_NONE), POLL);
    assert_eq!(machine.in_flight(), 0);
}

#[test]
fn a_failed_receive_is_followed_by_a_rest() {
    let (mut machine, _) = PollLoop::start(4);
    assert_eq!(machine.step(Event::ReceiveFailed), BACKOFF);
    assert_eq!(machine.phase(), LoopPhase::BackingOff);
    assert_eq!(machine.step(Event::BackoffElapsed), Action::Reap);
    assert_eq!(machine.step(REAPED_NONE), POLL);
    assert!(!machine.is_stopped());
}

#[test]
fn backpressure() {
    let (mut machine, first) = PollLoop::start(2);
    assert_eq!(first, POLL);
    let asked = drive(&mut machine, &[Event::Received, Event::Spawned, REAPED_NONE]);
    assert_eq!(asked, vec![Action::Spawn, Action::Reap, POLL]);
    let asked = drive(&mut machine, &[Event::Received, Event::Spawned]);
    assert_eq!(asked, vec![Action::Spawn, Action::AwaitWorker]);
    assert_eq!(machine.in_flight(), 2);
    assert_eq!(machine.phase(), LoopPhase::AwaitingWorker);
    let asked = drive(&mut machine, &[Event::WorkerFinished, REAPED_NONE]);
    assert_eq!(asked, vec![Action::Reap, POLL]);
    assert_eq!(machine.in_flight(), 1);
    assert_eq!(machine.step(Event::Received), Action::Spawn);
    assert_eq!(machine.in_flight(), 2);
}

#[test]
fn reaping_frees_workers() {
    let (mut machine, _) = PollLoop::start(3);
    drive(&mut machine, &[Event::Received, Event::Spawned, REAPED_NONE]);
    drive(&mut machine, &[Event::Received, Event::Spawned]);
    assert_eq!(machine.in_flight(), 2);
    assert_eq!(machine.step(Event::Reaped { finished: 2, cancelled: false }), POLL);
    assert_eq!(machine.in_flight(), 0);
    drive(&mut machine, &[Event::Received, Event::Spawned]);
    assert_eq!(machine.step(Event::Reaped { finished: 7, cancelled: false }), POLL);
    assert_eq!(machine.in_flight(), 0);
}

#[test]
fn graceful_shutdown() {
    let (mut machine, _) = PollLoop::start(4);
    drive(&mut machine, &[Event::Received, Event::Spawned, REAPED_NONE]);
    drive(&mut machine, &[Event::Received, Event::Spawned, REAPED_NONE]);
    assert_eq!(machine.in_flight(), 2);
    assert_eq!(machine.step(Event::Cancelled), Action::Reap);
    assert!(machine.is_cancelled());
    let drain = machine.step(Event::Reaped { finished: 0, cancelled: true });
    assert_eq!(drain, Action::Drain { waiting: 2 });
    assert!(!machine.is_stopped());
    let record = action_record(drain).unwrap();
    assert_eq!(record.level, LogLevel::Info);
    assert_eq!(record.message, "Waiting for 2 tasks to finish...");
    let stop = machine.step(Event::Drained);
    assert_eq!(stop, Action::Stop { drained: true });
    assert_eq!(action_record(stop).unwrap().message, "All tasks complete.");
    assert!(machine.is_stopped());
    assert_eq!(machine.in_flight(), 0);
}

#[test]
fn shutdown_without_workers_in_flight() {
    let (mut machine, _) = PollLoop::start(4);
    assert_eq!(machine.step(Event::Cancelled), Action::Reap);
    let stop = machine.step(Event::Reaped { finished: 0, cancelled: true });
    assert_eq!(stop, Action::Stop { drained: false });
    assert!(action_record(stop).is_none());
    assert!(machine.is_stopped());
}

#[test]
fn cancellation_seen_when_reaping() {
    let (mut machine, _) = PollLoop::start(4);
    drive(&mut machine, &[Event::Received, Event::Spawned]);
    let asked = machine.step(Event::Reaped { finished: 0, cancelled: true });
    assert_eq!(asked, Action::Drain { waiting: 1 });
    assert!(machine.is_cancelled());
    let (mut machine, _) = PollLoop::start(4);
    drive(&mut machine, &[Event::Received, Event::Spawned]);
    let asked = machine.step(Event::Reaped { finished: 1, cancelled: true });
    assert_eq!(asked, Action::Stop { drained: false });
}

#[test]
fn cancellation_cuts_the_rest_short() {
    let (mut machine, _) = PollLoop::start(4);
    assert_eq!(machine.step(Event::ReceiveFailed), BACKOFF);
    assert_eq!(machine.step(Event::Cancelled), Action::Reap);
    assert_eq!(
        machine.step(Event::Reaped { finished: 0, cancelled: true }),
        Action::Stop { drained: false }
    );
    assert!(machine.is_stopped());
}

#[test]
fn cancellation_ends_the_wait_for_a_worker() {
    let (mut machine, _) = PollLoop::start(1);
    let asked = drive(&mut machine, &[Event::Received, Event::Spawned]);
    assert_eq!(asked, vec![Action::Spawn, Action::AwaitWorker]);
    assert_eq!(machine.step(Event::Cancelled), Action::Reap);
    assert_eq!(
        machine.step(Event::Reaped { finished: 0, cancelled: true }),
        Action::Drain { waiting: 1 }
    );
    assert_eq!(machine.step(Event::Drained), Action::Stop { drained: true });
}

#[test]
fn a_cancelled_loop_never_receives_again() {
    let (mut machine, _) = PollLoop::start(2);
    drive(&mut machine, &[Event::Received, Event::Spawned, REAPED_NONE]);
    machine.step(Event::Cancelled);
    let events = [
        Event::Received,
        Event::Empty,
        Event::ReceiveFailed,
        Event::Spawned,
        Event::BackoffElapsed,
        Event::WorkerFinished,
        Event::Cancelled,
        REAPED_NONE,
        Event::Received,
        Event::Empty,
        Event::Drained,
        Event::Received,
        REAPED_NONE,
        Event::WorkerFinished,
    ];
    for event in events {
        let asked = machine.step(event);
        assert!(
            matches!(asked, Action::Reap | Action::Drain { .. } | Action::Stop { .. }),
            "asked for {:?} after {:?}",
            asked,
            event
        );
        assert!(machine.is_cancelled());
    }
    assert!(machine.is_stopped());
}

#[test]
fn a_stopped_loop_stays_stopped() {
    let (mut machine, _) = PollLoop::start(2);
    drive(&mut machine, &[Event::Cancelled, Event::Reaped { finished: 0, cancelled: true }]);
    assert!(machine.is_stopped());
    let events = [
        Event::Received,
        Event::Empty,
        Event::ReceiveFailed,
        Event::Spawned,
        Event::BackoffElapsed,
        Event::WorkerFinished,
        Event::Reaped { finished: 3, cancelled: false },
        Event::Drained,
        Event::Cancelled,
    ];
    for event in events {
        assert_eq!(machine.step(event), Action::Stop { drained: false });
        assert!(machine.is_stopped());
        assert_eq!(machine.in_flight(), 0);
    }
}

#[test]
fn events_out_of_turn_change_nothing() {
    let (mut machine, _) = PollLoop::start(2);
    assert_eq!(machine.step(Event::Spawned), POLL);
    assert_eq!(machine.step(Event::WorkerFinished), POLL);
    assert_eq!(machine.step(REAPED_NONE), POLL);
    assert_eq!(machine.step(Event::Drained), POLL);
    assert_eq!(machine.step(Event::BackoffElapsed), POLL);
    assert_eq!(machine.in_flight(), 0);
    assert_eq!(machine.phase(), LoopPhase::Polling);
    assert_eq!(machine.step(Event::Received), Action::Spawn);
    assert_eq!(machine.step(Event::Received), Action::Spawn);
    assert_eq!(machine.step(Event::Cancelled), Action::Spawn);
    assert_eq!(machine.in_flight(), 1);
    assert!(!machine.is_cancelled());
}

#[test]
fn workers_in_flight_never_exceed_the_bound() {
    for max_tasks in 1..5usize {
        let (mut machine, _) = PollLoop::start(max_tasks);
        let mut seed: u64 = 0x2545f4914f6cdd1d ^ (max_tasks as u64);
        for _ in 0..5000 {
            seed ^= seed << 13;
            seed ^= seed >> 7;
            seed ^= seed << 17;
            let event = match seed % 8 {
                0 => Event::Received,
                1 => Event::Empty,
                2 => Event::ReceiveFailed,
                3 => Event::Spawned,
                4 => Event::BackoffElapsed,
                5 => Event::WorkerFinished,
                6 => Event::Reaped { finished: ((seed >> 8) % 3) as usize, cancelled: false },
                _ => Event::Drained,
            };
            let asked = machine.step(event);
            assert!(machine.in_flight() <= max_tasks);
            if matches!(asked, Action::Spawn) {
                assert!(machine.in_flight() >= 1);
            }
        }
    }
}

#[test]
fn a_loop_for_no_workers_waits_after_its_first_item() {
    let (mut machine, first) = PollLoop::start(0);
    assert_eq!(first, POLL);
    assert_eq!(machine.step(Event::Received), Action::Spawn);
    assert_eq!(machine.in_flight(), 1);
    assert_eq!(machine.step(Event::Spawned), Action::AwaitWorker);
    assert_eq!(machine.step(Event::WorkerFinished), Action::AwaitWorker);
    assert_eq!(machine.in_flight(), 0);
    assert_eq!(machine.step(Event::Cancelled), Action::Reap);
}

#[test]
fn receive_failure_is_reported() {
    let record = receive_failure_record(&Error::SqsReceiveMessageError("throttled".to_string()));
    assert_eq!(record.level, LogLevel::Error);
    assert_eq!(
        record.message,
        "An error occurred fetching from the queue (will retry in 5s): SQS ReceiveMessage API call failed: throttled"
    );
    let record = receive_failure_record(&Error::MissingMessageId);
    assert_eq!(
        record.message,
        "An error occurred fetching from the queue (will retry in 5s): invalid message model received: missing MessageId"
    );
}

#[test]
fn only_draining_and_the_end_after_it_are_reported() {
    assert!(action_record(POLL).is_none());
    assert!(action_record(Action::Spawn).is_none());
    assert!(action_record(BACKOFF).is_none());
    assert!(action_record(Action::AwaitWorker).is_none());
    assert!(action_record(Action::Reap).is_none());
    assert_eq!(
        action_record(Action::Drain { waiting: 12 }).unwrap().message,
        "Waiting for 12 tasks to finish..."
    );
}
