//! The work on one item: derive the request's variables, have the script
//! run, read its answer, and acknowledge the item if the script succeeded.
//!
//! A worker decides; its caller does what it decides and reports back.

use crate::cgi::{cgi_response, is_success_status, HttpResponse, ResponseModel};
use crate::config::FieldMappings;
use crate::dictionary::StringMap;
use crate::item::Item;
use crate::logging::{
    failure_record, failure_text, record_views, task_line, task_text, LogLevel, LogRecord,
};
use crate::mapping::{overrides_of, resolve_overrides};
use crate::pool::{utf8_text, ScriptOutput};
use crate::text::{decimal, decimal_string, string_from_utf8};
use vstd::prelude::*;
use vstd::string::StringExecFns;

verus! {

/// How far a worker has come.
#[derive(Debug, Clone, Copy, PartialEq, Eq, Structural)]
pub enum Phase {
    /// Nothing has been done yet.
    Ready,
    /// The script runs.
    Dispatching,
    /// The script succeeded; the queue is being told.
    Acknowledging,
    /// The work is over.
    Done,
}

/// What a worker is told.
#[derive(Debug)]
pub enum WorkerEvent {
    /// Begin.
    Start,
    /// The dispatch ended, with the script's output or with an error.
    Dispatched(Result<ScriptOutput, crate::pool::Error>),
    /// The acknowledgement ended.
    Acknowledged(Result<(), crate::queue::Error>),
}

/// What a worker asks for.
#[derive(Debug)]
pub enum WorkerAction {
    /// Dispatch the payload `stdin` with the variables `overrides`.
    Dispatch { stdin: Vec<u8>, overrides: StringMap },
    /// Acknowledge the item.
    Acknowledge,
    /// Nothing more; the worker is done.
    Finish,
}

/// An event as far as the course of the work depends on it.
#[derive(Debug, Clone, Copy, PartialEq, Eq, Structural)]
pub enum Signal {
    Start,
    /// The script ran and answered with a status of the success class.
    Success,
    /// The dispatch failed, or the script's answer was unreadable or told of
    /// a failure.
    Failure,
    Acknowledged,
}

/// An action without what it carries.
#[derive(Debug, Clone, Copy, PartialEq, Eq, Structural)]
pub enum Command {
    Dispatch,
    Acknowledge,
    Finish,
}

/// A script's answer counts as a success if it is a CGI response whose
/// status lies in the success class.
pub open spec fn response_succeeded(parsed: Result<ResponseModel, Seq<char>>) -> bool {
    match parsed {
        Ok(response) => is_success_status(response.status),
        Err(_) => false,
    }
}

/// A dispatch counts as a success if it brought output that does.
pub open spec fn dispatch_succeeded(result: Result<ScriptOutput, crate::pool::Error>) -> bool {
    match result {
        Ok(output) => response_succeeded(cgi_response(output.stdout@)),
        Err(_) => false,
    }
}

/// What an event means for the course of the work.
pub open spec fn signal_of(event: WorkerEvent) -> Signal {
    match event {
        WorkerEvent::Start => Signal::Start,
        WorkerEvent::Dispatched(result) => if dispatch_succeeded(result) {
            Signal::Success
        } else {
            Signal::Failure
        },
        WorkerEvent::Acknowledged(_) => Signal::Acknowledged,
    }
}

/// What an action asks for.
pub open spec fn command_of(action: WorkerAction) -> Command {
    match action {
        WorkerAction::Dispatch { .. } => Command::Dispatch,
        WorkerAction::Acknowledge => Command::Acknowledge,
        WorkerAction::Finish => Command::Finish,
    }
}

/// The course of the work: a fresh worker dispatches; after a success it
/// acknowledges, after a failure it is done; after the acknowledgement it is
/// done. An event out of turn ends the work.
pub open spec fn advance(phase: Phase, signal: Signal) -> (Phase, Command) {
    match (phase, signal) {
        (Phase::Ready, Signal::Start) => (Phase::Dispatching, Command::Dispatch),
        (Phase::Dispatching, Signal::Success) => (Phase::Acknowledging, Command::Acknowledge),
        (Phase::Acknowledging, Signal::Acknowledged) => (Phase::Done, Command::Finish),
        _ => (Phase::Done, Command::Finish),
    }
}

/// The lines about what the script wrote: its standard error as a warning,
/// if that is text and not empty, then its standard output for debugging, if
/// that is text.
pub open spec fn output_lines(id: Seq<char>, output: ScriptOutput) -> Seq<(LogLevel, Seq<char>)> {
    (match utf8_text(output.stderr@) {
        Some(text) => if text.len() > 0 {
            seq![(LogLevel::Warn, task_text(id, text))]
        } else {
            seq![]
        },
        None => seq![],
    }) + (match utf8_text(output.stdout@) {
        Some(text) => seq![(LogLevel::Debug, task_text(id, "stdout: "@ + text))],
        None => seq![],
    })
}

/// The line about a script's answer: the body of a successful response, if
/// it is text, or the bare news of completion; the status of an
/// unsuccessful response; the reason why there is no response.
pub open spec fn verdict_line(id: Seq<char>, parsed: Result<ResponseModel, Seq<char>>) -> (
    LogLevel,
    Seq<char>,
) {
    match parsed {
        Ok(response) => if is_success_status(response.status) {
            match utf8_text(response.body) {
                Some(body) => (LogLevel::Info, task_text(id, "task complete: "@ + body)),
                None => (LogLevel::Info, task_text(id, "task complete"@)),
            }
        } else {
            (
                LogLevel::Error,
                failure_text(
                    id,
                    "script returned status code "@ + decimal(response.status as nat),
                ),
            )
        },
        Err(reason) => (LogLevel::Error, failure_text(id, "invalid HTTP response: "@ + reason)),
    }
}

/// The lines that an event brings forth in a worker of the item `id`.
pub open spec fn step_lines(phase: Phase, id: Seq<char>, event: WorkerEvent) -> Seq<
    (LogLevel, Seq<char>),
> {
    match (phase, event) {
        (Phase::Dispatching, WorkerEvent::Dispatched(Ok(output))) => output_lines(id, output).push(
            verdict_line(id, cgi_response(output.stdout@)),
        ),
        (Phase::Dispatching, WorkerEvent::Dispatched(Err(error))) => seq![
            (LogLevel::Error, failure_text(id, crate::pool::error_chain(error))),
        ],
        (Phase::Acknowledging, WorkerEvent::Acknowledged(Err(error))) => seq![
            (
                LogLevel::Error,
                task_text(
                    id,
                    "failed to remove task from queue: "@ + crate::queue::error_chain(error),
                ),
            ),
        ],
        _ => seq![],
    }
}

/// Judges a script's answer once it has been read: whether it is a
/// success, and the line that tells of it.
pub fn judge_response(id: &str, parsed: Result<HttpResponse, crate::pool::Error>) -> (verdict: (
    bool,
    LogRecord,
))
    ensures
        match parsed {
            Ok(response) => verdict.0 == is_success_status(response@.status) && verdict.1@
                == verdict_line(id@, Ok(response@)),
            Err(error) => !verdict.0 && verdict.1@ == (
                LogLevel::Error,
                failure_text(id@, crate::pool::error_chain(error)),
            ),
        },
{
    match parsed {
        Ok(response) => {
            if response.is_success() {
                let record = match string_from_utf8(response.into_body()) {
                    Some(body) => {
                        let text = String::from_str("task complete: ").concat(body.as_str());
                        LogRecord { level: LogLevel::Info, message: task_line(id, text.as_str()) }
                    },
                    None => LogRecord {
                        level: LogLevel::Info,
                        message: task_line(id, "task complete"),
                    },
                };
                (true, record)
            } else {
                let status = decimal_string(response.status() as usize);
                let cause = String::from_str("script returned status code ").concat(
                    status.as_str(),
                );
                (false, failure_record(id, cause.as_str()))
            }
        },
        Err(error) => {
            let cause = error.describe();
            (false, failure_record(id, cause.as_str()))
        },
    }
}

/// Reports what the script wrote.
pub fn output_records(id: &str, output: &ScriptOutput) -> (records: Vec<LogRecord>)
    ensures
        record_views(records@) == output_lines(id@, *output),
{
    let mut records: Vec<LogRecord> = Vec::new();
    assert(record_views(records@) =~= Seq::empty());
    if let Some(text) = output.stderr_string() {
        if !text.as_str().is_empty() {
            records.push(
                LogRecord { level: LogLevel::Warn, message: task_line(id, text.as_str()) },
            );
        }
    }
    if let Some(text) = output.stdout_string() {
        let line = String::from_str("stdout: ").concat(text.as_str());
        records.push(LogRecord { level: LogLevel::Debug, message: task_line(id, line.as_str()) });
    }
    assert(record_views(records@) =~= output_lines(id@, *output));
    records
}

/// What a step of a worker yields: what to do next, and what to report.
#[derive(Debug)]
pub struct WorkerStep {
    pub action: WorkerAction,
    pub logs: Vec<LogRecord>,
}

/// The work on one item.
#[derive(Debug)]
pub struct Worker {
    item: Item,
    phase: Phase,
}

impl Worker {
    /// The item that the worker serves.
    pub closed spec fn spec_item(&self) -> Item {
        self.item
    }

    /// How far the worker has come.
    pub closed spec fn spec_phase(&self) -> Phase {
        self.phase
    }

    /// A fresh worker for `item`.
    pub fn new(item: Item) -> (worker: Worker)
        ensures
            worker.spec_item() == item,
            worker.spec_phase() == Phase::Ready,
    {
        Worker { item, phase: Phase::Ready }
    }

    /// The item that the worker serves.
    pub fn item(&self) -> (item: &Item)
        ensures
            *item == self.spec_item(),
    {
        &self.item
    }

    /// How far the worker has come.
    pub fn phase(&self) -> (phase: Phase)
        ensures
            phase == self.spec_phase(),
    {
        self.phase
    }

    /// Takes the worker one step on: `event` tells how what it last asked
    /// for has ended.
    pub fn step(&mut self, event: WorkerEvent, mappings: &FieldMappings) -> (step: WorkerStep)
        ensures
            final(self).spec_item() == old(self).spec_item(),
            (final(self).spec_phase(), command_of(step.action)) == advance(
                old(self).spec_phase(),
                signal_of(event),
            ),
            step.action matches WorkerAction::Dispatch { stdin, overrides } ==> stdin@ == old(
                self,
            ).spec_item().data@ && overrides@ == overrides_of(
                old(self).spec_item().data@,
                old(self).spec_item().metadata@,
                mappings@,
            ),
            record_views(step.logs@) == step_lines(
                old(self).spec_phase(),
                old(self).spec_item().id@,
                event,
            ),
    {
        let phase = self.phase;
        match event {
            WorkerEvent::Start => {
                let logs: Vec<LogRecord> = Vec::new();
                assert(record_views(logs@) =~= Seq::empty());
                if phase == Phase::Ready {
                    let overrides = resolve_overrides(&self.item, mappings);
                    let stdin = self.item.data.clone();
                    self.phase = Phase::Dispatching;
                    WorkerStep { action: WorkerAction::Dispatch { stdin, overrides }, logs }
                } else {
                    self.phase = Phase::Done;
                    WorkerStep { action: WorkerAction::Finish, logs }
                }
            },
            WorkerEvent::Dispatched(result) => {
                if phase == Phase::Dispatching {
                    match result {
                        Ok(output) => {
                            let mut logs = output_records(self.item.id.as_str(), &output);
                            let ghost lines = record_views(logs@);
                            let ghost expected = cgi_response(output.stdout@);
                            let parsed = HttpResponse::try_from(output);
                            let (success, record) = judge_response(self.item.id.as_str(), parsed);
                            assert(success == response_succeeded(expected));
                            assert(record@ == verdict_line(self.item.id@, expected));
                            logs.push(record);
                            assert(record_views(logs@) =~= lines.push(record@));
                            if success {
                                self.phase = Phase::Acknowledging;
                                WorkerStep { action: WorkerAction::Acknowledge, logs }
                            } else {
                                self.phase = Phase::Done;
                                WorkerStep { action: WorkerAction::Finish, logs }
                            }
                        },
                        Err(error) => {
                            let cause = error.describe();
                            let mut logs: Vec<LogRecord> = Vec::new();
                            logs.push(failure_record(self.item.id.as_str(), cause.as_str()));
                            assert(record_views(logs@) =~= seq![
                                (
                                    LogLevel::Error,
                                    failure_text(self.item.id@, crate::pool::error_chain(error)),
                                ),
                            ]);
                            self.phase = Phase::Done;
                            WorkerStep { action: WorkerAction::Finish, logs }
                        },
                    }
                } else {
                    let logs: Vec<LogRecord> = Vec::new();
                    assert(record_views(logs@) =~= Seq::empty());
                    self.phase = Phase::Done;
                    WorkerStep { action: WorkerAction::Finish, logs }
                }
            },
            WorkerEvent::Acknowledged(result) => {
                let mut logs: Vec<LogRecord> = Vec::new();
                assert(record_views(logs@) =~= Seq::empty());
                if phase == Phase::Acknowledging {
                    if let Err(error) = result {
                        let text = String::from_str("failed to remove task from queue: ").concat(
                            error.describe().as_str(),
                        );
                        let record = LogRecord {
                            level: LogLevel::Error,
                            message: task_line(self.item.id.as_str(), text.as_str()),
                        };
                        logs.push(record);
                        assert(record_views(logs@) =~= seq![
                            (
                                LogLevel::Error,
                                task_text(
                                    self.item.id@,
                                    "failed to remove task from queue: "@
                                        + crate::queue::error_chain(error),
                                ),
                            ),
                        ]);
                    }
                }
                self.phase = Phase::Done;
                WorkerStep { action: WorkerAction::Finish, logs }
            },
        }
    }
}

/// The number of acknowledgements that a worker in `phase` asks for while it
/// is told `signals`, one after the other.
pub open spec fn acknowledgements(phase: Phase, signals: Seq<Signal>) -> nat
    decreases signals.len(),
{
    if signals.len() == 0 {
        0
    } else {
        let (next, command) = advance(phase, signals[0]);
        let asked: nat = if command == Command::Acknowledge {
            1
        } else {
            0
        };
        asked + acknowledgements(next, signals.drop_first())
    }
}

/// A worker that is done, or that waits for its acknowledgement to end, asks
/// for no acknowledgement any more.
proof fn lemma_no_more_acknowledgements(phase: Phase, signals: Seq<Signal>)
    requires
        phase == Phase::Done || phase == Phase::Acknowledging,
    ensures
        acknowledgements(phase, signals) == 0,
    decreases signals.len(),
{
    if signals.len() > 0 {
        lemma_no_more_acknowledgements(Phase::Done, signals.drop_first());
    }
}

/// Whatever a worker is told, and in whatever order: it asks for exactly one
/// acknowledgement if it was started and its dispatch then succeeded, and
/// for none otherwise.
pub proof fn law_acknowledge_once(signals: Seq<Signal>)
    ensures
        acknowledgements(Phase::Ready, signals) == (if signals.len() >= 2 && signals[0]
            == Signal::Start && signals[1] == Signal::Success {
            1nat
        } else {
            0nat
        }),
{
    reveal_with_fuel(acknowledgements, 3);
    if signals.len() > 0 {
        let rest = signals.drop_first();
        if signals[0] == Signal::Start {
            if rest.len() > 0 {
                assert(rest[0] == signals[1]);
                let (next, command) = advance(Phase::Dispatching, rest[0]);
                lemma_no_more_acknowledgements(next, rest.drop_first());
            }
        } else {
            lemma_no_more_acknowledgements(Phase::Done, rest);
        }
    }
}

} // verus!
