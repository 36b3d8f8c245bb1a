//! The execution worker as a state machine.
//!
//! The worker's surroundings connect to the broker, acknowledge messages and
//! call the engine. After each of these they tell the machine what happened
//! and get back the next state together with the one thing to do now.

use vstd::prelude::*;
use crate::codec::{parsed_job, DecodeError};
use crate::model::{ExecutionResult, Job};

verus! {

/// Where the worker stands.
#[derive(Clone, Debug, PartialEq, Eq)]
pub enum WorkerState {
    /// Opening the connection and the channel to the broker.
    Connecting,
    /// Subscribed, waiting for the next message.
    Consuming,
    /// A message arrived; its acknowledgment is under way.
    Acknowledging { body: Vec<u8> },
    /// The message is acknowledged; its body is about to be read.
    Decoding { body: Vec<u8> },
    /// The engine is running the job.
    Executing,
    /// The outcome is being written to the log.
    Reporting,
    /// The worker has given up; nothing moves it again.
    Stopped,
}

/// The tagged result of reading a message body.
#[derive(Clone, Debug, PartialEq, Eq)]
pub enum Decoded {
    Accepted { job: Job },
    Rejected { reason: DecodeError },
}

/// What the surroundings tell the worker.
#[derive(Clone, Debug, PartialEq, Eq)]
pub enum Event {
    /// Connection and channel are open.
    Connected,
    /// The broker could not be reached.
    ConnectFailed,
    /// The broker delivered a message, with or without content.
    Delivery { tag: u64, body: Option<Vec<u8>> },
    /// The message stream has ended.
    StreamClosed,
    /// The broker took the acknowledgment.
    Acked,
    /// The acknowledgment could not be sent.
    AckFailed,
    /// The body has been read.
    Decoded { outcome: Decoded },
    /// The engine answered.
    EngineSucceeded { result: ExecutionResult },
    /// The engine could not be reached or refused the job.
    EngineFailed,
    /// The log line is written.
    Reported,
}

/// What ends up in the worker's log for one message.
#[derive(Clone, Debug, PartialEq, Eq)]
pub enum Report {
    /// The body was not a job; the message is lost.
    DecodeFailed { reason: DecodeError },
    /// The engine ran the job.
    Succeeded { result: ExecutionResult },
    /// The engine call failed.
    ExecutionFailed,
}

/// What the surroundings must do next.
#[derive(Clone, Debug, PartialEq, Eq)]
pub enum Action {
    /// Open the connection and the channel.
    Connect,
    /// Declare and bind the queue, start the stream, wait for a message.
    Subscribe,
    /// Wait for the next message.
    Receive,
    /// Acknowledge the message with this delivery tag.
    Ack { tag: u64 },
    /// Read the body held by the state.
    Decode,
    /// Hand the job to the engine.
    Execute { job: Job },
    /// Write the report to the log.
    Log { report: Report },
    /// Leave the process.
    Exit,
    /// The event does not belong to the state; nothing to do.
    Ignore,
}

/// The state machine: the state and the action that follow an event.
pub open spec fn next(state: WorkerState, event: Event) -> (WorkerState, Action) {
    match (state, event) {
        (WorkerState::Connecting, Event::Connected) => (WorkerState::Consuming, Action::Subscribe),
        (WorkerState::Connecting, Event::ConnectFailed) => (WorkerState::Stopped, Action::Exit),
        (WorkerState::Consuming, Event::Delivery { tag, body: Some(body) }) => (
            WorkerState::Acknowledging { body },
            Action::Ack { tag },
        ),
        (WorkerState::Consuming, Event::Delivery { tag, body: None }) => (
            WorkerState::Consuming,
            Action::Receive,
        ),
        (WorkerState::Consuming, Event::StreamClosed) => (WorkerState::Stopped, Action::Exit),
        (WorkerState::Acknowledging { body }, Event::Acked) => (
            WorkerState::Decoding { body },
            Action::Decode,
        ),
        (WorkerState::Acknowledging { body }, Event::AckFailed) => (
            WorkerState::Stopped,
            Action::Exit,
        ),
        (WorkerState::Decoding { body }, Event::Decoded { outcome: Decoded::Accepted { job } }) => (
            WorkerState::Executing,
            Action::Execute { job },
        ),
        (
            WorkerState::Decoding { body },
            Event::Decoded { outcome: Decoded::Rejected { reason } },
        ) => (WorkerState::Reporting, Action::Log { report: Report::DecodeFailed { reason } }),
        (WorkerState::Executing, Event::EngineSucceeded { result }) => (
            WorkerState::Reporting,
            Action::Log { report: Report::Succeeded { result } },
        ),
        (WorkerState::Executing, Event::EngineFailed) => (
            WorkerState::Reporting,
            Action::Log { report: Report::ExecutionFailed },
        ),
        (WorkerState::Reporting, Event::Reported) => (WorkerState::Consuming, Action::Receive),
        (state, _) => (state, Action::Ignore),
    }
}

/// The state in which a worker begins, and its first action.
pub fn start() -> (r: (WorkerState, Action))
    ensures
        r == (WorkerState::Connecting, Action::Connect),
{
    (WorkerState::Connecting, Action::Connect)
}

/// Moves the machine by one event.
pub fn transition(state: WorkerState, event: Event) -> (r: (WorkerState, Action))
    ensures
        r == next(state, event),
{
    match (state, event) {
        (WorkerState::Connecting, Event::Connected) => (WorkerState::Consuming, Action::Subscribe),
        (WorkerState::Connecting, Event::ConnectFailed) => (WorkerState::Stopped, Action::Exit),
        (WorkerState::Consuming, Event::Delivery { tag, body: Some(body) }) => (
            WorkerState::Acknowledging { body },
            Action::Ack { tag },
        ),
        (WorkerState::Consuming, Event::Delivery { tag: _, body: None }) => (
            WorkerState::Consuming,
            Action::Receive,
        ),
        (WorkerState::Consuming, Event::StreamClosed) => (WorkerState::Stopped, Action::Exit),
        (WorkerState::Acknowledging { body }, Event::Acked) => (
            WorkerState::Decoding { body },
            Action::Decode,
        ),
        (WorkerState::Acknowledging { body: _ }, Event::AckFailed) => (
            WorkerState::Stopped,
            Action::Exit,
        ),
        (
            WorkerState::Decoding { body: _ },
            Event::Decoded { outcome: Decoded::Accepted { job } },
        ) => (WorkerState::Executing, Action::Execute { job }),
        (
            WorkerState::Decoding { body: _ },
            Event::Decoded { outcome: Decoded::Rejected { reason } },
        ) => (WorkerState::Reporting, Action::Log { report: Report::DecodeFailed { reason } }),
        (WorkerState::Executing, Event::EngineSucceeded { result }) => (
            WorkerState::Reporting,
            Action::Log { report: Report::Succeeded { result } },
        ),
        (WorkerState::Executing, Event::EngineFailed) => (
            WorkerState::Reporting,
            Action::Log { report: Report::ExecutionFailed },
        ),
        (WorkerState::Reporting, Event::Reported) => (WorkerState::Consuming, Action::Receive),
        (state, _) => (state, Action::Ignore),
    }
}

/// The event that an engine call comes to: the engine's answer with its
/// HTTP status, or no answer at all. Only an answer with status 200 counts
/// as success; every other outcome is one and the same failure.
pub fn engine_event(answer: Option<(u16, ExecutionResult)>) -> (event: Event)
    ensures
        event == match answer {
            Some((status, result)) => if status == 200 {
                Event::EngineSucceeded { result }
            } else {
                Event::EngineFailed
            },
            None => Event::EngineFailed,
        },
{
    match answer {
        Some((status, result)) => if status == 200 {
            Event::EngineSucceeded { result }
        } else {
            Event::EngineFailed
        },
        None => Event::EngineFailed,
    }
}

/// The tagged result for what the parser returned.
pub fn classify(parsed: Result<Job, DecodeError>) -> (d: Decoded)
    ensures
        d == match parsed {
            Ok(job) => (Decoded::Accepted { job }),
            Err(reason) => (Decoded::Rejected { reason }),
        },
{
    match parsed {
        Ok(job) => Decoded::Accepted { job },
        Err(reason) => Decoded::Rejected { reason },
    }
}

/// Reads a message body into its tagged result.
pub fn decode_body(body: &[u8]) -> (d: Decoded)
    ensures
        match parsed_job(body@) {
            Ok(job) => d is Accepted && d->job@ == job,
            Err(reason) => d == (Decoded::Rejected { reason }),
        },
{
    classify(Job::decode(body))
}

/// Moves the machine by one event and, where the next thing to do is to
/// read the body, reads it at once and moves on: the caller never sees
/// `Action::Decode`.
pub fn step(state: WorkerState, event: Event) -> (r: (WorkerState, Action))
    ensures
        match next(state, event) {
            (WorkerState::Decoding { body }, Action::Decode) => match parsed_job(body@) {
                Ok(job) => r.0 == WorkerState::Executing && r.1 is Execute && r.1->job@ == job,
                Err(reason) => r == (
                    WorkerState::Reporting,
                    Action::Log { report: Report::DecodeFailed { reason } },
                ),
            },
            other => r == other,
        },
{
    let (state1, action1) = transition(state, event);
    match (state1, action1) {
        (WorkerState::Decoding { body }, Action::Decode) => {
            let outcome = decode_body(body.as_slice());
            transition(WorkerState::Decoding { body }, Event::Decoded { outcome })
        },
        (state1, action1) => (state1, action1),
    }
}

} // verus!
