//! Runs of the worker's state machine over many events, and what holds of
//! every run.

use vstd::prelude::*;
use crate::codec::DecodeError;
use crate::model::Job;
use crate::worker::{next, transition, Action, Decoded, Event, Report, WorkerState};

verus! {

/// The state reached and the actions asked for, in order, when the machine
/// takes the events one after another.
pub open spec fn run(state: WorkerState, events: Seq<Event>) -> (WorkerState, Seq<Action>)
    decreases events.len(),
{
    if events.len() == 0 {
        (state, Seq::<Action>::empty())
    } else {
        let first = next(state, events[0]);
        let rest = run(first.0, events.skip(1));
        (rest.0, seq![first.1] + rest.1)
    }
}

/// The jobs handed to the engine by a sequence of actions, in order.
pub open spec fn jobs_started(actions: Seq<Action>) -> Seq<Job>
    decreases actions.len(),
{
    if actions.len() == 0 {
        Seq::<Job>::empty()
    } else {
        let head = match actions[0] {
            Action::Execute { job } => seq![job],
            _ => Seq::<Job>::empty(),
        };
        head + jobs_started(actions.skip(1))
    }
}

/// One well-formed message as the worker lives through it: the delivery,
/// the job its body holds, and what the engine made of it.
pub ghost struct Handled {
    pub tag: u64,
    pub body: Vec<u8>,
    pub job: Job,
    pub engine: Event,
}

impl Handled {
    /// The engine's part is an answer or a failure, nothing else.
    pub open spec fn well_formed(self) -> bool {
        self.engine is EngineSucceeded || self.engine is EngineFailed
    }

    /// The events that this message causes, in order.
    pub open spec fn events(self) -> Seq<Event> {
        seq![
            Event::Delivery { tag: self.tag, body: Some(self.body) },
            Event::Acked,
            Event::Decoded { outcome: Decoded::Accepted { job: self.job } },
            self.engine,
            Event::Reported,
        ]
    }

    /// The log entry that ends this message.
    pub open spec fn report(self) -> Report {
        match self.engine {
            Event::EngineSucceeded { result } => Report::Succeeded { result },
            _ => Report::ExecutionFailed,
        }
    }

    /// The actions that the worker asks for while it handles this message.
    pub open spec fn actions(self) -> Seq<Action> {
        seq![
            Action::Ack { tag: self.tag },
            Action::Decode,
            Action::Execute { job: self.job },
            Action::Log { report: self.report() },
            Action::Receive,
        ]
    }
}

/// The events of several messages, one message after the other.
pub open spec fn events_of(messages: Seq<Handled>) -> Seq<Event>
    decreases messages.len(),
{
    if messages.len() == 0 {
        Seq::<Event>::empty()
    } else {
        messages[0].events() + events_of(messages.skip(1))
    }
}

/// The events of a message whose body is no job.
pub open spec fn malformed_events(tag: u64, body: Vec<u8>, reason: DecodeError) -> Seq<Event> {
    seq![
        Event::Delivery { tag, body: Some(body) },
        Event::Acked,
        Event::Decoded { outcome: Decoded::Rejected { reason } },
        Event::Reported,
    ]
}

/// A run over two stretches of events is the run over the first, then the
/// run over the second from where the first ended.
pub proof fn run_splits(state: WorkerState, first: Seq<Event>, second: Seq<Event>)
    ensures
        run(state, first + second).0 == run(run(state, first).0, second).0,
        run(state, first + second).1 == run(state, first).1 + run(run(state, first).0, second).1,
    decreases first.len(),
{
    if first.len() == 0 {
        assert(first + second =~= second);
        assert(run(state, first).1 + run(state, second).1 =~= run(state, second).1);
    } else {
        let all = first + second;
        let head = next(state, first[0]);
        assert(all.skip(1) =~= first.skip(1) + second);
        run_splits(head.0, first.skip(1), second);
        let mid = run(head.0, first.skip(1));
        assert(seq![head.1] + (mid.1 + run(mid.0, second).1) =~= (seq![head.1] + mid.1) + run(
            mid.0,
            second,
        ).1);
    }
}

/// The jobs started by two stretches of actions are those of the first,
/// then those of the second.
pub proof fn jobs_started_splits(first: Seq<Action>, second: Seq<Action>)
    ensures
        jobs_started(first + second) == jobs_started(first) + jobs_started(second),
    decreases first.len(),
{
    if first.len() == 0 {
        assert(first + second =~= second);
        assert(jobs_started(first) + jobs_started(second) =~= jobs_started(second));
    } else {
        let all = first + second;
        assert(all.skip(1) =~= first.skip(1) + second);
        jobs_started_splits(first.skip(1), second);
        let head = match first[0] {
            Action::Execute { job } => seq![job],
            _ => Seq::<Job>::empty(),
        };
        assert(head + (jobs_started(first.skip(1)) + jobs_started(second)) =~= (head
            + jobs_started(first.skip(1))) + jobs_started(second));
    }
}

/// A waiting worker that gets one well-formed message acknowledges it,
/// reads it, runs its job, logs the outcome and waits again.
pub proof fn one_message_is_handled_to_completion(message: Handled)
    requires
        message.well_formed(),
    ensures
        run(WorkerState::Consuming, message.events()) == (
            WorkerState::Consuming,
            message.actions(),
        ),
        jobs_started(message.actions()) == seq![message.job],
{
    reveal_with_fuel(run, 6);
    assert(run(WorkerState::Consuming, message.events()).1 =~= message.actions());
    reveal_with_fuel(jobs_started, 6);
    assert(jobs_started(message.actions()) =~= seq![message.job]);
}

/// A waiting worker that gets a message whose body is no job acknowledges
/// it, logs the failure and waits again: the message is never run, and no
/// action puts it back on any queue.
pub proof fn malformed_message_is_acknowledged_and_dropped(
    tag: u64,
    body: Vec<u8>,
    reason: DecodeError,
)
    ensures
        run(WorkerState::Consuming, malformed_events(tag, body, reason)) == (
            WorkerState::Consuming,
            seq![
                Action::Ack { tag },
                Action::Decode,
                Action::Log { report: Report::DecodeFailed { reason } },
                Action::Receive,
            ],
        ),
        jobs_started(run(WorkerState::Consuming, malformed_events(tag, body, reason)).1)
            == Seq::<Job>::empty(),
{
    reveal_with_fuel(run, 5);
    let want = seq![
        Action::Ack { tag },
        Action::Decode,
        Action::Log { report: Report::DecodeFailed { reason } },
        Action::Receive,
    ];
    assert(run(WorkerState::Consuming, malformed_events(tag, body, reason)).1 =~= want);
    reveal_with_fuel(jobs_started, 5);
    assert(jobs_started(want) =~= Seq::<Job>::empty());
}

/// A waiting worker that gets any number of well-formed messages hands
/// their jobs to the engine one by one in the order of receipt, each
/// message handled to its end before the next begins, and waits again.
pub proof fn jobs_run_in_receipt_order(messages: Seq<Handled>)
    requires
        forall|i: int| 0 <= i < messages.len() ==> (#[trigger] messages[i]).well_formed(),
    ensures
        run(WorkerState::Consuming, events_of(messages)).0 == WorkerState::Consuming,
        jobs_started(run(WorkerState::Consuming, events_of(messages)).1) == Seq::new(
            messages.len(),
            |i: int| messages[i].job,
        ),
    decreases messages.len(),
{
    let want = Seq::new(messages.len(), |i: int| messages[i].job);
    if messages.len() == 0 {
        assert(jobs_started(run(WorkerState::Consuming, events_of(messages)).1) =~= want);
    } else {
        let head = messages[0];
        let tail = messages.skip(1);
        assert forall|i: int| 0 <= i < tail.len() implies (#[trigger] tail[i]).well_formed() by {
            assert(messages[i + 1].well_formed());
        }
        one_message_is_handled_to_completion(head);
        jobs_run_in_receipt_order(tail);
        run_splits(WorkerState::Consuming, head.events(), events_of(tail));
        let rest = run(WorkerState::Consuming, events_of(tail));
        jobs_started_splits(head.actions(), rest.1);
        assert(seq![head.job] + Seq::new(tail.len(), |i: int| tail[i].job) =~= want);
    }
}

/// The same message delivered twice is handled twice: two acknowledgments,
/// two engine calls with the same job, and the worker waits again as if
/// nothing had been repeated.
pub proof fn duplicate_delivery_is_handled_twice(first: Handled, second: Handled)
    requires
        first.well_formed(),
        second.well_formed(),
        first.body == second.body,
        first.job == second.job,
    ensures
        run(WorkerState::Consuming, first.events() + second.events()) == (
            WorkerState::Consuming,
            first.actions() + second.actions(),
        ),
        jobs_started(first.actions() + second.actions()) == seq![first.job, first.job],
{
    one_message_is_handled_to_completion(first);
    one_message_is_handled_to_completion(second);
    run_splits(WorkerState::Consuming, first.events(), second.events());
    jobs_started_splits(first.actions(), second.actions());
    assert(seq![first.job] + seq![second.job] =~= seq![first.job, first.job]);
}

/// The worker reads a body only once its message is acknowledged, and
/// hands a job to the engine only once the body is read: whatever the
/// body turns out to be, the broker has been told that it arrived.
pub proof fn acknowledgment_comes_first(state: WorkerState, event: Event)
    ensures
        next(state, event).1 is Ack ==> state is Consuming && event is Delivery,
        next(state, event).1 is Decode ==> state is Acknowledging && event is Acked,
        next(state, event).1 is Execute ==> state is Decoding && event is Decoded,
        next(state, event).1 is Log ==> state is Decoding || state is Executing,
{
}

/// While a message is being handled the worker takes no other: a delivery
/// that comes in any state but `Consuming` changes nothing.
pub proof fn delivery_waits_for_its_turn(state: WorkerState, tag: u64, body: Option<Vec<u8>>)
    requires
        !(state is Consuming),
    ensures
        next(state, Event::Delivery { tag, body }) == (state, Action::Ignore),
{
}

/// Takes the events one after another and collects what the machine asks
/// for.
pub fn replay(state: WorkerState, events: Vec<Event>) -> (r: (WorkerState, Vec<Action>))
    ensures
        r.0 == run(state, events@).0,
        r.1@ == run(state, events@).1,
{
    let mut events = events;
    let mut state = state;
    let mut actions: Vec<Action> = Vec::new();
    let ghost state0 = state;
    let ghost events0 = events@;
    while events.len() > 0
        invariant
            run(state0, events0).0 == run(state, events@).0,
            run(state0, events0).1 == actions@ + run(state, events@).1,
        decreases events.len(),
    {
        let ghost before = events@;
        let ghost acts = actions@;
        let event = events.remove(0);
        assert(events@ =~= before.skip(1));
        let (s, a) = transition(state, event);
        state = s;
        actions.push(a);
        assert(acts + (seq![a] + run(s, events@).1) =~= actions@ + run(s, events@).1);
    }
    assert(actions@ + Seq::<Action>::empty() =~= actions@);
    (state, actions)
}

} // verus!
