//! What holds of a worker over all that ever happens to it.
use crate::laws::{
    answers, asked, connected, consistent, gate_after, gate_follows_phase, owed,
    requests_are_answered_once, steps_keep_consistency,
};
use crate::model::{step, Run, WorkerModel, MICROPHONE_EXTEND_MS};
use crate::protocol::{CommandModel, Event, EventModel, SurroundingsModel};
use crate::snapshot::{blank, gated, Snapshot, SnapshotModel};
use vstd::prelude::*;

verus! {

/// An event and what the host read off before it. A check of the input method may have
/// published an error in the meantime.
pub struct Input {
    pub remark: Option<Seq<char>>,
    pub env: SurroundingsModel,
    pub event: EventModel,
}

/// The published state after a check has had its say.
pub open spec fn remarked(s: SnapshotModel, remark: Option<Seq<char>>) -> SnapshotModel {
    match remark {
        Some(error) => Snapshot { last_error: Some(error), ..s },
        None => s,
    }
}

/// The clock never runs out.
pub open spec fn clock_holds(inputs: Seq<Input>) -> bool {
    forall|i: int|
        0 <= i < inputs.len() ==> (#[trigger] inputs[i]).env.now.admits(
            MICROPHONE_EXTEND_MS as int,
        )
}

/// A new worker after a list of events, with all the commands that it has given.
pub open spec fn history(inputs: Seq<Input>) -> Run
    decreases inputs.len(),
{
    if inputs.len() == 0 {
        Run { w: WorkerModel::initial(), s: blank(), out: Seq::empty(), ask: None }
    } else {
        let past = history(inputs.drop_last());
        let run = next(past, inputs.last());
        Run { out: past.out + run.out, ..run }
    }
}

/// The step that an input leads to.
pub open spec fn next(past: Run, input: Input) -> Run {
    step(past.w, remarked(past.s, input.remark), input.env, input.event)
}

/// How many requests a new worker has taken in a list of events.
pub open spec fn requests(inputs: Seq<Input>) -> int
    decreases inputs.len(),
{
    if inputs.len() == 0 {
        0
    } else {
        requests(inputs.drop_last()) + match inputs.last().event {
            Event::Message(message) if history(inputs.drop_last()).w.pending is Idle => asked(
                message,
            ),
            _ => 0,
        }
    }
}

proof fn answers_of_both(a: Seq<CommandModel>, b: Seq<CommandModel>)
    ensures
        answers(a + b) == answers(a) + answers(b),
    decreases b.len(),
{
    if b.len() == 0 {
        assert(a + b =~= a);
    } else {
        answers_of_both(a, b.drop_last());
        assert((a + b).drop_last() =~= a + b.drop_last());
    }
}

proof fn gate_after_both(a: Seq<CommandModel>, b: Seq<CommandModel>, before: bool)
    ensures
        gate_after(a + b, before) == gate_after(b, gate_after(a, before)),
    decreases b.len(),
{
    if b.len() == 0 {
        assert(a + b =~= a);
    } else {
        gate_after_both(a, b.drop_last(), before);
        assert((a + b).drop_last() =~= a + b.drop_last());
    }
}

proof fn clock_held(inputs: Seq<Input>)
    requires
        clock_holds(inputs),
        inputs.len() > 0,
    ensures
        clock_holds(inputs.drop_last()),
        inputs.last().env.now.admits(MICROPHONE_EXTEND_MS as int),
{
    let past = inputs.drop_last();
    assert forall|i: int| 0 <= i < past.len() implies (#[trigger] past[i]).env.now.admits(
        MICROPHONE_EXTEND_MS as int,
    ) by {
        assert(past[i] == inputs[i]);
    }
    assert(inputs[inputs.len() - 1] == inputs.last());
}

/// Whatever happens, a worker is consistent.
pub proof fn workers_are_consistent(inputs: Seq<Input>)
    requires
        clock_holds(inputs),
    ensures
        consistent(history(inputs).w),
    decreases inputs.len(),
{
    if inputs.len() > 0 {
        let past = inputs.drop_last();
        clock_held(inputs);
        workers_are_consistent(past);
        let run = history(past);
        let input = inputs.last();
        steps_keep_consistency(run.w, remarked(run.s, input.remark), input.env, input.event);
    }
}

/// Whatever happens, a worker that waits for messages, is awake and has been told of a
/// device is connected or has a reconnect scheduled.
pub proof fn no_history_makes_a_worker_give_up(inputs: Seq<Input>)
    requires
        clock_holds(inputs),
        history(inputs).w.pending is Idle,
        history(inputs).w.wants_connection(),
    ensures
        connected(history(inputs).w) || history(inputs).w.reconnect_deadline is Some,
{
    workers_are_consistent(inputs);
}

/// Whatever happens, the host takes the shared keys over exactly in the phases in which
/// the remote counts as online.
pub proof fn gate_is_right(inputs: Seq<Input>)
    requires
        clock_holds(inputs),
    ensures
        gate_after(history(inputs).out, false) == gated(history(inputs).s.phase),
    decreases inputs.len(),
{
    if inputs.len() > 0 {
        let past = inputs.drop_last();
        clock_held(inputs);
        gate_is_right(past);
        workers_are_consistent(past);
        let run = history(past);
        let input = inputs.last();
        gate_follows_phase(run.w, remarked(run.s, input.remark), input.env, input.event);
        gate_after_both(run.out, next(run, input).out, false);
    }
}

/// Whatever happens, the requests that have been taken have all been answered, but for
/// the one that the worker is dealing with.
pub proof fn requests_are_answered(inputs: Seq<Input>)
    requires
        clock_holds(inputs),
    ensures
        answers(history(inputs).out) + owed(history(inputs).w.pending) == requests(inputs),
        history(inputs).w.pending is Idle ==> answers(history(inputs).out) == requests(inputs),
    decreases inputs.len(),
{
    if inputs.len() > 0 {
        let past = inputs.drop_last();
        clock_held(inputs);
        requests_are_answered(past);
        workers_are_consistent(past);
        let run = history(past);
        let input = inputs.last();
        requests_are_answered_once(run.w, remarked(run.s, input.remark), input.env, input.event);
        answers_of_both(run.out, next(run, input).out);
    }
}

} // verus!
