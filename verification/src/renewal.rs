//! A connection that is ready has left all earlier reconnects behind.
use crate::history::{history, next, remarked, Input};
use crate::model::{activity, step, Activity, Run, WorkerModel};
use crate::protocol::{Event, EventModel, PendingModel, ReplyModel, SurroundingsModel};
use crate::snapshot::SnapshotModel;
use vstd::prelude::*;

verus! {

/// A connection is being set up, or the radio is being dealt with.
pub open spec fn under_way(pending: PendingModel) -> bool {
    pending is Connecting || pending is ConsultingRadioPolicy || pending is CyclingRadio
}

/// Nothing is left of earlier reconnects where the connection is ready or its capabilities
/// are shown, and neither is the case while a connection is under way.
pub open spec fn started_over(w: WorkerModel, s: SnapshotModel) -> bool {
    &&& s.phase is Ready || s.capabilities is Some ==> {
        &&& w.backoff.attempt == 0
        &&& w.radio_recovery_cycles == 0
        &&& s.reconnect_attempt == 0
    }
    &&& under_way(w.pending) ==> !(s.phase is Ready) && s.capabilities is None
}

proof fn messages_start_over(
    w: WorkerModel,
    s: SnapshotModel,
    env: SurroundingsModel,
    event: EventModel,
)
    requires
        started_over(w, s),
        !(event is Reply),
    ensures
        ({
            let run = step(w, s, env, event);
            started_over(run.w, run.s)
        }),
{
}

proof fn clean_ups_start_over(
    w: WorkerModel,
    s: SnapshotModel,
    env: SurroundingsModel,
    reply: ReplyModel,
)
    requires
        started_over(w, s),
        activity(w.pending) is Cleanup,
    ensures
        ({
            let run = step(w, s, env, Event::Reply(reply));
            started_over(run.w, run.s)
        }),
{
    reveal(Run::reply_cleanup);
}

proof fn set_ups_start_over(
    w: WorkerModel,
    s: SnapshotModel,
    env: SurroundingsModel,
    reply: ReplyModel,
)
    requires
        started_over(w, s),
        activity(w.pending) is Connecting,
    ensures
        ({
            let run = step(w, s, env, Event::Reply(reply));
            started_over(run.w, run.s)
        }),
{
    reveal(Run::reply_connecting);
}

proof fn timed_replies_start_over(
    w: WorkerModel,
    s: SnapshotModel,
    env: SurroundingsModel,
    reply: ReplyModel,
)
    requires
        started_over(w, s),
        activity(w.pending) is Timed,
    ensures
        ({
            let run = step(w, s, env, Event::Reply(reply));
            started_over(run.w, run.s)
        }),
{
    reveal(Run::reply_timed);
}

proof fn presses_start_over(
    w: WorkerModel,
    s: SnapshotModel,
    env: SurroundingsModel,
    reply: ReplyModel,
)
    requires
        started_over(w, s),
        activity(w.pending) is Retry,
    ensures
        ({
            let run = step(w, s, env, Event::Reply(reply));
            started_over(run.w, run.s)
        }),
{
    reveal(Run::reply_retry);
}

proof fn control_packets_start_over(
    w: WorkerModel,
    s: SnapshotModel,
    env: SurroundingsModel,
    reply: ReplyModel,
)
    requires
        started_over(w, s),
        activity(w.pending) is Control,
    ensures
        ({
            let run = step(w, s, env, Event::Reply(reply));
            started_over(run.w, run.s)
        }),
{
    reveal(Run::reply_control);
}

proof fn endings_start_over(
    w: WorkerModel,
    s: SnapshotModel,
    env: SurroundingsModel,
    reply: ReplyModel,
)
    requires
        started_over(w, s),
        activity(w.pending) is Ending,
    ensures
        ({
            let run = step(w, s, env, Event::Reply(reply));
            started_over(run.w, run.s)
        }),
{
    reveal(Run::reply_ending);
}

proof fn starts_start_over(
    w: WorkerModel,
    s: SnapshotModel,
    env: SurroundingsModel,
    reply: ReplyModel,
)
    requires
        started_over(w, s),
        activity(w.pending) is Start,
    ensures
        ({
            let run = step(w, s, env, Event::Reply(reply));
            started_over(run.w, run.s)
        }),
{
    reveal(Run::reply_start);
}

proof fn audio_packets_start_over(
    w: WorkerModel,
    s: SnapshotModel,
    env: SurroundingsModel,
    reply: ReplyModel,
)
    requires
        started_over(w, s),
        activity(w.pending) is Audio,
    ensures
        ({
            let run = step(w, s, env, Event::Reply(reply));
            started_over(run.w, run.s)
        }),
{
    reveal(Run::reply_audio);
}

proof fn steps_start_over(
    w: WorkerModel,
    s: SnapshotModel,
    env: SurroundingsModel,
    event: EventModel,
)
    requires
        started_over(w, s),
    ensures
        ({
            let run = step(w, s, env, event);
            started_over(run.w, run.s)
        }),
{
    if let Event::Reply(reply) = event {
        match activity(w.pending) {
            Activity::Resting => {},
            Activity::Cleanup => clean_ups_start_over(w, s, env, reply),
            Activity::Connecting => set_ups_start_over(w, s, env, reply),
            Activity::Timed => timed_replies_start_over(w, s, env, reply),
            Activity::Retry => presses_start_over(w, s, env, reply),
            Activity::Control => control_packets_start_over(w, s, env, reply),
            Activity::Ending => endings_start_over(w, s, env, reply),
            Activity::Start => starts_start_over(w, s, env, reply),
            Activity::Audio => audio_packets_start_over(w, s, env, reply),
        }
    } else {
        messages_start_over(w, s, env, event);
    }
}

proof fn histories_start_over(inputs: Seq<Input>)
    ensures
        started_over(history(inputs).w, history(inputs).s),
    decreases inputs.len(),
{
    if inputs.len() > 0 {
        let past = history(inputs.drop_last());
        let input = inputs.last();
        histories_start_over(inputs.drop_last());
        steps_start_over(past.w, remarked(past.s, input.remark), input.env, input.event);
        assert(history(inputs).w == next(past, input).w);
    }
}

/// Whatever happened before: while the published phase is ready, no reconnect and no restart
/// of the radio counts any more.
pub proof fn ready_connections_have_no_past(inputs: Seq<Input>)
    requires
        history(inputs).s.phase is Ready,
    ensures
        history(inputs).w.backoff.attempt == 0,
        history(inputs).w.radio_recovery_cycles == 0,
        history(inputs).s.reconnect_attempt == 0,
{
    histories_start_over(inputs);
}

} // verus!
