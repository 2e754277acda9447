//! Answers that nobody waits for.
use crate::model::{activity, step, Activity, Run, WorkerModel};
use crate::protocol::{Event, Pending, PendingModel, Reply, ReplyModel, SurroundingsModel};
use crate::snapshot::SnapshotModel;
use vstd::prelude::*;

verus! {

/// The kind of answer that the worker waits for.
pub open spec fn expects(pending: PendingModel, reply: ReplyModel) -> bool {
    match pending {
        Pending::Idle | Pending::Stopped => false,
        Pending::CleaningSession { .. } => reply is Closed,
        Pending::Connecting { stage, .. } => {
            if stage is Naming {
                reply is Named || reply matches Reply::Attempted(Some(_))
            } else if stage is Modeling {
                reply is Model
            } else {
                reply is Attempted
            }
        },
        Pending::ConsultingRadioPolicy => reply is RadioPolicy,
        Pending::Extending { .. }
        | Pending::OpeningMicrophone
        | Pending::Aborting { .. } => reply is Written,
        Pending::RetryComparing(_) => reply is Compared,
        Pending::Decoding | Pending::DecodingAudio => reply is Decoded || reply is DecodeFailed,
        Pending::StartSettling(_) => reply is Slept,
        Pending::StartReading { .. } => reply is Reading,
        _ => reply is Outcome,
    }
}

proof fn cleanup_ignores(
    w: WorkerModel,
    s: SnapshotModel,
    env: SurroundingsModel,
    reply: ReplyModel,
)
    requires
        !expects(w.pending, reply),
        activity(w.pending) is Cleanup,
    ensures
        step(w, s, env, Event::Reply(reply)) == (Run { w, s, out: Seq::empty(), ask: None }),
{
    reveal(Run::reply_cleanup);
}

proof fn connecting_ignores(
    w: WorkerModel,
    s: SnapshotModel,
    env: SurroundingsModel,
    reply: ReplyModel,
)
    requires
        !expects(w.pending, reply),
        activity(w.pending) is Connecting,
    ensures
        step(w, s, env, Event::Reply(reply)) == (Run { w, s, out: Seq::empty(), ask: None }),
{
    reveal(Run::reply_connecting);
}

proof fn timed_ignores(
    w: WorkerModel,
    s: SnapshotModel,
    env: SurroundingsModel,
    reply: ReplyModel,
)
    requires
        !expects(w.pending, reply),
        activity(w.pending) is Timed,
    ensures
        step(w, s, env, Event::Reply(reply)) == (Run { w, s, out: Seq::empty(), ask: None }),
{
    reveal(Run::reply_timed);
}

proof fn retry_ignores(
    w: WorkerModel,
    s: SnapshotModel,
    env: SurroundingsModel,
    reply: ReplyModel,
)
    requires
        !expects(w.pending, reply),
        activity(w.pending) is Retry,
    ensures
        step(w, s, env, Event::Reply(reply)) == (Run { w, s, out: Seq::empty(), ask: None }),
{
    reveal(Run::reply_retry);
}

proof fn control_ignores(
    w: WorkerModel,
    s: SnapshotModel,
    env: SurroundingsModel,
    reply: ReplyModel,
)
    requires
        !expects(w.pending, reply),
        activity(w.pending) is Control,
    ensures
        step(w, s, env, Event::Reply(reply)) == (Run { w, s, out: Seq::empty(), ask: None }),
{
    reveal(Run::reply_control);
}

proof fn ending_ignores(
    w: WorkerModel,
    s: SnapshotModel,
    env: SurroundingsModel,
    reply: ReplyModel,
)
    requires
        !expects(w.pending, reply),
        activity(w.pending) is Ending,
    ensures
        step(w, s, env, Event::Reply(reply)) == (Run { w, s, out: Seq::empty(), ask: None }),
{
    reveal(Run::reply_ending);
}

proof fn start_ignores(
    w: WorkerModel,
    s: SnapshotModel,
    env: SurroundingsModel,
    reply: ReplyModel,
)
    requires
        !expects(w.pending, reply),
        activity(w.pending) is Start,
    ensures
        step(w, s, env, Event::Reply(reply)) == (Run { w, s, out: Seq::empty(), ask: None }),
{
    reveal(Run::reply_start);
}

proof fn audio_ignores(
    w: WorkerModel,
    s: SnapshotModel,
    env: SurroundingsModel,
    reply: ReplyModel,
)
    requires
        !expects(w.pending, reply),
        activity(w.pending) is Audio,
    ensures
        step(w, s, env, Event::Reply(reply)) == (Run { w, s, out: Seq::empty(), ask: None }),
{
    reveal(Run::reply_audio);
}

/// An answer of another kind than the one that is waited for changes nothing.
pub proof fn unexpected_answers_change_nothing(
    w: WorkerModel,
    s: SnapshotModel,
    env: SurroundingsModel,
    reply: ReplyModel,
)
    requires
        !expects(w.pending, reply),
    ensures
        step(w, s, env, Event::Reply(reply)) == (Run { w, s, out: Seq::empty(), ask: None }),
{
    match activity(w.pending) {
        Activity::Resting => {},
        Activity::Cleanup => cleanup_ignores(w, s, env, reply),
        Activity::Connecting => connecting_ignores(w, s, env, reply),
        Activity::Timed => timed_ignores(w, s, env, reply),
        Activity::Retry => retry_ignores(w, s, env, reply),
        Activity::Control => control_ignores(w, s, env, reply),
        Activity::Ending => ending_ignores(w, s, env, reply),
        Activity::Start => start_ignores(w, s, env, reply),
        Activity::Audio => audio_ignores(w, s, env, reply),
    }
}

} // verus!
