//! The worker goes on: it waits for what it has asked for, the answer takes it on, and
//! what it schedules comes soon.
use crate::deadline::{is_due, Instant, NANOS_PER_MILLI};
use crate::model::{activity, step, Activity, Run, WorkerModel, RECONNECT_MAX_MS};
use crate::protocol::{
    Event, EventModel, Pending, PendingModel, Query, QueryModel, Reply, ReplyModel, Stage,
    SurroundingsModel,
};
use crate::reconnect::delays_are_bounded;
use crate::snapshot::SnapshotModel;
use vstd::prelude::*;

verus! {

/// A worker in that state waits for the answer to that query.
pub open spec fn awaits(pending: PendingModel, query: QueryModel) -> bool {
    match pending {
        Pending::Idle | Pending::Stopped => false,
        Pending::CleaningAudio(_) => query is InterruptAudio,
        Pending::CleaningSession { .. } => query is CloseSession,
        Pending::Connecting { stage, attempt } => match stage {
            Stage::Opening => query == (QueryModel::OpenDevice { device_id: attempt.device_id }),
            Stage::Naming => query is ReadName,
            Stage::Modeling { .. } => query is ReadModel,
            Stage::FindingService(_) => query is FindService,
            Stage::FindingCharacteristic(which, _) => query == QueryModel::FindCharacteristic(
                which,
            ),
            Stage::Subscribing(expected, _) => query matches Query::Subscribe { channel, .. }
                && channel == expected,
            Stage::WatchingLink(_) => query is WatchLink,
            Stage::RequestingCapabilities(_) => query is RequestCapabilities,
        },
        Pending::ConsultingRadioPolicy => query is ConsultRadioPolicy,
        Pending::CyclingRadio => query is CycleRadio,
        Pending::Extending { .. } => query is ExtendMicrophone,
        Pending::RetryComparing(_) => query is CompareMicrophone,
        Pending::RetryReleasing { .. } => query is ReleaseChord,
        Pending::RetryPressing { chord, .. } => query == QueryModel::PressChord(chord),
        Pending::Decoding => query is DecodeControl,
        Pending::OpeningMicrophone => query is OpenMicrophone,
        Pending::StartSettling(_) => query is Sleep,
        Pending::StartReading { .. } => query is ReadMicrophone,
        Pending::StartActivating { .. } => query is ActivateWeType,
        Pending::StartPressing { chord, .. } => query == QueryModel::PressChord(chord),
        Pending::StartingAudio { start, .. } => query == (QueryModel::BeginAudio {
            generation: start.generation,
        }),
        Pending::FinishingAudio { generation } => query == (QueryModel::FinishAudio {
            generation,
        }),
        Pending::CompletingDrain => query is CompleteDrain,
        Pending::Aborting { .. } => query is CloseMicrophone,
        Pending::CheckingAudio { .. } => query is CheckAudio,
        Pending::DecodingAudio => query is DecodeAudio,
        Pending::Enqueueing { .. } => query is EnqueueSamples,
    }
}

/// An answer to that query.
pub open spec fn fits(query: QueryModel, reply: ReplyModel) -> bool {
    match query {
        Query::CloseSession => reply is Closed,
        Query::OpenDevice { .. }
        | Query::FindService
        | Query::FindCharacteristic(_)
        | Query::Subscribe { .. }
        | Query::WatchLink { .. }
        | Query::RequestCapabilities => reply is Attempted,
        Query::ReadName => reply is Named || reply matches Reply::Attempted(Some(_)),
        Query::ReadModel => reply is Model,
        Query::ConsultRadioPolicy { .. } => reply is RadioPolicy,
        Query::ExtendMicrophone { .. }
        | Query::OpenMicrophone { .. }
        | Query::CloseMicrophone { .. } => reply is Written,
        Query::ReadMicrophone => reply is Reading,
        Query::CompareMicrophone { .. } => reply is Compared,
        Query::DecodeControl(_) | Query::DecodeAudio(_) => reply is Decoded || reply
            is DecodeFailed,
        Query::Sleep { .. } => reply is Slept,
        _ => reply is Outcome,
    }
}

/// The worker before a step.
spec fn before(w: WorkerModel, s: SnapshotModel) -> Run {
    Run { w, s, out: Seq::empty(), ask: None }
}

/// What a step from that state asks for is what the worker then waits for.
spec fn waits(w: WorkerModel, s: SnapshotModel, run: Run) -> bool {
    &&& match run.ask {
        Some(query) => awaits(run.w.pending, query),
        None => run.w.pending is Idle || run.w.pending is Stopped || run == before(w, s),
    }
    &&& run.ask matches Some(Query::ExtendMicrophone { .. }) ==> w.pending is Idle
}

/// A reconnect that the step scheduled comes within the longest delay.
spec fn soon(w: WorkerModel, now: Instant, run: Run) -> bool {
    run.w.reconnect_deadline matches Some(deadline) ==> {
        ||| w.reconnect_deadline == Some(deadline)
        ||| now.nanos <= deadline.nanos <= now.nanos + RECONNECT_MAX_MS * NANOS_PER_MILLI
    }
}

/// What an answer leads to: the worker waits for what it then asks, has moved on where
/// the answer fits its query, and reconnects soon.
spec fn goes_on(
    w: WorkerModel,
    s: SnapshotModel,
    env: SurroundingsModel,
    query: QueryModel,
    reply: ReplyModel,
    run: Run,
) -> bool {
    &&& waits(w, s, run)
    &&& awaits(w.pending, query) && fits(query, reply) ==> run.w.pending != w.pending
    &&& w.wf() && env.now.admits(RECONNECT_MAX_MS as int) ==> soon(w, env.now, run)
}

proof fn cleanup_goes_on(
    w: WorkerModel,
    s: SnapshotModel,
    env: SurroundingsModel,
    query: QueryModel,
    reply: ReplyModel,
)
    requires
        activity(w.pending) is Cleanup,
    ensures
        goes_on(w, s, env, query, reply, before(w, s).reply_cleanup(reply, env)),
{
    let next = w.backoff.scheduled();
    delays_are_bounded(next.base, next.max, next.attempt as int);
    reveal(Run::reply_cleanup);
}

proof fn connecting_goes_on(
    w: WorkerModel,
    s: SnapshotModel,
    env: SurroundingsModel,
    query: QueryModel,
    reply: ReplyModel,
)
    requires
        activity(w.pending) is Connecting,
    ensures
        goes_on(w, s, env, query, reply, before(w, s).reply_connecting(reply, env)),
{
    let next = w.backoff.scheduled();
    delays_are_bounded(next.base, next.max, next.attempt as int);
    reveal(Run::reply_connecting);
}

proof fn timed_goes_on(
    w: WorkerModel,
    s: SnapshotModel,
    env: SurroundingsModel,
    query: QueryModel,
    reply: ReplyModel,
)
    requires
        activity(w.pending) is Timed,
    ensures
        goes_on(w, s, env, query, reply, before(w, s).reply_timed(reply, env)),
{
    let next = w.backoff.scheduled();
    delays_are_bounded(next.base, next.max, next.attempt as int);
    reveal(Run::reply_timed);
}

proof fn retry_goes_on(
    w: WorkerModel,
    s: SnapshotModel,
    env: SurroundingsModel,
    query: QueryModel,
    reply: ReplyModel,
)
    requires
        activity(w.pending) is Retry,
    ensures
        goes_on(w, s, env, query, reply, before(w, s).reply_retry(reply, env)),
{
    let next = w.backoff.scheduled();
    delays_are_bounded(next.base, next.max, next.attempt as int);
    reveal(Run::reply_retry);
}

proof fn control_goes_on(
    w: WorkerModel,
    s: SnapshotModel,
    env: SurroundingsModel,
    query: QueryModel,
    reply: ReplyModel,
)
    requires
        activity(w.pending) is Control,
    ensures
        goes_on(w, s, env, query, reply, before(w, s).reply_control(reply, env)),
{
    let next = w.backoff.scheduled();
    delays_are_bounded(next.base, next.max, next.attempt as int);
    reveal(Run::reply_control);
}

proof fn ending_goes_on(
    w: WorkerModel,
    s: SnapshotModel,
    env: SurroundingsModel,
    query: QueryModel,
    reply: ReplyModel,
)
    requires
        activity(w.pending) is Ending,
    ensures
        goes_on(w, s, env, query, reply, before(w, s).reply_ending(reply, env)),
{
    let next = w.backoff.scheduled();
    delays_are_bounded(next.base, next.max, next.attempt as int);
    reveal(Run::reply_ending);
}

proof fn start_goes_on(
    w: WorkerModel,
    s: SnapshotModel,
    env: SurroundingsModel,
    query: QueryModel,
    reply: ReplyModel,
)
    requires
        activity(w.pending) is Start,
    ensures
        goes_on(w, s, env, query, reply, before(w, s).reply_start(reply, env)),
{
    let next = w.backoff.scheduled();
    delays_are_bounded(next.base, next.max, next.attempt as int);
    reveal(Run::reply_start);
}

proof fn audio_goes_on(
    w: WorkerModel,
    s: SnapshotModel,
    env: SurroundingsModel,
    query: QueryModel,
    reply: ReplyModel,
)
    requires
        activity(w.pending) is Audio,
    ensures
        goes_on(w, s, env, query, reply, before(w, s).reply_audio(reply, env)),
{
    let next = w.backoff.scheduled();
    delays_are_bounded(next.base, next.max, next.attempt as int);
    reveal(Run::reply_audio);
}

proof fn replies_go_on(
    w: WorkerModel,
    s: SnapshotModel,
    env: SurroundingsModel,
    query: QueryModel,
    reply: ReplyModel,
)
    ensures
        goes_on(w, s, env, query, reply, before(w, s).on_reply(reply, env)),
{
    match activity(w.pending) {
        Activity::Resting => {},
        Activity::Cleanup => cleanup_goes_on(w, s, env, query, reply),
        Activity::Connecting => connecting_goes_on(w, s, env, query, reply),
        Activity::Timed => timed_goes_on(w, s, env, query, reply),
        Activity::Retry => retry_goes_on(w, s, env, query, reply),
        Activity::Control => control_goes_on(w, s, env, query, reply),
        Activity::Ending => ending_goes_on(w, s, env, query, reply),
        Activity::Start => start_goes_on(w, s, env, query, reply),
        Activity::Audio => audio_goes_on(w, s, env, query, reply),
    }
}

proof fn steps_wait(w: WorkerModel, s: SnapshotModel, env: SurroundingsModel, event: EventModel)
    ensures
        waits(w, s, step(w, s, env, event)),
{
    if let Event::Reply(reply) = event {
        replies_go_on(w, s, env, QueryModel::InterruptAudio, reply);
    }
}

/// A voice session is extended only while it streams over a connection, and only when
/// that is due.
pub proof fn only_streams_are_extended(
    w: WorkerModel,
    s: SnapshotModel,
    env: SurroundingsModel,
    event: EventModel,
)
    requires
        step(w, s, env, event).ask matches Some(Query::ExtendMicrophone { .. }),
    ensures
        event is Timeout,
        env.pipeline.state is Streaming,
        w.session is Some,
        is_due(w.extend_deadline, env.now),
{
    steps_wait(w, s, env, event);
}

/// A worker that has asked waits for the answer, and one that has not asked is ready for
/// the next message; only an event that it does not wait for leaves it as it is.
pub proof fn workers_wait_for_what_they_ask(
    w: WorkerModel,
    s: SnapshotModel,
    env: SurroundingsModel,
    event: EventModel,
)
    ensures
        match step(w, s, env, event).ask {
            Some(query) => awaits(step(w, s, env, event).w.pending, query),
            None => {
                ||| step(w, s, env, event).w.pending is Idle
                ||| step(w, s, env, event).w.pending is Stopped
                ||| step(w, s, env, event) == (Run { w, s, out: Seq::empty(), ask: None })
            },
        },
{
    steps_wait(w, s, env, event);
}

/// An answer to its query takes the worker on.
pub proof fn answers_take_the_worker_on(
    w: WorkerModel,
    s: SnapshotModel,
    env: SurroundingsModel,
    query: QueryModel,
    reply: ReplyModel,
)
    requires
        awaits(w.pending, query),
        fits(query, reply),
    ensures
        step(w, s, env, Event::Reply(reply)).w.pending != w.pending,
{
    replies_go_on(w, s, env, query, reply);
}

/// A worker that schedules a reconnect schedules it within the longest delay of its
/// backoff, and never in the past.
pub proof fn reconnects_come_soon(
    w: WorkerModel,
    s: SnapshotModel,
    env: SurroundingsModel,
    event: EventModel,
)
    requires
        w.wf(),
        env.now.admits(RECONNECT_MAX_MS as int),
    ensures
        step(w, s, env, event).w.reconnect_deadline matches Some(deadline) ==> {
            ||| w.reconnect_deadline == Some(deadline)
            ||| env.now.nanos <= deadline.nanos <= env.now.nanos + RECONNECT_MAX_MS
                * NANOS_PER_MILLI
        },
{
    let next = w.backoff.scheduled();
    delays_are_bounded(next.base, next.max, next.attempt as int);
    if let Event::Reply(reply) = event {
        replies_go_on(w, s, env, QueryModel::InterruptAudio, reply);
    }
}

} // verus!
