//! A worker whose system sleeps leaves the remote alone.
use crate::conduct::sleep_cancels_what_is_scheduled;
use crate::model::{activity, step, Activity, Run, WorkerModel};
use crate::protocol::{
    After, Event, EventModel, Message, Pending, PendingModel, QueryModel, Reply, ReplyModel,
    SurroundingsModel,
};
use crate::renewal::under_way;
use crate::snapshot::SnapshotModel;
use crate::teardown::{clean_up_errors_are_listed, closing_errors_are_listed};
use vstd::prelude::*;

verus! {

/// The worker cleans up before an attempt to connect.
pub open spec fn about_to_connect(pending: PendingModel) -> bool {
    match pending {
        Pending::CleaningAudio(After::Connect(_)) => true,
        Pending::CleaningSession { after: After::Connect(_), .. } => true,
        _ => false,
    }
}

/// The system sleeps, and nothing is on its way that would lead to a connection.
pub open spec fn asleep(w: WorkerModel) -> bool {
    &&& w.system_suspended
    &&& w.reconnect_deadline is None
    &&& !under_way(w.pending)
    &&& !about_to_connect(w.pending)
}

/// The answer says that something could not be cleaned up.
pub open spec fn stays_behind(pending: PendingModel, reply: ReplyModel) -> bool {
    match (pending, reply) {
        (Pending::CleaningAudio(_), Reply::Outcome(error)) => error is Some,
        (Pending::CleaningSession { audio_error, .. }, Reply::Closed(report)) => {
            ||| audio_error is Some
            ||| report.audio_handler is Some
            ||| report.control_handler is Some
            ||| report.link_handler is Some
            ||| report.service is Some
            ||| report.device is Some
        },
        _ => false,
    }
}

/// The event wakes the worker: the system or the user says so, or a clean-up has to be
/// made again.
pub open spec fn rouses(w: WorkerModel, event: EventModel) -> bool {
    match event {
        Event::Message(message) => message is Connect || message is Disconnect || message
            is SystemResumed,
        Event::Reply(reply) => stays_behind(w.pending, reply),
        Event::Timeout => false,
    }
}

/// A worker whose system goes to sleep is asleep, whatever was scheduled before.
pub proof fn suspended_workers_fall_asleep(
    w: WorkerModel,
    s: SnapshotModel,
    env: SurroundingsModel,
)
    requires
        w.pending is Idle,
    ensures
        asleep(step(w, s, env, Event::Message(Message::SystemSuspended)).w),
{
    sleep_cancels_what_is_scheduled(w, s, env);
}

/// What a step of a sleeping worker keeps to.
spec fn sleeps_on(run: Run) -> bool {
    &&& asleep(run.w)
    &&& !(run.ask matches Some(QueryModel::OpenDevice { .. }))
}

proof fn messages_let_sleep(
    w: WorkerModel,
    s: SnapshotModel,
    env: SurroundingsModel,
    event: EventModel,
)
    requires
        asleep(w),
        !rouses(w, event),
        !(event is Reply),
    ensures
        sleeps_on(step(w, s, env, event)),
{
}

proof fn clean_ups_let_sleep(
    w: WorkerModel,
    s: SnapshotModel,
    env: SurroundingsModel,
    reply: ReplyModel,
)
    requires
        asleep(w),
        !stays_behind(w.pending, reply),
        activity(w.pending) is Cleanup,
    ensures
        sleeps_on(step(w, s, env, Event::Reply(reply))),
{
    reveal(Run::reply_cleanup);
    clean_up_errors_are_listed(None, None);
    if let Reply::Closed(report) = reply {
        closing_errors_are_listed(report);
    }
}

proof fn voice_lets_sleep(
    w: WorkerModel,
    s: SnapshotModel,
    env: SurroundingsModel,
    reply: ReplyModel,
)
    requires
        asleep(w),
        activity(w.pending) is Control || activity(w.pending) is Ending,
    ensures
        sleeps_on(step(w, s, env, Event::Reply(reply))),
{
    reveal(Run::reply_control);
    reveal(Run::reply_ending);
}

proof fn other_replies_let_sleep(
    w: WorkerModel,
    s: SnapshotModel,
    env: SurroundingsModel,
    reply: ReplyModel,
)
    requires
        asleep(w),
        activity(w.pending) is Timed || activity(w.pending) is Retry || activity(w.pending)
            is Start || activity(w.pending) is Audio,
    ensures
        sleeps_on(step(w, s, env, Event::Reply(reply))),
{
    reveal(Run::reply_timed);
    reveal(Run::reply_retry);
    reveal(Run::reply_start);
    reveal(Run::reply_audio);
}

/// A sleeping worker stays asleep and opens no device, however much time passes and
/// whatever it is told, until the system wakes up, the user connects or disconnects, or
/// something could not be cleaned up.
pub proof fn sleeping_workers_do_not_connect(
    w: WorkerModel,
    s: SnapshotModel,
    env: SurroundingsModel,
    event: EventModel,
)
    requires
        asleep(w),
        !rouses(w, event),
    ensures
        asleep(step(w, s, env, event).w),
        !(step(w, s, env, event).ask matches Some(QueryModel::OpenDevice { .. })),
{
    if let Event::Reply(reply) = event {
        match activity(w.pending) {
            Activity::Resting | Activity::Connecting => {},
            Activity::Cleanup => clean_ups_let_sleep(w, s, env, reply),
            Activity::Control | Activity::Ending => voice_lets_sleep(w, s, env, reply),
            _ => other_replies_let_sleep(w, s, env, reply),
        }
    } else {
        messages_let_sleep(w, s, env, event);
    }
}

} // verus!
