//! How requests end.
use crate::error::{failure_text, Failure, FailureModel};
use crate::laws::consistent;
use crate::model::{
    cleanup_error, cleanup_reason, close_error, reconnect_text, step, Run, WorkerModel,
    RECONNECT_BASE_MS, RECONNECT_MAX_MS,
};
use crate::protocol::{
    After, Attempt, CloseReport, CommandModel, Event, Message, Pending, PendingModel, QueryModel,
    Reply, Session, Stage, SurroundingsModel,
};
use crate::reconnect::delays_grow_to_the_bound;
use crate::snapshot::{blank, failed, SnapshotModel};
use vstd::prelude::*;

verus! {

/// Why the worker reconnects after a failure.
pub open spec fn retry_reason(failure: FailureModel) -> Seq<char> {
    if failure is BleCleanup {
        cleanup_reason(failure)
    } else {
        failure_text(failure)
    }
}

/// A request to connect has failed: the answer says why, the device stays wanted, and the
/// first reconnect is scheduled after the shortest delay and published.
pub open spec fn told_and_retried(
    run: Run,
    device_id: Seq<char>,
    env: SurroundingsModel,
    failure: FailureModel,
) -> bool {
    &&& run.out.last() == CommandModel::Answer(Err(failure))
    &&& run.ask is None
    &&& run.w.pending is Idle
    &&& run.w.preferred_device_id == Some(device_id)
    &&& run.w.wants_connection()
    &&& run.w.reconnect_deadline == Some(env.now.later(RECONNECT_BASE_MS as int))
    &&& run.s.phase is Reconnecting
    &&& run.s.reconnect_attempt == 1
    &&& run.s.last_error == Some(reconnect_text(retry_reason(failure), 2, 1))
}

/// A request to connect whose set-up fails, at whatever stage, is answered with what went
/// wrong, and the worker goes on trying by itself.
pub proof fn failed_connects_are_told_and_retried(
    w: WorkerModel,
    s: SnapshotModel,
    env: SurroundingsModel,
    stage: Stage<Seq<char>>,
    attempt: Attempt<Seq<char>>,
    failure: FailureModel,
)
    requires
        consistent(w),
        w.pending == (PendingModel::Connecting { stage, attempt }),
        attempt.requested,
        !(stage is Modeling),
    ensures
        told_and_retried(
            step(w, s, env, Event::Reply(Reply::Attempted(Some(failure)))),
            attempt.device_id,
            env,
            failure,
        ),
{
    delays_grow_to_the_bound(RECONNECT_BASE_MS, RECONNECT_MAX_MS, 1);
    reveal(Run::reply_connecting);
}

/// The error of a clean-up of which both parts are known; where there is no connection,
/// none can fail to close.
pub open spec fn error_of_clean_up(
    session: Option<Session<Seq<char>>>,
    audio_error: Option<Seq<char>>,
    report: CloseReport<Seq<char>>,
) -> Option<Seq<char>> {
    cleanup_error(
        audio_error,
        if session is Some {
            close_error(report)
        } else {
            None
        },
    )
}

/// What is left of a connection after a clean-up: nothing, or what could not be closed.
pub open spec fn remains(
    session: Option<Session<Seq<char>>>,
    report: CloseReport<Seq<char>>,
) -> Option<Session<Seq<char>>> {
    match session {
        Some(session) if close_error(report) is Some => Some(
            Session { cleanup_failure: close_error(report), ..session },
        ),
        _ => None,
    }
}

/// The steps of a clean-up that a request began: the audio has been interrupted, and the
/// connection closed where there was one.
pub open spec fn cleaned_up(
    told: Run,
    envs: (SurroundingsModel, SurroundingsModel),
    audio_error: Option<Seq<char>>,
    report: CloseReport<Seq<char>>,
) -> Run {
    let interrupted = step(told.w, told.s, envs.0, Event::Reply(Reply::Outcome(audio_error)));
    if told.w.session is Some {
        step(interrupted.w, interrupted.s, envs.1, Event::Reply(Reply::Closed(report)))
    } else {
        interrupted
    }
}

/// The surroundings of the last step of a clean-up.
pub open spec fn last_env(
    w: WorkerModel,
    envs: (SurroundingsModel, SurroundingsModel),
) -> SurroundingsModel {
    if w.session is Some {
        envs.1
    } else {
        envs.0
    }
}

/// The worker takes a connection down so that it can set up the one that was asked for.
spec fn making_way(w: WorkerModel, pending: PendingModel, device_id: Seq<char>) -> bool {
    &&& w.wf()
    &&& w.pending == pending
    &&& w.preferred_device_id == Some(device_id)
    &&& !w.system_suspended
    &&& w.backoff.attempt == 0
}

/// The attempt of a request.
pub open spec fn requested(device_id: Seq<char>) -> Attempt<Seq<char>> {
    Attempt { requested: true, device_id, number: 0 }
}

/// How the clean-up before a requested connection ends.
spec fn way_made(
    run: Run,
    device_id: Seq<char>,
    env: SurroundingsModel,
    error: Option<Seq<char>>,
) -> bool {
    match error {
        Some(error) => told_and_retried(run, device_id, env, Failure::BleCleanup(error)),
        None => {
            &&& run.ask == Some(QueryModel::OpenDevice { device_id })
            &&& run.w.pending == (PendingModel::Connecting {
                stage: Stage::Opening,
                attempt: requested(device_id),
            })
            &&& run.w.session is None
            &&& run.s.phase is Connecting
        },
    }
}

proof fn connects_begin(
    w: WorkerModel,
    s: SnapshotModel,
    env: SurroundingsModel,
    device_id: Seq<char>,
)
    requires
        w.wf(),
        w.pending is Idle,
    ensures
        ({
            let told = step(w, s, env, Event::Message(Message::Connect { device_id }));
            &&& told.ask == Some(QueryModel::InterruptAudio)
            &&& told.w.session == w.session
            &&& making_way(
                told.w,
                Pending::CleaningAudio(After::Connect(requested(device_id))),
                device_id,
            )
        }),
{
}

proof fn ways_are_half_made(
    w: WorkerModel,
    s: SnapshotModel,
    env: SurroundingsModel,
    device_id: Seq<char>,
    audio_error: Option<Seq<char>>,
)
    requires
        making_way(w, Pending::CleaningAudio(After::Connect(requested(device_id))), device_id),
    ensures
        ({
            let run = step(w, s, env, Event::Reply(Reply::Outcome(audio_error)));
            if w.session is Some {
                &&& run.ask == Some(QueryModel::CloseSession)
                &&& run.w.session == w.session
                &&& making_way(
                    run.w,
                    Pending::CleaningSession {
                        after: After::Connect(requested(device_id)),
                        audio_error,
                    },
                    device_id,
                )
            } else {
                way_made(run, device_id, env, cleanup_error(audio_error, None))
            }
        }),
{
    delays_grow_to_the_bound(RECONNECT_BASE_MS, RECONNECT_MAX_MS, 1);
    reveal(Run::reply_cleanup);
}

proof fn ways_are_made(
    w: WorkerModel,
    s: SnapshotModel,
    env: SurroundingsModel,
    device_id: Seq<char>,
    audio_error: Option<Seq<char>>,
    report: CloseReport<Seq<char>>,
)
    requires
        w.session is Some,
        making_way(
            w,
            Pending::CleaningSession {
                after: After::Connect(requested(device_id)),
                audio_error,
            },
            device_id,
        ),
    ensures
        ({
            let run = step(w, s, env, Event::Reply(Reply::Closed(report)));
            &&& way_made(run, device_id, env, cleanup_error(audio_error, close_error(report)))
            &&& run.w.session == remains(w.session, report)
        }),
{
    delays_grow_to_the_bound(RECONNECT_BASE_MS, RECONNECT_MAX_MS, 1);
    reveal(Run::reply_cleanup);
}

/// A request to connect cleans up first. Where that fails, the answer says what went
/// wrong, what could not be closed is kept, and the worker goes on trying by itself; where
/// it succeeds, the device is opened.
pub proof fn connects_clean_up_first(
    w: WorkerModel,
    s: SnapshotModel,
    env: SurroundingsModel,
    envs: (SurroundingsModel, SurroundingsModel),
    device_id: Seq<char>,
    audio_error: Option<Seq<char>>,
    report: CloseReport<Seq<char>>,
)
    requires
        w.wf(),
        w.pending is Idle,
    ensures
        ({
            let told = step(w, s, env, Event::Message(Message::Connect { device_id }));
            let end = cleaned_up(told, envs, audio_error, report);
            &&& told.ask == Some(QueryModel::InterruptAudio)
            &&& end.w.session == remains(w.session, report)
            &&& match error_of_clean_up(w.session, audio_error, report) {
                Some(error) => told_and_retried(
                    end,
                    device_id,
                    last_env(w, envs),
                    Failure::BleCleanup(error),
                ),
                None => end.ask == Some(QueryModel::OpenDevice { device_id }) && end.s.phase
                    is Connecting,
            }
        }),
{
    let told = step(w, s, env, Event::Message(Message::Connect { device_id }));
    let interrupted = step(told.w, told.s, envs.0, Event::Reply(Reply::Outcome(audio_error)));
    connects_begin(w, s, env, device_id);
    ways_are_half_made(told.w, told.s, envs.0, device_id, audio_error);
    if w.session is Some {
        ways_are_made(interrupted.w, interrupted.s, envs.1, device_id, audio_error, report);
    } else {
        sessions_do_not_appear(told.w, told.s, envs.0, audio_error);
    }
}

proof fn sessions_do_not_appear(
    w: WorkerModel,
    s: SnapshotModel,
    env: SurroundingsModel,
    audio_error: Option<Seq<char>>,
)
    requires
        w.pending is CleaningAudio,
        w.session is None,
    ensures
        step(w, s, env, Event::Reply(Reply::Outcome(audio_error))).w.session is None,
{
    reveal(Run::reply_cleanup);
}

/// The worker takes a connection down because the user wants to be disconnected.
spec fn disconnecting(w: WorkerModel, pending: PendingModel) -> bool {
    &&& w.pending == pending
    &&& w.preferred_device_id is None
    &&& w.reconnect_deadline is None
}

/// The worker has been told to disconnect and is done: nothing is wanted and nothing is
/// scheduled. Where the clean-up succeeded, the published state is blank; where it did
/// not, it is the failure. The answer says the same.
pub open spec fn disconnected(run: Run, error: Option<Seq<char>>) -> bool {
    &&& run.ask is None
    &&& run.w.pending is Idle
    &&& run.w.preferred_device_id is None
    &&& run.w.reconnect_deadline is None
    &&& match error {
        None => run.s == blank() && run.out.last() == CommandModel::Answer(Ok(blank())),
        Some(error) => run.s == failed(error) && run.out.last() == CommandModel::Answer(
            Err(Failure::BleCleanup(error)),
        ),
    }
}

proof fn disconnects_begin(w: WorkerModel, s: SnapshotModel, env: SurroundingsModel)
    requires
        w.pending is Idle,
    ensures
        ({
            let told = step(w, s, env, Event::Message(Message::Disconnect));
            &&& told.ask == Some(QueryModel::InterruptAudio)
            &&& told.w.session == w.session
            &&& disconnecting(told.w, Pending::CleaningAudio(After::Disconnect))
        }),
{
}

proof fn disconnects_go_on(
    w: WorkerModel,
    s: SnapshotModel,
    env: SurroundingsModel,
    audio_error: Option<Seq<char>>,
)
    requires
        disconnecting(w, Pending::CleaningAudio(After::Disconnect)),
    ensures
        ({
            let run = step(w, s, env, Event::Reply(Reply::Outcome(audio_error)));
            if w.session is Some {
                &&& run.ask == Some(QueryModel::CloseSession)
                &&& run.w.session == w.session
                &&& disconnecting(
                    run.w,
                    Pending::CleaningSession { after: After::Disconnect, audio_error },
                )
            } else {
                disconnected(run, cleanup_error(audio_error, None))
            }
        }),
{
    reveal(Run::reply_cleanup);
}

proof fn disconnects_end(
    w: WorkerModel,
    s: SnapshotModel,
    env: SurroundingsModel,
    audio_error: Option<Seq<char>>,
    report: CloseReport<Seq<char>>,
)
    requires
        w.session is Some,
        disconnecting(w, Pending::CleaningSession { after: After::Disconnect, audio_error }),
    ensures
        ({
            let run = step(w, s, env, Event::Reply(Reply::Closed(report)));
            &&& disconnected(run, cleanup_error(audio_error, close_error(report)))
            &&& run.w.session == remains(w.session, report)
        }),
{
    reveal(Run::reply_cleanup);
}

/// A request to disconnect stops everything, whether or not the clean-up succeeds:
/// nothing is wanted and nothing is scheduled any more. After a clean-up that succeeded
/// nothing is left of the connection, the published state is blank and the answer says
/// so; after one that failed, the failure is published and answered, and what could not be
/// closed is kept for the next clean-up.
pub proof fn disconnects_stop_everything(
    w: WorkerModel,
    s: SnapshotModel,
    env: SurroundingsModel,
    envs: (SurroundingsModel, SurroundingsModel),
    audio_error: Option<Seq<char>>,
    report: CloseReport<Seq<char>>,
)
    requires
        w.pending is Idle,
    ensures
        ({
            let told = step(w, s, env, Event::Message(Message::Disconnect));
            let end = cleaned_up(told, envs, audio_error, report);
            &&& told.ask == Some(QueryModel::InterruptAudio)
            &&& disconnected(end, error_of_clean_up(w.session, audio_error, report))
            &&& end.w.session == remains(w.session, report)
        }),
{
    let told = step(w, s, env, Event::Message(Message::Disconnect));
    let interrupted = step(told.w, told.s, envs.0, Event::Reply(Reply::Outcome(audio_error)));
    disconnects_begin(w, s, env);
    disconnects_go_on(told.w, told.s, envs.0, audio_error);
    if w.session is Some {
        disconnects_end(interrupted.w, interrupted.s, envs.1, audio_error, report);
    } else {
        sessions_do_not_appear(told.w, told.s, envs.0, audio_error);
    }
}

} // verus!
