//! How clean-ups go on and end.
use crate::conduct::{empty_state, only_asks};
use crate::deadline::Instant;
use crate::error::{failure_text, Failure};
use crate::model::{cleanup_error, close_error, labelled, step, Run, WorkerModel};
use crate::protocol::{
    After, CloseReport, Command, CommandModel, Event, Pending, PendingModel, Query,
    QueryModel, Reply, Session, Stage, SurroundingsModel,
};
use crate::reconnect::{first_delays, BackoffModel};
use crate::snapshot::{ConnectionPhase, Snapshot, SnapshotModel, VoiceSessionState};
use crate::text::{decimal_text, lists_begin_with_their_first};
use vstd::prelude::*;

verus! {

/// The delay in seconds before the next reconnect, after a number of them.
pub open spec fn pause_after(attempts: u32) -> int {
    if attempts == 0 {
        2
    } else if attempts == 1 {
        4
    } else if attempts == 2 {
        8
    } else if attempts == 3 {
        16
    } else {
        30
    }
}

/// The number of the next reconnect, after a number of them.
pub open spec fn number_after(attempts: u32) -> u32 {
    if attempts == 0xffff_ffff {
        attempts
    } else {
        (attempts + 1) as u32
    }
}

/// The delays are the fixed ones and the clock has room for them.
pub open spec fn paced(w: WorkerModel, env: SurroundingsModel) -> bool {
    &&& w.backoff.base == 2_000
    &&& w.backoff.max == 30_000
    &&& env.now.nanos + 30_000_000_000 <= 0xffff_ffff_ffff_ffff
}

/// A worker like `w` that has scheduled its next reconnect.
pub open spec fn waiting(w: WorkerModel, env: SurroundingsModel) -> WorkerModel {
    WorkerModel {
        backoff: BackoffModel { attempt: number_after(w.backoff.attempt), ..w.backoff },
        reconnect_deadline: Some(
            Instant {
                nanos: (env.now.nanos + pause_after(w.backoff.attempt) * 1_000_000_000) as u64,
            },
        ),
        ..w
    }
}

/// What is published while a worker like `w` waits for its next reconnect: why, how long
/// and which number it has.
pub open spec fn shown_waiting(
    w: WorkerModel,
    s: SnapshotModel,
    reason: Seq<char>,
) -> SnapshotModel {
    Snapshot {
        phase: ConnectionPhase::Reconnecting,
        capabilities: None,
        voice_state: VoiceSessionState::Idle,
        generation: 0,
        reconnect_attempt: number_after(w.backoff.attempt),
        last_error: Some(
            reason + "；将在 "@ + decimal_text(pause_after(w.backoff.attempt) as nat)
                + " 秒后进行第 "@ + decimal_text(number_after(w.backoff.attempt) as nat)
                + " 次重连"@,
        ),
        ..s
    }
}

/// The step ends with a reconnect scheduled, after the commands `out` and before `told`.
pub open spec fn reconnects(
    w: WorkerModel,
    s: SnapshotModel,
    env: SurroundingsModel,
    reason: Seq<char>,
    out: Seq<CommandModel>,
    told: Seq<CommandModel>,
    run: Run,
) -> bool {
    &&& run.w == waiting(w, env)
    &&& run.s == shown_waiting(w, s, reason)
    &&& run.out =~= out.push(Command::SetRemoteGate(true)) + told
    &&& run.ask is None
}

/// The step ends with `s` published, after the commands `out` and before `told`.
pub open spec fn shows(
    w: WorkerModel,
    s: SnapshotModel,
    gate: bool,
    out: Seq<CommandModel>,
    told: Seq<CommandModel>,
    run: Run,
) -> bool {
    &&& run.w == w
    &&& run.s == s
    &&& run.out =~= out.push(Command::SetRemoteGate(gate)) + told
    &&& run.ask is None
}

/// A state of failure that shows nothing but the error.
pub open spec fn failure_state(error: Seq<char>) -> SnapshotModel {
    Snapshot { phase: ConnectionPhase::Failed, last_error: Some(error), ..empty_state() }
}

/// Why a reconnect follows a clean-up with an error.
pub open spec fn unclean(error: Seq<char>) -> Seq<char> {
    failure_text(Failure::BleCleanup(error))
        + "；旧会话清理失败，将继续重试并再次清理"@
}

/// What every clean-up does in the end.
pub open spec fn reset_commands() -> Seq<CommandModel> {
    seq![Command::InterruptPipeline, Command::ResetPipeline]
}

/// The pieces of a connection are closed after the audio, where there is a connection.
pub proof fn connections_are_closed_after_the_audio(
    w: WorkerModel,
    s: SnapshotModel,
    env: SurroundingsModel,
    after: After<Seq<char>>,
    audio_error: Option<Seq<char>>,
)
    requires
        w.pending == PendingModel::CleaningAudio(after),
        w.session is Some,
    ensures
        only_asks(
            w,
            s,
            Pending::CleaningSession { after, audio_error },
            Query::CloseSession,
            step(w, s, env, Event::Reply(Reply::Outcome(audio_error))),
        ),
{
    reveal(Run::reply_cleanup);
}

/// A clean-up without errors that a lost connection led to: a wanted device is reconnected
/// to while the system is awake, for the given reason; else the state shows that reason.
pub open spec fn loses(
    w: WorkerModel,
    s: SnapshotModel,
    env: SurroundingsModel,
    reason: Seq<char>,
    otherwise: SnapshotModel,
    run: Run,
) -> bool {
    if w.preferred_device_id is Some && !w.system_suspended {
        reconnects(w, s, env, reason, reset_commands(), Seq::empty(), run)
    } else {
        shows(w, otherwise, false, reset_commands(), Seq::empty(), run)
    }
}

/// How a clean-up without errors ends for a worker like `w`.
pub open spec fn ends_cleanly(
    w: WorkerModel,
    s: SnapshotModel,
    env: SurroundingsModel,
    after: After<Seq<char>>,
    run: Run,
) -> bool {
    match after {
        After::CapabilitiesTimeout => loses(
            w,
            s,
            env,
            "等待小米语音遥控器返回 ATVV 能力超时"@,
            failure_state("等待小米语音遥控器返回 ATVV 能力超时"@),
            run,
        ),
        After::CallbackFailed { error } => loses(w, s, env, error, failure_state(error), run),
        After::LinkLost => loses(
            w,
            s,
            env,
            "小米语音遥控器蓝牙连接已断开"@,
            Snapshot {
                phase: ConnectionPhase::Disconnected,
                voice_state: VoiceSessionState::Idle,
                last_error: Some("小米语音遥控器蓝牙连接已断开"@),
                ..s
            },
            run,
        ),
        After::ControlFailed { error } => {
            if w.preferred_device_id is Some && !w.system_suspended {
                reconnects(w, s, env, error, reset_commands(), Seq::empty(), run)
            } else {
                &&& run.w == w
                &&& run.s == s
                &&& run.out =~= reset_commands()
                &&& run.ask is None
            }
        },
        After::Connect(attempt) => {
            &&& run.w == (WorkerModel {
                pending: Pending::Connecting { stage: Stage::Opening, attempt },
                ..w
            })
            &&& run.s == if attempt.requested {
                Snapshot {
                    phase: ConnectionPhase::Connecting,
                    reconnect_attempt: attempt.number,
                    ..empty_state()
                }
            } else {
                Snapshot {
                    phase: ConnectionPhase::Reconnecting,
                    remote_name: s.remote_name,
                    remote_model: s.remote_model,
                    reconnect_attempt: attempt.number,
                    ..empty_state()
                }
            }
            &&& run.out =~= reset_commands().push(Command::SetRemoteGate(!attempt.requested))
            &&& run.ask == Some(QueryModel::OpenDevice { device_id: attempt.device_id })
        },
        After::Disconnect => shows(
            w,
            empty_state(),
            false,
            reset_commands(),
            seq![Command::Answer(Ok(empty_state()))],
            run,
        ),
        After::Suspend => shows(
            w,
            Snapshot {
                phase: ConnectionPhase::Suspended,
                remote_name: s.remote_name,
                remote_model: s.remote_model,
                last_error: Some("Windows 已进入睡眠，小米语音遥控器资源已释放"@),
                ..empty_state()
            },
            false,
            reset_commands(),
            Seq::empty(),
            run,
        ),
    }
}

/// A worker like `w` after a clean-up with an error: whatever it led to, a wanted device is
/// reconnected to, which cleans up again; else the state shows the error.
pub open spec fn tries_again(
    w: WorkerModel,
    s: SnapshotModel,
    env: SurroundingsModel,
    error: Seq<char>,
    told: Seq<CommandModel>,
    run: Run,
) -> bool {
    if w.preferred_device_id is Some {
        reconnects(w, s, env, unclean(error), reset_commands(), told, run)
    } else {
        shows(
            WorkerModel { reconnect_deadline: None, ..w },
            failure_state(failure_text(Failure::BleCleanup(error))),
            false,
            reset_commands(),
            told,
            run,
        )
    }
}

/// Who is told of a clean-up with an error: whoever asked to connect or to disconnect.
pub open spec fn told_of(after: After<Seq<char>>) -> bool {
    match after {
        After::Connect(attempt) => attempt.requested,
        After::Disconnect => true,
        _ => false,
    }
}

/// How a clean-up with an error ends for a worker like `w`.
pub open spec fn ends_with(
    w: WorkerModel,
    s: SnapshotModel,
    env: SurroundingsModel,
    after: After<Seq<char>>,
    error: Seq<char>,
    run: Run,
) -> bool {
    let w = WorkerModel {
        connection_generation: if !(after is Connect) {
            w.connection_generation
        } else if w.connection_generation == 0xffff_ffff_ffff_ffff {
            0
        } else {
            (w.connection_generation + 1) as u64
        },
        ..w
    };
    tries_again(
        w,
        s,
        env,
        error,
        if told_of(after) {
            seq![Command::Answer(Err(Failure::BleCleanup(error)))]
        } else {
            Seq::empty()
        },
        run,
    )
}

proof fn clean_ends(
    w: WorkerModel,
    s: SnapshotModel,
    env: SurroundingsModel,
    after: After<Seq<char>>,
)
    requires
        w.pending is Idle,
        paced(w, env),
    ensures
        ends_cleanly(
            w,
            s,
            env,
            after,
            Run { w, s, out: Seq::empty(), ask: None }.cleaned(after, None, env),
        ),
{
    first_delays(w.backoff);
}

proof fn unclean_ends(
    w: WorkerModel,
    s: SnapshotModel,
    env: SurroundingsModel,
    after: After<Seq<char>>,
    error: Seq<char>,
)
    requires
        w.pending is Idle,
        paced(w, env),
    ensures
        ends_with(
            w,
            s,
            env,
            after,
            error,
            Run { w, s, out: Seq::empty(), ask: None }.cleaned(after, Some(error), env),
        ),
{
    first_delays(w.backoff);
}

/// A clean-up of a worker without a connection ends when the audio is interrupted.
pub proof fn clean_ups_end_without_a_connection(
    w: WorkerModel,
    s: SnapshotModel,
    env: SurroundingsModel,
    after: After<Seq<char>>,
    audio_error: Option<Seq<char>>,
)
    requires
        w.pending == PendingModel::CleaningAudio(after),
        w.session is None,
        paced(w, env),
    ensures
        ({
            let run = step(w, s, env, Event::Reply(Reply::Outcome(audio_error)));
            let rest = WorkerModel { pending: Pending::Idle, ..w };
            match audio_error {
                None => ends_cleanly(rest, s, env, after, run),
                Some(error) => ends_with(
                    rest,
                    s,
                    env,
                    after,
                    "音频中断："@ + error,
                    run,
                ),
            }
        }),
{
    reveal(Run::reply_cleanup);
    clean_up_errors_are_listed(audio_error, None);
    let rest = WorkerModel { pending: Pending::Idle, ..w };
    match audio_error {
        None => clean_ends(rest, s, env, after),
        Some(error) => unclean_ends(rest, s, env, after, "音频中断："@ + error),
    }
}

/// A clean-up of a connection ends when its pieces are closed. A connection of which
/// anything stays behind is kept with the error, so that the next clean-up closes it again.
pub proof fn clean_ups_end_with_the_connection(
    w: WorkerModel,
    s: SnapshotModel,
    env: SurroundingsModel,
    after: After<Seq<char>>,
    audio_error: Option<Seq<char>>,
    report: CloseReport<Seq<char>>,
)
    requires
        w.pending == (PendingModel::CleaningSession { after, audio_error }),
        paced(w, env),
    ensures
        ({
            let run = step(w, s, env, Event::Reply(Reply::Closed(report)));
            let rest = WorkerModel {
                pending: Pending::Idle,
                session: match (close_error(report), w.session) {
                    (Some(error), Some(session)) => Some(
                        Session { cleanup_failure: Some(error), ..session },
                    ),
                    _ => None,
                },
                ..w
            };
            match cleanup_error(audio_error, close_error(report)) {
                None => ends_cleanly(rest, s, env, after, run),
                Some(error) => ends_with(rest, s, env, after, error, run),
            }
        }),
{
    reveal(Run::reply_cleanup);
    let rest = WorkerModel {
        pending: Pending::Idle,
        session: match (close_error(report), w.session) {
            (Some(error), Some(session)) => Some(
                Session { cleanup_failure: Some(error), ..session },
            ),
            _ => None,
        },
        ..w
    };
    match cleanup_error(audio_error, close_error(report)) {
        None => clean_ends(rest, s, env, after),
        Some(error) => unclean_ends(rest, s, env, after, error),
    }
}

/// The error of a clean-up names the audio first and the connection after it, and there is
/// none where both went well.
pub proof fn clean_up_errors_are_listed(
    audio_error: Option<Seq<char>>,
    session_error: Option<Seq<char>>,
)
    ensures
        cleanup_error(audio_error, session_error) == match (audio_error, session_error) {
            (None, None) => None::<Seq<char>>,
            (Some(audio), None) => Some("音频中断："@ + audio),
            (None, Some(session)) => Some(session),
            (Some(audio), Some(session)) => Some(
                "音频中断："@ + audio + "；"@ + session,
            ),
        },
{
    match (audio_error, session_error) {
        (None, None) => {},
        (Some(audio), None) => {
            lists_begin_with_their_first("音频中断："@ + audio, Seq::empty(), "；"@);
            assert(seq!["音频中断："@ + audio] + Seq::<Seq<char>>::empty() =~= seq![
                "音频中断："@ + audio,
            ]);
        },
        (None, Some(session)) => {
            lists_begin_with_their_first(session, Seq::empty(), "；"@);
            assert(Seq::<Seq<char>>::empty() + seq![session] =~= seq![session]);
            assert(seq![session] + Seq::<Seq<char>>::empty() =~= seq![session]);
        },
        (Some(audio), Some(session)) => {
            lists_begin_with_their_first("音频中断："@ + audio, seq![session], "；"@);
            lists_begin_with_their_first(session, Seq::empty(), "；"@);
            assert(seq![session] + Seq::<Seq<char>>::empty() =~= seq![session]);
        },
    }
}

/// A list of errors that goes on with those of another list, where there is one.
pub open spec fn before_others(first: Seq<char>, others: Option<Seq<char>>) -> Option<Seq<char>> {
    match others {
        Some(others) => Some(first + "；"@ + others),
        None => Some(first),
    }
}

spec fn listed(report: CloseReport<Seq<char>>) -> Seq<Seq<char>> {
    labelled("移除音频通知处理器："@, report.audio_handler) + labelled(
        "移除控制通知处理器："@,
        report.control_handler,
    ) + labelled("移除连接状态处理器："@, report.link_handler) + labelled(
        "关闭 GATT service："@,
        report.service,
    ) + labelled("关闭蓝牙设备："@, report.device)
}

proof fn first_error_stands_first(
    report: CloseReport<Seq<char>>,
    first: Seq<char>,
    others: CloseReport<Seq<char>>,
)
    requires
        listed(report) =~= seq![first] + listed(others),
    ensures
        close_error(report) == before_others(first, close_error(others)),
{
    lists_begin_with_their_first(first, listed(others), "；"@);
}

/// Closing a connection without any error has no error. Otherwise every error is named
/// with what it belongs to, those of the handlers first, then the service and the device,
/// and leaving one of them out leaves the others as they are.
pub proof fn closing_errors_are_listed(report: CloseReport<Seq<char>>)
    ensures
        close_error(report) is None <==> report.audio_handler is None
            && report.control_handler is None && report.link_handler is None
            && report.service is None && report.device is None,
        report.audio_handler matches Some(error) ==> close_error(report) == before_others(
            "移除音频通知处理器："@ + error,
            close_error(CloseReport { audio_handler: None, ..report }),
        ),
        report.audio_handler is None ==> (report.control_handler matches Some(error)
            ==> close_error(report) == before_others(
            "移除控制通知处理器："@ + error,
            close_error(CloseReport { control_handler: None, ..report }),
        )),
        report.audio_handler is None && report.control_handler is None ==> (
        report.link_handler matches Some(error) ==> close_error(report) == before_others(
            "移除连接状态处理器："@ + error,
            close_error(CloseReport { link_handler: None, ..report }),
        )),
        report.audio_handler is None && report.control_handler is None
            && report.link_handler is None ==> (report.service matches Some(error)
            ==> close_error(report) == before_others(
            "关闭 GATT service："@ + error,
            close_error(CloseReport { service: None, ..report }),
        )),
        report.audio_handler is None && report.control_handler is None
            && report.link_handler is None && report.service is None ==> (
        report.device matches Some(error) ==> close_error(report) == Some(
            "关闭蓝牙设备："@ + error,
        )),
{
    if let Some(error) = report.audio_handler {
        first_error_stands_first(
            report,
            "移除音频通知处理器："@ + error,
            CloseReport { audio_handler: None, ..report },
        );
    } else if let Some(error) = report.control_handler {
        first_error_stands_first(
            report,
            "移除控制通知处理器："@ + error,
            CloseReport { control_handler: None, ..report },
        );
    } else if let Some(error) = report.link_handler {
        first_error_stands_first(
            report,
            "移除连接状态处理器："@ + error,
            CloseReport { link_handler: None, ..report },
        );
    } else if let Some(error) = report.service {
        first_error_stands_first(
            report,
            "关闭 GATT service："@ + error,
            CloseReport { service: None, ..report },
        );
    } else if let Some(error) = report.device {
        first_error_stands_first(
            report,
            "关闭蓝牙设备："@ + error,
            CloseReport { device: None, ..report },
        );
    }
}

} // verus!
