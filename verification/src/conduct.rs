//! What the worker does on messages and deadlines.
//!
//! Each law gives the whole outcome of a step in terms of what the worker was told, what
//! it held and what the host had read off.
use crate::chord::ChordModel;
use crate::deadline::Instant;
use crate::diagnostics::Note;
use crate::model::{step, Run, WorkerModel};
use crate::protocol::{
    After, Attempt, Command, CommandModel, Event, LinkStatus, Message, MicObservation, Pending,
    PendingModel, Query, QueryModel, Reply, Retry, SurroundingsModel,
};
use crate::reconnect::BackoffModel;
use crate::snapshot::{
    ConnectionPhase, RemoteModel, Snapshot, SnapshotModel, VoiceSessionState,
};
use vstd::prelude::*;

verus! {

/// Nothing happens.
pub open spec fn nothing(w: WorkerModel, s: SnapshotModel, run: Run) -> bool {
    run.w == w && run.s == s && run.out =~= Seq::empty() && run.ask is None
}

/// Only a query is made, and nothing else changes.
pub open spec fn only_asks(
    w: WorkerModel,
    s: SnapshotModel,
    pending: PendingModel,
    query: QueryModel,
    run: Run,
) -> bool {
    &&& run.w == (WorkerModel { pending, ..w })
    &&& run.s == s
    &&& run.out =~= Seq::empty()
    &&& run.ask == Some(query)
}

/// The commands that let go of the keys: the voice key is let through, and a chord that
/// is held goes up.
pub open spec fn letting_go(held: Option<ChordModel>) -> Seq<CommandModel> {
    match held {
        Some(chord) => seq![Command::SetSessionActive(false), Command::ReleaseHeldChord(chord)],
        None => seq![Command::SetSessionActive(false)],
    }
}

/// A worker like `w` that has begun to take its connection down: the messages of the
/// connection are stale, nothing is held, and the audio is interrupted first.
pub open spec fn taken_down(w: WorkerModel, after: After<Seq<char>>) -> WorkerModel {
    WorkerModel {
        connection_generation: if w.connection_generation == 0xffff_ffff_ffff_ffff {
            0
        } else {
            (w.connection_generation + 1) as u64
        },
        held_hotkey: None,
        pending: Pending::CleaningAudio(after),
        ..w
    }
}

/// The step takes the connection of a worker like `w` down and does nothing else.
pub open spec fn takes_down(
    w: WorkerModel,
    s: SnapshotModel,
    after: After<Seq<char>>,
    run: Run,
) -> bool {
    &&& run.w == taken_down(w, after)
    &&& run.s == s
    &&& run.out =~= letting_go(w.held_hotkey)
    &&& run.ask == Some(QueryModel::InterruptAudio)
}

/// A disconnected state that knows of no remote.
pub open spec fn empty_state() -> SnapshotModel {
    Snapshot {
        phase: ConnectionPhase::Disconnected,
        remote_name: None,
        remote_model: RemoteModel::Unknown,
        capabilities: None,
        voice_state: VoiceSessionState::Idle,
        generation: 0,
        decoded_samples: 0,
        reconnect_attempt: 0,
        last_error: None,
        power_notifications_available: false,
    }
}

/// A request to connect forgets what was scheduled and counted, wants the device from now
/// on, and begins with a clean-up.
pub proof fn connect_requests_start_over(
    w: WorkerModel,
    s: SnapshotModel,
    env: SurroundingsModel,
    device_id: Seq<char>,
)
    requires
        w.pending is Idle,
    ensures
        takes_down(
            WorkerModel {
                preferred_device_id: Some(device_id),
                system_suspended: false,
                reconnect_deadline: None,
                capabilities_deadline: None,
                backoff: BackoffModel { attempt: 0, ..w.backoff },
                radio_recovery_cycles: 0,
                ..w
            },
            s,
            After::Connect(Attempt { requested: true, device_id, number: 0 }),
            step(w, s, env, Event::Message(Message::Connect { device_id })),
        ),
{
}

/// A request to disconnect forgets the device and everything scheduled and counted, and
/// begins with a clean-up.
pub proof fn disconnect_requests_forget_the_device(
    w: WorkerModel,
    s: SnapshotModel,
    env: SurroundingsModel,
)
    requires
        w.pending is Idle,
    ensures
        takes_down(
            WorkerModel {
                preferred_device_id: None,
                system_suspended: false,
                reconnect_deadline: None,
                capabilities_deadline: None,
                backoff: BackoffModel { attempt: 0, ..w.backoff },
                radio_recovery_cycles: 0,
                ..w
            },
            s,
            After::Disconnect,
            step(w, s, env, Event::Message(Message::Disconnect)),
        ),
{
}

/// A device of an earlier run is wanted from now on. The worker comes back to it at once,
/// or only says so while the system sleeps; the request is answered with what is then
/// published.
pub proof fn restored_devices_are_wanted(
    w: WorkerModel,
    s: SnapshotModel,
    env: SurroundingsModel,
    device_id: Seq<char>,
)
    requires
        w.pending is Idle,
    ensures
        ({
            let run = step(w, s, env, Event::Message(Message::Restore { device_id }));
            &&& run.w == (WorkerModel {
                preferred_device_id: Some(device_id),
                reconnect_deadline: if w.system_suspended {
                    None
                } else {
                    Some(env.now)
                },
                backoff: BackoffModel { attempt: 0, ..w.backoff },
                radio_recovery_cycles: 0,
                ..w
            })
            &&& run.s == (Snapshot {
                phase: if w.system_suspended {
                    ConnectionPhase::Suspended
                } else {
                    ConnectionPhase::Reconnecting
                },
                last_error: Some(
                    if w.system_suspended {
                        "Windows 当前处于睡眠状态，恢复后将重新连接小米语音遥控器"@
                    } else {
                        "正在恢复上次选择的小米语音遥控器"@
                    },
                ),
                ..empty_state()
            })
            &&& run.out =~= seq![
                Command::SetRemoteGate(!w.system_suspended),
                Command::Answer(Ok(run.s)),
            ]
            &&& run.ask is None
        }),
{
}

/// A key press of the remote brings a scheduled reconnect forward to now and starts the
/// delays over; a worker that is connected, sleeps, wants nothing or has nothing scheduled
/// does not react.
pub proof fn key_presses_bring_reconnects_forward(
    w: WorkerModel,
    s: SnapshotModel,
    env: SurroundingsModel,
)
    requires
        w.pending is Idle,
    ensures
        ({
            let run = step(w, s, env, Event::Message(Message::WakeReconnect));
            if w.session is None && w.preferred_device_id is Some && !w.system_suspended
                && w.reconnect_deadline is Some {
                &&& run.w == (WorkerModel {
                    backoff: BackoffModel { attempt: 0, ..w.backoff },
                    reconnect_deadline: Some(env.now),
                    ..w
                })
                &&& run.s == (Snapshot {
                    reconnect_attempt: if s.phase is Reconnecting {
                        0
                    } else {
                        s.reconnect_attempt
                    },
                    ..s
                })
                &&& run.out =~= seq![Command::Log(Note::WakeReconnect)]
                &&& run.ask is None
            } else {
                nothing(w, s, run)
            }
        }),
{
}

/// A repeated press of the streaming session begins with a look at the microphone.
pub proof fn retries_look_at_the_microphone_first(
    w: WorkerModel,
    s: SnapshotModel,
    env: SurroundingsModel,
    attempt: u32,
    epoch: u64,
    baseline: Option<MicObservation>,
)
    requires
        w.pending is Idle,
        env.pipeline.state is Streaming,
        epoch == w.voice_session_epoch,
    ensures
        only_asks(
            w,
            s,
            Pending::RetryComparing(Retry { attempt, epoch }),
            Query::CompareMicrophone { baseline },
            step(
                w,
                s,
                env,
                Event::Message(Message::RetryVoiceChord { attempt, epoch, baseline }),
            ),
        ),
{
}

/// The packet is a stop that comes while nothing streams.
pub open spec fn is_idle_stop(bytes: Seq<u8>, state: VoiceSessionState) -> bool {
    bytes.len() > 0 && bytes[0] == 0 && state is Idle
}

/// Every control packet of the present connection is handed to the pipeline as it is, but
/// for a stop while the pipeline is idle. While the pipeline streams or drains there is no
/// exception.
pub proof fn control_packets_reach_the_pipeline(
    w: WorkerModel,
    s: SnapshotModel,
    env: SurroundingsModel,
    bytes: Seq<u8>,
)
    requires
        w.pending is Idle,
    ensures
        ({
            let run = step(
                w,
                s,
                env,
                Event::Message(
                    Message::Control { connection_generation: w.connection_generation, bytes },
                ),
            );
            &&& !is_idle_stop(bytes, env.pipeline.state) ==> only_asks(
                w,
                s,
                Pending::Decoding,
                Query::DecodeControl(bytes),
                run,
            )
            &&& env.pipeline.state is Streaming || env.pipeline.state is Draining
                ==> run.ask == Some(QueryModel::DecodeControl(bytes))
            &&& is_idle_stop(bytes, env.pipeline.state) ==> run.ask is None || run.ask == Some(
                QueryModel::InterruptAudio,
            )
        }),
{
}

/// A stop while nothing streams says nothing new, and the phase decides what follows as
/// after any other control packet.
pub proof fn idle_stops_are_not_decoded(
    w: WorkerModel,
    s: SnapshotModel,
    env: SurroundingsModel,
    bytes: Seq<u8>,
)
    requires
        w.pending is Idle,
        is_idle_stop(bytes, env.pipeline.state),
    ensures
        settles(
            w,
            s,
            Seq::empty(),
            step(
                w,
                s,
                env,
                Event::Message(
                    Message::Control { connection_generation: w.connection_generation, bytes },
                ),
            ),
        ),
{
}

/// How a control packet ends for a worker like `w` that publishes `s` and has given the
/// commands `out`. Only a worker that still waits for capabilities keeps their deadline. A
/// connection that is ready starts all counting over; one that has failed is taken down.
pub open spec fn settles(
    w: WorkerModel,
    s: SnapshotModel,
    out: Seq<CommandModel>,
    run: Run,
) -> bool {
    let w = WorkerModel {
        pending: Pending::Idle,
        capabilities_deadline: if s.phase is AwaitingCapabilities {
            w.capabilities_deadline
        } else {
            None
        },
        ..w
    };
    if s.phase is Failed {
        &&& run.w == taken_down(
            w,
            After::ControlFailed {
                error: match s.last_error {
                    Some(error) => error,
                    None => "ATVV 能力确认失败"@,
                },
            },
        )
        &&& run.s == s
        &&& run.out =~= out + letting_go(w.held_hotkey)
        &&& run.ask == Some(QueryModel::InterruptAudio)
    } else if s.phase is Ready {
        &&& run.w == (WorkerModel {
            backoff: BackoffModel { attempt: 0, ..w.backoff },
            radio_recovery_cycles: 0,
            ..w
        })
        &&& run.s == (Snapshot { reconnect_attempt: 0, ..s })
        &&& run.out =~= out
        &&& run.ask is None
    } else {
        &&& run.w == w
        &&& run.s == s
        &&& run.out =~= out
        &&& run.ask is None
    }
}

/// Audio of the present connection is dealt with exactly while the pipeline streams, and
/// no packet is changed or lost on the way.
pub proof fn audio_is_dealt_with_while_streaming(
    w: WorkerModel,
    s: SnapshotModel,
    env: SurroundingsModel,
    bytes: Seq<u8>,
)
    requires
        w.pending is Idle,
    ensures
        ({
            let run = step(
                w,
                s,
                env,
                Event::Message(
                    Message::Audio { connection_generation: w.connection_generation, bytes },
                ),
            );
            if env.pipeline.state is Streaming {
                only_asks(w, s, Pending::CheckingAudio { bytes }, Query::CheckAudio, run)
            } else {
                nothing(w, s, run)
            }
        }),
{
}

/// A link of the present connection that is lost takes the connection down; one that is
/// up again means nothing.
pub proof fn lost_links_take_the_connection_down(
    w: WorkerModel,
    s: SnapshotModel,
    env: SurroundingsModel,
    status: LinkStatus,
)
    requires
        w.pending is Idle,
    ensures
        ({
            let run = step(
                w,
                s,
                env,
                Event::Message(
                    Message::ConnectionChanged {
                        connection_generation: w.connection_generation,
                        status,
                    },
                ),
            );
            match status {
                LinkStatus::Disconnected => takes_down(
                    WorkerModel { capabilities_deadline: None, ..w },
                    s,
                    After::LinkLost,
                    run,
                ),
                LinkStatus::Connected => nothing(w, s, run),
            }
        }),
{
}

/// A notification of the present connection that cannot be read takes the connection
/// down, with its error as the reason.
pub proof fn unreadable_notifications_take_the_connection_down(
    w: WorkerModel,
    s: SnapshotModel,
    env: SurroundingsModel,
    error: Seq<char>,
)
    requires
        w.pending is Idle,
    ensures
        takes_down(
            WorkerModel { capabilities_deadline: None, ..w },
            s,
            After::CallbackFailed { error },
            step(
                w,
                s,
                env,
                Event::Message(
                    Message::CallbackError {
                        connection_generation: w.connection_generation,
                        error,
                    },
                ),
            ),
        ),
{
}

/// When the system goes to sleep, nothing stays scheduled, and the connection comes down.
pub proof fn sleep_cancels_what_is_scheduled(
    w: WorkerModel,
    s: SnapshotModel,
    env: SurroundingsModel,
)
    requires
        w.pending is Idle,
    ensures
        takes_down(
            WorkerModel {
                system_suspended: true,
                capabilities_deadline: None,
                reconnect_deadline: None,
                ..w
            },
            s,
            After::Suspend,
            step(w, s, env, Event::Message(Message::SystemSuspended)),
        ),
{
}

/// When the system wakes up, a wanted device is reconnected to at once, with all counting
/// started over and its name still shown; without one the state is empty. A worker that
/// was awake does not react.
pub proof fn waking_up_reconnects(w: WorkerModel, s: SnapshotModel, env: SurroundingsModel)
    requires
        w.pending is Idle,
    ensures
        ({
            let run = step(w, s, env, Event::Message(Message::SystemResumed));
            let awake = WorkerModel {
                system_suspended: false,
                backoff: BackoffModel { attempt: 0, ..w.backoff },
                radio_recovery_cycles: 0,
                ..w
            };
            if !w.system_suspended {
                nothing(w, s, run)
            } else if w.preferred_device_id is Some {
                &&& run.w == (WorkerModel { reconnect_deadline: Some(env.now), ..awake })
                &&& run.s == (Snapshot {
                    phase: ConnectionPhase::Reconnecting,
                    remote_name: s.remote_name,
                    remote_model: s.remote_model,
                    last_error: Some("Windows 已恢复，正在重新连接小米语音遥控器"@),
                    ..empty_state()
                })
                &&& run.out =~= seq![Command::SetRemoteGate(true)]
                &&& run.ask is None
            } else {
                &&& run.w == awake
                &&& run.s == empty_state()
                &&& run.out =~= seq![Command::SetRemoteGate(false)]
                &&& run.ask is None
            }
        }),
{
}

/// A worker that shuts down lets go of the keys, interrupts the audio, drops its
/// connection where it has one, and interrupts the pipeline, in this order; what is
/// published stays as it is.
pub proof fn shutting_down_releases_everything(
    w: WorkerModel,
    s: SnapshotModel,
    env: SurroundingsModel,
)
    requires
        w.pending is Idle,
    ensures
        ({
            let run = step(w, s, env, Event::Message(Message::Shutdown));
            &&& run.w == (WorkerModel {
                session: None,
                held_hotkey: None,
                pending: Pending::Stopped,
                ..w
            })
            &&& run.s == s
            &&& run.out =~= letting_go(w.held_hotkey) + if w.session is Some {
                seq![Command::InterruptAudio, Command::DropSession, Command::InterruptPipeline]
            } else {
                seq![Command::InterruptAudio, Command::InterruptPipeline]
            }
            &&& run.ask is None
        }),
{
}

/// A deadline has passed.
pub open spec fn passed(deadline: Option<Instant>, env: SurroundingsModel) -> bool {
    deadline matches Some(deadline) && deadline.nanos <= env.now.nanos
}

/// A connection whose remote does not state its capabilities in time is taken down, before
/// any other deadline counts.
pub proof fn late_capabilities_take_the_connection_down(
    w: WorkerModel,
    s: SnapshotModel,
    env: SurroundingsModel,
)
    requires
        w.pending is Idle,
        passed(w.capabilities_deadline, env),
    ensures
        takes_down(
            WorkerModel { capabilities_deadline: None, ..w },
            s,
            After::CapabilitiesTimeout,
            step(w, s, env, Event::Timeout),
        ),
{
}

/// A reconnect that is due is an attempt at the wanted device, under the published number,
/// and begins with a clean-up. It happens once.
pub proof fn due_reconnects_are_attempted(
    w: WorkerModel,
    s: SnapshotModel,
    env: SurroundingsModel,
)
    requires
        w.pending is Idle,
        !passed(w.capabilities_deadline, env),
        passed(w.reconnect_deadline, env),
    ensures
        ({
            let run = step(w, s, env, Event::Timeout);
            let rest = WorkerModel { reconnect_deadline: None, ..w };
            match w.preferred_device_id {
                Some(device_id) => takes_down(
                    rest,
                    s,
                    After::Connect(
                        Attempt { requested: false, device_id, number: s.reconnect_attempt },
                    ),
                    run,
                ),
                None => nothing(rest, s, run),
            }
        }),
{
}

/// An extension that is due is sent for the session that streams, over a connection whose
/// capabilities are known; otherwise it is dropped.
pub proof fn due_extensions_are_sent(w: WorkerModel, s: SnapshotModel, env: SurroundingsModel)
    requires
        w.pending is Idle,
        !passed(w.capabilities_deadline, env),
        !passed(w.reconnect_deadline, env),
        passed(w.extend_deadline, env),
    ensures
        ({
            let run = step(w, s, env, Event::Timeout);
            let rest = WorkerModel { extend_deadline: None, ..w };
            match (env.pipeline.capabilities, env.pipeline.session_id) {
                (Some(capabilities), Some(session_id)) if env.pipeline.state is Streaming
                    && w.session is Some => only_asks(
                    rest,
                    s,
                    Pending::Extending { since: env.now },
                    Query::ExtendMicrophone { version: capabilities.version, session_id },
                    run,
                ),
                _ => nothing(rest, s, run),
            }
        }),
{
}

/// Before any deadline has passed nothing happens, and the worker waits for the first.
pub proof fn early_timeouts_do_nothing(w: WorkerModel, s: SnapshotModel, env: SurroundingsModel)
    requires
        w.pending is Idle,
        !passed(w.capabilities_deadline, env),
        !passed(w.reconnect_deadline, env),
        !passed(w.extend_deadline, env),
    ensures
        nothing(w, s, step(w, s, env, Event::Timeout)),
        w.deadline() matches Some(first) ==> {
            &&& w.capabilities_deadline matches Some(deadline) ==> first.nanos <= deadline.nanos
            &&& w.reconnect_deadline matches Some(deadline) ==> first.nanos <= deadline.nanos
            &&& w.extend_deadline matches Some(deadline) ==> first.nanos <= deadline.nanos
            &&& env.now.nanos < first.nanos
        },
        w.deadline() is None <==> w.capabilities_deadline is None && w.reconnect_deadline is None
            && w.extend_deadline is None,
{
}

/// A worker that waits for an answer takes neither messages nor timeouts.
pub proof fn waiting_workers_take_answers_only(
    w: WorkerModel,
    s: SnapshotModel,
    env: SurroundingsModel,
    message: Message<Seq<char>, Seq<u8>>,
)
    requires
        !(w.pending is Idle),
    ensures
        nothing(w, s, step(w, s, env, Event::Message(message))),
        nothing(w, s, step(w, s, env, Event::Timeout)),
{
}

/// A worker that waits for nothing takes no answers.
pub proof fn idle_workers_take_no_answers(
    w: WorkerModel,
    s: SnapshotModel,
    env: SurroundingsModel,
    reply: Reply<Seq<char>, Seq<i16>>,
)
    requires
        w.pending is Idle,
    ensures
        nothing(w, s, step(w, s, env, Event::Reply(reply))),
{
}

/// A new worker has no connection, wants none, holds nothing and has counted nothing; its
/// reconnects wait between two and thirty seconds.
pub proof fn new_workers_are_at_rest()
    ensures
        ({
            let w = WorkerModel::initial();
            &&& w.session is None
            &&& w.preferred_device_id is None
            &&& w.held_hotkey is None
            &&& w.deadline() is None
            &&& w.pending is Idle
            &&& !w.system_suspended
            &&& w.connection_generation == 0
            &&& w.voice_session_epoch == 0
            &&& w.active_voice_samples == 0
            &&& w.radio_recovery_cycles == 0
            &&& w.backoff == (BackoffModel { base: 2_000, max: 30_000, attempt: 0 })
        }),
{
}

} // verus!
