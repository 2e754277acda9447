//! The worker as a mathematical object: what each event does to its state, to the
//! published snapshot, and what it asks of the host.
use crate::chord::{is_wetype_default, ChordModel};
use crate::deadline::{is_due, nearest, Instant};
use crate::diagnostics::Note;
use crate::error::{failure_text, Failure, FailureModel};
use crate::protocol::{
    After, Attempt, Channel, Characteristic, CloseReport, Command, CommandModel, Event, EventModel,
    Identity, Message, MessageModel, MicObservation, MicResponse, Pending,
    PendingModel, PipelineOutput, Query, QueryModel, Reply, ReplyModel, Retry, Session, Source,
    Stage, Start, SurroundingsModel, WriteOutcome,
};
use crate::reconnect::BackoffModel;
use crate::snapshot::{
    blank, failed, gated, ConnectionPhase, RemoteModel, Snapshot, SnapshotModel, VoiceSessionState,
};
use crate::text::{decimal_text, joined_text};
use vstd::prelude::*;

verus! {

/// How long the remote may take to state its capabilities.
pub const CAPABILITIES_TIMEOUT_MS: u64 = 10_000;

/// The delay before the first reconnect.
pub const RECONNECT_BASE_MS: u64 = 2_000;

/// The longest delay before a reconnect.
pub const RECONNECT_MAX_MS: u64 = 30_000;

/// The delay before the reconnect that follows a restart of the radio.
pub const RADIO_RETRY_MS: u64 = 2_000;

/// How often a streaming microphone session is extended. The remote stops sending
/// after five to six seconds without.
pub const MICROPHONE_EXTEND_MS: u64 = 2_500;

/// The pause after a stuck key has been released.
pub const KEY_SETTLE_MS: u64 = 20;

/// The state of the worker.
pub struct WorkerModel {
    pub session: Option<Session<Seq<char>>>,
    pub active_voice_samples: u64,
    pub connection_generation: u64,
    pub capabilities_deadline: Option<Instant>,
    pub reconnect_deadline: Option<Instant>,
    pub extend_deadline: Option<Instant>,
    pub preferred_device_id: Option<Seq<char>>,
    pub system_suspended: bool,
    pub backoff: BackoffModel,
    pub held_hotkey: Option<ChordModel>,
    pub voice_session_epoch: u64,
    pub radio_recovery_cycles: u32,
    pub pending: PendingModel,
}

impl WorkerModel {
    /// The worker before its first event.
    pub open spec fn initial() -> WorkerModel {
        WorkerModel {
            session: None,
            active_voice_samples: 0,
            connection_generation: 0,
            capabilities_deadline: None,
            reconnect_deadline: None,
            extend_deadline: None,
            preferred_device_id: None,
            system_suspended: false,
            backoff: BackoffModel { base: RECONNECT_BASE_MS, max: RECONNECT_MAX_MS, attempt: 0 },
            held_hotkey: None,
            voice_session_epoch: 0,
            radio_recovery_cycles: 0,
            pending: Pending::Idle,
        }
    }

    /// The delays of the worker are the fixed ones, and a clock reading that it keeps
    /// leaves room for the next extension.
    pub open spec fn wf(self) -> bool {
        &&& self.backoff.base == RECONNECT_BASE_MS
        &&& self.backoff.max == RECONNECT_MAX_MS
        &&& self.pending matches Pending::Extending { since } ==> since.admits(
            MICROPHONE_EXTEND_MS as int,
        )
    }

    /// A connection is wanted and the system is awake.
    pub open spec fn wants_connection(self) -> bool {
        self.preferred_device_id is Some && !self.system_suspended
    }

    /// When the worker has to act without a message.
    pub open spec fn deadline(self) -> Option<Instant> {
        nearest(
            nearest(self.capabilities_deadline, self.reconnect_deadline),
            self.extend_deadline,
        )
    }
}

/// The number after `n`, starting over after the last.
pub open spec fn next_number(n: u64) -> u64 {
    if n == u64::MAX {
        0
    } else {
        (n + 1) as u64
    }
}

/// The sum, or the largest number where there is none.
pub open spec fn capped_sum(a: u64, b: u64) -> u64 {
    if a + b > u64::MAX {
        u64::MAX
    } else {
        (a + b) as u64
    }
}

/// What is shown while a reconnect is scheduled.
pub open spec fn reconnect_text(reason: Seq<char>, seconds: int, attempt: u32) -> Seq<char> {
    reason + "；将在 "@ + decimal_text(seconds as nat) + " 秒后进行第 "@ + decimal_text(
        attempt as nat,
    ) + " 次重连"@
}

/// The published state while a reconnect is scheduled.
pub open spec fn rescheduled(
    s: SnapshotModel,
    backoff: BackoffModel,
    reason: Seq<char>,
) -> SnapshotModel {
    Snapshot {
        phase: ConnectionPhase::Reconnecting,
        capabilities: None,
        voice_state: VoiceSessionState::Idle,
        generation: 0,
        reconnect_attempt: backoff.attempt,
        last_error: Some(reconnect_text(reason, backoff.delay() / 1_000, backoff.attempt)),
        ..s
    }
}

/// Why a reconnect follows a clean-up that failed.
pub open spec fn cleanup_reason(error: FailureModel) -> Seq<char> {
    failure_text(error) + "；旧会话清理失败，将继续重试并再次清理"@
}

/// What lets go of the push-to-talk chord: the voice key is let through again, and
/// the keys go up where they are held.
pub open spec fn release_commands(held: Option<ChordModel>) -> Seq<CommandModel> {
    match held {
        Some(chord) => seq![Command::SetSessionActive(false), Command::ReleaseHeldChord(chord)],
        None => seq![Command::SetSessionActive(false)],
    }
}

/// What is shown while the radio is being restarted.
pub open spec fn radio_text(attempt: u32, cycles: u32, limit: u32) -> Seq<char> {
    "连续 "@ + decimal_text(attempt as nat)
        + " 次重连失败，正在自动重启蓝牙无线电以清除僵死链路（第 "@ + decimal_text(
        cycles as nat,
    ) + "/"@ + decimal_text(limit as nat) + " 次）…"@
}

/// An error with what it belongs to in front of it, as a list of one.
pub open spec fn labelled(label: Seq<char>, error: Option<Seq<char>>) -> Seq<Seq<char>> {
    match error {
        Some(error) => seq![label + error],
        None => Seq::empty(),
    }
}

/// The error of closing a connection, none where all of it was released.
pub open spec fn close_error(report: CloseReport<Seq<char>>) -> Option<Seq<char>> {
    let errors = labelled("移除音频通知处理器："@, report.audio_handler) + labelled(
        "移除控制通知处理器："@,
        report.control_handler,
    ) + labelled("移除连接状态处理器："@, report.link_handler) + labelled(
        "关闭 GATT service："@,
        report.service,
    ) + labelled("关闭蓝牙设备："@, report.device);
    if errors.len() == 0 {
        None
    } else {
        Some(joined_text(errors, "；"@))
    }
}

/// The error of a clean-up, none where nothing went wrong.
pub open spec fn cleanup_error(
    audio_error: Option<Seq<char>>,
    session_error: Option<Seq<char>>,
) -> Option<Seq<char>> {
    let errors = labelled("音频中断："@, audio_error) + match session_error {
        Some(error) => seq![error],
        None => Seq::empty(),
    };
    if errors.len() == 0 {
        None
    } else {
        Some(joined_text(errors, "；"@))
    }
}

/// What the worker is busy with.
#[derive(Debug, Clone, Copy, PartialEq, Eq, Structural)]
pub enum Activity {
    /// Nothing; no answer is expected.
    Resting,
    /// Taking a connection down.
    Cleanup,
    /// Setting a connection up.
    Connecting,
    /// Something that a deadline led to.
    Timed,
    /// Pressing the chord again.
    Retry,
    /// A control packet.
    Control,
    /// Ending a voice session.
    Ending,
    /// Starting a voice session.
    Start,
    /// An audio packet.
    Audio,
}

/// What the worker is busy with while it waits.
pub open spec fn activity(pending: PendingModel) -> Activity {
    match pending {
        Pending::Idle | Pending::Stopped => Activity::Resting,
        Pending::CleaningAudio(_)
        | Pending::CleaningSession { .. } => Activity::Cleanup,
        Pending::Connecting { .. } => Activity::Connecting,
        Pending::ConsultingRadioPolicy
        | Pending::CyclingRadio
        | Pending::Extending { .. } => Activity::Timed,
        Pending::RetryComparing(_)
        | Pending::RetryReleasing { .. }
        | Pending::RetryPressing { .. } => Activity::Retry,
        Pending::Decoding
        | Pending::OpeningMicrophone => Activity::Control,
        Pending::FinishingAudio { .. }
        | Pending::CompletingDrain
        | Pending::Aborting { .. } => Activity::Ending,
        Pending::StartSettling(_)
        | Pending::StartReading { .. }
        | Pending::StartActivating { .. }
        | Pending::StartPressing { .. }
        | Pending::StartingAudio { .. } => Activity::Start,
        Pending::CheckingAudio { .. }
        | Pending::DecodingAudio
        | Pending::Enqueueing { .. } => Activity::Audio,
    }
}

/// A step in progress: the state, the snapshot, the commands given so far and the
/// query that ends the step.
pub struct Run {
    pub w: WorkerModel,
    pub s: SnapshotModel,
    pub out: Seq<CommandModel>,
    pub ask: Option<QueryModel>,
}

impl Run {
    /// Gives a command.
    pub open spec fn emit(self, command: CommandModel) -> Run {
        Run { out: self.out.push(command), ..self }
    }

    /// Ends the step with a query.
    pub open spec fn query(self, query: QueryModel, pending: PendingModel) -> Run {
        Run { w: WorkerModel { pending, ..self.w }, ask: Some(query), ..self }
    }

    /// Tells the host what the phase means for the shared keys.
    pub open spec fn gate(self) -> Run {
        self.emit(Command::SetRemoteGate(gated(self.s.phase)))
    }

    /// Publishes a snapshot.
    pub open spec fn publish(self, s: SnapshotModel) -> Run {
        Run { s, ..self }.gate()
    }

    /// Publishes a phase.
    pub open spec fn enter(self, phase: ConnectionPhase, voice_state: VoiceSessionState) -> Run {
        self.publish(Snapshot { phase, voice_state, ..self.s })
    }

    /// Publishes an error.
    pub open spec fn report(self, error: Seq<char>) -> Run {
        Run { s: Snapshot { last_error: Some(error), ..self.s }, ..self }
    }

    /// Forgets the reconnects made so far.
    pub open spec fn calm(self) -> Run {
        Run {
            w: WorkerModel {
                backoff: self.w.backoff.reset(),
                radio_recovery_cycles: 0,
                ..self.w
            },
            ..self
        }
    }

    /// Schedules a reconnect after the next delay of the backoff.
    pub open spec fn schedule_reconnect(self, now: Instant, reason: Seq<char>) -> Run {
        let backoff = self.w.backoff.scheduled();
        Run {
            w: WorkerModel {
                backoff,
                reconnect_deadline: Some(now.later(backoff.delay())),
                ..self.w
            },
            ..self
        }.publish(rescheduled(self.s, backoff, reason))
    }

    /// Goes on after a clean-up that failed: as long as a device is wanted, the next
    /// reconnect cleans up again.
    pub open spec fn keep_reconnecting(self, now: Instant, error: FailureModel) -> Run {
        if self.w.preferred_device_id is Some {
            self.schedule_reconnect(now, cleanup_reason(error))
        } else {
            Run {
                w: WorkerModel { reconnect_deadline: None, ..self.w },
                ..self
            }.publish(failed(failure_text(error)))
        }
    }

    /// Lets go of the push-to-talk chord and lets the voice key through again.
    pub open spec fn release_hotkey(self) -> Run {
        Run {
            w: WorkerModel { held_hotkey: None, ..self.w },
            out: self.out + release_commands(self.w.held_hotkey),
            ..self
        }
    }

    /// Starts to take a connection down. From here on its messages are stale.
    pub open spec fn begin_cleanup(self, after: After<Seq<char>>) -> Run {
        Run {
            w: WorkerModel {
                connection_generation: next_number(self.w.connection_generation),
                ..self.w
            },
            ..self
        }.release_hotkey().query(Query::InterruptAudio, Pending::CleaningAudio(after))
    }

    /// The audio session has been interrupted; the connection is next.
    pub open spec fn audio_interrupted(
        self,
        after: After<Seq<char>>,
        audio_error: Option<Seq<char>>,
        env: SurroundingsModel,
    ) -> Run {
        if self.w.session is Some {
            self.query(Query::CloseSession, Pending::CleaningSession { after, audio_error })
        } else {
            self.cleaned(after, cleanup_error(audio_error, None), env)
        }
    }

    /// The connection has been closed, or not quite; one that could not be closed is
    /// kept for the next clean-up.
    pub open spec fn session_closed(
        self,
        after: After<Seq<char>>,
        audio_error: Option<Seq<char>>,
        report: CloseReport<Seq<char>>,
        env: SurroundingsModel,
    ) -> Run {
        let error = close_error(report);
        let session = match (error, self.w.session) {
            (Some(error), Some(session)) => Some(
                Session { cleanup_failure: Some(error), ..session },
            ),
            _ => None,
        };
        Run { w: WorkerModel { session, ..self.w }, ..self }.cleaned(
            after,
            cleanup_error(audio_error, error),
            env,
        )
    }

    /// The clean-up is over.
    pub open spec fn cleaned(
        self,
        after: After<Seq<char>>,
        error: Option<Seq<char>>,
        env: SurroundingsModel,
    ) -> Run {
        let run = self.emit(Command::InterruptPipeline).emit(Command::ResetPipeline);
        match error {
            Some(error) => run.cleanup_failed(after, Failure::BleCleanup(error), env),
            None => run.cleanup_succeeded(after, env),
        }
    }

    /// Goes on after a clean-up that failed.
    pub open spec fn cleanup_failed(
        self,
        after: After<Seq<char>>,
        error: FailureModel,
        env: SurroundingsModel,
    ) -> Run {
        match after {
            After::Connect(attempt) => self.attempt_failed(attempt, error, env),
            After::Disconnect => self.keep_reconnecting(env.now, error).emit(
                Command::Answer(Err(error)),
            ),
            _ => self.keep_reconnecting(env.now, error),
        }
    }

    /// Goes on after a clean-up that succeeded.
    pub open spec fn cleanup_succeeded(
        self,
        after: After<Seq<char>>,
        env: SurroundingsModel,
    ) -> Run {
        match after {
            After::CapabilitiesTimeout => {
                if self.w.wants_connection() {
                    self.schedule_reconnect(
                        env.now,
                        "等待小米语音遥控器返回 ATVV 能力超时"@,
                    )
                } else {
                    self.publish(failed("等待小米语音遥控器返回 ATVV 能力超时"@))
                }
            },
            After::Connect(attempt) => self.start_connecting(attempt),
            After::Disconnect => self.publish(blank()).emit(Command::Answer(Ok(blank()))),
            After::ControlFailed { error } => {
                if self.w.wants_connection() {
                    self.schedule_reconnect(env.now, error)
                } else {
                    self
                }
            },
            After::LinkLost => {
                if self.w.wants_connection() {
                    self.schedule_reconnect(env.now, "小米语音遥控器蓝牙连接已断开"@)
                } else {
                    self.enter(ConnectionPhase::Disconnected, VoiceSessionState::Idle).report(
                        "小米语音遥控器蓝牙连接已断开"@,
                    )
                }
            },
            After::CallbackFailed { error } => {
                if self.w.wants_connection() {
                    self.schedule_reconnect(env.now, error)
                } else {
                    self.publish(failed(error))
                }
            },
            After::Suspend => self.publish(
                Snapshot {
                    phase: ConnectionPhase::Suspended,
                    remote_name: self.s.remote_name,
                    remote_model: self.s.remote_model,
                    last_error: Some("Windows 已进入睡眠，小米语音遥控器资源已释放"@),
                    ..blank()
                },
            ),
        }
    }

    /// Starts to set up a connection. A reconnect keeps showing which remote it is
    /// about.
    pub open spec fn start_connecting(self, attempt: Attempt<Seq<char>>) -> Run {
        self.publish(
            if attempt.requested {
                Snapshot {
                    phase: ConnectionPhase::Connecting,
                    reconnect_attempt: attempt.number,
                    ..blank()
                }
            } else {
                Snapshot {
                    phase: ConnectionPhase::Reconnecting,
                    remote_name: self.s.remote_name,
                    remote_model: self.s.remote_model,
                    reconnect_attempt: attempt.number,
                    ..blank()
                }
            },
        ).query(
            Query::OpenDevice { device_id: attempt.device_id },
            Pending::Connecting { stage: Stage::Opening, attempt },
        )
    }

    /// The next query of a connection set-up.
    pub open spec fn advance(
        self,
        query: QueryModel,
        stage: Stage<Seq<char>>,
        attempt: Attempt<Seq<char>>,
    ) -> Run {
        self.query(query, Pending::Connecting { stage, attempt })
    }

    /// A step of a connection set-up ended. Those that are answered otherwise go on
    /// waiting, except that the name can fail to be read.
    pub open spec fn stage_attempted(
        self,
        stage: Stage<Seq<char>>,
        attempt: Attempt<Seq<char>>,
        failure: Option<FailureModel>,
        env: SurroundingsModel,
    ) -> Run {
        if stage is Modeling || (stage is Naming && failure is None) {
            Run { w: WorkerModel { pending: Pending::Connecting { stage, attempt }, ..self.w }, ..self }
        } else {
            match failure {
                Some(failure) => self.unwind(stage).attempt_failed(attempt, failure, env),
                None => self.stage_succeeded(stage, attempt, env),
            }
        }
    }

    /// A step of a connection set-up succeeded.
    pub open spec fn stage_succeeded(
        self,
        stage: Stage<Seq<char>>,
        attempt: Attempt<Seq<char>>,
        env: SurroundingsModel,
    ) -> Run {
        let generation = self.w.connection_generation;
        match stage {
            Stage::Opening => self.emit(Command::RequestThroughput).advance(
                Query::ReadName,
                Stage::Naming,
                attempt,
            ),
            Stage::FindingService(identity) => self.advance(
                Query::FindCharacteristic(Characteristic::Transmit),
                Stage::FindingCharacteristic(Characteristic::Transmit, identity),
                attempt,
            ),
            Stage::FindingCharacteristic(Characteristic::Transmit, identity) => self.advance(
                Query::FindCharacteristic(Characteristic::Audio),
                Stage::FindingCharacteristic(Characteristic::Audio, identity),
                attempt,
            ),
            Stage::FindingCharacteristic(Characteristic::Audio, identity) => self.advance(
                Query::FindCharacteristic(Characteristic::Control),
                Stage::FindingCharacteristic(Characteristic::Control, identity),
                attempt,
            ),
            Stage::FindingCharacteristic(Characteristic::Control, identity) => self.advance(
                Query::Subscribe { channel: Channel::Audio, generation },
                Stage::Subscribing(Channel::Audio, identity),
                attempt,
            ),
            Stage::Subscribing(Channel::Audio, identity) => self.advance(
                Query::Subscribe { channel: Channel::Control, generation },
                Stage::Subscribing(Channel::Control, identity),
                attempt,
            ),
            Stage::Subscribing(Channel::Control, identity) => self.advance(
                Query::WatchLink { generation },
                Stage::WatchingLink(identity),
                attempt,
            ),
            Stage::WatchingLink(identity) => self.advance(
                Query::RequestCapabilities,
                Stage::RequestingCapabilities(identity),
                attempt,
            ),
            Stage::RequestingCapabilities(identity) => self.connected(attempt, identity, env),
            _ => self,
        }
    }

    /// The device and its model are known; the voice service is next.
    pub open spec fn discovered(
        self,
        attempt: Attempt<Seq<char>>,
        identity: Identity<Seq<char>>,
    ) -> Run {
        self.publish(
            Snapshot {
                phase: ConnectionPhase::Discovering,
                remote_name: Some(identity.name),
                remote_model: identity.model,
                last_error: None,
                ..self.s
            },
        ).advance(Query::FindService, Stage::FindingService(identity), attempt)
    }

    /// The connection is set up; the remote has to state its capabilities in time.
    pub open spec fn connected(
        self,
        attempt: Attempt<Seq<char>>,
        identity: Identity<Seq<char>>,
        env: SurroundingsModel,
    ) -> Run {
        let s = Snapshot {
            phase: ConnectionPhase::AwaitingCapabilities,
            remote_name: Some(identity.name),
            remote_model: identity.model,
            reconnect_attempt: attempt.number,
            ..blank()
        };
        let run = Run {
            w: WorkerModel {
                session: Some(
                    Session {
                        name: identity.name,
                        model: identity.model,
                        microphone_opened: false,
                        cleanup_failure: None,
                    },
                ),
                capabilities_deadline: Some(env.now.later(CAPABILITIES_TIMEOUT_MS as int)),
                ..self.w
            },
            ..self
        }.publish(s);
        if attempt.requested {
            run.emit(Command::Answer(Ok(s)))
        } else {
            run
        }
    }

    /// Gives back what a broken-off set-up has acquired.
    pub open spec fn unwind(self, stage: Stage<Seq<char>>) -> Run {
        match stage {
            Stage::Subscribing(Channel::Audio, _) => self.emit(Command::CloseService).emit(
                Command::CloseDevice,
            ),
            Stage::Subscribing(Channel::Control, _) => self.emit(
                Command::RemoveHandler(Channel::Audio),
            ).emit(Command::DisableNotifications(Channel::Audio)).emit(Command::CloseService).emit(
                Command::CloseDevice,
            ),
            Stage::WatchingLink(_) => self.emit(Command::RemoveHandler(Channel::Audio)).emit(
                Command::RemoveHandler(Channel::Control),
            ).emit(Command::DisableNotifications(Channel::Audio)).emit(
                Command::DisableNotifications(Channel::Control),
            ).emit(Command::CloseService).emit(Command::CloseDevice),
            Stage::RequestingCapabilities(_) => self.emit(Command::DropSession),
            _ => self,
        }
    }

    /// An attempt to connect failed: the next one is scheduled. After a failed
    /// reconnect the radio may be due for a restart.
    pub open spec fn attempt_failed(
        self,
        attempt: Attempt<Seq<char>>,
        error: FailureModel,
        env: SurroundingsModel,
    ) -> Run {
        let stale = Run {
            w: WorkerModel {
                connection_generation: next_number(self.w.connection_generation),
                ..self.w
            },
            ..self
        };
        let run = if error is BleCleanup {
            stale.keep_reconnecting(env.now, error)
        } else {
            stale.schedule_reconnect(env.now, failure_text(error))
        };
        if attempt.requested {
            run.emit(Command::Answer(Err(error)))
        } else if error is BleCleanup {
            run
        } else {
            run.query(
                Query::ConsultRadioPolicy {
                    attempt: run.w.backoff.attempt,
                    cycles: run.w.radio_recovery_cycles,
                },
                Pending::ConsultingRadioPolicy,
            )
        }
    }

    /// Whether the radio is restarted, which it is a limited number of times.
    pub open spec fn radio_policy(self, due: bool, limit: u32) -> Run {
        if due && self.w.radio_recovery_cycles < limit {
            let cycles = (self.w.radio_recovery_cycles + 1) as u32;
            Run {
                w: WorkerModel { radio_recovery_cycles: cycles, ..self.w },
                ..self
            }.report(radio_text(self.w.backoff.attempt, cycles, limit)).query(
                Query::CycleRadio,
                Pending::CyclingRadio,
            )
        } else {
            self
        }
    }

    /// The radio has been restarted, or not: a reconnect follows soon.
    pub open spec fn radio_cycled(self, error: Option<Seq<char>>, env: SurroundingsModel) -> Run {
        let text = match error {
            Some(error) => "蓝牙自动恢复失败："@ + error
                + "。请检查遥控器电量，或手动开关一次蓝牙后重试。"@,
            None => "蓝牙无线电已重启，正在重新连接小米语音遥控器…"@,
        };
        Run {
            w: WorkerModel {
                backoff: self.w.backoff.reset(),
                reconnect_deadline: Some(env.now.later(RADIO_RETRY_MS as int)),
                ..self.w
            },
            s: Snapshot { reconnect_attempt: 0, last_error: Some(text), ..self.s },
            ..self
        }
    }

    /// The nearest deadline may have passed. The deadlines take turns in this order:
    /// capabilities, reconnect, extension.
    pub open spec fn on_timeout(self, env: SurroundingsModel) -> Run {
        if is_due(self.w.capabilities_deadline, env.now) {
            Run {
                w: WorkerModel { capabilities_deadline: None, ..self.w },
                ..self
            }.begin_cleanup(After::CapabilitiesTimeout)
        } else if is_due(self.w.reconnect_deadline, env.now) {
            let run = Run { w: WorkerModel { reconnect_deadline: None, ..self.w }, ..self };
            match self.w.preferred_device_id {
                Some(device_id) => run.begin_cleanup(
                    After::Connect(
                        Attempt { requested: false, device_id, number: self.s.reconnect_attempt },
                    ),
                ),
                None => run,
            }
        } else if is_due(self.w.extend_deadline, env.now) {
            Run { w: WorkerModel { extend_deadline: None, ..self.w }, ..self }.extend_microphone(
                env,
            )
        } else {
            self
        }
    }

    /// Extends the microphone session, as long as it streams.
    pub open spec fn extend_microphone(self, env: SurroundingsModel) -> Run {
        match (env.pipeline.capabilities, env.pipeline.session_id) {
            (Some(capabilities), Some(session_id)) if env.pipeline.state is Streaming
                && self.w.session is Some => self.query(
                Query::ExtendMicrophone { version: capabilities.version, session_id },
                Pending::Extending { since: env.now },
            ),
            _ => self,
        }
    }

    /// The extension of the microphone session has been sent, or not. One that has no
    /// encoding is not tried again.
    pub open spec fn extended(self, since: Instant, outcome: WriteOutcome<Seq<char>>) -> Run {
        match outcome {
            WriteOutcome::Sent => Run {
                w: WorkerModel {
                    extend_deadline: Some(since.later(MICROPHONE_EXTEND_MS as int)),
                    ..self.w
                },
                ..self
            },
            WriteOutcome::Failed(error) => self.report(
                "发送 MIC_EXTEND 失败："@ + failure_text(error),
            ),
            WriteOutcome::Unencodable => self,
        }
    }

    /// A message arrived.
    pub open spec fn on_message(self, message: MessageModel, env: SurroundingsModel) -> Run {
        match message {
            Message::Connect { device_id } => Run {
                w: WorkerModel {
                    preferred_device_id: Some(device_id),
                    system_suspended: false,
                    reconnect_deadline: None,
                    capabilities_deadline: None,
                    ..self.w
                },
                ..self
            }.calm().begin_cleanup(
                After::Connect(Attempt { requested: true, device_id, number: 0 }),
            ),
            Message::Disconnect => Run {
                w: WorkerModel {
                    preferred_device_id: None,
                    system_suspended: false,
                    reconnect_deadline: None,
                    capabilities_deadline: None,
                    ..self.w
                },
                ..self
            }.calm().begin_cleanup(After::Disconnect),
            Message::Restore { device_id } => self.restore(device_id, env),
            Message::WakeReconnect => self.wake_reconnect(env),
            Message::RetryVoiceChord { attempt, epoch, baseline } => self.retry_voice_chord(
                Retry { attempt, epoch },
                baseline,
                env,
            ),
            Message::Control { connection_generation, bytes } => {
                if connection_generation == self.w.connection_generation {
                    self.on_control(bytes, env)
                } else {
                    self
                }
            },
            Message::Audio { connection_generation, bytes } => {
                if connection_generation == self.w.connection_generation
                    && env.pipeline.state is Streaming {
                    self.query(Query::CheckAudio, Pending::CheckingAudio { bytes })
                } else {
                    self
                }
            },
            Message::ConnectionChanged { connection_generation, status } => {
                if connection_generation == self.w.connection_generation
                    && status is Disconnected {
                    Run {
                        w: WorkerModel { capabilities_deadline: None, ..self.w },
                        ..self
                    }.begin_cleanup(After::LinkLost)
                } else {
                    self
                }
            },
            Message::CallbackError { connection_generation, error } => {
                if connection_generation == self.w.connection_generation {
                    Run {
                        w: WorkerModel { capabilities_deadline: None, ..self.w },
                        ..self
                    }.begin_cleanup(After::CallbackFailed { error })
                } else {
                    self
                }
            },
            Message::SystemSuspended => Run {
                w: WorkerModel {
                    system_suspended: true,
                    capabilities_deadline: None,
                    reconnect_deadline: None,
                    ..self.w
                },
                ..self
            }.begin_cleanup(After::Suspend),
            Message::SystemResumed => {
                if self.w.system_suspended {
                    self.resume(env)
                } else {
                    self
                }
            },
            Message::Shutdown => self.shut_down(),
        }
    }

    /// Comes back to the device of an earlier run: at once, or after the system has
    /// woken up.
    pub open spec fn restore(self, device_id: Seq<char>, env: SurroundingsModel) -> Run {
        let s = if self.w.system_suspended {
            Snapshot {
                phase: ConnectionPhase::Suspended,
                last_error: Some(
                    "Windows 当前处于睡眠状态，恢复后将重新连接小米语音遥控器"@,
                ),
                ..blank()
            }
        } else {
            Snapshot {
                phase: ConnectionPhase::Reconnecting,
                last_error: Some("正在恢复上次选择的小米语音遥控器"@),
                ..blank()
            }
        };
        Run {
            w: WorkerModel {
                preferred_device_id: Some(device_id),
                reconnect_deadline: if self.w.system_suspended {
                    None
                } else {
                    Some(env.now)
                },
                ..self.w
            },
            ..self
        }.calm().publish(s).emit(Command::Answer(Ok(s)))
    }

    /// The remote is awake: a scheduled reconnect happens at once.
    pub open spec fn wake_reconnect(self, env: SurroundingsModel) -> Run {
        if self.w.session is None && self.w.wants_connection()
            && self.w.reconnect_deadline is Some {
            Run {
                w: WorkerModel {
                    backoff: self.w.backoff.reset(),
                    reconnect_deadline: Some(env.now),
                    ..self.w
                },
                s: if self.s.phase is Reconnecting {
                    Snapshot { reconnect_attempt: 0, ..self.s }
                } else {
                    self.s
                },
                ..self
            }.emit(Command::Log(Note::WakeReconnect))
        } else {
            self
        }
    }

    /// The system has woken up.
    pub open spec fn resume(self, env: SurroundingsModel) -> Run {
        let run = Run { w: WorkerModel { system_suspended: false, ..self.w }, ..self }.calm();
        if self.w.preferred_device_id is Some {
            Run {
                w: WorkerModel { reconnect_deadline: Some(env.now), ..run.w },
                ..run
            }.publish(
                Snapshot {
                    phase: ConnectionPhase::Reconnecting,
                    remote_name: self.s.remote_name,
                    remote_model: self.s.remote_model,
                    last_error: Some("Windows 已恢复，正在重新连接小米语音遥控器"@),
                    ..blank()
                },
            )
        } else {
            run.publish(blank())
        }
    }

    /// The worker ends.
    pub open spec fn shut_down(self) -> Run {
        let run = self.release_hotkey().emit(Command::InterruptAudio);
        let run = if self.w.session is Some {
            run.emit(Command::DropSession)
        } else {
            run
        };
        let run = run.emit(Command::InterruptPipeline);
        Run { w: WorkerModel { session: None, pending: Pending::Stopped, ..run.w }, ..run }
    }

    /// Presses the chord again, unless the voice session is over.
    pub open spec fn retry_voice_chord(
        self,
        retry: Retry,
        baseline: Option<MicObservation>,
        env: SurroundingsModel,
    ) -> Run {
        if env.pipeline.state is Streaming && self.w.voice_session_epoch == retry.epoch {
            self.query(Query::CompareMicrophone { baseline }, Pending::RetryComparing(retry))
        } else {
            self.emit(Command::Log(Note::RetryStale { epoch: retry.epoch }))
        }
    }

    /// The microphone has been looked at before a repeated press: only where the input
    /// method certainly did not react is the old chord released.
    pub open spec fn retry_compared(
        self,
        retry: Retry,
        reading: Option<MicObservation>,
        response: MicResponse,
        env: SurroundingsModel,
    ) -> Run {
        if response is NotObserved {
            match (env.hotkey, self.w.held_hotkey) {
                (Some(chord), Some(held)) => self.query(
                    Query::ReleaseChord(held),
                    Pending::RetryReleasing { retry, reading, chord },
                ),
                _ => self.emit(Command::Log(Note::RetryNoChord)),
            }
        } else {
            self.emit(Command::Log(Note::RetryMicActive { epoch: retry.epoch }))
        }
    }

    /// The old chord has been released for a repeated press, or not.
    pub open spec fn retry_released(
        self,
        retry: Retry,
        reading: Option<MicObservation>,
        chord: ChordModel,
        error: Option<Seq<char>>,
    ) -> Run {
        if error is Some {
            self.emit(Command::Log(Note::RetryReleaseFailed { epoch: retry.epoch }))
        } else {
            Run { w: WorkerModel { held_hotkey: None, ..self.w }, ..self }.query(
                Query::PressChord(chord),
                Pending::RetryPressing { retry, reading, chord },
            )
        }
    }

    /// The chord has been pressed again, or not.
    pub open spec fn retry_pressed(
        self,
        retry: Retry,
        reading: Option<MicObservation>,
        chord: ChordModel,
        error: Option<Seq<char>>,
    ) -> Run {
        if error is Some {
            self.emit(
                Command::Log(
                    Note::RetryPressFailed { attempt: retry.attempt, epoch: retry.epoch },
                ),
            )
        } else {
            Run { w: WorkerModel { held_hotkey: Some(chord), ..self.w }, ..self }.emit(
                Command::Log(Note::RetryPressed { attempt: retry.attempt, epoch: retry.epoch }),
            ).emit(
                Command::WatchWeType {
                    attempt: retry.attempt,
                    epoch: retry.epoch,
                    baseline: reading,
                },
            )
        }
    }

    /// A control packet of the present connection. A stop while nothing streams says
    /// nothing.
    pub open spec fn on_control(self, bytes: Seq<u8>, env: SurroundingsModel) -> Run {
        if bytes.len() > 0 && bytes[0] == 0 && env.pipeline.state is Idle {
            self.control_settled()
        } else {
            self.query(Query::DecodeControl(bytes), Pending::Decoding)
        }
    }

    /// A control packet has been dealt with: what the phase means for the deadlines,
    /// and for the connection where it has failed.
    pub open spec fn control_settled(self) -> Run {
        let run = if self.s.phase is AwaitingCapabilities {
            self
        } else {
            Run { w: WorkerModel { capabilities_deadline: None, ..self.w }, ..self }
        };
        if self.s.phase is Ready {
            Run { s: Snapshot { reconnect_attempt: 0, ..self.s }, ..run.calm() }
        } else if self.s.phase is Failed {
            let error = match self.s.last_error {
                Some(error) => error,
                None => "ATVV 能力确认失败"@,
            };
            run.begin_cleanup(After::ControlFailed { error })
        } else {
            run
        }
    }

    /// A control packet could not be decoded.
    pub open spec fn control_undecodable(self, error: Seq<char>) -> Run {
        let run = self.report(error);
        if self.s.phase is AwaitingCapabilities {
            run.enter(ConnectionPhase::Failed, VoiceSessionState::Idle).control_settled()
        } else {
            run.control_settled()
        }
    }

    /// Marks the microphone of the connection as opened or closed.
    pub open spec fn mark_microphone(self, opened: bool) -> Run {
        Run {
            w: WorkerModel {
                session: match self.w.session {
                    Some(session) => Some(Session { microphone_opened: opened, ..session }),
                    None => None,
                },
                ..self.w
            },
            ..self
        }
    }

    /// A control packet has been decoded.
    pub open spec fn control_decoded(
        self,
        output: PipelineOutput<Seq<i16>>,
        env: SurroundingsModel,
    ) -> Run {
        match output {
            PipelineOutput::Ready(capabilities) => self.publish(
                Snapshot {
                    phase: ConnectionPhase::Ready,
                    capabilities: Some(capabilities),
                    voice_state: VoiceSessionState::Idle,
                    last_error: None,
                    ..self.s
                },
            ).control_settled(),
            PipelineOutput::MicrophoneOpenRequested => self.open_microphone(env),
            PipelineOutput::StreamStarted { session_id, generation } => self.stream_started(
                session_id,
                generation,
                env,
            ),
            PipelineOutput::StreamStopped { generation } => {
                let run = self.mark_microphone(false);
                Run {
                    w: WorkerModel { extend_deadline: None, ..run.w },
                    ..run
                }.release_hotkey().enter(
                    ConnectionPhase::Draining,
                    VoiceSessionState::Draining,
                ).query(Query::FinishAudio { generation }, Pending::FinishingAudio { generation })
            },
            _ => self.control_settled(),
        }
    }

    /// The remote asks for its microphone to be opened, which happens once and only
    /// while nothing streams.
    pub open spec fn open_microphone(self, env: SurroundingsModel) -> Run {
        match (env.pipeline.capabilities, self.w.session) {
            (Some(capabilities), Some(session)) if env.pipeline.state is Idle
                && !session.microphone_opened => self.query(
                Query::OpenMicrophone {
                    version: capabilities.version,
                    codec: capabilities.selected_codec,
                },
                Pending::OpeningMicrophone,
            ),
            _ => self.control_settled(),
        }
    }

    /// The microphone has been opened, or not.
    pub open spec fn microphone_opened(self, outcome: WriteOutcome<Seq<char>>) -> Run {
        match outcome {
            WriteOutcome::Sent => self.mark_microphone(true).control_settled(),
            WriteOutcome::Unencodable => self.report(
                failure_text(Failure::Protocol("无法编码 MIC_OPEN"@)),
            ).control_settled(),
            WriteOutcome::Failed(error) => self.report(failure_text(error)).control_settled(),
        }
    }

    /// A voice session begins: it gets its own number, the voice key is swallowed, and
    /// a stuck key is released before the chord is pressed.
    pub open spec fn stream_started(
        self,
        session_id: u8,
        generation: u64,
        env: SurroundingsModel,
    ) -> Run {
        let epoch = next_number(self.w.voice_session_epoch);
        let run = self.mark_microphone(true);
        Run {
            w: WorkerModel {
                voice_session_epoch: epoch,
                active_voice_samples: 0,
                extend_deadline: Some(env.now.later(MICROPHONE_EXTEND_MS as int)),
                ..run.w
            },
            ..run
        }.emit(Command::PublishEpoch(epoch)).emit(Command::SetSessionActive(true)).emit(
            Command::ReleaseStuckF5,
        ).query(
            Query::Sleep { millis: KEY_SETTLE_MS },
            Pending::StartSettling(Start { session_id, generation, epoch }),
        )
    }

    /// The keys have settled: the chord is next where one is configured.
    pub open spec fn start_settled(self, start: Start, env: SurroundingsModel) -> Run {
        match env.hotkey {
            Some(chord) => self.query(
                Query::ReadMicrophone,
                Pending::StartReading { start, chord },
            ),
            None => self.emit(
                Command::Log(Note::ChordPressSkipped { session_id: start.session_id }),
            ).begin_audio(start, None),
        }
    }

    /// Starts the audio session.
    pub open spec fn begin_audio(self, start: Start, hint: Option<Seq<char>>) -> Run {
        self.query(
            Query::BeginAudio { generation: start.generation },
            Pending::StartingAudio { start, hint },
        )
    }

    /// The microphone has been looked at: before its default chord is pressed, WeType
    /// is made the active input method.
    pub open spec fn start_read(
        self,
        start: Start,
        chord: ChordModel,
        baseline: Option<MicObservation>,
    ) -> Run {
        if is_wetype_default(chord) {
            self.query(
                Query::ActivateWeType,
                Pending::StartActivating { start, chord, baseline },
            )
        } else {
            self.emit(Command::Log(Note::ActivationSkippedCustomHotkey)).query(
                Query::PressChord(chord),
                Pending::StartPressing { start, chord, baseline, hint: None },
            )
        }
    }

    /// WeType has been activated, or not; the chord is pressed either way, and a failure
    /// becomes the hint of the voice session.
    pub open spec fn start_activated(
        self,
        start: Start,
        chord: ChordModel,
        baseline: Option<MicObservation>,
        error: Option<Seq<char>>,
    ) -> Run {
        let run = match error {
            Some(error) => self.report(error),
            None => self,
        };
        run.query(
            Query::PressChord(chord),
            Pending::StartPressing { start, chord, baseline, hint: error },
        )
    }

    /// The chord has been pressed, or not; without it there is no voice session.
    pub open spec fn start_pressed(
        self,
        start: Start,
        chord: ChordModel,
        baseline: Option<MicObservation>,
        hint: Option<Seq<char>>,
        error: Option<Seq<char>>,
        env: SurroundingsModel,
    ) -> Run {
        match error {
            Some(error) => self.emit(
                Command::Log(Note::ChordPressFailed { session_id: start.session_id }),
            ).abort(
                Source::Control,
                Some(start.session_id),
                "按住说话快捷键注入失败："@ + error,
                env,
            ),
            None => {
                let run = Run {
                    w: WorkerModel { held_hotkey: Some(chord), ..self.w },
                    ..self
                }.emit(Command::Log(Note::ChordPressed { session_id: start.session_id }));
                if is_wetype_default(chord) {
                    run.emit(
                        Command::WatchWeType { attempt: 0, epoch: start.epoch, baseline },
                    ).begin_audio(start, hint)
                } else {
                    run.begin_audio(start, hint)
                }
            },
        }
    }

    /// The audio session has begun, or not; without it there is no voice session. Of what
    /// went wrong before, only the hint of this session stays published.
    pub open spec fn audio_begun(
        self,
        start: Start,
        hint: Option<Seq<char>>,
        error: Option<Seq<char>>,
        env: SurroundingsModel,
    ) -> Run {
        match error {
            Some(error) => self.emit(
                Command::Log(Note::AudioBeginFailed { session_id: start.session_id }),
            ).abort(Source::Control, Some(start.session_id), error, env),
            None => self.publish(
                Snapshot {
                    phase: ConnectionPhase::Streaming,
                    voice_state: VoiceSessionState::Streaming,
                    generation: start.generation,
                    last_error: hint,
                    ..self.s
                },
            ).control_settled(),
        }
    }

    /// The audio session has been played out, or not.
    pub open spec fn audio_finished(
        self,
        generation: u64,
        error: Option<Seq<char>>,
        env: SurroundingsModel,
    ) -> Run {
        match error {
            Some(error) => self.abort(Source::Control, None, error, env),
            None => self.query(Query::CompleteDrain { generation }, Pending::CompletingDrain),
        }
    }

    /// The voice session is over, or the pipeline does not think so.
    pub open spec fn drain_completed(self, error: Option<Seq<char>>) -> Run {
        match error {
            Some(error) => self.report(error).control_settled(),
            None => Run {
                w: WorkerModel { active_voice_samples: 0, ..self.w },
                ..self
            }.emit(Command::RecordUsage(self.w.active_voice_samples)).enter(
                ConnectionPhase::Ready,
                VoiceSessionState::Idle,
            ).control_settled(),
        }
    }

    /// Breaks a voice session off: the chord is released, and the remote is told where
    /// it can be.
    pub open spec fn abort(
        self,
        source: Source,
        session_id: Option<u8>,
        error: Seq<char>,
        env: SurroundingsModel,
    ) -> Run {
        let run = self.release_hotkey();
        match (env.pipeline.capabilities, session_id) {
            (Some(capabilities), Some(session_id)) if self.w.session is Some => run.query(
                Query::CloseMicrophone { version: capabilities.version, session_id },
                Pending::Aborting { source, error },
            ),
            _ => run.aborted(source, error),
        }
    }

    /// The remote has been told of the end of the voice session, as far as it can be.
    pub open spec fn microphone_closed(
        self,
        source: Source,
        error: Seq<char>,
        outcome: WriteOutcome<Seq<char>>,
    ) -> Run {
        if outcome is Sent {
            self.mark_microphone(false).aborted(source, error)
        } else {
            self.aborted(source, error)
        }
    }

    /// The voice session is broken off; the connection stays usable where the remote
    /// has stated its capabilities.
    pub open spec fn aborted(self, source: Source, error: Seq<char>) -> Run {
        let phase = if self.s.capabilities is Some {
            ConnectionPhase::Ready
        } else {
            ConnectionPhase::Failed
        };
        let run = Run {
            w: WorkerModel { active_voice_samples: 0, ..self.w },
            ..self
        }.emit(Command::InterruptAudio).emit(Command::InterruptPipeline).enter(
            phase,
            VoiceSessionState::Idle,
        ).report(error);
        match source {
            Source::Control => run.control_settled(),
            Source::Audio => run,
        }
    }

    /// The audio output has been looked at before a packet is decoded.
    pub open spec fn audio_checked(
        self,
        bytes: Seq<u8>,
        error: Option<Seq<char>>,
        env: SurroundingsModel,
    ) -> Run {
        match error {
            Some(error) => self.abort(Source::Audio, env.pipeline.session_id, error, env),
            None => self.query(Query::DecodeAudio(bytes), Pending::DecodingAudio),
        }
    }

    /// An audio packet has been decoded.
    pub open spec fn audio_decoded(self, output: PipelineOutput<Seq<i16>>) -> Run {
        match output {
            PipelineOutput::Samples { generation, samples } => self.query(
                Query::EnqueueSamples { generation, samples },
                Pending::Enqueueing { generation, count: samples.len() as u64 },
            ),
            _ => self,
        }
    }

    /// Samples have been handed to the audio output, or not.
    pub open spec fn samples_enqueued(
        self,
        generation: u64,
        count: u64,
        error: Option<Seq<char>>,
        env: SurroundingsModel,
    ) -> Run {
        match error {
            Some(error) => self.abort(Source::Audio, env.pipeline.session_id, error, env),
            None => Run {
                w: WorkerModel {
                    active_voice_samples: capped_sum(self.w.active_voice_samples, count),
                    ..self.w
                },
                s: Snapshot {
                    decoded_samples: capped_sum(self.s.decoded_samples, count),
                    generation,
                    ..self.s
                },
                ..self
            },
        }
    }

    /// An answer to a query of a clean-up.
    #[verifier::opaque]
    pub open spec fn reply_cleanup(self, reply: ReplyModel, env: SurroundingsModel) -> Run {
        let run = Run { w: WorkerModel { pending: Pending::Idle, ..self.w }, ..self };
        match (self.w.pending, reply) {
            (Pending::CleaningAudio(after), Reply::Outcome(error)) => run.audio_interrupted(
                after,
                error,
                env,
            ),
            (Pending::CleaningSession { after, audio_error }, Reply::Closed(report)) =>
                run.session_closed(after, audio_error, report, env),
            _ => self,
        }
    }

    /// An answer to a query of a connection set-up.
    #[verifier::opaque]
    pub open spec fn reply_connecting(self, reply: ReplyModel, env: SurroundingsModel) -> Run {
        let run = Run { w: WorkerModel { pending: Pending::Idle, ..self.w }, ..self };
        match (self.w.pending, reply) {
            (Pending::Connecting { stage: Stage::Naming, attempt }, Reply::Named { name, model }) =>
            {
                if model is Unknown {
                    run.advance(Query::ReadModel, Stage::Modeling { name }, attempt)
                } else {
                    run.discovered(attempt, Identity { name, model })
                }
            },
            (
                Pending::Connecting { stage: Stage::Modeling { name }, attempt },
                Reply::Model(model),
            ) => run.discovered(
                attempt,
                Identity {
                    name,
                    model: match model {
                        Some(model) => model,
                        None => RemoteModel::Unknown,
                    },
                },
            ),
            (Pending::Connecting { stage, attempt }, Reply::Attempted(failure)) =>
                run.stage_attempted(stage, attempt, failure, env),
            _ => self,
        }
    }

    /// An answer to a query that a deadline led to.
    #[verifier::opaque]
    pub open spec fn reply_timed(self, reply: ReplyModel, env: SurroundingsModel) -> Run {
        let run = Run { w: WorkerModel { pending: Pending::Idle, ..self.w }, ..self };
        match (self.w.pending, reply) {
            (Pending::ConsultingRadioPolicy, Reply::RadioPolicy { due, limit }) =>
                run.radio_policy(due, limit),
            (Pending::CyclingRadio, Reply::Outcome(error)) => run.radio_cycled(error, env),
            (Pending::Extending { since }, Reply::Written(outcome)) => run.extended(
                since,
                outcome,
            ),
            _ => self,
        }
    }

    /// An answer to a query of a repeated press.
    #[verifier::opaque]
    pub open spec fn reply_retry(self, reply: ReplyModel, env: SurroundingsModel) -> Run {
        let run = Run { w: WorkerModel { pending: Pending::Idle, ..self.w }, ..self };
        match (self.w.pending, reply) {
            (Pending::RetryComparing(retry), Reply::Compared { reading, response }) =>
                run.retry_compared(retry, reading, response, env),
            (Pending::RetryReleasing { retry, reading, chord }, Reply::Outcome(error)) =>
                run.retry_released(retry, reading, chord, error),
            (Pending::RetryPressing { retry, reading, chord }, Reply::Outcome(error)) =>
                run.retry_pressed(retry, reading, chord, error),
            _ => self,
        }
    }

    /// An answer to a query about a control packet.
    #[verifier::opaque]
    pub open spec fn reply_control(self, reply: ReplyModel, env: SurroundingsModel) -> Run {
        let run = Run { w: WorkerModel { pending: Pending::Idle, ..self.w }, ..self };
        match (self.w.pending, reply) {
            (Pending::Decoding, Reply::Decoded(output)) => run.control_decoded(output, env),
            (Pending::Decoding, Reply::DecodeFailed(error)) => run.control_undecodable(error),
            (Pending::OpeningMicrophone, Reply::Written(outcome)) => run.microphone_opened(
                outcome,
            ),
            _ => self,
        }
    }

    /// An answer to a query of a voice session that ends.
    #[verifier::opaque]
    pub open spec fn reply_ending(self, reply: ReplyModel, env: SurroundingsModel) -> Run {
        let run = Run { w: WorkerModel { pending: Pending::Idle, ..self.w }, ..self };
        match (self.w.pending, reply) {
            (Pending::FinishingAudio { generation }, Reply::Outcome(error)) => run.audio_finished(
                generation,
                error,
                env,
            ),
            (Pending::CompletingDrain, Reply::Outcome(error)) => run.drain_completed(error),
            (Pending::Aborting { source, error }, Reply::Written(outcome)) =>
                run.microphone_closed(source, error, outcome),
            _ => self,
        }
    }

    /// An answer to a query of a voice session that starts.
    #[verifier::opaque]
    pub open spec fn reply_start(self, reply: ReplyModel, env: SurroundingsModel) -> Run {
        let run = Run { w: WorkerModel { pending: Pending::Idle, ..self.w }, ..self };
        match (self.w.pending, reply) {
            (Pending::StartSettling(start), Reply::Slept) => run.start_settled(start, env),
            (Pending::StartReading { start, chord }, Reply::Reading(reading)) => run.start_read(
                start,
                chord,
                reading,
            ),
            (Pending::StartActivating { start, chord, baseline }, Reply::Outcome(error)) =>
                run.start_activated(start, chord, baseline, error),
            (Pending::StartPressing { start, chord, baseline, hint }, Reply::Outcome(error)) =>
                run.start_pressed(start, chord, baseline, hint, error, env),
            (Pending::StartingAudio { start, hint }, Reply::Outcome(error)) => run.audio_begun(
                start,
                hint,
                error,
                env,
            ),
            _ => self,
        }
    }

    /// An answer to a query about an audio packet.
    #[verifier::opaque]
    pub open spec fn reply_audio(self, reply: ReplyModel, env: SurroundingsModel) -> Run {
        let run = Run { w: WorkerModel { pending: Pending::Idle, ..self.w }, ..self };
        match (self.w.pending, reply) {
            (Pending::CheckingAudio { bytes }, Reply::Outcome(error)) => run.audio_checked(
                bytes,
                error,
                env,
            ),
            (Pending::DecodingAudio, Reply::Decoded(output)) => run.audio_decoded(output),
            (Pending::DecodingAudio, Reply::DecodeFailed(error)) => run.report(error),
            (Pending::Enqueueing { generation, count }, Reply::Outcome(error)) =>
                run.samples_enqueued(generation, count, error, env),
            _ => self,
        }
    }

    /// An answer to the pending query; any other answer changes nothing. What the answers
    /// lead to is opaque, one function for each activity; `reveal` shows it.
    pub open spec fn on_reply(self, reply: ReplyModel, env: SurroundingsModel) -> Run {
        match activity(self.w.pending) {
            Activity::Resting => self,
            Activity::Cleanup => self.reply_cleanup(reply, env),
            Activity::Connecting => self.reply_connecting(reply, env),
            Activity::Timed => self.reply_timed(reply, env),
            Activity::Retry => self.reply_retry(reply, env),
            Activity::Control => self.reply_control(reply, env),
            Activity::Ending => self.reply_ending(reply, env),
            Activity::Start => self.reply_start(reply, env),
            Activity::Audio => self.reply_audio(reply, env),
        }
    }
}

/// One step of the worker. Messages and timeouts are for a worker that waits for
/// nothing, answers for one that has asked; anything else changes nothing.
pub open spec fn step(
    w: WorkerModel,
    s: SnapshotModel,
    env: SurroundingsModel,
    event: EventModel,
) -> Run {
    let run = Run { w, s, out: Seq::empty(), ask: None };
    match event {
        Event::Timeout => if w.pending is Idle {
            run.on_timeout(env)
        } else {
            run
        },
        Event::Message(message) => if w.pending is Idle {
            run.on_message(message, env)
        } else {
            run
        },
        Event::Reply(reply) => run.on_reply(reply, env),
    }
}

} // verus!
