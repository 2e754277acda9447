//! The worker: one step at a time, from an event to what the host has to do.
use crate::chord::{chord_is_wetype_default, chord_of, copy_chord, KeyChord};
use crate::deadline::{due, nearest_deadline, Instant};
use crate::diagnostics::Note;
use crate::error::{Failure, PlatformError};
use crate::laws::{consistent, steps_keep_consistency};
use crate::model::{
    activity, cleanup_error, cleanup_reason, close_error, labelled, next_number,
    release_commands, rescheduled, step, Activity, Run, WorkerModel, CAPABILITIES_TIMEOUT_MS, KEY_SETTLE_MS,
    MICROPHONE_EXTEND_MS, RADIO_RETRY_MS, RECONNECT_BASE_MS, RECONNECT_MAX_MS,
};
use crate::protocol::{
    commands_of, failure_of, query_of, session_of, After, Attempt, Channel, Characteristic, CloseReport,
    Command, Event, HostCommand, HostQuery, Identity, LinkStatus, Message, MicObservation,
    MicResponse, Pending, PipelineOutput, Query, Reply, Retry, Session, Source, Stage, Start,
    WorkerEvent, WorkerMessage, WorkerPending, WorkerReply, WorkerSurroundings, WriteOutcome,
};
use crate::reconnect::ReconnectBackoff;
use crate::snapshot::{
    failed, failed_snapshot, gate_remote_connected, ConnectionPhase, ConnectionSnapshot,
    RemoteModel, VoiceSessionState,
};
use crate::text::{copy_text, decimal, join, join2, text_of, texts};
use vstd::prelude::*;

verus! {

/// Adds a command to those that the host has to carry out.
fn push_command(out: &mut Vec<HostCommand>, command: HostCommand)
    ensures
        commands_of(final(out)@) == commands_of(old(out)@).push(command@),
{
    out.push(command);
    assert(commands_of(out@) =~= commands_of(old(out)@).push(command@));
}

/// Schedules a reconnect after the next delay of the backoff, and publishes why.
pub fn schedule_reconnect(
    snapshot: &mut ConnectionSnapshot,
    backoff: &mut ReconnectBackoff,
    reconnect_deadline: &mut Option<Instant>,
    out: &mut Vec<HostCommand>,
    now: Instant,
    reason: &str,
)
    requires
        old(backoff).wf(),
        now.admits(old(backoff)@.max as int),
    ensures
        final(backoff).wf(),
        final(backoff)@ == old(backoff)@.scheduled(),
        *final(reconnect_deadline) == Some(now.later(final(backoff)@.delay())),
        final(snapshot)@ == rescheduled(old(snapshot)@, final(backoff)@, reason@),
        commands_of(final(out)@) == commands_of(old(out)@).push(Command::SetRemoteGate(true)),
{
    let (attempt, delay) = backoff.schedule_next();
    *reconnect_deadline = Some(now.after(delay));
    snapshot.phase = ConnectionPhase::Reconnecting;
    push_command(out, Command::SetRemoteGate(gate_remote_connected(snapshot.phase)));
    snapshot.capabilities = None;
    snapshot.voice_state = VoiceSessionState::Idle;
    snapshot.generation = 0;
    snapshot.reconnect_attempt = attempt;
    let mut text = reason.to_owned();
    text.append("；将在 ");
    text.append(decimal(delay / 1_000).as_str());
    text.append(" 秒后进行第 ");
    text.append(decimal(attempt as u64).as_str());
    text.append(" 次重连");
    snapshot.last_error = Some(text);
}

/// Goes on after a clean-up that failed. As long as a device is wanted, a reconnect
/// is scheduled, which cleans up again; without one the failure is published.
pub fn keep_reconnecting_after_cleanup_failure(
    snapshot: &mut ConnectionSnapshot,
    preferred_device_id: &Option<String>,
    backoff: &mut ReconnectBackoff,
    reconnect_deadline: &mut Option<Instant>,
    out: &mut Vec<HostCommand>,
    now: Instant,
    error: &PlatformError,
)
    requires
        old(backoff).wf(),
        now.admits(old(backoff)@.max as int),
    ensures
        final(backoff).wf(),
        preferred_device_id is Some ==> {
            &&& final(backoff)@ == old(backoff)@.scheduled()
            &&& *final(reconnect_deadline) == Some(now.later(final(backoff)@.delay()))
            &&& final(snapshot)@ == rescheduled(
                old(snapshot)@,
                final(backoff)@,
                cleanup_reason(error@),
            )
            &&& commands_of(final(out)@) == commands_of(old(out)@).push(
                Command::SetRemoteGate(true),
            )
        },
        preferred_device_id is None ==> {
            &&& final(backoff)@ == old(backoff)@
            &&& *final(reconnect_deadline) is None
            &&& final(snapshot)@ == failed(crate::error::failure_text(error@))
            &&& commands_of(final(out)@) == commands_of(old(out)@).push(
                Command::SetRemoteGate(false),
            )
        },
{
    if preferred_device_id.is_some() {
        let text = error.text();
        let reason = join2(text.as_str(), "；旧会话清理失败，将继续重试并再次清理");
        schedule_reconnect(snapshot, backoff, reconnect_deadline, out, now, reason.as_str());
    } else {
        *reconnect_deadline = None;
        *snapshot = failed_snapshot(error.text());
        push_command(out, Command::SetRemoteGate(false));
    }
}

/// Lets go of the push-to-talk chord. The keys go up once, only where they are held,
/// and the voice key is let through again in any case.
pub fn release_voice_hold_hotkey(held_hotkey: &mut Option<KeyChord>, out: &mut Vec<HostCommand>)
    ensures
        *final(held_hotkey) is None,
        commands_of(final(out)@) == commands_of(old(out)@) + release_commands(
            chord_of(*old(held_hotkey)),
        ),
{
    push_command(out, Command::SetSessionActive(false));
    match held_hotkey.take() {
        Some(chord) => {
            push_command(out, Command::ReleaseHeldChord(chord));
        },
        None => {},
    }
    assert(commands_of(out@) =~= commands_of(old(out)@) + release_commands(
        chord_of(*old(held_hotkey)),
    ));
}

/// The error of closing a connection, none where all of it was released.
pub fn close_error_text(report: CloseReport<String>) -> (error: Option<String>)
    ensures
        text_of(error) == close_error(report@),
{
    let mut errors: Vec<String> = Vec::new();
    push_labelled(&mut errors, "移除音频通知处理器：", report.audio_handler);
    push_labelled(&mut errors, "移除控制通知处理器：", report.control_handler);
    push_labelled(&mut errors, "移除连接状态处理器：", report.link_handler);
    push_labelled(&mut errors, "关闭 GATT service：", report.service);
    push_labelled(&mut errors, "关闭蓝牙设备：", report.device);
    assert(texts(Seq::empty()) =~= Seq::<Seq<char>>::empty());
    assert(Seq::<Seq<char>>::empty() + labelled(
        "移除音频通知处理器："@,
        report@.audio_handler,
    ) =~= labelled("移除音频通知处理器："@, report@.audio_handler));
    if errors.len() == 0 {
        None
    } else {
        Some(join(&errors, "；"))
    }
}

/// Whether all of a connection was released.
pub fn is_clean(report: &CloseReport<String>) -> (clean: bool)
    ensures
        clean == (close_error(report@) is None),
{
    report.audio_handler.is_none() && report.control_handler.is_none()
        && report.link_handler.is_none() && report.service.is_none() && report.device.is_none()
}

/// Adds an error with what it belongs to in front of it.
fn push_labelled(errors: &mut Vec<String>, label: &str, error: Option<String>)
    ensures
        texts(final(errors)@) == texts(old(errors)@) + labelled(label@, text_of(error)),
{
    match error {
        Some(error) => {
            errors.push(join2(label, error.as_str()));
        },
        None => {},
    }
    assert(texts(errors@) =~= texts(old(errors)@) + labelled(label@, text_of(error)));
}

/// The error of a clean-up, none where nothing went wrong.
fn cleanup_error_text(audio_error: Option<String>, session_error: Option<String>) -> (error: Option<
    String,
>)
    ensures
        text_of(error) == cleanup_error(text_of(audio_error), text_of(session_error)),
{
    let mut errors: Vec<String> = Vec::new();
    push_labelled(&mut errors, "音频中断：", audio_error);
    assert(texts(Seq::empty()) + labelled("音频中断："@, text_of(audio_error)) =~= labelled(
        "音频中断："@,
        text_of(audio_error),
    ));
    let ghost first = texts(errors@);
    match session_error {
        Some(error) => {
            errors.push(error);
            assert(texts(errors@) =~= first.push(error@));
            assert(first.push(error@) =~= first + seq![error@]);
        },
        None => {
            assert(first =~= first + Seq::<Seq<char>>::empty());
        },
    }
    if errors.len() == 0 {
        None
    } else {
        Some(join(&errors, "；"))
    }
}

/// The state of the worker between steps.
#[derive(Debug)]
pub struct Worker {
    session: Option<Session<String>>,
    active_voice_samples: u64,
    connection_generation: u64,
    capabilities_deadline: Option<Instant>,
    reconnect_deadline: Option<Instant>,
    extend_deadline: Option<Instant>,
    preferred_device_id: Option<String>,
    system_suspended: bool,
    backoff: ReconnectBackoff,
    held_hotkey: Option<KeyChord>,
    voice_session_epoch: u64,
    radio_recovery_cycles: u32,
    pending: WorkerPending,
}

impl View for Worker {
    type V = WorkerModel;

    closed spec fn view(&self) -> WorkerModel {
        WorkerModel {
            session: session_of(self.session),
            active_voice_samples: self.active_voice_samples,
            connection_generation: self.connection_generation,
            capabilities_deadline: self.capabilities_deadline,
            reconnect_deadline: self.reconnect_deadline,
            extend_deadline: self.extend_deadline,
            preferred_device_id: text_of(self.preferred_device_id),
            system_suspended: self.system_suspended,
            backoff: self.backoff@,
            held_hotkey: chord_of(self.held_hotkey),
            voice_session_epoch: self.voice_session_epoch,
            radio_recovery_cycles: self.radio_recovery_cycles,
            pending: self.pending@,
        }
    }
}

/// What the worker is busy with while it waits.
fn activity_of(pending: &WorkerPending) -> (busy: Activity)
    ensures
        busy == activity(pending@),
{
    match pending {
        Pending::Idle | Pending::Stopped => Activity::Resting,
        Pending::CleaningAudio(_)
        | Pending::CleaningSession { .. } => Activity::Cleanup,
        Pending::Connecting { .. } => Activity::Connecting,
        Pending::ConsultingRadioPolicy
        | Pending::CyclingRadio
        | Pending::Extending { .. } => Activity::Timed,
        Pending::RetryComparing(_)
        | Pending::RetryReleasing { .. }
        | Pending::RetryPressing { .. } => Activity::Retry,
        Pending::Decoding
        | Pending::OpeningMicrophone => Activity::Control,
        Pending::FinishingAudio { .. }
        | Pending::CompletingDrain
        | Pending::Aborting { .. } => Activity::Ending,
        Pending::StartSettling(_)
        | Pending::StartReading { .. }
        | Pending::StartActivating { .. }
        | Pending::StartPressing { .. }
        | Pending::StartingAudio { .. } => Activity::Start,
        Pending::CheckingAudio { .. }
        | Pending::DecodingAudio
        | Pending::Enqueueing { .. } => Activity::Audio,
    }
}

/// A step in progress.
struct Turn {
    w: Worker,
    s: ConnectionSnapshot,
    out: Vec<HostCommand>,
}

impl View for Turn {
    type V = Run;

    closed spec fn view(&self) -> Run {
        Run { w: self.w@, s: self.s@, out: commands_of(self.out@), ask: None }
    }
}

// Each method below takes the step on as the method of `Run` with the same name says.
impl Turn {
    /// The step, ended by a query or without one.
    spec fn ending(self, ask: Option<HostQuery>) -> Run {
        Run { ask: query_of(ask), ..self@ }
    }

    /// The backoff is the one that the worker was made with.
    spec fn sound(self) -> bool {
        &&& self.w.backoff.wf()
        &&& self.w.backoff@.base == RECONNECT_BASE_MS
        &&& self.w.backoff@.max == RECONNECT_MAX_MS
    }

    fn emit(&mut self, command: HostCommand)
        ensures
            final(self).w == old(self).w,
            final(self).s == old(self).s,
            final(self)@ == old(self)@.emit(command@),
    {
        push_command(&mut self.out, command);
    }

    fn ask(&mut self, query: HostQuery, pending: WorkerPending) -> (ask: Option<HostQuery>)
        requires
            old(self).sound(),
        ensures
            final(self).sound(),
            final(self).ending(ask) == old(self)@.query(query@, pending@),
    {
        self.w.pending = pending;
        Some(query)
    }

    fn gate(&mut self)
        ensures
            final(self).w == old(self).w,
            final(self).s == old(self).s,
            final(self)@ == old(self)@.gate(),
    {
        let online = gate_remote_connected(self.s.phase);
        self.emit(Command::SetRemoteGate(online));
    }

    fn publish(&mut self, snapshot: ConnectionSnapshot)
        ensures
            final(self).w == old(self).w,
            final(self)@ == old(self)@.publish(snapshot@),
    {
        self.s = snapshot;
        self.gate();
    }

    fn enter(&mut self, phase: ConnectionPhase, voice_state: VoiceSessionState)
        ensures
            final(self).w == old(self).w,
            final(self)@ == old(self)@.enter(phase, voice_state),
    {
        self.s.phase = phase;
        self.s.voice_state = voice_state;
        self.gate();
    }

    fn report(&mut self, error: String)
        ensures
            final(self).w == old(self).w,
            final(self)@ == old(self)@.report(error@),
    {
        self.s.last_error = Some(error);
    }

    fn calm(&mut self)
        requires
            old(self).sound(),
        ensures
            final(self).sound(),
            final(self)@ == old(self)@.calm(),
    {
        self.w.backoff.reset();
        self.w.radio_recovery_cycles = 0;
    }

    fn schedule_reconnect(&mut self, now: Instant, reason: &str)
        requires
            old(self).sound(),
            now.admits(RECONNECT_MAX_MS as int),
        ensures
            final(self).sound(),
            final(self)@ == old(self)@.schedule_reconnect(now, reason@),
    {
        schedule_reconnect(
            &mut self.s,
            &mut self.w.backoff,
            &mut self.w.reconnect_deadline,
            &mut self.out,
            now,
            reason,
        );
    }

    fn keep_reconnecting(&mut self, now: Instant, error: &PlatformError)
        requires
            old(self).sound(),
            now.admits(RECONNECT_MAX_MS as int),
        ensures
            final(self).sound(),
            final(self)@ == old(self)@.keep_reconnecting(now, error@),
    {
        keep_reconnecting_after_cleanup_failure(
            &mut self.s,
            &self.w.preferred_device_id,
            &mut self.w.backoff,
            &mut self.w.reconnect_deadline,
            &mut self.out,
            now,
            error,
        );
    }

    fn release_hotkey(&mut self)
        requires
            old(self).sound(),
        ensures
            final(self).sound(),
            final(self)@ == old(self)@.release_hotkey(),
    {
        release_voice_hold_hotkey(&mut self.w.held_hotkey, &mut self.out);
    }

    /// Makes the messages of the present connection stale.
    fn next_generation(&mut self)
        requires
            old(self).sound(),
        ensures
            final(self).sound(),
            final(self)@ == (Run {
                w: WorkerModel {
                    connection_generation: next_number(old(self)@.w.connection_generation),
                    ..old(self)@.w
                },
                ..old(self)@
            }),
    {
        self.w.connection_generation = following(self.w.connection_generation);
    }

    fn begin_cleanup(&mut self, after: After<String>) -> (ask: Option<HostQuery>)
        requires
            old(self).sound(),
        ensures
            final(self).sound(),
            final(self).ending(ask) == old(self)@.begin_cleanup(after@),
    {
        self.next_generation();
        self.release_hotkey();
        self.ask(Query::InterruptAudio, Pending::CleaningAudio(after))
    }

    fn audio_interrupted(
        &mut self,
        after: After<String>,
        audio_error: Option<String>,
        env: &WorkerSurroundings,
    ) -> (ask: Option<HostQuery>)
        requires
            old(self).sound(),
            env.now.admits(RECONNECT_MAX_MS as int),
        ensures
            final(self).sound(),
            final(self).ending(ask) == old(self)@.audio_interrupted(
                after@,
                text_of(audio_error),
                env@,
            ),
    {
        if self.w.session.is_some() {
            self.ask(Query::CloseSession, Pending::CleaningSession { after, audio_error })
        } else {
            let error = cleanup_error_text(audio_error, None);
            self.cleaned(after, error, env)
        }
    }

    fn session_closed(
        &mut self,
        after: After<String>,
        audio_error: Option<String>,
        report: CloseReport<String>,
        env: &WorkerSurroundings,
    ) -> (ask: Option<HostQuery>)
        requires
            old(self).sound(),
            env.now.admits(RECONNECT_MAX_MS as int),
        ensures
            final(self).sound(),
            final(self).ending(ask) == old(self)@.session_closed(
                after@,
                text_of(audio_error),
                report@,
                env@,
            ),
    {
        let error = close_error_text(report);
        let session = self.w.session.take();
        match session {
            Some(mut session) => {
                if error.is_some() {
                    session.cleanup_failure = copy_text(&error);
                    self.w.session = Some(session);
                }
            },
            None => {},
        }
        let error = cleanup_error_text(audio_error, error);
        self.cleaned(after, error, env)
    }

    fn cleaned(
        &mut self,
        after: After<String>,
        error: Option<String>,
        env: &WorkerSurroundings,
    ) -> (ask: Option<HostQuery>)
        requires
            old(self).sound(),
            env.now.admits(RECONNECT_MAX_MS as int),
        ensures
            final(self).sound(),
            final(self).ending(ask) == old(self)@.cleaned(after@, text_of(error), env@),
    {
        self.emit(Command::InterruptPipeline);
        self.emit(Command::ResetPipeline);
        match error {
            Some(error) => self.cleanup_failed(after, Failure::BleCleanup(error), env),
            None => self.cleanup_succeeded(after, env),
        }
    }

    fn cleanup_failed(
        &mut self,
        after: After<String>,
        error: PlatformError,
        env: &WorkerSurroundings,
    ) -> (ask: Option<HostQuery>)
        requires
            old(self).sound(),
            env.now.admits(RECONNECT_MAX_MS as int),
        ensures
            final(self).sound(),
            final(self).ending(ask) == old(self)@.cleanup_failed(after@, error@, env@),
    {
        match after {
            After::Connect(attempt) => self.attempt_failed(attempt, error, env),
            After::Disconnect => {
                self.keep_reconnecting(env.now, &error);
                self.emit(Command::Answer(Err(error)));
                None
            },
            _ => {
                self.keep_reconnecting(env.now, &error);
                None
            },
        }
    }

    fn wants_connection(&self) -> (wanted: bool)
        ensures
            wanted == self@.w.wants_connection(),
    {
        self.w.preferred_device_id.is_some() && !self.w.system_suspended
    }

    fn cleanup_succeeded(&mut self, after: After<String>, env: &WorkerSurroundings) -> (ask: Option<
        HostQuery,
    >)
        requires
            old(self).sound(),
            env.now.admits(RECONNECT_MAX_MS as int),
        ensures
            final(self).sound(),
            final(self).ending(ask) == old(self)@.cleanup_succeeded(after@, env@),
    {
        let wanted = self.wants_connection();
        match after {
            After::CapabilitiesTimeout => {
                if wanted {
                    self.schedule_reconnect(
                        env.now,
                        "等待小米语音遥控器返回 ATVV 能力超时",
                    );
                } else {
                    self.publish(
                        failed_snapshot(
                            "等待小米语音遥控器返回 ATVV 能力超时".to_owned(),
                        ),
                    );
                }
                None
            },
            After::Connect(attempt) => self.start_connecting(attempt),
            After::Disconnect => {
                self.publish(ConnectionSnapshot::default());
                self.emit(Command::Answer(Ok(ConnectionSnapshot::default())));
                None
            },
            After::ControlFailed { error } => {
                if wanted {
                    self.schedule_reconnect(env.now, error.as_str());
                }
                None
            },
            After::LinkLost => {
                if wanted {
                    self.schedule_reconnect(env.now, "小米语音遥控器蓝牙连接已断开");
                } else {
                    self.enter(ConnectionPhase::Disconnected, VoiceSessionState::Idle);
                    self.report("小米语音遥控器蓝牙连接已断开".to_owned());
                }
                None
            },
            After::CallbackFailed { error } => {
                if wanted {
                    self.schedule_reconnect(env.now, error.as_str());
                } else {
                    self.publish(failed_snapshot(error));
                }
                None
            },
            After::Suspend => {
                let mut snapshot = ConnectionSnapshot::default();
                snapshot.phase = ConnectionPhase::Suspended;
                snapshot.remote_name = copy_text(&self.s.remote_name);
                snapshot.remote_model = self.s.remote_model;
                snapshot.last_error = Some(
                    "Windows 已进入睡眠，小米语音遥控器资源已释放".to_owned(),
                );
                self.publish(snapshot);
                None
            },
        }
    }

    fn start_connecting(&mut self, attempt: Attempt<String>) -> (ask: Option<HostQuery>)
        requires
            old(self).sound(),
        ensures
            final(self).sound(),
            final(self).ending(ask) == old(self)@.start_connecting(attempt@),
    {
        let mut snapshot = ConnectionSnapshot::default();
        snapshot.reconnect_attempt = attempt.number;
        if attempt.requested {
            snapshot.phase = ConnectionPhase::Connecting;
        } else {
            snapshot.phase = ConnectionPhase::Reconnecting;
            snapshot.remote_name = copy_text(&self.s.remote_name);
            snapshot.remote_model = self.s.remote_model;
        }
        self.publish(snapshot);
        let device_id = attempt.device_id.clone();
        self.ask(
            Query::OpenDevice { device_id },
            Pending::Connecting { stage: Stage::Opening, attempt },
        )
    }

    fn advance(&mut self, query: HostQuery, stage: Stage<String>, attempt: Attempt<String>) -> (ask:
        Option<HostQuery>)
        requires
            old(self).sound(),
        ensures
            final(self).sound(),
            final(self).ending(ask) == old(self)@.advance(query@, stage@, attempt@),
    {
        self.ask(query, Pending::Connecting { stage, attempt })
    }

    fn stage_succeeded(
        &mut self,
        stage: Stage<String>,
        attempt: Attempt<String>,
        env: &WorkerSurroundings,
    ) -> (ask: Option<HostQuery>)
        requires
            old(self).sound(),
            env.now.admits(RECONNECT_MAX_MS as int),
            !(stage is Naming || stage is Modeling),
        ensures
            final(self).sound(),
            final(self).ending(ask) == old(self)@.stage_succeeded(stage@, attempt@, env@),
    {
        let generation: u64 = self.w.connection_generation;
        match stage {
            Stage::Opening => {
                self.emit(Command::RequestThroughput);
                self.advance(Query::ReadName, Stage::Naming, attempt)
            },
            Stage::FindingService(identity) => self.advance(
                Query::FindCharacteristic(Characteristic::Transmit),
                Stage::FindingCharacteristic(Characteristic::Transmit, identity),
                attempt,
            ),
            Stage::FindingCharacteristic(Characteristic::Transmit, identity) => self.advance(
                Query::FindCharacteristic(Characteristic::Audio),
                Stage::FindingCharacteristic(Characteristic::Audio, identity),
                attempt,
            ),
            Stage::FindingCharacteristic(Characteristic::Audio, identity) => self.advance(
                Query::FindCharacteristic(Characteristic::Control),
                Stage::FindingCharacteristic(Characteristic::Control, identity),
                attempt,
            ),
            Stage::FindingCharacteristic(Characteristic::Control, identity) => self.advance(
                Query::Subscribe { channel: Channel::Audio, generation },
                Stage::Subscribing(Channel::Audio, identity),
                attempt,
            ),
            Stage::Subscribing(Channel::Audio, identity) => self.advance(
                Query::Subscribe { channel: Channel::Control, generation },
                Stage::Subscribing(Channel::Control, identity),
                attempt,
            ),
            Stage::Subscribing(Channel::Control, identity) => self.advance(
                Query::WatchLink { generation },
                Stage::WatchingLink(identity),
                attempt,
            ),
            Stage::WatchingLink(identity) => self.advance(
                Query::RequestCapabilities,
                Stage::RequestingCapabilities(identity),
                attempt,
            ),
            Stage::RequestingCapabilities(identity) => {
                self.connected(attempt, identity, env);
                None
            },
            _ => None,
        }
    }

    fn discovered(&mut self, attempt: Attempt<String>, identity: Identity<String>) -> (ask: Option<
        HostQuery,
    >)
        requires
            old(self).sound(),
        ensures
            final(self).sound(),
            final(self).ending(ask) == old(self)@.discovered(attempt@, identity@),
    {
        self.s.phase = ConnectionPhase::Discovering;
        self.s.remote_name = Some(identity.name.clone());
        self.s.remote_model = identity.model;
        self.s.last_error = None;
        self.gate();
        self.advance(Query::FindService, Stage::FindingService(identity), attempt)
    }

    fn connected(
        &mut self,
        attempt: Attempt<String>,
        identity: Identity<String>,
        env: &WorkerSurroundings,
    )
        requires
            old(self).sound(),
            env.now.admits(RECONNECT_MAX_MS as int),
        ensures
            final(self).sound(),
            final(self)@ == old(self)@.connected(attempt@, identity@, env@),
    {
        let mut snapshot = ConnectionSnapshot::default();
        snapshot.phase = ConnectionPhase::AwaitingCapabilities;
        snapshot.remote_name = Some(identity.name.clone());
        snapshot.remote_model = identity.model;
        snapshot.reconnect_attempt = attempt.number;
        self.w.session = Some(
            Session {
                name: identity.name,
                model: identity.model,
                microphone_opened: false,
                cleanup_failure: None,
            },
        );
        self.w.capabilities_deadline = Some(env.now.after(CAPABILITIES_TIMEOUT_MS));
        self.publish(snapshot);
        if attempt.requested {
            let answer = self.s.copy();
            self.emit(Command::Answer(Ok(answer)));
        }
    }

    fn unwind(&mut self, stage: &Stage<String>)
        ensures
            final(self).w == old(self).w,
            final(self).s == old(self).s,
            final(self)@ == old(self)@.unwind(stage@),
    {
        match stage {
            Stage::Subscribing(Channel::Audio, _) => {
                self.emit(Command::CloseService);
                self.emit(Command::CloseDevice);
            },
            Stage::Subscribing(Channel::Control, _) => {
                self.emit(Command::RemoveHandler(Channel::Audio));
                self.emit(Command::DisableNotifications(Channel::Audio));
                self.emit(Command::CloseService);
                self.emit(Command::CloseDevice);
            },
            Stage::WatchingLink(_) => {
                self.emit(Command::RemoveHandler(Channel::Audio));
                self.emit(Command::RemoveHandler(Channel::Control));
                self.emit(Command::DisableNotifications(Channel::Audio));
                self.emit(Command::DisableNotifications(Channel::Control));
                self.emit(Command::CloseService);
                self.emit(Command::CloseDevice);
            },
            Stage::RequestingCapabilities(_) => {
                self.emit(Command::DropSession);
            },
            _ => {},
        }
    }

    fn attempt_failed(
        &mut self,
        attempt: Attempt<String>,
        error: PlatformError,
        env: &WorkerSurroundings,
    ) -> (ask: Option<HostQuery>)
        requires
            old(self).sound(),
            env.now.admits(RECONNECT_MAX_MS as int),
        ensures
            final(self).sound(),
            final(self).ending(ask) == old(self)@.attempt_failed(attempt@, error@, env@),
    {
        self.next_generation();
        let cleanup = match &error {
            Failure::BleCleanup(_) => true,
            _ => false,
        };
        if cleanup {
            self.keep_reconnecting(env.now, &error);
        } else {
            let reason = error.text();
            self.schedule_reconnect(env.now, reason.as_str());
        }
        if attempt.requested {
            self.emit(Command::Answer(Err(error)));
            None
        } else if cleanup {
            None
        } else {
            let attempt: u32 = self.w.backoff.attempt();
            let cycles: u32 = self.w.radio_recovery_cycles;
            self.ask(
                Query::ConsultRadioPolicy { attempt, cycles },
                Pending::ConsultingRadioPolicy,
            )
        }
    }

    fn radio_policy(&mut self, due: bool, limit: u32) -> (ask: Option<HostQuery>)
        requires
            old(self).sound(),
        ensures
            final(self).sound(),
            final(self).ending(ask) == old(self)@.radio_policy(due, limit),
    {
        if due && self.w.radio_recovery_cycles < limit {
            self.w.radio_recovery_cycles = self.w.radio_recovery_cycles + 1;
            let mut text = "连续 ".to_owned();
            text.append(decimal(self.w.backoff.attempt() as u64).as_str());
            text.append(
                " 次重连失败，正在自动重启蓝牙无线电以清除僵死链路（第 ",
            );
            text.append(decimal(self.w.radio_recovery_cycles as u64).as_str());
            text.append("/");
            text.append(decimal(limit as u64).as_str());
            text.append(" 次）…");
            self.report(text);
            self.ask(Query::CycleRadio, Pending::CyclingRadio)
        } else {
            None
        }
    }

    fn radio_cycled(&mut self, error: Option<String>, env: &WorkerSurroundings)
        requires
            old(self).sound(),
            env.now.admits(RECONNECT_MAX_MS as int),
        ensures
            final(self).sound(),
            final(self)@ == old(self)@.radio_cycled(text_of(error), env@),
    {
        let text = match error {
            Some(error) => {
                let mut text = "蓝牙自动恢复失败：".to_owned();
                text.append(error.as_str());
                text.append("。请检查遥控器电量，或手动开关一次蓝牙后重试。");
                text
            },
            None => "蓝牙无线电已重启，正在重新连接小米语音遥控器…".to_owned(),
        };
        self.report(text);
        self.w.backoff.reset();
        self.s.reconnect_attempt = 0;
        self.w.reconnect_deadline = Some(env.now.after(RADIO_RETRY_MS));
    }

    fn on_timeout(&mut self, env: &WorkerSurroundings) -> (ask: Option<HostQuery>)
        requires
            old(self).sound(),
        ensures
            final(self).sound(),
            final(self).ending(ask) == old(self)@.on_timeout(env@),
    {
        if due(self.w.capabilities_deadline, env.now) {
            self.w.capabilities_deadline = None;
            self.begin_cleanup(After::CapabilitiesTimeout)
        } else if due(self.w.reconnect_deadline, env.now) {
            self.w.reconnect_deadline = None;
            match copy_text(&self.w.preferred_device_id) {
                Some(device_id) => {
                    let number: u32 = self.s.reconnect_attempt;
                    self.begin_cleanup(
                        After::Connect(Attempt { requested: false, device_id, number }),
                    )
                },
                None => None,
            }
        } else if due(self.w.extend_deadline, env.now) {
            self.w.extend_deadline = None;
            self.extend_microphone(env)
        } else {
            None
        }
    }

    fn extend_microphone(&mut self, env: &WorkerSurroundings) -> (ask: Option<HostQuery>)
        requires
            old(self).sound(),
        ensures
            final(self).sound(),
            final(self).ending(ask) == old(self)@.extend_microphone(env@),
    {
        if env.pipeline.state != VoiceSessionState::Streaming || self.w.session.is_none() {
            return None;
        }
        match (env.pipeline.capabilities, env.pipeline.session_id) {
            (Some(capabilities), Some(session_id)) => self.ask(
                Query::ExtendMicrophone { version: capabilities.version, session_id },
                Pending::Extending { since: env.now },
            ),
            _ => None,
        }
    }

    fn extended(&mut self, since: Instant, outcome: WriteOutcome<String>)
        requires
            old(self).sound(),
            since.admits(MICROPHONE_EXTEND_MS as int),
        ensures
            final(self).sound(),
            final(self)@ == old(self)@.extended(since, outcome@),
    {
        match outcome {
            WriteOutcome::Sent => {
                self.w.extend_deadline = Some(since.after(MICROPHONE_EXTEND_MS));
            },
            WriteOutcome::Failed(error) => {
                let text = error.text();
                self.report(join2("发送 MIC_EXTEND 失败：", text.as_str()));
            },
            WriteOutcome::Unencodable => {},
        }
    }

    fn restore(&mut self, device_id: String, env: &WorkerSurroundings)
        requires
            old(self).sound(),
        ensures
            final(self).sound(),
            final(self)@ == old(self)@.restore(device_id@, env@),
    {
        self.w.preferred_device_id = Some(device_id);
        self.calm();
        let mut snapshot = ConnectionSnapshot::default();
        if self.w.system_suspended {
            self.w.reconnect_deadline = None;
            snapshot.phase = ConnectionPhase::Suspended;
            snapshot.last_error = Some(
                "Windows 当前处于睡眠状态，恢复后将重新连接小米语音遥控器".to_owned(),
            );
        } else {
            self.w.reconnect_deadline = Some(env.now);
            snapshot.phase = ConnectionPhase::Reconnecting;
            snapshot.last_error = Some(
                "正在恢复上次选择的小米语音遥控器".to_owned(),
            );
        }
        self.publish(snapshot);
        let answer = self.s.copy();
        self.emit(Command::Answer(Ok(answer)));
    }

    fn wake_reconnect(&mut self, env: &WorkerSurroundings)
        requires
            old(self).sound(),
        ensures
            final(self).sound(),
            final(self)@ == old(self)@.wake_reconnect(env@),
    {
        if self.w.session.is_none() && self.wants_connection()
            && self.w.reconnect_deadline.is_some() {
            self.emit(Command::Log(Note::WakeReconnect));
            self.w.backoff.reset();
            self.w.reconnect_deadline = Some(env.now);
            if self.s.phase == ConnectionPhase::Reconnecting {
                self.s.reconnect_attempt = 0;
            }
        }
    }

    fn resume(&mut self, env: &WorkerSurroundings)
        requires
            old(self).sound(),
        ensures
            final(self).sound(),
            final(self)@ == old(self)@.resume(env@),
    {
        self.w.system_suspended = false;
        self.calm();
        let mut snapshot = ConnectionSnapshot::default();
        if self.w.preferred_device_id.is_some() {
            self.w.reconnect_deadline = Some(env.now);
            snapshot.phase = ConnectionPhase::Reconnecting;
            snapshot.remote_name = copy_text(&self.s.remote_name);
            snapshot.remote_model = self.s.remote_model;
            snapshot.last_error = Some(
                "Windows 已恢复，正在重新连接小米语音遥控器".to_owned(),
            );
        }
        self.publish(snapshot);
    }

    fn shut_down(&mut self)
        requires
            old(self).sound(),
        ensures
            final(self).sound(),
            final(self)@ == old(self)@.shut_down(),
    {
        self.release_hotkey();
        self.emit(Command::InterruptAudio);
        if self.w.session.is_some() {
            self.emit(Command::DropSession);
        }
        self.emit(Command::InterruptPipeline);
        self.w.session = None;
        self.w.pending = Pending::Stopped;
    }

    fn retry_voice_chord(
        &mut self,
        retry: Retry,
        baseline: Option<MicObservation>,
        env: &WorkerSurroundings,
    ) -> (ask: Option<HostQuery>)
        requires
            old(self).sound(),
        ensures
            final(self).sound(),
            final(self).ending(ask) == old(self)@.retry_voice_chord(retry, baseline, env@),
    {
        if env.pipeline.state == VoiceSessionState::Streaming && self.w.voice_session_epoch
            == retry.epoch {
            self.ask(Query::CompareMicrophone { baseline }, Pending::RetryComparing(retry))
        } else {
            self.emit(Command::Log(Note::RetryStale { epoch: retry.epoch }));
            None
        }
    }

    fn retry_compared(
        &mut self,
        retry: Retry,
        reading: Option<MicObservation>,
        response: MicResponse,
        env: &WorkerSurroundings,
    ) -> (ask: Option<HostQuery>)
        requires
            old(self).sound(),
        ensures
            final(self).sound(),
            final(self).ending(ask) == old(self)@.retry_compared(retry, reading, response, env@),
    {
        if response == MicResponse::NotObserved {
            match (copy_chord(&env.hotkey), copy_chord(&self.w.held_hotkey)) {
                (Some(chord), Some(held)) => self.ask(
                    Query::ReleaseChord(held),
                    Pending::RetryReleasing { retry, reading, chord },
                ),
                _ => {
                    self.emit(Command::Log(Note::RetryNoChord));
                    None
                },
            }
        } else {
            self.emit(Command::Log(Note::RetryMicActive { epoch: retry.epoch }));
            None
        }
    }

    fn retry_released(
        &mut self,
        retry: Retry,
        reading: Option<MicObservation>,
        chord: KeyChord,
        error: Option<String>,
    ) -> (ask: Option<HostQuery>)
        requires
            old(self).sound(),
        ensures
            final(self).sound(),
            final(self).ending(ask) == old(self)@.retry_released(retry, reading, chord@, text_of(error)),
    {
        if error.is_some() {
            self.emit(Command::Log(Note::RetryReleaseFailed { epoch: retry.epoch }));
            None
        } else {
            self.w.held_hotkey = None;
            let pressed = chord.copy();
            self.ask(
                Query::PressChord(pressed),
                Pending::RetryPressing { retry, reading, chord },
            )
        }
    }

    fn retry_pressed(
        &mut self,
        retry: Retry,
        reading: Option<MicObservation>,
        chord: KeyChord,
        error: Option<String>,
    )
        requires
            old(self).sound(),
        ensures
            final(self).sound(),
            final(self)@ == old(self)@.retry_pressed(retry, reading, chord@, text_of(error)),
    {
        let attempt: u32 = retry.attempt;
        let epoch: u64 = retry.epoch;
        if error.is_some() {
            self.emit(Command::Log(Note::RetryPressFailed { attempt, epoch }));
        } else {
            self.w.held_hotkey = Some(chord);
            self.emit(Command::Log(Note::RetryPressed { attempt, epoch }));
            self.emit(Command::WatchWeType { attempt, epoch, baseline: reading });
        }
    }

    fn on_control(&mut self, bytes: Vec<u8>, env: &WorkerSurroundings) -> (ask: Option<HostQuery>)
        requires
            old(self).sound(),
        ensures
            final(self).sound(),
            final(self).ending(ask) == old(self)@.on_control(bytes@, env@),
    {
        if bytes.len() > 0 && bytes[0] == 0 && env.pipeline.state == VoiceSessionState::Idle {
            self.control_settled()
        } else {
            self.ask(Query::DecodeControl(bytes), Pending::Decoding)
        }
    }

    fn control_settled(&mut self) -> (ask: Option<HostQuery>)
        requires
            old(self).sound(),
        ensures
            final(self).sound(),
            final(self).ending(ask) == old(self)@.control_settled(),
    {
        if self.s.phase != ConnectionPhase::AwaitingCapabilities {
            self.w.capabilities_deadline = None;
        }
        if self.s.phase == ConnectionPhase::Ready {
            self.calm();
            self.s.reconnect_attempt = 0;
            None
        } else if self.s.phase == ConnectionPhase::Failed {
            let error = match copy_text(&self.s.last_error) {
                Some(error) => error,
                None => "ATVV 能力确认失败".to_owned(),
            };
            self.begin_cleanup(After::ControlFailed { error })
        } else {
            None
        }
    }

    fn control_undecodable(&mut self, error: String) -> (ask: Option<HostQuery>)
        requires
            old(self).sound(),
        ensures
            final(self).sound(),
            final(self).ending(ask) == old(self)@.control_undecodable(error@),
    {
        let awaiting = self.s.phase == ConnectionPhase::AwaitingCapabilities;
        self.report(error);
        if awaiting {
            self.enter(ConnectionPhase::Failed, VoiceSessionState::Idle);
        }
        self.control_settled()
    }

    fn mark_microphone(&mut self, opened: bool)
        requires
            old(self).sound(),
        ensures
            final(self).sound(),
            final(self)@ == old(self)@.mark_microphone(opened),
    {
        let session = self.w.session.take();
        match session {
            Some(mut session) => {
                session.microphone_opened = opened;
                self.w.session = Some(session);
            },
            None => {},
        }
    }

    fn control_decoded(
        &mut self,
        output: PipelineOutput<Vec<i16>>,
        env: &WorkerSurroundings,
    ) -> (ask: Option<HostQuery>)
        requires
            old(self).sound(),
            env.now.admits(RECONNECT_MAX_MS as int),
        ensures
            final(self).sound(),
            final(self).ending(ask) == old(self)@.control_decoded(output@, env@),
    {
        match output {
            PipelineOutput::Ready(capabilities) => {
                self.s.phase = ConnectionPhase::Ready;
                self.s.capabilities = Some(capabilities);
                self.s.voice_state = VoiceSessionState::Idle;
                self.s.last_error = None;
                self.gate();
                self.control_settled()
            },
            PipelineOutput::MicrophoneOpenRequested => self.open_microphone(env),
            PipelineOutput::StreamStarted { session_id, generation } => self.stream_started(
                session_id,
                generation,
                env,
            ),
            PipelineOutput::StreamStopped { generation } => {
                self.mark_microphone(false);
                self.w.extend_deadline = None;
                self.release_hotkey();
                self.enter(ConnectionPhase::Draining, VoiceSessionState::Draining);
                self.ask(
                    Query::FinishAudio { generation },
                    Pending::FinishingAudio { generation },
                )
            },
            _ => self.control_settled(),
        }
    }

    fn open_microphone(&mut self, env: &WorkerSurroundings) -> (ask: Option<HostQuery>)
        requires
            old(self).sound(),
        ensures
            final(self).sound(),
            final(self).ending(ask) == old(self)@.open_microphone(env@),
    {
        let closed = match &self.w.session {
            Some(session) => !session.microphone_opened,
            None => false,
        };
        match env.pipeline.capabilities {
            Some(capabilities) if closed && env.pipeline.state == VoiceSessionState::Idle =>
                self.ask(
                Query::OpenMicrophone {
                    version: capabilities.version,
                    codec: capabilities.selected_codec,
                },
                Pending::OpeningMicrophone,
            ),
            _ => self.control_settled(),
        }
    }

    fn microphone_opened(&mut self, outcome: WriteOutcome<String>) -> (ask: Option<HostQuery>)
        requires
            old(self).sound(),
        ensures
            final(self).sound(),
            final(self).ending(ask) == old(self)@.microphone_opened(outcome@),
    {
        match outcome {
            WriteOutcome::Sent => {
                self.mark_microphone(true);
            },
            WriteOutcome::Unencodable => {
                let error: PlatformError = Failure::Protocol("无法编码 MIC_OPEN".to_owned());
                self.report(error.text());
            },
            WriteOutcome::Failed(error) => {
                self.report(error.text());
            },
        }
        self.control_settled()
    }

    fn stream_started(
        &mut self,
        session_id: u8,
        generation: u64,
        env: &WorkerSurroundings,
    ) -> (ask: Option<HostQuery>)
        requires
            old(self).sound(),
            env.now.admits(RECONNECT_MAX_MS as int),
        ensures
            final(self).sound(),
            final(self).ending(ask) == old(self)@.stream_started(session_id, generation, env@),
    {
        let epoch: u64 = following(self.w.voice_session_epoch);
        self.w.voice_session_epoch = epoch;
        self.emit(Command::PublishEpoch(epoch));
        self.w.active_voice_samples = 0;
        self.mark_microphone(true);
        self.w.extend_deadline = Some(env.now.after(MICROPHONE_EXTEND_MS));
        self.emit(Command::SetSessionActive(true));
        self.emit(Command::ReleaseStuckF5);
        self.ask(
            Query::Sleep { millis: KEY_SETTLE_MS },
            Pending::StartSettling(Start { session_id, generation, epoch }),
        )
    }

    fn start_settled(&mut self, start: Start, env: &WorkerSurroundings) -> (ask: Option<HostQuery>)
        requires
            old(self).sound(),
        ensures
            final(self).sound(),
            final(self).ending(ask) == old(self)@.start_settled(start, env@),
    {
        match copy_chord(&env.hotkey) {
            Some(chord) => self.ask(Query::ReadMicrophone, Pending::StartReading { start, chord }),
            None => {
                self.emit(
                    Command::Log(Note::ChordPressSkipped { session_id: start.session_id }),
                );
                self.begin_audio(start, None)
            },
        }
    }

    fn begin_audio(&mut self, start: Start, hint: Option<String>) -> (ask: Option<HostQuery>)
        requires
            old(self).sound(),
        ensures
            final(self).sound(),
            final(self).ending(ask) == old(self)@.begin_audio(start, text_of(hint)),
    {
        self.ask(
            Query::BeginAudio { generation: start.generation },
            Pending::StartingAudio { start, hint },
        )
    }

    fn start_read(
        &mut self,
        start: Start,
        chord: KeyChord,
        baseline: Option<MicObservation>,
    ) -> (ask: Option<HostQuery>)
        requires
            old(self).sound(),
        ensures
            final(self).sound(),
            final(self).ending(ask) == old(self)@.start_read(start, chord@, baseline),
    {
        if chord_is_wetype_default(&chord) {
            self.ask(Query::ActivateWeType, Pending::StartActivating { start, chord, baseline })
        } else {
            self.emit(Command::Log(Note::ActivationSkippedCustomHotkey));
            let pressed = chord.copy();
            self.ask(
                Query::PressChord(pressed),
                Pending::StartPressing { start, chord, baseline, hint: None },
            )
        }
    }

    fn start_activated(
        &mut self,
        start: Start,
        chord: KeyChord,
        baseline: Option<MicObservation>,
        error: Option<String>,
    ) -> (ask: Option<HostQuery>)
        requires
            old(self).sound(),
        ensures
            final(self).sound(),
            final(self).ending(ask) == old(self)@.start_activated(
                start,
                chord@,
                baseline,
                text_of(error),
            ),
    {
        match copy_text(&error) {
            Some(error) => {
                self.report(error);
            },
            None => {},
        }
        let pressed = chord.copy();
        self.ask(
            Query::PressChord(pressed),
            Pending::StartPressing { start, chord, baseline, hint: error },
        )
    }

    fn start_pressed(
        &mut self,
        start: Start,
        chord: KeyChord,
        baseline: Option<MicObservation>,
        hint: Option<String>,
        error: Option<String>,
        env: &WorkerSurroundings,
    ) -> (ask: Option<HostQuery>)
        requires
            old(self).sound(),
        ensures
            final(self).sound(),
            final(self).ending(ask) == old(self)@.start_pressed(
                start,
                chord@,
                baseline,
                text_of(hint),
                text_of(error),
                env@,
            ),
    {
        let session_id: u8 = start.session_id;
        match error {
            Some(error) => {
                self.emit(Command::Log(Note::ChordPressFailed { session_id }));
                let text = join2("按住说话快捷键注入失败：", error.as_str());
                self.abort(Source::Control, Some(session_id), text, env)
            },
            None => {
                let watched = chord_is_wetype_default(&chord);
                self.w.held_hotkey = Some(chord);
                self.emit(Command::Log(Note::ChordPressed { session_id }));
                if watched {
                    self.emit(Command::WatchWeType { attempt: 0, epoch: start.epoch, baseline });
                }
                self.begin_audio(start, hint)
            },
        }
    }

    fn audio_begun(
        &mut self,
        start: Start,
        hint: Option<String>,
        error: Option<String>,
        env: &WorkerSurroundings,
    ) -> (ask: Option<HostQuery>)
        requires
            old(self).sound(),
        ensures
            final(self).sound(),
            final(self).ending(ask) == old(self)@.audio_begun(
                start,
                text_of(hint),
                text_of(error),
                env@,
            ),
    {
        match error {
            Some(error) => {
                self.emit(
                    Command::Log(Note::AudioBeginFailed { session_id: start.session_id }),
                );
                self.abort(Source::Control, Some(start.session_id), error, env)
            },
            None => {
                self.s.phase = ConnectionPhase::Streaming;
                self.s.voice_state = VoiceSessionState::Streaming;
                self.s.generation = start.generation;
                self.s.last_error = hint;
                self.gate();
                self.control_settled()
            },
        }
    }

    fn audio_finished(
        &mut self,
        generation: u64,
        error: Option<String>,
        env: &WorkerSurroundings,
    ) -> (ask: Option<HostQuery>)
        requires
            old(self).sound(),
        ensures
            final(self).sound(),
            final(self).ending(ask) == old(self)@.audio_finished(generation, text_of(error), env@),
    {
        match error {
            Some(error) => self.abort(Source::Control, None, error, env),
            None => self.ask(Query::CompleteDrain { generation }, Pending::CompletingDrain),
        }
    }

    fn drain_completed(&mut self, error: Option<String>) -> (ask: Option<HostQuery>)
        requires
            old(self).sound(),
        ensures
            final(self).sound(),
            final(self).ending(ask) == old(self)@.drain_completed(text_of(error)),
    {
        match error {
            Some(error) => {
                self.report(error);
            },
            None => {
                let samples: u64 = self.w.active_voice_samples;
                self.emit(Command::RecordUsage(samples));
                self.w.active_voice_samples = 0;
                self.enter(ConnectionPhase::Ready, VoiceSessionState::Idle);
            },
        }
        self.control_settled()
    }

    fn abort(
        &mut self,
        source: Source,
        session_id: Option<u8>,
        error: String,
        env: &WorkerSurroundings,
    ) -> (ask: Option<HostQuery>)
        requires
            old(self).sound(),
        ensures
            final(self).sound(),
            final(self).ending(ask) == old(self)@.abort(source, session_id, error@, env@),
    {
        self.release_hotkey();
        match (env.pipeline.capabilities, session_id) {
            (Some(capabilities), Some(session_id)) if self.w.session.is_some() => self.ask(
                Query::CloseMicrophone { version: capabilities.version, session_id },
                Pending::Aborting { source, error },
            ),
            _ => self.aborted(source, error),
        }
    }

    fn microphone_closed(
        &mut self,
        source: Source,
        error: String,
        outcome: WriteOutcome<String>,
    ) -> (ask: Option<HostQuery>)
        requires
            old(self).sound(),
        ensures
            final(self).sound(),
            final(self).ending(ask) == old(self)@.microphone_closed(source, error@, outcome@),
    {
        match outcome {
            WriteOutcome::Sent => {
                self.mark_microphone(false);
            },
            _ => {},
        }
        self.aborted(source, error)
    }

    fn aborted(&mut self, source: Source, error: String) -> (ask: Option<HostQuery>)
        requires
            old(self).sound(),
        ensures
            final(self).sound(),
            final(self).ending(ask) == old(self)@.aborted(source, error@),
    {
        self.emit(Command::InterruptAudio);
        self.emit(Command::InterruptPipeline);
        self.w.active_voice_samples = 0;
        let phase = if self.s.capabilities.is_some() {
            ConnectionPhase::Ready
        } else {
            ConnectionPhase::Failed
        };
        self.enter(phase, VoiceSessionState::Idle);
        self.report(error);
        match source {
            Source::Control => self.control_settled(),
            Source::Audio => None,
        }
    }

    fn audio_checked(
        &mut self,
        bytes: Vec<u8>,
        error: Option<String>,
        env: &WorkerSurroundings,
    ) -> (ask: Option<HostQuery>)
        requires
            old(self).sound(),
        ensures
            final(self).sound(),
            final(self).ending(ask) == old(self)@.audio_checked(bytes@, text_of(error), env@),
    {
        match error {
            Some(error) => self.abort(Source::Audio, env.pipeline.session_id, error, env),
            None => self.ask(Query::DecodeAudio(bytes), Pending::DecodingAudio),
        }
    }

    fn audio_decoded(&mut self, output: PipelineOutput<Vec<i16>>) -> (ask: Option<HostQuery>)
        requires
            old(self).sound(),
        ensures
            final(self).sound(),
            final(self).ending(ask) == old(self)@.audio_decoded(output@),
    {
        match output {
            PipelineOutput::Samples { generation, samples } => {
                let count: u64 = samples.len() as u64;
                self.ask(
                    Query::EnqueueSamples { generation, samples },
                    Pending::Enqueueing { generation, count },
                )
            },
            _ => None,
        }
    }

    fn samples_enqueued(
        &mut self,
        generation: u64,
        count: u64,
        error: Option<String>,
        env: &WorkerSurroundings,
    ) -> (ask: Option<HostQuery>)
        requires
            old(self).sound(),
        ensures
            final(self).sound(),
            final(self).ending(ask) == old(self)@.samples_enqueued(generation, count, text_of(error), env@),
    {
        match error {
            Some(error) => self.abort(Source::Audio, env.pipeline.session_id, error, env),
            None => {
                self.s.decoded_samples = self.s.decoded_samples.saturating_add(count);
                self.s.generation = generation;
                self.w.active_voice_samples = self.w.active_voice_samples.saturating_add(count);
                None
            },
        }
    }

    fn on_message(&mut self, message: WorkerMessage, env: &WorkerSurroundings) -> (ask: Option<
        HostQuery,
    >)
        requires
            old(self).sound(),
            env.now.admits(RECONNECT_MAX_MS as int),
        ensures
            final(self).sound(),
            final(self).ending(ask) == old(self)@.on_message(message@, env@),
    {
        match message {
            Message::Connect { device_id } => {
                self.w.preferred_device_id = Some(device_id.clone());
                self.w.system_suspended = false;
                self.w.reconnect_deadline = None;
                self.w.capabilities_deadline = None;
                self.calm();
                self.begin_cleanup(
                    After::Connect(Attempt { requested: true, device_id, number: 0 }),
                )
            },
            Message::Disconnect => {
                self.w.preferred_device_id = None;
                self.w.system_suspended = false;
                self.w.reconnect_deadline = None;
                self.w.capabilities_deadline = None;
                self.calm();
                self.begin_cleanup(After::Disconnect)
            },
            Message::Restore { device_id } => {
                self.restore(device_id, env);
                None
            },
            Message::WakeReconnect => {
                self.wake_reconnect(env);
                None
            },
            Message::RetryVoiceChord { attempt, epoch, baseline } => self.retry_voice_chord(
                Retry { attempt, epoch },
                baseline,
                env,
            ),
            Message::Control { connection_generation, bytes } => {
                if connection_generation == self.w.connection_generation {
                    self.on_control(bytes, env)
                } else {
                    None
                }
            },
            Message::Audio { connection_generation, bytes } => {
                if connection_generation == self.w.connection_generation && env.pipeline.state
                    == VoiceSessionState::Streaming {
                    self.ask(Query::CheckAudio, Pending::CheckingAudio { bytes })
                } else {
                    None
                }
            },
            Message::ConnectionChanged { connection_generation, status } => {
                if connection_generation == self.w.connection_generation && status
                    == LinkStatus::Disconnected {
                    self.w.capabilities_deadline = None;
                    self.begin_cleanup(After::LinkLost)
                } else {
                    None
                }
            },
            Message::CallbackError { connection_generation, error } => {
                if connection_generation == self.w.connection_generation {
                    self.w.capabilities_deadline = None;
                    self.begin_cleanup(After::CallbackFailed { error })
                } else {
                    None
                }
            },
            Message::SystemSuspended => {
                self.w.system_suspended = true;
                self.w.capabilities_deadline = None;
                self.w.reconnect_deadline = None;
                self.begin_cleanup(After::Suspend)
            },
            Message::SystemResumed => {
                if self.w.system_suspended {
                    self.resume(env);
                }
                None
            },
            Message::Shutdown => {
                self.shut_down();
                None
            },
        }
    }

    fn reply_cleanup(&mut self, reply: WorkerReply, env: &WorkerSurroundings) -> (ask: Option<
        HostQuery,
    >)
        requires
            old(self).sound(),
            old(self)@.w.wf(),
            env.now.admits(RECONNECT_MAX_MS as int),
        ensures
            final(self).sound(),
            final(self).ending(ask) == old(self)@.reply_cleanup(reply@, env@),
    {
        proof {
            reveal(Run::reply_cleanup);
        }
        let mut pending: WorkerPending = Pending::Idle;
        std::mem::swap(&mut pending, &mut self.w.pending);
        match (pending, reply) {
            (Pending::CleaningAudio(after), Reply::Outcome(error)) => self.audio_interrupted(
                after,
                error,
                env,
            ),
            (Pending::CleaningSession { after, audio_error }, Reply::Closed(report)) =>
                self.session_closed(after, audio_error, report, env),
            (pending, _) => {
                self.w.pending = pending;
                None
            },
        }
    }

    fn reply_connecting(&mut self, reply: WorkerReply, env: &WorkerSurroundings) -> (ask: Option<
        HostQuery,
    >)
        requires
            old(self).sound(),
            old(self)@.w.wf(),
            env.now.admits(RECONNECT_MAX_MS as int),
        ensures
            final(self).sound(),
            final(self).ending(ask) == old(self)@.reply_connecting(reply@, env@),
    {
        proof {
            reveal(Run::reply_connecting);
        }
        let mut pending: WorkerPending = Pending::Idle;
        std::mem::swap(&mut pending, &mut self.w.pending);
        match (pending, reply) {
            (Pending::Connecting { stage: Stage::Naming, attempt }, Reply::Named { name, model }) =>
            {
                if model == RemoteModel::Unknown {
                    self.advance(Query::ReadModel, Stage::Modeling { name }, attempt)
                } else {
                    self.discovered(attempt, Identity { name, model })
                }
            },
            (
                Pending::Connecting { stage: Stage::Modeling { name }, attempt },
                Reply::Model(model),
            ) => {
                let model = match model {
                    Some(model) => model,
                    None => RemoteModel::Unknown,
                };
                self.discovered(attempt, Identity { name, model })
            },
            (Pending::Connecting { stage, attempt }, Reply::Attempted(failure)) =>
                self.stage_attempted(stage, attempt, failure, env),
            (pending, _) => {
                self.w.pending = pending;
                None
            },
        }
    }

    fn reply_timed(&mut self, reply: WorkerReply, env: &WorkerSurroundings) -> (ask: Option<
        HostQuery,
    >)
        requires
            old(self).sound(),
            old(self)@.w.wf(),
            env.now.admits(RECONNECT_MAX_MS as int),
        ensures
            final(self).sound(),
            final(self).ending(ask) == old(self)@.reply_timed(reply@, env@),
    {
        proof {
            reveal(Run::reply_timed);
        }
        let mut pending: WorkerPending = Pending::Idle;
        std::mem::swap(&mut pending, &mut self.w.pending);
        match (pending, reply) {
            (Pending::ConsultingRadioPolicy, Reply::RadioPolicy { due, limit }) =>
                self.radio_policy(due, limit),
            (Pending::CyclingRadio, Reply::Outcome(error)) => {
                self.radio_cycled(error, env);
                None
            },
            (Pending::Extending { since }, Reply::Written(outcome)) => {
                self.extended(since, outcome);
                None
            },
            (pending, _) => {
                self.w.pending = pending;
                None
            },
        }
    }

    fn reply_retry(&mut self, reply: WorkerReply, env: &WorkerSurroundings) -> (ask: Option<
        HostQuery,
    >)
        requires
            old(self).sound(),
            old(self)@.w.wf(),
            env.now.admits(RECONNECT_MAX_MS as int),
        ensures
            final(self).sound(),
            final(self).ending(ask) == old(self)@.reply_retry(reply@, env@),
    {
        proof {
            reveal(Run::reply_retry);
        }
        let mut pending: WorkerPending = Pending::Idle;
        std::mem::swap(&mut pending, &mut self.w.pending);
        match (pending, reply) {
            (Pending::RetryComparing(retry), Reply::Compared { reading, response }) =>
                self.retry_compared(retry, reading, response, env),
            (Pending::RetryReleasing { retry, reading, chord }, Reply::Outcome(error)) =>
                self.retry_released(retry, reading, chord, error),
            (Pending::RetryPressing { retry, reading, chord }, Reply::Outcome(error)) => {
                self.retry_pressed(retry, reading, chord, error);
                None
            },
            (pending, _) => {
                self.w.pending = pending;
                None
            },
        }
    }

    fn reply_control(&mut self, reply: WorkerReply, env: &WorkerSurroundings) -> (ask: Option<
        HostQuery,
    >)
        requires
            old(self).sound(),
            old(self)@.w.wf(),
            env.now.admits(RECONNECT_MAX_MS as int),
        ensures
            final(self).sound(),
            final(self).ending(ask) == old(self)@.reply_control(reply@, env@),
    {
        proof {
            reveal(Run::reply_control);
        }
        let mut pending: WorkerPending = Pending::Idle;
        std::mem::swap(&mut pending, &mut self.w.pending);
        match (pending, reply) {
            (Pending::Decoding, Reply::Decoded(output)) => self.control_decoded(output, env),
            (Pending::Decoding, Reply::DecodeFailed(error)) => self.control_undecodable(error),
            (Pending::OpeningMicrophone, Reply::Written(outcome)) => self.microphone_opened(
                outcome,
            ),
            (pending, _) => {
                self.w.pending = pending;
                None
            },
        }
    }

    fn reply_ending(&mut self, reply: WorkerReply, env: &WorkerSurroundings) -> (ask: Option<
        HostQuery,
    >)
        requires
            old(self).sound(),
            old(self)@.w.wf(),
            env.now.admits(RECONNECT_MAX_MS as int),
        ensures
            final(self).sound(),
            final(self).ending(ask) == old(self)@.reply_ending(reply@, env@),
    {
        proof {
            reveal(Run::reply_ending);
        }
        let mut pending: WorkerPending = Pending::Idle;
        std::mem::swap(&mut pending, &mut self.w.pending);
        match (pending, reply) {
            (Pending::FinishingAudio { generation }, Reply::Outcome(error)) => self.audio_finished(
                generation,
                error,
                env,
            ),
            (Pending::CompletingDrain, Reply::Outcome(error)) => self.drain_completed(error),
            (Pending::Aborting { source, error }, Reply::Written(outcome)) =>
                self.microphone_closed(source, error, outcome),
            (pending, _) => {
                self.w.pending = pending;
                None
            },
        }
    }

    fn reply_start(&mut self, reply: WorkerReply, env: &WorkerSurroundings) -> (ask: Option<
        HostQuery,
    >)
        requires
            old(self).sound(),
            old(self)@.w.wf(),
            env.now.admits(RECONNECT_MAX_MS as int),
        ensures
            final(self).sound(),
            final(self).ending(ask) == old(self)@.reply_start(reply@, env@),
    {
        proof {
            reveal(Run::reply_start);
        }
        let mut pending: WorkerPending = Pending::Idle;
        std::mem::swap(&mut pending, &mut self.w.pending);
        match (pending, reply) {
            (Pending::StartSettling(start), Reply::Slept) => self.start_settled(start, env),
            (Pending::StartReading { start, chord }, Reply::Reading(reading)) => self.start_read(
                start,
                chord,
                reading,
            ),
            (Pending::StartActivating { start, chord, baseline }, Reply::Outcome(error)) =>
                self.start_activated(start, chord, baseline, error),
            (Pending::StartPressing { start, chord, baseline, hint }, Reply::Outcome(error)) =>
                self.start_pressed(start, chord, baseline, hint, error, env),
            (Pending::StartingAudio { start, hint }, Reply::Outcome(error)) => self.audio_begun(
                start,
                hint,
                error,
                env,
            ),
            (pending, _) => {
                self.w.pending = pending;
                None
            },
        }
    }

    fn reply_audio(&mut self, reply: WorkerReply, env: &WorkerSurroundings) -> (ask: Option<
        HostQuery,
    >)
        requires
            old(self).sound(),
            old(self)@.w.wf(),
            env.now.admits(RECONNECT_MAX_MS as int),
        ensures
            final(self).sound(),
            final(self).ending(ask) == old(self)@.reply_audio(reply@, env@),
    {
        proof {
            reveal(Run::reply_audio);
        }
        let mut pending: WorkerPending = Pending::Idle;
        std::mem::swap(&mut pending, &mut self.w.pending);
        match (pending, reply) {
            (Pending::CheckingAudio { bytes }, Reply::Outcome(error)) => self.audio_checked(
                bytes,
                error,
                env,
            ),
            (Pending::DecodingAudio, Reply::Decoded(output)) => self.audio_decoded(output),
            (Pending::DecodingAudio, Reply::DecodeFailed(error)) => {
                self.report(error);
                None
            },
            (Pending::Enqueueing { generation, count }, Reply::Outcome(error)) =>
                self.samples_enqueued(generation, count, error, env),
            (pending, _) => {
                self.w.pending = pending;
                None
            },
        }
    }

    fn on_reply(&mut self, reply: WorkerReply, env: &WorkerSurroundings) -> (ask: Option<HostQuery>)
        requires
            old(self).sound(),
            old(self)@.w.wf(),
            env.now.admits(RECONNECT_MAX_MS as int),
        ensures
            final(self).sound(),
            final(self).ending(ask) == old(self)@.on_reply(reply@, env@),
    {
        match activity_of(&self.w.pending) {
            Activity::Resting => None,
            Activity::Cleanup => self.reply_cleanup(reply, env),
            Activity::Connecting => self.reply_connecting(reply, env),
            Activity::Timed => self.reply_timed(reply, env),
            Activity::Retry => self.reply_retry(reply, env),
            Activity::Control => self.reply_control(reply, env),
            Activity::Ending => self.reply_ending(reply, env),
            Activity::Start => self.reply_start(reply, env),
            Activity::Audio => self.reply_audio(reply, env),
        }
    }

    fn stage_attempted(
        &mut self,
        stage: Stage<String>,
        attempt: Attempt<String>,
        failure: Option<PlatformError>,
        env: &WorkerSurroundings,
    ) -> (ask: Option<HostQuery>)
        requires
            old(self).sound(),
            env.now.admits(RECONNECT_MAX_MS as int),
        ensures
            final(self).sound(),
            final(self).ending(ask) == old(self)@.stage_attempted(
                stage@,
                attempt@,
                failure_of(failure),
                env@,
            ),
    {
        match (stage, failure) {
            (Stage::Modeling { name }, _) => {
                self.w.pending = Pending::Connecting { stage: Stage::Modeling { name }, attempt };
                None
            },
            (stage, Some(failure)) => {
                self.unwind(&stage);
                self.attempt_failed(attempt, failure, env)
            },
            (Stage::Naming, None) => {
                self.w.pending = Pending::Connecting { stage: Stage::Naming, attempt };
                None
            },
            (stage, None) => self.stage_succeeded(stage, attempt, env),
        }
    }
}

/// The number after `n`, starting over after the last.
fn following(n: u64) -> (next: u64)
    ensures
        next == next_number(n),
{
    if n == u64::MAX {
        0
    } else {
        n + 1
    }
}

impl Worker {
    /// The worker holds what a worker can hold.
    pub closed spec fn wf(self) -> bool {
        self.backoff.wf() && consistent(self@)
    }

    /// The worker before its first event.
    pub fn new() -> (worker: Worker)
        ensures
            worker.wf(),
            worker@ == WorkerModel::initial(),
            consistent(worker@),
    {
        Worker {
            session: None,
            active_voice_samples: 0,
            connection_generation: 0,
            capabilities_deadline: None,
            reconnect_deadline: None,
            extend_deadline: None,
            preferred_device_id: None,
            system_suspended: false,
            backoff: ReconnectBackoff::new(RECONNECT_BASE_MS, RECONNECT_MAX_MS),
            held_hotkey: None,
            voice_session_epoch: 0,
            radio_recovery_cycles: 0,
            pending: Pending::Idle,
        }
    }

    /// When the worker has to act without a message.
    pub fn deadline(&self) -> (deadline: Option<Instant>)
        ensures
            deadline == self@.deadline(),
    {
        nearest_deadline(
            nearest_deadline(self.capabilities_deadline, self.reconnect_deadline),
            self.extend_deadline,
        )
    }

    /// Whether the worker has ended.
    pub fn stopped(&self) -> (stopped: bool)
        ensures
            stopped == self@.pending is Stopped,
    {
        match self.pending {
            Pending::Stopped => true,
            _ => false,
        }
    }

    /// Takes one step: the commands that the host carries out, in order, and the query
    /// that it then answers, if there is one.
    pub fn step(
        &mut self,
        snapshot: &mut ConnectionSnapshot,
        env: &WorkerSurroundings,
        event: WorkerEvent,
    ) -> (turn: (Vec<HostCommand>, Option<HostQuery>))
        requires
            old(self).wf(),
            env.now.admits(RECONNECT_MAX_MS as int),
        ensures
            final(self).wf(),
            consistent(final(self)@),
            (Run {
                w: final(self)@,
                s: final(snapshot)@,
                out: commands_of(turn.0@),
                ask: query_of(turn.1),
            }) == step(old(self)@, old(snapshot)@, env@, event@),
    {
        let mut turn = Turn {
            w: Worker::new(),
            s: ConnectionSnapshot::default(),
            out: Vec::new(),
        };
        std::mem::swap(&mut turn.w, self);
        std::mem::swap(&mut turn.s, snapshot);
        assert(commands_of(turn.out@) =~= Seq::empty());
        proof {
            steps_keep_consistency(turn.w@, turn.s@, env@, event@);
        }
        let idle = match turn.w.pending {
            Pending::Idle => true,
            _ => false,
        };
        let ask = match event {
            Event::Timeout => if idle {
                turn.on_timeout(env)
            } else {
                None
            },
            Event::Message(message) => if idle {
                turn.on_message(message, env)
            } else {
                None
            },
            Event::Reply(reply) => turn.on_reply(reply, env),
        };
        let mut turn = turn;
        std::mem::swap(&mut turn.w, self);
        std::mem::swap(&mut turn.s, snapshot);
        (turn.out, ask)
    }
}

} // verus!
