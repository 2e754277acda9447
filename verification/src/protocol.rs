//! What the worker is told and what it asks of its host.
//!
//! The worker decides; the host acts. One step of the worker takes an event and
//! gives back commands, which the host carries out in order, and at most one query,
//! whose answer the host hands back as the next event. The types are generic over
//! the representation of texts (`T`), packets (`B`), audio samples (`S`) and key
//! lists (`K`), so that executable values and their models share one definition.
use crate::chord::{chord_of, Chord, KeyCode};
use crate::deadline::Instant;
use crate::diagnostics::Note;
use crate::error::Failure;
use crate::snapshot::{Capabilities, RemoteModel, Snapshot, VoiceSessionState};
use crate::text::text_of;
use vstd::prelude::*;

verus! {

/// A reading of the time at which the input method last opened the microphone; the
/// host keeps the reading, the worker passes its handle on.
#[derive(Debug, Clone, Copy, PartialEq, Eq, Structural)]
pub struct MicObservation {
    pub handle: u64,
}

/// What two microphone readings say of the time between them.
#[derive(Debug, Clone, Copy, PartialEq, Eq, Structural)]
pub enum MicResponse {
    Observed,
    NotObserved,
    Unknown,
}

/// The state of the Bluetooth link.
#[derive(Debug, Clone, Copy, PartialEq, Eq, Structural)]
pub enum LinkStatus {
    Connected,
    Disconnected,
}

/// The two characteristics that send notifications.
#[derive(Debug, Clone, Copy, PartialEq, Eq, Structural)]
pub enum Channel {
    Audio,
    Control,
}

/// The characteristics of the voice service.
#[derive(Debug, Clone, Copy, PartialEq, Eq, Structural)]
pub enum Characteristic {
    Transmit,
    Audio,
    Control,
}

/// What the voice protocol pipeline says of itself.
#[derive(Debug, Clone, Copy, PartialEq, Eq, Structural)]
pub struct PipelineStatus {
    pub state: VoiceSessionState,
    pub capabilities: Option<Capabilities>,
    pub session_id: Option<u8>,
}

/// What the pipeline makes of a packet.
#[derive(Debug, PartialEq, Eq)]
pub enum PipelineOutput<S> {
    Ready(Capabilities),
    MicrophoneOpenRequested,
    StreamStarted { session_id: u8, generation: u64 },
    StreamStopped { generation: u64 },
    DecoderSynchronized,
    UnknownControl,
    Samples { generation: u64, samples: S },
}

/// What reaches the worker from outside.
#[derive(Debug, PartialEq, Eq)]
pub enum Message<T, B> {
    /// Connect to a device and keep the connection up; an answer is owed.
    Connect { device_id: T },
    /// Drop the connection and stay disconnected; an answer is owed.
    Disconnect,
    /// Come back to the device of an earlier run; an answer is owed.
    Restore { device_id: T },
    /// The remote has been seen pressing keys: it is awake.
    WakeReconnect,
    /// The input method did not react to the chord: press it again.
    RetryVoiceChord { attempt: u32, epoch: u64, baseline: Option<MicObservation> },
    /// A control packet of the connection with that generation.
    Control { connection_generation: u64, bytes: B },
    /// An audio packet of the connection with that generation.
    Audio { connection_generation: u64, bytes: B },
    /// The link of the connection with that generation changed.
    ConnectionChanged { connection_generation: u64, status: LinkStatus },
    /// A notification of the connection with that generation could not be read.
    CallbackError { connection_generation: u64, error: T },
    SystemSuspended,
    SystemResumed,
    Shutdown,
}

/// What the host reads off before each step.
#[derive(Debug, PartialEq, Eq)]
pub struct Surroundings<K> {
    pub now: Instant,
    pub pipeline: PipelineStatus,
    /// The configured push-to-talk chord.
    pub hotkey: Option<Chord<K>>,
}

/// The errors of releasing what a connection holds; all of it is released whatever
/// fails.
#[derive(Debug, PartialEq, Eq)]
pub struct CloseReport<T> {
    pub audio_handler: Option<T>,
    pub control_handler: Option<T>,
    pub link_handler: Option<T>,
    pub service: Option<T>,
    pub device: Option<T>,
}

/// How sending a command to the remote ended.
#[derive(Debug, PartialEq, Eq)]
pub enum WriteOutcome<T> {
    /// The command has no encoding in the negotiated version; nothing was sent.
    Unencodable,
    Sent,
    Failed(Failure<T>),
}

/// An answer to a query.
#[derive(Debug, PartialEq, Eq)]
pub enum Reply<T, S> {
    /// Done, or the text of what went wrong.
    Outcome(Option<T>),
    /// Done, or the failure.
    Attempted(Option<Failure<T>>),
    /// The name of the device and the model that it tells.
    Named { name: T, model: RemoteModel },
    /// The model that the device information service tells.
    Model(Option<RemoteModel>),
    Closed(CloseReport<T>),
    /// Whether the radio should be restarted now, and how often at most.
    RadioPolicy { due: bool, limit: u32 },
    Written(WriteOutcome<T>),
    /// A new microphone reading.
    Reading(Option<MicObservation>),
    /// A new microphone reading and what it says since the baseline.
    Compared { reading: Option<MicObservation>, response: MicResponse },
    Decoded(PipelineOutput<S>),
    DecodeFailed(T),
    Slept,
}

/// What makes the worker move.
#[derive(Debug, PartialEq, Eq)]
pub enum Event<T, B, S> {
    /// No message arrived before the nearest deadline.
    Timeout,
    Message(Message<T, B>),
    Reply(Reply<T, S>),
}

/// What the host does without an answer.
#[derive(Debug, PartialEq, Eq)]
pub enum Command<T, K> {
    /// Take over, or leave alone, the keys that remote and keyboard share.
    SetRemoteGate(bool),
    /// Swallow, or let through, the key that the voice button also sends.
    SetSessionActive(bool),
    /// Let go of the push-to-talk chord and log how that ended.
    ReleaseHeldChord(Chord<K>),
    ReleaseStuckF5,
    InterruptAudio,
    InterruptPipeline,
    ResetPipeline,
    /// Release everything a connection holds, whatever fails.
    DropSession,
    /// Ask for short connection intervals, as far as the system can.
    RequestThroughput,
    RemoveHandler(Channel),
    DisableNotifications(Channel),
    CloseService,
    CloseDevice,
    /// Make the number of the voice session known to running checks.
    PublishEpoch(u64),
    /// Check after a while whether the input method reacted to the chord.
    WatchWeType { attempt: u32, epoch: u64, baseline: Option<MicObservation> },
    RecordUsage(u64),
    /// Answer the request that the worker is dealing with.
    Answer(Result<Snapshot<T>, Failure<T>>),
    Log(Note),
}

/// What the host does and answers.
#[derive(Debug, PartialEq, Eq)]
pub enum Query<T, B, S, K> {
    InterruptAudio,
    CloseSession,
    OpenDevice { device_id: T },
    ReadName,
    ReadModel,
    FindService,
    FindCharacteristic(Characteristic),
    Subscribe { channel: Channel, generation: u64 },
    WatchLink { generation: u64 },
    RequestCapabilities,
    ConsultRadioPolicy { attempt: u32, cycles: u32 },
    CycleRadio,
    ExtendMicrophone { version: u16, session_id: u8 },
    OpenMicrophone { version: u16, codec: u8 },
    CloseMicrophone { version: u16, session_id: u8 },
    ReadMicrophone,
    CompareMicrophone { baseline: Option<MicObservation> },
    ReleaseChord(Chord<K>),
    PressChord(Chord<K>),
    DecodeControl(B),
    DecodeAudio(B),
    Sleep { millis: u64 },
    ActivateWeType,
    BeginAudio { generation: u64 },
    FinishAudio { generation: u64 },
    CompleteDrain { generation: u64 },
    CheckAudio,
    EnqueueSamples { generation: u64, samples: S },
}

/// A connection that has been set up.
#[derive(Debug, PartialEq, Eq)]
pub struct Session<T> {
    pub name: T,
    pub model: RemoteModel,
    pub microphone_opened: bool,
    /// What went wrong when the connection was last closed; it is closed again by
    /// the next clean-up.
    pub cleanup_failure: Option<T>,
}

/// An attempt to connect.
#[derive(Debug, PartialEq, Eq)]
pub struct Attempt<T> {
    /// Asked for by the user, who is owed an answer; else it is a reconnect.
    pub requested: bool,
    pub device_id: T,
    /// Its number in a row of reconnects.
    pub number: u32,
}

/// The device that is being set up.
#[derive(Debug, PartialEq, Eq)]
pub struct Identity<T> {
    pub name: T,
    pub model: RemoteModel,
}

/// How far the set-up of a connection has come.
#[derive(Debug, PartialEq, Eq)]
pub enum Stage<T> {
    Opening,
    Naming,
    Modeling { name: T },
    FindingService(Identity<T>),
    FindingCharacteristic(Characteristic, Identity<T>),
    Subscribing(Channel, Identity<T>),
    WatchingLink(Identity<T>),
    RequestingCapabilities(Identity<T>),
}

/// What follows a clean-up.
#[derive(Debug, PartialEq, Eq)]
pub enum After<T> {
    CapabilitiesTimeout,
    Connect(Attempt<T>),
    Disconnect,
    ControlFailed { error: T },
    LinkLost,
    CallbackFailed { error: T },
    Suspend,
}

/// A voice session that is starting.
#[derive(Debug, Clone, Copy, PartialEq, Eq, Structural)]
pub struct Start {
    pub session_id: u8,
    pub generation: u64,
    pub epoch: u64,
}

/// A repeated press of the chord.
#[derive(Debug, Clone, Copy, PartialEq, Eq, Structural)]
pub struct Retry {
    pub attempt: u32,
    pub epoch: u64,
}

/// The kind of packet that the worker is dealing with.
#[derive(Debug, Clone, Copy, PartialEq, Eq, Structural)]
pub enum Source {
    Control,
    Audio,
}

/// The query that the worker waits for, with what it needs to go on.
#[derive(Debug, PartialEq, Eq)]
pub enum Pending<T, B, K> {
    Idle,
    Stopped,
    CleaningAudio(After<T>),
    CleaningSession { after: After<T>, audio_error: Option<T> },
    Connecting { stage: Stage<T>, attempt: Attempt<T> },
    ConsultingRadioPolicy,
    CyclingRadio,
    Extending { since: Instant },
    RetryComparing(Retry),
    RetryReleasing { retry: Retry, reading: Option<MicObservation>, chord: Chord<K> },
    RetryPressing { retry: Retry, reading: Option<MicObservation>, chord: Chord<K> },
    Decoding,
    OpeningMicrophone,
    StartSettling(Start),
    StartReading { start: Start, chord: Chord<K> },
    StartActivating { start: Start, chord: Chord<K>, baseline: Option<MicObservation> },
    /// The hint says why the input method could not be activated; it is shown for as long
    /// as the voice session runs undisturbed.
    StartPressing {
        start: Start,
        chord: Chord<K>,
        baseline: Option<MicObservation>,
        hint: Option<T>,
    },
    StartingAudio { start: Start, hint: Option<T> },
    FinishingAudio { generation: u64 },
    CompletingDrain,
    Aborting { source: Source, error: T },
    CheckingAudio { bytes: B },
    DecodingAudio,
    Enqueueing { generation: u64, count: u64 },
}

pub type WorkerMessage = Message<String, Vec<u8>>;

pub type MessageModel = Message<Seq<char>, Seq<u8>>;

pub type WorkerReply = Reply<String, Vec<i16>>;

pub type ReplyModel = Reply<Seq<char>, Seq<i16>>;

pub type WorkerEvent = Event<String, Vec<u8>, Vec<i16>>;

pub type EventModel = Event<Seq<char>, Seq<u8>, Seq<i16>>;

pub type HostCommand = Command<String, Vec<KeyCode>>;

pub type CommandModel = Command<Seq<char>, Seq<KeyCode>>;

pub type HostQuery = Query<String, Vec<u8>, Vec<i16>, Vec<KeyCode>>;

pub type QueryModel = Query<Seq<char>, Seq<u8>, Seq<i16>, Seq<KeyCode>>;

pub type WorkerPending = Pending<String, Vec<u8>, Vec<KeyCode>>;

pub type PendingModel = Pending<Seq<char>, Seq<u8>, Seq<KeyCode>>;

pub type WorkerSurroundings = Surroundings<Vec<KeyCode>>;

pub type SurroundingsModel = Surroundings<Seq<KeyCode>>;

/// The contents of an optional failure.
pub open spec fn failure_of(failure: Option<Failure<String>>) -> Option<Failure<Seq<char>>> {
    match failure {
        Some(failure) => Some(failure@),
        None => None,
    }
}

impl View for Message<String, Vec<u8>> {
    type V = Message<Seq<char>, Seq<u8>>;

    open spec fn view(&self) -> Message<Seq<char>, Seq<u8>> {
        match *self {
            Message::Connect { device_id } => Message::Connect { device_id: device_id@ },
            Message::Disconnect => Message::Disconnect,
            Message::Restore { device_id } => Message::Restore { device_id: device_id@ },
            Message::WakeReconnect => Message::WakeReconnect,
            Message::RetryVoiceChord { attempt, epoch, baseline } => Message::RetryVoiceChord {
                attempt,
                epoch,
                baseline,
            },
            Message::Control { connection_generation, bytes } => Message::Control {
                connection_generation,
                bytes: bytes@,
            },
            Message::Audio { connection_generation, bytes } => Message::Audio {
                connection_generation,
                bytes: bytes@,
            },
            Message::ConnectionChanged { connection_generation, status } =>
                Message::ConnectionChanged { connection_generation, status },
            Message::CallbackError { connection_generation, error } => Message::CallbackError {
                connection_generation,
                error: error@,
            },
            Message::SystemSuspended => Message::SystemSuspended,
            Message::SystemResumed => Message::SystemResumed,
            Message::Shutdown => Message::Shutdown,
        }
    }
}

impl View for Surroundings<Vec<KeyCode>> {
    type V = Surroundings<Seq<KeyCode>>;

    open spec fn view(&self) -> Surroundings<Seq<KeyCode>> {
        Surroundings { now: self.now, pipeline: self.pipeline, hotkey: chord_of(self.hotkey) }
    }
}

impl View for CloseReport<String> {
    type V = CloseReport<Seq<char>>;

    open spec fn view(&self) -> CloseReport<Seq<char>> {
        CloseReport {
            audio_handler: text_of(self.audio_handler),
            control_handler: text_of(self.control_handler),
            link_handler: text_of(self.link_handler),
            service: text_of(self.service),
            device: text_of(self.device),
        }
    }
}

impl View for WriteOutcome<String> {
    type V = WriteOutcome<Seq<char>>;

    open spec fn view(&self) -> WriteOutcome<Seq<char>> {
        match *self {
            WriteOutcome::Unencodable => WriteOutcome::Unencodable,
            WriteOutcome::Sent => WriteOutcome::Sent,
            WriteOutcome::Failed(error) => WriteOutcome::Failed(error@),
        }
    }
}

impl View for PipelineOutput<Vec<i16>> {
    type V = PipelineOutput<Seq<i16>>;

    open spec fn view(&self) -> PipelineOutput<Seq<i16>> {
        match *self {
            PipelineOutput::Ready(capabilities) => PipelineOutput::Ready(capabilities),
            PipelineOutput::MicrophoneOpenRequested => PipelineOutput::MicrophoneOpenRequested,
            PipelineOutput::StreamStarted { session_id, generation } =>
                PipelineOutput::StreamStarted { session_id, generation },
            PipelineOutput::StreamStopped { generation } => PipelineOutput::StreamStopped {
                generation,
            },
            PipelineOutput::DecoderSynchronized => PipelineOutput::DecoderSynchronized,
            PipelineOutput::UnknownControl => PipelineOutput::UnknownControl,
            PipelineOutput::Samples { generation, samples } => PipelineOutput::Samples {
                generation,
                samples: samples@,
            },
        }
    }
}

impl View for Reply<String, Vec<i16>> {
    type V = Reply<Seq<char>, Seq<i16>>;

    open spec fn view(&self) -> Reply<Seq<char>, Seq<i16>> {
        match *self {
            Reply::Outcome(error) => Reply::Outcome(text_of(error)),
            Reply::Attempted(failure) => Reply::Attempted(failure_of(failure)),
            Reply::Named { name, model } => Reply::Named { name: name@, model },
            Reply::Model(model) => Reply::Model(model),
            Reply::Closed(report) => Reply::Closed(report@),
            Reply::RadioPolicy { due, limit } => Reply::RadioPolicy { due, limit },
            Reply::Written(outcome) => Reply::Written(outcome@),
            Reply::Reading(reading) => Reply::Reading(reading),
            Reply::Compared { reading, response } => Reply::Compared { reading, response },
            Reply::Decoded(output) => Reply::Decoded(output@),
            Reply::DecodeFailed(error) => Reply::DecodeFailed(error@),
            Reply::Slept => Reply::Slept,
        }
    }
}

impl View for Event<String, Vec<u8>, Vec<i16>> {
    type V = Event<Seq<char>, Seq<u8>, Seq<i16>>;

    open spec fn view(&self) -> Event<Seq<char>, Seq<u8>, Seq<i16>> {
        match *self {
            Event::Timeout => Event::Timeout,
            Event::Message(message) => Event::Message(message@),
            Event::Reply(reply) => Event::Reply(reply@),
        }
    }
}

/// The contents of an answer to a request.
pub open spec fn answer_of(answer: Result<Snapshot<String>, Failure<String>>) -> Result<
    Snapshot<Seq<char>>,
    Failure<Seq<char>>,
> {
    match answer {
        Ok(snapshot) => Ok(snapshot@),
        Err(failure) => Err(failure@),
    }
}

impl View for Command<String, Vec<KeyCode>> {
    type V = Command<Seq<char>, Seq<KeyCode>>;

    open spec fn view(&self) -> Command<Seq<char>, Seq<KeyCode>> {
        match *self {
            Command::SetRemoteGate(online) => Command::SetRemoteGate(online),
            Command::SetSessionActive(active) => Command::SetSessionActive(active),
            Command::ReleaseHeldChord(chord) => Command::ReleaseHeldChord(chord@),
            Command::ReleaseStuckF5 => Command::ReleaseStuckF5,
            Command::InterruptAudio => Command::InterruptAudio,
            Command::InterruptPipeline => Command::InterruptPipeline,
            Command::ResetPipeline => Command::ResetPipeline,
            Command::DropSession => Command::DropSession,
            Command::RequestThroughput => Command::RequestThroughput,
            Command::RemoveHandler(channel) => Command::RemoveHandler(channel),
            Command::DisableNotifications(channel) => Command::DisableNotifications(channel),
            Command::CloseService => Command::CloseService,
            Command::CloseDevice => Command::CloseDevice,
            Command::PublishEpoch(epoch) => Command::PublishEpoch(epoch),
            Command::WatchWeType { attempt, epoch, baseline } => Command::WatchWeType {
                attempt,
                epoch,
                baseline,
            },
            Command::RecordUsage(samples) => Command::RecordUsage(samples),
            Command::Answer(answer) => Command::Answer(answer_of(answer)),
            Command::Log(note) => Command::Log(note),
        }
    }
}

impl View for Query<String, Vec<u8>, Vec<i16>, Vec<KeyCode>> {
    type V = Query<Seq<char>, Seq<u8>, Seq<i16>, Seq<KeyCode>>;

    open spec fn view(&self) -> Query<Seq<char>, Seq<u8>, Seq<i16>, Seq<KeyCode>> {
        match *self {
            Query::InterruptAudio => Query::InterruptAudio,
            Query::CloseSession => Query::CloseSession,
            Query::OpenDevice { device_id } => Query::OpenDevice { device_id: device_id@ },
            Query::ReadName => Query::ReadName,
            Query::ReadModel => Query::ReadModel,
            Query::FindService => Query::FindService,
            Query::FindCharacteristic(which) => Query::FindCharacteristic(which),
            Query::Subscribe { channel, generation } => Query::Subscribe { channel, generation },
            Query::WatchLink { generation } => Query::WatchLink { generation },
            Query::RequestCapabilities => Query::RequestCapabilities,
            Query::ConsultRadioPolicy { attempt, cycles } => Query::ConsultRadioPolicy {
                attempt,
                cycles,
            },
            Query::CycleRadio => Query::CycleRadio,
            Query::ExtendMicrophone { version, session_id } => Query::ExtendMicrophone {
                version,
                session_id,
            },
            Query::OpenMicrophone { version, codec } => Query::OpenMicrophone { version, codec },
            Query::CloseMicrophone { version, session_id } => Query::CloseMicrophone {
                version,
                session_id,
            },
            Query::ReadMicrophone => Query::ReadMicrophone,
            Query::CompareMicrophone { baseline } => Query::CompareMicrophone { baseline },
            Query::ReleaseChord(chord) => Query::ReleaseChord(chord@),
            Query::PressChord(chord) => Query::PressChord(chord@),
            Query::DecodeControl(bytes) => Query::DecodeControl(bytes@),
            Query::DecodeAudio(bytes) => Query::DecodeAudio(bytes@),
            Query::Sleep { millis } => Query::Sleep { millis },
            Query::ActivateWeType => Query::ActivateWeType,
            Query::BeginAudio { generation } => Query::BeginAudio { generation },
            Query::FinishAudio { generation } => Query::FinishAudio { generation },
            Query::CompleteDrain { generation } => Query::CompleteDrain { generation },
            Query::CheckAudio => Query::CheckAudio,
            Query::EnqueueSamples { generation, samples } => Query::EnqueueSamples {
                generation,
                samples: samples@,
            },
        }
    }
}

/// The contents of a list of commands.
pub open spec fn commands_of(out: Seq<HostCommand>) -> Seq<CommandModel> {
    Seq::new(out.len(), |i: int| out[i]@)
}

/// The contents of an optional query.
pub open spec fn query_of(query: Option<HostQuery>) -> Option<QueryModel> {
    match query {
        Some(query) => Some(query@),
        None => None,
    }
}

impl View for Session<String> {
    type V = Session<Seq<char>>;

    open spec fn view(&self) -> Session<Seq<char>> {
        Session {
            name: self.name@,
            model: self.model,
            microphone_opened: self.microphone_opened,
            cleanup_failure: text_of(self.cleanup_failure),
        }
    }
}

/// The contents of an optional session.
pub open spec fn session_of(session: Option<Session<String>>) -> Option<Session<Seq<char>>> {
    match session {
        Some(session) => Some(session@),
        None => None,
    }
}

impl View for Attempt<String> {
    type V = Attempt<Seq<char>>;

    open spec fn view(&self) -> Attempt<Seq<char>> {
        Attempt { requested: self.requested, device_id: self.device_id@, number: self.number }
    }
}

impl View for Identity<String> {
    type V = Identity<Seq<char>>;

    open spec fn view(&self) -> Identity<Seq<char>> {
        Identity { name: self.name@, model: self.model }
    }
}

impl View for Stage<String> {
    type V = Stage<Seq<char>>;

    open spec fn view(&self) -> Stage<Seq<char>> {
        match *self {
            Stage::Opening => Stage::Opening,
            Stage::Naming => Stage::Naming,
            Stage::Modeling { name } => Stage::Modeling { name: name@ },
            Stage::FindingService(identity) => Stage::FindingService(identity@),
            Stage::FindingCharacteristic(which, identity) => Stage::FindingCharacteristic(
                which,
                identity@,
            ),
            Stage::Subscribing(channel, identity) => Stage::Subscribing(channel, identity@),
            Stage::WatchingLink(identity) => Stage::WatchingLink(identity@),
            Stage::RequestingCapabilities(identity) => Stage::RequestingCapabilities(identity@),
        }
    }
}

impl View for After<String> {
    type V = After<Seq<char>>;

    open spec fn view(&self) -> After<Seq<char>> {
        match *self {
            After::CapabilitiesTimeout => After::CapabilitiesTimeout,
            After::Connect(attempt) => After::Connect(attempt@),
            After::Disconnect => After::Disconnect,
            After::ControlFailed { error } => After::ControlFailed { error: error@ },
            After::LinkLost => After::LinkLost,
            After::CallbackFailed { error } => After::CallbackFailed { error: error@ },
            After::Suspend => After::Suspend,
        }
    }
}

impl View for Pending<String, Vec<u8>, Vec<KeyCode>> {
    type V = Pending<Seq<char>, Seq<u8>, Seq<KeyCode>>;

    open spec fn view(&self) -> Pending<Seq<char>, Seq<u8>, Seq<KeyCode>> {
        match *self {
            Pending::Idle => Pending::Idle,
            Pending::Stopped => Pending::Stopped,
            Pending::CleaningAudio(after) => Pending::CleaningAudio(after@),
            Pending::CleaningSession { after, audio_error } => Pending::CleaningSession {
                after: after@,
                audio_error: text_of(audio_error),
            },
            Pending::Connecting { stage, attempt } => Pending::Connecting {
                stage: stage@,
                attempt: attempt@,
            },
            Pending::ConsultingRadioPolicy => Pending::ConsultingRadioPolicy,
            Pending::CyclingRadio => Pending::CyclingRadio,
            Pending::Extending { since } => Pending::Extending { since },
            Pending::RetryComparing(retry) => Pending::RetryComparing(retry),
            Pending::RetryReleasing { retry, reading, chord } => Pending::RetryReleasing {
                retry,
                reading,
                chord: chord@,
            },
            Pending::RetryPressing { retry, reading, chord } => Pending::RetryPressing {
                retry,
                reading,
                chord: chord@,
            },
            Pending::Decoding => Pending::Decoding,
            Pending::OpeningMicrophone => Pending::OpeningMicrophone,
            Pending::StartSettling(start) => Pending::StartSettling(start),
            Pending::StartReading { start, chord } => Pending::StartReading {
                start,
                chord: chord@,
            },
            Pending::StartActivating { start, chord, baseline } => Pending::StartActivating {
                start,
                chord: chord@,
                baseline,
            },
            Pending::StartPressing { start, chord, baseline, hint } => Pending::StartPressing {
                start,
                chord: chord@,
                baseline,
                hint: text_of(hint),
            },
            Pending::StartingAudio { start, hint } => Pending::StartingAudio {
                start,
                hint: text_of(hint),
            },
            Pending::FinishingAudio { generation } => Pending::FinishingAudio { generation },
            Pending::CompletingDrain => Pending::CompletingDrain,
            Pending::Aborting { source, error } => Pending::Aborting { source, error: error@ },
            Pending::CheckingAudio { bytes } => Pending::CheckingAudio { bytes: bytes@ },
            Pending::DecodingAudio => Pending::DecodingAudio,
            Pending::Enqueueing { generation, count } => Pending::Enqueueing { generation, count },
        }
    }
}

} // verus!
