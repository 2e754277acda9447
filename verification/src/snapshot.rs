//! The connection state that the worker publishes to the application.
use crate::text::{copy_text, text_of};
use vstd::prelude::*;

verus! {

/// Where the connection to the voice remote stands.
#[derive(Debug, Clone, Copy, PartialEq, Eq, Structural)]
pub enum ConnectionPhase {
    Disconnected,
    Connecting,
    Discovering,
    AwaitingCapabilities,
    Ready,
    Streaming,
    Draining,
    Reconnecting,
    Suspended,
    Failed,
}

/// Where the voice session stands.
#[derive(Debug, Clone, Copy, PartialEq, Eq, Structural)]
pub enum VoiceSessionState {
    Idle,
    Streaming,
    Draining,
}

/// The remotes that can be told apart.
#[derive(Debug, Clone, Copy, PartialEq, Eq, Structural)]
pub enum RemoteModel {
    Unknown,
    Rc001,
    Rc003,
}

/// What the remote has said of its voice protocol.
#[derive(Debug, Clone, Copy, PartialEq, Eq, Structural)]
pub struct Capabilities {
    pub version: u16,
    pub selected_codec: u8,
}

/// The published state, over a representation of text.
#[derive(Debug, PartialEq, Eq)]
pub struct Snapshot<T> {
    pub phase: ConnectionPhase,
    pub remote_name: Option<T>,
    pub remote_model: RemoteModel,
    pub capabilities: Option<Capabilities>,
    pub voice_state: VoiceSessionState,
    pub generation: u64,
    pub decoded_samples: u64,
    pub reconnect_attempt: u32,
    pub last_error: Option<T>,
    pub power_notifications_available: bool,
}

/// The published state.
pub type ConnectionSnapshot = Snapshot<String>;

/// The published state, with texts as character sequences.
pub type SnapshotModel = Snapshot<Seq<char>>;

impl View for Snapshot<String> {
    type V = Snapshot<Seq<char>>;

    open spec fn view(&self) -> Snapshot<Seq<char>> {
        Snapshot {
            phase: self.phase,
            remote_name: text_of(self.remote_name),
            remote_model: self.remote_model,
            capabilities: self.capabilities,
            voice_state: self.voice_state,
            generation: self.generation,
            decoded_samples: self.decoded_samples,
            reconnect_attempt: self.reconnect_attempt,
            last_error: text_of(self.last_error),
            power_notifications_available: self.power_notifications_available,
        }
    }
}

/// The state of a worker that has nothing to do: disconnected, nothing known.
pub open spec fn blank() -> SnapshotModel {
    Snapshot {
        phase: ConnectionPhase::Disconnected,
        remote_name: None,
        remote_model: RemoteModel::Unknown,
        capabilities: None,
        voice_state: VoiceSessionState::Idle,
        generation: 0,
        decoded_samples: 0,
        reconnect_attempt: 0,
        last_error: None,
        power_notifications_available: false,
    }
}

/// The state after a failure that no attempt will repair.
pub open spec fn failed(error: Seq<char>) -> SnapshotModel {
    Snapshot { phase: ConnectionPhase::Failed, last_error: Some(error), ..blank() }
}

impl Default for Snapshot<String> {
    fn default() -> (snapshot: Self)
        ensures
            snapshot@ == blank(),
    {
        Snapshot {
            phase: ConnectionPhase::Disconnected,
            remote_name: None,
            remote_model: RemoteModel::Unknown,
            capabilities: None,
            voice_state: VoiceSessionState::Idle,
            generation: 0,
            decoded_samples: 0,
            reconnect_attempt: 0,
            last_error: None,
            power_notifications_available: false,
        }
    }
}

impl Snapshot<String> {
    /// A copy of the state.
    pub fn copy(&self) -> (copy: ConnectionSnapshot)
        ensures
            copy@ == self@,
    {
        Snapshot {
            phase: self.phase,
            remote_name: copy_text(&self.remote_name),
            remote_model: self.remote_model,
            capabilities: self.capabilities,
            voice_state: self.voice_state,
            generation: self.generation,
            decoded_samples: self.decoded_samples,
            reconnect_attempt: self.reconnect_attempt,
            last_error: copy_text(&self.last_error),
            power_notifications_available: self.power_notifications_available,
        }
    }
}

/// The state after a failure that no attempt will repair.
pub fn failed_snapshot(error: String) -> (snapshot: ConnectionSnapshot)
    ensures
        snapshot@ == failed(error@),
{
    let mut snapshot = ConnectionSnapshot::default();
    snapshot.phase = ConnectionPhase::Failed;
    snapshot.last_error = Some(error);
    snapshot
}

/// Marks in a snapshot that is handed out whether the host hears of sleep and wake-up.
pub fn decorate_snapshot(snapshot: ConnectionSnapshot, available: bool) -> (decorated:
    ConnectionSnapshot)
    ensures
        decorated@ == (Snapshot { power_notifications_available: available, ..snapshot@ }),
{
    let mut snapshot = snapshot;
    snapshot.power_notifications_available = available;
    snapshot
}

/// The remote counts as online: from the end of connection set-up on, and while a
/// lost link is being re-established.
pub open spec fn gated(phase: ConnectionPhase) -> bool {
    phase is AwaitingCapabilities || phase is Ready || phase is Streaming || phase is Draining
        || phase is Reconnecting
}

/// Whether keys that the remote shares with the keyboard are taken over in a phase.
/// Connecting, discovering, failed, disconnected and suspended leave the keyboard
/// alone.
pub fn gate_remote_connected(phase: ConnectionPhase) -> (online: bool)
    ensures
        online == gated(phase),
        online == !(phase is Disconnected || phase is Connecting || phase is Discovering
            || phase is Suspended || phase is Failed),
{
    match phase {
        ConnectionPhase::AwaitingCapabilities
        | ConnectionPhase::Ready
        | ConnectionPhase::Streaming
        | ConnectionPhase::Draining
        | ConnectionPhase::Reconnecting => true,
        _ => false,
    }
}

} // verus!
