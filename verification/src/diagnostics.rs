//! Diagnostic lines: what is written to the log, and what never is.
use crate::ime::WeTypeActivation;
use crate::order::{hex_lists_are_distinct, numerals_end_where_digits_do, parts_compare_in_turn};
use crate::text::{
    bool_text, bool_word, decimal, decimal_text, hex_byte, hex_byte_text, hex_texts, join,
    joined_text, texts,
};
use crate::wetype::RETRY_MAX_ATTEMPT;
use vstd::prelude::*;

verus! {

/// The pause between two key events of a chord.
pub const HOLD_CHORD_EVENT_GAP_MS: u64 = 80;

/// How many bytes of a packet a line shows.
pub const PREVIEW_BYTES: usize = 24;

/// Where the running application comes from.
#[derive(Debug, Clone)]
pub struct DiagnosticLogMetadata {
    pub app_version: String,
    pub app_build: String,
    pub source_revision: String,
    pub build_channel: String,
    pub release_tag: String,
}

/// The direction and channel of a packet.
#[derive(Debug, Clone, Copy, PartialEq, Eq, Structural)]
pub enum PacketKind {
    /// A notification with audio.
    Audio,
    /// A notification with control data.
    Control,
    /// A command written to the remote.
    Transmit,
}

/// Something that happened on the voice path.
#[derive(Debug, Clone, Copy, PartialEq, Eq, Structural)]
pub enum Note {
    /// A key press of the remote triggered an immediate reconnect.
    WakeReconnect,
    /// A repeated press came too late: the voice session is over.
    RetryStale { epoch: u64 },
    /// A repeated press was not needed, or nobody can tell.
    RetryMicActive { epoch: u64 },
    /// The old chord could not be released for a repeated press.
    RetryReleaseFailed { epoch: u64 },
    /// The chord was pressed again.
    RetryPressed { attempt: u32, epoch: u64 },
    /// The chord could not be pressed again.
    RetryPressFailed { attempt: u32, epoch: u64 },
    /// There is no chord to press again.
    RetryNoChord,
    /// The chord belongs to other software than WeType.
    ActivationSkippedCustomHotkey,
    /// The application's own window is in front.
    ActivationSkippedSelfForeground,
    /// Activating WeType ended, or failed where there is no outcome.
    ActivationEnded { outcome: Option<WeTypeActivation>, elapsed_ms: u64, foreground_observed: bool },
    /// The active input method was looked up.
    ImeQueried { ok: bool, active_is_wetype: bool, active_profile_present: bool },
    /// The chord was pressed for a voice session.
    ChordPressed { session_id: u8 },
    /// The chord could not be pressed for a voice session.
    ChordPressFailed { session_id: u8 },
    /// No chord is configured.
    ChordPressSkipped { session_id: u8 },
    /// The held chord was released, or could not be.
    ChordReleased { ok: bool },
    /// The audio session could not begin.
    AudioBeginFailed { session_id: u8 },
    /// Short connection intervals were asked for.
    ThroughputRequested { ok: bool },
    /// A check of the input method's reaction was set up.
    CheckArmed { attempt: u32, epoch: u64, baseline_available: bool },
    /// The voice session ended before the check.
    CheckSessionEnded,
    /// Another voice session began before the check.
    CheckSessionReplaced { epoch: u64 },
    /// The input method reacted.
    CheckReacted { attempt: u32, epoch: u64 },
    /// Nobody can tell whether the input method reacted.
    CheckUnobservable { attempt: u32, epoch: u64 },
    /// The input method did not react to the last attempt.
    CheckExhausted,
    /// The input method did not react and is being woken.
    CheckReviving { attempt: u32, epoch: u64 },
    /// Waking the input method ended.
    Revived { ok: bool, attempt: u32, epoch: u64 },
    /// The voice session ended before the repeated press.
    CheckRetryEnded,
    /// Another voice session began before the repeated press.
    CheckRetryReplaced { epoch: u64 },
    /// A repeated press is not needed, or nobody can tell.
    CheckRetryMicActive { attempt: u32, epoch: u64 },
}

/// One of two words.
pub open spec fn word_text(first: bool, a: Seq<char>, b: Seq<char>) -> Seq<char> {
    if first {
        a
    } else {
        b
    }
}

/// The word for the outcome of an activation.
pub open spec fn activation_word_text(outcome: Option<WeTypeActivation>) -> Seq<char> {
    match outcome {
        Some(WeTypeActivation::AlreadyActive) => "already_active"@,
        Some(WeTypeActivation::Switched) => "switched"@,
        Some(WeTypeActivation::SkippedSelfForeground) => "skipped_self_foreground"@,
        None => "failed"@,
    }
}

/// The words for the answer to the request for short connection intervals.
pub open spec fn throughput_words_text(ok: bool) -> Seq<char> {
    if ok {
        "conn_params result=ok mode=throughput_optimized"@
    } else {
        "conn_params result=unavailable error_domain=bluetooth error_code=request_failed reason=connection_parameter_api_failed retryable=true mode=throughput_optimized"@
    }
}

/// The text of a note.
pub open spec fn note_text(note: Note) -> Seq<char> {
    match note {
        Note::WakeReconnect => "wake_reconnect triggered=hidi backoff_reset=true"@,
        Note::RetryStale { epoch } => "chord_retry skipped reason=stale epoch="@ + decimal_text(epoch as nat),
        Note::RetryMicActive { epoch } => "chord_retry skipped reason=mic_active_or_unknown epoch="@ + decimal_text(epoch as nat),
        Note::RetryReleaseFailed { epoch } => "chord_retry result=err reason=release_failed epoch="@ + decimal_text(epoch as nat),
        Note::RetryPressed { attempt, epoch } => "chord_retry result=ok attempt="@ + decimal_text(attempt as nat) + " epoch="@ + decimal_text(epoch as nat),
        Note::RetryPressFailed { attempt, epoch } => "chord_retry result=err attempt="@ + decimal_text(attempt as nat) + " epoch="@ + decimal_text(epoch as nat) + " error_domain=send_input error_code=retry_failed reason=injection_failed retryable=true"@,
        Note::RetryNoChord => "chord_retry skipped reason=no_chord"@,
        Note::ActivationSkippedCustomHotkey => "ime_activation outcome=skipped_custom_hotkey elapsed_ms=0 foreground_observed=true error_domain=none error_code=custom_hotkey retryable=false"@,
        Note::ActivationSkippedSelfForeground => "ime_activation outcome=skipped_self_foreground elapsed_ms=0 foreground_observed=true error_domain=none error_code=foreground_is_self retryable=false"@,
        Note::ActivationEnded { outcome, elapsed_ms, foreground_observed } => "ime_activation outcome="@ + activation_word_text(outcome) + " elapsed_ms="@ + decimal_text(elapsed_ms as nat) + " foreground_observed="@ + bool_text(foreground_observed) + " error_domain="@ + word_text(outcome is Some, "none"@, "tsf"@) + " error_code="@ + word_text(outcome is Some, "none"@, "activation_failed"@) + " retryable="@ + bool_text(outcome is None),
        Note::ImeQueried { ok, active_is_wetype, active_profile_present } => "ime_query ok="@ + bool_text(ok) + " active_is_wetype="@ + bool_text(active_is_wetype) + " active_profile_present="@ + bool_text(active_profile_present),
        Note::ChordPressed { session_id } => "chord_press result=ok session="@ + decimal_text(session_id as nat) + " gap_ms="@ + decimal_text(HOLD_CHORD_EVENT_GAP_MS as nat),
        Note::ChordPressFailed { session_id } => "chord_press result=err session="@ + decimal_text(session_id as nat) + " error_domain=send_input error_code=press_failed reason=injection_failed retryable=true"@,
        Note::ChordPressSkipped { session_id } => "chord_press result=skipped session="@ + decimal_text(session_id as nat) + " reason=no_hotkey"@,
        Note::ChordReleased { ok } => "chord_release result="@ + word_text(ok, "ok"@, "err"@) + " error_domain="@ + word_text(ok, "none"@, "send_input"@) + " error_code="@ + word_text(ok, "none"@, "release_failed"@) + " reason="@ + word_text(ok, "released"@, "backend_rejected"@) + " retryable="@ + bool_text(!ok),
        Note::AudioBeginFailed { session_id } => "audio_begin result=err session="@ + decimal_text(session_id as nat) + " error_domain=audio error_code=begin_failed reason=wasapi_rejected retryable=true"@,
        Note::ThroughputRequested { ok } => throughput_words_text(ok),
        Note::CheckArmed { attempt, epoch, baseline_available } => "wetype_check armed attempt="@ + decimal_text(attempt as nat) + " epoch="@ + decimal_text(epoch as nat) + " baseline_available="@ + bool_text(baseline_available),
        Note::CheckSessionEnded => "wetype_check skipped reason=session_ended"@,
        Note::CheckSessionReplaced { epoch } => "wetype_check skipped reason=session_replaced epoch="@ + decimal_text(epoch as nat),
        Note::CheckReacted { attempt, epoch } => "wetype_check reacted=true attempt="@ + decimal_text(attempt as nat) + " epoch="@ + decimal_text(epoch as nat),
        Note::CheckUnobservable { attempt, epoch } => "wetype_check skipped reason=observation_unavailable attempt="@ + decimal_text(attempt as nat) + " epoch="@ + decimal_text(epoch as nat),
        Note::CheckExhausted => "wetype_check final=not_reacted attempts="@ + decimal_text(RETRY_MAX_ATTEMPT as nat),
        Note::CheckReviving { attempt, epoch } => "wetype_check reacted=false attempt="@ + decimal_text(attempt as nat) + " epoch="@ + decimal_text(epoch as nat) + " reviving"@,
        Note::Revived { ok, attempt, epoch } => "wetype_revive result="@ + word_text(ok, "ok"@, "err"@) + " attempt="@ + decimal_text(attempt as nat) + " epoch="@ + decimal_text(epoch as nat),
        Note::CheckRetryEnded => "wetype_check skipped_retry reason=session_ended"@,
        Note::CheckRetryReplaced { epoch } => "wetype_check skipped_retry reason=session_replaced epoch="@ + decimal_text(epoch as nat),
        Note::CheckRetryMicActive { attempt, epoch } => "wetype_check skipped_retry reason=mic_active_or_unknown attempt="@ + decimal_text(attempt as nat) + " epoch="@ + decimal_text(epoch as nat),
    }
}

/// One of two words.
fn word(first: bool, a: &'static str, b: &'static str) -> (text: &'static str)
    ensures
        text@ == word_text(first, a@, b@),
{
    if first {
        a
    } else {
        b
    }
}

/// The word for the outcome of an activation.
fn activation_word(outcome: Option<WeTypeActivation>) -> (text: &'static str)
    ensures
        text@ == activation_word_text(outcome),
{
    match outcome {
        Some(WeTypeActivation::AlreadyActive) => "already_active",
        Some(WeTypeActivation::Switched) => "switched",
        Some(WeTypeActivation::SkippedSelfForeground) => "skipped_self_foreground",
        None => "failed",
    }
}

/// The words for the answer to the request for short connection intervals.
fn throughput_words(ok: bool) -> (text: &'static str)
    ensures
        text@ == throughput_words_text(ok),
{
    if ok {
        "conn_params result=ok mode=throughput_optimized"
    } else {
        "conn_params result=unavailable error_domain=bluetooth error_code=request_failed reason=connection_parameter_api_failed retryable=true mode=throughput_optimized"
    }
}

impl Note {
    /// The text of the note.
    pub fn text(self) -> (text: String)
        ensures
            text@ == note_text(self),
    {
        match self {
            Note::WakeReconnect => "wake_reconnect triggered=hidi backoff_reset=true".to_owned(),
            Note::RetryStale { epoch } => {
                let mut text = "chord_retry skipped reason=stale epoch=".to_owned();
                text.append(decimal(epoch as u64).as_str());
                text
            },
            Note::RetryMicActive { epoch } => {
                let mut text = "chord_retry skipped reason=mic_active_or_unknown epoch=".to_owned();
                text.append(decimal(epoch as u64).as_str());
                text
            },
            Note::RetryReleaseFailed { epoch } => {
                let mut text = "chord_retry result=err reason=release_failed epoch=".to_owned();
                text.append(decimal(epoch as u64).as_str());
                text
            },
            Note::RetryPressed { attempt, epoch } => {
                let mut text = "chord_retry result=ok attempt=".to_owned();
                text.append(decimal(attempt as u64).as_str());
                text.append(" epoch=");
                text.append(decimal(epoch as u64).as_str());
                text
            },
            Note::RetryPressFailed { attempt, epoch } => {
                let mut text = "chord_retry result=err attempt=".to_owned();
                text.append(decimal(attempt as u64).as_str());
                text.append(" epoch=");
                text.append(decimal(epoch as u64).as_str());
                text.append(" error_domain=send_input error_code=retry_failed reason=injection_failed retryable=true");
                text
            },
            Note::RetryNoChord => "chord_retry skipped reason=no_chord".to_owned(),
            Note::ActivationSkippedCustomHotkey => "ime_activation outcome=skipped_custom_hotkey elapsed_ms=0 foreground_observed=true error_domain=none error_code=custom_hotkey retryable=false".to_owned(),
            Note::ActivationSkippedSelfForeground => "ime_activation outcome=skipped_self_foreground elapsed_ms=0 foreground_observed=true error_domain=none error_code=foreground_is_self retryable=false".to_owned(),
            Note::ActivationEnded { outcome, elapsed_ms, foreground_observed } => {
                let mut text = "ime_activation outcome=".to_owned();
                text.append(activation_word(outcome));
                text.append(" elapsed_ms=");
                text.append(decimal(elapsed_ms as u64).as_str());
                text.append(" foreground_observed=");
                text.append(bool_word(foreground_observed));
                text.append(" error_domain=");
                text.append(word(outcome.is_some(), "none", "tsf"));
                text.append(" error_code=");
                text.append(word(outcome.is_some(), "none", "activation_failed"));
                text.append(" retryable=");
                text.append(bool_word(outcome.is_none()));
                text
            },
            Note::ImeQueried { ok, active_is_wetype, active_profile_present } => {
                let mut text = "ime_query ok=".to_owned();
                text.append(bool_word(ok));
                text.append(" active_is_wetype=");
                text.append(bool_word(active_is_wetype));
                text.append(" active_profile_present=");
                text.append(bool_word(active_profile_present));
                text
            },
            Note::ChordPressed { session_id } => {
                let mut text = "chord_press result=ok session=".to_owned();
                text.append(decimal(session_id as u64).as_str());
                text.append(" gap_ms=");
                text.append(decimal(HOLD_CHORD_EVENT_GAP_MS as u64).as_str());
                text
            },
            Note::ChordPressFailed { session_id } => {
                let mut text = "chord_press result=err session=".to_owned();
                text.append(decimal(session_id as u64).as_str());
                text.append(" error_domain=send_input error_code=press_failed reason=injection_failed retryable=true");
                text
            },
            Note::ChordPressSkipped { session_id } => {
                let mut text = "chord_press result=skipped session=".to_owned();
                text.append(decimal(session_id as u64).as_str());
                text.append(" reason=no_hotkey");
                text
            },
            Note::ChordReleased { ok } => {
                let mut text = "chord_release result=".to_owned();
                text.append(word(ok, "ok", "err"));
                text.append(" error_domain=");
                text.append(word(ok, "none", "send_input"));
                text.append(" error_code=");
                text.append(word(ok, "none", "release_failed"));
                text.append(" reason=");
                text.append(word(ok, "released", "backend_rejected"));
                text.append(" retryable=");
                text.append(bool_word(!ok));
                text
            },
            Note::AudioBeginFailed { session_id } => {
                let mut text = "audio_begin result=err session=".to_owned();
                text.append(decimal(session_id as u64).as_str());
                text.append(" error_domain=audio error_code=begin_failed reason=wasapi_rejected retryable=true");
                text
            },
            Note::ThroughputRequested { ok } => throughput_words(ok).to_owned(),
            Note::CheckArmed { attempt, epoch, baseline_available } => {
                let mut text = "wetype_check armed attempt=".to_owned();
                text.append(decimal(attempt as u64).as_str());
                text.append(" epoch=");
                text.append(decimal(epoch as u64).as_str());
                text.append(" baseline_available=");
                text.append(bool_word(baseline_available));
                text
            },
            Note::CheckSessionEnded => "wetype_check skipped reason=session_ended".to_owned(),
            Note::CheckSessionReplaced { epoch } => {
                let mut text = "wetype_check skipped reason=session_replaced epoch=".to_owned();
                text.append(decimal(epoch as u64).as_str());
                text
            },
            Note::CheckReacted { attempt, epoch } => {
                let mut text = "wetype_check reacted=true attempt=".to_owned();
                text.append(decimal(attempt as u64).as_str());
                text.append(" epoch=");
                text.append(decimal(epoch as u64).as_str());
                text
            },
            Note::CheckUnobservable { attempt, epoch } => {
                let mut text = "wetype_check skipped reason=observation_unavailable attempt=".to_owned();
                text.append(decimal(attempt as u64).as_str());
                text.append(" epoch=");
                text.append(decimal(epoch as u64).as_str());
                text
            },
            Note::CheckExhausted => {
                let mut text = "wetype_check final=not_reacted attempts=".to_owned();
                text.append(decimal(RETRY_MAX_ATTEMPT as u64).as_str());
                text
            },
            Note::CheckReviving { attempt, epoch } => {
                let mut text = "wetype_check reacted=false attempt=".to_owned();
                text.append(decimal(attempt as u64).as_str());
                text.append(" epoch=");
                text.append(decimal(epoch as u64).as_str());
                text.append(" reviving");
                text
            },
            Note::Revived { ok, attempt, epoch } => {
                let mut text = "wetype_revive result=".to_owned();
                text.append(word(ok, "ok", "err"));
                text.append(" attempt=");
                text.append(decimal(attempt as u64).as_str());
                text.append(" epoch=");
                text.append(decimal(epoch as u64).as_str());
                text
            },
            Note::CheckRetryEnded => "wetype_check skipped_retry reason=session_ended".to_owned(),
            Note::CheckRetryReplaced { epoch } => {
                let mut text = "wetype_check skipped_retry reason=session_replaced epoch=".to_owned();
                text.append(decimal(epoch as u64).as_str());
                text
            },
            Note::CheckRetryMicActive { attempt, epoch } => {
                let mut text = "wetype_check skipped_retry reason=mic_active_or_unknown attempt=".to_owned();
                text.append(decimal(attempt as u64).as_str());
                text.append(" epoch=");
                text.append(decimal(epoch as u64).as_str());
                text
            },
        }
    }
}

/// What a line says of a property of the application.
pub open spec fn property_text(
    metadata: Option<DiagnosticLogMetadata>,
    property: spec_fn(DiagnosticLogMetadata) -> String,
) -> Seq<char> {
    match metadata {
        Some(metadata) => property(metadata)@,
        None => "unknown"@,
    }
}

/// The line for a note.
pub open spec fn note_line_text(
    timestamp: Seq<char>,
    process: u32,
    metadata: Option<DiagnosticLogMetadata>,
    note: Seq<char>,
) -> Seq<char> {
    timestamp + " pid="@ + decimal_text(process as nat) + " ver="@ + property_text(
        metadata,
        |m: DiagnosticLogMetadata| m.app_version,
    ) + " build="@ + property_text(metadata, |m: DiagnosticLogMetadata| m.app_build)
        + " source_revision="@ + property_text(
        metadata,
        |m: DiagnosticLogMetadata| m.source_revision,
    ) + " build_channel="@ + property_text(metadata, |m: DiagnosticLogMetadata| m.build_channel)
        + " release_tag="@ + property_text(metadata, |m: DiagnosticLogMetadata| m.release_tag)
        + " "@ + note
}

/// The bytes of a packet that a line shows.
pub open spec fn shown(bytes: Seq<u8>) -> Seq<u8> {
    bytes.take(
        if bytes.len() < PREVIEW_BYTES {
            bytes.len() as int
        } else {
            PREVIEW_BYTES as int
        },
    )
}

/// The first bytes of a packet in hexadecimal, with blanks between them.
pub open spec fn preview_text(bytes: Seq<u8>) -> Seq<char> {
    joined_text(hex_texts(shown(bytes)), " "@)
}

/// The line for a packet.
pub open spec fn packet_line_text(
    timestamp: Seq<char>,
    process: u32,
    metadata: Option<DiagnosticLogMetadata>,
    letter: Seq<char>,
    bytes: Seq<u8>,
) -> Seq<char> {
    timestamp + " pid="@ + decimal_text(process as nat) + " ver="@ + property_text(
        metadata,
        |m: DiagnosticLogMetadata| m.app_version,
    ) + " build="@ + property_text(metadata, |m: DiagnosticLogMetadata| m.app_build)
        + " component=gatt event=packet direction="@ + letter + " byte_count="@ + decimal_text(
        bytes.len(),
    ) + " preview=["@ + preview_text(bytes) + "]"@
}

/// The line that is written for a note.
pub fn note_line(
    timestamp: &str,
    process: u32,
    metadata: &Option<DiagnosticLogMetadata>,
    note: &str,
) -> (line: String)
    ensures
        line@ == note_line_text(timestamp@, process, *metadata, note@),
{
    let mut line = timestamp.to_owned();
    line.append(" pid=");
    line.append(decimal(process as u64).as_str());
    line.append(" ver=");
    line.append(match metadata {
        Some(m) => m.app_version.as_str(),
        None => "unknown",
    });
    line.append(" build=");
    line.append(match metadata {
        Some(m) => m.app_build.as_str(),
        None => "unknown",
    });
    line.append(" source_revision=");
    line.append(match metadata {
        Some(m) => m.source_revision.as_str(),
        None => "unknown",
    });
    line.append(" build_channel=");
    line.append(match metadata {
        Some(m) => m.build_channel.as_str(),
        None => "unknown",
    });
    line.append(" release_tag=");
    line.append(match metadata {
        Some(m) => m.release_tag.as_str(),
        None => "unknown",
    });
    line.append(" ");
    line.append(note);
    line
}

/// The first bytes of a packet in hexadecimal, with blanks between them.
fn preview(bytes: &[u8]) -> (text: String)
    ensures
        text@ == preview_text(bytes@),
{
    let shown: usize = if bytes.len() < PREVIEW_BYTES {
        bytes.len()
    } else {
        PREVIEW_BYTES
    };
    let mut parts: Vec<String> = Vec::new();
    let mut i: usize = 0;
    while i < shown
        invariant
            i <= shown <= bytes@.len(),
            parts@.len() == i,
            forall|k: int| 0 <= k < i ==> (#[trigger] parts@[k])@ == hex_byte_text(bytes@[k]),
        decreases shown - i,
    {
        parts.push(hex_byte(bytes[i]));
        i = i + 1;
    }
    assert(texts(parts@) =~= hex_texts(self::shown(bytes@)));
    join(&parts, " ")
}

/// The line that is written for a packet; for audio there is none, so that no speech
/// reaches the log.
pub fn packet_line(
    timestamp: &str,
    process: u32,
    metadata: &Option<DiagnosticLogMetadata>,
    kind: PacketKind,
    bytes: &[u8],
) -> (line: Option<String>)
    ensures
        line is None <==> kind is Audio,
        kind is Control ==> line->0@ == packet_line_text(
            timestamp@,
            process,
            *metadata,
            "C"@,
            bytes@,
        ),
        kind is Transmit ==> line->0@ == packet_line_text(
            timestamp@,
            process,
            *metadata,
            "T"@,
            bytes@,
        ),
{
    let letter = match kind {
        PacketKind::Audio => {
            return None;
        },
        PacketKind::Control => "C",
        PacketKind::Transmit => "T",
    };
    let mut line = timestamp.to_owned();
    line.append(" pid=");
    line.append(decimal(process as u64).as_str());
    line.append(" ver=");
    line.append(match metadata {
        Some(m) => m.app_version.as_str(),
        None => "unknown",
    });
    line.append(" build=");
    line.append(match metadata {
        Some(m) => m.app_build.as_str(),
        None => "unknown",
    });
    line.append(" component=gatt event=packet direction=");
    line.append(letter);
    line.append(" byte_count=");
    line.append(decimal(bytes.len() as u64).as_str());
    line.append(" preview=[");
    line.append(preview(bytes).as_str());
    line.append("]");
    Some(line)
}

/// The end of the line for a packet, after its length.
spec fn line_end(bytes: Seq<u8>) -> Seq<char> {
    " preview=["@ + preview_text(bytes) + "]"@
}

proof fn line_ends_tell_shown_bytes_apart(a: Seq<u8>, b: Seq<u8>)
    requires
        shown(a).len() == shown(b).len(),
        line_end(a) == line_end(b),
    ensures
        shown(a) == shown(b),
{
    let x = " preview=["@;
    assert(line_end(a) =~= x + (preview_text(a) + "]"@));
    assert(line_end(b) =~= x + (preview_text(b) + "]"@));
    parts_compare_in_turn(x, x, preview_text(a) + "]"@, preview_text(b) + "]"@);
    let p = preview_text(a);
    let q = preview_text(b);
    assert((p + "]"@).len() == (q + "]"@).len());
    parts_compare_in_turn(p, q, "]"@, "]"@);
    hex_lists_are_distinct(shown(a), shown(b));
}

/// Of two packets of the same kind at the same moment the lines are the same exactly
/// where the packets have the same length and show the same first bytes: nothing else
/// of a packet reaches the log.
pub proof fn lines_show_length_and_first_bytes(
    timestamp: Seq<char>,
    process: u32,
    metadata: Option<DiagnosticLogMetadata>,
    letter: Seq<char>,
    a: Seq<u8>,
    b: Seq<u8>,
)
    ensures
        packet_line_text(timestamp, process, metadata, letter, a) == packet_line_text(
            timestamp,
            process,
            metadata,
            letter,
            b,
        ) <==> a.len() == b.len() && shown(a) == shown(b),
{
    let head = timestamp + " pid="@ + decimal_text(process as nat) + " ver="@ + property_text(
        metadata,
        |m: DiagnosticLogMetadata| m.app_version,
    ) + " build="@ + property_text(metadata, |m: DiagnosticLogMetadata| m.app_build)
        + " component=gatt event=packet direction="@ + letter + " byte_count="@;
    let first = packet_line_text(timestamp, process, metadata, letter, a);
    let second = packet_line_text(timestamp, process, metadata, letter, b);
    let x = decimal_text(a.len()) + line_end(a);
    let y = decimal_text(b.len()) + line_end(b);
    assert(first =~= head + x);
    assert(second =~= head + y);
    if first == second {
        parts_compare_in_turn(head, head, x, y);
        reveal_strlit(" preview=[");
        numerals_end_where_digits_do(a.len(), b.len(), line_end(a), line_end(b));
        line_ends_tell_shown_bytes_apart(a, b);
    }
}

/// A preview is the beginning of the packet: all of it up to twenty-four bytes, and no more
/// than these.
pub proof fn previews_are_short(bytes: Seq<u8>)
    ensures
        shown(bytes).is_prefix_of(bytes),
        shown(bytes).len() <= 24,
        bytes.len() <= 24 ==> shown(bytes) =~= bytes,
        bytes.len() > 24 ==> shown(bytes).len() == 24,
{
}

/// An activation is noted with its outcome, its time and whether a window was in front; the
/// fields of an error say something exactly where it failed.
pub proof fn failed_activations_are_noted_as_errors(
    outcome: Option<WeTypeActivation>,
    elapsed_ms: u64,
    foreground_observed: bool,
)
    ensures
        ({
            let text = note_text(Note::ActivationEnded { outcome, elapsed_ms, foreground_observed });
            let measured = |name: Seq<char>|
                "ime_activation outcome="@ + name + " elapsed_ms="@ + decimal_text(
                    elapsed_ms as nat,
                ) + " foreground_observed="@ + if foreground_observed {
                    "true"@
                } else {
                    "false"@
                };
            let fine = |head: Seq<char>|
                head + " error_domain="@ + "none"@ + " error_code="@ + "none"@ + " retryable="@
                    + "false"@;
            match outcome {
                Some(WeTypeActivation::AlreadyActive) => text == fine(measured("already_active"@)),
                Some(WeTypeActivation::Switched) => text == fine(measured("switched"@)),
                Some(WeTypeActivation::SkippedSelfForeground) => text == fine(
                    measured("skipped_self_foreground"@),
                ),
                None => text == measured("failed"@) + " error_domain="@ + "tsf"@ + " error_code="@
                    + "activation_failed"@ + " retryable="@ + "true"@,
            }
        }),
{
}

/// A release of the chord is noted as fine or as an error of the injection, and waking
/// WeType as fine or not.
pub proof fn failed_releases_are_noted_as_errors(ok: bool, attempt: u32, epoch: u64)
    ensures
        note_text(Note::ChordReleased { ok: true }) == "chord_release result="@ + "ok"@
            + " error_domain="@ + "none"@ + " error_code="@ + "none"@ + " reason="@ + "released"@
            + " retryable="@ + "false"@,
        note_text(Note::ChordReleased { ok: false }) == "chord_release result="@ + "err"@
            + " error_domain="@ + "send_input"@ + " error_code="@ + "release_failed"@ + " reason="@
            + "backend_rejected"@ + " retryable="@ + "true"@,
        note_text(Note::Revived { ok, attempt, epoch }) == "wetype_revive result="@ + (if ok {
            "ok"@
        } else {
            "err"@
        }) + " attempt="@ + decimal_text(attempt as nat) + " epoch="@ + decimal_text(epoch as nat),
{
}

/// A reading of the active input method is noted by what it says, each answer under its own
/// name.
pub proof fn readings_are_noted_by_name(
    ok: bool,
    active_is_wetype: bool,
    active_profile_present: bool,
)
    ensures
        ({
            let answer = |b: bool|
                if b {
                    "true"@
                } else {
                    "false"@
                };
            note_text(Note::ImeQueried { ok, active_is_wetype, active_profile_present })
                == "ime_query ok="@ + answer(ok) + " active_is_wetype="@ + answer(active_is_wetype)
                + " active_profile_present="@ + answer(active_profile_present)
        }),
{
}

} // verus!
