//! What answers lead to in a voice session: its start, its audio, repeated presses of the
//! chord, and its end.
use crate::chord::ChordModel;
use crate::conduct::{letting_go, nothing, only_asks, settles};
use crate::deadline::Instant;
use crate::diagnostics::Note;
use crate::error::{failure_text, Failure};
use crate::model::{step, Run, WorkerModel};
use crate::protocol::{
    Command, CommandModel, Event, MicObservation, MicResponse, Pending, PendingModel,
    PipelineOutput, Query, QueryModel, Reply, Retry, Session, Start, SurroundingsModel,
    WriteOutcome,
};
use crate::snapshot::{
    Capabilities, ConnectionPhase, Snapshot, SnapshotModel, VoiceSessionState,
};
use vstd::prelude::*;

verus! {

/// A worker like `w` with its connection, where there is one, marked as to the microphone.
pub open spec fn with_microphone(w: WorkerModel, opened: bool) -> WorkerModel {
    WorkerModel {
        session: match w.session {
            Some(session) => Some(Session { microphone_opened: opened, ..session }),
            None => None,
        },
        ..w
    }
}

/// The step gives one command and nothing else happens.
pub open spec fn only_says(
    w: WorkerModel,
    s: SnapshotModel,
    command: CommandModel,
    run: Run,
) -> bool {
    run.w == w && run.s == s && run.out =~= seq![command] && run.ask is None
}

/// A remote that states its capabilities is ready: they are shown, and what was wrong
/// before is not.
pub proof fn stated_capabilities_make_ready(
    w: WorkerModel,
    s: SnapshotModel,
    env: SurroundingsModel,
    capabilities: Capabilities,
)
    requires
        w.pending is Decoding,
    ensures
        settles(
            w,
            Snapshot {
                phase: ConnectionPhase::Ready,
                capabilities: Some(capabilities),
                voice_state: VoiceSessionState::Idle,
                last_error: None,
                ..s
            },
            seq![Command::SetRemoteGate(true)],
            step(w, s, env, Event::Reply(Reply::Decoded(PipelineOutput::Ready(capabilities)))),
        ),
{
    reveal(Run::reply_control);
}

/// The microphone is opened on request, with the version and codec of the remote, exactly
/// where the remote has stated its capabilities, nothing streams, and the microphone of the
/// connection is not open already.
pub proof fn microphones_are_opened_on_request(
    w: WorkerModel,
    s: SnapshotModel,
    env: SurroundingsModel,
)
    requires
        w.pending is Decoding,
    ensures
        ({
            let run = step(
                w,
                s,
                env,
                Event::Reply(Reply::Decoded(PipelineOutput::MicrophoneOpenRequested)),
            );
            if env.pipeline.capabilities is Some && w.session is Some
                && !w.session->0.microphone_opened && env.pipeline.state is Idle {
                only_asks(
                    w,
                    s,
                    Pending::OpeningMicrophone,
                    Query::OpenMicrophone {
                        version: env.pipeline.capabilities->0.version,
                        codec: env.pipeline.capabilities->0.selected_codec,
                    },
                    run,
                )
            } else {
                settles(w, s, Seq::empty(), run)
            }
        }),
{
    reveal(Run::reply_control);
}

/// A microphone counts as open once the request was sent; a request that could not be
/// encoded or sent leaves it closed and is shown.
pub proof fn microphones_are_open_once_sent(
    w: WorkerModel,
    s: SnapshotModel,
    env: SurroundingsModel,
    outcome: WriteOutcome<Seq<char>>,
)
    requires
        w.pending is OpeningMicrophone,
    ensures
        ({
            let run = step(w, s, env, Event::Reply(Reply::Written(outcome)));
            match outcome {
                WriteOutcome::Sent => settles(with_microphone(w, true), s, Seq::empty(), run),
                WriteOutcome::Unencodable => settles(
                    w,
                    Snapshot {
                        last_error: Some(failure_text(Failure::Protocol("无法编码 MIC_OPEN"@))),
                        ..s
                    },
                    Seq::empty(),
                    run,
                ),
                WriteOutcome::Failed(error) => settles(
                    w,
                    Snapshot { last_error: Some(failure_text(error)), ..s },
                    Seq::empty(),
                    run,
                ),
            }
        }),
{
    reveal(Run::reply_control);
}

/// A stream that starts opens the microphone, gets the next number, counts its samples
/// from nothing and is extended after two and a half seconds. The voice key is swallowed
/// and its stuck press released, which takes twenty milliseconds to settle.
pub proof fn streams_get_their_own_number(
    w: WorkerModel,
    s: SnapshotModel,
    env: SurroundingsModel,
    session_id: u8,
    generation: u64,
)
    requires
        w.pending is Decoding,
    ensures
        ({
            let run = step(
                w,
                s,
                env,
                Event::Reply(
                    Reply::Decoded(PipelineOutput::StreamStarted { session_id, generation }),
                ),
            );
            let epoch = if w.voice_session_epoch == 0xffff_ffff_ffff_ffff {
                0
            } else {
                (w.voice_session_epoch + 1) as u64
            };
            &&& run.w == (WorkerModel {
                voice_session_epoch: epoch,
                active_voice_samples: 0,
                extend_deadline: Some(Instant { nanos: (env.now.nanos + 2_500_000_000) as u64 }),
                pending: Pending::StartSettling(Start { session_id, generation, epoch }),
                ..with_microphone(w, true)
            })
            &&& run.s == s
            &&& run.out =~= seq![
                Command::PublishEpoch(epoch),
                Command::SetSessionActive(true),
                Command::ReleaseStuckF5,
            ]
            &&& run.ask == Some(QueryModel::Sleep { millis: 20 })
        }),
{
    reveal(Run::reply_control);
}

/// A stream that stops closes the microphone, ends the extensions and lets go of the keys;
/// the audio of that stream is then played out.
pub proof fn stopped_streams_close_the_microphone(
    w: WorkerModel,
    s: SnapshotModel,
    env: SurroundingsModel,
    generation: u64,
)
    requires
        w.pending is Decoding,
    ensures
        ({
            let run = step(
                w,
                s,
                env,
                Event::Reply(Reply::Decoded(PipelineOutput::StreamStopped { generation })),
            );
            &&& run.w == (WorkerModel {
                extend_deadline: None,
                held_hotkey: None,
                pending: Pending::FinishingAudio { generation },
                ..with_microphone(w, false)
            })
            &&& run.s == (Snapshot {
                phase: ConnectionPhase::Draining,
                voice_state: VoiceSessionState::Draining,
                ..s
            })
            &&& run.out =~= letting_go(w.held_hotkey).push(Command::SetRemoteGate(true))
            &&& run.ask == Some(QueryModel::FinishAudio { generation })
        }),
{
    reveal(Run::reply_control);
}

/// Control packets of which the worker has nothing to make change nothing themselves.
pub proof fn other_control_packets_settle(
    w: WorkerModel,
    s: SnapshotModel,
    env: SurroundingsModel,
    output: PipelineOutput<Seq<i16>>,
)
    requires
        w.pending is Decoding,
        output is DecoderSynchronized || output is UnknownControl || output is Samples,
    ensures
        settles(w, s, Seq::empty(), step(w, s, env, Event::Reply(Reply::Decoded(output)))),
{
    reveal(Run::reply_control);
}

/// A control packet that cannot be decoded is shown; while the capabilities are awaited it
/// is the end of the connection.
pub proof fn undecodable_control_packets_are_shown(
    w: WorkerModel,
    s: SnapshotModel,
    env: SurroundingsModel,
    error: Seq<char>,
)
    requires
        w.pending is Decoding,
    ensures
        ({
            let run = step(w, s, env, Event::Reply(Reply::DecodeFailed(error)));
            if s.phase is AwaitingCapabilities {
                settles(
                    w,
                    Snapshot {
                        phase: ConnectionPhase::Failed,
                        voice_state: VoiceSessionState::Idle,
                        last_error: Some(error),
                        ..s
                    },
                    seq![Command::SetRemoteGate(false)],
                    run,
                )
            } else {
                settles(w, Snapshot { last_error: Some(error), ..s }, Seq::empty(), run)
            }
        }),
{
    reveal(Run::reply_control);
}

/// The audio begins with the number of the stream.
pub open spec fn begins_audio(
    w: WorkerModel,
    s: SnapshotModel,
    start: Start,
    hint: Option<Seq<char>>,
    out: Seq<CommandModel>,
    run: Run,
) -> bool {
    &&& run.w == (WorkerModel { pending: Pending::StartingAudio { start, hint }, ..w })
    &&& run.s == s
    &&& run.out =~= out
    &&& run.ask == Some(QueryModel::BeginAudio { generation: start.generation })
}

/// The configured chord is pressed after a look at the microphone; without one the audio
/// begins at once, and the log says so.
pub proof fn starts_look_at_the_microphone_first(
    w: WorkerModel,
    s: SnapshotModel,
    env: SurroundingsModel,
    start: Start,
)
    requires
        w.pending == PendingModel::StartSettling(start),
    ensures
        ({
            let run = step(w, s, env, Event::Reply(Reply::Slept));
            match env.hotkey {
                Some(chord) => only_asks(
                    w,
                    s,
                    Pending::StartReading { start, chord },
                    Query::ReadMicrophone,
                    run,
                ),
                None => begins_audio(
                    w,
                    s,
                    start,
                    None,
                    seq![Command::Log(Note::ChordPressSkipped { session_id: start.session_id })],
                    run,
                ),
            }
        }),
{
    reveal(Run::reply_start);
}

/// The chord of two keys that is left Windows and left Control, in either order.
pub open spec fn is_default(chord: ChordModel) -> bool {
    &&& chord.keys.len() == 2
    &&& {
        ||| chord.keys[0] is LeftWindows && chord.keys[1] is LeftControl
        ||| chord.keys[0] is LeftControl && chord.keys[1] is LeftWindows
    }
}

/// What the microphone showed before the press is what the check after it starts from.
/// Only before the default chord is WeType activated; another chord is pressed as it is.
pub proof fn readings_become_the_baseline(
    w: WorkerModel,
    s: SnapshotModel,
    env: SurroundingsModel,
    start: Start,
    chord: ChordModel,
    reading: Option<MicObservation>,
)
    requires
        w.pending == (PendingModel::StartReading { start, chord }),
    ensures
        ({
            let run = step(w, s, env, Event::Reply(Reply::Reading(reading)));
            if is_default(chord) {
                only_asks(
                    w,
                    s,
                    Pending::StartActivating { start, chord, baseline: reading },
                    Query::ActivateWeType,
                    run,
                )
            } else {
                &&& run.w == (WorkerModel {
                    pending: Pending::StartPressing { start, chord, baseline: reading, hint: None },
                    ..w
                })
                &&& run.s == s
                &&& run.out =~= seq![Command::Log(Note::ActivationSkippedCustomHotkey)]
                &&& run.ask == Some(QueryModel::PressChord(chord))
            }
        }),
{
    reveal(Run::reply_start);
}

/// The chord is pressed whether WeType could be activated or not; why it could not is shown
/// and kept.
pub proof fn failed_activations_do_not_stop_the_press(
    w: WorkerModel,
    s: SnapshotModel,
    env: SurroundingsModel,
    start: Start,
    chord: ChordModel,
    baseline: Option<MicObservation>,
    error: Option<Seq<char>>,
)
    requires
        w.pending == (PendingModel::StartActivating { start, chord, baseline }),
    ensures
        only_asks(
            w,
            Snapshot {
                last_error: if error is Some {
                    error
                } else {
                    s.last_error
                },
                ..s
            },
            Pending::StartPressing { start, chord, baseline, hint: error },
            Query::PressChord(chord),
            step(w, s, env, Event::Reply(Reply::Outcome(error))),
        ),
{
    reveal(Run::reply_start);
}

/// A chord that was pressed is held and the audio begins. After the default chord a check
/// of the input method starts, from what the microphone showed before.
pub proof fn pressed_chords_are_held(
    w: WorkerModel,
    s: SnapshotModel,
    env: SurroundingsModel,
    start: Start,
    chord: ChordModel,
    baseline: Option<MicObservation>,
    hint: Option<Seq<char>>,
)
    requires
        w.pending == (PendingModel::StartPressing { start, chord, baseline, hint }),
    ensures
        begins_audio(
            WorkerModel { held_hotkey: Some(chord), ..w },
            s,
            start,
            hint,
            if is_default(chord) {
                seq![
                    Command::Log(Note::ChordPressed { session_id: start.session_id }),
                    Command::WatchWeType { attempt: 0, epoch: start.epoch, baseline },
                ]
            } else {
                seq![Command::Log(Note::ChordPressed { session_id: start.session_id })]
            },
            step(w, s, env, Event::Reply(Reply::Outcome(None))),
        ),
{
    reveal(Run::reply_start);
}

/// A session that ended is recorded with the samples it had, and the connection is ready
/// again. One that the pipeline cannot end is shown and goes on counting.
pub proof fn completed_sessions_are_recorded(
    w: WorkerModel,
    s: SnapshotModel,
    env: SurroundingsModel,
    error: Option<Seq<char>>,
)
    requires
        w.pending is CompletingDrain,
    ensures
        ({
            let run = step(w, s, env, Event::Reply(Reply::Outcome(error)));
            match error {
                None => settles(
                    WorkerModel { active_voice_samples: 0, ..w },
                    Snapshot {
                        phase: ConnectionPhase::Ready,
                        voice_state: VoiceSessionState::Idle,
                        ..s
                    },
                    seq![
                        Command::RecordUsage(w.active_voice_samples),
                        Command::SetRemoteGate(true),
                    ],
                    run,
                ),
                Some(error) => settles(
                    w,
                    Snapshot { last_error: Some(error), ..s },
                    Seq::empty(),
                    run,
                ),
            }
        }),
{
    reveal(Run::reply_ending);
}

/// The samples of a packet are handed on as they were decoded, and all of them are counted
/// once that worked.
pub proof fn decoded_samples_are_handed_on(
    w: WorkerModel,
    s: SnapshotModel,
    env: SurroundingsModel,
    output: PipelineOutput<Seq<i16>>,
)
    requires
        w.pending is DecodingAudio,
    ensures
        ({
            let run = step(w, s, env, Event::Reply(Reply::Decoded(output)));
            match output {
                PipelineOutput::Samples { generation, samples } => only_asks(
                    w,
                    s,
                    Pending::Enqueueing { generation, count: samples.len() as u64 },
                    Query::EnqueueSamples { generation, samples },
                    run,
                ),
                _ => nothing(WorkerModel { pending: Pending::Idle, ..w }, s, run),
            }
        }),
{
    reveal(Run::reply_audio);
}

/// A packet that cannot be decoded is shown and otherwise passed over.
pub proof fn undecodable_audio_is_passed_over(
    w: WorkerModel,
    s: SnapshotModel,
    env: SurroundingsModel,
    error: Seq<char>,
)
    requires
        w.pending is DecodingAudio,
    ensures
        nothing(
            WorkerModel { pending: Pending::Idle, ..w },
            Snapshot { last_error: Some(error), ..s },
            step(w, s, env, Event::Reply(Reply::DecodeFailed(error))),
        ),
{
    reveal(Run::reply_audio);
}

/// The chord is pressed again only where the input method certainly did not react, one is
/// configured and one is held; the held one goes up first. Otherwise the log says why not.
pub proof fn repeated_presses_release_first(
    w: WorkerModel,
    s: SnapshotModel,
    env: SurroundingsModel,
    retry: Retry,
    reading: Option<MicObservation>,
    response: MicResponse,
)
    requires
        w.pending == PendingModel::RetryComparing(retry),
    ensures
        ({
            let run = step(w, s, env, Event::Reply(Reply::Compared { reading, response }));
            let rest = WorkerModel { pending: Pending::Idle, ..w };
            if !(response is NotObserved) {
                only_says(
                    rest,
                    s,
                    Command::Log(Note::RetryMicActive { epoch: retry.epoch }),
                    run,
                )
            } else if env.hotkey is None || w.held_hotkey is None {
                only_says(rest, s, Command::Log(Note::RetryNoChord), run)
            } else {
                only_asks(
                    w,
                    s,
                    Pending::RetryReleasing { retry, reading, chord: env.hotkey->0 },
                    Query::ReleaseChord(w.held_hotkey->0),
                    run,
                )
            }
        }),
{
    reveal(Run::reply_retry);
}

/// A chord that went up is not held, and the configured one is pressed; one that stays down
/// stays held and nothing is pressed.
pub proof fn released_chords_are_pressed_again(
    w: WorkerModel,
    s: SnapshotModel,
    env: SurroundingsModel,
    retry: Retry,
    reading: Option<MicObservation>,
    chord: ChordModel,
    error: Option<Seq<char>>,
)
    requires
        w.pending == (PendingModel::RetryReleasing { retry, reading, chord }),
    ensures
        ({
            let run = step(w, s, env, Event::Reply(Reply::Outcome(error)));
            if error is None {
                only_asks(
                    WorkerModel { held_hotkey: None, ..w },
                    s,
                    Pending::RetryPressing { retry, reading, chord },
                    Query::PressChord(chord),
                    run,
                )
            } else {
                only_says(
                    WorkerModel { pending: Pending::Idle, ..w },
                    s,
                    Command::Log(Note::RetryReleaseFailed { epoch: retry.epoch }),
                    run,
                )
            }
        }),
{
    reveal(Run::reply_retry);
}

/// A chord that was pressed again is held, and a check with the number of the retry starts
/// from the microphone reading before the press.
pub proof fn repeated_presses_are_checked(
    w: WorkerModel,
    s: SnapshotModel,
    env: SurroundingsModel,
    retry: Retry,
    reading: Option<MicObservation>,
    chord: ChordModel,
    error: Option<Seq<char>>,
)
    requires
        w.pending == (PendingModel::RetryPressing { retry, reading, chord }),
    ensures
        ({
            let run = step(w, s, env, Event::Reply(Reply::Outcome(error)));
            let rest = WorkerModel { pending: Pending::Idle, ..w };
            let attempt = retry.attempt;
            let epoch = retry.epoch;
            if error is None {
                &&& run.w == (WorkerModel { held_hotkey: Some(chord), ..rest })
                &&& run.s == s
                &&& run.out =~= seq![
                    Command::Log(Note::RetryPressed { attempt, epoch }),
                    Command::WatchWeType { attempt, epoch, baseline: reading },
                ]
                &&& run.ask is None
            } else {
                only_says(rest, s, Command::Log(Note::RetryPressFailed { attempt, epoch }), run)
            }
        }),
{
    reveal(Run::reply_retry);
}

} // verus!
