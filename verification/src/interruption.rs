//! How voice sessions go on with their audio, or are broken off without it.
use crate::chord::ChordModel;
use crate::conduct::{letting_go, nothing, only_asks, settles};
use crate::diagnostics::Note;
use crate::model::{step, Run, WorkerModel};
use crate::protocol::{
    Command, CommandModel, Event, MicObservation, Pending, PendingModel, Query, QueryModel, Reply,
    Source, Start, SurroundingsModel, WriteOutcome,
};
use crate::snapshot::{ConnectionPhase, Snapshot, SnapshotModel, VoiceSessionState};
use crate::voice::with_microphone;
use vstd::prelude::*;

verus! {

/// A voice session is broken off for an error. The keys go up first; where there is a
/// connection with known capabilities and the session has a number, the remote is asked to
/// close its microphone, and the rest waits for the answer.
pub open spec fn breaks_off(
    w: WorkerModel,
    s: SnapshotModel,
    env: SurroundingsModel,
    source: Source,
    session_id: Option<u8>,
    error: Seq<char>,
    out: Seq<CommandModel>,
    run: Run,
) -> bool {
    let released = WorkerModel { held_hotkey: None, ..w };
    let out = out + letting_go(w.held_hotkey);
    if env.pipeline.capabilities is Some && session_id is Some && w.session is Some {
        &&& run.w == (WorkerModel { pending: Pending::Aborting { source, error }, ..released })
        &&& run.s == s
        &&& run.out =~= out
        &&& run.ask == Some(
            QueryModel::CloseMicrophone {
                version: env.pipeline.capabilities->0.version,
                session_id: session_id->0,
            },
        )
    } else {
        is_broken_off(released, s, source, error, out, run)
    }
}

/// A voice session is over for an error, which is shown: audio and pipeline are
/// interrupted, no samples count any more, and the connection is ready again where the
/// remote has stated its capabilities, else it has failed.
pub open spec fn is_broken_off(
    w: WorkerModel,
    s: SnapshotModel,
    source: Source,
    error: Seq<char>,
    out: Seq<CommandModel>,
    run: Run,
) -> bool {
    let w = WorkerModel { active_voice_samples: 0, pending: Pending::Idle, ..w };
    let usable = s.capabilities is Some;
    let s = Snapshot {
        phase: if usable {
            ConnectionPhase::Ready
        } else {
            ConnectionPhase::Failed
        },
        voice_state: VoiceSessionState::Idle,
        last_error: Some(error),
        ..s
    };
    let out = out + seq![
        Command::InterruptAudio,
        Command::InterruptPipeline,
        Command::SetRemoteGate(usable),
    ];
    match source {
        Source::Control => settles(w, s, out, run),
        Source::Audio => run.w == w && run.s == s && run.out =~= out && run.ask is None,
    }
}

/// Without its chord there is no voice session.
pub proof fn failed_presses_break_the_session_off(
    w: WorkerModel,
    s: SnapshotModel,
    env: SurroundingsModel,
    start: Start,
    chord: ChordModel,
    baseline: Option<MicObservation>,
    hint: Option<Seq<char>>,
    error: Seq<char>,
)
    requires
        w.pending == (PendingModel::StartPressing { start, chord, baseline, hint }),
    ensures
        breaks_off(
            w,
            s,
            env,
            Source::Control,
            Some(start.session_id),
            "按住说话快捷键注入失败："@ + error,
            seq![Command::Log(Note::ChordPressFailed { session_id: start.session_id })],
            step(w, s, env, Event::Reply(Reply::Outcome(Some(error)))),
        ),
{
    reveal(Run::reply_start);
}

/// With its audio the session streams under its number, and of what was shown before only
/// its own hint stays. Without its audio there is no voice session.
pub proof fn sessions_stream_with_their_audio(
    w: WorkerModel,
    s: SnapshotModel,
    env: SurroundingsModel,
    start: Start,
    hint: Option<Seq<char>>,
    error: Option<Seq<char>>,
)
    requires
        w.pending == (PendingModel::StartingAudio { start, hint }),
    ensures
        ({
            let run = step(w, s, env, Event::Reply(Reply::Outcome(error)));
            match error {
                None => settles(
                    w,
                    Snapshot {
                        phase: ConnectionPhase::Streaming,
                        voice_state: VoiceSessionState::Streaming,
                        generation: start.generation,
                        last_error: hint,
                        ..s
                    },
                    seq![Command::SetRemoteGate(true)],
                    run,
                ),
                Some(error) => breaks_off(
                    w,
                    s,
                    env,
                    Source::Control,
                    Some(start.session_id),
                    error,
                    seq![Command::Log(Note::AudioBeginFailed { session_id: start.session_id })],
                    run,
                ),
            }
        }),
{
    reveal(Run::reply_start);
}

/// Audio that was played out is followed by the end of that stream in the pipeline; an
/// error breaks the session off, and its remote has nothing to close.
pub proof fn finished_audio_completes_the_drain(
    w: WorkerModel,
    s: SnapshotModel,
    env: SurroundingsModel,
    generation: u64,
    error: Option<Seq<char>>,
)
    requires
        w.pending == (PendingModel::FinishingAudio { generation }),
    ensures
        ({
            let run = step(w, s, env, Event::Reply(Reply::Outcome(error)));
            match error {
                None => only_asks(
                    w,
                    s,
                    Pending::CompletingDrain,
                    Query::CompleteDrain { generation },
                    run,
                ),
                Some(error) => breaks_off(
                    w,
                    s,
                    env,
                    Source::Control,
                    None,
                    error,
                    Seq::empty(),
                    run,
                ),
            }
        }),
{
    reveal(Run::reply_ending);
}

/// A microphone counts as closed once the request was sent; the session is over either
/// way.
pub proof fn microphones_are_closed_once_sent(
    w: WorkerModel,
    s: SnapshotModel,
    env: SurroundingsModel,
    source: Source,
    error: Seq<char>,
    outcome: WriteOutcome<Seq<char>>,
)
    requires
        w.pending == (PendingModel::Aborting { source, error }),
    ensures
        is_broken_off(
            if outcome is Sent {
                with_microphone(w, false)
            } else {
                w
            },
            s,
            source,
            error,
            Seq::empty(),
            step(w, s, env, Event::Reply(Reply::Written(outcome))),
        ),
{
    reveal(Run::reply_ending);
}

/// A packet is decoded as it came while the audio works; otherwise the session that
/// streams is broken off.
pub proof fn working_audio_is_decoded(
    w: WorkerModel,
    s: SnapshotModel,
    env: SurroundingsModel,
    bytes: Seq<u8>,
    error: Option<Seq<char>>,
)
    requires
        w.pending == (PendingModel::CheckingAudio { bytes }),
    ensures
        ({
            let run = step(w, s, env, Event::Reply(Reply::Outcome(error)));
            match error {
                None => only_asks(w, s, Pending::DecodingAudio, Query::DecodeAudio(bytes), run),
                Some(error) => breaks_off(
                    w,
                    s,
                    env,
                    Source::Audio,
                    env.pipeline.session_id,
                    error,
                    Seq::empty(),
                    run,
                ),
            }
        }),
{
    reveal(Run::reply_audio);
}

/// `a` and `b` together, as far as a number of that size goes.
pub open spec fn together(a: u64, b: u64) -> u64 {
    if a + b >= 0xffff_ffff_ffff_ffff {
        0xffff_ffff_ffff_ffff
    } else {
        (a + b) as u64
    }
}

/// Samples that were handed on count for their session and for the connection; a failure
/// breaks the session off.
pub proof fn handed_on_samples_are_counted(
    w: WorkerModel,
    s: SnapshotModel,
    env: SurroundingsModel,
    generation: u64,
    count: u64,
    error: Option<Seq<char>>,
)
    requires
        w.pending == (PendingModel::Enqueueing { generation, count }),
    ensures
        ({
            let run = step(w, s, env, Event::Reply(Reply::Outcome(error)));
            match error {
                None => nothing(
                    WorkerModel {
                        active_voice_samples: together(w.active_voice_samples, count),
                        pending: Pending::Idle,
                        ..w
                    },
                    Snapshot {
                        decoded_samples: together(s.decoded_samples, count),
                        generation,
                        ..s
                    },
                    run,
                ),
                Some(error) => breaks_off(
                    w,
                    s,
                    env,
                    Source::Audio,
                    env.pipeline.session_id,
                    error,
                    Seq::empty(),
                    run,
                ),
            }
        }),
{
    reveal(Run::reply_audio);
}

} // verus!
