//! What several steps of the worker promise together.
use crate::conduct::{
    control_packets_reach_the_pipeline, is_idle_stop, lost_links_take_the_connection_down,
};
use crate::deadline::Instant;
use crate::history::{history, Input};
use crate::interruption::finished_audio_completes_the_drain;
use crate::model::{step, Run};
use crate::protocol::{
    After, CloseReport, CommandModel, Event, EventModel, LinkStatus, Message,
    PendingModel, PipelineOutput, QueryModel, Reply, SurroundingsModel,
};
use crate::renewal::ready_connections_have_no_past;
use crate::teardown::{
    clean_up_errors_are_listed, clean_ups_end_with_the_connection, closing_errors_are_listed,
    connections_are_closed_after_the_audio, paced,
};
use crate::text::decimal_text;
use crate::voice::{
    completed_sessions_are_recorded, microphones_are_opened_on_request,
    stopped_streams_close_the_microphone,
};
use vstd::prelude::*;

verus! {

/// The step that follows another. It is opaque; `reveal` shows it.
#[verifier::opaque]
pub open spec fn following(run: Run, env: SurroundingsModel, event: EventModel) -> Run {
    step(run.w, run.s, env, event)
}

/// The connection of the worker is there and its microphone is not marked as open.
pub open spec fn can_be_opened(run: Run) -> bool {
    run.w.session is Some && !run.w.session->0.microphone_opened
}

proof fn streams_stop(run: Run, env: SurroundingsModel, generation: u64)
    requires
        run.w.pending is Decoding,
        run.w.session is Some,
    ensures
        ({
            let stop = following(
                run,
                env,
                Event::Reply(Reply::Decoded(PipelineOutput::StreamStopped { generation })),
            );
            &&& can_be_opened(stop)
            &&& stop.w.pending == (PendingModel::FinishingAudio { generation })
            &&& stop.w.connection_generation == run.w.connection_generation
            &&& stop.w.active_voice_samples == run.w.active_voice_samples
            &&& stop.ask == Some(QueryModel::FinishAudio { generation })
        }),
{
    reveal(following);
    stopped_streams_close_the_microphone(run.w, run.s, env, generation);
}

proof fn audio_finishes(run: Run, env: SurroundingsModel, generation: u64)
    requires
        run.w.pending == (PendingModel::FinishingAudio { generation }),
    ensures
        ({
            let played = following(run, env, Event::Reply(Reply::Outcome(None)));
            &&& played.w.session == run.w.session
            &&& played.w.pending is CompletingDrain
            &&& played.w.connection_generation == run.w.connection_generation
            &&& played.w.active_voice_samples == run.w.active_voice_samples
            &&& played.ask == Some(QueryModel::CompleteDrain { generation })
        }),
{
    reveal(following);
    finished_audio_completes_the_drain(run.w, run.s, env, generation, None);
}

proof fn drains_complete(run: Run, env: SurroundingsModel)
    requires
        run.w.pending is CompletingDrain,
    ensures
        ({
            let end = following(run, env, Event::Reply(Reply::Outcome(None)));
            &&& end.w.session == run.w.session
            &&& end.w.pending is Idle
            &&& end.w.connection_generation == run.w.connection_generation
            &&& end.w.active_voice_samples == 0
            &&& end.s.phase is Ready
            &&& end.out.contains(CommandModel::RecordUsage(run.w.active_voice_samples))
        }),
{
    reveal(following);
    completed_sessions_are_recorded(run.w, run.s, env, None);
    let end = following(run, env, Event::Reply(Reply::Outcome(None)));
    assert(end.out[0] == CommandModel::RecordUsage(run.w.active_voice_samples));
}

proof fn packets_are_decoded(run: Run, env: SurroundingsModel, bytes: Seq<u8>)
    requires
        run.w.pending is Idle,
        !is_idle_stop(bytes, env.pipeline.state),
    ensures
        ({
            let packet = following(
                run,
                env,
                Event::Message(
                    Message::Control {
                        connection_generation: run.w.connection_generation,
                        bytes,
                    },
                ),
            );
            &&& packet.w.session == run.w.session
            &&& packet.w.pending is Decoding
            &&& packet.ask == Some(QueryModel::DecodeControl(bytes))
        }),
{
    reveal(following);
    control_packets_reach_the_pipeline(run.w, run.s, env, bytes);
}

proof fn microphones_open(run: Run, env: SurroundingsModel)
    requires
        run.w.pending is Decoding,
        can_be_opened(run),
        env.pipeline.state is Idle,
        env.pipeline.capabilities is Some,
    ensures
        following(
            run,
            env,
            Event::Reply(Reply::Decoded(PipelineOutput::MicrophoneOpenRequested)),
        ).ask == Some(
            QueryModel::OpenMicrophone {
                version: env.pipeline.capabilities->0.version,
                codec: env.pipeline.capabilities->0.selected_codec,
            },
        ),
{
    reveal(following);
    microphones_are_opened_on_request(run.w, run.s, env);
}

/// A worker that has been through a whole voice session can be asked for another: whatever
/// the microphone was marked as when the stream stopped, once the audio has been played out
/// the next request opens it, with the version and the codec that the remote has stated.
pub proof fn sessions_can_follow_each_other(
    run: Run,
    generation: u64,
    bytes: Seq<u8>,
    stopped: SurroundingsModel,
    finished: SurroundingsModel,
    completed: SurroundingsModel,
    asked: SurroundingsModel,
    decoded: SurroundingsModel,
)
    requires
        run.w.pending is Decoding,
        run.w.session is Some,
        !is_idle_stop(bytes, asked.pipeline.state),
        decoded.pipeline.state is Idle,
        decoded.pipeline.capabilities is Some,
    ensures
        ({
            let stop = following(
                run,
                stopped,
                Event::Reply(Reply::Decoded(PipelineOutput::StreamStopped { generation })),
            );
            let played = following(stop, finished, Event::Reply(Reply::Outcome(None)));
            let end = following(played, completed, Event::Reply(Reply::Outcome(None)));
            let packet = following(
                end,
                asked,
                Event::Message(
                    Message::Control {
                        connection_generation: run.w.connection_generation,
                        bytes,
                    },
                ),
            );
            let open = following(
                packet,
                decoded,
                Event::Reply(Reply::Decoded(PipelineOutput::MicrophoneOpenRequested)),
            );
            &&& can_be_opened(stop)
            &&& stop.ask == Some(QueryModel::FinishAudio { generation })
            &&& played.ask == Some(QueryModel::CompleteDrain { generation })
            &&& can_be_opened(end)
            &&& end.w.pending is Idle
            &&& end.s.phase is Ready
            &&& end.w.active_voice_samples == 0
            &&& end.out.contains(CommandModel::RecordUsage(run.w.active_voice_samples))
            &&& packet.ask == Some(QueryModel::DecodeControl(bytes))
            &&& open.ask == Some(
                QueryModel::OpenMicrophone {
                    version: decoded.pipeline.capabilities->0.version,
                    codec: decoded.pipeline.capabilities->0.selected_codec,
                },
            )
        }),
{
    streams_stop(run, stopped, generation);
    let stop = following(
        run,
        stopped,
        Event::Reply(Reply::Decoded(PipelineOutput::StreamStopped { generation })),
    );
    audio_finishes(stop, finished, generation);
    let played = following(stop, finished, Event::Reply(Reply::Outcome(None)));
    drains_complete(played, completed);
    let end = following(played, completed, Event::Reply(Reply::Outcome(None)));
    packets_are_decoded(end, asked, bytes);
    let packet = following(
        end,
        asked,
        Event::Message(
            Message::Control { connection_generation: run.w.connection_generation, bytes },
        ),
    );
    microphones_open(packet, decoded);
}

/// Everything that a connection held has been released.
pub open spec fn all_released() -> CloseReport<Seq<char>> {
    CloseReport {
        audio_handler: None,
        control_handler: None,
        link_handler: None,
        service: None,
        device: None,
    }
}

/// The worker wants a device and its system is awake, with the same reconnects counted.
spec fn still_wants(run: Run, past: Run) -> bool {
    &&& run.w.preferred_device_id is Some
    &&& !run.w.system_suspended
    &&& run.w.backoff == past.w.backoff
}

proof fn links_are_lost(run: Run, env: SurroundingsModel)
    requires
        run.w.pending is Idle,
        still_wants(run, run),
    ensures
        ({
            let loss = following(
                run,
                env,
                Event::Message(
                    Message::ConnectionChanged {
                        connection_generation: run.w.connection_generation,
                        status: LinkStatus::Disconnected,
                    },
                ),
            );
            &&& still_wants(loss, run)
            &&& loss.w.session == run.w.session
            &&& loss.w.pending == PendingModel::CleaningAudio(After::LinkLost)
            &&& loss.ask == Some(QueryModel::InterruptAudio)
        }),
{
    reveal(following);
    lost_links_take_the_connection_down(run.w, run.s, env, LinkStatus::Disconnected);
}

proof fn audio_is_interrupted(run: Run, env: SurroundingsModel)
    requires
        run.w.pending == PendingModel::CleaningAudio(After::LinkLost),
        run.w.session is Some,
        still_wants(run, run),
    ensures
        ({
            let silent = following(run, env, Event::Reply(Reply::Outcome(None)));
            &&& still_wants(silent, run)
            &&& silent.w.pending == (PendingModel::CleaningSession {
                after: After::LinkLost,
                audio_error: None,
            })
            &&& silent.ask == Some(QueryModel::CloseSession)
        }),
{
    reveal(following);
    connections_are_closed_after_the_audio(run.w, run.s, env, After::LinkLost, None);
}

proof fn connections_are_gone(run: Run, env: SurroundingsModel)
    requires
        run.w.pending == (PendingModel::CleaningSession {
            after: After::LinkLost,
            audio_error: None,
        }),
        still_wants(run, run),
        run.w.backoff.attempt == 0,
        paced(run.w, env),
    ensures
        ({
            let end = following(run, env, Event::Reply(Reply::Closed(all_released())));
            &&& end.w.session is None
            &&& end.w.pending is Idle
            &&& end.w.backoff.attempt == 1
            &&& end.w.reconnect_deadline == Some(
                Instant { nanos: (env.now.nanos + 2_000_000_000) as u64 },
            )
            &&& end.s.phase is Reconnecting
            &&& end.s.reconnect_attempt == 1
            &&& end.s.last_error == Some(
                "小米语音遥控器蓝牙连接已断开"@ + "；将在 "@ + decimal_text(2)
                    + " 秒后进行第 "@ + decimal_text(1) + " 次重连"@,
            )
        }),
{
    reveal(following);
    closing_errors_are_listed(all_released());
    clean_up_errors_are_listed(None, None);
    clean_ups_end_with_the_connection(
        run.w,
        run.s,
        env,
        After::LinkLost,
        None,
        all_released(),
    );
}

/// However often it took to connect: where the link of a ready connection is lost, and all
/// of it can be closed, the first reconnect is scheduled after two seconds and shown.
pub proof fn lost_ready_connections_reconnect_after_two_seconds(
    inputs: Seq<Input>,
    lost: SurroundingsModel,
    interrupted: SurroundingsModel,
    closed: SurroundingsModel,
)
    requires
        ({
            let past = history(inputs);
            &&& past.s.phase is Ready
            &&& past.w.pending is Idle
            &&& past.w.session is Some
            &&& past.w.preferred_device_id is Some
            &&& !past.w.system_suspended
            &&& paced(past.w, closed)
        }),
    ensures
        ({
            let past = history(inputs);
            let loss = following(
                past,
                lost,
                Event::Message(
                    Message::ConnectionChanged {
                        connection_generation: past.w.connection_generation,
                        status: LinkStatus::Disconnected,
                    },
                ),
            );
            let silent = following(loss, interrupted, Event::Reply(Reply::Outcome(None)));
            let end = following(silent, closed, Event::Reply(Reply::Closed(all_released())));
            &&& loss.ask == Some(QueryModel::InterruptAudio)
            &&& silent.ask == Some(QueryModel::CloseSession)
            &&& end.w.session is None
            &&& end.w.pending is Idle
            &&& end.w.backoff.attempt == 1
            &&& end.w.reconnect_deadline == Some(
                Instant { nanos: (closed.now.nanos + 2_000_000_000) as u64 },
            )
            &&& end.s.phase is Reconnecting
            &&& end.s.reconnect_attempt == 1
            &&& end.s.last_error == Some(
                "小米语音遥控器蓝牙连接已断开"@ + "；将在 "@ + decimal_text(2)
                    + " 秒后进行第 "@ + decimal_text(1) + " 次重连"@,
            )
        }),
{
    let past = history(inputs);
    ready_connections_have_no_past(inputs);
    links_are_lost(past, lost);
    let loss = following(
        past,
        lost,
        Event::Message(
            Message::ConnectionChanged {
                connection_generation: past.w.connection_generation,
                status: LinkStatus::Disconnected,
            },
        ),
    );
    audio_is_interrupted(loss, interrupted);
    let silent = following(loss, interrupted, Event::Reply(Reply::Outcome(None)));
    connections_are_gone(silent, closed);
}

} // verus!
