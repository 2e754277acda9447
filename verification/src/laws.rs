//! What holds of the worker whatever happens.
use crate::chord::{is_wetype_default, ChordModel};
use crate::diagnostics::Note;
use crate::model::{
    activity, close_error, next_number, release_commands, step, Run, WorkerModel,
    MICROPHONE_EXTEND_MS,
};
use crate::protocol::{
    After, Attempt, CloseReport, Command, CommandModel, Event, EventModel, Message, MessageModel,
    MicObservation, MicResponse, Pending, PendingModel, PipelineOutput, Query, QueryModel, Reply,
    ReplyModel, Start, SurroundingsModel,
};
use crate::snapshot::{gated, SnapshotModel};
use vstd::prelude::*;

verus! {

/// How many requests a list of commands answers.
pub open spec fn answers(out: Seq<CommandModel>) -> int
    decreases out.len(),
{
    if out.len() == 0 {
        0
    } else {
        answers(out.drop_last()) + if out.last() is Answer {
            1int
        } else {
            0
        }
    }
}

/// What the host last heard of the shared keys after a list of commands.
pub open spec fn gate_after(out: Seq<CommandModel>, before: bool) -> bool
    decreases out.len(),
{
    if out.len() == 0 {
        before
    } else if let Command::SetRemoteGate(online) = out.last() {
        online
    } else {
        gate_after(out.drop_last(), before)
    }
}

/// The chord that is down after a list of commands.
pub open spec fn down_after(out: Seq<CommandModel>, before: Option<ChordModel>) -> Option<
    ChordModel,
>
    decreases out.len(),
{
    if out.len() == 0 {
        before
    } else if out.last() is ReleaseHeldChord {
        None
    } else {
        down_after(out.drop_last(), before)
    }
}

broadcast proof fn answers_of_push(out: Seq<CommandModel>, command: CommandModel)
    ensures
        #[trigger] answers(out.push(command)) == answers(out) + if command is Answer {
            1int
        } else {
            0
        },
{
    assert(out.push(command).drop_last() =~= out);
}

broadcast proof fn gate_after_push(out: Seq<CommandModel>, command: CommandModel, before: bool)
    ensures
        #[trigger] gate_after(out.push(command), before) == match command {
            Command::SetRemoteGate(online) => online,
            _ => gate_after(out, before),
        },
{
    assert(out.push(command).drop_last() =~= out);
}

broadcast proof fn down_after_push(
    out: Seq<CommandModel>,
    command: CommandModel,
    before: Option<ChordModel>,
)
    ensures
        #[trigger] down_after(out.push(command), before) == if command is ReleaseHeldChord {
            None
        } else {
            down_after(out, before)
        },
{
    assert(out.push(command).drop_last() =~= out);
}

proof fn release_as_pushes(out: Seq<CommandModel>, held: Option<ChordModel>)
    ensures
        out + release_commands(held) == match held {
            Some(chord) => out.push(Command::SetSessionActive(false)).push(
                Command::ReleaseHeldChord(chord),
            ),
            None => out.push(Command::SetSessionActive(false)),
        },
{
    if let Some(chord) = held {
        assert(out + release_commands(held) =~= out.push(Command::SetSessionActive(false)).push(
            Command::ReleaseHeldChord(chord),
        ));
    } else {
        assert(out + release_commands(held) =~= out.push(Command::SetSessionActive(false)));
    }
}

broadcast proof fn answers_of_release(out: Seq<CommandModel>, held: Option<ChordModel>)
    ensures
        #[trigger] answers(out + release_commands(held)) == answers(out),
{
    broadcast use answers_of_push;

    release_as_pushes(out, held);
}

broadcast proof fn gate_after_release(
    out: Seq<CommandModel>,
    held: Option<ChordModel>,
    before: bool,
)
    ensures
        #[trigger] gate_after(out + release_commands(held), before) == gate_after(out, before),
{
    broadcast use gate_after_push;

    release_as_pushes(out, held);
}

broadcast proof fn down_after_release(
    out: Seq<CommandModel>,
    held: Option<ChordModel>,
    before: Option<ChordModel>,
)
    ensures
        #[trigger] down_after(out + release_commands(held), before) == if held is Some {
            None
        } else {
            down_after(out, before)
        },
{
    broadcast use down_after_push;

    release_as_pushes(out, held);
}

broadcast group group_commands {
    answers_of_push,
    answers_of_release,
    gate_after_push,
    gate_after_release,
    down_after_push,
    down_after_release,
}

/// How many answers the worker owes while it waits.
pub open spec fn owed(pending: PendingModel) -> int {
    let requested = match pending {
        Pending::CleaningAudio(After::Connect(attempt)) => attempt.requested,
        Pending::CleaningSession { after: After::Connect(attempt), .. } => attempt.requested,
        Pending::CleaningAudio(After::Disconnect) => true,
        Pending::CleaningSession { after: After::Disconnect, .. } => true,
        Pending::Connecting { attempt, .. } => attempt.requested,
        _ => false,
    };
    if requested {
        1
    } else {
        0
    }
}

/// How many answers a message asks for.
pub open spec fn asked(message: MessageModel) -> int {
    match message {
        Message::Connect { .. } | Message::Disconnect | Message::Restore { .. } => 1,
        _ => 0,
    }
}

/// The chord that is down once the host has answered: a press that succeeded puts its
/// chord down, a release that succeeded lets the held one go.
pub open spec fn down(w: WorkerModel, reply: ReplyModel) -> Option<ChordModel> {
    match (w.pending, reply) {
        (Pending::StartPressing { chord, .. }, Reply::Outcome(None)) => Some(chord),
        (Pending::RetryPressing { chord, .. }, Reply::Outcome(None)) => Some(chord),
        (Pending::RetryReleasing { .. }, Reply::Outcome(None)) => None,
        _ => w.held_hotkey,
    }
}

/// What a clean-up is for.
pub open spec fn aim(pending: PendingModel) -> Option<After<Seq<char>>> {
    match pending {
        Pending::CleaningAudio(after) => Some(after),
        Pending::CleaningSession { after, .. } => Some(after),
        _ => None,
    }
}

/// The attempt to connect that the worker is busy with.
pub open spec fn attempt_of(pending: PendingModel) -> Option<Attempt<Seq<char>>> {
    match pending {
        Pending::CleaningAudio(After::Connect(attempt)) => Some(attempt),
        Pending::CleaningSession { after: After::Connect(attempt), .. } => Some(attempt),
        Pending::Connecting { attempt, .. } => Some(attempt),
        _ => None,
    }
}

/// The worker is connected, and the connection has not begun to come down.
pub open spec fn connected(w: WorkerModel) -> bool {
    w.session is Some && w.session->0.cleanup_failure is None
}

/// The worker takes a connection down or sets one up.
pub open spec fn in_transit(w: WorkerModel) -> bool {
    activity(w.pending) is Cleanup || activity(w.pending) is Connecting
}

/// What holds between any two steps of a worker.
pub open spec fn consistent(w: WorkerModel) -> bool {
    &&& w.wf()
    // Nothing is held while no voice session can be running.
    &&& in_transit(w) || w.pending is ConsultingRadioPolicy || w.pending is CyclingRadio
        || w.pending is Stopped || w.pending is RetryPressing || activity(w.pending) is Ending
        ==> w.held_hotkey is None
    // The worker connects only where it should.
    &&& w.pending is ConsultingRadioPolicy || w.pending is CyclingRadio
        ==> w.preferred_device_id is Some
    &&& attempt_of(w.pending) matches Some(attempt) ==> {
        &&& w.preferred_device_id == Some(attempt.device_id)
        &&& attempt.requested ==> w.backoff.attempt == 0 && !w.system_suspended
    }
    &&& aim(w.pending) matches Some(After::Disconnect) ==> w.preferred_device_id is None
    &&& aim(w.pending) matches Some(After::Suspend) ==> w.system_suspended
    &&& activity(w.pending) is Connecting ==> w.session is None
    &&& w.preferred_device_id is None ==> w.reconnect_deadline is None
    // It never stops trying to.
    &&& w.wants_connection() && !connected(w) && !in_transit(w) && !(w.pending is Stopped)
        ==> w.reconnect_deadline is Some
}

/// The worker before a step.
spec fn before(w: WorkerModel, s: SnapshotModel) -> Run {
    Run { w, s, out: Seq::empty(), ask: None }
}

/// What a step keeps.
spec fn kept(
    w: WorkerModel,
    s: SnapshotModel,
    held: Option<ChordModel>,
    owed_before: int,
    run: Run,
) -> bool {
    &&& consistent(run.w)
    &&& gate_after(run.out, gated(s.phase)) == gated(run.s.phase)
    &&& answers(run.out) + owed(run.w.pending) == owed_before
    &&& run.w.held_hotkey == down_after(run.out, held)
    &&& run.w.radio_recovery_cycles <= w.radio_recovery_cycles || w.pending is ConsultingRadioPolicy
    &&& run.w.voice_session_epoch == w.voice_session_epoch || w.pending is Decoding
    &&& run.w.pending is CleaningAudio && !(w.pending is CleaningAudio)
        ==> run.w.connection_generation == next_number(w.connection_generation)
}

proof fn cleanup_replies_keep(
    w: WorkerModel,
    s: SnapshotModel,
    reply: ReplyModel,
    env: SurroundingsModel,
)
    requires
        consistent(w),
        env.now.admits(MICROPHONE_EXTEND_MS as int),
    ensures
        activity(w.pending) is Cleanup ==> kept(
            w,
            s,
            down(w, reply),
            owed(w.pending),
            before(w, s).reply_cleanup(reply, env),
        ),
{
    broadcast use group_commands;

    reveal(Run::reply_cleanup);
}

proof fn connecting_replies_keep(
    w: WorkerModel,
    s: SnapshotModel,
    reply: ReplyModel,
    env: SurroundingsModel,
)
    requires
        consistent(w),
        env.now.admits(MICROPHONE_EXTEND_MS as int),
    ensures
        activity(w.pending) is Connecting ==> kept(
            w,
            s,
            down(w, reply),
            owed(w.pending),
            before(w, s).reply_connecting(reply, env),
        ),
{
    broadcast use group_commands;

    reveal(Run::reply_connecting);
}

proof fn timed_replies_keep(
    w: WorkerModel,
    s: SnapshotModel,
    reply: ReplyModel,
    env: SurroundingsModel,
)
    requires
        consistent(w),
        env.now.admits(MICROPHONE_EXTEND_MS as int),
    ensures
        activity(w.pending) is Timed ==> kept(
            w,
            s,
            down(w, reply),
            owed(w.pending),
            before(w, s).reply_timed(reply, env),
        ),
{
    broadcast use group_commands;

    reveal(Run::reply_timed);
}

proof fn retry_replies_keep(
    w: WorkerModel,
    s: SnapshotModel,
    reply: ReplyModel,
    env: SurroundingsModel,
)
    requires
        consistent(w),
        env.now.admits(MICROPHONE_EXTEND_MS as int),
    ensures
        activity(w.pending) is Retry ==> kept(
            w,
            s,
            down(w, reply),
            owed(w.pending),
            before(w, s).reply_retry(reply, env),
        ),
{
    broadcast use group_commands;

    reveal(Run::reply_retry);
}

proof fn control_replies_keep(
    w: WorkerModel,
    s: SnapshotModel,
    reply: ReplyModel,
    env: SurroundingsModel,
)
    requires
        consistent(w),
        env.now.admits(MICROPHONE_EXTEND_MS as int),
    ensures
        activity(w.pending) is Control ==> kept(
            w,
            s,
            down(w, reply),
            owed(w.pending),
            before(w, s).reply_control(reply, env),
        ),
{
    broadcast use group_commands;

    reveal(Run::reply_control);
}

proof fn ending_replies_keep(
    w: WorkerModel,
    s: SnapshotModel,
    reply: ReplyModel,
    env: SurroundingsModel,
)
    requires
        consistent(w),
        env.now.admits(MICROPHONE_EXTEND_MS as int),
    ensures
        activity(w.pending) is Ending ==> kept(
            w,
            s,
            down(w, reply),
            owed(w.pending),
            before(w, s).reply_ending(reply, env),
        ),
{
    broadcast use group_commands;

    reveal(Run::reply_ending);
}

proof fn start_replies_keep(
    w: WorkerModel,
    s: SnapshotModel,
    reply: ReplyModel,
    env: SurroundingsModel,
)
    requires
        consistent(w),
        env.now.admits(MICROPHONE_EXTEND_MS as int),
    ensures
        activity(w.pending) is Start ==> kept(
            w,
            s,
            down(w, reply),
            owed(w.pending),
            before(w, s).reply_start(reply, env),
        ),
{
    broadcast use group_commands;

    reveal(Run::reply_start);
}

proof fn audio_replies_keep(
    w: WorkerModel,
    s: SnapshotModel,
    reply: ReplyModel,
    env: SurroundingsModel,
)
    requires
        consistent(w),
        env.now.admits(MICROPHONE_EXTEND_MS as int),
    ensures
        activity(w.pending) is Audio ==> kept(
            w,
            s,
            down(w, reply),
            owed(w.pending),
            before(w, s).reply_audio(reply, env),
        ),
{
    broadcast use group_commands;

    reveal(Run::reply_audio);
}

proof fn messages_keep(
    w: WorkerModel,
    s: SnapshotModel,
    message: MessageModel,
    env: SurroundingsModel,
)
    requires
        consistent(w),
        w.pending is Idle,
        env.now.admits(MICROPHONE_EXTEND_MS as int),
    ensures
        kept(w, s, w.held_hotkey, asked(message), before(w, s).on_message(message, env)),
{
    broadcast use group_commands;

}

proof fn timeouts_keep(w: WorkerModel, s: SnapshotModel, env: SurroundingsModel)
    requires
        consistent(w),
        w.pending is Idle,
        env.now.admits(MICROPHONE_EXTEND_MS as int),
    ensures
        kept(w, s, w.held_hotkey, 0, before(w, s).on_timeout(env)),
{
    broadcast use group_commands;

}

proof fn replies_keep(
    w: WorkerModel,
    s: SnapshotModel,
    reply: ReplyModel,
    env: SurroundingsModel,
)
    requires
        consistent(w),
        env.now.admits(MICROPHONE_EXTEND_MS as int),
    ensures
        kept(w, s, down(w, reply), owed(w.pending), before(w, s).on_reply(reply, env)),
{
    cleanup_replies_keep(w, s, reply, env);
    connecting_replies_keep(w, s, reply, env);
    timed_replies_keep(w, s, reply, env);
    retry_replies_keep(w, s, reply, env);
    control_replies_keep(w, s, reply, env);
    ending_replies_keep(w, s, reply, env);
    start_replies_keep(w, s, reply, env);
    audio_replies_keep(w, s, reply, env);
}

/// The chord that is down when a step begins.
pub open spec fn down_at(w: WorkerModel, event: EventModel) -> Option<ChordModel> {
    match event {
        Event::Reply(reply) => down(w, reply),
        _ => w.held_hotkey,
    }
}

/// How many answers a step starts out owing; a worker that waits takes no requests.
pub open spec fn owed_at(w: WorkerModel, event: EventModel) -> int {
    match event {
        Event::Message(message) if w.pending is Idle => asked(message),
        _ => owed(w.pending),
    }
}

proof fn steps_keep(w: WorkerModel, s: SnapshotModel, env: SurroundingsModel, event: EventModel)
    requires
        consistent(w),
        env.now.admits(MICROPHONE_EXTEND_MS as int),
    ensures
        kept(w, s, down_at(w, event), owed_at(w, event), step(w, s, env, event)),
{
    match event {
        Event::Timeout => {
            if w.pending is Idle {
                timeouts_keep(w, s, env);
            }
        },
        Event::Message(message) => {
            if w.pending is Idle {
                messages_keep(w, s, message, env);
            }
        },
        Event::Reply(reply) => {
            replies_keep(w, s, reply, env);
        },
    }
}

/// A worker starts out consistent.
pub proof fn new_workers_are_consistent()
    ensures
        consistent(WorkerModel::initial()),
{
}

/// A worker stays consistent whatever happens.
pub proof fn steps_keep_consistency(
    w: WorkerModel,
    s: SnapshotModel,
    env: SurroundingsModel,
    event: EventModel,
)
    requires
        consistent(w),
        env.now.admits(MICROPHONE_EXTEND_MS as int),
    ensures
        consistent(step(w, s, env, event).w),
{
    steps_keep(w, s, env, event);
}

/// A worker whose system is awake and that has been told of a device never gives up:
/// between two messages it is connected to a remote, or a reconnect is scheduled.
pub proof fn workers_never_give_up(w: WorkerModel)
    requires
        consistent(w),
        w.wants_connection(),
        w.pending is Idle,
    ensures
        connected(w) || w.reconnect_deadline is Some && w.deadline() is Some,
{
}

/// Nothing reconnects to a device that nobody wants.
pub proof fn unwanted_devices_stay_disconnected(
    w: WorkerModel,
    s: SnapshotModel,
    env: SurroundingsModel,
)
    requires
        consistent(w),
        w.preferred_device_id is None,
        w.pending is Idle,
    ensures
        w.reconnect_deadline is None,
        aim(step(w, s, env, Event::Timeout).w.pending) matches Some(aim) ==> !(aim is Connect),
{
}

/// What the host was last told of the shared keys is what the published phase means
/// for them, if it was so before the step.
pub proof fn gate_follows_phase(
    w: WorkerModel,
    s: SnapshotModel,
    env: SurroundingsModel,
    event: EventModel,
)
    requires
        consistent(w),
        env.now.admits(MICROPHONE_EXTEND_MS as int),
    ensures
        gate_after(step(w, s, env, event).out, gated(s.phase)) == gated(
            step(w, s, env, event).s.phase,
        ),
{
    steps_keep(w, s, env, event);
}

/// The chord that the worker takes for held is the one that is down: a press that
/// succeeded, until it is released.
pub proof fn held_chord_is_down(
    w: WorkerModel,
    s: SnapshotModel,
    env: SurroundingsModel,
    event: EventModel,
)
    requires
        consistent(w),
        env.now.admits(MICROPHONE_EXTEND_MS as int),
    ensures
        step(w, s, env, event).w.held_hotkey == down_after(
            step(w, s, env, event).out,
            down_at(w, event),
        ),
{
    steps_keep(w, s, env, event);
}

/// No keys stay down where a voice session does not go on: while it ends or is broken
/// off, while a connection comes down or is set up, and after the worker has ended.
pub proof fn nothing_stays_held(w: WorkerModel)
    requires
        consistent(w),
        activity(w.pending) is Ending || in_transit(w) || w.pending is Stopped,
    ensures
        w.held_hotkey is None,
{
}

/// A clean-up makes every message of the connection stale before anything else
/// happens, and lets go of the push-to-talk chord.
pub proof fn clean_ups_begin_by_letting_go(
    w: WorkerModel,
    s: SnapshotModel,
    env: SurroundingsModel,
    event: EventModel,
)
    requires
        consistent(w),
        env.now.admits(MICROPHONE_EXTEND_MS as int),
        !(w.pending is CleaningAudio),
        step(w, s, env, event).w.pending is CleaningAudio,
    ensures
        step(w, s, env, event).w.connection_generation == next_number(w.connection_generation),
        step(w, s, env, event).w.connection_generation != w.connection_generation,
        step(w, s, env, event).w.held_hotkey is None,
{
    steps_keep(w, s, env, event);
}

/// The message belongs to a connection other than the one with that generation.
pub open spec fn belongs_elsewhere(message: MessageModel, generation: u64) -> bool {
    match message {
        Message::Control { connection_generation, .. } => connection_generation != generation,
        Message::Audio { connection_generation, .. } => connection_generation != generation,
        Message::ConnectionChanged { connection_generation, .. } => connection_generation
            != generation,
        Message::CallbackError { connection_generation, .. } => connection_generation
            != generation,
        _ => false,
    }
}

/// What an old connection still has to say changes nothing.
pub proof fn stale_messages_change_nothing(
    w: WorkerModel,
    s: SnapshotModel,
    env: SurroundingsModel,
    message: MessageModel,
)
    requires
        belongs_elsewhere(message, w.connection_generation),
    ensures
        step(w, s, env, Event::Message(message)) == (Run { w, s, out: Seq::empty(), ask: None }),
{
}

/// The handlers of a connection are set up with the generation of that connection.
pub proof fn handlers_carry_the_generation(
    w: WorkerModel,
    s: SnapshotModel,
    env: SurroundingsModel,
    reply: ReplyModel,
)
    requires
        w.pending is Connecting,
    ensures
        step(w, s, env, Event::Reply(reply)).ask matches Some(
            Query::Subscribe { generation, .. },
        ) ==> generation == step(w, s, env, Event::Reply(reply)).w.connection_generation,
        step(w, s, env, Event::Reply(reply)).ask matches Some(
            Query::WatchLink { generation },
        ) ==> generation == step(w, s, env, Event::Reply(reply)).w.connection_generation,
{
    reveal(Run::reply_connecting);
}

/// A repeated press that belongs to another voice session, or to none, leaves the
/// held chord alone.
pub proof fn stale_retries_leave_the_chord(
    w: WorkerModel,
    s: SnapshotModel,
    env: SurroundingsModel,
    attempt: u32,
    epoch: u64,
    baseline: Option<MicObservation>,
)
    requires
        w.pending is Idle,
        !(env.pipeline.state is Streaming) || epoch != w.voice_session_epoch,
    ensures
        step(
            w,
            s,
            env,
            Event::Message(Message::RetryVoiceChord { attempt, epoch, baseline }),
        ) == (Run {
            w,
            s,
            out: seq![Command::Log(Note::RetryStale { epoch })],
            ask: None,
        }),
{
    assert(Seq::<CommandModel>::empty().push(Command::Log(Note::RetryStale { epoch })) =~= seq![
        Command::Log(Note::RetryStale { epoch }),
    ]);
}

/// The chord is pressed again only where the input method certainly did not react.
pub proof fn retries_need_certainty(
    w: WorkerModel,
    s: SnapshotModel,
    env: SurroundingsModel,
    reading: Option<MicObservation>,
    response: MicResponse,
)
    requires
        w.pending is RetryComparing,
        !(response is NotObserved),
    ensures
        step(w, s, env, Event::Reply(Reply::Compared { reading, response })).ask is None,
        step(w, s, env, Event::Reply(Reply::Compared { reading, response })).w.held_hotkey
            == w.held_hotkey,
{
    reveal(Run::reply_retry);
}

/// WeType is activated for its own default chord only.
pub proof fn only_the_default_chord_activates(
    w: WorkerModel,
    s: SnapshotModel,
    env: SurroundingsModel,
    start: Start,
    chord: ChordModel,
    reading: Option<MicObservation>,
)
    requires
        w.pending == (PendingModel::StartReading { start, chord }),
    ensures
        step(w, s, env, Event::Reply(Reply::Reading(reading))).ask == if is_wetype_default(chord) {
            Some(QueryModel::ActivateWeType)
        } else {
            Some(QueryModel::PressChord(chord))
        },
{
    reveal(Run::reply_start);
}

/// The count of radio restarts since the last success rises only by a restart, and a
/// restart happens only where the policy asks for one and its limit is not reached.
pub proof fn radio_restarts_are_bounded(
    w: WorkerModel,
    s: SnapshotModel,
    env: SurroundingsModel,
    event: EventModel,
)
    requires
        consistent(w),
        env.now.admits(MICROPHONE_EXTEND_MS as int),
        step(w, s, env, event).w.radio_recovery_cycles > w.radio_recovery_cycles,
    ensures
        w.pending is ConsultingRadioPolicy,
        step(w, s, env, event).ask == Some(QueryModel::CycleRadio),
        step(w, s, env, event).w.radio_recovery_cycles == w.radio_recovery_cycles + 1,
        event matches Event::Reply(Reply::RadioPolicy { due, limit }) && due && step(
            w,
            s,
            env,
            event,
        ).w.radio_recovery_cycles <= limit,
{
    steps_keep(w, s, env, event);
    reveal(Run::reply_timed);
}

/// Voice sessions are numbered: the number moves on where a stream starts and nowhere
/// else, and the host hears of it before anything else happens.
pub proof fn voice_sessions_are_numbered(
    w: WorkerModel,
    s: SnapshotModel,
    env: SurroundingsModel,
    event: EventModel,
)
    requires
        consistent(w),
        env.now.admits(MICROPHONE_EXTEND_MS as int),
    ensures
        step(w, s, env, event).w.voice_session_epoch != w.voice_session_epoch <==> w.pending
            is Decoding && event matches Event::Reply(
            Reply::Decoded(PipelineOutput::StreamStarted { .. }),
        ),
        step(w, s, env, event).w.voice_session_epoch != w.voice_session_epoch ==> {
            &&& step(w, s, env, event).w.voice_session_epoch == next_number(w.voice_session_epoch)
            &&& step(w, s, env, event).out[0] == CommandModel::PublishEpoch(
                step(w, s, env, event).w.voice_session_epoch,
            )
        },
{
    steps_keep(w, s, env, event);
    reveal(Run::reply_control);
}

/// A worker that has ended does nothing any more.
pub proof fn ended_workers_stay_ended(
    w: WorkerModel,
    s: SnapshotModel,
    env: SurroundingsModel,
    event: EventModel,
)
    requires
        w.pending is Stopped,
    ensures
        step(w, s, env, event) == (Run { w, s, out: Seq::empty(), ask: None }),
{
}

/// Every request is answered once: what a step answers and goes on owing is what it
/// owed and was asked for.
pub proof fn requests_are_answered_once(
    w: WorkerModel,
    s: SnapshotModel,
    env: SurroundingsModel,
    event: EventModel,
)
    requires
        consistent(w),
        env.now.admits(MICROPHONE_EXTEND_MS as int),
    ensures
        answers(step(w, s, env, event).out) + owed(step(w, s, env, event).w.pending) == owed_at(
            w,
            event,
        ),
{
    steps_keep(w, s, env, event);
}

/// What is left of a connection is closed by every clean-up until that has succeeded:
/// one that could not be closed is kept, with what went wrong, for the next.
pub proof fn failed_closes_are_repeated(
    w: WorkerModel,
    s: SnapshotModel,
    env: SurroundingsModel,
    after: After<Seq<char>>,
    audio_error: Option<Seq<char>>,
    report: CloseReport<Seq<char>>,
)
    requires
        w.session is Some,
    ensures
        w.pending == PendingModel::CleaningAudio(after) ==> step(
            w,
            s,
            env,
            Event::Reply(Reply::Outcome(audio_error)),
        ).ask == Some(QueryModel::CloseSession),
        w.pending == (PendingModel::CleaningSession { after, audio_error }) && close_error(
            report,
        ) is Some ==> {
            let next = step(w, s, env, Event::Reply(Reply::Closed(report))).w;
            next.session is Some && next.session->0.cleanup_failure == close_error(report)
        },
        w.pending == (PendingModel::CleaningSession { after, audio_error }) && close_error(
            report,
        ) is None ==> step(w, s, env, Event::Reply(Reply::Closed(report))).w.session is None,
{
    reveal(Run::reply_cleanup);
}

proof fn activations_leave_a_hint(
    w: WorkerModel,
    s: SnapshotModel,
    env: SurroundingsModel,
    start: Start,
    chord: ChordModel,
    baseline: Option<MicObservation>,
    error: Option<Seq<char>>,
)
    requires
        w.pending == (PendingModel::StartActivating { start, chord, baseline }),
    ensures
        step(w, s, env, Event::Reply(Reply::Outcome(error))).w.pending == (
        PendingModel::StartPressing { start, chord, baseline, hint: error }),
        step(w, s, env, Event::Reply(Reply::Outcome(error))).ask == Some(
            QueryModel::PressChord(chord),
        ),
        error is Some ==> step(w, s, env, Event::Reply(Reply::Outcome(error))).s.last_error
            == error,
{
    reveal(Run::reply_start);
}

proof fn presses_keep_the_hint(
    w: WorkerModel,
    s: SnapshotModel,
    env: SurroundingsModel,
    start: Start,
    chord: ChordModel,
    baseline: Option<MicObservation>,
    hint: Option<Seq<char>>,
)
    requires
        w.pending == (PendingModel::StartPressing { start, chord, baseline, hint }),
    ensures
        step(w, s, env, Event::Reply(Reply::Outcome(None))).w.pending == (
        PendingModel::StartingAudio { start, hint }),
        step(w, s, env, Event::Reply(Reply::Outcome(None))).s == s,
        step(w, s, env, Event::Reply(Reply::Outcome(None))).ask == Some(
            QueryModel::BeginAudio { generation: start.generation },
        ),
{
    reveal(Run::reply_start);
}

proof fn streams_show_the_hint(
    w: WorkerModel,
    s: SnapshotModel,
    env: SurroundingsModel,
    start: Start,
    hint: Option<Seq<char>>,
)
    requires
        w.pending == (PendingModel::StartingAudio { start, hint }),
    ensures
        step(w, s, env, Event::Reply(Reply::Outcome(None))).s.phase is Streaming,
        step(w, s, env, Event::Reply(Reply::Outcome(None))).s.last_error == hint,
        step(w, s, env, Event::Reply(Reply::Outcome(None))).w.pending is Idle,
{
    reveal(Run::reply_start);
}

/// A failed activation of WeType does not stop a voice session, and what went wrong
/// stays published: the chord is pressed all the same, and once the audio has begun the
/// session streams with the error of the activation shown. Where the activation
/// succeeded, no older error is shown.
pub proof fn failed_activations_are_shown(
    w: WorkerModel,
    s: SnapshotModel,
    envs: (SurroundingsModel, SurroundingsModel, SurroundingsModel),
    start: Start,
    chord: ChordModel,
    baseline: Option<MicObservation>,
    error: Option<Seq<char>>,
)
    requires
        w.pending == (PendingModel::StartActivating { start, chord, baseline }),
    ensures
        ({
            let activated = step(w, s, envs.0, Event::Reply(Reply::Outcome(error)));
            let pressed = step(
                activated.w,
                activated.s,
                envs.1,
                Event::Reply(Reply::Outcome(None)),
            );
            let begun = step(pressed.w, pressed.s, envs.2, Event::Reply(Reply::Outcome(None)));
            &&& activated.ask == Some(QueryModel::PressChord(chord))
            &&& error is Some ==> activated.s.last_error == error && pressed.s.last_error == error
            &&& begun.s.phase is Streaming
            &&& begun.s.last_error == error
        }),
{
    let activated = step(w, s, envs.0, Event::Reply(Reply::Outcome(error)));
    let pressed = step(activated.w, activated.s, envs.1, Event::Reply(Reply::Outcome(None)));
    activations_leave_a_hint(w, s, envs.0, start, chord, baseline, error);
    presses_keep_the_hint(activated.w, activated.s, envs.1, start, chord, baseline, error);
    streams_show_the_hint(pressed.w, pressed.s, envs.2, start, error);
}

} // verus!
