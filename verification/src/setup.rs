//! How connections are set up, and what follows where that fails.
use crate::conduct::{empty_state, nothing, only_asks};
use crate::deadline::Instant;
use crate::error::{failure_text, FailureModel};
use crate::model::{step, Run, WorkerModel};
use crate::protocol::{
    Attempt, Channel, Characteristic, Command, CommandModel, Event, Identity, Pending,
    PendingModel, Query, QueryModel, Reply, Session, Stage, SurroundingsModel, WriteOutcome,
};
use crate::reconnect::{first_delays, BackoffModel};
use crate::snapshot::{ConnectionPhase, RemoteModel, Snapshot, SnapshotModel};
use crate::teardown::{
    failure_state, number_after, paced, reconnects, shown_waiting, shows, waiting,
};
use crate::text::decimal_text;
use vstd::prelude::*;

verus! {

/// The step goes on with another stage of the set-up and does nothing else.
pub open spec fn goes_to(
    w: WorkerModel,
    s: SnapshotModel,
    stage: Stage<Seq<char>>,
    attempt: Attempt<Seq<char>>,
    query: QueryModel,
    run: Run,
) -> bool {
    only_asks(w, s, Pending::Connecting { stage, attempt }, query, run)
}

/// The device and its model are known: both are shown, what was wrong before is not, and
/// the voice service is looked for.
pub open spec fn is_discovered(
    w: WorkerModel,
    s: SnapshotModel,
    attempt: Attempt<Seq<char>>,
    name: Seq<char>,
    model: RemoteModel,
    run: Run,
) -> bool {
    &&& run.w == (WorkerModel {
        pending: Pending::Connecting {
            stage: Stage::FindingService(Identity { name, model }),
            attempt,
        },
        ..w
    })
    &&& run.s == (Snapshot {
        phase: ConnectionPhase::Discovering,
        remote_name: Some(name),
        remote_model: model,
        last_error: None,
        ..s
    })
    &&& run.out =~= seq![Command::SetRemoteGate(false)]
    &&& run.ask == Some(QueryModel::FindService)
}

/// A connection is there: its microphone is closed, its remote has ten seconds to state
/// its capabilities, and whoever asked for it is told what is then shown.
pub open spec fn is_connected(
    w: WorkerModel,
    env: SurroundingsModel,
    attempt: Attempt<Seq<char>>,
    identity: Identity<Seq<char>>,
    run: Run,
) -> bool {
    &&& run.w == (WorkerModel {
        session: Some(
            Session {
                name: identity.name,
                model: identity.model,
                microphone_opened: false,
                cleanup_failure: None,
            },
        ),
        capabilities_deadline: Some(Instant { nanos: (env.now.nanos + 10_000_000_000) as u64 }),
        pending: Pending::Idle,
        ..w
    })
    &&& run.s == (Snapshot {
        phase: ConnectionPhase::AwaitingCapabilities,
        remote_name: Some(identity.name),
        remote_model: identity.model,
        reconnect_attempt: attempt.number,
        ..empty_state()
    })
    &&& run.out =~= if attempt.requested {
        seq![Command::SetRemoteGate(true), Command::Answer(Ok(run.s))]
    } else {
        seq![Command::SetRemoteGate(true)]
    }
    &&& run.ask is None
}

/// A set-up goes from the device over its service and its three characteristics to both
/// subscriptions, the link and the request for the capabilities. Every handler gets the
/// number of the connection.
pub proof fn set_ups_go_in_order(
    w: WorkerModel,
    s: SnapshotModel,
    env: SurroundingsModel,
    stage: Stage<Seq<char>>,
    attempt: Attempt<Seq<char>>,
)
    requires
        w.pending == (PendingModel::Connecting { stage, attempt }),
    ensures
        ({
            let run = step(w, s, env, Event::Reply(Reply::Attempted(None)));
            let generation = w.connection_generation;
            match stage {
                Stage::Opening => {
                    &&& run.w == (WorkerModel {
                        pending: Pending::Connecting { stage: Stage::Naming, attempt },
                        ..w
                    })
                    &&& run.s == s
                    &&& run.out =~= seq![Command::RequestThroughput]
                    &&& run.ask == Some(QueryModel::ReadName)
                },
                Stage::Naming | Stage::Modeling { .. } => nothing(w, s, run),
                Stage::FindingService(identity) => goes_to(
                    w,
                    s,
                    Stage::FindingCharacteristic(Characteristic::Transmit, identity),
                    attempt,
                    Query::FindCharacteristic(Characteristic::Transmit),
                    run,
                ),
                Stage::FindingCharacteristic(Characteristic::Transmit, identity) => goes_to(
                    w,
                    s,
                    Stage::FindingCharacteristic(Characteristic::Audio, identity),
                    attempt,
                    Query::FindCharacteristic(Characteristic::Audio),
                    run,
                ),
                Stage::FindingCharacteristic(Characteristic::Audio, identity) => goes_to(
                    w,
                    s,
                    Stage::FindingCharacteristic(Characteristic::Control, identity),
                    attempt,
                    Query::FindCharacteristic(Characteristic::Control),
                    run,
                ),
                Stage::FindingCharacteristic(Characteristic::Control, identity) => goes_to(
                    w,
                    s,
                    Stage::Subscribing(Channel::Audio, identity),
                    attempt,
                    Query::Subscribe { channel: Channel::Audio, generation },
                    run,
                ),
                Stage::Subscribing(Channel::Audio, identity) => goes_to(
                    w,
                    s,
                    Stage::Subscribing(Channel::Control, identity),
                    attempt,
                    Query::Subscribe { channel: Channel::Control, generation },
                    run,
                ),
                Stage::Subscribing(Channel::Control, identity) => goes_to(
                    w,
                    s,
                    Stage::WatchingLink(identity),
                    attempt,
                    Query::WatchLink { generation },
                    run,
                ),
                Stage::WatchingLink(identity) => goes_to(
                    w,
                    s,
                    Stage::RequestingCapabilities(identity),
                    attempt,
                    Query::RequestCapabilities,
                    run,
                ),
                Stage::RequestingCapabilities(identity) => is_connected(
                    w,
                    env,
                    attempt,
                    identity,
                    run,
                ),
            }
        }),
{
    reveal(Run::reply_connecting);
}

/// A device whose name tells its model is known at once; the device information is read
/// for the others.
pub proof fn names_may_tell_the_model(
    w: WorkerModel,
    s: SnapshotModel,
    env: SurroundingsModel,
    attempt: Attempt<Seq<char>>,
    name: Seq<char>,
    model: RemoteModel,
)
    requires
        w.pending == (PendingModel::Connecting { stage: Stage::Naming, attempt }),
    ensures
        ({
            let run = step(w, s, env, Event::Reply(Reply::Named { name, model }));
            if model is Unknown {
                goes_to(w, s, Stage::Modeling { name }, attempt, Query::ReadModel, run)
            } else {
                is_discovered(w, s, attempt, name, model, run)
            }
        }),
{
    reveal(Run::reply_connecting);
}

/// A device keeps its name and gets the model that was read, or none.
pub proof fn models_may_stay_unknown(
    w: WorkerModel,
    s: SnapshotModel,
    env: SurroundingsModel,
    attempt: Attempt<Seq<char>>,
    name: Seq<char>,
    model: Option<RemoteModel>,
)
    requires
        w.pending == (PendingModel::Connecting { stage: Stage::Modeling { name }, attempt }),
    ensures
        is_discovered(
            w,
            s,
            attempt,
            name,
            if model is Some {
                model->0
            } else {
                RemoteModel::Unknown
            },
            step(w, s, env, Event::Reply(Reply::Model(model))),
        ),
{
    reveal(Run::reply_connecting);
}

/// What a set-up that breaks off at a stage gives back, the latest first or all at once.
pub open spec fn gives_back(stage: Stage<Seq<char>>) -> Seq<CommandModel> {
    match stage {
        Stage::Subscribing(Channel::Audio, _) => seq![Command::CloseService, Command::CloseDevice],
        Stage::Subscribing(Channel::Control, _) => seq![
            Command::RemoveHandler(Channel::Audio),
            Command::DisableNotifications(Channel::Audio),
            Command::CloseService,
            Command::CloseDevice,
        ],
        Stage::WatchingLink(_) => seq![
            Command::RemoveHandler(Channel::Audio),
            Command::RemoveHandler(Channel::Control),
            Command::DisableNotifications(Channel::Audio),
            Command::DisableNotifications(Channel::Control),
            Command::CloseService,
            Command::CloseDevice,
        ],
        Stage::RequestingCapabilities(_) => seq![Command::DropSession],
        _ => Seq::empty(),
    }
}

/// A worker like `w` whose connection never came about: what its handlers send is stale.
pub open spec fn broken_off(w: WorkerModel) -> WorkerModel {
    WorkerModel {
        connection_generation: if w.connection_generation == 0xffff_ffff_ffff_ffff {
            0
        } else {
            (w.connection_generation + 1) as u64
        },
        pending: Pending::Idle,
        ..w
    }
}

proof fn set_ups_unwind(run: Run, stage: Stage<Seq<char>>)
    requires
        run.out =~= Seq::empty(),
    ensures
        run.unwind(stage) == (Run { out: gives_back(stage), ..run }),
{
    assert(run.unwind(stage).out =~= gives_back(stage));
}

proof fn attempts_fail(
    run: Run,
    env: SurroundingsModel,
    attempt: Attempt<Seq<char>>,
    failure: FailureModel,
)
    requires
        run.ask is None,
        run.w.pending is Idle,
        !(failure is BleCleanup),
        paced(run.w, env),
    ensures
        ({
            let end = run.attempt_failed(attempt, failure, env);
            if attempt.requested {
                reconnects(
                    broken_off(run.w),
                    run.s,
                    env,
                    failure_text(failure),
                    run.out,
                    seq![Command::Answer(Err(failure))],
                    end,
                )
            } else {
                &&& end.w == (WorkerModel {
                    pending: Pending::ConsultingRadioPolicy,
                    ..waiting(broken_off(run.w), env)
                })
                &&& end.s == shown_waiting(run.w, run.s, failure_text(failure))
                &&& end.out =~= run.out.push(Command::SetRemoteGate(true))
                &&& end.ask == Some(
                    QueryModel::ConsultRadioPolicy {
                        attempt: number_after(run.w.backoff.attempt),
                        cycles: run.w.radio_recovery_cycles,
                    },
                )
            }
        }),
{
    first_delays(run.w.backoff);
}

/// A request to connect that fails is told, and the worker goes on by itself.
pub proof fn failed_requests_are_told(
    w: WorkerModel,
    s: SnapshotModel,
    env: SurroundingsModel,
    stage: Stage<Seq<char>>,
    attempt: Attempt<Seq<char>>,
    failure: FailureModel,
)
    requires
        w.pending == (PendingModel::Connecting { stage, attempt }),
        !(stage is Modeling),
        attempt.requested,
        !(failure is BleCleanup),
        paced(w, env),
    ensures
        ({
            let run = step(w, s, env, Event::Reply(Reply::Attempted(Some(failure))));
            reconnects(
                broken_off(w),
                s,
                env,
                failure_text(failure),
                gives_back(stage),
                seq![Command::Answer(Err(failure))],
                run,
            )
        }),
{
    reveal(Run::reply_connecting);
    let run = Run {
        w: WorkerModel { pending: Pending::Idle, ..w },
        s,
        out: Seq::empty(),
        ask: None,
    };
    set_ups_unwind(run, stage);
    attempts_fail(Run { out: gives_back(stage), ..run }, env, attempt, failure);
}

/// A reconnect that fails is followed by the next, and the radio policy is asked with the
/// number of that one whether the radio has to be restarted first.
pub proof fn failed_reconnects_consult_the_radio_policy(
    w: WorkerModel,
    s: SnapshotModel,
    env: SurroundingsModel,
    stage: Stage<Seq<char>>,
    attempt: Attempt<Seq<char>>,
    failure: FailureModel,
)
    requires
        w.pending == (PendingModel::Connecting { stage, attempt }),
        !(stage is Modeling),
        !attempt.requested,
        !(failure is BleCleanup),
        paced(w, env),
    ensures
        ({
            let run = step(w, s, env, Event::Reply(Reply::Attempted(Some(failure))));
            &&& run.w == (WorkerModel {
                pending: Pending::ConsultingRadioPolicy,
                ..waiting(broken_off(w), env)
            })
            &&& run.s == shown_waiting(w, s, failure_text(failure))
            &&& run.out =~= gives_back(stage).push(Command::SetRemoteGate(true))
            &&& run.ask == Some(
                QueryModel::ConsultRadioPolicy {
                    attempt: number_after(w.backoff.attempt),
                    cycles: w.radio_recovery_cycles,
                },
            )
        }),
{
    reveal(Run::reply_connecting);
    let run = Run {
        w: WorkerModel { pending: Pending::Idle, ..w },
        s,
        out: Seq::empty(),
        ask: None,
    };
    set_ups_unwind(run, stage);
    attempts_fail(Run { out: gives_back(stage), ..run }, env, attempt, failure);
}

/// A set-up that fails because something older could not be closed goes on as a clean-up
/// with an error does.
pub proof fn unclean_set_ups_try_again(
    w: WorkerModel,
    s: SnapshotModel,
    env: SurroundingsModel,
    stage: Stage<Seq<char>>,
    attempt: Attempt<Seq<char>>,
    failure: FailureModel,
)
    requires
        w.pending == (PendingModel::Connecting { stage, attempt }),
        !(stage is Modeling),
        failure is BleCleanup,
        paced(w, env),
    ensures
        ({
            let run = step(w, s, env, Event::Reply(Reply::Attempted(Some(failure))));
            let told = if attempt.requested {
                seq![CommandModel::Answer(Err(failure))]
            } else {
                Seq::empty()
            };
            if w.preferred_device_id is Some {
                reconnects(
                    broken_off(w),
                    s,
                    env,
                    failure_text(failure)
                        + "；旧会话清理失败，将继续重试并再次清理"@,
                    gives_back(stage),
                    told,
                    run,
                )
            } else {
                shows(
                    WorkerModel { reconnect_deadline: None, ..broken_off(w) },
                    failure_state(failure_text(failure)),
                    false,
                    gives_back(stage),
                    told,
                    run,
                )
            }
        }),
{
    reveal(Run::reply_connecting);
    first_delays(w.backoff);
    set_ups_unwind(
        Run { w: WorkerModel { pending: Pending::Idle, ..w }, s, out: Seq::empty(), ask: None },
        stage,
    );
}

/// The radio is restarted where the policy says so and its limit is not reached. The
/// restart is counted and shown; otherwise the scheduled reconnect stands.
pub proof fn due_restarts_are_counted(
    w: WorkerModel,
    s: SnapshotModel,
    env: SurroundingsModel,
    due: bool,
    limit: u32,
)
    requires
        w.pending is ConsultingRadioPolicy,
    ensures
        ({
            let run = step(w, s, env, Event::Reply(Reply::RadioPolicy { due, limit }));
            let cycles = w.radio_recovery_cycles + 1;
            if due && cycles <= limit {
                &&& run.w == (WorkerModel {
                    radio_recovery_cycles: cycles as u32,
                    pending: Pending::CyclingRadio,
                    ..w
                })
                &&& run.s == (Snapshot {
                    last_error: Some(
                        "连续 "@ + decimal_text(w.backoff.attempt as nat)
                            + " 次重连失败，正在自动重启蓝牙无线电以清除僵死链路（第 "@
                            + decimal_text(cycles as nat) + "/"@ + decimal_text(limit as nat)
                            + " 次）…"@,
                    ),
                    ..s
                })
                &&& run.out =~= Seq::empty()
                &&& run.ask == Some(QueryModel::CycleRadio)
            } else {
                nothing(WorkerModel { pending: Pending::Idle, ..w }, s, run)
            }
        }),
{
    reveal(Run::reply_timed);
}

/// A reconnect follows a restart of the radio after two seconds, whether the restart
/// succeeded or not, with the delays started over and the outcome shown. The count of
/// restarts stands.
pub proof fn restarts_are_followed_by_a_reconnect(
    w: WorkerModel,
    s: SnapshotModel,
    env: SurroundingsModel,
    error: Option<Seq<char>>,
)
    requires
        w.pending is CyclingRadio,
    ensures
        ({
            let run = step(w, s, env, Event::Reply(Reply::Outcome(error)));
            &&& run.w == (WorkerModel {
                backoff: BackoffModel { attempt: 0, ..w.backoff },
                reconnect_deadline: Some(
                    Instant { nanos: (env.now.nanos + 2_000_000_000) as u64 },
                ),
                pending: Pending::Idle,
                ..w
            })
            &&& run.s == (Snapshot {
                reconnect_attempt: 0,
                last_error: Some(
                    match error {
                        None => "蓝牙无线电已重启，正在重新连接小米语音遥控器…"@,
                        Some(error) => "蓝牙自动恢复失败："@ + error
                            + "。请检查遥控器电量，或手动开关一次蓝牙后重试。"@,
                    },
                ),
                ..s
            })
            &&& run.out =~= Seq::empty()
            &&& run.ask is None
        }),
{
    reveal(Run::reply_timed);
}

/// An extension that was sent is followed by another, two and a half seconds after it was
/// begun; one that could not be encoded or sent is the last, and only the latter is shown.
pub proof fn extensions_follow_each_other(
    w: WorkerModel,
    s: SnapshotModel,
    env: SurroundingsModel,
    since: Instant,
    outcome: WriteOutcome<Seq<char>>,
)
    requires
        w.pending == (PendingModel::Extending { since }),
    ensures
        ({
            let run = step(w, s, env, Event::Reply(Reply::Written(outcome)));
            let rest = WorkerModel { pending: Pending::Idle, ..w };
            match outcome {
                WriteOutcome::Sent => nothing(
                    WorkerModel {
                        extend_deadline: Some(
                            Instant { nanos: (since.nanos + 2_500_000_000) as u64 },
                        ),
                        ..rest
                    },
                    s,
                    run,
                ),
                WriteOutcome::Unencodable => nothing(rest, s, run),
                WriteOutcome::Failed(error) => nothing(
                    rest,
                    Snapshot {
                        last_error: Some("发送 MIC_EXTEND 失败："@ + failure_text(error)),
                        ..s
                    },
                    run,
                ),
            }
        }),
{
    reveal(Run::reply_timed);
}

} // verus!
