use sayall_windows::chord::{Chord, KeyChord, KeyCode};
use sayall_windows::deadline::Instant;
use sayall_windows::diagnostics::Note;
use sayall_windows::error::Failure;
use sayall_windows::protocol::{
    Channel, Characteristic, CloseReport, Command, Event, HostCommand, HostQuery, LinkStatus,
    Message, MicObservation, MicResponse, PipelineOutput, PipelineStatus, Query, Reply,
    Surroundings, WorkerMessage, WorkerReply, WriteOutcome,
};
use sayall_windows::snapshot::{
    Capabilities, ConnectionPhase, ConnectionSnapshot, RemoteModel, VoiceSessionState,
};
use sayall_windows::worker::{close_error_text, is_clean, Worker};

const CAPABILITIES: Capabilities = Capabilities { version: 0x0100, selected_codec: 2 };

/// A worker with a host that only remembers.
struct Bench {
    worker: Worker,
    snapshot: ConnectionSnapshot,
    now_ms: u64,
    pipeline: PipelineStatus,
    hotkey: Option<Vec<KeyCode>>,
}

impl Bench {
    fn new() -> Bench {
        Bench {
            worker: Worker::new(),
            snapshot: ConnectionSnapshot::default(),
            now_ms: 1_000,
            pipeline: PipelineStatus {
                state: VoiceSessionState::Idle,
                capabilities: None,
                session_id: None,
            },
            hotkey: None,
        }
    }

    fn step(
        &mut self,
        event: Event<String, Vec<u8>, Vec<i16>>,
    ) -> (Vec<HostCommand>, Option<HostQuery>) {
        let env = Surroundings {
            now: Instant { nanos: self.now_ms * 1_000_000 },
            pipeline: self.pipeline,
            hotkey: self.hotkey.clone().map(|keys| Chord { keys }),
        };
        self.worker.step(&mut self.snapshot, &env, event)
    }

    fn tell(&mut self, message: WorkerMessage) -> (Vec<HostCommand>, Option<HostQuery>) {
        self.step(Event::Message(message))
    }

    fn reply(&mut self, reply: WorkerReply) -> (Vec<HostCommand>, Option<HostQuery>) {
        self.step(Event::Reply(reply))
    }

    fn timeout(&mut self) -> (Vec<HostCommand>, Option<HostQuery>) {
        self.step(Event::Timeout)
    }

    fn deadline_ms(&self) -> Option<u64> {
        self.worker.deadline().map(|deadline| deadline.nanos / 1_000_000)
    }

    /// Answers the queries of a connection set-up from the clean-up of the audio on.
    fn set_up(&mut self) -> Vec<HostCommand> {
        let mut out = Vec::new();
        let mut turn = self.reply(Reply::Outcome(None));
        loop {
            out.extend(turn.0);
            let reply = match turn.1 {
                None => return out,
                Some(Query::ReadName) => Reply::Named {
                    name: "小米语音遥控器".to_owned(),
                    model: RemoteModel::Rc003,
                },
                Some(_) => Reply::Attempted(None),
            };
            turn = self.reply(reply);
        }
    }

    /// A worker that has connected at the user's request and heard of capabilities.
    fn ready() -> Bench {
        let mut bench = Bench::new();
        bench.tell(Message::Connect { device_id: "device".to_owned() });
        bench.set_up();
        bench.control(1, PipelineOutput::Ready(CAPABILITIES));
        bench.pipeline.capabilities = Some(CAPABILITIES);
        assert_eq!(bench.snapshot.phase, ConnectionPhase::Ready);
        bench
    }

    /// A control packet and what the pipeline makes of it.
    fn control(
        &mut self,
        connection_generation: u64,
        output: PipelineOutput<Vec<i16>>,
    ) -> (Vec<HostCommand>, Option<HostQuery>) {
        let turn = self.tell(Message::Control { connection_generation, bytes: vec![0x04, 1] });
        assert_eq!(turn, (vec![], Some(Query::DecodeControl(vec![0x04, 1]))));
        self.reply(Reply::Decoded(output))
    }

    /// A worker that streams with the default chord held.
    fn streaming() -> Bench {
        let mut bench = Bench::ready();
        bench.hotkey = Some(vec![KeyCode::LeftControl, KeyCode::LeftWindows]);
        bench.pipeline.state = VoiceSessionState::Streaming;
        bench.pipeline.session_id = Some(7);
        bench.control(1, PipelineOutput::StreamStarted { session_id: 7, generation: 3 });
        bench.reply(Reply::Slept);
        bench.reply(Reply::Reading(Some(MicObservation { handle: 40 })));
        bench.reply(Reply::Outcome(None));
        bench.reply(Reply::Outcome(None));
        bench.reply(Reply::Outcome(None));
        assert_eq!(bench.snapshot.phase, ConnectionPhase::Streaming);
        bench
    }
}

fn default_chord() -> KeyChord {
    Chord { keys: vec![KeyCode::LeftControl, KeyCode::LeftWindows] }
}

fn clean_close() -> CloseReport<String> {
    CloseReport {
        audio_handler: None,
        control_handler: None,
        link_handler: None,
        service: None,
        device: None,
    }
}

#[test]
fn connecting_runs_through_every_stage() {
    let mut bench = Bench::new();
    let turn = bench.tell(Message::Connect { device_id: "device".to_owned() });
    assert_eq!(turn, (vec![Command::SetSessionActive(false)], Some(Query::InterruptAudio)));
    let turn = bench.reply(Reply::Outcome(None));
    assert_eq!(
        turn,
        (
            vec![
                Command::InterruptPipeline,
                Command::ResetPipeline,
                Command::SetRemoteGate(false)
            ],
            Some(Query::OpenDevice { device_id: "device".to_owned() })
        )
    );
    assert_eq!(bench.snapshot.phase, ConnectionPhase::Connecting);
    let turn = bench.reply(Reply::Attempted(None));
    assert_eq!(turn, (vec![Command::RequestThroughput], Some(Query::ReadName)));
    let turn = bench.reply(Reply::Named {
        name: "遥控器".to_owned(),
        model: RemoteModel::Unknown,
    });
    assert_eq!(turn, (vec![], Some(Query::ReadModel)));
    let turn = bench.reply(Reply::Model(Some(RemoteModel::Rc001)));
    assert_eq!(turn, (vec![Command::SetRemoteGate(false)], Some(Query::FindService)));
    assert_eq!(bench.snapshot.phase, ConnectionPhase::Discovering);
    let queries = [
        Query::FindCharacteristic(Characteristic::Transmit),
        Query::FindCharacteristic(Characteristic::Audio),
        Query::FindCharacteristic(Characteristic::Control),
        Query::Subscribe { channel: Channel::Audio, generation: 1 },
        Query::Subscribe { channel: Channel::Control, generation: 1 },
        Query::WatchLink { generation: 1 },
        Query::RequestCapabilities,
    ];
    for query in queries {
        assert_eq!(bench.reply(Reply::Attempted(None)), (vec![], Some(query)));
    }
    let (out, ask) = bench.reply(Reply::Attempted(None));
    assert_eq!(ask, None);
    let mut expected = ConnectionSnapshot::default();
    expected.phase = ConnectionPhase::AwaitingCapabilities;
    expected.remote_name = Some("遥控器".to_owned());
    expected.remote_model = RemoteModel::Rc001;
    assert_eq!(bench.snapshot, expected);
    assert_eq!(out, vec![Command::SetRemoteGate(true), Command::Answer(Ok(expected))]);
    assert_eq!(bench.deadline_ms(), Some(11_000));
}

#[test]
fn failures_of_the_set_up_give_back_what_was_acquired() {
    let releases: Vec<(usize, Vec<HostCommand>)> = vec![
        (0, vec![]),
        (1, vec![]),
        (2, vec![]),
        (5, vec![]),
        (6, vec![Command::CloseService, Command::CloseDevice]),
        (
            7,
            vec![
                Command::RemoveHandler(Channel::Audio),
                Command::DisableNotifications(Channel::Audio),
                Command::CloseService,
                Command::CloseDevice,
            ],
        ),
        (
            8,
            vec![
                Command::RemoveHandler(Channel::Audio),
                Command::RemoveHandler(Channel::Control),
                Command::DisableNotifications(Channel::Audio),
                Command::DisableNotifications(Channel::Control),
                Command::CloseService,
                Command::CloseDevice,
            ],
        ),
        (9, vec![Command::DropSession]),
    ];
    for (successes, expected) in releases {
        let mut bench = Bench::new();
        bench.tell(Message::Connect { device_id: "device".to_owned() });
        bench.reply(Reply::Outcome(None));
        for stage in 0..successes {
            if stage == 1 {
                bench.reply(Reply::Named {
                    name: "遥控器".to_owned(),
                    model: RemoteModel::Rc003,
                });
            } else {
                bench.reply(Reply::Attempted(None));
            }
        }
        let failure = || Failure::WindowsApi("坏了".to_owned());
        let (out, ask) = bench.reply(Reply::Attempted(Some(failure())));
        assert_eq!(ask, None);
        let mut all = expected;
        all.push(Command::SetRemoteGate(true));
        all.push(Command::Answer(Err(failure())));
        assert_eq!(out, all);
        assert_eq!(bench.snapshot.phase, ConnectionPhase::Reconnecting);
        assert_eq!(
            bench.snapshot.last_error.as_deref(),
            Some("坏了；将在 2 秒后进行第 1 次重连")
        );
        assert_eq!(bench.deadline_ms(), Some(3_000));
    }
}

#[test]
fn missing_capabilities_lead_to_a_reconnect() {
    let mut bench = Bench::new();
    bench.tell(Message::Connect { device_id: "device".to_owned() });
    bench.set_up();
    bench.now_ms = 10_999;
    assert_eq!(bench.timeout(), (vec![], None));
    bench.now_ms = 11_000;
    assert_eq!(
        bench.timeout(),
        (vec![Command::SetSessionActive(false)], Some(Query::InterruptAudio))
    );
    assert_eq!(bench.reply(Reply::Outcome(None)), (vec![], Some(Query::CloseSession)));
    let (out, ask) = bench.reply(Reply::Closed(clean_close()));
    assert_eq!(ask, None);
    assert_eq!(
        out,
        vec![
            Command::InterruptPipeline,
            Command::ResetPipeline,
            Command::SetRemoteGate(true)
        ]
    );
    assert_eq!(
        bench.snapshot.last_error.as_deref(),
        Some("等待小米语音遥控器返回 ATVV 能力超时；将在 2 秒后进行第 1 次重连")
    );
    assert_eq!(bench.deadline_ms(), Some(13_000));
}

#[test]
fn reconnects_keep_showing_the_remote() {
    let mut bench = Bench::ready();
    bench.tell(Message::ConnectionChanged {
        connection_generation: 1,
        status: LinkStatus::Disconnected,
    });
    bench.reply(Reply::Outcome(None));
    bench.reply(Reply::Closed(clean_close()));
    assert_eq!(
        bench.snapshot.last_error.as_deref(),
        Some("小米语音遥控器蓝牙连接已断开；将在 2 秒后进行第 1 次重连")
    );
    bench.now_ms = 3_000;
    bench.timeout();
    let (out, ask) = bench.reply(Reply::Outcome(None));
    assert_eq!(ask, Some(Query::OpenDevice { device_id: "device".to_owned() }));
    assert_eq!(out.last(), Some(&Command::SetRemoteGate(true)));
    assert_eq!(bench.snapshot.phase, ConnectionPhase::Reconnecting);
    assert_eq!(bench.snapshot.remote_name.as_deref(), Some("小米语音遥控器"));
    assert_eq!(bench.snapshot.remote_model, RemoteModel::Rc003);
    assert_eq!(bench.snapshot.reconnect_attempt, 1);
}

#[test]
fn failed_reconnects_may_restart_the_radio() {
    let mut bench = Bench::new();
    bench.tell(Message::Restore { device_id: "device".to_owned() });
    bench.timeout();
    bench.reply(Reply::Outcome(None));
    let (_, ask) = bench.reply(Reply::Attempted(Some(Failure::VoiceServiceMissing)));
    assert_eq!(ask, Some(Query::ConsultRadioPolicy { attempt: 1, cycles: 0 }));
    let (out, ask) = bench.reply(Reply::RadioPolicy { due: true, limit: 2 });
    assert_eq!((out, ask), (vec![], Some(Query::CycleRadio)));
    assert_eq!(
        bench.snapshot.last_error.as_deref(),
        Some("连续 1 次重连失败，正在自动重启蓝牙无线电以清除僵死链路（第 1/2 次）…")
    );
    bench.now_ms = 5_000;
    assert_eq!(bench.reply(Reply::Outcome(None)), (vec![], None));
    assert_eq!(
        bench.snapshot.last_error.as_deref(),
        Some("蓝牙无线电已重启，正在重新连接小米语音遥控器…")
    );
    assert_eq!(bench.snapshot.reconnect_attempt, 0);
    assert_eq!(bench.deadline_ms(), Some(7_000));

    bench.now_ms = 7_000;
    bench.timeout();
    bench.reply(Reply::Outcome(None));
    let (_, ask) = bench.reply(Reply::Attempted(Some(Failure::VoiceServiceMissing)));
    assert_eq!(ask, Some(Query::ConsultRadioPolicy { attempt: 1, cycles: 1 }));
    bench.reply(Reply::RadioPolicy { due: true, limit: 2 });
    bench.reply(Reply::Outcome(Some("没有权限".to_owned())));
    assert_eq!(
        bench.snapshot.last_error.as_deref(),
        Some("蓝牙自动恢复失败：没有权限。请检查遥控器电量，或手动开关一次蓝牙后重试。")
    );
    bench.now_ms = 9_000;
    bench.timeout();
    bench.reply(Reply::Outcome(None));
    bench.reply(Reply::Attempted(Some(Failure::VoiceServiceMissing)));
    assert_eq!(bench.reply(Reply::RadioPolicy { due: true, limit: 2 }), (vec![], None));
}

#[test]
fn disconnecting_ends_in_a_blank_state() {
    let mut bench = Bench::ready();
    bench.tell(Message::Disconnect);
    bench.reply(Reply::Outcome(None));
    let (out, ask) = bench.reply(Reply::Closed(clean_close()));
    assert_eq!(ask, None);
    assert_eq!(
        out,
        vec![
            Command::InterruptPipeline,
            Command::ResetPipeline,
            Command::SetRemoteGate(false),
            Command::Answer(Ok(ConnectionSnapshot::default())),
        ]
    );
    assert_eq!(bench.snapshot, ConnectionSnapshot::default());
    assert_eq!(bench.deadline_ms(), None);
}

#[test]
fn failed_clean_ups_name_every_error_and_are_repeated() {
    let mut bench = Bench::ready();
    bench.tell(Message::Connect { device_id: "other".to_owned() });
    bench.reply(Reply::Outcome(Some("忙".to_owned())));
    let text = |text: &str| Some(text.to_owned());
    let (out, ask) = bench.reply(Reply::Closed(CloseReport {
        audio_handler: text("a"),
        control_handler: text("b"),
        link_handler: text("c"),
        service: text("d"),
        device: text("e"),
    }));
    assert_eq!(ask, None);
    let error = "音频中断：忙；移除音频通知处理器：a；移除控制通知处理器：b；移除连接状态处理器：c；关闭 GATT service：d；关闭蓝牙设备：e";
    assert_eq!(
        out.last(),
        Some(&Command::Answer(Err(Failure::BleCleanup(error.to_owned()))))
    );
    let shown = format!(
        "{error}；旧会话清理失败，将继续重试并再次清理；将在 2 秒后进行第 1 次重连"
    );
    assert_eq!(bench.snapshot.last_error, Some(shown));
    assert_eq!(bench.snapshot.phase, ConnectionPhase::Reconnecting);
    assert_eq!(bench.snapshot.reconnect_attempt, 1);
    assert_eq!(bench.deadline_ms(), Some(3_000));
    bench.now_ms = 3_000;
    bench.timeout();
    assert_eq!(bench.reply(Reply::Outcome(None)), (vec![], Some(Query::CloseSession)));
    let (_, ask) = bench.reply(Reply::Closed(clean_close()));
    assert_eq!(ask, Some(Query::OpenDevice { device_id: "other".to_owned() }));
}

#[test]
fn a_failed_disconnect_is_not_retried() {
    let mut bench = Bench::ready();
    bench.tell(Message::Disconnect);
    bench.reply(Reply::Outcome(Some("忙".to_owned())));
    let (out, _) = bench.reply(Reply::Closed(clean_close()));
    assert_eq!(
        out[2..],
        [
            Command::SetRemoteGate(false),
            Command::Answer(Err(Failure::BleCleanup("音频中断：忙".to_owned()))),
        ]
    );
    assert_eq!(bench.snapshot.phase, ConnectionPhase::Failed);
    assert_eq!(bench.snapshot.last_error.as_deref(), Some("音频中断：忙"));
    assert_eq!(bench.deadline_ms(), None);
    bench.now_ms = 900_000;
    assert_eq!(bench.timeout(), (vec![], None));
}

#[test]
fn restoring_waits_for_the_system_to_wake_up() {
    let mut bench = Bench::new();
    let (out, ask) = bench.tell(Message::Restore { device_id: "device".to_owned() });
    assert_eq!(ask, None);
    assert_eq!(bench.snapshot.phase, ConnectionPhase::Reconnecting);
    assert_eq!(
        bench.snapshot.last_error.as_deref(),
        Some("正在恢复上次选择的小米语音遥控器")
    );
    assert_eq!(
        out,
        vec![Command::SetRemoteGate(true), Command::Answer(Ok(bench.snapshot.copy()))]
    );
    assert_eq!(bench.deadline_ms(), Some(1_000));

    let mut bench = Bench::new();
    bench.tell(Message::SystemSuspended);
    bench.reply(Reply::Outcome(None));
    assert_eq!(bench.snapshot.phase, ConnectionPhase::Suspended);
    assert_eq!(
        bench.snapshot.last_error.as_deref(),
        Some("Windows 已进入睡眠，小米语音遥控器资源已释放")
    );
    bench.tell(Message::Restore { device_id: "device".to_owned() });
    assert_eq!(bench.snapshot.phase, ConnectionPhase::Suspended);
    assert_eq!(
        bench.snapshot.last_error.as_deref(),
        Some("Windows 当前处于睡眠状态，恢复后将重新连接小米语音遥控器")
    );
    assert_eq!(bench.deadline_ms(), None);
    bench.now_ms = 8_000;
    assert_eq!(bench.tell(Message::SystemResumed), (vec![Command::SetRemoteGate(true)], None));
    assert_eq!(
        bench.snapshot.last_error.as_deref(),
        Some("Windows 已恢复，正在重新连接小米语音遥控器")
    );
    assert_eq!(bench.deadline_ms(), Some(8_000));
}

#[test]
fn resuming_means_nothing_to_a_worker_that_was_awake() {
    let mut bench = Bench::ready();
    let before = bench.snapshot.copy();
    assert_eq!(bench.tell(Message::SystemResumed), (vec![], None));
    assert_eq!(bench.snapshot, before);
    let mut bench = Bench::new();
    bench.tell(Message::SystemSuspended);
    bench.reply(Reply::Outcome(None));
    assert_eq!(bench.tell(Message::SystemResumed), (vec![Command::SetRemoteGate(false)], None));
    assert_eq!(bench.snapshot, ConnectionSnapshot::default());
}

#[test]
fn a_key_press_of_the_remote_brings_the_reconnect_forward() {
    let mut bench = Bench::ready();
    assert_eq!(bench.tell(Message::WakeReconnect), (vec![], None));
    bench.tell(Message::CallbackError {
        connection_generation: 1,
        error: "读取失败".to_owned(),
    });
    bench.reply(Reply::Outcome(None));
    bench.reply(Reply::Closed(clean_close()));
    assert_eq!(
        bench.snapshot.last_error.as_deref(),
        Some("读取失败；将在 2 秒后进行第 1 次重连")
    );
    assert_eq!(bench.deadline_ms(), Some(3_000));
    bench.now_ms = 1_500;
    assert_eq!(
        bench.tell(Message::WakeReconnect),
        (vec![Command::Log(Note::WakeReconnect)], None)
    );
    assert_eq!(bench.deadline_ms(), Some(1_500));
    assert_eq!(bench.snapshot.reconnect_attempt, 0);
}

#[test]
fn stale_messages_are_ignored() {
    let mut bench = Bench::streaming();
    let before = bench.snapshot.copy();
    for message in [
        Message::Control { connection_generation: 0, bytes: vec![1] },
        Message::Audio { connection_generation: 2, bytes: vec![1] },
        Message::ConnectionChanged {
            connection_generation: 0,
            status: LinkStatus::Disconnected,
        },
        Message::CallbackError { connection_generation: 9, error: "x".to_owned() },
        Message::ConnectionChanged { connection_generation: 1, status: LinkStatus::Connected },
    ] {
        assert_eq!(bench.tell(message), (vec![], None));
    }
    assert_eq!(bench.snapshot, before);
    assert_eq!(bench.reply(Reply::Slept), (vec![], None));
}

#[test]
fn a_stop_while_nothing_streams_is_not_decoded() {
    let mut bench = Bench::ready();
    assert_eq!(
        bench.tell(Message::Control { connection_generation: 1, bytes: vec![0x00, 9] }),
        (vec![], None)
    );
    assert_eq!(
        bench.tell(Message::Control { connection_generation: 1, bytes: vec![] }),
        (vec![], Some(Query::DecodeControl(vec![])))
    );
}

#[test]
fn unreadable_capabilities_fail_the_connection() {
    let mut bench = Bench::new();
    bench.tell(Message::Connect { device_id: "device".to_owned() });
    bench.set_up();
    bench.tell(Message::Control { connection_generation: 1, bytes: vec![0x0B] });
    let (out, ask) = bench.reply(Reply::DecodeFailed("能力无效".to_owned()));
    assert_eq!(ask, Some(Query::InterruptAudio));
    assert_eq!(out, vec![Command::SetRemoteGate(false), Command::SetSessionActive(false)]);
    bench.reply(Reply::Outcome(None));
    bench.reply(Reply::Closed(clean_close()));
    assert_eq!(
        bench.snapshot.last_error.as_deref(),
        Some("能力无效；将在 2 秒后进行第 1 次重连")
    );

    let mut bench = Bench::ready();
    bench.tell(Message::Control { connection_generation: 1, bytes: vec![0x77] });
    assert_eq!(bench.reply(Reply::DecodeFailed("未知".to_owned())), (vec![], None));
    assert_eq!(bench.snapshot.phase, ConnectionPhase::Ready);
    assert_eq!(bench.snapshot.last_error.as_deref(), Some("未知"));
}

#[test]
fn the_microphone_is_opened_once() {
    let mut bench = Bench::ready();
    let (_, ask) = bench.control(1, PipelineOutput::MicrophoneOpenRequested);
    assert_eq!(ask, Some(Query::OpenMicrophone { version: 0x0100, codec: 2 }));
    bench.reply(Reply::Written(WriteOutcome::Unencodable));
    assert_eq!(bench.snapshot.last_error.as_deref(), Some("无法编码 MIC_OPEN"));
    bench.control(1, PipelineOutput::MicrophoneOpenRequested);
    bench.reply(Reply::Written(WriteOutcome::Failed(Failure::Gatt("状态 1".to_owned()))));
    assert_eq!(bench.snapshot.last_error.as_deref(), Some("状态 1"));
    bench.control(1, PipelineOutput::MicrophoneOpenRequested);
    bench.reply(Reply::Written(WriteOutcome::Sent));
    let (_, ask) = bench.control(1, PipelineOutput::MicrophoneOpenRequested);
    assert_eq!(ask, None);
}

#[test]
fn a_voice_session_runs_from_start_to_stop() {
    let mut bench = Bench::ready();
    bench.hotkey = Some(vec![KeyCode::LeftControl, KeyCode::LeftWindows]);
    bench.pipeline.state = VoiceSessionState::Streaming;
    bench.pipeline.session_id = Some(7);
    let turn = bench.control(1, PipelineOutput::StreamStarted { session_id: 7, generation: 3 });
    assert_eq!(
        turn,
        (
            vec![
                Command::PublishEpoch(1),
                Command::SetSessionActive(true),
                Command::ReleaseStuckF5
            ],
            Some(Query::Sleep { millis: 20 })
        )
    );
    assert_eq!(bench.reply(Reply::Slept), (vec![], Some(Query::ReadMicrophone)));
    let baseline = Some(MicObservation { handle: 40 });
    assert_eq!(
        bench.reply(Reply::Reading(baseline)),
        (vec![], Some(Query::ActivateWeType))
    );
    assert_eq!(
        bench.reply(Reply::Outcome(Some("激活失败".to_owned()))),
        (vec![], Some(Query::PressChord(default_chord())))
    );
    assert_eq!(bench.snapshot.last_error.as_deref(), Some("激活失败"));
    assert_eq!(
        bench.reply(Reply::Outcome(None)),
        (
            vec![
                Command::Log(Note::ChordPressed { session_id: 7 }),
                Command::WatchWeType { attempt: 0, epoch: 1, baseline },
            ],
            Some(Query::BeginAudio { generation: 3 })
        )
    );
    assert_eq!(
        bench.reply(Reply::Outcome(None)),
        (vec![Command::SetRemoteGate(true)], None)
    );
    assert_eq!(bench.snapshot.phase, ConnectionPhase::Streaming);
    assert_eq!(bench.snapshot.voice_state, VoiceSessionState::Streaming);
    assert_eq!(bench.snapshot.generation, 3);
    assert_eq!(bench.snapshot.last_error.as_deref(), Some("激活失败"));

    for _ in 0..2 {
        bench.tell(Message::Audio { connection_generation: 1, bytes: vec![5, 6] });
        assert_eq!(
            bench.reply(Reply::Outcome(None)),
            (vec![], Some(Query::DecodeAudio(vec![5, 6])))
        );
        assert_eq!(
            bench.reply(Reply::Decoded(PipelineOutput::Samples {
                generation: 3,
                samples: vec![1, 2, 3]
            })),
            (
                vec![],
                Some(Query::EnqueueSamples { generation: 3, samples: vec![1, 2, 3] })
            )
        );
        assert_eq!(bench.reply(Reply::Outcome(None)), (vec![], None));
    }
    assert_eq!(bench.snapshot.decoded_samples, 6);

    let turn = bench.control(1, PipelineOutput::StreamStopped { generation: 3 });
    assert_eq!(
        turn,
        (
            vec![
                Command::SetSessionActive(false),
                Command::ReleaseHeldChord(default_chord()),
                Command::SetRemoteGate(true),
            ],
            Some(Query::FinishAudio { generation: 3 })
        )
    );
    assert_eq!(bench.snapshot.phase, ConnectionPhase::Draining);
    assert_eq!(
        bench.reply(Reply::Outcome(None)),
        (vec![], Some(Query::CompleteDrain { generation: 3 }))
    );
    assert_eq!(
        bench.reply(Reply::Outcome(None)),
        (vec![Command::RecordUsage(6), Command::SetRemoteGate(true)], None)
    );
    assert_eq!(bench.snapshot.phase, ConnectionPhase::Ready);
    assert_eq!(bench.snapshot.voice_state, VoiceSessionState::Idle);
    assert_eq!(bench.deadline_ms(), None);
}

#[test]
fn another_chord_is_pressed_without_activating_wetype() {
    let mut bench = Bench::ready();
    bench.hotkey = Some(vec![KeyCode::LeftWindows, KeyCode::Other(0x48)]);
    bench.pipeline.state = VoiceSessionState::Streaming;
    bench.control(1, PipelineOutput::StreamStarted { session_id: 7, generation: 3 });
    bench.reply(Reply::Slept);
    let chord = || Chord { keys: vec![KeyCode::LeftWindows, KeyCode::Other(0x48)] };
    assert_eq!(
        bench.reply(Reply::Reading(None)),
        (
            vec![Command::Log(Note::ActivationSkippedCustomHotkey)],
            Some(Query::PressChord(chord()))
        )
    );
    assert_eq!(
        bench.reply(Reply::Outcome(None)),
        (
            vec![Command::Log(Note::ChordPressed { session_id: 7 })],
            Some(Query::BeginAudio { generation: 3 })
        )
    );
}

#[test]
fn without_a_chord_only_the_audio_starts() {
    let mut bench = Bench::ready();
    bench.pipeline.state = VoiceSessionState::Streaming;
    bench.control(1, PipelineOutput::StreamStarted { session_id: 7, generation: 3 });
    assert_eq!(
        bench.reply(Reply::Slept),
        (
            vec![Command::Log(Note::ChordPressSkipped { session_id: 7 })],
            Some(Query::BeginAudio { generation: 3 })
        )
    );
}

#[test]
fn a_press_that_fails_aborts_the_session() {
    let mut bench = Bench::ready();
    bench.hotkey = Some(vec![KeyCode::LeftControl, KeyCode::LeftWindows]);
    bench.pipeline.state = VoiceSessionState::Streaming;
    bench.pipeline.session_id = Some(7);
    bench.control(1, PipelineOutput::StreamStarted { session_id: 7, generation: 3 });
    bench.reply(Reply::Slept);
    bench.reply(Reply::Reading(None));
    bench.reply(Reply::Outcome(None));
    assert_eq!(
        bench.reply(Reply::Outcome(Some("被拒绝".to_owned()))),
        (
            vec![
                Command::Log(Note::ChordPressFailed { session_id: 7 }),
                Command::SetSessionActive(false),
            ],
            Some(Query::CloseMicrophone { version: 0x0100, session_id: 7 })
        )
    );
    assert_eq!(
        bench.reply(Reply::Written(WriteOutcome::Sent)),
        (
            vec![
                Command::InterruptAudio,
                Command::InterruptPipeline,
                Command::SetRemoteGate(true)
            ],
            None
        )
    );
    assert_eq!(bench.snapshot.phase, ConnectionPhase::Ready);
    assert_eq!(
        bench.snapshot.last_error.as_deref(),
        Some("按住说话快捷键注入失败：被拒绝")
    );
}

#[test]
fn audio_that_fails_to_begin_or_to_finish_aborts_the_session() {
    let mut bench = Bench::ready();
    bench.pipeline.state = VoiceSessionState::Streaming;
    bench.control(1, PipelineOutput::StreamStarted { session_id: 7, generation: 3 });
    bench.reply(Reply::Slept);
    let (out, ask) = bench.reply(Reply::Outcome(Some("设备被占用".to_owned())));
    assert_eq!(ask, Some(Query::CloseMicrophone { version: 0x0100, session_id: 7 }));
    assert_eq!(out[0], Command::Log(Note::AudioBeginFailed { session_id: 7 }));
    bench.reply(Reply::Written(WriteOutcome::Failed(Failure::OperationTimedOut)));
    assert_eq!(bench.snapshot.last_error.as_deref(), Some("设备被占用"));
    assert_eq!(bench.snapshot.phase, ConnectionPhase::Ready);

    let mut bench = Bench::streaming();
    bench.control(1, PipelineOutput::StreamStopped { generation: 3 });
    let (out, ask) = bench.reply(Reply::Outcome(Some("排空失败".to_owned())));
    assert_eq!(ask, None);
    assert_eq!(
        out,
        vec![
            Command::SetSessionActive(false),
            Command::InterruptAudio,
            Command::InterruptPipeline,
            Command::SetRemoteGate(true),
        ]
    );
    assert_eq!(bench.snapshot.last_error.as_deref(), Some("排空失败"));

    let mut bench = Bench::streaming();
    bench.control(1, PipelineOutput::StreamStopped { generation: 3 });
    bench.reply(Reply::Outcome(None));
    assert_eq!(bench.reply(Reply::Outcome(Some("代次不符".to_owned()))), (vec![], None));
    assert_eq!(bench.snapshot.phase, ConnectionPhase::Draining);
    assert_eq!(bench.snapshot.last_error.as_deref(), Some("代次不符"));
}

#[test]
fn broken_audio_output_aborts_the_session() {
    let mut bench = Bench::streaming();
    bench.tell(Message::Audio { connection_generation: 1, bytes: vec![5] });
    let (out, ask) = bench.reply(Reply::Outcome(Some("端点丢失".to_owned())));
    assert_eq!(ask, Some(Query::CloseMicrophone { version: 0x0100, session_id: 7 }));
    assert_eq!(
        out,
        vec![Command::SetSessionActive(false), Command::ReleaseHeldChord(default_chord())]
    );
    bench.reply(Reply::Written(WriteOutcome::Unencodable));
    assert_eq!(bench.snapshot.phase, ConnectionPhase::Ready);
    assert_eq!(bench.snapshot.last_error.as_deref(), Some("端点丢失"));

    let mut bench = Bench::streaming();
    bench.tell(Message::Audio { connection_generation: 1, bytes: vec![5] });
    bench.reply(Reply::Outcome(None));
    bench.reply(Reply::Decoded(PipelineOutput::Samples { generation: 3, samples: vec![1] }));
    let (_, ask) = bench.reply(Reply::Outcome(Some("队列已满".to_owned())));
    assert_eq!(ask, Some(Query::CloseMicrophone { version: 0x0100, session_id: 7 }));

    let mut bench = Bench::streaming();
    bench.tell(Message::Audio { connection_generation: 1, bytes: vec![5] });
    bench.reply(Reply::Outcome(None));
    assert_eq!(bench.reply(Reply::DecodeFailed("帧损坏".to_owned())), (vec![], None));
    assert_eq!(bench.snapshot.last_error.as_deref(), Some("帧损坏"));
    bench.pipeline.state = VoiceSessionState::Idle;
    assert_eq!(
        bench.tell(Message::Audio { connection_generation: 1, bytes: vec![5] }),
        (vec![], None)
    );
}

#[test]
fn streams_are_extended_in_time() {
    let mut bench = Bench::streaming();
    assert_eq!(bench.deadline_ms(), Some(3_500));
    bench.now_ms = 3_600;
    assert_eq!(
        bench.timeout(),
        (vec![], Some(Query::ExtendMicrophone { version: 0x0100, session_id: 7 }))
    );
    bench.now_ms = 3_700;
    assert_eq!(bench.reply(Reply::Written(WriteOutcome::Sent)), (vec![], None));
    assert_eq!(bench.deadline_ms(), Some(6_100));
    bench.now_ms = 6_100;
    bench.timeout();
    bench.reply(Reply::Written(WriteOutcome::Failed(Failure::Gatt("状态 3".to_owned()))));
    assert_eq!(
        bench.snapshot.last_error.as_deref(),
        Some("发送 MIC_EXTEND 失败：状态 3")
    );
    assert_eq!(bench.deadline_ms(), None);

    let mut bench = Bench::streaming();
    bench.now_ms = 3_500;
    bench.timeout();
    assert_eq!(bench.reply(Reply::Written(WriteOutcome::Unencodable)), (vec![], None));
    assert_eq!(bench.deadline_ms(), None);

    let mut bench = Bench::streaming();
    bench.now_ms = 3_500;
    bench.pipeline.state = VoiceSessionState::Idle;
    assert_eq!(bench.timeout(), (vec![], None));
    assert_eq!(bench.deadline_ms(), None);
}

#[test]
fn the_chord_is_pressed_again_only_when_it_was_not_heard() {
    let baseline = Some(MicObservation { handle: 40 });
    let retry = || Message::RetryVoiceChord { attempt: 1, epoch: 1, baseline };
    let mut bench = Bench::streaming();
    assert_eq!(
        bench.tell(Message::RetryVoiceChord { attempt: 1, epoch: 2, baseline }),
        (vec![Command::Log(Note::RetryStale { epoch: 2 })], None)
    );
    assert_eq!(bench.tell(retry()), (vec![], Some(Query::CompareMicrophone { baseline })));
    let reading = Some(MicObservation { handle: 41 });
    for response in [MicResponse::Observed, MicResponse::Unknown] {
        assert_eq!(
            bench.reply(Reply::Compared { reading, response }),
            (vec![Command::Log(Note::RetryMicActive { epoch: 1 })], None)
        );
        bench.tell(retry());
    }
    assert_eq!(
        bench.reply(Reply::Compared { reading, response: MicResponse::NotObserved }),
        (vec![], Some(Query::ReleaseChord(default_chord())))
    );
    assert_eq!(
        bench.reply(Reply::Outcome(Some("失败".to_owned()))),
        (vec![Command::Log(Note::RetryReleaseFailed { epoch: 1 })], None)
    );
    bench.tell(retry());
    bench.reply(Reply::Compared { reading, response: MicResponse::NotObserved });
    assert_eq!(
        bench.reply(Reply::Outcome(None)),
        (vec![], Some(Query::PressChord(default_chord())))
    );
    assert_eq!(
        bench.reply(Reply::Outcome(None)),
        (
            vec![
                Command::Log(Note::RetryPressed { attempt: 1, epoch: 1 }),
                Command::WatchWeType { attempt: 1, epoch: 1, baseline: reading },
            ],
            None
        )
    );
    bench.tell(retry());
    bench.reply(Reply::Compared { reading, response: MicResponse::NotObserved });
    bench.reply(Reply::Outcome(None));
    assert_eq!(
        bench.reply(Reply::Outcome(Some("失败".to_owned()))),
        (vec![Command::Log(Note::RetryPressFailed { attempt: 1, epoch: 1 })], None)
    );
    bench.tell(retry());
    assert_eq!(
        bench.reply(Reply::Compared { reading, response: MicResponse::NotObserved }),
        (vec![Command::Log(Note::RetryNoChord)], None)
    );
}

#[test]
fn shutting_down_releases_everything_and_is_final() {
    let mut bench = Bench::streaming();
    assert_eq!(
        bench.tell(Message::Shutdown),
        (
            vec![
                Command::SetSessionActive(false),
                Command::ReleaseHeldChord(default_chord()),
                Command::InterruptAudio,
                Command::DropSession,
                Command::InterruptPipeline,
            ],
            None
        )
    );
    assert!(bench.worker.stopped());
    assert_eq!(
        bench.tell(Message::Connect { device_id: "device".to_owned() }),
        (vec![], None)
    );
}

#[test]
fn sleep_releases_the_chord_and_the_connection() {
    let mut bench = Bench::streaming();
    assert_eq!(
        bench.tell(Message::SystemSuspended),
        (
            vec![
                Command::SetSessionActive(false),
                Command::ReleaseHeldChord(default_chord())
            ],
            Some(Query::InterruptAudio)
        )
    );
    bench.reply(Reply::Outcome(None));
    let (out, _) = bench.reply(Reply::Closed(clean_close()));
    assert_eq!(out.last(), Some(&Command::SetRemoteGate(false)));
    assert_eq!(bench.snapshot.phase, ConnectionPhase::Suspended);
    assert_eq!(bench.snapshot.remote_name.as_deref(), Some("小米语音遥控器"));
}

#[test]
fn every_voice_session_has_its_own_number() {
    let mut bench = Bench::streaming();
    bench.control(1, PipelineOutput::StreamStopped { generation: 3 });
    bench.reply(Reply::Outcome(None));
    bench.reply(Reply::Outcome(None));
    let (out, _) = bench.control(1, PipelineOutput::StreamStarted { session_id: 8, generation: 4 });
    assert_eq!(out[0], Command::PublishEpoch(2));
}

#[test]
fn a_lost_link_without_a_wanted_device_is_only_reported() {
    let mut bench = Bench::new();
    bench.tell(Message::ConnectionChanged {
        connection_generation: 0,
        status: LinkStatus::Disconnected,
    });
    let (out, ask) = bench.reply(Reply::Outcome(None));
    assert_eq!(ask, None);
    assert_eq!(out.last(), Some(&Command::SetRemoteGate(false)));
    assert_eq!(bench.snapshot.phase, ConnectionPhase::Disconnected);
    assert_eq!(
        bench.snapshot.last_error.as_deref(),
        Some("小米语音遥控器蓝牙连接已断开")
    );
    bench.tell(Message::CallbackError {
        connection_generation: 1,
        error: "读取失败".to_owned(),
    });
    bench.reply(Reply::Outcome(None));
    assert_eq!(bench.snapshot.phase, ConnectionPhase::Failed);
    assert_eq!(bench.snapshot.last_error.as_deref(), Some("读取失败"));
    assert_eq!(bench.deadline_ms(), None);
}

/// Numbers without a pattern.
struct Dice(u64, u64);

impl Dice {
    fn roll(&mut self, sides: u64) -> u64 {
        self.0 = self.0.wrapping_mul(6_364_136_223_846_793_005).wrapping_add(1_442_695_040_888_963_407);
        (self.0 >> 33) % sides
    }

    fn error(&mut self) -> Option<String> {
        if self.roll(4) == 0 {
            Some("坏了".to_owned())
        } else {
            None
        }
    }

    fn message(&mut self) -> WorkerMessage {
        let generation = if self.roll(4) == 0 { self.roll(9) } else { self.1 };
        match self.roll(40) {
            0 => Message::Connect { device_id: "device".to_owned() },
            1 => Message::Disconnect,
            2 => Message::Restore { device_id: "device".to_owned() },
            3 => Message::WakeReconnect,
            4 => Message::RetryVoiceChord { attempt: 1, epoch: self.roll(9), baseline: None },
            5 => Message::ConnectionChanged {
                connection_generation: generation,
                status: LinkStatus::Disconnected,
            },
            6 => Message::CallbackError {
                connection_generation: generation,
                error: "读取失败".to_owned(),
            },
            7 => Message::SystemSuspended,
            8 => Message::SystemResumed,
            9 => Message::Audio { connection_generation: generation, bytes: vec![1] },
            _ => Message::Control { connection_generation: generation, bytes: vec![4] },
        }
    }

    fn reply(&mut self, query: HostQuery) -> WorkerReply {
        if let Query::Subscribe { generation, .. } = query {
            self.1 = generation;
        }
        match query {
            Query::CloseSession => {
                let mut report = clean_close();
                report.device = self.error();
                Reply::Closed(report)
            }
            Query::ReadName => Reply::Named {
                name: "遥控器".to_owned(),
                model: RemoteModel::Unknown,
            },
            Query::ReadModel => Reply::Model(None),
            Query::OpenDevice { .. }
            | Query::FindService
            | Query::FindCharacteristic(_)
            | Query::Subscribe { .. }
            | Query::WatchLink { .. }
            | Query::RequestCapabilities => Reply::Attempted(if self.roll(12) == 0 {
                Some(Failure::VoiceServiceMissing)
            } else {
                None
            }),
            Query::ConsultRadioPolicy { .. } => Reply::RadioPolicy { due: true, limit: 2 },
            Query::ExtendMicrophone { .. }
            | Query::OpenMicrophone { .. }
            | Query::CloseMicrophone { .. } => Reply::Written(WriteOutcome::Sent),
            Query::ReadMicrophone => Reply::Reading(None),
            Query::CompareMicrophone { .. } => Reply::Compared {
                reading: None,
                response: MicResponse::NotObserved,
            },
            Query::DecodeControl(_) => match self.roll(5) {
                0 => Reply::Decoded(PipelineOutput::Ready(CAPABILITIES)),
                1 => Reply::Decoded(PipelineOutput::StreamStarted {
                    session_id: 7,
                    generation: 3,
                }),
                2 => Reply::Decoded(PipelineOutput::StreamStopped { generation: 3 }),
                3 => Reply::Decoded(PipelineOutput::MicrophoneOpenRequested),
                _ => Reply::DecodeFailed("无效".to_owned()),
            },
            Query::DecodeAudio(_) => Reply::Decoded(PipelineOutput::Samples {
                generation: 3,
                samples: vec![1, 2],
            }),
            Query::Sleep { .. } => Reply::Slept,
            _ => Reply::Outcome(self.error()),
        }
    }
}

#[test]
fn the_laws_hold_in_a_long_run() {
    let mut bench = Bench::new();
    bench.hotkey = Some(vec![KeyCode::LeftControl, KeyCode::LeftWindows]);
    bench.pipeline.capabilities = Some(CAPABILITIES);
    bench.pipeline.session_id = Some(7);
    let mut dice = Dice(2026, 0);
    let mut gate = false;
    let mut requests = 0;
    let mut answers = 0;
    let mut down = false;
    let mut wanted = false;
    let mut asleep = false;
    let mut epoch = 0;
    for _ in 0..20_000 {
        bench.now_ms += dice.roll(3_000);
        bench.pipeline.state = if dice.roll(2) == 0 {
            VoiceSessionState::Idle
        } else {
            VoiceSessionState::Streaming
        };
        let mut event = if dice.roll(3) == 0 {
            Event::Timeout
        } else {
            Event::Message(dice.message())
        };
        match &event {
            Event::Message(Message::Connect { .. }) => {
                (wanted, asleep) = (true, false);
                requests += 1;
            }
            Event::Message(Message::Restore { .. }) => {
                wanted = true;
                requests += 1;
            }
            Event::Message(Message::Disconnect) => {
                (wanted, asleep) = (false, false);
                requests += 1;
            }
            Event::Message(Message::SystemSuspended) => asleep = true,
            Event::Message(Message::SystemResumed) => asleep = false,
            _ => {}
        }
        loop {
            let (out, ask) = bench.step(event);
            for command in out {
                match command {
                    Command::SetRemoteGate(online) => gate = online,
                    Command::Answer(_) => answers += 1,
                    Command::ReleaseHeldChord(_) => {
                        assert!(down);
                        down = false;
                    }
                    Command::PublishEpoch(number) => {
                        epoch += 1;
                        assert_eq!(number, epoch);
                    }
                    _ => {}
                }
            }
            assert_eq!(
                gate,
                sayall_windows::snapshot::gate_remote_connected(bench.snapshot.phase)
            );
            match ask {
                None => break,
                Some(query) => {
                    let pressed = matches!(query, Query::PressChord(_));
                    let released = matches!(query, Query::ReleaseChord(_));
                    let reply = dice.reply(query);
                    if reply == Reply::Outcome(None) {
                        down = (down || pressed) && !released;
                    }
                    event = Event::Reply(reply);
                }
            }
        }
        assert_eq!(answers, requests);
        if wanted && !asleep {
            let offline = [
                ConnectionPhase::Reconnecting,
                ConnectionPhase::Disconnected,
                ConnectionPhase::Suspended,
                ConnectionPhase::Connecting,
                ConnectionPhase::Discovering,
            ];
            if offline.contains(&bench.snapshot.phase) {
                assert!(bench.deadline_ms().is_some());
            }
        }
    }
    assert!(requests > 100 && epoch > 10);
}

#[test]
fn one_error_makes_a_close_unclean() {
    assert!(is_clean(&clean_close()));
    assert_eq!(close_error_text(clean_close()), None);
    let mut report = clean_close();
    report.service = Some("忙".to_owned());
    assert!(!is_clean(&report));
    assert_eq!(close_error_text(report).as_deref(), Some("关闭 GATT service：忙"));
}

#[test]
fn a_started_session_shows_its_own_hint_and_no_older_error() {
    let mut bench = Bench::ready();
    bench.snapshot.last_error = Some("旧错误".to_owned());
    bench.hotkey = Some(vec![KeyCode::LeftControl, KeyCode::LeftWindows]);
    bench.pipeline.state = VoiceSessionState::Streaming;
    bench.pipeline.session_id = Some(7);
    let start = |bench: &mut Bench, activation: Option<String>| {
        bench.control(1, PipelineOutput::StreamStarted { session_id: 7, generation: 3 });
        bench.reply(Reply::Slept);
        bench.reply(Reply::Reading(None));
        let (_, ask) = bench.reply(Reply::Outcome(activation));
        assert_eq!(ask, Some(Query::PressChord(default_chord())));
        bench.reply(Reply::Outcome(None));
        bench.reply(Reply::Outcome(None));
        assert_eq!(bench.snapshot.phase, ConnectionPhase::Streaming);
    };
    start(&mut bench, None);
    assert_eq!(bench.snapshot.last_error, None);
    start(&mut bench, Some("激活微信输入法超时（500ms）".to_owned()));
    assert_eq!(
        bench.snapshot.last_error.as_deref(),
        Some("激活微信输入法超时（500ms）")
    );
    start(&mut bench, None);
    assert_eq!(bench.snapshot.last_error, None);
}
