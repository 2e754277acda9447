use sayall_windows::diagnostics::{
    note_line, packet_line, DiagnosticLogMetadata, Note, PacketKind,
};
use sayall_windows::error::Failure;
use sayall_windows::gatt::{
    characteristic_uuid, check_characteristic, check_service, choose_descriptor,
    conclude_subscription, exactly_one, has_property, link_status, notify, require_success,
    write_mode, Abandoned, Descriptor, WriteMode,
};
use sayall_windows::ime::{
    before_activation, conclude_activation, conclude_cycle, find_alternative,
    foreground_is_self, process_name,
    CycleProfile, EnsureWeType, HostImeEvent, ImeEvent, ImeQuery, ImeTurn, Joined, Profile,
    ProfileId, WeTypeActivation, WETYPE_CLSID, WETYPE_PROFILE,
};
use sayall_windows::protocol::{
    Channel, Characteristic, LinkStatus, Message, MicObservation, MicResponse,
};
use sayall_windows::request::{conclude_request, Received};
use sayall_windows::snapshot::{ConnectionPhase, ConnectionSnapshot};
use sayall_windows::text::{decimal, hex_byte, hex_word, join, padded, signed, signed_padded};
use sayall_windows::wetype::{Check, CheckEvent, CheckQuery, CheckStage};

fn gatt(text: &str) -> Failure<String> {
    Failure::Gatt(text.to_owned())
}

#[test]
fn numbers_are_written_as_usual() {
    assert_eq!(decimal(0), "0");
    assert_eq!(decimal(u64::MAX), "18446744073709551615");
    assert_eq!(padded(7, 3), "007");
    assert_eq!(padded(1234, 3), "1234");
    assert_eq!(signed(-12), "-12");
    assert_eq!(signed(i64::MIN), "-9223372036854775808");
    assert_eq!(signed_padded(-5, 4), "-005");
    assert_eq!(hex_byte(0xAF), "AF");
    assert_eq!(hex_word(0x00C0FFEE), "00C0FFEE");
    assert_eq!(join(&vec![], "；"), "");
    assert_eq!(
        join(&vec!["a".to_owned(), "b".to_owned(), "c".to_owned()], "；"),
        "a；b；c"
    );
}

#[test]
fn properties_are_bits() {
    assert!(has_property(0b10100, 16));
    assert!(!has_property(0b10100, 32));
    assert_eq!(write_mode(4 | 8), WriteMode::WithoutResponse);
    assert_eq!(write_mode(8), WriteMode::WithResponse);
}

#[test]
fn every_status_but_success_is_a_failure() {
    assert_eq!(require_success(0, "写入 ATVV 控制命令"), Ok(()));
    assert_eq!(
        require_success(3, "写入 ATVV 控制命令"),
        Err(gatt("写入 ATVV 控制命令返回状态 3"))
    );
    assert_eq!(require_success(-1, "操作"), Err(gatt("操作返回状态 -1")));
}

#[test]
fn searches_have_to_find_exactly_one() {
    assert_eq!(check_service(0, 1), Ok(()));
    assert_eq!(check_service(0, 0), Err(Failure::VoiceServiceMissing));
    assert_eq!(check_service(0, 2), Err(Failure::VoiceServiceMissing));
    assert_eq!(check_service(1, 1), Err(gatt("发现 ATVV 服务返回状态 1")));
    assert_eq!(check_characteristic(Characteristic::Audio, 0, 1), Ok(()));
    for (which, label) in [
        (Characteristic::Transmit, "transmit"),
        (Characteristic::Audio, "audio"),
        (Characteristic::Control, "control"),
    ] {
        assert_eq!(
            check_characteristic(which, 0, 0),
            Err(Failure::VoiceCharacteristicMissing(label.to_owned()))
        );
    }
    assert_eq!(
        check_characteristic(Characteristic::Control, 2, 1),
        Err(gatt("发现 ATVV 特征返回状态 2"))
    );
    assert!(exactly_one(0, 1));
    assert!(!exactly_one(0, 3));
    assert!(!exactly_one(1, 1));
    assert_eq!(
        characteristic_uuid(Characteristic::Transmit),
        0xab5e00025a214f05bc7daf01f617b664
    );
    assert_eq!(
        characteristic_uuid(Characteristic::Audio),
        0xab5e00035a214f05bc7daf01f617b664
    );
    assert_eq!(
        characteristic_uuid(Characteristic::Control),
        0xab5e00045a214f05bc7daf01f617b664
    );
}

#[test]
fn notifications_are_preferred_over_indications() {
    assert_eq!(choose_descriptor(Ok(16 | 32)), Ok(Descriptor::Notify));
    assert_eq!(choose_descriptor(Ok(32)), Ok(Descriptor::Indicate));
    assert_eq!(
        choose_descriptor(Ok(2)),
        Err(Abandoned { remove_handler: true, error: gatt("特征不支持 Notify 或 Indicate") })
    );
    assert_eq!(
        choose_descriptor(Err(gatt("x"))),
        Err(Abandoned { remove_handler: false, error: gatt("x") })
    );
    assert_eq!(conclude_subscription(Ok(0)), Ok(()));
    assert_eq!(
        conclude_subscription(Ok(1)),
        Err(Abandoned { remove_handler: true, error: gatt("订阅 GATT 通知返回状态 1") })
    );
    assert_eq!(
        conclude_subscription(Err(gatt("y"))),
        Err(Abandoned { remove_handler: false, error: gatt("y") })
    );
}

#[test]
fn packets_become_messages() {
    let audio = notify(Channel::Audio, 4, Ok(vec![1, 2]));
    assert_eq!(audio.packet, Some(PacketKind::Audio));
    assert!(!audio.arm_grace);
    assert_eq!(
        audio.message,
        Message::Audio { connection_generation: 4, bytes: vec![1, 2] }
    );
    let control = notify(Channel::Control, 4, Ok(vec![4]));
    assert_eq!(control.packet, Some(PacketKind::Control));
    assert!(control.arm_grace);
    assert_eq!(
        control.message,
        Message::Control { connection_generation: 4, bytes: vec![4] }
    );
    let broken = notify(Channel::Control, 4, Err("空缓冲".to_owned()));
    assert_eq!(broken.packet, None);
    assert!(!broken.arm_grace);
    assert_eq!(
        broken.message,
        Message::CallbackError {
            connection_generation: 4,
            error: "读取 GATT 通知失败：空缓冲".to_owned()
        }
    );
    assert_eq!(link_status(0), LinkStatus::Disconnected);
    assert_eq!(link_status(1), LinkStatus::Connected);
}

#[test]
fn requests_end_in_an_answer_or_a_reason() {
    assert_eq!(conclude_request(Received::Unsent, true), Err(Failure::WorkerUnavailable));
    assert_eq!(conclude_request(Received::Dropped, true), Err(Failure::WorkerUnavailable));
    assert_eq!(conclude_request(Received::TimedOut, true), Err(Failure::OperationTimedOut));
    assert_eq!(conclude_request(Received::Answered(Err(gatt("z"))), true), Err(gatt("z")));
    let mut expected = ConnectionSnapshot::default();
    expected.phase = ConnectionPhase::Ready;
    expected.power_notifications_available = true;
    let mut answer = ConnectionSnapshot::default();
    answer.phase = ConnectionPhase::Ready;
    assert_eq!(conclude_request(Received::Answered(Ok(answer)), true), Ok(expected));
}

fn metadata() -> Option<DiagnosticLogMetadata> {
    Some(DiagnosticLogMetadata {
        app_version: "0.2.6".to_owned(),
        app_build: "77".to_owned(),
        source_revision: "abc".to_owned(),
        build_channel: "beta".to_owned(),
        release_tag: "v0.2.6".to_owned(),
    })
}

#[test]
fn log_lines_say_where_they_come_from() {
    assert_eq!(
        note_line("T", 12, &metadata(), "x=1"),
        "T pid=12 ver=0.2.6 build=77 source_revision=abc build_channel=beta release_tag=v0.2.6 x=1"
    );
    assert_eq!(
        note_line("T", 12, &None, "x=1"),
        "T pid=12 ver=unknown build=unknown source_revision=unknown build_channel=unknown release_tag=unknown x=1"
    );
}

#[test]
fn packets_are_previewed_and_audio_is_never_logged() {
    let bytes: Vec<u8> = (0..30).collect();
    assert_eq!(
        packet_line("T", 12, &metadata(), PacketKind::Control, &bytes).unwrap(),
        "T pid=12 ver=0.2.6 build=77 component=gatt event=packet direction=C byte_count=30 preview=[00 01 02 03 04 05 06 07 08 09 0A 0B 0C 0D 0E 0F 10 11 12 13 14 15 16 17]"
    );
    assert_eq!(
        packet_line("T", 12, &None, PacketKind::Transmit, &[0x0A]).unwrap(),
        "T pid=12 ver=unknown build=unknown component=gatt event=packet direction=T byte_count=1 preview=[0A]"
    );
    assert_eq!(
        packet_line("T", 12, &None, PacketKind::Transmit, &[]).unwrap(),
        "T pid=12 ver=unknown build=unknown component=gatt event=packet direction=T byte_count=0 preview=[]"
    );
    assert_eq!(packet_line("T", 12, &metadata(), PacketKind::Audio, &bytes), None);
}

#[test]
fn notes_have_fixed_texts() {
    let baseline_available = true;
    let notes = [
        (Note::WakeReconnect, "wake_reconnect triggered=hidi backoff_reset=true"),
        (Note::RetryStale { epoch: 2 }, "chord_retry skipped reason=stale epoch=2"),
        (
            Note::RetryPressFailed { attempt: 1, epoch: 2 },
            "chord_retry result=err attempt=1 epoch=2 error_domain=send_input error_code=retry_failed reason=injection_failed retryable=true",
        ),
        (Note::ChordPressed { session_id: 9 }, "chord_press result=ok session=9 gap_ms=80"),
        (
            Note::ChordReleased { ok: true },
            "chord_release result=ok error_domain=none error_code=none reason=released retryable=false",
        ),
        (
            Note::ChordReleased { ok: false },
            "chord_release result=err error_domain=send_input error_code=release_failed reason=backend_rejected retryable=true",
        ),
        (
            Note::ActivationEnded {
                outcome: Some(WeTypeActivation::Switched),
                elapsed_ms: 61,
                foreground_observed: true,
            },
            "ime_activation outcome=switched elapsed_ms=61 foreground_observed=true error_domain=none error_code=none retryable=false",
        ),
        (
            Note::ActivationEnded { outcome: None, elapsed_ms: 500, foreground_observed: false },
            "ime_activation outcome=failed elapsed_ms=500 foreground_observed=false error_domain=tsf error_code=activation_failed retryable=true",
        ),
        (
            Note::ImeQueried { ok: true, active_is_wetype: false, active_profile_present: true },
            "ime_query ok=true active_is_wetype=false active_profile_present=true",
        ),
        (
            Note::CheckArmed { attempt: 0, epoch: 5, baseline_available },
            "wetype_check armed attempt=0 epoch=5 baseline_available=true",
        ),
        (Note::CheckExhausted, "wetype_check final=not_reacted attempts=3"),
        (
            Note::Revived { ok: false, attempt: 2, epoch: 5 },
            "wetype_revive result=err attempt=2 epoch=5",
        ),
        (
            Note::ThroughputRequested { ok: true },
            "conn_params result=ok mode=throughput_optimized",
        ),
    ];
    for (note, text) in notes {
        assert_eq!(note.text(), text);
    }
}

#[test]
fn a_dormant_input_method_is_woken_three_times() {
    let baseline = Some(MicObservation { handle: 1 });
    let mut slept = 0;
    let mut attempt = 0;
    loop {
        let (mut check, mut turn) = Check::arm(attempt, 6, baseline);
        assert_eq!(
            turn.notes,
            vec![Note::CheckArmed { attempt, epoch: 6, baseline_available: true }]
        );
        let mut errors = Vec::new();
        let retry = loop {
            if turn.retry.is_some() {
                break turn.retry;
            }
            let event = match turn.ask {
                None => break None,
                Some(CheckQuery::Sleep { millis }) => {
                    slept += millis;
                    CheckEvent::Slept
                }
                Some(CheckQuery::Look) => CheckEvent::Looked { streaming: true, epoch: 6 },
                Some(CheckQuery::Compare { baseline: known }) => {
                    assert_eq!(known, baseline);
                    CheckEvent::Compared(MicResponse::NotObserved)
                }
                Some(CheckQuery::Revive) => CheckEvent::Revived { ok: true },
            };
            turn = check.step(event);
            errors.extend(turn.error.take());
        };
        assert_eq!(check.stage, CheckStage::Done);
        match retry {
            Some(message) => {
                assert!(errors.is_empty());
                attempt += 1;
                assert_eq!(
                    message,
                    Message::RetryVoiceChord { attempt, epoch: 6, baseline }
                );
            }
            None => {
                assert_eq!(
                    errors,
                    vec!["微信输入法热键休眠，自动唤醒重试后仍未响应。可打开一次微信输入法的任意界面（如设置页）恢复其监听后重试"]
                );
                break;
            }
        }
    }
    assert_eq!(attempt, 3);
    assert_eq!(slept, 12_800);
}

#[test]
fn checks_leave_other_sessions_and_reactions_alone() {
    let looking = || {
        let (mut check, _) = Check::arm(1, 6, None);
        check.step(CheckEvent::Slept);
        check
    };
    let last = |check: &mut Check, event: CheckEvent| {
        let turn = check.step(event);
        assert_eq!(check.stage, CheckStage::Done);
        assert_eq!((turn.ask, turn.retry, turn.error), (None, None, None));
        turn.notes
    };
    assert_eq!(
        last(&mut looking(), CheckEvent::Looked { streaming: true, epoch: 7 }),
        vec![Note::CheckSessionReplaced { epoch: 6 }]
    );
    assert_eq!(
        last(&mut looking(), CheckEvent::Looked { streaming: false, epoch: 6 }),
        vec![Note::CheckSessionEnded]
    );
    let comparing = || {
        let mut check = looking();
        check.step(CheckEvent::Looked { streaming: true, epoch: 6 });
        check
    };
    assert_eq!(
        last(&mut comparing(), CheckEvent::Compared(MicResponse::Observed)),
        vec![Note::CheckReacted { attempt: 1, epoch: 6 }]
    );
    assert_eq!(
        last(&mut comparing(), CheckEvent::Compared(MicResponse::Unknown)),
        vec![Note::CheckUnobservable { attempt: 1, epoch: 6 }]
    );
    let again = || {
        let mut check = comparing();
        check.step(CheckEvent::Compared(MicResponse::NotObserved));
        let turn = check.step(CheckEvent::Revived { ok: false });
        assert_eq!(turn.notes, vec![Note::Revived { ok: false, attempt: 1, epoch: 6 }]);
        assert_eq!(turn.ask, Some(CheckQuery::Sleep { millis: 3_000 }));
        check.step(CheckEvent::Slept);
        check
    };
    assert_eq!(
        last(&mut again(), CheckEvent::Looked { streaming: true, epoch: 7 }),
        vec![Note::CheckRetryReplaced { epoch: 6 }]
    );
    assert_eq!(
        last(&mut again(), CheckEvent::Looked { streaming: false, epoch: 6 }),
        vec![Note::CheckRetryEnded]
    );
    let mut check = again();
    check.step(CheckEvent::Looked { streaming: true, epoch: 6 });
    assert_eq!(
        last(&mut check, CheckEvent::Compared(MicResponse::Unknown)),
        vec![Note::CheckRetryMicActive { attempt: 1, epoch: 6 }]
    );
}

#[test]
fn one_s_own_window_is_recognized() {
    assert!(foreground_is_self(Some(8), 8));
    assert!(!foreground_is_self(Some(9), 8));
    assert!(!foreground_is_self(None, 8));
    assert!(!foreground_is_self(Some(0), 0));
    assert_eq!(
        before_activation(Some(8), 8),
        Some((
            WeTypeActivation::SkippedSelfForeground,
            Note::ActivationSkippedSelfForeground
        ))
    );
    assert_eq!(before_activation(Some(9), 8), None);
    assert_eq!(before_activation(None, 8), None);
    assert_eq!(before_activation(Some(0), 0), None);
    assert_eq!(
        Note::ActivationSkippedSelfForeground.text(),
        "ime_activation outcome=skipped_self_foreground elapsed_ms=0 foreground_observed=true error_domain=none error_code=foreground_is_self retryable=false"
    );
}

#[test]
fn process_names_have_no_directories() {
    assert_eq!(process_name("C:\\Program Files\\WeType/微信.exe"), "微信.exe");
    assert_eq!(process_name("explorer.exe"), "explorer.exe");
    assert_eq!(process_name("C:\\dir\\"), "");
    assert_eq!(process_name(""), "");
}

#[test]
fn activation_is_limited_in_time() {
    assert_eq!(
        conclude_activation(Joined::TimedOut, 500, true),
        (
            Err("激活微信输入法超时（500ms）".to_owned()),
            Some(Note::ActivationEnded {
                outcome: None,
                elapsed_ms: 500,
                foreground_observed: true
            })
        )
    );
    assert_eq!(
        conclude_activation(Joined::Unstarted("句柄不足".to_owned()), 1, true),
        (Err("创建激活线程失败：句柄不足".to_owned()), None)
    );
    assert_eq!(
        conclude_activation(Joined::Finished(Ok(WeTypeActivation::AlreadyActive)), 3, false),
        (
            Ok(WeTypeActivation::AlreadyActive),
            Some(Note::ActivationEnded {
                outcome: Some(WeTypeActivation::AlreadyActive),
                elapsed_ms: 3,
                foreground_observed: false
            })
        )
    );
    assert_eq!(
        conclude_cycle(Joined::TimedOut),
        Err("切换输入法配置超时（500ms）".to_owned())
    );
    assert_eq!(
        conclude_cycle(Joined::Unstarted("x".to_owned())),
        Err("创建切换线程失败：x".to_owned())
    );
    assert_eq!(conclude_cycle(Joined::Finished(Ok("y".to_owned()))), Ok("y".to_owned()));
}

fn wetype() -> ProfileId {
    ProfileId { clsid: WETYPE_CLSID, profile: WETYPE_PROFILE }
}

fn profile(clsid: u128, profile_type: u32, flags: u32) -> Profile {
    Profile { id: ProfileId { clsid, profile: 5 }, profile_type, flags }
}

fn outcome(error: &str) -> HostImeEvent {
    ImeEvent::Outcome(if error.is_empty() { None } else { Some(error.to_owned()) })
}

#[test]
fn active_wetype_is_left_as_it_is() {
    let (mut task, query) = EnsureWeType::begin();
    assert_eq!(query, ImeQuery::Initialize);
    assert_eq!(
        task.step(ImeEvent::Initialized(1)),
        (None, ImeTurn::Ask(ImeQuery::CreateManager))
    );
    assert_eq!(task.step(outcome("")), (None, ImeTurn::Ask(ImeQuery::ReadActive)));
    assert_eq!(
        task.step(ImeEvent::Active { ok: true, id: wetype() }),
        (
            Some(Note::ImeQueried {
                ok: true,
                active_is_wetype: true,
                active_profile_present: true
            }),
            ImeTurn::Finish {
                leave_apartment: true,
                result: Ok(WeTypeActivation::AlreadyActive)
            }
        )
    );
    assert_eq!(task.step(ImeEvent::Slept), (None, ImeTurn::Ignored));
}

#[test]
fn another_input_method_is_switched_to_wetype() {
    let activating = || {
        let (mut task, _) = EnsureWeType::begin();
        task.step(ImeEvent::Initialized(0));
        task.step(outcome(""));
        let turn = task.step(ImeEvent::Active {
            ok: false,
            id: ProfileId { clsid: 0, profile: 0 },
        });
        assert_eq!(
            turn,
            (
                Some(Note::ImeQueried {
                    ok: false,
                    active_is_wetype: false,
                    active_profile_present: false
                }),
                ImeTurn::Ask(ImeQuery::Activate(wetype()))
            )
        );
        task
    };
    let mut task = activating();
    assert_eq!(
        task.step(outcome("")),
        (None, ImeTurn::Ask(ImeQuery::Sleep { millis: 50 }))
    );
    assert_eq!(
        task.step(ImeEvent::Slept),
        (
            None,
            ImeTurn::Finish { leave_apartment: true, result: Ok(WeTypeActivation::Switched) }
        )
    );
    let failed = |turn: (Option<Note>, ImeTurn<Result<WeTypeActivation, String>>)| match turn.1 {
        ImeTurn::Finish { leave_apartment, result } => (leave_apartment, result.unwrap_err()),
        _ => panic!("not finished"),
    };
    assert_eq!(
        failed(activating().step(outcome("坏"))),
        (true, "激活微信输入法会话失败：坏".to_owned())
    );
    let (mut task, _) = EnsureWeType::begin();
    assert_eq!(
        failed(task.step(ImeEvent::Initialized(-2147417850))),
        (false, "CoInitializeEx(STA) 失败：HRESULT(0x80010106)".to_owned())
    );
    let (mut task, _) = EnsureWeType::begin();
    task.step(ImeEvent::Initialized(0));
    assert_eq!(
        failed(task.step(outcome("坏"))),
        (true, "创建 TSF 配置管理器失败：坏".to_owned())
    );
}

#[test]
fn switching_away_needs_another_enabled_input_method() {
    let batch = vec![
        profile(WETYPE_CLSID, 1, 2),
        profile(3, 2, 2),
        profile(4, 1, 1),
        profile(6, 1, 3),
        profile(7, 1, 2),
    ];
    assert_eq!(find_alternative(&batch), Some(ProfileId { clsid: 6, profile: 5 }));
    assert_eq!(find_alternative(&vec![profile(4, 1, 1)]), None);

    let fetching = || {
        let (mut task, _) = CycleProfile::begin();
        assert_eq!(
            task.step(ImeEvent::Initialized(0)),
            ImeTurn::Ask(ImeQuery::CreateManager)
        );
        assert_eq!(task.step(outcome("")), ImeTurn::Ask(ImeQuery::Enumerate));
        assert_eq!(task.step(outcome("")), ImeTurn::Ask(ImeQuery::Fetch));
        task
    };
    let none = || ImeTurn::Finish {
        leave_apartment: true,
        result: Err("无可用作切换的其他输入法配置".to_owned()),
    };
    let mut task = fetching();
    let full = vec![profile(WETYPE_CLSID, 1, 2); 16];
    assert_eq!(task.step(ImeEvent::Fetched(Some(full))), ImeTurn::Ask(ImeQuery::Fetch));
    assert_eq!(task.step(ImeEvent::Fetched(Some(vec![]))), none());
    assert_eq!(fetching().step(ImeEvent::Fetched(None)), none());
}

#[test]
fn a_switch_of_profiles_comes_back_to_wetype() {
    let other = ProfileId { clsid: 0x00c0ffee_0000_0000_0000_000000000001, profile: 5 };
    let leaving = || {
        let (mut task, _) = CycleProfile::begin();
        task.step(ImeEvent::Initialized(0));
        task.step(outcome(""));
        task.step(outcome(""));
        let offered = Profile { id: other, profile_type: 1, flags: 2 };
        assert_eq!(
            task.step(ImeEvent::Fetched(Some(vec![offered]))),
            ImeTurn::Ask(ImeQuery::Activate(other))
        );
        task
    };
    let returning = || {
        let mut task = leaving();
        assert_eq!(task.step(outcome("")), ImeTurn::Ask(ImeQuery::Sleep { millis: 50 }));
        assert_eq!(
            task.step(ImeEvent::Slept),
            ImeTurn::Ask(ImeQuery::Activate(wetype()))
        );
        task
    };
    assert_eq!(
        returning().step(outcome("")),
        ImeTurn::Finish {
            leave_apartment: true,
            result: Ok("switched via clsid=00C0FFEE and back to WeType".to_owned())
        }
    );
    let failure = |text: &str| ImeTurn::Finish {
        leave_apartment: true,
        result: Err(text.to_owned()),
    };
    assert_eq!(returning().step(outcome("坏")), failure("切回微信输入法失败：坏"));
    assert_eq!(leaving().step(outcome("坏")), failure("切换到临时输入法失败：坏"));
    let (mut task, _) = CycleProfile::begin();
    task.step(ImeEvent::Initialized(0));
    assert_eq!(task.step(outcome("坏")), failure("创建 TSF 配置管理器失败：坏"));
    let (mut task, _) = CycleProfile::begin();
    task.step(ImeEvent::Initialized(0));
    task.step(outcome(""));
    assert_eq!(task.step(outcome("坏")), failure("枚举输入法配置失败：坏"));
    let (mut task, _) = CycleProfile::begin();
    assert_eq!(
        task.step(ImeEvent::Initialized(-1)),
        ImeTurn::Finish {
            leave_apartment: false,
            result: Err("CoInitializeEx(STA) 失败：HRESULT(0xFFFFFFFF)".to_owned())
        }
    );
}

#[test]
fn packet_lines_show_nothing_past_the_preview() {
    let line = |bytes: &[u8]| packet_line("T", 12, &None, PacketKind::Control, bytes).unwrap();
    let first: Vec<u8> = (0..30).collect();
    let mut second = first.clone();
    second[24] = 0xFF;
    second[29] = 0xEE;
    assert_eq!(line(&first), line(&second));
    second[23] = 0xFF;
    assert_ne!(line(&first), line(&second));
    assert_ne!(line(&first), line(&first[..29]));
    assert_ne!(line(&[0x01]), line(&[0x10]));
}
