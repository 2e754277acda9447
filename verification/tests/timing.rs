use sayall_windows::chord::{chord_is_wetype_default, Chord, KeyCode};
use sayall_windows::deadline::{due, nearest_deadline, Instant};
use sayall_windows::error::Failure;
use sayall_windows::protocol::Command;
use sayall_windows::reconnect::ReconnectBackoff;
use sayall_windows::snapshot::{
    decorate_snapshot, failed_snapshot, gate_remote_connected, Capabilities, ConnectionPhase,
    ConnectionSnapshot, RemoteModel, VoiceSessionState,
};
use sayall_windows::timestamp::{format_utc_timestamp, timestamp_at, utc_timestamp};
use sayall_windows::worker::{
    keep_reconnecting_after_cleanup_failure, release_voice_hold_hotkey, schedule_reconnect,
};
use std::time::Duration;

fn format(duration: Duration) -> String {
    format_utc_timestamp(duration.as_secs(), duration.subsec_millis())
}

#[test]
fn diagnostic_timestamp_is_utc_iso_8601_with_milliseconds() {
    assert_eq!(
        format(Duration::from_millis(0)),
        "1970-01-01T00:00:00.000Z"
    );
    assert_eq!(
        format(Duration::from_millis(1_773_446_400_123)),
        "2026-03-14T00:00:00.123Z"
    );
}

#[test]
fn timestamps_know_leap_years() {
    assert_eq!(format_utc_timestamp(951_782_399, 999), "2000-02-28T23:59:59.999Z");
    assert_eq!(format_utc_timestamp(951_782_400, 0), "2000-02-29T00:00:00.000Z");
    assert_eq!(format_utc_timestamp(4_107_542_399, 5), "2100-02-28T23:59:59.005Z");
    assert_eq!(format_utc_timestamp(4_107_542_400, 50), "2100-03-01T00:00:00.050Z");
    assert_eq!(format_utc_timestamp(1_709_209_425, 7), "2024-02-29T12:23:45.007Z");
}

#[test]
fn huge_second_counts_read_as_negative() {
    assert_eq!(format_utc_timestamp(u64::MAX, 0), "1969-12-31T23:59:59.000Z");
    assert_eq!(format_utc_timestamp(253_402_300_800, 0), "10000-01-01T00:00:00.000Z");
}

#[test]
fn a_clock_before_the_epoch_reads_as_the_epoch() {
    assert_eq!(timestamp_at(None), "1970-01-01T00:00:00.000Z");
    assert_eq!(timestamp_at(Some((1_773_446_400, 123))), "2026-03-14T00:00:00.123Z");
}

#[test]
fn timestamps_sort_by_their_moments() {
    let moments = [
        (0, 0),
        (0, 1),
        (1, 0),
        (59, 999),
        (3_599, 9),
        (86_399, 999),
        (86_400, 0),
        (951_782_399, 999),
        (951_782_400, 0),
        (1_773_446_400, 123),
        (4_107_542_399, 5),
        (253_402_300_799, 999),
    ];
    let texts: Vec<String> = moments
        .iter()
        .map(|(seconds, millis)| format_utc_timestamp(*seconds, *millis))
        .collect();
    assert!(texts.windows(2).all(|pair| pair[0].as_bytes() < pair[1].as_bytes()));
    assert_eq!(texts[11], "9999-12-31T23:59:59.999Z");
}

#[test]
fn the_calendar_repeats_after_400_years() {
    for seconds in [0, 951_782_400, 1_709_209_425, 4_107_542_400, 240_779_519_999] {
        let text = format_utc_timestamp(seconds, 7);
        let later = format_utc_timestamp(seconds + 146_097 * 86_400, 7);
        assert_eq!(text[4..], later[4..]);
        let year: u32 = text[..4].parse().unwrap();
        assert_eq!(later[..4], format!("{}", year + 400));
    }
}

#[test]
fn present_timestamp_lies_between_two_clock_readings() {
    let clock = || {
        let elapsed = std::time::SystemTime::now()
            .duration_since(std::time::UNIX_EPOCH)
            .unwrap();
        format(elapsed)
    };
    let earlier = clock();
    let now = utc_timestamp();
    let later = clock();
    assert!(earlier <= now && now <= later);
    assert_eq!(now.len(), 24);
}

#[test]
fn nearest_deadline_selects_the_first_due_operation() {
    let now = Instant { nanos: 77 };
    let early = now.after(1_000);
    let late = now.after(2_000);

    assert_eq!(nearest_deadline(Some(late), Some(early)), Some(early));
    assert_eq!(nearest_deadline(Some(late), None), Some(late));
    assert_eq!(nearest_deadline(None, None), None);
}

#[test]
fn deadlines_are_due_when_reached() {
    let now = Instant { nanos: 5_000_000 };
    assert!(due(Some(now), now));
    assert!(due(Some(Instant { nanos: 4_999_999 }), now));
    assert!(!due(Some(now.after(1)), now));
    assert!(!due(None, now));
    assert_eq!(now.after(3).remaining(now), 3_000_000);
    assert_eq!(now.remaining(now.after(3)), 0);
}

#[test]
fn reconnect_schedule_reports_attempt_and_exponential_delay() {
    let mut state = ConnectionSnapshot::default();
    let mut backoff = ReconnectBackoff::new(2_000, 30_000);
    let mut deadline = None;
    let mut out = Vec::new();
    let now = Instant { nanos: 0 };

    schedule_reconnect(&mut state, &mut backoff, &mut deadline, &mut out, now, "模拟断连");
    let first = state.copy();
    assert_eq!(first.phase, ConnectionPhase::Reconnecting);
    assert_eq!(first.reconnect_attempt, 1);
    assert!(first.last_error.unwrap().contains("2 秒后"));
    assert!(deadline.is_some());

    schedule_reconnect(&mut state, &mut backoff, &mut deadline, &mut out, now, "再次失败");
    let second = state.copy();
    assert_eq!(second.reconnect_attempt, 2);
    assert!(second.last_error.unwrap().contains("4 秒后"));
}

#[test]
fn reconnect_schedule_publishes_the_exact_state() {
    let mut state = ConnectionSnapshot::default();
    state.phase = ConnectionPhase::Streaming;
    state.remote_name = Some("remote".to_owned());
    state.remote_model = RemoteModel::Rc003;
    state.capabilities = Some(Capabilities { version: 0x0100, selected_codec: 2 });
    state.voice_state = VoiceSessionState::Streaming;
    state.generation = 9;
    state.decoded_samples = 400;
    let mut backoff = ReconnectBackoff::new(2_000, 30_000);
    let mut deadline = None;
    let mut out = Vec::new();
    let now = Instant { nanos: 1_000_000_000 };
    schedule_reconnect(&mut state, &mut backoff, &mut deadline, &mut out, now, "原因");
    assert_eq!(deadline, Some(Instant { nanos: 3_000_000_000 }));
    assert_eq!(out, vec![Command::SetRemoteGate(true)]);
    assert_eq!(state.capabilities, None);
    assert_eq!(state.voice_state, VoiceSessionState::Idle);
    assert_eq!(state.generation, 0);
    assert_eq!(state.decoded_samples, 400);
    assert_eq!(state.remote_name.as_deref(), Some("remote"));
    assert_eq!(state.remote_model, RemoteModel::Rc003);
    assert_eq!(state.last_error.as_deref(), Some("原因；将在 2 秒后进行第 1 次重连"));
}

#[test]
fn delays_double_up_to_the_bound_and_start_over() {
    let mut backoff = ReconnectBackoff::new(2_000, 30_000);
    let delays: Vec<(u32, u64)> = (0..6).map(|_| backoff.schedule_next()).collect();
    assert_eq!(
        delays,
        vec![(1, 2_000), (2, 4_000), (3, 8_000), (4, 16_000), (5, 30_000), (6, 30_000)]
    );
    assert_eq!(backoff.attempt(), 6);
    backoff.reset();
    assert_eq!(backoff.attempt(), 0);
    assert_eq!(backoff.schedule_next(), (1, 2_000));
    assert_eq!(ReconnectBackoff::new(9, 5).schedule_next(), (1, 5));
}

#[test]
fn cleanup_failure_keeps_retrying_with_scheduled_reconnect() {
    let mut state = ConnectionSnapshot::default();
    let preferred = Some("device-id".to_owned());
    let mut backoff = ReconnectBackoff::new(2_000, 30_000);
    let now = Instant { nanos: 0 };
    let mut deadline = Some(now.after(2_000));
    let mut out = Vec::new();
    let error = Failure::BleCleanup("retained owner".to_owned());

    keep_reconnecting_after_cleanup_failure(
        &mut state,
        &preferred,
        &mut backoff,
        &mut deadline,
        &mut out,
        now,
        &error,
    );

    assert_eq!(preferred, Some("device-id".to_owned()));
    assert!(deadline.is_some());
    let snapshot = state.copy();
    assert_eq!(snapshot.phase, ConnectionPhase::Reconnecting);
    assert_eq!(snapshot.reconnect_attempt, 1);
    assert!(snapshot.last_error.unwrap().contains("继续重试"));

    let preferred_none: Option<String> = None;
    let mut deadline2 = Some(now.after(2_000));
    keep_reconnecting_after_cleanup_failure(
        &mut state,
        &preferred_none,
        &mut backoff,
        &mut deadline2,
        &mut out,
        now,
        &error,
    );
    assert_eq!(deadline2, None);
    assert_eq!(state.phase, ConnectionPhase::Failed);
    assert_eq!(state.last_error.as_deref(), Some("retained owner"));
    assert_eq!(out, vec![Command::SetRemoteGate(true), Command::SetRemoteGate(false)]);
}

#[test]
fn releasing_the_chord_happens_once() {
    let mut held = Some(Chord { keys: vec![KeyCode::LeftControl, KeyCode::LeftWindows] });
    let mut out = Vec::new();
    release_voice_hold_hotkey(&mut held, &mut out);
    assert_eq!(held, None);
    release_voice_hold_hotkey(&mut held, &mut out);
    assert_eq!(
        out,
        vec![
            Command::SetSessionActive(false),
            Command::ReleaseHeldChord(Chord {
                keys: vec![KeyCode::LeftControl, KeyCode::LeftWindows]
            }),
            Command::SetSessionActive(false),
        ]
    );
}

#[test]
fn only_left_control_and_left_windows_are_the_default_chord() {
    let chord = |keys: Vec<KeyCode>| chord_is_wetype_default(&Chord { keys });
    assert!(chord(vec![KeyCode::LeftControl, KeyCode::LeftWindows]));
    assert!(chord(vec![KeyCode::LeftWindows, KeyCode::LeftControl]));
    assert!(!chord(vec![KeyCode::LeftControl, KeyCode::LeftControl]));
    assert!(!chord(vec![KeyCode::LeftControl]));
    assert!(!chord(vec![KeyCode::LeftControl, KeyCode::Other(0x48)]));
    assert!(!chord(vec![
        KeyCode::LeftControl,
        KeyCode::LeftWindows,
        KeyCode::Other(0x74)
    ]));
    assert!(!chord(vec![]));
}

#[test]
fn gate_is_closed_unless_the_remote_counts_as_online() {
    let online = [
        ConnectionPhase::AwaitingCapabilities,
        ConnectionPhase::Ready,
        ConnectionPhase::Streaming,
        ConnectionPhase::Draining,
        ConnectionPhase::Reconnecting,
    ];
    let offline = [
        ConnectionPhase::Disconnected,
        ConnectionPhase::Connecting,
        ConnectionPhase::Discovering,
        ConnectionPhase::Suspended,
        ConnectionPhase::Failed,
    ];
    assert!(online.iter().all(|phase| gate_remote_connected(*phase)));
    assert!(!offline.iter().any(|phase| gate_remote_connected(*phase)));
}

#[test]
fn failed_snapshots_keep_the_error_only() {
    let snapshot = failed_snapshot("出错".to_owned());
    let mut expected = ConnectionSnapshot::default();
    expected.phase = ConnectionPhase::Failed;
    expected.last_error = Some("出错".to_owned());
    assert_eq!(snapshot, expected);
    expected.power_notifications_available = true;
    assert_eq!(decorate_snapshot(snapshot, true), expected);
}

#[test]
fn failures_have_messages() {
    let text = |failure: Failure<String>| failure.text();
    assert_eq!(text(Failure::BleCleanup("a".to_owned())), "a");
    assert_eq!(text(Failure::Gatt("b".to_owned())), "b");
    assert_eq!(text(Failure::WindowsApi("c".to_owned())), "c");
    assert_eq!(text(Failure::Protocol("d".to_owned())), "d");
    assert_eq!(
        text(Failure::VoiceCharacteristicMissing("audio".to_owned())),
        "未找到 ATVV 特征：audio"
    );
    assert_eq!(text(Failure::VoiceServiceMissing), "未找到 ATVV 语音服务");
    assert_eq!(text(Failure::WorkerUnavailable), "BLE 工作线程不可用");
    assert_eq!(text(Failure::OperationTimedOut), "BLE 操作超时");
}
