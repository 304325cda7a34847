use podcast_tui::player::{socket_wait_step, SocketWait, mpv_unavailable_text};
use podcast_tui::player::{encode_command, MpvCommand, MpvMessage, MpvValue, PlayStatus, PlaybackState, SeekMode};
use podcast_tui::rss::types::Chapter;
use podcast_tui::ui::player::{progress_label, title_text, status_icon};

fn msg(event: Option<&str>, name: Option<&str>, data: MpvValue) -> MpvMessage {
    MpvMessage { event: event.map(str::to_string), name: name.map(str::to_string), data }
}

fn value(ms: Option<u64>, b: Option<bool>, n: Option<u64>) -> MpvValue {
    MpvValue { as_millis: ms, as_bool: b, as_u64: n }
}

#[test]
fn commands_are_json_lines() {
    assert_eq!(
        encode_command(&MpvCommand::ObserveProperty(1, "time-pos".to_string()), None),
        "{\"command\":[\"observe_property\",1,\"time-pos\"]}\n"
    );
    assert_eq!(
        encode_command(&MpvCommand::LoadFile("https://x/a.mp3".to_string()), Some(3)),
        "{\"command\":[\"loadfile\",\"https://x/a.mp3\",\"replace\"],\"request_id\":3}\n"
    );
    assert_eq!(
        encode_command(&MpvCommand::LoadFile("say \"hi\"\\".to_string()), Some(1)),
        "{\"command\":[\"loadfile\",\"say \\\"hi\\\"\\\\\",\"replace\"],\"request_id\":1}\n"
    );
    assert_eq!(encode_command(&MpvCommand::TogglePause, Some(2)), "{\"command\":[\"cycle\",\"pause\"],\"request_id\":2}\n");
    assert_eq!(
        encode_command(&MpvCommand::Seek(-10, SeekMode::Relative), Some(4)),
        "{\"command\":[\"seek\",-10.0,\"relative\"],\"request_id\":4}\n"
    );
    assert_eq!(
        encode_command(&MpvCommand::Seek(60, SeekMode::Absolute), Some(5)),
        "{\"command\":[\"seek\",60.0,\"absolute\"],\"request_id\":5}\n"
    );
    assert_eq!(encode_command(&MpvCommand::SetVolume(85), Some(6)), "{\"command\":[\"set_property\",\"volume\",85],\"request_id\":6}\n");
    assert_eq!(encode_command(&MpvCommand::NextChapter, Some(7)), "{\"command\":[\"add\",\"chapter\",1],\"request_id\":7}\n");
    assert_eq!(encode_command(&MpvCommand::PrevChapter, Some(8)), "{\"command\":[\"add\",\"chapter\",-1],\"request_id\":8}\n");
    assert_eq!(encode_command(&MpvCommand::Quit, Some(9)), "{\"command\":[\"quit\"],\"request_id\":9}\n");
}

#[test]
fn speeds_as_json_numbers() {
    for (h, text) in [(100u32, "1.0"), (125, "1.25"), (150, "1.5"), (75, "0.75"), (25, "0.25"), (300, "3.0"), (105, "1.05")] {
        let line = encode_command(&MpvCommand::SetSpeed(h), None);
        assert_eq!(line, format!("{{\"command\":[\"set_property\",\"speed\",{}]}}\n", text));
        // The same text that serde_json writes for the speed as an f32.
        assert_eq!(serde_json::to_string(&(h as f32 / 100.0)).unwrap(), text);
    }
}

#[test]
fn mpv_property_changes() {
    let mut s = PlaybackState::new();
    assert!(s.apply_mpv_message(&msg(Some("property-change"), Some("time-pos"), value(Some(12500), None, None))));
    assert_eq!(s.position_ms, 12500);
    assert!(s.apply_mpv_message(&msg(Some("property-change"), Some("duration"), value(Some(2833000), None, None))));
    assert_eq!(s.duration_ms, 2833000);
    assert!(s.apply_mpv_message(&msg(Some("property-change"), Some("pause"), value(None, Some(true), None))));
    assert_eq!(s.status, PlayStatus::Paused);
    assert!(s.apply_mpv_message(&msg(Some("property-change"), Some("pause"), value(None, Some(false), None))));
    assert_eq!(s.status, PlayStatus::Playing);
    assert!(s.apply_mpv_message(&msg(Some("property-change"), Some("chapter"), value(Some(2000), None, Some(2)))));
    assert_eq!(s.current_chapter_idx, Some(2));
    assert!(s.apply_mpv_message(&msg(Some("property-change"), Some("chapter"), value(None, None, None))));
    assert_eq!(s.current_chapter_idx, None);
    // Unknown property: still reported, nothing changes.
    assert!(s.apply_mpv_message(&msg(Some("property-change"), Some("volume"), value(Some(1), None, None))));
    assert_eq!(s.position_ms, 12500);
    // time-pos without a number leaves the position.
    assert!(s.apply_mpv_message(&msg(Some("property-change"), Some("time-pos"), value(None, None, None))));
    assert_eq!(s.position_ms, 12500);
}

#[test]
fn mpv_file_events() {
    let mut s = PlaybackState::new();
    assert!(!s.apply_mpv_message(&msg(Some("start-file"), None, value(None, None, None))));
    assert_eq!(s.status, PlayStatus::Playing);
    s.position_ms = 5000;
    assert!(s.apply_mpv_message(&msg(Some("end-file"), None, value(None, None, None))));
    assert_eq!(s.status, PlayStatus::Stopped);
    assert_eq!(s.position_ms, 0);
    assert!(!s.apply_mpv_message(&msg(Some("seek"), None, value(None, None, None))));
    assert!(!s.apply_mpv_message(&msg(None, None, value(None, None, None))));
}

#[test]
fn playback_defaults() {
    let s = PlaybackState::new();
    assert_eq!(s.speed, 100);
    assert_eq!(s.volume, 80);
    assert_eq!(s.status, PlayStatus::Stopped);
    assert_eq!(PlayStatus::default(), PlayStatus::Stopped);
}

#[test]
fn player_bar_texts() {
    let mut s = PlaybackState::new();
    assert_eq!(title_text(&s), "No episode playing");
    s.episode_title = Some("Ep 158".to_string());
    assert_eq!(title_text(&s), "Ep 158");
    s.position_ms = (18 * 60 + 42) * 1000 + 999;
    s.duration_ms = (47 * 60 + 13) * 1000;
    assert_eq!(progress_label(&s), "18:42 / 47:13");
    s.chapters = vec![
        Chapter { title: "Intro".to_string(), start_secs: 0 },
        Chapter { title: "A very long chapter title indeed".to_string(), start_secs: 60 },
    ];
    s.current_chapter_idx = Some(1);
    assert_eq!(progress_label(&s), "18:42 / 47:13 § A very long chapter…");
    s.current_chapter_idx = Some(5);
    assert_eq!(progress_label(&s), "18:42 / 47:13");
    assert_eq!(status_icon(PlayStatus::Playing), "▶");
    assert_eq!(status_icon(PlayStatus::Paused), "⏸");
    assert_eq!(status_icon(PlayStatus::Stopped), "⏹");
}

#[test]
fn waiting_for_the_socket() {
    assert_eq!(socket_wait_step(0, true), SocketWait::Ready);
    assert_eq!(socket_wait_step(0, false), SocketWait::Retry(1));
    assert_eq!(socket_wait_step(29, false), SocketWait::Retry(30));
    assert_eq!(socket_wait_step(30, false), SocketWait::GiveUp);
    assert_eq!(socket_wait_step(30, true), SocketWait::Ready);
    assert_eq!(mpv_unavailable_text("not found"), "mpv not available: not found — playback disabled");
}

#[test]
fn control_characters_are_escaped_on_one_line() {
    let line = encode_command(&MpvCommand::LoadFile("a\nb\tc\u{1}d/é".to_string()), Some(1));
    assert_eq!(line, "{\"command\":[\"loadfile\",\"a\\nb\\tc\\u0001d/é\",\"replace\"],\"request_id\":1}\n");
    assert_eq!(line.matches('\n').count(), 1);
    assert!(line.ends_with('\n'));
    let expected = serde_json::to_string("a\nb\tc\u{1}d/é").unwrap();
    assert!(line.contains(&expected));
}
