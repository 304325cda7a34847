use podcast_tui::app::{AppState, Focus};
use podcast_tui::events::{process_action, Action, Env};
use podcast_tui::rss::strip_html;
use podcast_tui::rss::types::{DownloadState, Episode, Feed};

fn env() -> Env {
    Env { now_ms: 0, new_feed_id: 1, mpv_available: true }
}

fn state() -> AppState {
    let ep = Episode {
        id: 5,
        feed_id: 1,
        guid: "g".to_string(),
        title: "T".to_string(),
        description: None,
        audio_url: "u".to_string(),
        published: None,
        duration_secs: None,
        is_new: true,
        download: DownloadState::NotDownloaded,
        listen_progress_secs: 0,
        chapters: Vec::new(),
    };
    AppState::new(vec![Feed { id: 1, title: "F".into(), url: "u".into(), description: None, last_refreshed: None, episodes: vec![ep] }])
}

#[test]
fn focus_twice_returns() {
    let mut s = state();
    process_action(&mut s, Action::FocusNext, &env());
    process_action(&mut s, Action::FocusNext, &env());
    assert_eq!(s.focus, Focus::Feeds);
}

#[test]
fn type_then_backspace_restores_input() {
    let mut s = state();
    s.input_buffer = "abc".to_string();
    process_action(&mut s, Action::InputChar('ü'), &env());
    assert_eq!(s.input_buffer, "abcü");
    process_action(&mut s, Action::InputBackspace, &env());
    assert_eq!(s.input_buffer, "abc");
}

#[test]
fn volume_and_speed_round_trips() {
    for v in [0u8, 7, 80, 95] {
        let mut s = state();
        s.playback.volume = v;
        process_action(&mut s, Action::VolumeUp, &env());
        process_action(&mut s, Action::VolumeDown, &env());
        assert_eq!(s.playback.volume, v);
    }
    for h in [25u32, 100, 137, 275] {
        let mut s = state();
        s.playback.speed = h;
        process_action(&mut s, Action::SpeedUp, &env());
        process_action(&mut s, Action::SpeedDown, &env());
        assert_eq!(s.playback.speed, h);
    }
}

#[test]
fn selection_stays_within_the_list() {
    let mut s = state();
    let actions = [
        Action::MoveDown, Action::MoveDown, Action::MoveDown, Action::DeleteFeed, Action::MoveUp,
        Action::DeleteFeed, Action::DeleteFeed, Action::MoveDown, Action::MoveDown,
    ];
    for a in actions {
        process_action(&mut s, a, &env());
        assert!(s.selected_feed_idx <= s.feeds.len());
    }
}

#[test]
fn stripped_text_is_clean() {
    for input in ["<p> a </p>", "x<y>z", "  \u{a0}lead and trail\t ", "a  <b>  b  </b>  c", ">>x<<", "<unclosed"] {
        let out = strip_html(input);
        assert!(!out.contains('<') && !out.contains('>'), "{:?}", out);
        assert!(!out.starts_with(' ') && !out.ends_with(' '), "{:?}", out);
        assert!(!out.contains("  "), "{:?}", out);
        assert!(out.chars().all(|c| c == ' ' || !c.is_whitespace()), "{:?}", out);
    }
}

#[test]
fn stripping_twice_changes_nothing() {
    for input in ["<p> a </p>", "x<y>z", "  \u{a0}lead and trail\t ", "a  <b>  b  </b>  c", ">>x<<", "<unclosed", "plain"] {
        let once = strip_html(input);
        assert_eq!(strip_html(&once), once);
    }
}
