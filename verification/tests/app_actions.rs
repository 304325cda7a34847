use podcast_tui::app::{AppState, Focus, InputMode, StatusLevel};
use podcast_tui::config::{autosave_due, Config, Settings};
use podcast_tui::events::{map_key, process_action, Action, Effect, Env, KeyCode, KeyInput};
use podcast_tui::player::{MpvCommand, PlayStatus, PlaybackState, SeekMode};
use podcast_tui::rss::types::{DownloadState, Episode, Feed};
use podcast_tui::ui::episodes::{empty_message, episode_rows};
use podcast_tui::ui::feeds::feed_items;
use podcast_tui::ui::{overlay, Overlay};

fn episode(id: u128, guid: &str, title: &str) -> Episode {
    Episode {
        id,
        feed_id: 1,
        guid: guid.to_string(),
        title: title.to_string(),
        description: None,
        audio_url: format!("https://example.com/{}.mp3", guid),
        published: None,
        duration_secs: None,
        is_new: true,
        download: DownloadState::NotDownloaded,
        listen_progress_secs: 0,
        chapters: Vec::new(),
    }
}

fn feed(id: u128, title: &str, eps: Vec<Episode>) -> Feed {
    Feed {
        id,
        title: title.to_string(),
        url: format!("https://example.com/{}.xml", id),
        description: None,
        last_refreshed: None,
        episodes: eps,
    }
}

fn sample() -> AppState {
    AppState::new(vec![
        feed(1, "Darknet Diaries", vec![episode(11, "a", "Ep A"), episode(12, "b", "Ep B"), episode(13, "c", "Ep C")]),
        feed(2, "Lex Fridman", vec![episode(21, "x", "Ep X")]),
    ])
}

fn env() -> Env {
    Env { now_ms: 1_000_000, new_feed_id: 99, mpv_available: true }
}

fn press(code: KeyCode) -> KeyInput {
    KeyInput { code, is_press: true }
}

fn status_text(s: &AppState) -> String {
    s.status_message.as_ref().map(|m| m.text.clone()).unwrap_or_default()
}

#[test]
fn keys_map_to_actions() {
    let s = sample();
    let m = |c: KeyCode| map_key(press(c), &s);
    assert!(matches!(m(KeyCode::Char('q')), Some(Action::Quit)));
    assert!(matches!(m(KeyCode::Tab), Some(Action::FocusNext)));
    assert!(matches!(m(KeyCode::Char('j')), Some(Action::MoveDown)));
    assert!(matches!(m(KeyCode::Down), Some(Action::MoveDown)));
    assert!(matches!(m(KeyCode::Up), Some(Action::MoveUp)));
    assert!(matches!(m(KeyCode::Enter), Some(Action::Select)));
    assert!(matches!(m(KeyCode::Char(' ')), Some(Action::PlayPause)));
    assert!(matches!(m(KeyCode::Char('l')), Some(Action::SeekForward(10))));
    assert!(matches!(m(KeyCode::Left), Some(Action::SeekBackward(10))));
    assert!(matches!(m(KeyCode::Char('L')), Some(Action::SeekForward(60))));
    assert!(matches!(m(KeyCode::Char('H')), Some(Action::SeekBackward(60))));
    assert!(matches!(m(KeyCode::Char('+')), Some(Action::VolumeUp)));
    assert!(matches!(m(KeyCode::Char('<')), Some(Action::SpeedDown)));
    assert!(matches!(m(KeyCode::Char(']')), Some(Action::NextChapter)));
    assert!(matches!(m(KeyCode::Char('D')), Some(Action::DownloadEpisode)));
    assert!(matches!(m(KeyCode::Char('R')), Some(Action::RefreshAllFeeds)));
    assert!(matches!(m(KeyCode::Char('?')), Some(Action::ToggleHelp)));
    assert!(m(KeyCode::Char('z')).is_none());
    assert!(map_key(KeyInput { code: KeyCode::Char('q'), is_press: false }, &s).is_none());
}

#[test]
fn keys_while_typing_and_in_help() {
    let mut s = sample();
    s.input_mode = InputMode::AddFeedUrl;
    assert!(matches!(map_key(press(KeyCode::Char('q')), &s), Some(Action::InputChar('q'))));
    assert!(matches!(map_key(press(KeyCode::Enter), &s), Some(Action::ConfirmAddFeed)));
    assert!(matches!(map_key(press(KeyCode::Esc), &s), Some(Action::CancelInput)));
    assert!(matches!(map_key(press(KeyCode::Backspace), &s), Some(Action::InputBackspace)));
    assert!(map_key(press(KeyCode::Tab), &s).is_none());
    s.input_mode = InputMode::Normal;
    s.show_help = true;
    assert!(matches!(map_key(press(KeyCode::Esc), &s), Some(Action::ToggleHelp)));
    assert!(matches!(map_key(press(KeyCode::Char('q')), &s), Some(Action::ToggleHelp)));
    assert!(map_key(press(KeyCode::Char('j')), &s).is_none());
}

#[test]
fn navigation() {
    let mut s = sample();
    let e = env();
    process_action(&mut s, Action::MoveDown, &e);
    assert_eq!(s.selected_feed_idx, 1);
    process_action(&mut s, Action::MoveDown, &e);
    assert_eq!(s.selected_feed_idx, 2);
    process_action(&mut s, Action::MoveDown, &e);
    assert_eq!(s.selected_feed_idx, 2);
    process_action(&mut s, Action::MoveUp, &e);
    process_action(&mut s, Action::MoveUp, &e);
    process_action(&mut s, Action::MoveUp, &e);
    assert_eq!(s.selected_feed_idx, 0);
    process_action(&mut s, Action::FocusNext, &e);
    assert_eq!(s.focus, Focus::Episodes);
    for _ in 0..5 {
        process_action(&mut s, Action::MoveDown, &e);
    }
    assert_eq!(s.selected_episode_idx, 2);
    process_action(&mut s, Action::MoveUp, &e);
    assert_eq!(s.selected_episode_idx, 1);
    process_action(&mut s, Action::FocusNext, &e);
    assert_eq!(s.focus, Focus::Feeds);
    process_action(&mut s, Action::MoveDown, &e);
    assert_eq!(s.selected_episode_idx, 0);
}

#[test]
fn select_plays_episode() {
    let mut s = sample();
    let e = env();
    s.focus = Focus::Episodes;
    s.selected_episode_idx = 1;
    let eff = process_action(&mut s, Action::Select, &e);
    assert_eq!(eff.len(), 3);
    assert!(matches!(&eff[0], Effect::Mpv(MpvCommand::LoadFile(u)) if u == "https://example.com/b.mp3"));
    assert!(matches!(&eff[1], Effect::Mpv(MpvCommand::SetSpeed(100))));
    assert!(matches!(&eff[2], Effect::Mpv(MpvCommand::SetVolume(80))));
    assert_eq!(s.playback.episode_id, Some(12));
    assert_eq!(s.playback.episode_title.as_deref(), Some("Ep B"));
    assert_eq!(s.playback.status, PlayStatus::Playing);
    assert!(!s.feeds[0].episodes[1].is_new);
    assert!(s.feeds[0].episodes[0].is_new);
}

#[test]
fn select_plays_downloaded_file_and_needs_mpv() {
    let mut s = sample();
    s.focus = Focus::Episodes;
    s.feeds[0].episodes[0].download = DownloadState::Downloaded { path: "/home/u/Podcasts/Ep-A.mp3".to_string() };
    let eff = process_action(&mut s, Action::Select, &env());
    assert!(matches!(&eff[0], Effect::Mpv(MpvCommand::LoadFile(u)) if u == "/home/u/Podcasts/Ep-A.mp3"));
    let mut t = sample();
    t.focus = Focus::Episodes;
    let no_mpv = Env { mpv_available: false, ..env() };
    let eff = process_action(&mut t, Action::Select, &no_mpv);
    assert!(eff.is_empty());
    assert_eq!(status_text(&t), "mpv not available");
    assert!(matches!(t.status_message.as_ref().unwrap().level, StatusLevel::Error));
    assert!(t.feeds[0].episodes[0].is_new);
}

#[test]
fn add_feed_through_input() {
    let mut s = sample();
    let e = env();
    s.selected_feed_idx = 2;
    process_action(&mut s, Action::Select, &e);
    assert_eq!(s.input_mode, InputMode::AddFeedUrl);
    for c in "  https://new.example/rss ".chars() {
        process_action(&mut s, Action::InputChar(c), &e);
    }
    process_action(&mut s, Action::InputChar('x'), &e);
    process_action(&mut s, Action::InputBackspace, &e);
    let eff = process_action(&mut s, Action::ConfirmAddFeed, &e);
    assert_eq!(s.input_mode, InputMode::Normal);
    assert!(s.input_buffer.is_empty());
    assert_eq!(s.feeds.len(), 3);
    assert_eq!(s.selected_feed_idx, 2);
    assert_eq!(s.feeds[2].id, 99);
    assert_eq!(s.feeds[2].url, "https://new.example/rss");
    assert_eq!(s.feeds[2].title, "https://new.example/rss");
    assert_eq!(status_text(&s), "Fetching feed…");
    assert_eq!(s.status_message.as_ref().unwrap().expires_at_ms, 1_004_000);
    assert!(matches!(&eff[..], [Effect::FetchFeed(99, u)] if u == "https://new.example/rss"));
}

#[test]
fn blank_url_and_cancel_add_nothing() {
    let mut s = sample();
    let e = env();
    process_action(&mut s, Action::AddFeed, &e);
    process_action(&mut s, Action::InputChar(' '), &e);
    let eff = process_action(&mut s, Action::ConfirmAddFeed, &e);
    assert!(eff.is_empty());
    assert_eq!(s.feeds.len(), 2);
    process_action(&mut s, Action::AddFeed, &e);
    process_action(&mut s, Action::InputChar('a'), &e);
    process_action(&mut s, Action::CancelInput, &e);
    assert_eq!(s.input_mode, InputMode::Normal);
    assert!(s.input_buffer.is_empty());
    process_action(&mut s, Action::InputBackspace, &e);
    assert!(s.input_buffer.is_empty());
}

#[test]
fn delete_feed_moves_selection() {
    let mut s = sample();
    let e = env();
    s.selected_feed_idx = 1;
    s.selected_episode_idx = 3;
    let eff = process_action(&mut s, Action::DeleteFeed, &e);
    assert!(matches!(&eff[..], [Effect::SaveConfig]));
    assert_eq!(s.feeds.len(), 1);
    assert_eq!(s.feeds[0].id, 1);
    assert_eq!(s.selected_feed_idx, 0);
    assert_eq!(s.selected_episode_idx, 0);
    assert_eq!(status_text(&s), "Feed removed");
    s.focus = Focus::Episodes;
    assert!(process_action(&mut s, Action::DeleteFeed, &e).is_empty());
    assert_eq!(s.feeds.len(), 1);
}

#[test]
fn refresh_requests() {
    let mut s = sample();
    let e = env();
    let eff = process_action(&mut s, Action::RefreshFeed, &e);
    assert!(matches!(&eff[..], [Effect::FetchFeed(1, u)] if u == "https://example.com/1.xml"));
    assert_eq!(status_text(&s), "Refreshing…");
    let eff = process_action(&mut s, Action::RefreshAllFeeds, &e);
    assert_eq!(eff.len(), 2);
    assert!(matches!(&eff[1], Effect::FetchFeed(2, _)));
    assert_eq!(status_text(&s), "Refreshing all feeds…");
    s.selected_feed_idx = 2;
    assert!(process_action(&mut s, Action::RefreshFeed, &e).is_empty());
}

#[test]
fn refreshed_feed_merges() {
    let mut s = sample();
    let e = env();
    s.feeds[1].episodes[0].is_new = false;
    let fresh = vec![episode(500, "y", "Ep Y"), episode(501, "x", "Ep X again")];
    let eff = process_action(&mut s, Action::FeedRefreshed(2, "Lex".to_string(), fresh), &e);
    assert!(matches!(&eff[..], [Effect::SaveConfig]));
    assert_eq!(s.feeds[1].title, "Lex");
    assert_eq!(s.feeds[1].last_refreshed, Some(1_000_000));
    assert_eq!(s.feeds[1].episodes.len(), 2);
    assert_eq!(s.feeds[1].episodes[1].id, 21);
    assert!(!s.feeds[1].episodes[1].is_new);
    assert_eq!(status_text(&s), "Refreshed — 2 episodes");
    let before = s.feeds.len();
    assert!(process_action(&mut s, Action::FeedRefreshed(77, "t".into(), vec![]), &e).is_empty());
    assert_eq!(s.feeds.len(), before);
    process_action(&mut s, Action::FeedRefreshError(2, "timeout".to_string()), &e);
    assert_eq!(status_text(&s), "Error: Lex — timeout");
}

#[test]
fn playback_controls() {
    let mut s = sample();
    let e = env();
    assert!(matches!(&process_action(&mut s, Action::PlayPause, &e)[..], [Effect::Mpv(MpvCommand::TogglePause)]));
    assert!(matches!(
        &process_action(&mut s, Action::SeekBackward(10), &e)[..],
        [Effect::Mpv(MpvCommand::Seek(-10, SeekMode::Relative))]
    ));
    assert!(matches!(
        &process_action(&mut s, Action::SeekForward(60), &e)[..],
        [Effect::Mpv(MpvCommand::Seek(60, SeekMode::Relative))]
    ));
    process_action(&mut s, Action::VolumeUp, &e);
    assert_eq!(s.playback.volume, 85);
    for _ in 0..5 {
        process_action(&mut s, Action::VolumeUp, &e);
    }
    assert_eq!(s.playback.volume, 100);
    s.playback.volume = 3;
    assert!(matches!(&process_action(&mut s, Action::VolumeDown, &e)[..], [Effect::Mpv(MpvCommand::SetVolume(0))]));
    process_action(&mut s, Action::SpeedUp, &e);
    assert_eq!(s.playback.speed, 125);
    for _ in 0..10 {
        process_action(&mut s, Action::SpeedUp, &e);
    }
    assert_eq!(s.playback.speed, 300);
    for _ in 0..20 {
        process_action(&mut s, Action::SpeedDown, &e);
    }
    assert_eq!(s.playback.speed, 25);
    assert!(matches!(&process_action(&mut s, Action::NextChapter, &e)[..], [Effect::Mpv(MpvCommand::NextChapter)]));
    assert!(matches!(&process_action(&mut s, Action::PrevChapter, &e)[..], [Effect::Mpv(MpvCommand::PrevChapter)]));
    let off = Env { mpv_available: false, ..e };
    assert!(process_action(&mut s, Action::PlayPause, &off).is_empty());
    assert!(process_action(&mut s, Action::VolumeUp, &off).is_empty());
    assert_eq!(s.playback.volume, 5);
}

#[test]
fn download_lifecycle() {
    let mut s = sample();
    let e = env();
    s.focus = Focus::Episodes;
    let eff = process_action(&mut s, Action::DownloadEpisode, &e);
    assert!(matches!(&eff[..], [Effect::StartDownload { episode_id: 11, url, file_name }]
        if url == "https://example.com/a.mp3" && file_name == "Ep-A.mp3"));
    assert!(matches!(s.feeds[0].episodes[0].download, DownloadState::Downloading { done_bytes: 0, total_bytes: 0 }));
    assert_eq!(status_text(&s), "Downloading: Ep A");
    assert!(process_action(&mut s, Action::DownloadEpisode, &e).is_empty());
    assert_eq!(status_text(&s), "Download in progress…");
    process_action(&mut s, Action::DownloadProgress(11, 50, 200), &e);
    assert!(matches!(s.feeds[0].episodes[0].download, DownloadState::Downloading { done_bytes: 50, total_bytes: 200 }));
    let eff = process_action(&mut s, Action::DownloadComplete(11, "/home/u/Podcasts/Ep-A.mp3".to_string()), &e);
    assert!(matches!(&eff[..], [Effect::SaveConfig]));
    assert!(matches!(&s.feeds[0].episodes[0].download, DownloadState::Downloaded { path } if path == "/home/u/Podcasts/Ep-A.mp3"));
    assert_eq!(status_text(&s), "Downloaded: Ep-A.mp3");
    process_action(&mut s, Action::DownloadEpisode, &e);
    assert_eq!(status_text(&s), "Already at: /home/u/Podcasts/Ep-A.mp3");
    process_action(&mut s, Action::DownloadError(21, "disk full".to_string()), &e);
    assert!(matches!(&s.feeds[1].episodes[0].download, DownloadState::Failed { reason } if reason == "disk full"));
    assert_eq!(status_text(&s), "Download failed: disk full");
    assert!(matches!(s.status_message.as_ref().unwrap().level, StatusLevel::Error));
    // An unknown episode still saves after completion.
    assert!(matches!(&process_action(&mut s, Action::DownloadComplete(999, "/x".into()), &e)[..], [Effect::SaveConfig]));
}

#[test]
fn messages_progress_and_app_flags() {
    let mut s = sample();
    let e = env();
    let mut pb = PlaybackState::new();
    pb.position_ms = 4000;
    pb.duration_ms = 9000;
    pb.status = PlayStatus::Paused;
    pb.current_chapter_idx = Some(1);
    pb.volume = 3;
    process_action(&mut s, Action::PlaybackProgress(pb), &e);
    assert_eq!(s.playback.position_ms, 4000);
    assert_eq!(s.playback.duration_ms, 9000);
    assert_eq!(s.playback.status, PlayStatus::Paused);
    assert_eq!(s.playback.current_chapter_idx, Some(1));
    assert_eq!(s.playback.volume, 80);
    process_action(&mut s, Action::StatusMessage("hello".to_string(), StatusLevel::Warning), &e);
    assert_eq!(status_text(&s), "hello");
    process_action(&mut s, Action::ToggleHelp, &e);
    assert!(s.show_help);
    assert_eq!(overlay(&s), Overlay::Help);
    process_action(&mut s, Action::Resize(10, 10), &e);
    process_action(&mut s, Action::Quit, &e);
    assert!(s.should_quit);
}

#[test]
fn status_expires_after_four_seconds() {
    let mut s = sample();
    s.set_status_at("hi".to_string(), StatusLevel::Info, 1000);
    assert!(s.status_visible(4999));
    assert!(!s.status_visible(5000));
    s.expire_status(4999);
    assert!(s.status_message.is_some());
    s.expire_status(5000);
    assert!(s.status_message.is_none());
    s.set_status("now".to_string(), StatusLevel::Info);
    assert_eq!(status_text(&s), "now");
}

#[test]
fn current_selection_accessors() {
    let mut s = sample();
    assert_eq!(s.feeds_list_len(), 3);
    assert_eq!(s.current_feed().unwrap().id, 1);
    assert_eq!(s.current_episodes().len(), 3);
    assert_eq!(s.current_episode().unwrap().id, 11);
    s.selected_feed_idx = 2;
    assert!(s.current_feed().is_none());
    assert!(s.current_episodes().is_empty());
    assert!(s.current_episode().is_none());
    assert_eq!(empty_message(&s).as_deref(), Some("No episodes — press [r] to refresh"));
    let empty = AppState::new(vec![]);
    assert_eq!(empty_message(&empty).as_deref(), Some("No feeds yet — press [a] to add one"));
    assert!(empty_message(&sample()).is_none());
}

#[test]
fn feed_and_episode_lines() {
    let mut s = sample();
    s.feeds[0].episodes[2].is_new = false;
    s.playback.episode_id = Some(21);
    let items = feed_items(&s, 22);
    assert_eq!(items.len(), 3);
    assert_eq!(items[0].label, "Darknet Diari… [2]");
    assert!(items[0].selected && !items[0].playing);
    assert_eq!(items[1].label, "Lex Fridman [1]");
    assert!(items[1].playing);
    assert_eq!(items[2].label, "[+] Add Feed");
    assert!(!items[2].selected);
    s.feeds[0].episodes[0].duration_secs = Some(47 * 60);
    s.feeds[0].episodes[0].published = Some(1741593600000);
    s.feeds[0].episodes[1].download = DownloadState::Downloaded { path: "/p".into() };
    s.feeds[0].episodes[2].download = DownloadState::Downloading { done_bytes: 1, total_bytes: 2 };
    let rows = episode_rows(&s, 40);
    assert_eq!(rows.len(), 3);
    assert_eq!(rows[0].title, "Ep A");
    assert_eq!(rows[0].duration, " 47min");
    assert_eq!(rows[0].date, "  Mar 10");
    assert_eq!(rows[0].download.as_deref(), Some("    "));
    assert!(rows[0].selected && rows[0].is_new);
    assert_eq!(rows[1].duration, "      ");
    assert_eq!(rows[1].date, "        ");
    assert_eq!(rows[1].download.as_deref(), Some(" ✓  "));
    assert_eq!(rows[2].download, None);
    assert!(!rows[2].is_new);
}

#[test]
fn settings_and_autosave() {
    let st = Settings::new("/home/u/Podcasts".to_string());
    assert_eq!(st.default_speed, 100);
    assert_eq!(st.default_volume, 80);
    assert_eq!(st.max_episodes_per_feed, 50);
    let c = Config::new("/d".to_string());
    assert!(c.feeds.is_empty());
    let mut s = sample();
    let custom = Settings { default_speed: 150, default_volume: 60, ..st };
    s.apply_settings(&custom);
    assert_eq!(s.playback.speed, 150);
    assert_eq!(s.playback.volume, 60);
    assert!(!autosave_due(0, 30000));
    assert!(autosave_due(0, 30001));
    assert!(!autosave_due(i64::MAX, i64::MIN));
}
