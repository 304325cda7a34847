//! What the application does on each key, event and background result: the
//! new state and the outside work to carry out.

use vstd::prelude::*;
use crate::app::{AppState, Focus, InputMode, StatusLevel, StatusMessage, expiry};
use crate::player::{MpvCommand, PlaybackState, PlayStatus, SeekMode};
use crate::rss::types::{DownloadState, Episode, Feed};
use crate::rss::{merge_episodes, merged_list};
use crate::text::{decimal, decimal_chars, string_from, trim, trim_chars, chars_of, push_char, pop_char};
use crate::download::{file_name_for, safe_filename};

verus! {

/// Something that happened: a key mapped to its meaning, or a result of
/// background work. Seek offsets are in seconds; downloads count bytes.
#[derive(Debug, Clone)]
pub enum Action {
    // Navigation
    FocusNext,
    MoveUp,
    MoveDown,
    Select,
    // Feed management
    AddFeed,
    ConfirmAddFeed,
    CancelInput,
    DeleteFeed,
    RefreshFeed,
    RefreshAllFeeds,
    // Playback
    PlayPause,
    SeekForward(u32),
    SeekBackward(u32),
    VolumeUp,
    VolumeDown,
    SpeedUp,
    SpeedDown,
    NextChapter,
    PrevChapter,
    InputChar(char),
    InputBackspace,
    // Download
    DownloadEpisode,
    // App
    ToggleHelp,
    Quit,
    Resize(u16, u16),
    // Results of background work
    FeedRefreshed(u128, String, Vec<Episode>),
    FeedRefreshError(u128, String),
    PlaybackProgress(PlaybackState),
    DownloadProgress(u128, u64, u64),
    DownloadComplete(u128, String),
    DownloadError(u128, String),
    StatusMessage(String, StatusLevel),
}

/// Outside work that an action calls for, to be carried out in order.
#[derive(Debug, Clone)]
pub enum Effect {
    /// Send a command to mpv.
    Mpv(MpvCommand),
    /// Fetch the feed with this identifier from this URL.
    FetchFeed(u128, String),
    /// Download the audio of an episode into the download directory under `file_name`.
    StartDownload { episode_id: u128, url: String, file_name: String },
    /// Write the feeds to the configuration file.
    SaveConfig,
}

/// What the application knows from outside when it handles an action: the
/// time, the identifier a new feed gets, and whether mpv is running.
#[derive(Debug, Clone, Copy)]
pub struct Env {
    pub now_ms: i64,
    pub new_feed_id: u128,
    pub mpv_available: bool,
}

// ---------------------------------------------------------------- keys

/// A key, as far as the application tells keys apart.
#[derive(Debug, Clone, Copy, PartialEq, Eq)]
pub enum KeyCode {
    Enter,
    Esc,
    Backspace,
    Tab,
    Up,
    Down,
    Left,
    Right,
    Char(char),
    Other,
}

/// A key event: the key, and whether it was pressed (rather than released or repeated).
#[derive(Debug, Clone, Copy)]
pub struct KeyInput {
    pub code: KeyCode,
    pub is_press: bool,
}

/// The action a key stands for: while a URL is typed, keys edit it; while the
/// help is open, only `?`, `q` and Esc (which close it) count; otherwise each
/// key has its binding.
pub open spec fn key_action(key: KeyInput, mode: InputMode, show_help: bool) -> Option<Action> {
    if !key.is_press {
        None
    } else if mode == InputMode::AddFeedUrl {
        match key.code {
            KeyCode::Enter => Some(Action::ConfirmAddFeed),
            KeyCode::Esc => Some(Action::CancelInput),
            KeyCode::Char(c) => Some(Action::InputChar(c)),
            KeyCode::Backspace => Some(Action::InputBackspace),
            _ => None,
        }
    } else if show_help {
        match key.code {
            KeyCode::Char('?') | KeyCode::Esc | KeyCode::Char('q') => Some(Action::ToggleHelp),
            _ => None,
        }
    } else {
        match key.code {
            KeyCode::Char('q') => Some(Action::Quit),
            KeyCode::Tab => Some(Action::FocusNext),
            KeyCode::Char('j') | KeyCode::Down => Some(Action::MoveDown),
            KeyCode::Char('k') | KeyCode::Up => Some(Action::MoveUp),
            KeyCode::Enter => Some(Action::Select),
            KeyCode::Char('a') => Some(Action::AddFeed),
            KeyCode::Char('d') => Some(Action::DeleteFeed),
            KeyCode::Char('r') => Some(Action::RefreshFeed),
            KeyCode::Char('R') => Some(Action::RefreshAllFeeds),
            KeyCode::Char(' ') => Some(Action::PlayPause),
            KeyCode::Char('l') | KeyCode::Right => Some(Action::SeekForward(10)),
            KeyCode::Char('h') | KeyCode::Left => Some(Action::SeekBackward(10)),
            KeyCode::Char('L') => Some(Action::SeekForward(60)),
            KeyCode::Char('H') => Some(Action::SeekBackward(60)),
            KeyCode::Char('+') => Some(Action::VolumeUp),
            KeyCode::Char('-') => Some(Action::VolumeDown),
            KeyCode::Char('>') => Some(Action::SpeedUp),
            KeyCode::Char('<') => Some(Action::SpeedDown),
            KeyCode::Char(']') => Some(Action::NextChapter),
            KeyCode::Char('[') => Some(Action::PrevChapter),
            KeyCode::Char('D') => Some(Action::DownloadEpisode),
            KeyCode::Char('?') => Some(Action::ToggleHelp),
            _ => None,
        }
    }
}

/// The action a key stands for in the current state, if any.
pub fn map_key(key: KeyInput, state: &AppState) -> (r: Option<Action>)
    ensures
        r == key_action(key, state.input_mode, state.show_help),
{
    if !key.is_press {
        return None;
    }
    if state.input_mode == InputMode::AddFeedUrl {
        return match key.code {
            KeyCode::Enter => Some(Action::ConfirmAddFeed),
            KeyCode::Esc => Some(Action::CancelInput),
            KeyCode::Char(c) => Some(Action::InputChar(c)),
            KeyCode::Backspace => Some(Action::InputBackspace),
            _ => None,
        };
    }
    if state.show_help {
        return match key.code {
            KeyCode::Char('?') | KeyCode::Esc | KeyCode::Char('q') => Some(Action::ToggleHelp),
            _ => None,
        };
    }
    match key.code {
        KeyCode::Char('q') => Some(Action::Quit),
        KeyCode::Tab => Some(Action::FocusNext),
        KeyCode::Char('j') | KeyCode::Down => Some(Action::MoveDown),
        KeyCode::Char('k') | KeyCode::Up => Some(Action::MoveUp),
        KeyCode::Enter => Some(Action::Select),
        KeyCode::Char('a') => Some(Action::AddFeed),
        KeyCode::Char('d') => Some(Action::DeleteFeed),
        KeyCode::Char('r') => Some(Action::RefreshFeed),
        KeyCode::Char('R') => Some(Action::RefreshAllFeeds),
        KeyCode::Char(' ') => Some(Action::PlayPause),
        KeyCode::Char('l') | KeyCode::Right => Some(Action::SeekForward(10)),
        KeyCode::Char('h') | KeyCode::Left => Some(Action::SeekBackward(10)),
        KeyCode::Char('L') => Some(Action::SeekForward(60)),
        KeyCode::Char('H') => Some(Action::SeekBackward(60)),
        KeyCode::Char('+') => Some(Action::VolumeUp),
        KeyCode::Char('-') => Some(Action::VolumeDown),
        KeyCode::Char('>') => Some(Action::SpeedUp),
        KeyCode::Char('<') => Some(Action::SpeedDown),
        KeyCode::Char(']') => Some(Action::NextChapter),
        KeyCode::Char('[') => Some(Action::PrevChapter),
        KeyCode::Char('D') => Some(Action::DownloadEpisode),
        KeyCode::Char('?') => Some(Action::ToggleHelp),
        _ => None,
    }
}


// ---------------------------------------------------------------- specification helpers

/// `s` is a status message with this text and level, set at `now`.
pub open spec fn shows(s: Option<StatusMessage>, text: Seq<char>, level: StatusLevel, now: i64) -> bool {
    s matches Some(m) && m.text@ == text && m.level == level && m.expires_at_ms == expiry(now)
}

/// `new` is `old` but for the status message, which shows `text` from `now`.
pub open spec fn only_status(old: AppState, new: AppState, text: Seq<char>, level: StatusLevel, now: i64) -> bool {
    &&& new == AppState { status_message: new.status_message, ..old }
    &&& shows(new.status_message, text, level, now)
}

/// The feeds `new` are `old` with episode `j` of feed `k` replaced by `e`.
pub open spec fn episode_replaced(old: Seq<Feed>, new: Seq<Feed>, k: int, j: int, e: Episode) -> bool {
    &&& 0 <= k < old.len()
    &&& new.len() == old.len()
    &&& 0 <= j < old[k].episodes@.len()
    &&& forall|f: int| 0 <= f < old.len() && f != k ==> #[trigger] new[f] == old[f]
    &&& new[k].id == old[k].id
    &&& new[k].title == old[k].title
    &&& new[k].url == old[k].url
    &&& new[k].description == old[k].description
    &&& new[k].last_refreshed == old[k].last_refreshed
    &&& new[k].episodes@ == old[k].episodes@.update(j, e)
}

/// Position of the first feed with identifier `id`.
pub open spec fn feed_index(feeds: Seq<Feed>, id: u128) -> Option<int>
    decreases feeds.len(),
{
    if feeds.len() == 0 {
        None
    } else {
        match feed_index(feeds.drop_last(), id) {
            Some(k) => Some(k),
            None => if feeds.last().id == id {
                Some(feeds.len() - 1)
            } else {
                None
            },
        }
    }
}

/// Position of the first episode with identifier `id`.
pub open spec fn episode_index(eps: Seq<Episode>, id: u128) -> Option<int>
    decreases eps.len(),
{
    if eps.len() == 0 {
        None
    } else {
        match episode_index(eps.drop_last(), id) {
            Some(j) => Some(j),
            None => if eps.last().id == id {
                Some(eps.len() - 1)
            } else {
                None
            },
        }
    }
}

/// Where the first episode with identifier `id` is: the first feed that has
/// one, and the first such episode in it.
pub open spec fn episode_position(feeds: Seq<Feed>, id: u128) -> Option<(int, int)>
    decreases feeds.len(),
{
    if feeds.len() == 0 {
        None
    } else {
        match episode_position(feeds.drop_last(), id) {
            Some(p) => Some(p),
            None => match episode_index(feeds.last().episodes@, id) {
                Some(j) => Some((feeds.len() - 1, j)),
                None => None,
            },
        }
    }
}

proof fn lemma_feed_index_prefix(feeds: Seq<Feed>, id: u128, m: int)
    requires
        0 <= m <= feeds.len(),
        feed_index(feeds.take(m), id) is Some,
    ensures
        feed_index(feeds, id) == feed_index(feeds.take(m), id),
    decreases feeds.len() - m,
{
    if m < feeds.len() {
        assert(feeds.take(m + 1).drop_last() == feeds.take(m));
        lemma_feed_index_prefix(feeds, id, m + 1);
    } else {
        assert(feeds.take(m) == feeds);
    }
}

proof fn lemma_episode_index_prefix(eps: Seq<Episode>, id: u128, m: int)
    requires
        0 <= m <= eps.len(),
        episode_index(eps.take(m), id) is Some,
    ensures
        episode_index(eps, id) == episode_index(eps.take(m), id),
    decreases eps.len() - m,
{
    if m < eps.len() {
        assert(eps.take(m + 1).drop_last() == eps.take(m));
        lemma_episode_index_prefix(eps, id, m + 1);
    } else {
        assert(eps.take(m) == eps);
    }
}

proof fn lemma_episode_position_prefix(feeds: Seq<Feed>, id: u128, m: int)
    requires
        0 <= m <= feeds.len(),
        episode_position(feeds.take(m), id) is Some,
    ensures
        episode_position(feeds, id) == episode_position(feeds.take(m), id),
    decreases feeds.len() - m,
{
    if m < feeds.len() {
        assert(feeds.take(m + 1).drop_last() == feeds.take(m));
        lemma_episode_position_prefix(feeds, id, m + 1);
    } else {
        assert(feeds.take(m) == feeds);
    }
}

pub proof fn lemma_index_in_range(feeds: Seq<Feed>, id: u128)
    ensures
        feed_index(feeds, id) matches Some(k) ==> 0 <= k < feeds.len() && feeds[k].id == id,
        episode_position(feeds, id) matches Some((k, j)) ==> 0 <= k < feeds.len() && 0 <= j
            < feeds[k].episodes@.len() && feeds[k].episodes@[j].id == id,
    decreases feeds.len(),
{
    if feeds.len() > 0 {
        lemma_index_in_range(feeds.drop_last(), id);
        lemma_episode_index_in_range(feeds.last().episodes@, id);
    }
}

pub proof fn lemma_episode_index_in_range(eps: Seq<Episode>, id: u128)
    ensures
        episode_index(eps, id) matches Some(j) ==> 0 <= j < eps.len() && eps[j].id == id,
    decreases eps.len(),
{
    if eps.len() > 0 {
        lemma_episode_index_in_range(eps.drop_last(), id);
    }
}

fn find_feed(feeds: &Vec<Feed>, id: u128) -> (r: Option<usize>)
    ensures
        r matches Some(k) ==> feed_index(feeds@, id) == Some(k as int),
        r is None ==> feed_index(feeds@, id) is None,
{
    let mut i: usize = 0;
    while i < feeds.len()
        invariant
            i <= feeds@.len(),
            feed_index(feeds@.take(i as int), id) is None,
        decreases feeds.len() - i,
    {
        assert(feeds@.take(i + 1).drop_last() == feeds@.take(i as int));
        if feeds[i].id == id {
            proof {
                lemma_feed_index_prefix(feeds@, id, i + 1);
            }
            return Some(i);
        }
        i = i + 1;
    }
    assert(feeds@.take(i as int) == feeds@);
    None
}

fn find_episode_in(eps: &Vec<Episode>, id: u128) -> (r: Option<usize>)
    ensures
        r matches Some(j) ==> episode_index(eps@, id) == Some(j as int),
        r is None ==> episode_index(eps@, id) is None,
{
    let mut i: usize = 0;
    while i < eps.len()
        invariant
            i <= eps@.len(),
            episode_index(eps@.take(i as int), id) is None,
        decreases eps.len() - i,
    {
        assert(eps@.take(i + 1).drop_last() == eps@.take(i as int));
        if eps[i].id == id {
            proof {
                lemma_episode_index_prefix(eps@, id, i + 1);
            }
            return Some(i);
        }
        i = i + 1;
    }
    assert(eps@.take(i as int) == eps@);
    None
}

fn find_episode(feeds: &Vec<Feed>, id: u128) -> (r: Option<(usize, usize)>)
    ensures
        r matches Some((k, j)) ==> episode_position(feeds@, id) == Some((k as int, j as int)),
        r is None ==> episode_position(feeds@, id) is None,
{
    let mut i: usize = 0;
    while i < feeds.len()
        invariant
            i <= feeds@.len(),
            episode_position(feeds@.take(i as int), id) is None,
        decreases feeds.len() - i,
    {
        assert(feeds@.take(i + 1).drop_last() == feeds@.take(i as int));
        assert(feeds@.take(i + 1).last() == feeds@[i as int]);
        match find_episode_in(&feeds[i].episodes, id) {
            Some(j) => {
                proof {
                    lemma_episode_position_prefix(feeds@, id, i + 1);
                }
                return Some((i, j));
            },
            None => {},
        }
        i = i + 1;
    }
    assert(feeds@.take(i as int) == feeds@);
    None
}

// ---------------------------------------------------------------- what each action does

/// Effects of a command for mpv, when mpv runs.
pub open spec fn mpv_effect(env: Env, cmd: MpvCommand) -> Seq<Effect> {
    if env.mpv_available {
        seq![Effect::Mpv(cmd)]
    } else {
        seq![]
    }
}

fn mpv_effect_exec(env: &Env, cmd: MpvCommand) -> (r: Vec<Effect>)
    ensures
        r@ == mpv_effect(*env, cmd),
{
    let mut r: Vec<Effect> = Vec::new();
    if env.mpv_available {
        r.push(Effect::Mpv(cmd));
    }
    r
}

/// The panel the focus moves to.
pub open spec fn other_focus(f: Focus) -> Focus {
    match f {
        Focus::Feeds => Focus::Episodes,
        Focus::Episodes => Focus::Feeds,
    }
}

/// The state after moving the selection up.
pub open spec fn after_move_up(s: AppState) -> AppState {
    match s.focus {
        Focus::Feeds => if s.selected_feed_idx > 0 {
            AppState { selected_feed_idx: (s.selected_feed_idx - 1) as usize, selected_episode_idx: 0, ..s }
        } else {
            s
        },
        Focus::Episodes => if s.selected_episode_idx > 0 {
            AppState { selected_episode_idx: (s.selected_episode_idx - 1) as usize, ..s }
        } else {
            s
        },
    }
}

/// The state after moving the selection down: at most to the "add feed"
/// entry, or to the last episode.
pub open spec fn after_move_down(s: AppState) -> AppState {
    match s.focus {
        Focus::Feeds => if s.selected_feed_idx < s.feeds@.len() {
            AppState { selected_feed_idx: (s.selected_feed_idx + 1) as usize, selected_episode_idx: 0, ..s }
        } else {
            s
        },
        Focus::Episodes => if s.selected_episode_idx + 1 < s.spec_current_episodes().len() {
            AppState { selected_episode_idx: (s.selected_episode_idx + 1) as usize, ..s }
        } else {
            s
        },
    }
}

/// The volume one step up: five percent more, at most 100.
pub open spec fn volume_up(v: u8) -> u8 {
    if v + 5 > 100 {
        100
    } else {
        (v + 5) as u8
    }
}

/// The volume one step down: five percent less, at least 0.
pub open spec fn volume_down(v: u8) -> u8 {
    if v < 5 {
        0
    } else {
        (v - 5) as u8
    }
}

/// The speed one step up: a quarter more, at most 3.
pub open spec fn speed_up(s: u32) -> u32 {
    if s + 25 > 300 {
        300
    } else {
        (s + 25) as u32
    }
}

/// The speed one step down: a quarter less, at least a quarter.
pub open spec fn speed_down(s: u32) -> u32 {
    if s < 50 {
        25
    } else {
        (s - 25) as u32
    }
}

/// The state with the playback volume set to `v`.
pub open spec fn with_volume(s: AppState, v: u8) -> AppState {
    AppState { playback: PlaybackState { volume: v, ..s.playback }, ..s }
}

/// The state with the playback speed set to `h`.
pub open spec fn with_speed(s: AppState, h: u32) -> AppState {
    AppState { playback: PlaybackState { speed: h, ..s.playback }, ..s }
}

/// The state with the progress that mpv reported taken over.
pub open spec fn with_progress(s: AppState, pb: PlaybackState) -> AppState {
    AppState {
        playback: PlaybackState {
            position_ms: pb.position_ms,
            duration_ms: pb.duration_ms,
            status: pb.status,
            current_chapter_idx: pb.current_chapter_idx,
            ..s.playback
        },
        ..s
    }
}

/// `new` is `old` with the input mode set to `mode` and the input cleared.
pub open spec fn input_reset(old: AppState, new: AppState, mode: InputMode) -> bool {
    &&& new == AppState { input_mode: mode, input_buffer: new.input_buffer, ..old }
    &&& new.input_buffer@.len() == 0
}


/// The file name part of a path, as `std::path::Path::file_name` takes it.
pub uninterp spec fn path_file_name(p: Seq<char>) -> Option<Seq<char>>;

/// `Path::file_name` of `p`, as text. The contract claims only that the
/// outcome is a function of the path (`path_file_name`).
#[verifier::external_body]
fn file_name_of(p: &str) -> (r: Option<String>)
    ensures
        (match r {
            Some(x) => Some(x@),
            None => None,
        }) == path_file_name(p@),
{
    std::path::Path::new(p).file_name().map(|f| f.to_string_lossy().to_string())
}

/// The name under which a downloaded file is announced: its file name, or nothing.
pub open spec fn shown_file_name(p: Seq<char>) -> Seq<char> {
    match path_file_name(p) {
        Some(x) => x,
        None => Seq::<char>::empty(),
    }
}

/// What mpv is asked to play for an episode: the downloaded file if there is one.
pub open spec fn play_url(ep: Episode) -> String {
    match ep.download {
        DownloadState::Downloaded { path } => path,
        _ => ep.audio_url,
    }
}

/// Enter: on "add feed" it opens the URL input; on an episode it plays it
/// (and marks it seen) when mpv runs, or says that mpv is missing.
pub open spec fn select_spec(old: AppState, env: Env, new: AppState, eff: Seq<Effect>) -> bool {
    if old.focus == Focus::Feeds && old.selected_feed_idx == old.feeds@.len() {
        input_reset(old, new, InputMode::AddFeedUrl) && eff.len() == 0
    } else if old.focus == Focus::Episodes && old.spec_current_episode() is Some {
        let ep = old.spec_current_episode()->0;
        if env.mpv_available {
            &&& eff == seq![
                Effect::Mpv(MpvCommand::LoadFile(play_url(ep))),
                Effect::Mpv(MpvCommand::SetSpeed(old.playback.speed)),
                Effect::Mpv(MpvCommand::SetVolume(old.playback.volume)),
            ]
            &&& new == AppState {
                feeds: new.feeds,
                playback: PlaybackState {
                    episode_id: Some(ep.id),
                    episode_title: Some(ep.title),
                    status: PlayStatus::Playing,
                    position_ms: 0,
                    ..old.playback
                },
                ..old
            }
            &&& episode_replaced(
                old.feeds@,
                new.feeds@,
                old.selected_feed_idx as int,
                old.selected_episode_idx as int,
                Episode { is_new: false, ..ep },
            )
        } else {
            only_status(old, new, "mpv not available"@, StatusLevel::Error, env.now_ms) && eff.len()
                == 0
        }
    } else {
        new == old && eff.len() == 0
    }
}

fn handle_select(state: &mut AppState, env: &Env) -> (eff: Vec<Effect>)
    ensures
        select_spec(*old(state), *env, *final(state), eff@),
{
    let mut eff: Vec<Effect> = Vec::new();
    if state.focus == Focus::Feeds && state.selected_feed_idx == state.feeds.len() {
        state.input_mode = InputMode::AddFeedUrl;
        state.input_buffer = String::new();
        return eff;
    }
    if state.focus == Focus::Episodes {
        let k = state.selected_feed_idx;
        let j = state.selected_episode_idx;
        if k < state.feeds.len() && j < state.feeds[k].episodes.len() {
            let url = match &state.feeds[k].episodes[j].download {
                DownloadState::Downloaded { path } => path.clone(),
                _ => state.feeds[k].episodes[j].audio_url.clone(),
            };
            if env.mpv_available {
                let id = state.feeds[k].episodes[j].id;
                let title = state.feeds[k].episodes[j].title.clone();
                eff.push(Effect::Mpv(MpvCommand::LoadFile(url)));
                eff.push(Effect::Mpv(MpvCommand::SetSpeed(state.playback.speed)));
                eff.push(Effect::Mpv(MpvCommand::SetVolume(state.playback.volume)));
                state.playback.episode_id = Some(id);
                state.playback.episode_title = Some(title);
                state.playback.status = PlayStatus::Playing;
                state.playback.position_ms = 0;
                state.feeds[k].episodes[j].is_new = false;
                assert(eff@ == seq![
                    Effect::Mpv(MpvCommand::LoadFile(play_url(old(state).spec_current_episode()->0))),
                    Effect::Mpv(MpvCommand::SetSpeed(old(state).playback.speed)),
                    Effect::Mpv(MpvCommand::SetVolume(old(state).playback.volume)),
                ]);
                assert(episode_replaced(
                    old(state).feeds@,
                    state.feeds@,
                    k as int,
                    j as int,
                    Episode { is_new: false, ..old(state).spec_current_episode()->0 },
                ));
            } else {
                state.set_status_at(String::from_str("mpv not available"), StatusLevel::Error, env.now_ms);
            }
        }
    }
    eff
}

/// `f` is a feed just added for `url` with identifier `id`, not fetched yet.
pub open spec fn fresh_feed(f: Feed, id: u128, url: Seq<char>) -> bool {
    &&& f.id == id
    &&& f.title@ == url
    &&& f.url@ == url
    &&& f.description is None
    &&& f.last_refreshed is None
    &&& f.episodes@.len() == 0
}

/// Enter in the URL input: the input closes; a non-blank URL (trimmed)
/// becomes a new selected feed, which is then fetched.
pub open spec fn confirm_spec(old: AppState, env: Env, new: AppState, eff: Seq<Effect>) -> bool {
    let url = trim(old.input_buffer@);
    if url.len() == 0 {
        input_reset(old, new, InputMode::Normal) && eff.len() == 0
    } else {
        &&& new == AppState {
            input_mode: InputMode::Normal,
            input_buffer: new.input_buffer,
            feeds: new.feeds,
            selected_feed_idx: old.feeds@.len() as usize,
            status_message: new.status_message,
            ..old
        }
        &&& new.input_buffer@.len() == 0
        &&& new.feeds@.len() == old.feeds@.len() + 1
        &&& new.feeds@.drop_last() == old.feeds@
        &&& fresh_feed(new.feeds@.last(), env.new_feed_id, url)
        &&& shows(new.status_message, "Fetching feed…"@, StatusLevel::Info, env.now_ms)
        &&& eff == seq![Effect::FetchFeed(env.new_feed_id, new.feeds@.last().url)]
    }
}

fn handle_confirm(state: &mut AppState, env: &Env) -> (eff: Vec<Effect>)
    ensures
        confirm_spec(*old(state), *env, *final(state), eff@),
{
    let mut eff: Vec<Effect> = Vec::new();
    let chars = chars_of(state.input_buffer.as_str());
    let url_chars = trim_chars(&chars);
    state.input_mode = InputMode::Normal;
    state.input_buffer = String::new();
    if url_chars.len() == 0 {
        return eff;
    }
    let url = string_from(&url_chars);
    let feed = Feed::with_id(env.new_feed_id, url.clone());
    state.feeds.push(feed);
    state.selected_feed_idx = state.feeds.len() - 1;
    state.set_status_at(String::from_str("Fetching feed…"), StatusLevel::Info, env.now_ms);
    eff.push(Effect::FetchFeed(env.new_feed_id, url));
    assert(state.feeds@.drop_last() == old(state).feeds@);
    assert(fresh_feed(state.feeds@.last(), env.new_feed_id, trim(old(state).input_buffer@)));
    eff
}

/// `d` on a feed: the feed goes, the selection moves up one, and the
/// remaining feeds are saved.
pub open spec fn delete_spec(old: AppState, env: Env, new: AppState, eff: Seq<Effect>) -> bool {
    if old.focus == Focus::Feeds && old.selected_feed_idx < old.feeds@.len() {
        &&& new == AppState {
            feeds: new.feeds,
            selected_feed_idx: if old.selected_feed_idx > 0 {
                (old.selected_feed_idx - 1) as usize
            } else {
                0
            },
            selected_episode_idx: 0,
            status_message: new.status_message,
            ..old
        }
        &&& new.feeds@ == old.feeds@.remove(old.selected_feed_idx as int)
        &&& shows(new.status_message, "Feed removed"@, StatusLevel::Info, env.now_ms)
        &&& eff == seq![Effect::SaveConfig]
    } else {
        new == old && eff.len() == 0
    }
}

fn handle_delete(state: &mut AppState, env: &Env) -> (eff: Vec<Effect>)
    ensures
        delete_spec(*old(state), *env, *final(state), eff@),
{
    let mut eff: Vec<Effect> = Vec::new();
    if state.focus == Focus::Feeds && state.selected_feed_idx < state.feeds.len() {
        state.feeds.remove(state.selected_feed_idx);
        if state.selected_feed_idx > 0 {
            state.selected_feed_idx = state.selected_feed_idx - 1;
        }
        state.selected_episode_idx = 0;
        eff.push(Effect::SaveConfig);
        state.set_status_at(String::from_str("Feed removed"), StatusLevel::Info, env.now_ms);
    }
    eff
}

/// `r`: the selected feed is fetched again.
pub open spec fn refresh_spec(old: AppState, env: Env, new: AppState, eff: Seq<Effect>) -> bool {
    if old.selected_feed_idx < old.feeds@.len() {
        let f = old.feeds@[old.selected_feed_idx as int];
        &&& only_status(old, new, "Refreshing…"@, StatusLevel::Info, env.now_ms)
        &&& eff == seq![Effect::FetchFeed(f.id, f.url)]
    } else {
        new == old && eff.len() == 0
    }
}

fn handle_refresh(state: &mut AppState, env: &Env) -> (eff: Vec<Effect>)
    ensures
        refresh_spec(*old(state), *env, *final(state), eff@),
{
    let mut eff: Vec<Effect> = Vec::new();
    let k = state.selected_feed_idx;
    if k < state.feeds.len() {
        let id = state.feeds[k].id;
        let url = state.feeds[k].url.clone();
        state.set_status_at(String::from_str("Refreshing…"), StatusLevel::Info, env.now_ms);
        eff.push(Effect::FetchFeed(id, url));
    }
    eff
}

/// The fetch of every feed, in order.
pub open spec fn fetch_all(feeds: Seq<Feed>, eff: Seq<Effect>) -> bool {
    &&& eff.len() == feeds.len()
    &&& forall|i: int| 0 <= i < feeds.len() ==> #[trigger] eff[i] == Effect::FetchFeed(feeds[i].id, feeds[i].url)
}

/// `R`: every feed is fetched again.
pub open spec fn refresh_all_spec(old: AppState, env: Env, new: AppState, eff: Seq<Effect>) -> bool {
    &&& only_status(old, new, "Refreshing all feeds…"@, StatusLevel::Info, env.now_ms)
    &&& fetch_all(old.feeds@, eff)
}

fn handle_refresh_all(state: &mut AppState, env: &Env) -> (eff: Vec<Effect>)
    ensures
        refresh_all_spec(*old(state), *env, *final(state), eff@),
{
    state.set_status_at(String::from_str("Refreshing all feeds…"), StatusLevel::Info, env.now_ms);
    let mut eff: Vec<Effect> = Vec::new();
    for i in 0..state.feeds.len()
        invariant
            eff@.len() == i,
            forall|k: int| 0 <= k < i ==> #[trigger] eff@[k] == Effect::FetchFeed(state.feeds@[k].id, state.feeds@[k].url),
    {
        eff.push(Effect::FetchFeed(state.feeds[i].id, state.feeds[i].url.clone()));
    }
    eff
}

/// Fresh episodes of a feed arrived: the first feed with that identifier
/// takes them, merged with what it knew, its new title and the refresh
/// time; the count is announced and the feeds are saved.
pub open spec fn refreshed_spec(
    old: AppState,
    env: Env,
    id: u128,
    title: String,
    fresh: Seq<Episode>,
    new: AppState,
    eff: Seq<Effect>,
) -> bool {
    match feed_index(old.feeds@, id) {
        Some(k) => {
            &&& new == AppState { feeds: new.feeds, status_message: new.status_message, ..old }
            &&& new.feeds@.len() == old.feeds@.len()
            &&& forall|f: int| 0 <= f < old.feeds@.len() && f != k ==> #[trigger] new.feeds@[f] == old.feeds@[f]
            &&& new.feeds@[k].id == old.feeds@[k].id
            &&& new.feeds@[k].url == old.feeds@[k].url
            &&& new.feeds@[k].description == old.feeds@[k].description
            &&& new.feeds@[k].title == title
            &&& new.feeds@[k].last_refreshed == Some(env.now_ms)
            &&& merged_list(new.feeds@[k].episodes@, old.feeds@[k].episodes@, fresh)
            &&& shows(
                new.status_message,
                "Refreshed — "@ + decimal(fresh.len()) + " episodes"@,
                StatusLevel::Info,
                env.now_ms,
            )
            &&& eff == seq![Effect::SaveConfig]
        },
        None => new == old && eff.len() == 0,
    }
}

fn handle_refreshed(state: &mut AppState, env: &Env, id: u128, title: String, fresh: Vec<Episode>) -> (eff: Vec<Effect>)
    ensures
        refreshed_spec(*old(state), *env, id, title, fresh@, *final(state), eff@),
{
    let mut eff: Vec<Effect> = Vec::new();
    match find_feed(&state.feeds, id) {
        Some(k) => {
            proof {
                lemma_index_in_range(state.feeds@, id);
            }
            let ghost n = fresh@.len();
            merge_episodes(&mut state.feeds[k].episodes, fresh);
            state.feeds[k].title = title;
            state.feeds[k].last_refreshed = Some(env.now_ms);
            let count = state.feeds[k].episodes.len();
            let mut text = String::from_str("Refreshed — ");
            let digits = string_from(&decimal_chars(count as u64));
            text.append(digits.as_str());
            text.append(" episodes");
            state.set_status_at(text, StatusLevel::Info, env.now_ms);
            eff.push(Effect::SaveConfig);
        },
        None => {},
    }
    eff
}

/// A feed could not be fetched: the error is shown with the feed's title.
pub open spec fn refresh_error_spec(old: AppState, env: Env, id: u128, err: String, new: AppState, eff: Seq<Effect>) -> bool {
    &&& eff.len() == 0
    &&& match feed_index(old.feeds@, id) {
        Some(k) => only_status(
            old,
            new,
            "Error: "@ + old.feeds@[k].title@ + " — "@ + err@,
            StatusLevel::Error,
            env.now_ms,
        ),
        None => new == old,
    }
}

fn handle_refresh_error(state: &mut AppState, env: &Env, id: u128, err: String) -> (eff: Vec<Effect>)
    ensures
        refresh_error_spec(*old(state), *env, id, err, *final(state), eff@),
{
    match find_feed(&state.feeds, id) {
        Some(k) => {
            proof {
                lemma_index_in_range(state.feeds@, id);
            }
            let mut text = String::from_str("Error: ");
            text.append(state.feeds[k].title.as_str());
            text.append(" — ");
            text.append(err.as_str());
            state.set_status_at(text, StatusLevel::Error, env.now_ms);
        },
        None => {},
    }
    Vec::new()
}


/// `D` on an episode: an episode not downloaded (or whose download failed)
/// starts downloading; otherwise the interface says where it is or that it is
/// on its way.
pub open spec fn download_spec(old: AppState, env: Env, new: AppState, eff: Seq<Effect>) -> bool {
    if old.focus == Focus::Episodes && old.spec_current_episode() is Some {
        let ep = old.spec_current_episode()->0;
        match ep.download {
            DownloadState::Downloaded { path } => only_status(
                old,
                new,
                "Already at: "@ + path@,
                StatusLevel::Info,
                env.now_ms,
            ) && eff.len() == 0,
            DownloadState::Downloading { .. } => only_status(
                old,
                new,
                "Download in progress…"@,
                StatusLevel::Info,
                env.now_ms,
            ) && eff.len() == 0,
            _ => {
                &&& new == AppState { feeds: new.feeds, status_message: new.status_message, ..old }
                &&& episode_replaced(
                    old.feeds@,
                    new.feeds@,
                    old.selected_feed_idx as int,
                    old.selected_episode_idx as int,
                    Episode { download: DownloadState::Downloading { done_bytes: 0, total_bytes: 0 }, ..ep },
                )
                &&& shows(new.status_message, "Downloading: "@ + ep.title@, StatusLevel::Info, env.now_ms)
                &&& eff.len() == 1
                &&& eff[0] matches Effect::StartDownload { episode_id, url, file_name }
                &&& episode_id == ep.id
                &&& url == ep.audio_url
                &&& file_name@ == file_name_for(ep.title@)
            },
        }
    } else {
        new == old && eff.len() == 0
    }
}

fn handle_download(state: &mut AppState, env: &Env) -> (eff: Vec<Effect>)
    ensures
        download_spec(*old(state), *env, *final(state), eff@),
{
    let mut eff: Vec<Effect> = Vec::new();
    if state.focus == Focus::Episodes {
        let k = state.selected_feed_idx;
        let j = state.selected_episode_idx;
        if k < state.feeds.len() && j < state.feeds[k].episodes.len() {
            let ghost ep = state.feeds@[k as int].episodes@[j as int];
            match &state.feeds[k].episodes[j].download {
                DownloadState::Downloaded { path } => {
                    let mut text = String::from_str("Already at: ");
                    text.append(path.as_str());
                    state.set_status_at(text, StatusLevel::Info, env.now_ms);
                },
                DownloadState::Downloading { .. } => {
                    state.set_status_at(
                        String::from_str("Download in progress…"),
                        StatusLevel::Info,
                        env.now_ms,
                    );
                },
                _ => {
                    let id = state.feeds[k].episodes[j].id;
                    let url = state.feeds[k].episodes[j].audio_url.clone();
                    let file_name = safe_filename(state.feeds[k].episodes[j].title.as_str());
                    let mut text = String::from_str("Downloading: ");
                    text.append(state.feeds[k].episodes[j].title.as_str());
                    state.feeds[k].episodes[j].download = DownloadState::Downloading {
                        done_bytes: 0,
                        total_bytes: 0,
                    };
                    eff.push(Effect::StartDownload { episode_id: id, url, file_name });
                    state.set_status_at(text, StatusLevel::Info, env.now_ms);
                    assert(episode_replaced(
                        old(state).feeds@,
                        state.feeds@,
                        k as int,
                        j as int,
                        Episode { download: DownloadState::Downloading { done_bytes: 0, total_bytes: 0 }, ..ep },
                    ));
                },
            }
        }
    }
    eff
}

/// The state whose episode at `pos`, if any, has download state `d`.
pub open spec fn download_set(old: AppState, new: AppState, pos: (int, int), d: DownloadState) -> bool {
    &&& new == AppState { feeds: new.feeds, status_message: new.status_message, ..old }
    &&& episode_replaced(old.feeds@, new.feeds@, pos.0, pos.1, Episode { download: d, ..old.feeds@[pos.0].episodes@[pos.1] })
}

/// Download progress: the first episode with the identifier counts the bytes.
pub open spec fn progress_spec(old: AppState, id: u128, done: u64, total: u64, new: AppState, eff: Seq<Effect>) -> bool {
    &&& eff.len() == 0
    &&& match episode_position(old.feeds@, id) {
        Some(pos) => download_set(old, new, pos, DownloadState::Downloading { done_bytes: done, total_bytes: total })
            && new.status_message == old.status_message,
        None => new == old,
    }
}

fn handle_progress(state: &mut AppState, id: u128, done: u64, total: u64) -> (eff: Vec<Effect>)
    ensures
        progress_spec(*old(state), id, done, total, *final(state), eff@),
{
    match find_episode(&state.feeds, id) {
        Some((k, j)) => {
            proof {
                lemma_index_in_range(state.feeds@, id);
            }
            state.feeds[k].episodes[j].download = DownloadState::Downloading { done_bytes: done, total_bytes: total };
        },
        None => {},
    }
    Vec::new()
}

/// A download finished: the first episode with the identifier is at `path`,
/// the file name is announced, and the feeds are saved.
pub open spec fn complete_spec(old: AppState, env: Env, id: u128, path: String, new: AppState, eff: Seq<Effect>) -> bool {
    &&& eff == seq![Effect::SaveConfig]
    &&& match episode_position(old.feeds@, id) {
        Some(pos) => download_set(old, new, pos, DownloadState::Downloaded { path })
            && shows(new.status_message, "Downloaded: "@ + shown_file_name(path@), StatusLevel::Info, env.now_ms),
        None => new == old,
    }
}

fn handle_complete(state: &mut AppState, env: &Env, id: u128, path: String) -> (eff: Vec<Effect>)
    ensures
        complete_spec(*old(state), *env, id, path, *final(state), eff@),
{
    match find_episode(&state.feeds, id) {
        Some((k, j)) => {
            proof {
                lemma_index_in_range(state.feeds@, id);
            }
            let name = match file_name_of(path.as_str()) {
                Some(n) => n,
                None => String::new(),
            };
            let mut text = String::from_str("Downloaded: ");
            text.append(name.as_str());
            state.feeds[k].episodes[j].download = DownloadState::Downloaded { path };
            state.set_status_at(text, StatusLevel::Info, env.now_ms);
        },
        None => {},
    }
    let mut eff: Vec<Effect> = Vec::new();
    eff.push(Effect::SaveConfig);
    eff
}

/// A download failed: the first episode with the identifier records why,
/// and the reason is shown.
pub open spec fn failed_spec(old: AppState, env: Env, id: u128, err: String, new: AppState, eff: Seq<Effect>) -> bool {
    &&& eff.len() == 0
    &&& match episode_position(old.feeds@, id) {
        Some(pos) => download_set(old, new, pos, DownloadState::Failed { reason: err })
            && shows(new.status_message, "Download failed: "@ + err@, StatusLevel::Error, env.now_ms),
        None => new == old,
    }
}

fn handle_failed(state: &mut AppState, env: &Env, id: u128, err: String) -> (eff: Vec<Effect>)
    ensures
        failed_spec(*old(state), *env, id, err, *final(state), eff@),
{
    match find_episode(&state.feeds, id) {
        Some((k, j)) => {
            proof {
                lemma_index_in_range(state.feeds@, id);
            }
            let mut text = String::from_str("Download failed: ");
            text.append(err.as_str());
            state.feeds[k].episodes[j].download = DownloadState::Failed { reason: err };
            state.set_status_at(text, StatusLevel::Error, env.now_ms);
        },
        None => {},
    }
    Vec::new()
}

/// What `action` does to `old`: the new state `new` and the outside work `eff`.
pub open spec fn step(old: AppState, action: Action, env: Env, new: AppState, eff: Seq<Effect>) -> bool {
    match action {
        Action::Quit => new == AppState { should_quit: true, ..old } && eff.len() == 0,
        Action::ToggleHelp => new == AppState { show_help: !old.show_help, ..old } && eff.len() == 0,
        Action::Resize(_, _) => new == old && eff.len() == 0,
        Action::FocusNext => new == AppState { focus: other_focus(old.focus), ..old } && eff.len() == 0,
        Action::MoveUp => new == after_move_up(old) && eff.len() == 0,
        Action::MoveDown => new == after_move_down(old) && eff.len() == 0,
        Action::Select => select_spec(old, env, new, eff),
        Action::AddFeed => input_reset(old, new, InputMode::AddFeedUrl) && eff.len() == 0,
        Action::InputChar(c) => {
            &&& new == AppState { input_buffer: new.input_buffer, ..old }
            &&& new.input_buffer@ == old.input_buffer@.push(c)
            &&& eff.len() == 0
        },
        Action::InputBackspace => {
            &&& new == AppState { input_buffer: new.input_buffer, ..old }
            &&& new.input_buffer@ == if old.input_buffer@.len() > 0 {
                old.input_buffer@.drop_last()
            } else {
                old.input_buffer@
            }
            &&& eff.len() == 0
        },
        Action::CancelInput => input_reset(old, new, InputMode::Normal) && eff.len() == 0,
        Action::ConfirmAddFeed => confirm_spec(old, env, new, eff),
        Action::DeleteFeed => delete_spec(old, env, new, eff),
        Action::RefreshFeed => refresh_spec(old, env, new, eff),
        Action::RefreshAllFeeds => refresh_all_spec(old, env, new, eff),
        Action::FeedRefreshed(id, title, fresh) => refreshed_spec(old, env, id, title, fresh@, new, eff),
        Action::FeedRefreshError(id, err) => refresh_error_spec(old, env, id, err, new, eff),
        Action::PlayPause => new == old && eff == mpv_effect(env, MpvCommand::TogglePause),
        Action::SeekForward(secs) => new == old && eff == mpv_effect(
            env,
            MpvCommand::Seek(secs as i64, SeekMode::Relative),
        ),
        Action::SeekBackward(secs) => new == old && eff == mpv_effect(
            env,
            MpvCommand::Seek((-(secs as int)) as i64, SeekMode::Relative),
        ),
        Action::VolumeUp => {
            let v = volume_up(old.playback.volume);
            new == with_volume(old, v) && eff == mpv_effect(env, MpvCommand::SetVolume(v))
        },
        Action::VolumeDown => {
            let v = volume_down(old.playback.volume);
            new == with_volume(old, v) && eff == mpv_effect(env, MpvCommand::SetVolume(v))
        },
        Action::SpeedUp => {
            let h = speed_up(old.playback.speed);
            new == with_speed(old, h) && eff == mpv_effect(env, MpvCommand::SetSpeed(h))
        },
        Action::SpeedDown => {
            let h = speed_down(old.playback.speed);
            new == with_speed(old, h) && eff == mpv_effect(env, MpvCommand::SetSpeed(h))
        },
        Action::NextChapter => new == old && eff == mpv_effect(env, MpvCommand::NextChapter),
        Action::PrevChapter => new == old && eff == mpv_effect(env, MpvCommand::PrevChapter),
        Action::DownloadEpisode => download_spec(old, env, new, eff),
        Action::PlaybackProgress(pb) => new == with_progress(old, pb) && eff.len() == 0,
        Action::DownloadProgress(id, done, total) => progress_spec(old, id, done, total, new, eff),
        Action::DownloadComplete(id, path) => complete_spec(old, env, id, path, new, eff),
        Action::DownloadError(id, err) => failed_spec(old, env, id, err, new, eff),
        Action::StatusMessage(text, level) => {
            &&& new == AppState {
                status_message: Some(StatusMessage { text, level, expires_at_ms: expiry(env.now_ms) }),
                ..old
            }
            &&& eff.len() == 0
        },
    }
}

/// Carries out `action` on the state and returns the outside work it calls
/// for, in order. The selection never leaves the feed list and its "add
/// feed" entry.
pub fn process_action(state: &mut AppState, action: Action, env: &Env) -> (eff: Vec<Effect>)
    ensures
        step(*old(state), action, *env, *final(state), eff@),
        old(state).wf() ==> final(state).wf(),
{
    match action {
        Action::Quit => {
            state.should_quit = true;
            Vec::new()
        },
        Action::ToggleHelp => {
            state.show_help = !state.show_help;
            Vec::new()
        },
        Action::Resize(_, _) => Vec::new(),
        Action::FocusNext => {
            state.focus = match state.focus {
                Focus::Feeds => Focus::Episodes,
                Focus::Episodes => Focus::Feeds,
            };
            Vec::new()
        },
        Action::MoveUp => {
            match state.focus {
                Focus::Feeds => {
                    if state.selected_feed_idx > 0 {
                        state.selected_feed_idx = state.selected_feed_idx - 1;
                        state.selected_episode_idx = 0;
                    }
                },
                Focus::Episodes => {
                    if state.selected_episode_idx > 0 {
                        state.selected_episode_idx = state.selected_episode_idx - 1;
                    }
                },
            }
            Vec::new()
        },
        Action::MoveDown => {
            match state.focus {
                Focus::Feeds => {
                    if state.selected_feed_idx < state.feeds.len() {
                        state.selected_feed_idx = state.selected_feed_idx + 1;
                        state.selected_episode_idx = 0;
                    }
                },
                Focus::Episodes => {
                    let n = state.current_episodes().len();
                    let max = if n > 0 {
                        n - 1
                    } else {
                        0
                    };
                    if state.selected_episode_idx < max {
                        state.selected_episode_idx = state.selected_episode_idx + 1;
                    }
                },
            }
            Vec::new()
        },
        Action::Select => handle_select(state, env),
        Action::AddFeed => {
            state.input_mode = InputMode::AddFeedUrl;
            state.input_buffer = String::new();
            Vec::new()
        },
        Action::InputChar(c) => {
            push_char(&mut state.input_buffer, c);
            Vec::new()
        },
        Action::InputBackspace => {
            pop_char(&mut state.input_buffer);
            Vec::new()
        },
        Action::CancelInput => {
            state.input_mode = InputMode::Normal;
            state.input_buffer = String::new();
            Vec::new()
        },
        Action::ConfirmAddFeed => handle_confirm(state, env),
        Action::DeleteFeed => handle_delete(state, env),
        Action::RefreshFeed => handle_refresh(state, env),
        Action::RefreshAllFeeds => handle_refresh_all(state, env),
        Action::FeedRefreshed(id, title, fresh) => handle_refreshed(state, env, id, title, fresh),
        Action::FeedRefreshError(id, err) => handle_refresh_error(state, env, id, err),
        Action::PlayPause => mpv_effect_exec(env, MpvCommand::TogglePause),
        Action::SeekForward(secs) => mpv_effect_exec(env, MpvCommand::Seek(secs as i64, SeekMode::Relative)),
        Action::SeekBackward(secs) => mpv_effect_exec(env, MpvCommand::Seek(-(secs as i64), SeekMode::Relative)),
        Action::VolumeUp => {
            let v: u8 = if state.playback.volume > 95 {
                100
            } else {
                state.playback.volume + 5
            };
            state.playback.volume = v;
            mpv_effect_exec(env, MpvCommand::SetVolume(v))
        },
        Action::VolumeDown => {
            let v: u8 = state.playback.volume.saturating_sub(5);
            state.playback.volume = v;
            mpv_effect_exec(env, MpvCommand::SetVolume(v))
        },
        Action::SpeedUp => {
            let h: u32 = if state.playback.speed > 275 {
                300
            } else {
                state.playback.speed + 25
            };
            state.playback.speed = h;
            mpv_effect_exec(env, MpvCommand::SetSpeed(h))
        },
        Action::SpeedDown => {
            let h: u32 = if state.playback.speed < 50 {
                25
            } else {
                state.playback.speed - 25
            };
            state.playback.speed = h;
            mpv_effect_exec(env, MpvCommand::SetSpeed(h))
        },
        Action::NextChapter => mpv_effect_exec(env, MpvCommand::NextChapter),
        Action::PrevChapter => mpv_effect_exec(env, MpvCommand::PrevChapter),
        Action::DownloadEpisode => handle_download(state, env),
        Action::PlaybackProgress(pb) => {
            state.playback.position_ms = pb.position_ms;
            state.playback.duration_ms = pb.duration_ms;
            state.playback.status = pb.status;
            state.playback.current_chapter_idx = pb.current_chapter_idx;
            Vec::new()
        },
        Action::DownloadProgress(id, done, total) => handle_progress(state, id, done, total),
        Action::DownloadComplete(id, path) => handle_complete(state, env, id, path),
        Action::DownloadError(id, err) => handle_failed(state, env, id, err),
        Action::StatusMessage(text, level) => {
            state.set_status_at(text, level, env.now_ms);
            Vec::new()
        },
    }
}

} // verus!
