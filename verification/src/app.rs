//! The state of the application.

use vstd::prelude::*;
use std::collections::HashSet;
use crate::player::PlaybackState;
use crate::rss::types::{Episode, Feed};

verus! {

/// Which panel has the keyboard.
#[derive(Debug, Clone, Copy, PartialEq, Eq, Structural)]
pub enum Focus {
    Feeds,
    Episodes,
}

/// Whether keys go to the lists or into the URL being typed.
#[derive(Debug, Clone, Copy, PartialEq, Eq, Structural)]
pub enum InputMode {
    Normal,
    AddFeedUrl,
}

/// How a status message is shown.
#[derive(Debug, Clone, Copy, PartialEq, Eq, Structural)]
pub enum StatusLevel {
    Info,
    Warning,
    Error,
}

/// A status message, shown until `expires_at_ms` (milliseconds since the Unix epoch).
#[derive(Debug, Clone)]
pub struct StatusMessage {
    pub text: String,
    pub level: StatusLevel,
    pub expires_at_ms: i64,
}

/// How long a status message stays, in milliseconds.
pub const STATUS_MILLIS: i64 = 4000;

/// The instant a status message set at `now` expires.
pub open spec fn expiry(now: i64) -> i64 {
    if now + STATUS_MILLIS > i64::MAX {
        i64::MAX
    } else {
        (now + STATUS_MILLIS) as i64
    }
}

/// Everything the interface shows and the keys act on.
pub struct AppState {
    pub focus: Focus,
    pub selected_feed_idx: usize,
    pub selected_episode_idx: usize,
    pub feeds: Vec<Feed>,
    pub playback: PlaybackState,
    pub status_message: Option<StatusMessage>,
    pub input_mode: InputMode,
    pub input_buffer: String,
    pub downloading: HashSet<u128>,
    pub show_help: bool,
    pub should_quit: bool,
}

/// The current time in milliseconds since the Unix epoch, from `chrono::Utc::now`.
/// Nothing is stated of it: it is the clock's reading.
#[verifier::external_body]
pub(crate) fn now_millis() -> i64 {
    chrono::Utc::now().timestamp_millis()
}

impl AppState {
    /// The selection is on a feed or on the "add feed" entry after the last feed.
    pub open spec fn wf(&self) -> bool {
        self.selected_feed_idx <= self.feeds@.len()
    }

    /// The feed the selection points at, if it points at a feed.
    pub open spec fn spec_current_feed(&self) -> Option<Feed> {
        if self.selected_feed_idx < self.feeds@.len() {
            Some(self.feeds@[self.selected_feed_idx as int])
        } else {
            None
        }
    }

    /// The episodes of the selected feed; none when the selection is not on a feed.
    pub open spec fn spec_current_episodes(&self) -> Seq<Episode> {
        match self.spec_current_feed() {
            Some(f) => f.episodes@,
            None => Seq::<Episode>::empty(),
        }
    }

    /// The selected episode of the selected feed, if there is one.
    pub open spec fn spec_current_episode(&self) -> Option<Episode> {
        let eps = self.spec_current_episodes();
        if self.selected_episode_idx < eps.len() {
            Some(eps[self.selected_episode_idx as int])
        } else {
            None
        }
    }

    /// The starting state: feeds panel focused, first entry selected, nothing
    /// playing, no message, no input.
    pub fn new(feeds: Vec<Feed>) -> (r: AppState)
        ensures
            r.focus == Focus::Feeds,
            r.selected_feed_idx == 0,
            r.selected_episode_idx == 0,
            r.feeds == feeds,
            r.playback.episode_id is None,
            r.playback.episode_title is None,
            r.playback.status == crate::player::PlayStatus::Stopped,
            r.playback.position_ms == 0,
            r.playback.duration_ms == 0,
            r.playback.speed == 100,
            r.playback.volume == 80,
            r.playback.current_chapter_idx is None,
            r.playback.chapters@.len() == 0,
            r.status_message is None,
            r.input_mode == InputMode::Normal,
            r.input_buffer@.len() == 0,
            r.downloading@ == Set::<u128>::empty(),
            !r.show_help,
            !r.should_quit,
            r.wf(),
    {
        AppState {
            focus: Focus::Feeds,
            selected_feed_idx: 0,
            selected_episode_idx: 0,
            feeds,
            playback: PlaybackState::new(),
            status_message: None,
            input_mode: InputMode::Normal,
            input_buffer: String::new(),
            downloading: HashSet::new(),
            show_help: false,
            should_quit: false,
        }
    }

    /// Shows `text` for four seconds from now.
    pub fn set_status(&mut self, text: String, level: StatusLevel)
        ensures
            final(self).status_message matches Some(m) && m.text == text && m.level == level,
            *final(self) == (AppState { status_message: final(self).status_message, ..*old(self) }),
    {
        let now = now_millis();
        self.set_status_at(text, level, now);
    }

    /// Shows `text` for four seconds from `now`.
    pub fn set_status_at(&mut self, text: String, level: StatusLevel, now: i64)
        ensures
            *final(self) == (AppState {
                status_message: Some(StatusMessage { text, level, expires_at_ms: expiry(now) }),
                ..*old(self)
            }),
    {
        let expires_at_ms = if now > i64::MAX - STATUS_MILLIS {
            i64::MAX
        } else {
            now + STATUS_MILLIS
        };
        self.status_message = Some(StatusMessage { text, level, expires_at_ms });
    }

    /// Removes the status message once `now` has reached its expiry.
    pub fn expire_status(&mut self, now: i64)
        ensures
            *final(self) == (AppState {
                status_message: match old(self).status_message {
                    Some(m) => if m.expires_at_ms <= now {
                        None
                    } else {
                        Some(m)
                    },
                    None => None,
                },
                ..*old(self)
            }),
    {
        let expired = match &self.status_message {
            Some(m) => m.expires_at_ms <= now,
            None => false,
        };
        if expired {
            self.status_message = None;
        }
    }

    /// Whether a status message is to be shown at `now`.
    pub fn status_visible(&self, now: i64) -> (r: bool)
        ensures
            r == (self.status_message matches Some(m) && m.expires_at_ms > now),
    {
        match &self.status_message {
            Some(m) => m.expires_at_ms > now,
            None => false,
        }
    }

    /// The selected feed, if the selection is on a feed.
    pub fn current_feed(&self) -> (r: Option<&Feed>)
        ensures
            r matches Some(f) ==> self.spec_current_feed() == Some(*f),
            r is None ==> self.spec_current_feed() is None,
    {
        if self.selected_feed_idx < self.feeds.len() {
            Some(&self.feeds[self.selected_feed_idx])
        } else {
            None
        }
    }

    /// The episodes of the selected feed.
    pub fn current_episodes(&self) -> (r: &[Episode])
        ensures
            r@ == self.spec_current_episodes(),
    {
        match self.current_feed() {
            Some(f) => f.episodes.as_slice(),
            None => &[],
        }
    }

    /// The selected episode, if there is one.
    pub fn current_episode(&self) -> (r: Option<&Episode>)
        ensures
            r matches Some(e) ==> self.spec_current_episode() == Some(*e),
            r is None ==> self.spec_current_episode() is None,
    {
        let eps = self.current_episodes();
        if self.selected_episode_idx < eps.len() {
            Some(&eps[self.selected_episode_idx])
        } else {
            None
        }
    }

    /// Number of entries in the feeds panel: the feeds and the "add feed" entry.
    pub fn feeds_list_len(&self) -> (r: usize)
        requires
            self.feeds@.len() < usize::MAX,
        ensures
            r == self.feeds@.len() + 1,
    {
        self.feeds.len() + 1
    }
}

} // verus!
