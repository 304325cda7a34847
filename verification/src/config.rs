//! Settings and the saved configuration.

use vstd::prelude::*;
use crate::app::AppState;
use crate::rss::types::Feed;

verus! {

/// User settings. The speed is in hundredths, the volume in percent.
#[derive(Debug, Clone)]
pub struct Settings {
    pub download_dir: String,
    pub default_speed: u32,
    pub default_volume: u8,
    pub max_episodes_per_feed: usize,
}

impl Settings {
    /// The default settings, downloading into `download_dir`: normal speed,
    /// volume 80, at most 50 episodes per feed.
    pub fn new(download_dir: String) -> (r: Settings)
        ensures
            r.download_dir == download_dir,
            r.default_speed == 100,
            r.default_volume == 80,
            r.max_episodes_per_feed == 50,
    {
        Settings { download_dir, default_speed: 100, default_volume: 80, max_episodes_per_feed: 50 }
    }
}

/// What is saved between runs: the feeds and the settings.
#[derive(Debug, Clone)]
pub struct Config {
    pub feeds: Vec<Feed>,
    pub settings: Settings,
}

impl Config {
    /// No feeds, default settings downloading into `download_dir`.
    pub fn new(download_dir: String) -> (r: Config)
        ensures
            r.feeds@.len() == 0,
            r.settings.download_dir == download_dir,
            r.settings.default_speed == 100,
            r.settings.default_volume == 80,
            r.settings.max_episodes_per_feed == 50,
    {
        Config { feeds: Vec::new(), settings: Settings::new(download_dir) }
    }
}

/// How often the feeds are saved while the application runs, in milliseconds.
pub const AUTOSAVE_MILLIS: i64 = 30000;

/// Whether more than thirty seconds have passed since the last save.
pub fn autosave_due(last_save_ms: i64, now_ms: i64) -> (r: bool)
    ensures
        r == (now_ms - last_save_ms > AUTOSAVE_MILLIS),
{
    (now_ms as i128) - (last_save_ms as i128) > AUTOSAVE_MILLIS as i128
}

impl AppState {
    /// Starts playback at the configured speed and volume.
    pub fn apply_settings(&mut self, settings: &Settings)
        ensures
            *final(self) == (AppState {
                playback: crate::player::PlaybackState {
                    speed: settings.default_speed,
                    volume: settings.default_volume,
                    ..old(self).playback
                },
                ..*old(self)
            }),
    {
        self.playback.speed = settings.default_speed;
        self.playback.volume = settings.default_volume;
    }
}

} // verus!
