//! The episode table.

use vstd::prelude::*;
use crate::text::{decimal, decimal_chars, extend_chars, string_from};
use crate::app::AppState;
use crate::rss::types::{DownloadState, Episode};
use crate::ui::{truncate, truncated, minus, pad_left, padded_left};

verus! {

/// A duration as the episode table shows it: `"1h2m"` from an hour on, else `"47min"`.
pub open spec fn duration_text(secs: nat) -> Seq<char> {
    if secs >= 3600 {
        decimal(secs / 3600) + seq!['h'] + decimal((secs % 3600) / 60) + seq!['m']
    } else {
        decimal(secs / 60) + seq!['m', 'i', 'n']
    }
}

/// Formats a duration in seconds as hours and minutes, or minutes.
pub fn format_duration(secs: u64) -> (r: String)
    ensures
        r@ == duration_text(secs as nat),
{
    let mut v: Vec<char>;
    if secs >= 3600 {
        v = decimal_chars(secs / 3600);
        v.push('h');
        let m = decimal_chars((secs % 3600) / 60);
        extend_chars(&mut v, &m);
        v.push('m');
    } else {
        v = decimal_chars(secs / 60);
        v.push('m');
        v.push('i');
        v.push('n');
    }
    string_from(&v)
}


/// The text the episode panel shows when the selected feed has no episodes.
pub open spec fn empty_text(feed_count: nat) -> Seq<char> {
    if feed_count == 0 {
        "No feeds yet — press [a] to add one"@
    } else {
        "No episodes — press [r] to refresh"@
    }
}

/// The text shown instead of the table when there are no episodes to list.
pub fn empty_message(state: &AppState) -> (r: Option<String>)
    ensures
        state.spec_current_episodes().len() == 0 ==> (r matches Some(t) && t@ == empty_text(state.feeds@.len())),
        state.spec_current_episodes().len() > 0 ==> r is None,
{
    if state.current_episodes().len() > 0 {
        None
    } else if state.feeds.len() == 0 {
        Some(String::from_str("No feeds yet — press [a] to add one"))
    } else {
        Some(String::from_str("No episodes — press [r] to refresh"))
    }
}

/// Width of the title column in a table `width` cells wide: what the other
/// columns and the borders leave, at least ten.
pub open spec fn title_column(width: nat) -> nat {
    let w = minus(width as int, 29);
    if w > 10 {
        w as nat
    } else {
        10
    }
}

/// An instant given in milliseconds since the Unix epoch, written in UTC by
/// `chrono` with the `strftime` pattern; `None` outside chrono's range.
pub uninterp spec fn formatted_instant(ms: i64, pattern: Seq<char>) -> Option<Seq<char>>;

/// The pattern of the date column: abbreviated month and day of the month.
pub open spec fn date_pattern() -> Seq<char> {
    "%b %d"@
}

/// Writes an instant with `chrono::DateTime::from_timestamp_millis` and
/// `format(pattern)`. The contract claims only that the outcome is a function
/// of the instant and the pattern (`formatted_instant`). Only the date
/// column's pattern is admitted: chrono fails while writing an invalid one.
#[verifier::external_body]
fn format_instant(ms: i64, pattern: &str) -> (r: Option<String>)
    requires
        pattern@ == date_pattern(),
    ensures
        (match r {
            Some(t) => Some(t@),
            None => None,
        }) == formatted_instant(ms, pattern@),
{
    chrono::DateTime::from_timestamp_millis(ms).map(|d| d.format(pattern).to_string())
}

/// The width of the title column in a table `width` cells wide.
pub fn title_width(width: u16) -> (r: usize)
    ensures
        r == title_column(width as nat),
{
    let w = (width as usize).saturating_sub(29);
    if w > 10 {
        w
    } else {
        10
    }
}

/// The duration column: the duration, or blanks, right-aligned in six cells.
pub open spec fn duration_column(d: Option<u64>) -> Seq<char> {
    padded_left(
        match d {
            Some(s) => duration_text(s as nat),
            None => seq![' ', ' ', ' ', ' ', ' '],
        },
        6,
    )
}

/// The date column: month and day, or blanks, right-aligned in eight cells.
pub open spec fn date_column(published: Option<i64>) -> Seq<char> {
    padded_left(
        match published {
            Some(ms) => match formatted_instant(ms, date_pattern()) {
                Some(t) => t,
                None => seq![' ', ' ', ' ', ' ', ' ', ' '],
            },
            None => seq![' ', ' ', ' ', ' ', ' ', ' '],
        },
        8,
    )
}

/// The download column, except for a download in progress, whose percentage
/// is written where the row is drawn.
pub open spec fn download_column(d: DownloadState) -> Option<Seq<char>> {
    match d {
        DownloadState::NotDownloaded => Some(seq![' ', ' ', ' ', ' ']),
        DownloadState::Downloading { .. } => None,
        DownloadState::Downloaded { .. } => Some(seq![' ', '✓', ' ', ' ']),
        DownloadState::Failed { .. } => Some(seq![' ', '✗', ' ', ' ']),
    }
}

/// One row of the episode table.
#[derive(Debug, Clone)]
pub struct EpisodeRow {
    pub selected: bool,
    pub playing: bool,
    pub is_new: bool,
    pub title: String,
    pub duration: String,
    pub date: String,
    pub download: Option<String>,
}

/// Whether `row` shows episode `e` at position `i` of the table for `state`,
/// whose title column is `tw` cells wide.
pub open spec fn shows_episode(row: EpisodeRow, state: AppState, i: int, e: Episode, tw: nat) -> bool {
    &&& row.selected == (i == state.selected_episode_idx)
    &&& row.playing == (state.playback.episode_id == Some(e.id))
    &&& row.is_new == e.is_new
    &&& row.title@ == truncated(e.title@, tw)
    &&& row.duration@ == duration_column(e.duration_secs)
    &&& row.date@ == date_column(e.published)
    &&& (match row.download {
        Some(t) => Some(t@),
        None => None,
    }) == download_column(e.download)
}

/// The rows of the episode table of the selected feed, `width` cells wide.
pub fn episode_rows(state: &AppState, width: u16) -> (r: Vec<EpisodeRow>)
    ensures
        r@.len() == state.spec_current_episodes().len(),
        forall|i: int|
            0 <= i < r@.len() ==> shows_episode(
                #[trigger] r@[i],
                *state,
                i,
                state.spec_current_episodes()[i],
                title_column(width as nat),
            ),
{
    let eps = state.current_episodes();
    let tw = title_width(width);
    let mut r: Vec<EpisodeRow> = Vec::new();
    for i in 0..eps.len()
        invariant
            eps@ == state.spec_current_episodes(),
            tw == title_column(width as nat),
            r@.len() == i,
            forall|k: int|
                0 <= k < i ==> shows_episode(#[trigger] r@[k], *state, k, eps@[k], tw as nat),
    {
        let e = &eps[i];
        let dur = match e.duration_secs {
            Some(s) => format_duration(s),
            None => String::from_str("     "),
        };
        proof {
            reveal_strlit("     ");
            assert("     "@ =~= seq![' ', ' ', ' ', ' ', ' ']);
        }
        assert(padded_left(dur@, 6) == duration_column(e.duration_secs));
        let day = match e.published {
            Some(ms) => match format_instant(ms, "%b %d") {
                Some(t) => t,
                None => String::from_str("      "),
            },
            None => String::from_str("      "),
        };
        proof {
            reveal_strlit("      ");
            assert("      "@ =~= seq![' ', ' ', ' ', ' ', ' ', ' ']);
        }
        assert(padded_left(day@, 8) == date_column(e.published));
        let download = match &e.download {
            DownloadState::NotDownloaded => Some(String::from_str("    ")),
            DownloadState::Downloading { .. } => None,
            DownloadState::Downloaded { .. } => Some(String::from_str(" ✓  ")),
            DownloadState::Failed { .. } => Some(String::from_str(" ✗  ")),
        };
        proof {
            reveal_strlit("    ");
            reveal_strlit(" ✓  ");
            reveal_strlit(" ✗  ");
            assert("    "@ =~= seq![' ', ' ', ' ', ' ']);
            assert(" ✓  "@ =~= seq![' ', '✓', ' ', ' ']);
            assert(" ✗  "@ =~= seq![' ', '✗', ' ', ' ']);
        }
        let playing = match state.playback.episode_id {
            Some(p) => p == e.id,
            None => false,
        };
        r.push(EpisodeRow {
            selected: i == state.selected_episode_idx,
            playing,
            is_new: e.is_new,
            title: truncate(e.title.as_str(), tw),
            duration: pad_left(dur.as_str(), 6),
            date: pad_left(day.as_str(), 8),
            download,
        });
    }
    r
}

} // verus!
