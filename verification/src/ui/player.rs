//! The player bar.

use vstd::prelude::*;
use crate::text::{two_digits, two_digit_chars, extend_chars, string_from};
use crate::player::{PlaybackState, PlayStatus};
use crate::ui::{truncate, truncated};

verus! {

/// A position as the player bar shows it: `hh:mm:ss` from an hour on, else `mm:ss`.
pub open spec fn time_text(secs: nat) -> Seq<char> {
    let h = secs / 3600;
    let m = (secs % 3600) / 60;
    let s = secs % 60;
    if h > 0 {
        two_digits(h) + seq![':'] + two_digits(m) + seq![':'] + two_digits(s)
    } else {
        two_digits(m) + seq![':'] + two_digits(s)
    }
}

/// Formats seconds as `hh:mm:ss`, or `mm:ss` below an hour.
pub fn format_time(secs: u64) -> (r: String)
    ensures
        r@ == time_text(secs as nat),
{
    let h = secs / 3600;
    let m = (secs % 3600) / 60;
    let s = secs % 60;
    let mut v: Vec<char>;
    if h > 0 {
        v = two_digit_chars(h);
        v.push(':');
        let mv = two_digit_chars(m);
        extend_chars(&mut v, &mv);
    } else {
        v = two_digit_chars(m);
    }
    v.push(':');
    let sv = two_digit_chars(s);
    extend_chars(&mut v, &sv);
    string_from(&v)
}


/// The chapter shown after the time: ` § ` and its title cut to twenty
/// characters, when the current chapter is known.
pub open spec fn chapter_text(pb: PlaybackState) -> Seq<char> {
    match pb.current_chapter_idx {
        Some(i) => if i < pb.chapters@.len() {
            " § "@ + truncated(pb.chapters@[i as int].title@, 20)
        } else {
            Seq::<char>::empty()
        },
        None => Seq::<char>::empty(),
    }
}

/// The label of the progress gauge: position, length, chapter.
pub open spec fn progress_text(pb: PlaybackState) -> Seq<char> {
    time_text((pb.position_ms / 1000) as nat) + " / "@ + time_text((pb.duration_ms / 1000) as nat)
        + chapter_text(pb)
}

/// The label of the progress gauge.
pub fn progress_label(pb: &PlaybackState) -> (r: String)
    ensures
        r@ == progress_text(*pb),
{
    let mut t = format_time(pb.position_ms / 1000);
    t.append(" / ");
    let d = format_time(pb.duration_ms / 1000);
    t.append(d.as_str());
    match pb.current_chapter_idx {
        Some(i) => {
            if i < pb.chapters.len() {
                t.append(" § ");
                let c = truncate(pb.chapters[i].title.as_str(), 20);
                t.append(c.as_str());
            }
        },
        None => {},
    }
    t
}

/// The title the player bar shows.
pub open spec fn player_title(pb: PlaybackState) -> Seq<char> {
    match pb.episode_title {
        Some(t) => t@,
        None => "No episode playing"@,
    }
}

/// The title of what plays, or a note that nothing does.
pub fn title_text(pb: &PlaybackState) -> (r: String)
    ensures
        r@ == player_title(*pb),
{
    match &pb.episode_title {
        Some(t) => t.clone(),
        None => String::from_str("No episode playing"),
    }
}

/// The symbol for a play status.
pub open spec fn status_symbol(s: PlayStatus) -> Seq<char> {
    match s {
        PlayStatus::Playing => seq!['▶'],
        PlayStatus::Paused => seq!['⏸'],
        PlayStatus::Stopped => seq!['⏹'],
    }
}

/// The symbol shown before the title.
pub fn status_icon(s: PlayStatus) -> (r: String)
    ensures
        r@ == status_symbol(s),
{
    let r = match s {
        PlayStatus::Playing => String::from_str("▶"),
        PlayStatus::Paused => String::from_str("⏸"),
        PlayStatus::Stopped => String::from_str("⏹"),
    };
    proof {
        reveal_strlit("▶");
        reveal_strlit("⏸");
        reveal_strlit("⏹");
    }
    r
}

} // verus!
