//! What the interface shows, computed apart from drawing it.

pub mod episodes;
pub mod feeds;
pub mod player;

use vstd::prelude::*;
use crate::text::{chars_of, string_from, decimal, decimal_chars};
use crate::app::{AppState, InputMode};

verus! {

/// `s` cut to at most `max` characters, the last one replaced by an ellipsis
/// when something was cut.
pub open spec fn truncated(s: Seq<char>, max: nat) -> Seq<char> {
    if s.len() <= max {
        s
    } else {
        s.take(if max >= 1 {
            max - 1
        } else {
            0
        }).push('…')
    }
}

/// Shortens `s` to at most `max_chars` characters, ending in `…` when cut.
pub fn truncate(s: &str, max_chars: usize) -> (r: String)
    ensures
        r@ == truncated(s@, max_chars as nat),
{
    let v = chars_of(s);
    if v.len() <= max_chars {
        string_from(&v)
    } else {
        let keep = if max_chars >= 1 {
            max_chars - 1
        } else {
            0
        };
        let mut t: Vec<char> = Vec::new();
        let mut i: usize = 0;
        while i < keep
            invariant
                keep < v.len(),
                i <= keep,
                t@ == v@.take(i as int),
            decreases keep - i,
        {
            t.push(v[i]);
            assert(v@.take(i + 1) == v@.take(i as int).push(v@[i as int]));
            i = i + 1;
        }
        t.push('…');
        string_from(&t)
    }
}


/// `s` right-aligned in a field of `width` characters (`{:>width}`).
pub open spec fn padded_left(s: Seq<char>, width: nat) -> Seq<char> {
    if s.len() >= width {
        s
    } else {
        Seq::new((width - s.len()) as nat, |i: int| ' ') + s
    }
}

/// Right-aligns `s` in a field of `width` characters.
pub fn pad_left(s: &str, width: usize) -> (r: String)
    ensures
        r@ == padded_left(s@, width as nat),
{
    let v = chars_of(s);
    if v.len() >= width {
        return string_from(&v);
    }
    let fill = width - v.len();
    let mut t: Vec<char> = Vec::new();
    let mut i: usize = 0;
    while i < fill
        invariant
            i <= fill,
            t@ == Seq::new(i as nat, |k: int| ' '),
        decreases fill - i,
    {
        t.push(' ');
        i = i + 1;
        assert(t@ == Seq::new(i as nat, |k: int| ' '));
    }
    let ghost pad = t@;
    for i in 0..v.len()
        invariant
            t@ == pad + v@.take(i as int),
    {
        t.push(v[i]);
        assert(v@.take(i + 1) == v@.take(i as int).push(v@[i as int]));
    }
    assert(v@.take(v.len() as int) == v@);
    string_from(&t)
}

/// The right side of the title bar.
pub open spec fn title_bar(feed_count: nat) -> Seq<char> {
    decimal(feed_count) + " feed(s) | [?] hilfe [q] quit"@
}

/// The right side of the title bar: the number of feeds and the key hints.
pub fn title_bar_text(feed_count: usize) -> (r: String)
    ensures
        r@ == title_bar(feed_count as nat),
{
    let mut t = string_from(&decimal_chars(feed_count as u64));
    t.append(" feed(s) | [?] hilfe [q] quit");
    t
}

/// The window drawn over the lists, if any.
#[derive(Debug, Clone, Copy, PartialEq, Eq, Structural)]
pub enum Overlay {
    Nothing,
    UrlInput,
    Help,
}

/// The URL input wins over the help window.
pub open spec fn overlay_of(input_mode: InputMode, show_help: bool) -> Overlay {
    if input_mode == InputMode::AddFeedUrl {
        Overlay::UrlInput
    } else if show_help {
        Overlay::Help
    } else {
        Overlay::Nothing
    }
}

/// The window to draw over the lists.
pub fn overlay(state: &AppState) -> (r: Overlay)
    ensures
        r == overlay_of(state.input_mode, state.show_help),
{
    if state.input_mode == InputMode::AddFeedUrl {
        Overlay::UrlInput
    } else if state.show_help {
        Overlay::Help
    } else {
        Overlay::Nothing
    }
}

/// A rectangle of the terminal, in cells.
#[derive(Debug, Clone, Copy, PartialEq, Eq, Structural)]
pub struct Region {
    pub x: u16,
    pub y: u16,
    pub width: u16,
    pub height: u16,
}

/// Height of the player bar: four rows when the terminal has more than eight.
pub fn player_height(area_height: u16) -> (r: u16)
    ensures
        r == if area_height > 8 {
            4u16
        } else {
            3u16
        },
{
    if area_height > 8 {
        4
    } else {
        3
    }
}

/// `a - b`, or zero.
pub open spec fn minus(a: int, b: int) -> int {
    if a > b {
        a - b
    } else {
        0
    }
}

/// The help window: 52 by 26 cells, centred, cut to the terminal.
pub fn help_region(area_width: u16, area_height: u16) -> (r: Region)
    ensures
        r.x == minus(area_width as int, 52) / 2,
        r.y == minus(area_height as int, 26) / 2,
        r.width == if area_width < 52 {
            area_width
        } else {
            52
        },
        r.height == if area_height < 26 {
            area_height
        } else {
            26
        },
{
    let x = area_width.saturating_sub(52) / 2;
    let y = area_height.saturating_sub(26) / 2;
    let width = if area_width < 52 {
        area_width
    } else {
        52
    };
    let height = if area_height < 26 {
        area_height
    } else {
        26
    };
    Region { x, y, width, height }
}

/// The URL input window: five rows, at most sixty columns and four less than
/// the terminal, centred.
pub fn input_region(area_width: u16, area_height: u16) -> (r: Region)
    ensures
        r.width == if minus(area_width as int, 4) < 60 {
            minus(area_width as int, 4)
        } else {
            60
        },
        r.height == 5,
        r.x == minus(area_width as int, r.width as int) / 2,
        r.y == minus(area_height as int, 5) / 2,
{
    let avail = area_width.saturating_sub(4);
    let width: u16 = if avail < 60 {
        avail
    } else {
        60
    };
    let x = area_width.saturating_sub(width) / 2;
    let y = area_height.saturating_sub(5) / 2;
    Region { x, y, width, height: 5 }
}

/// The status line: one row, five rows above the bottom, as wide as the text
/// (in bytes) and four cells, at most four less than the terminal, centred.
pub fn status_region(area_width: u16, area_height: u16, text_bytes: usize) -> (r: Region)
    ensures
        r.width == if (text_bytes + 4) < minus(area_width as int, 4) {
            text_bytes + 4
        } else {
            minus(area_width as int, 4)
        },
        r.height == 1,
        r.x == minus(area_width as int, r.width as int) / 2,
        r.y == minus(area_height as int, 5),
{
    let avail = area_width.saturating_sub(4);
    let width: u16 = if text_bytes < avail as usize && text_bytes + 4 < avail as usize {
        (text_bytes + 4) as u16
    } else {
        avail
    };
    let x = area_width.saturating_sub(width) / 2;
    let y = area_height.saturating_sub(5);
    Region { x, y, width, height: 1 }
}

} // verus!
