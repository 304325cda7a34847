//! The feed list.

use vstd::prelude::*;
use crate::app::AppState;
use crate::rss::types::{Episode, Feed};
use crate::text::{decimal, decimal_chars, string_from};
use crate::ui::{truncate, truncated, minus};

verus! {

/// How many episodes are marked new.
pub open spec fn new_count(eps: Seq<Episode>) -> nat
    decreases eps.len(),
{
    if eps.len() == 0 {
        0
    } else {
        new_count(eps.drop_last()) + if eps.last().is_new {
            1nat
        } else {
            0nat
        }
    }
}

/// Whether one of the episodes has identifier `id`.
pub open spec fn holds_episode(eps: Seq<Episode>, id: u128) -> bool {
    exists|j: int| 0 <= j < eps.len() && (#[trigger] eps[j]).id == id
}

/// The count of new episodes shown after a feed's title, as ` [3]`; nothing when none.
pub open spec fn new_badge(n: nat) -> Seq<char> {
    if n > 0 {
        " ["@ + decimal(n) + "]"@
    } else {
        Seq::<char>::empty()
    }
}

/// A feed's line in a panel `width` cells wide: its title, cut to fit, and its badge.
pub open spec fn feed_label(f: Feed, width: nat) -> Seq<char> {
    truncated(f.title@, minus(width as int, 8) as nat) + new_badge(new_count(f.episodes@))
}

/// One line of the feed list.
#[derive(Debug, Clone)]
pub struct FeedItem {
    pub label: String,
    pub selected: bool,
    pub playing: bool,
}

/// Whether the item `it` shows feed `f` at position `i` of the list in `state`.
pub open spec fn shows_feed(it: FeedItem, state: AppState, i: int, f: Feed, width: nat) -> bool {
    &&& it.label@ == feed_label(f, width)
    &&& it.selected == (i == state.selected_feed_idx)
    &&& it.playing == (state.playback.episode_id matches Some(p) && holds_episode(f.episodes@, p))
}

fn count_new(eps: &Vec<Episode>) -> (n: usize)
    ensures
        n == new_count(eps@),
{
    let mut n: usize = 0;
    for i in 0..eps.len()
        invariant
            n == new_count(eps@.take(i as int)),
            n <= i,
    {
        assert(eps@.take(i + 1).drop_last() == eps@.take(i as int));
        if eps[i].is_new {
            n = n + 1;
        }
    }
    assert(eps@.take(eps.len() as int) == eps@);
    n
}

fn holds(eps: &Vec<Episode>, id: u128) -> (r: bool)
    ensures
        r == holds_episode(eps@, id),
{
    for i in 0..eps.len()
        invariant
            forall|j: int| 0 <= j < i ==> (#[trigger] eps@[j]).id != id,
    {
        if eps[i].id == id {
            return true;
        }
    }
    false
}

/// The lines of the feed list in a panel `width` cells wide: one per feed,
/// then the "add feed" entry.
pub fn feed_items(state: &AppState, width: u16) -> (r: Vec<FeedItem>)
    ensures
        r@.len() == state.feeds@.len() + 1,
        forall|i: int| 0 <= i < state.feeds@.len() ==> shows_feed(#[trigger] r@[i], *state, i, state.feeds@[i], width as nat),
        r@.last().label@ == "[+] Add Feed"@,
        r@.last().selected == (state.selected_feed_idx == state.feeds@.len()),
        !r@.last().playing,
{
    let mut r: Vec<FeedItem> = Vec::new();
    let room = (width as usize).saturating_sub(8);
    for i in 0..state.feeds.len()
        invariant
            room == minus(width as int, 8),
            r@.len() == i,
            forall|k: int| 0 <= k < i ==> shows_feed(#[trigger] r@[k], *state, k, state.feeds@[k], width as nat),
    {
        let f = &state.feeds[i];
        let mut label = truncate(f.title.as_str(), room);
        let ghost cut = label@;
        let n = count_new(&f.episodes);
        if n > 0 {
            label.append(" [");
            let digits = string_from(&decimal_chars(n as u64));
            label.append(digits.as_str());
            label.append("]");
            assert(label@ == cut + new_badge(n as nat));
        } else {
            assert(label@ == cut + new_badge(n as nat));
        }
        let playing = match state.playback.episode_id {
            Some(p) => holds(&f.episodes, p),
            None => false,
        };
        r.push(FeedItem { label, selected: i == state.selected_feed_idx, playing });
    }
    r.push(FeedItem {
        label: String::from_str("[+] Add Feed"),
        selected: state.feeds.len() == state.selected_feed_idx,
        playing: false,
    });
    r
}

} // verus!
