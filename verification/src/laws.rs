//! Properties that relate several operations of the library.

use vstd::prelude::*;
use crate::app::{AppState, Focus, InputMode, StatusMessage, expiry, STATUS_MILLIS};
use crate::download::{alphanumeric, file_name_for, slug};
use crate::events::{
    episode_index, episode_position, episode_replaced, lemma_episode_index_in_range,
    lemma_index_in_range, speed_down, speed_up, step, volume_down, volume_up, Action, Effect, Env,
    key_action, KeyCode, KeyInput,
};
use crate::rss::types::{DownloadState, Episode, Feed};
use crate::rss::{
    all_digits, digits_value, duration_value, is_digit, last_with_guid, merged_list, outside_tags,
    parse_u64, split_on, stripped,
};
use crate::text::{decimal, digit_char, is_space, join_words, trim, two_digits, words, lemma_join_push, lemma_join_extend_last, lemma_words_nonempty};
use crate::rss::{in_tag_after, audio_items, episode_from_item, RssItem};
use crate::player::{after_mpv_message, is_text, MpvMessage, PlaybackState, PlayStatus, command_args, command_line, json_escaped, json_escaped_char, json_quoted, integer_text, seconds_text, speed_text, MpvCommand, SeekMode};
use crate::ui::player::time_text;
use crate::ui::episodes::duration_text;
use crate::ui::truncated;

verus! {

/// Moving the focus twice brings the application back where it was.
pub proof fn law_focus_next_twice(
    s0: AppState,
    s1: AppState,
    s2: AppState,
    e1: Env,
    e2: Env,
    f1: Seq<Effect>,
    f2: Seq<Effect>,
)
    requires
        step(s0, Action::FocusNext, e1, s1, f1),
        step(s1, Action::FocusNext, e2, s2, f2),
    ensures
        s2 == s0,
        f1.len() == 0 && f2.len() == 0,
{
}

/// Typing a character and then deleting one leaves the input as it was.
pub proof fn law_type_then_backspace(
    s0: AppState,
    s1: AppState,
    s2: AppState,
    c: char,
    e1: Env,
    e2: Env,
    f1: Seq<Effect>,
    f2: Seq<Effect>,
)
    requires
        step(s0, Action::InputChar(c), e1, s1, f1),
        step(s1, Action::InputBackspace, e2, s2, f2),
    ensures
        s2.input_buffer@ == s0.input_buffer@,
        s2 == (AppState { input_buffer: s2.input_buffer, ..s0 }),
{
    assert(s0.input_buffer@.push(c).drop_last() == s0.input_buffer@);
}

/// Raising the volume and lowering it again restores it, from at most 95 percent.
pub proof fn law_volume_up_down(
    s0: AppState,
    s1: AppState,
    s2: AppState,
    e1: Env,
    e2: Env,
    f1: Seq<Effect>,
    f2: Seq<Effect>,
)
    requires
        s0.playback.volume <= 95,
        step(s0, Action::VolumeUp, e1, s1, f1),
        step(s1, Action::VolumeDown, e2, s2, f2),
    ensures
        s2 == s0,
{
}

/// The volume never rises above 100 percent, and stepping it changes it by
/// at most five.
pub proof fn law_volume_bounds(v: u8)
    ensures
        volume_up(v) <= 100 || volume_up(v) == v,
        v <= 100 ==> volume_up(v) <= 100,
        volume_up(v) >= v || v > 100,
        volume_down(v) <= v,
        v - volume_down(v) <= 5,
{
}

/// Speeding up and slowing down again restores the speed, from a quarter up
/// to 2.75.
pub proof fn law_speed_up_down(
    s0: AppState,
    s1: AppState,
    s2: AppState,
    e1: Env,
    e2: Env,
    f1: Seq<Effect>,
    f2: Seq<Effect>,
)
    requires
        25 <= s0.playback.speed <= 275,
        step(s0, Action::SpeedUp, e1, s1, f1),
        step(s1, Action::SpeedDown, e2, s2, f2),
    ensures
        s2 == s0,
{
}

/// Speed steps stay between a quarter and three times normal speed.
pub proof fn law_speed_bounds(h: u32)
    ensures
        speed_up(h) <= 300,
        speed_up(h) >= 25,
        speed_down(h) >= 25,
        h <= 325 ==> speed_down(h) <= 300,
{
}

/// A status message set at `now` shows for four seconds and no longer.
pub proof fn law_status_lasts_four_seconds(m: StatusMessage, now: i64, t: i64)
    requires
        m.expires_at_ms == expiry(now),
        now + STATUS_MILLIS <= i64::MAX,
    ensures
        (m.expires_at_ms > t) <==> (t < now + 4000),
{
}

/// No two episodes share a guid.
pub open spec fn distinct_guids(eps: Seq<Episode>) -> bool {
    forall|i: int, j: int| 0 <= i < eps.len() && 0 <= j < eps.len() && i != j ==> (#[trigger] eps[i]).guid@ != (#[trigger] eps[j]).guid@
}

/// Two episodes are alike: equal in every field, their chapters equal as lists.
pub open spec fn alike(a: Episode, b: Episode) -> bool {
    &&& a.id == b.id
    &&& a.feed_id == b.feed_id
    &&& a.guid == b.guid
    &&& a.title == b.title
    &&& a.description == b.description
    &&& a.audio_url == b.audio_url
    &&& a.published == b.published
    &&& a.duration_secs == b.duration_secs
    &&& a.is_new == b.is_new
    &&& a.download == b.download
    &&& a.listen_progress_secs == b.listen_progress_secs
    &&& a.chapters@ == b.chapters@
}

proof fn lemma_unique_guid_last(eps: Seq<Episode>, i: int)
    requires
        0 <= i < eps.len(),
        forall|j: int| 0 <= j < eps.len() && j != i ==> (#[trigger] eps[j]).guid@ != eps[i].guid@,
    ensures
        last_with_guid(eps, eps[i].guid@) == Some(i),
    decreases eps.len(),
{
    if i < eps.len() - 1 {
        let p = eps.drop_last();
        assert forall|j: int| 0 <= j < p.len() && j != i implies (#[trigger] p[j]).guid@ != p[i].guid@ by {
            assert(p[j] == eps[j]);
        }
        lemma_unique_guid_last(p, i);
    }
}

/// Merging the same freshly fetched episodes a second time changes nothing,
/// when their guids are distinct: local state survives a repeated refresh.
pub proof fn law_merge_twice(existing: Seq<Episode>, fresh: Seq<Episode>, r1: Seq<Episode>, r2: Seq<Episode>)
    requires
        distinct_guids(fresh),
        merged_list(r1, existing, fresh),
        merged_list(r2, r1, fresh),
    ensures
        r2.len() == r1.len(),
        forall|i: int| 0 <= i < r1.len() ==> alike(#[trigger] r2[i], r1[i]),
{
    assert forall|i: int| 0 <= i < r1.len() implies alike(#[trigger] r2[i], r1[i]) by {
        assert(crate::rss::merged_episode(r1[i], existing, fresh[i]));
        assert forall|j: int| 0 <= j < r1.len() && j != i implies (#[trigger] r1[j]).guid@ != r1[i].guid@ by {
            assert(crate::rss::merged_episode(r1[j], existing, fresh[j]));
            assert(fresh[j].guid@ != fresh[i].guid@);
        }
        lemma_unique_guid_last(r1, i);
        assert(crate::rss::merged_episode(r2[i], r1, fresh[i]));
    }
}

/// A truncated text fits: at most `max` characters (when `max` is at least
/// one), and unchanged when it already fitted.
pub proof fn law_truncate_fits(s: Seq<char>, max: nat)
    ensures
        max >= 1 ==> truncated(s, max).len() <= max,
        s.len() <= max ==> truncated(s, max) == s,
        s.len() > max && max >= 1 ==> truncated(s, max).take(max - 1) == s.take(max - 1),
{
    if s.len() > max && max >= 1 {
        assert(truncated(s, max).take(max - 1) =~= s.take(max - 1));
    }
}

/// A download file name is at most eighty characters, each alphanumeric or
/// `-`, followed by `.mp3`.
pub proof fn law_file_name_shape(title: Seq<char>)
    ensures
        file_name_for(title).len() <= 84,
        file_name_for(title).subrange(file_name_for(title).len() - 4, file_name_for(title).len() as int)
            == seq!['.', 'm', 'p', '3'],
        forall|i: int| 0 <= i < slug(title).len() ==> alphanumeric(#[trigger] slug(title)[i]) || slug(title)[i] == '-',
{
    let f = file_name_for(title);
    assert(f.subrange(f.len() - 4, f.len() as int) =~= seq!['.', 'm', 'p', '3']);
}


proof fn lemma_digit_char(d: nat)
    requires
        d < 10,
    ensures
        is_digit(digit_char(d)),
        (digit_char(d) as u32) - 48 == d,
{
}

proof fn lemma_decimal(n: nat)
    ensures
        decimal(n).len() > 0,
        all_digits(decimal(n)),
        digits_value(decimal(n)) == n,
    decreases n,
{
    lemma_digit_char(n % 10);
    if n >= 10 {
        lemma_decimal(n / 10);
        let p = decimal(n / 10);
        let q = p.push(digit_char(n % 10));
        assert(q.drop_last() == p);
        assert forall|i: int| 0 <= i < q.len() implies is_digit(#[trigger] q[i]) by {
            if i < p.len() {
                assert(q[i] == p[i]);
            }
        }
        assert(digits_value(q) == digits_value(p) * 10 + (n % 10));
        assert((n / 10) * 10 + n % 10 == n);
    } else {
        assert(decimal(n).drop_last() =~= Seq::<char>::empty());
        assert(digits_value(decimal(n)) == digits_value(Seq::<char>::empty()) * 10 + n);
    }
}

proof fn lemma_two_digits(n: nat)
    ensures
        two_digits(n).len() > 0,
        all_digits(two_digits(n)),
        digits_value(two_digits(n)) == n,
{
    if n < 10 {
        lemma_digit_char(n);
        let t = two_digits(n);
        assert(t.drop_last() =~= seq!['0']);
        assert(seq!['0'].drop_last() =~= Seq::<char>::empty());
        assert(('0' as u32) == 48);
        assert(digits_value(Seq::<char>::empty()) == 0);
        assert(seq!['0'].last() == '0');
        assert(digits_value(seq!['0']) == digits_value(Seq::<char>::empty()) * 10 + 0);
        assert(digits_value(t) == digits_value(seq!['0']) * 10 + n);
        assert(is_digit(t[0]));
        assert(is_digit(t[1]));
    } else {
        lemma_decimal(n);
    }
}

proof fn lemma_parse_digits(s: Seq<char>)
    requires
        s.len() > 0,
        all_digits(s),
        digits_value(s) <= u64::MAX,
    ensures
        parse_u64(s) == Some(digits_value(s) as u64),
{
    assert(is_digit(s[0]));
}

proof fn lemma_no_space_digits(s: Seq<char>)
    requires
        all_digits(s),
    ensures
        forall|i: int| 0 <= i < s.len() ==> !is_space(#[trigger] s[i]) && s[i] != ':',
{
    assert forall|i: int| 0 <= i < s.len() implies !is_space(#[trigger] s[i]) && s[i] != ':' by {
        assert(is_digit(s[i]));
    }
}

proof fn lemma_trim_unchanged(s: Seq<char>)
    requires
        s.len() > 0,
        !is_space(s[0]),
        !is_space(s.last()),
    ensures
        trim(s) == s,
{
}

proof fn lemma_split_none(s: Seq<char>, sep: char)
    requires
        forall|i: int| 0 <= i < s.len() ==> #[trigger] s[i] != sep,
    ensures
        split_on(s, sep) == seq![s],
    decreases s.len(),
{
    if s.len() > 0 {
        let p = s.drop_last();
        assert forall|i: int| 0 <= i < p.len() implies #[trigger] p[i] != sep by {
            assert(p[i] == s[i]);
        }
        lemma_split_none(p, sep);
        assert(p.push(s.last()) == s);
    } else {
        assert(s =~= Seq::<char>::empty());
    }
}

proof fn lemma_split_after(a: Seq<char>, b: Seq<char>, sep: char)
    requires
        forall|i: int| 0 <= i < b.len() ==> #[trigger] b[i] != sep,
    ensures
        split_on(a + seq![sep] + b, sep) == split_on(a, sep).push(b),
    decreases b.len(),
{
    if b.len() == 0 {
        assert(a + seq![sep] + b =~= a.push(sep));
        assert((a + seq![sep] + b).drop_last() =~= a);
        assert((a + seq![sep] + b).last() == sep);
        assert(b =~= Seq::<char>::empty());
    } else {
        let p = b.drop_last();
        assert forall|i: int| 0 <= i < p.len() implies #[trigger] p[i] != sep by {
            assert(p[i] == b[i]);
        }
        lemma_split_after(a, p, sep);
        assert((a + seq![sep] + b).drop_last() =~= a + seq![sep] + p);
        assert((a + seq![sep] + b).last() == b.last());
        assert(p.push(b.last()) =~= b);
        let sp = split_on(a, sep).push(p);
        assert(sp.update(sp.len() - 1, sp.last().push(b.last())) =~= split_on(a, sep).push(b));
    }
}

/// A number of seconds in decimal reads back as itself as a duration.
pub proof fn law_decimal_duration(n: u64)
    ensures
        duration_value(decimal(n as nat)) == Some(n),
{
    let d = decimal(n as nat);
    lemma_decimal(n as nat);
    lemma_no_space_digits(d);
    lemma_trim_unchanged(d);
    lemma_split_none(d, ':');
    lemma_parse_digits(d);
}

/// The time that the player bar shows (`mm:ss` or `hh:mm:ss`) reads back as
/// the same number of seconds when read as a duration.
pub proof fn law_time_text_reads_back(n: u64)
    ensures
        duration_value(time_text(n as nat)) == Some(n),
{
    let h = (n as nat) / 3600;
    let m = ((n as nat) % 3600) / 60;
    let x = (n as nat) % 60;
    let th = two_digits(h);
    let tm = two_digits(m);
    let tx = two_digits(x);
    lemma_two_digits(h);
    lemma_two_digits(m);
    lemma_two_digits(x);
    lemma_no_space_digits(th);
    lemma_no_space_digits(tm);
    lemma_no_space_digits(tx);
    lemma_parse_digits(tm);
    lemma_parse_digits(tx);
    let t = time_text(n as nat);
    if h > 0 {
        assert(h <= u64::MAX);
        lemma_parse_digits(th);
        lemma_split_none(th, ':');
        lemma_split_after(th, tm, ':');
        lemma_split_after(th + seq![':'] + tm, tx, ':');
        assert(t == th + seq![':'] + tm + seq![':'] + tx);
        assert(t[0] == th[0]);
        assert(t.last() == tx.last());
        lemma_trim_unchanged(t);
        assert(split_on(t, ':') =~= seq![th, tm, tx]);
    } else {
        lemma_split_none(tm, ':');
        lemma_split_after(tm, tx, ':');
        assert(t[0] == tm[0]);
        assert(t.last() == tx.last());
        lemma_trim_unchanged(t);
        assert(split_on(t, ':') =~= seq![tm, tx]);
    }
}


proof fn lemma_outside_tags_clean(s: Seq<char>)
    ensures
        forall|i: int| 0 <= i < outside_tags(s).len() ==> #[trigger] outside_tags(s)[i] != '<'
            && outside_tags(s)[i] != '>',
    decreases s.len(),
{
    if s.len() > 0 {
        let p = s.drop_last();
        lemma_outside_tags_clean(p);
        let o = outside_tags(s);
        assert forall|i: int| 0 <= i < o.len() implies #[trigger] o[i] != '<' && o[i] != '>' by {
            if i < outside_tags(p).len() {
                assert(o[i] == outside_tags(p)[i]);
            }
        }
    }
}

/// The words of `s` are not empty, hold no white space, and hold only
/// characters of `s`.
proof fn lemma_words_shape(s: Seq<char>)
    ensures
        forall|k: int| 0 <= k < words(s).len() ==> (#[trigger] words(s)[k]).len() > 0,
        forall|k: int, i: int|
            0 <= k < words(s).len() && 0 <= i < words(s)[k].len() ==> !is_space(#[trigger] words(s)[k][i])
                && s.contains(words(s)[k][i]),
    decreases s.len(),
{
    if s.len() > 0 {
        let p = s.drop_last();
        lemma_words_shape(p);
        assert forall|c: char| p.contains(c) implies s.contains(c) by {
            let i = choose|i: int| 0 <= i < p.len() && p[i] == c;
            assert(s[i] == c);
        }
        assert(s.contains(s.last())) by {
            assert(s[s.len() - 1] == s.last());
        }
        if !is_space(s.last()) && s.len() >= 2 && !is_space(s[s.len() - 2]) {
            crate::text::lemma_words_nonempty(p);
        }
    }
}

/// A joined list of words that are not empty and hold no white space has no
/// white space but single spaces between words: none at either end, never two
/// in a row, and no other white space character.
proof fn lemma_join_shape(ws: Seq<Seq<char>>)
    requires
        forall|k: int| 0 <= k < ws.len() ==> (#[trigger] ws[k]).len() > 0,
        forall|k: int, i: int| 0 <= k < ws.len() && 0 <= i < ws[k].len() ==> !is_space(#[trigger] ws[k][i]),
    ensures
        join_words(ws).len() > 0 ==> !is_space(join_words(ws)[0]) && !is_space(join_words(ws).last()),
        forall|i: int| 0 <= i < join_words(ws).len() && is_space(#[trigger] join_words(ws)[i]) ==> join_words(ws)[i] == ' '
            && 0 < i < join_words(ws).len() - 1 && !is_space(join_words(ws)[i - 1]) && !is_space(join_words(ws)[i + 1]),
        forall|i: int| 0 <= i < join_words(ws).len() ==> #[trigger] join_words(ws)[i] == ' '
            || exists|k: int, j: int| 0 <= k < ws.len() && 0 <= j < ws[k].len() && ws[k][j] == join_words(ws)[i],
    decreases ws.len(),
{
    if ws.len() == 1 {
        let w = ws[0];
        assert(w.len() > 0);
        assert(!is_space(w[0]));
        assert(!is_space(w[w.len() - 1]));
        assert forall|i: int| 0 <= i < join_words(ws).len() implies #[trigger] join_words(ws)[i] == ' '
            || exists|k: int, j: int| 0 <= k < ws.len() && 0 <= j < ws[k].len() && ws[k][j] == join_words(ws)[i] by {
            assert(ws[0][i] == join_words(ws)[i]);
        }
    } else if ws.len() > 1 {
        let p = ws.drop_last();
        let w = ws.last();
        assert forall|k: int| 0 <= k < p.len() implies (#[trigger] p[k]).len() > 0 by {
            assert(p[k] == ws[k]);
        }
        assert forall|k: int, i: int| 0 <= k < p.len() && 0 <= i < p[k].len() implies !is_space(#[trigger] p[k][i]) by {
            assert(p[k] == ws[k]);
        }
        lemma_join_shape(p);
        let jp = join_words(p);
        let j = join_words(ws);
        assert(j == jp + seq![' '] + w);
        assert(w.len() > 0 && !is_space(w[0]) && !is_space(w[w.len() - 1]));
        assert(jp.len() > 0) by {
            assert(p[0].len() > 0);
            if p.len() == 1 {
            } else {
                assert(join_words(p) == join_words(p.drop_last()) + seq![' '] + p.last());
            }
        }
        assert(j[0] == jp[0]);
        assert(j.last() == w.last());
        assert forall|i: int| 0 <= i < j.len() && is_space(#[trigger] j[i]) implies j[i] == ' ' && 0 < i < j.len() - 1
            && !is_space(j[i - 1]) && !is_space(j[i + 1]) by {
            if i < jp.len() {
                assert(j[i] == jp[i]);
                if i + 1 < jp.len() {
                    assert(j[i + 1] == jp[i + 1]);
                }
                assert(j[i - 1] == jp[i - 1]);
            } else if i == jp.len() {
                assert(j[i - 1] == jp.last());
                assert(j[i + 1] == w[0]);
            } else {
                assert(j[i] == w[i - jp.len() - 1]);
            }
        }
        assert forall|i: int| 0 <= i < j.len() implies #[trigger] j[i] == ' '
            || exists|k: int, m: int| 0 <= k < ws.len() && 0 <= m < ws[k].len() && ws[k][m] == j[i] by {
            if i < jp.len() {
                assert(j[i] == jp[i]);
                if jp[i] != ' ' {
                    let (k, m) = choose|k: int, m: int| 0 <= k < p.len() && 0 <= m < p[k].len() && p[k][m] == jp[i];
                    assert(ws[k] == p[k]);
                }
            } else if i > jp.len() {
                assert(j[i] == w[i - jp.len() - 1]);
                assert(ws[ws.len() - 1] == w);
            }
        }
    }
}

/// The plain text of an HTML fragment holds no angle brackets, and no white
/// space but single spaces between words: none at either end, never two in a
/// row.
pub proof fn law_stripped_text_is_clean(s: Seq<char>)
    ensures
        forall|i: int| 0 <= i < stripped(s).len() ==> #[trigger] stripped(s)[i] != '<' && stripped(s)[i] != '>',
        stripped(s).len() > 0 ==> !is_space(stripped(s)[0]) && !is_space(stripped(s).last()),
        forall|i: int| 0 <= i < stripped(s).len() && is_space(#[trigger] stripped(s)[i]) ==> stripped(s)[i] == ' '
            && !is_space(stripped(s)[i + 1]),
{
    let t = outside_tags(s);
    lemma_outside_tags_clean(t);
    lemma_outside_tags_clean(s);
    lemma_words_shape(t);
    lemma_join_shape(words(t));
    let r = stripped(s);
    assert(r == join_words(words(t)));
    assert forall|i: int| 0 <= i < r.len() implies #[trigger] r[i] != '<' && r[i] != '>' by {
        if r[i] != ' ' {
            let (k, m) = choose|k: int, m: int| 0 <= k < words(t).len() && 0 <= m < words(t)[k].len() && words(t)[k][m] == r[i];
            assert(t.contains(words(t)[k][m]));
            let x = choose|x: int| 0 <= x < t.len() && t[x] == r[i];
        }
    }
}


/// No two episodes, in any feeds, share an identifier.
pub open spec fn unique_episode_ids(feeds: Seq<Feed>) -> bool {
    forall|k1: int, j1: int, k2: int, j2: int|
        0 <= k1 < feeds.len() && 0 <= j1 < feeds[k1].episodes@.len() && 0 <= k2 < feeds.len() && 0 <= j2
            < feeds[k2].episodes@.len() && (#[trigger] feeds[k1].episodes@[j1]).id == (#[trigger] feeds[k2].episodes@[j2]).id
            ==> k1 == k2 && j1 == j2
}

proof fn lemma_episode_index_found(eps: Seq<Episode>, j: int)
    requires
        0 <= j < eps.len(),
        forall|x: int| 0 <= x < eps.len() && (#[trigger] eps[x]).id == eps[j].id ==> x == j,
    ensures
        episode_index(eps, eps[j].id) == Some(j),
    decreases eps.len(),
{
    let id = eps[j].id;
    let p = eps.drop_last();
    lemma_episode_index_in_range(p, id);
    if j < eps.len() - 1 {
        assert forall|x: int| 0 <= x < p.len() && (#[trigger] p[x]).id == p[j].id implies x == j by {
            assert(p[x] == eps[x]);
        }
        lemma_episode_index_found(p, j);
    } else if let Some(x) = episode_index(p, id) {
        assert(p[x] == eps[x]);
    }
}

proof fn lemma_episode_position_found(feeds: Seq<Feed>, k: int, j: int)
    requires
        0 <= k < feeds.len(),
        0 <= j < feeds[k].episodes@.len(),
        unique_episode_ids(feeds),
    ensures
        episode_position(feeds, feeds[k].episodes@[j].id) == Some((k, j)),
    decreases feeds.len(),
{
    let id = feeds[k].episodes@[j].id;
    let p = feeds.drop_last();
    lemma_index_in_range(p, id);
    if k < feeds.len() - 1 {
        assert(p[k] == feeds[k]);
        assert(unique_episode_ids(p)) by {
            assert forall|k1: int, j1: int, k2: int, j2: int|
                0 <= k1 < p.len() && 0 <= j1 < p[k1].episodes@.len() && 0 <= k2 < p.len() && 0 <= j2
                    < p[k2].episodes@.len() && (#[trigger] p[k1].episodes@[j1]).id == (#[trigger] p[k2].episodes@[j2]).id
                implies k1 == k2 && j1 == j2 by {
                assert(p[k1] == feeds[k1]);
                assert(p[k2] == feeds[k2]);
            }
        }
        lemma_episode_position_found(p, k, j);
    } else {
        if let Some((a, b)) = episode_position(p, id) {
            assert(p[a] == feeds[a]);
        }
        let eps = feeds.last().episodes@;
        assert forall|x: int| 0 <= x < eps.len() && (#[trigger] eps[x]).id == eps[j].id implies x == j by {
            assert(feeds[k].episodes@[x] == eps[x]);
        }
        lemma_episode_index_found(eps, j);
    }
}

/// Starting the download of the selected episode and then hearing that it
/// finished leaves that episode downloaded at the reported path, everything
/// else about it unchanged, when episode identifiers are unique.
pub proof fn law_download_then_complete(
    s0: AppState,
    s1: AppState,
    s2: AppState,
    e1: Env,
    e2: Env,
    f1: Seq<Effect>,
    f2: Seq<Effect>,
    path: String,
)
    requires
        s0.focus == Focus::Episodes,
        s0.spec_current_episode() matches Some(ep) && (ep.download is NotDownloaded || ep.download is Failed),
        unique_episode_ids(s0.feeds@),
        step(s0, Action::DownloadEpisode, e1, s1, f1),
        step(s1, Action::DownloadComplete(s0.spec_current_episode()->0.id, path), e2, s2, f2),
    ensures
        f1.len() == 1,
        f1[0] matches Effect::StartDownload { episode_id, .. } && episode_id == s0.spec_current_episode()->0.id,
        f2 == seq![Effect::SaveConfig],
        s2.feeds@[s0.selected_feed_idx as int].episodes@[s0.selected_episode_idx as int] == (Episode {
            download: DownloadState::Downloaded { path },
            ..s0.spec_current_episode()->0
        }),
        s2.feeds@.len() == s0.feeds@.len(),
{
    let k = s0.selected_feed_idx as int;
    let j = s0.selected_episode_idx as int;
    let ep = s0.spec_current_episode()->0;
    assert(episode_replaced(s0.feeds@, s1.feeds@, k, j, Episode { download: DownloadState::Downloading { done_bytes: 0, total_bytes: 0 }, ..ep }));
    assert(s1.feeds@[k].episodes@[j].id == ep.id);
    assert(unique_episode_ids(s1.feeds@)) by {
        assert forall|k1: int, j1: int, k2: int, j2: int|
            0 <= k1 < s1.feeds@.len() && 0 <= j1 < s1.feeds@[k1].episodes@.len() && 0 <= k2 < s1.feeds@.len() && 0
                <= j2 < s1.feeds@[k2].episodes@.len() && (#[trigger] s1.feeds@[k1].episodes@[j1]).id
                == (#[trigger] s1.feeds@[k2].episodes@[j2]).id implies k1 == k2 && j1 == j2 by {
            if k1 == k {
                assert(s1.feeds@[k1].episodes@[j1].id == s0.feeds@[k1].episodes@[j1].id);
            } else {
                assert(s1.feeds@[k1] == s0.feeds@[k1]);
            }
            if k2 == k {
                assert(s1.feeds@[k2].episodes@[j2].id == s0.feeds@[k2].episodes@[j2].id);
            } else {
                assert(s1.feeds@[k2] == s0.feeds@[k2]);
            }
            assert(s0.feeds@[k1].episodes@[j1].id == s0.feeds@[k2].episodes@[j2].id);
        }
    }
    lemma_episode_position_found(s1.feeds@, k, j);
}


/// No character of `s` is a line feed.
pub open spec fn single_line(s: Seq<char>) -> bool {
    forall|i: int| 0 <= i < s.len() ==> #[trigger] s[i] != '\n'
}

proof fn lemma_concat_single_line(a: Seq<char>, b: Seq<char>)
    requires
        single_line(a),
        single_line(b),
    ensures
        single_line(a + b),
{
    assert forall|i: int| 0 <= i < (a + b).len() implies #[trigger] (a + b)[i] != '\n' by {
        if i < a.len() {
            assert((a + b)[i] == a[i]);
        } else {
            assert((a + b)[i] == b[i - a.len()]);
        }
    }
}

proof fn lemma_digits_single_line(s: Seq<char>)
    requires
        all_digits(s),
    ensures
        single_line(s),
{
    assert forall|i: int| 0 <= i < s.len() implies #[trigger] s[i] != '\n' by {
        assert(is_digit(s[i]));
    }
}

proof fn lemma_escaped_single_line(s: Seq<char>)
    ensures
        single_line(json_escaped(s)),
    decreases s.len(),
{
    if s.len() > 0 {
        lemma_escaped_single_line(s.drop_last());
        let c = s.last();
        let e = json_escaped_char(c);
        assert(single_line(e)) by {
            let u = c as u32;
            if u < 32 {
                assert forall|i: int| 0 <= i < e.len() implies #[trigger] e[i] != '\n' by {
                    if i >= 4 {
                        let d = if i == 4 { u / 16 } else { u % 16 };
                        assert(e[i] == crate::player::hex_digit(d as nat));
                        lemma_hex_digit_not_newline(d as nat);
                    }
                }
            }
        }
        lemma_concat_single_line(json_escaped(s.drop_last()), e);
    }
}

proof fn lemma_hex_digit_not_newline(d: nat)
    requires
        d < 16,
    ensures
        crate::player::hex_digit(d) != '\n',
{
    if d < 10 {
        lemma_digit_char(d);
    }
}

proof fn lemma_decimal_single_line(n: nat)
    ensures
        single_line(decimal(n)),
{
    lemma_decimal(n);
    lemma_digits_single_line(decimal(n));
}

proof fn lemma_args_single_line(cmd: MpvCommand)
    ensures
        single_line(command_args(cmd)),
{
    reveal_strlit("\"observe_property\",");
    reveal_strlit(",");
    reveal_strlit("\"loadfile\",");
    reveal_strlit(",\"replace\"");
    reveal_strlit("\"cycle\",\"pause\"");
    reveal_strlit("\"seek\",");
    reveal_strlit(",\"relative\"");
    reveal_strlit(",\"absolute\"");
    reveal_strlit("\"set_property\",\"speed\",");
    reveal_strlit("\"set_property\",\"volume\",");
    reveal_strlit("\"add\",\"chapter\",1");
    reveal_strlit("\"add\",\"chapter\",-1");
    reveal_strlit("\"quit\"");
    match cmd {
        MpvCommand::ObserveProperty(id, p) => {
            lemma_decimal_single_line(id as nat);
            lemma_escaped_single_line(p@);
            lemma_concat_single_line(seq!['"'], json_escaped(p@));
            lemma_concat_single_line(seq!['"'] + json_escaped(p@), seq!['"']);
            lemma_concat_single_line("\"observe_property\","@, decimal(id as nat));
            lemma_concat_single_line("\"observe_property\","@ + decimal(id as nat), ","@);
            lemma_concat_single_line("\"observe_property\","@ + decimal(id as nat) + ","@, json_quoted(p@));
        },
        MpvCommand::LoadFile(path) => {
            lemma_escaped_single_line(path@);
            lemma_concat_single_line(seq!['"'], json_escaped(path@));
            lemma_concat_single_line(seq!['"'] + json_escaped(path@), seq!['"']);
            lemma_concat_single_line("\"loadfile\","@, json_quoted(path@));
            lemma_concat_single_line("\"loadfile\","@ + json_quoted(path@), ",\"replace\""@);
        },
        MpvCommand::Seek(secs, mode) => {
            let n = secs as int;
            let mag = if n < 0 { (-n) as nat } else { n as nat };
            lemma_decimal_single_line(mag);
            lemma_concat_single_line(seq!['-'], decimal(mag));
            lemma_concat_single_line(integer_text(n), seq!['.', '0']);
            let tail = match mode {
                SeekMode::Relative => ",\"relative\""@,
                SeekMode::Absolute => ",\"absolute\""@,
            };
            lemma_concat_single_line("\"seek\","@, seconds_text(n));
            lemma_concat_single_line("\"seek\","@ + seconds_text(n), tail);
        },
        MpvCommand::SetSpeed(h) => {
            let f = (h as nat) % 100;
            lemma_decimal_single_line((h as nat) / 100);
            lemma_decimal_single_line(f / 10);
            lemma_two_digits(f);
            lemma_digits_single_line(two_digits(f));
            let frac = if f == 0 {
                seq!['0']
            } else if f % 10 == 0 {
                decimal(f / 10)
            } else {
                two_digits(f)
            };
            lemma_concat_single_line(decimal((h as nat) / 100), seq!['.']);
            lemma_concat_single_line(decimal((h as nat) / 100) + seq!['.'], frac);
            lemma_concat_single_line("\"set_property\",\"speed\","@, speed_text(h as nat));
        },
        MpvCommand::SetVolume(v) => {
            lemma_decimal_single_line(v as nat);
            lemma_concat_single_line("\"set_property\",\"volume\","@, decimal(v as nat));
        },
        _ => {},
    }
}

/// Every command goes to mpv as exactly one line: it ends in a line feed and
/// holds no other, whatever file name or property it carries.
pub proof fn law_command_is_one_line(cmd: MpvCommand, request_id: Option<u64>)
    ensures
        command_line(cmd, request_id).last() == '\n',
        single_line(command_line(cmd, request_id).drop_last()),
{
    reveal_strlit("{\"command\":[");
    reveal_strlit("]");
    reveal_strlit(",\"request_id\":");
    reveal_strlit("}\n");
    lemma_args_single_line(cmd);
    let rid = match request_id {
        Some(n) => ",\"request_id\":"@ + decimal(n as nat),
        None => Seq::<char>::empty(),
    };
    if let Some(n) = request_id {
        lemma_decimal_single_line(n as nat);
        lemma_concat_single_line(",\"request_id\":"@, decimal(n as nat));
    }
    let head = "{\"command\":["@ + command_args(cmd) + "]"@ + rid;
    lemma_concat_single_line("{\"command\":["@, command_args(cmd));
    lemma_concat_single_line("{\"command\":["@ + command_args(cmd), "]"@);
    lemma_concat_single_line("{\"command\":["@ + command_args(cmd) + "]"@, rid);
    lemma_concat_single_line(head, seq!['}']);
    let line = command_line(cmd, request_id);
    assert(line == head + "}\n"@);
    assert(line.drop_last() =~= head + seq!['}']);
}


/// Text whose white space is single spaces, none at the start and never two
/// in a row; one may end it.
pub open spec fn spaced_words(t: Seq<char>) -> bool {
    &&& (t.len() > 0 ==> !is_space(t[0]))
    &&& forall|i: int|
        0 <= i < t.len() && is_space(#[trigger] t[i]) ==> t[i] == ' ' && (i + 1 < t.len() ==> !is_space(
            t[i + 1],
        ))
}

proof fn lemma_collapse_spaced(t: Seq<char>)
    requires
        spaced_words(t),
    ensures
        join_words(words(t)) == if t.len() > 0 && is_space(t.last()) {
            t.drop_last()
        } else {
            t
        },
    decreases t.len(),
{
    if t.len() > 0 {
        let p = t.drop_last();
        assert forall|i: int| 0 <= i < p.len() && is_space(#[trigger] p[i]) implies p[i] == ' ' && (i + 1
            < p.len() ==> !is_space(p[i + 1])) by {
            assert(p[i] == t[i]);
            if i + 1 < p.len() {
                assert(p[i + 1] == t[i + 1]);
            }
        }
        if p.len() > 0 {
            assert(p[0] == t[0]);
        }
        lemma_collapse_spaced(p);
        let c = t.last();
        if is_space(c) {
            if p.len() > 0 {
                assert(is_space(t[t.len() - 1]));
                assert(!is_space(p.last())) by {
                    assert(p.last() == t[t.len() - 2]);
                }
            }
        } else if p.len() == 0 {
            lemma_join_push(words(p), seq![c]);
            assert(seq![c] == t);
        } else if !is_space(p.last()) {
            assert(t[t.len() - 2] == p.last());
            lemma_words_nonempty(p);
            lemma_join_extend_last(words(p), c);
            assert(p.push(c) == t);
        } else {
            assert(t[t.len() - 2] == p.last());
            assert(p.last() == ' ');
            let q = p.drop_last();
            assert(q.len() > 0) by {
                assert(p[0] == t[0]);
            }
            assert(!is_space(q.last())) by {
                assert(q.last() == t[t.len() - 3]);
                assert(t[t.len() - 3 + 1] == p.last());
            }
            lemma_words_nonempty(q);
            assert(words(p) == words(q));
            lemma_join_push(words(p), seq![c]);
            assert(q + seq![' '] + seq![c] =~= t);
        }
    }
}

proof fn lemma_outside_tags_plain(t: Seq<char>)
    requires
        forall|i: int| 0 <= i < t.len() ==> #[trigger] t[i] != '<' && t[i] != '>',
    ensures
        outside_tags(t) == t,
        !in_tag_after(t),
    decreases t.len(),
{
    if t.len() > 0 {
        let p = t.drop_last();
        assert forall|i: int| 0 <= i < p.len() implies #[trigger] p[i] != '<' && p[i] != '>' by {
            assert(p[i] == t[i]);
        }
        lemma_outside_tags_plain(p);
        assert(t[t.len() - 1] == t.last());
        assert(p.push(t.last()) == t);
    }
}

/// Stripping HTML from text already stripped changes nothing.
pub proof fn law_strip_twice(s: Seq<char>)
    ensures
        stripped(stripped(s)) == stripped(s),
{
    let r = stripped(s);
    law_stripped_text_is_clean(s);
    lemma_outside_tags_plain(r);
    assert(spaced_words(r));
    lemma_collapse_spaced(r);
}


/// Whatever the position was, a reported `time-pos` becomes the position,
/// backwards as well as forwards; nothing else of the state changes, and the
/// change is reported.
pub proof fn law_time_pos_sets_position(s: PlaybackState, m: MpvMessage, p: u64)
    requires
        is_text(m.event, "property-change"@),
        is_text(m.name, "time-pos"@),
        m.data.as_millis == Some(p),
    ensures
        after_mpv_message(s, m).0.position_ms == p,
        p < s.position_ms ==> after_mpv_message(s, m).0.position_ms < s.position_ms,
        after_mpv_message(s, m).0.duration_ms == s.duration_ms,
        after_mpv_message(s, m).0.status == s.status,
        after_mpv_message(s, m).0.speed == s.speed,
        after_mpv_message(s, m).0.volume == s.volume,
        after_mpv_message(s, m).0.episode_id == s.episode_id,
        after_mpv_message(s, m).0.episode_title == s.episode_title,
        after_mpv_message(s, m).0.current_chapter_idx == s.current_chapter_idx,
        after_mpv_message(s, m).0.chapters == s.chapters,
        after_mpv_message(s, m).1,
{
    reveal_strlit("time-pos");
    reveal_strlit("property-change");
}

/// A reported `duration` becomes the length, and a reported `pause` sets
/// paused or playing; the position is left as it was.
pub proof fn law_duration_and_pause(s: PlaybackState, m: MpvMessage)
    requires
        is_text(m.event, "property-change"@),
    ensures
        is_text(m.name, "duration"@) && m.data.as_millis is Some ==> after_mpv_message(s, m).0.duration_ms
            == m.data.as_millis->0 && after_mpv_message(s, m).0.position_ms == s.position_ms,
        is_text(m.name, "pause"@) && m.data.as_bool == Some(true) ==> after_mpv_message(s, m).0.status
            == PlayStatus::Paused && after_mpv_message(s, m).0.position_ms == s.position_ms,
        is_text(m.name, "pause"@) && m.data.as_bool == Some(false) ==> after_mpv_message(s, m).0.status
            == PlayStatus::Playing && after_mpv_message(s, m).0.position_ms == s.position_ms,
{
    reveal_strlit("time-pos");
    reveal_strlit("duration");
    reveal_strlit("pause");
    reveal_strlit("property-change");
    assert("pause"@.len() != "time-pos"@.len());
    assert("pause"@.len() != "duration"@.len());
    assert("duration"@[0] != "time-pos"@[0]);
}

/// When a file ends, playback stops at position zero, whatever it was.
pub proof fn law_end_file_stops(s: PlaybackState, m: MpvMessage)
    requires
        is_text(m.event, "end-file"@),
    ensures
        after_mpv_message(s, m).0.status == PlayStatus::Stopped,
        after_mpv_message(s, m).0.position_ms == 0,
        after_mpv_message(s, m).0.duration_ms == s.duration_ms,
        after_mpv_message(s, m).1,
{
    reveal_strlit("end-file");
    reveal_strlit("property-change");
    assert("end-file"@.len() != "property-change"@.len());
}

/// Deleting with the feeds panel focused and the selection `k` on a feed takes
/// out exactly the feed at `k`: the feeds before it stay where they were, those
/// after it move up one, and (with distinct identifiers) no feed with the
/// deleted feed's identifier is left. The feeds are saved.
pub proof fn law_delete_removes_selected(old: AppState, env: Env, new: AppState, eff: Seq<Effect>)
    requires
        step(old, Action::DeleteFeed, env, new, eff),
        old.focus == Focus::Feeds,
        old.selected_feed_idx < old.feeds@.len(),
    ensures
        new.feeds@.len() == old.feeds@.len() - 1,
        forall|i: int| 0 <= i < old.selected_feed_idx ==> #[trigger] new.feeds@[i] == old.feeds@[i],
        forall|i: int| old.selected_feed_idx <= i < new.feeds@.len() ==> #[trigger] new.feeds@[i]
            == old.feeds@[i + 1],
        (forall|i: int, j: int| 0 <= i < j < old.feeds@.len() ==> old.feeds@[i].id != old.feeds@[j].id)
            ==> forall|i: int| 0 <= i < new.feeds@.len() ==> #[trigger] new.feeds@[i].id
            != old.feeds@[old.selected_feed_idx as int].id,
        new.selected_feed_idx == if old.selected_feed_idx > 0 { old.selected_feed_idx - 1 } else { 0 },
        eff == seq![Effect::SaveConfig],
{
    let k = old.selected_feed_idx as int;
    if forall|i: int, j: int| 0 <= i < j < old.feeds@.len() ==> old.feeds@[i].id != old.feeds@[j].id {
        assert forall|i: int| 0 <= i < new.feeds@.len() implies #[trigger] new.feeds@[i].id
            != old.feeds@[k].id by {
            if i < k {
                assert(new.feeds@[i] == old.feeds@[i]);
            } else {
                assert(new.feeds@[i] == old.feeds@[i + 1]);
            }
        }
    }
}

proof fn lemma_digit_field(a: Seq<char>)
    requires
        a.len() > 0,
        all_digits(a),
        digits_value(a) <= u64::MAX,
    ensures
        parse_u64(a) == Some(digits_value(a) as u64),
        split_on(a, ':') == seq![a],
        forall|i: int| 0 <= i < a.len() ==> !is_space(#[trigger] a[i]) && a[i] != ':',
{
    lemma_parse_digits(a);
    lemma_no_space_digits(a);
    lemma_split_none(a, ':');
}

/// Three fields of decimal digits joined by `:` (leading zeros and a zero
/// hour included, as in `00:47:13`) read as hours, minutes and seconds,
/// whenever the total fits in 64 bits.
pub proof fn law_hours_minutes_seconds(a: Seq<char>, b: Seq<char>, c: Seq<char>)
    requires
        a.len() > 0,
        b.len() > 0,
        c.len() > 0,
        all_digits(a),
        all_digits(b),
        all_digits(c),
        digits_value(a) * 3600 + digits_value(b) * 60 + digits_value(c) <= u64::MAX,
    ensures
        duration_value(a + seq![':'] + b + seq![':'] + c) == Some(
            (digits_value(a) * 3600 + digits_value(b) * 60 + digits_value(c)) as u64,
        ),
{
    lemma_digit_field(a);
    lemma_digit_field(b);
    lemma_digit_field(c);
    lemma_split_after(a, b, ':');
    lemma_split_after(a + seq![':'] + b, c, ':');
    let t = a + seq![':'] + b + seq![':'] + c;
    assert(t[0] == a[0]);
    assert(t.last() == c.last());
    lemma_trim_unchanged(t);
    assert(split_on(t, ':') =~= seq![a, b, c]);
}

/// Two fields of decimal digits joined by `:` read as minutes and seconds,
/// whenever the total fits in 64 bits.
pub proof fn law_minutes_seconds(b: Seq<char>, c: Seq<char>)
    requires
        b.len() > 0,
        c.len() > 0,
        all_digits(b),
        all_digits(c),
        digits_value(b) * 60 + digits_value(c) <= u64::MAX,
    ensures
        duration_value(b + seq![':'] + c) == Some((digits_value(b) * 60 + digits_value(c)) as u64),
{
    lemma_digit_field(b);
    lemma_digit_field(c);
    lemma_split_after(b, c, ':');
    let t = b + seq![':'] + c;
    assert(t[0] == b[0]);
    assert(t.last() == c.last());
    lemma_trim_unchanged(t);
    assert(split_on(t, ':') =~= seq![b, c]);
}

/// Hours, minutes and seconds written in decimal and joined by `:` read back
/// as `h * 3600 + m * 60 + s`, a zero hour included.
pub proof fn law_hms_text_reads_back(h: u64, m: u64, s: u64)
    requires
        h * 3600 + m * 60 + s <= u64::MAX,
    ensures
        duration_value(decimal(h as nat) + seq![':'] + decimal(m as nat) + seq![':'] + decimal(s as nat))
            == Some((h * 3600 + m * 60 + s) as u64),
{
    lemma_decimal(h as nat);
    lemma_decimal(m as nat);
    lemma_decimal(s as nat);
    law_hours_minutes_seconds(decimal(h as nat), decimal(m as nat), decimal(s as nat));
}

/// The mode word of a seek follows its mode alone: for every offset the
/// relative and the absolute command differ only in their last word, which
/// is `"relative"` for a relative seek and `"absolute"` for an absolute one.
pub proof fn law_seek_mode_word(n: i64)
    ensures
        command_args(MpvCommand::Seek(n, SeekMode::Relative)).len() >= 11,
        command_args(MpvCommand::Seek(n, SeekMode::Absolute)).len() == command_args(
            MpvCommand::Seek(n, SeekMode::Relative),
        ).len(),
        command_args(MpvCommand::Seek(n, SeekMode::Relative)).skip(
            command_args(MpvCommand::Seek(n, SeekMode::Relative)).len() - 11,
        ) == ",\"relative\""@,
        command_args(MpvCommand::Seek(n, SeekMode::Absolute)).skip(
            command_args(MpvCommand::Seek(n, SeekMode::Absolute)).len() - 11,
        ) == ",\"absolute\""@,
        command_args(MpvCommand::Seek(n, SeekMode::Relative)).take(
            command_args(MpvCommand::Seek(n, SeekMode::Relative)).len() - 11,
        ) == command_args(MpvCommand::Seek(n, SeekMode::Absolute)).take(
            command_args(MpvCommand::Seek(n, SeekMode::Absolute)).len() - 11,
        ),
{
    reveal_strlit(",\"relative\"");
    reveal_strlit(",\"absolute\"");
    let p = "\"seek\","@ + seconds_text(n as int);
    let r = command_args(MpvCommand::Seek(n, SeekMode::Relative));
    let a = command_args(MpvCommand::Seek(n, SeekMode::Absolute));
    assert(r == p + ",\"relative\""@);
    assert(a == p + ",\"absolute\""@);
    assert(r.skip(r.len() - 11) =~= ",\"relative\""@);
    assert(a.skip(a.len() - 11) =~= ",\"absolute\""@);
    assert(r.take(r.len() - 11) =~= p);
    assert(a.take(a.len() - 11) =~= p);
}

/// What pressing `code` does to `old`, as `map_key` reads it in `old`'s mode.
pub open spec fn key_step(old: AppState, code: KeyCode, env: Env, new: AppState, eff: Seq<Effect>) -> bool {
    step(old, key_action(KeyInput { code, is_press: true }, old.input_mode, old.show_help)->0, env, new, eff)
}

/// In normal mode with the help closed, `>` raises the speed by a quarter (at
/// most to 3x) and `<` lowers it by a quarter (at least to a quarter); the
/// two keys stand for different actions.
pub proof fn law_speed_keys(old: AppState, env: Env, new: AppState, eff: Seq<Effect>)
    requires
        old.input_mode == InputMode::Normal,
        !old.show_help,
    ensures
        key_action(KeyInput { code: KeyCode::Char('>'), is_press: true }, old.input_mode, old.show_help)
            != key_action(KeyInput { code: KeyCode::Char('<'), is_press: true }, old.input_mode, old.show_help),
        key_action(KeyInput { code: KeyCode::Char('>'), is_press: true }, old.input_mode, old.show_help) is Some,
        key_action(KeyInput { code: KeyCode::Char('<'), is_press: true }, old.input_mode, old.show_help) is Some,
        key_step(old, KeyCode::Char('>'), env, new, eff)
            ==> new.playback.speed == (if old.playback.speed + 25 > 300 { 300 } else { old.playback.speed + 25 })
            && (old.playback.speed < 300 ==> new.playback.speed > old.playback.speed),
        key_step(old, KeyCode::Char('<'), env, new, eff)
            ==> new.playback.speed == (if old.playback.speed < 50 { 25 } else { old.playback.speed - 25 })
            && (old.playback.speed > 25 ==> new.playback.speed < old.playback.speed),
{
}

/// In normal mode with the help closed, `+` raises the volume by five (at most
/// to 100) and `-` lowers it by five (at least to 0).
pub proof fn law_volume_keys(old: AppState, env: Env, new: AppState, eff: Seq<Effect>)
    requires
        old.input_mode == InputMode::Normal,
        !old.show_help,
    ensures
        key_step(old, KeyCode::Char('+'), env, new, eff)
            ==> new.playback.volume == (if old.playback.volume + 5 > 100 { 100 } else { old.playback.volume + 5 }),
        key_step(old, KeyCode::Char('-'), env, new, eff)
            ==> new.playback.volume == (if old.playback.volume < 5 { 0 } else { old.playback.volume - 5 }),
{
}

/// In normal mode with the help closed and mpv running, `l` asks mpv to seek
/// ten seconds forward from where it is, and `h` ten seconds back.
pub proof fn law_seek_keys(old: AppState, env: Env, new: AppState, eff: Seq<Effect>)
    requires
        old.input_mode == InputMode::Normal,
        !old.show_help,
        env.mpv_available,
    ensures
        key_step(old, KeyCode::Char('l'), env, new, eff)
            ==> new == old && eff == seq![Effect::Mpv(MpvCommand::Seek(10i64, SeekMode::Relative))],
        key_step(old, KeyCode::Char('h'), env, new, eff)
            ==> new == old && eff == seq![Effect::Mpv(MpvCommand::Seek(-10i64, SeekMode::Relative))],
{
}


/// What the keys do in normal mode with the help closed and mpv running: `q`
/// quits, Tab moves the focus to the other panel, `?` opens the help, `a`
/// starts typing a feed URL, space toggles pause, `]` and `[` step through
/// chapters, `L` and `H` seek a minute forward and back, the arrow keys seek
/// like `l` and `h`, and `j` and `k` move the feed selection down and up.
pub proof fn law_normal_keys(old: AppState, env: Env, new: AppState, eff: Seq<Effect>)
    requires
        old.input_mode == InputMode::Normal,
        !old.show_help,
        env.mpv_available,
    ensures
        key_step(old, KeyCode::Char('q'), env, new, eff) ==> new.should_quit && eff.len() == 0,
        key_step(old, KeyCode::Tab, env, new, eff)
            ==> new.focus != old.focus && new == (AppState { focus: new.focus, ..old }),
        key_step(old, KeyCode::Char('?'), env, new, eff) ==> new.show_help,
        key_step(old, KeyCode::Char('a'), env, new, eff)
            ==> new.input_mode == InputMode::AddFeedUrl && new.input_buffer@.len() == 0,
        key_step(old, KeyCode::Char(' '), env, new, eff)
            ==> new == old && eff == seq![Effect::Mpv(MpvCommand::TogglePause)],
        key_step(old, KeyCode::Char(']'), env, new, eff)
            ==> new == old && eff == seq![Effect::Mpv(MpvCommand::NextChapter)],
        key_step(old, KeyCode::Char('['), env, new, eff)
            ==> new == old && eff == seq![Effect::Mpv(MpvCommand::PrevChapter)],
        key_step(old, KeyCode::Char('L'), env, new, eff)
            ==> new == old && eff == seq![Effect::Mpv(MpvCommand::Seek(60i64, SeekMode::Relative))],
        key_step(old, KeyCode::Char('H'), env, new, eff)
            ==> new == old && eff == seq![Effect::Mpv(MpvCommand::Seek(-60i64, SeekMode::Relative))],
        key_step(old, KeyCode::Right, env, new, eff)
            ==> new == old && eff == seq![Effect::Mpv(MpvCommand::Seek(10i64, SeekMode::Relative))],
        key_step(old, KeyCode::Left, env, new, eff)
            ==> new == old && eff == seq![Effect::Mpv(MpvCommand::Seek(-10i64, SeekMode::Relative))],
        old.focus == Focus::Feeds && old.selected_feed_idx < old.feeds@.len()
            && key_step(old, KeyCode::Char('j'), env, new, eff)
            ==> new.selected_feed_idx == old.selected_feed_idx + 1 && new.feeds == old.feeds,
        old.focus == Focus::Feeds && old.selected_feed_idx > 0
            && key_step(old, KeyCode::Char('k'), env, new, eff)
            ==> new.selected_feed_idx == old.selected_feed_idx - 1 && new.feeds == old.feeds,
{
    assert(old.feeds@.len() == old.feeds.len());
}

/// While the help is open, `q` closes it and leaves whether to quit as it
/// was, and other letters do nothing.
pub proof fn law_help_keys(old: AppState, env: Env, new: AppState, eff: Seq<Effect>, c: char)
    requires
        old.input_mode == InputMode::Normal,
        old.show_help,
    ensures
        key_step(old, KeyCode::Char('q'), env, new, eff)
            ==> new.should_quit == old.should_quit && !new.show_help,
        c != '?' && c != 'q' ==> key_action(KeyInput { code: KeyCode::Char(c), is_press: true }, old.input_mode, old.show_help) is None,
{
}

/// While a feed URL is typed, every character key, `q` included, goes into
/// the input, and whether to quit stays as it was.
pub proof fn law_typing_keys(old: AppState, env: Env, new: AppState, eff: Seq<Effect>, c: char)
    requires
        old.input_mode == InputMode::AddFeedUrl,
    ensures
        key_step(old, KeyCode::Char(c), env, new, eff) ==> new.input_buffer@ == old.input_buffer@.push(c)
            && new.should_quit == old.should_quit,
{
}

/// A key that is released or repeated does nothing.
pub proof fn law_only_presses(key: KeyInput, mode: InputMode, show_help: bool)
    requires
        !key.is_press,
    ensures
        key_action(key, mode, show_help) is None,
{
}


/// Adding a feed from the feeds panel and deleting it at once leaves the feed
/// list as it was.
pub proof fn law_add_then_delete(
    s0: AppState,
    s1: AppState,
    s2: AppState,
    e1: Env,
    e2: Env,
    f1: Seq<Effect>,
    f2: Seq<Effect>,
)
    requires
        s0.focus == Focus::Feeds,
        trim(s0.input_buffer@).len() > 0,
        step(s0, Action::ConfirmAddFeed, e1, s1, f1),
        step(s1, Action::DeleteFeed, e2, s2, f2),
    ensures
        s2.feeds@ == s0.feeds@,
        s1.feeds@.len() == s0.feeds@.len() + 1,
        s1.feeds@.last().url@ == trim(s0.input_buffer@),
        f1 == seq![Effect::FetchFeed(e1.new_feed_id, s1.feeds@.last().url)],
{
    assert(s0.feeds@.len() == s0.feeds.len());
    assert(s1.feeds@.remove(s0.feeds@.len() as int) =~= s1.feeds@.drop_last());
}

/// Enter on an episode, with mpv running, asks mpv to play the downloaded
/// file when there is one and the episode's audio URL otherwise, at the
/// speed and volume set; the episode becomes the one playing, from the
/// start, and is no longer new, while every other episode stays as it was.
pub proof fn law_play_selected(old: AppState, env: Env, new: AppState, eff: Seq<Effect>)
    requires
        old.focus == Focus::Episodes,
        old.selected_feed_idx < old.feeds@.len(),
        old.selected_episode_idx < old.feeds@[old.selected_feed_idx as int].episodes@.len(),
        env.mpv_available,
        step(old, Action::Select, env, new, eff),
    ensures
        ({
            let k = old.selected_feed_idx as int;
            let j = old.selected_episode_idx as int;
            let ep = old.feeds@[k].episodes@[j];
            &&& eff.len() == 3
            &&& eff[0] == Effect::Mpv(MpvCommand::LoadFile(
                match ep.download {
                    DownloadState::Downloaded { path } => path,
                    _ => ep.audio_url,
                },
            ))
            &&& eff[1] == Effect::Mpv(MpvCommand::SetSpeed(old.playback.speed))
            &&& eff[2] == Effect::Mpv(MpvCommand::SetVolume(old.playback.volume))
            &&& new.playback.episode_id == Some(ep.id)
            &&& new.playback.status == PlayStatus::Playing
            &&& new.playback.position_ms == 0
            &&& new.feeds@.len() == old.feeds@.len()
            &&& !new.feeds@[k].episodes@[j].is_new
            &&& new.feeds@[k].episodes@[j].id == ep.id
            &&& new.feeds@[k].episodes@.len() == old.feeds@[k].episodes@.len()
            &&& forall|i: int| 0 <= i < new.feeds@[k].episodes@.len() && i != j
                ==> #[trigger] new.feeds@[k].episodes@[i] == old.feeds@[k].episodes@[i]
            &&& forall|f: int| 0 <= f < new.feeds@.len() && f != k ==> #[trigger] new.feeds@[f] == old.feeds@[f]
        }),
{
}


proof fn lemma_last_with_guid_found(eps: Seq<Episode>, g: Seq<char>)
    ensures
        last_with_guid(eps, g) matches Some(j) ==> 0 <= j < eps.len() && eps[j].guid@ == g,
        last_with_guid(eps, g) is None ==> forall|j: int| 0 <= j < eps.len() ==> #[trigger] eps[j].guid@ != g,
    decreases eps.len(),
{
    if eps.len() > 0 {
        let p = eps.drop_last();
        lemma_last_with_guid_found(p, g);
        if last_with_guid(eps, g) is None {
            assert forall|j: int| 0 <= j < eps.len() implies #[trigger] eps[j].guid@ != g by {
                if j < p.len() {
                    assert(p[j] == eps[j]);
                    assert(last_with_guid(p, g) is None);
                    assert(p[j].guid@ != g);
                } else {
                    assert(eps[j] == eps.last());
                    assert(eps.last().guid@ != g);
                }
            }
        }
    }
}

/// After a refresh the list is the fetched one, in the fetched order. An
/// episode that was already known (by its guid, guids being distinct among the
/// known episodes) keeps its identifier, whether it is new, its download, its
/// listening progress and its chapters, and takes everything else from the
/// fetched one; an episode not known before is taken as fetched.
pub proof fn law_merge_keeps_local_state(existing: Seq<Episode>, fresh: Seq<Episode>, r: Seq<Episode>, i: int)
    requires
        distinct_guids(existing),
        merged_list(r, existing, fresh),
        0 <= i < fresh.len(),
    ensures
        r.len() == fresh.len(),
        r[i].guid == fresh[i].guid,
        r[i].title == fresh[i].title,
        r[i].audio_url == fresh[i].audio_url,
        r[i].published == fresh[i].published,
        r[i].duration_secs == fresh[i].duration_secs,
        forall|j: int| 0 <= j < existing.len() && #[trigger] existing[j].guid@ == fresh[i].guid@ ==> {
            &&& r[i].id == existing[j].id
            &&& r[i].is_new == existing[j].is_new
            &&& r[i].download == existing[j].download
            &&& r[i].listen_progress_secs == existing[j].listen_progress_secs
            &&& r[i].chapters@ == existing[j].chapters@
        },
        (forall|j: int| 0 <= j < existing.len() ==> #[trigger] existing[j].guid@ != fresh[i].guid@) ==> r[i]
            == fresh[i],
{
    assert(crate::rss::merged_episode(r[i], existing, fresh[i]));
    lemma_last_with_guid_found(existing, fresh[i].guid@);
    assert forall|j: int| 0 <= j < existing.len() && #[trigger] existing[j].guid@ == fresh[i].guid@ implies {
        &&& r[i].id == existing[j].id
        &&& r[i].is_new == existing[j].is_new
        &&& r[i].download == existing[j].download
        &&& r[i].listen_progress_secs == existing[j].listen_progress_secs
        &&& r[i].chapters@ == existing[j].chapters@
    } by {
        assert forall|k: int| 0 <= k < existing.len() && k != j implies (#[trigger] existing[k]).guid@
            != existing[j].guid@ by {}
        lemma_unique_guid_last(existing, j);
    }
}


/// The positions of the items that have an audio enclosure, in document
/// order: each names an item with an enclosure, they increase strictly, and
/// every item with an enclosure is among them.
pub proof fn law_audio_items(items: Seq<RssItem>)
    ensures
        forall|k: int| 0 <= k < audio_items(items).len() ==> 0 <= #[trigger] audio_items(items)[k] < items.len()
            && items[audio_items(items)[k]].enclosure_url is Some,
        forall|a: int, b: int| 0 <= a < b < audio_items(items).len() ==> #[trigger] audio_items(items)[a]
            < #[trigger] audio_items(items)[b],
        forall|i: int| 0 <= i < items.len() && (#[trigger] items[i]).enclosure_url is Some ==> exists|k: int|
            0 <= k < audio_items(items).len() && #[trigger] audio_items(items)[k] == i,
    decreases items.len(),
{
    if items.len() > 0 {
        let p = items.drop_last();
        let q = audio_items(p);
        let r = audio_items(items);
        law_audio_items(p);
        assert forall|k: int| 0 <= k < r.len() implies 0 <= #[trigger] r[k] < items.len()
            && items[r[k]].enclosure_url is Some by {
            if k < q.len() {
                assert(r[k] == q[k]);
                assert(p[q[k]] == items[q[k]]);
            }
        }
        assert forall|a: int, b: int| 0 <= a < b < r.len() implies #[trigger] r[a] < #[trigger] r[b] by {
            if b < q.len() {
                assert(r[a] == q[a] && r[b] == q[b]);
            } else {
                assert(r[a] == q[a]);
            }
        }
        assert forall|i: int| 0 <= i < items.len() && (#[trigger] items[i]).enclosure_url is Some implies exists|k: int|
            0 <= k < r.len() && #[trigger] r[k] == i by {
            if i < p.len() {
                assert(p[i] == items[i]);
                let k = choose|k: int| 0 <= k < q.len() && #[trigger] q[k] == i;
                assert(r[k] == q[k]);
            } else {
                assert(r[r.len() - 1] == i);
            }
        }
    }
}

/// An episode is known by its item's guid, else by its title, else by the
/// spare guid; it is titled "(Untitled)" only when the item has no title;
/// it starts new, not downloaded and not listened to.
pub proof fn law_episode_from_item(e: Episode, feed_id: u128, item: RssItem, id: u128, spare: Seq<char>)
    requires
        episode_from_item(e, feed_id, item, id, spare),
    ensures
        item.guid matches Some(g) ==> e.guid@ == g@,
        item.guid is None && item.title is Some ==> e.guid@ == item.title->0@ && e.title@ == item.title->0@,
        item.guid is None && item.title is None ==> e.guid@ == spare,
        item.title is None ==> e.title@ == "(Untitled)"@,
        item.enclosure_url == Some(e.audio_url),
        e.is_new && e.listen_progress_secs == 0 && e.download is NotDownloaded,
        e.id == id && e.feed_id == feed_id,
{
}


/// The duration column reads back: from an hour on it is whole hours in
/// decimal, `h`, the remaining whole minutes in decimal and `m`; below an hour
/// it is whole minutes in decimal and `min`.
pub proof fn law_duration_text_reads_back(secs: nat)
    ensures
        secs >= 3600 ==> exists|i: int|
            0 < i < duration_text(secs).len() - 2 && #[trigger] duration_text(secs)[i] == 'h'
                && all_digits(duration_text(secs).take(i))
                && digits_value(duration_text(secs).take(i)) == secs / 3600
                && all_digits(duration_text(secs).subrange(i + 1, duration_text(secs).len() - 1))
                && digits_value(duration_text(secs).subrange(i + 1, duration_text(secs).len() - 1))
                == (secs % 3600) / 60
                && duration_text(secs).last() == 'm',
        secs < 3600 ==> duration_text(secs).len() > 3
            && all_digits(duration_text(secs).take(duration_text(secs).len() - 3))
            && digits_value(duration_text(secs).take(duration_text(secs).len() - 3)) == secs / 60
            && duration_text(secs).skip(duration_text(secs).len() - 3) == seq!['m', 'i', 'n'],
{
    let t = duration_text(secs);
    if secs >= 3600 {
        let a = decimal(secs / 3600);
        let b = decimal((secs % 3600) / 60);
        lemma_decimal(secs / 3600);
        lemma_decimal((secs % 3600) / 60);
        let i = a.len() as int;
        assert(t.take(i) =~= a);
        assert(t.subrange(i + 1, t.len() - 1) =~= b);
        assert(t[i] == 'h');
    } else {
        let a = decimal(secs / 60);
        lemma_decimal(secs / 60);
        assert(t.take(t.len() - 3) =~= a);
        assert(t.skip(t.len() - 3) =~= seq!['m', 'i', 'n']);
    }
}

} // verus!

