//! Reading RSS documents into episodes, and merging refreshed episodes.

pub mod types;

use vstd::prelude::*;
use crate::text::{chars_of, trim_chars, trim, collapse_chars, collapse_spaces, string_from};
#[allow(unused_imports)]
use crate::rss::types::{Episode, DownloadState, FeedError, random_id, duplicate_chapters, is_v4_id};

verus! {

// ---------------------------------------------------------------- durations

/// Whether `c` is an ASCII decimal digit.
pub open spec fn is_digit(c: char) -> bool {
    48 <= (c as u32) <= 57
}

/// Whether every character of `s` is an ASCII decimal digit.
pub open spec fn all_digits(s: Seq<char>) -> bool {
    forall|i: int| 0 <= i < s.len() ==> is_digit(#[trigger] s[i])
}

/// The number that the decimal digits `s` denote.
pub open spec fn digits_value(s: Seq<char>) -> nat
    decreases s.len(),
{
    if s.len() == 0 {
        0
    } else {
        digits_value(s.drop_last()) * 10 + ((s.last() as u32) - 48) as nat
    }
}

/// What `str::parse::<u64>` gives: an optional `+`, then at least one decimal
/// digit, and a value that fits in 64 bits.
pub open spec fn parse_u64(s: Seq<char>) -> Option<u64> {
    let ds = if s.len() > 0 && s[0] == '+' {
        s.drop_first()
    } else {
        s
    };
    if ds.len() > 0 && all_digits(ds) && digits_value(ds) <= u64::MAX {
        Some(digits_value(ds) as u64)
    } else {
        None
    }
}

/// The pieces of `s` between occurrences of `sep` (`str::split`); never empty.
pub open spec fn split_on(s: Seq<char>, sep: char) -> Seq<Seq<char>>
    decreases s.len(),
{
    if s.len() == 0 {
        seq![Seq::<char>::empty()]
    } else {
        let p = split_on(s.drop_last(), sep);
        if s.last() == sep {
            p.push(Seq::<char>::empty())
        } else {
            p.update(p.len() - 1, p.last().push(s.last()))
        }
    }
}

/// An `itunes:duration` value in seconds: `"1234"`, `"23:45"` or `"1:23:45"`,
/// around which white space is ignored. `None` when a field is not a number,
/// when there are more than three fields, or when the total does not fit in 64 bits.
pub open spec fn duration_value(s: Seq<char>) -> Option<u64> {
    let t = trim(s);
    let parts = split_on(t, ':');
    if parts.len() == 1 {
        parse_u64(t)
    } else if parts.len() == 2 {
        match (parse_u64(parts[0]), parse_u64(parts[1])) {
            (Some(m), Some(x)) => if m * 60 + x <= u64::MAX {
                Some((m * 60 + x) as u64)
            } else {
                None
            },
            _ => None,
        }
    } else if parts.len() == 3 {
        match (parse_u64(parts[0]), parse_u64(parts[1]), parse_u64(parts[2])) {
            (Some(h), Some(m), Some(x)) => if h * 3600 + m * 60 + x <= u64::MAX {
                Some((h * 3600 + m * 60 + x) as u64)
            } else {
                None
            },
            _ => None,
        }
    } else {
        None
    }
}

proof fn lemma_split_nonempty(s: Seq<char>, sep: char)
    ensures
        split_on(s, sep).len() >= 1,
    decreases s.len(),
{
    if s.len() > 0 {
        lemma_split_nonempty(s.drop_last(), sep);
    }
}

proof fn lemma_split_single(s: Seq<char>, sep: char)
    requires
        split_on(s, sep).len() == 1,
    ensures
        split_on(s, sep)[0] == s,
    decreases s.len(),
{
    if s.len() > 0 {
        lemma_split_nonempty(s.drop_last(), sep);
        if s.last() != sep {
            lemma_split_single(s.drop_last(), sep);
        }
    }
}

proof fn lemma_digits_prefix_le(s: Seq<char>, k: int)
    requires
        0 <= k <= s.len(),
    ensures
        digits_value(s.take(k)) <= digits_value(s),
    decreases s.len() - k,
{
    if k < s.len() {
        lemma_digits_prefix_le(s, k + 1);
        assert(s.take(k + 1).drop_last() == s.take(k));
    } else {
        assert(s.take(k) == s);
    }
}

/// The decimal number that `v` denotes, as `str::parse::<u64>` reads it.
pub fn parse_u64_chars(v: &Vec<char>) -> (r: Option<u64>)
    ensures
        r == parse_u64(v@),
{
    let start: usize = if v.len() > 0 && v[0] == '+' {
        1
    } else {
        0
    };
    let ghost ds = if v@.len() > 0 && v@[0] == '+' {
        v@.drop_first()
    } else {
        v@
    };
    assert(ds == v@.subrange(start as int, v.len() as int));
    if start >= v.len() {
        return None;
    }
    let mut acc: u64 = 0;
    let mut i = start;
    while i < v.len()
        invariant
            start <= i <= v.len(),
            ds == v@.subrange(start as int, v.len() as int),
            ds == (if v@.len() > 0 && v@[0] == '+' {
                v@.drop_first()
            } else {
                v@
            }),
            all_digits(ds.take(i - start)),
            acc as nat == digits_value(ds.take(i - start)),
        decreases v.len() - i,
    {
        let c = v[i];
        let ghost k = i - start;
        assert(ds[k] == c);
        assert(ds.take(k + 1).drop_last() == ds.take(k));
        let u: u32 = c as u32;
        if !(48 <= u && u <= 57) {
            assert(!is_digit(ds[k]));
            assert(!all_digits(ds));
            return None;
        }
        let d = (u - 48) as u64;
        assert(ds.take(k + 1).last() == c);
        assert(digits_value(ds.take(k + 1)) == acc * 10 + d);
        if acc > (u64::MAX - d) / 10 {
            proof {
                assert(acc * 10 + d > u64::MAX) by (nonlinear_arith)
                    requires
                        acc > (u64::MAX - d) / 10,
                        d <= 9,
                ;
                lemma_digits_prefix_le(ds, k + 1);
            }
            return None;
        }
        acc = acc * 10 + d;
        i = i + 1;
        assert(all_digits(ds.take(i - start))) by {
            assert forall|j: int| 0 <= j < i - start implies is_digit(#[trigger] ds.take(i - start)[j]) by {
                if j < k {
                    assert(ds.take(i - start)[j] == ds.take(k)[j]);
                }
            }
        }
    }
    assert(ds.take(v.len() - start) == ds);
    Some(acc)
}

/// Splits `v` at every `sep`, as `str::split` does.
pub fn split_chars(v: &Vec<char>, sep: char) -> (r: Vec<Vec<char>>)
    ensures
        r@.len() == split_on(v@, sep).len(),
        forall|k: int| 0 <= k < r@.len() ==> (#[trigger] r@[k])@ == split_on(v@, sep)[k],
{
    let mut r: Vec<Vec<char>> = Vec::new();
    let mut cur: Vec<char> = Vec::new();
    for i in 0..v.len()
        invariant
            r@.len() + 1 == split_on(v@.take(i as int), sep).len(),
            forall|k: int| 0 <= k < r@.len() ==> (#[trigger] r@[k])@ == split_on(v@.take(i as int), sep)[k],
            cur@ == split_on(v@.take(i as int), sep).last(),
    {
        let c = v[i];
        proof {
            assert(v@.take(i + 1).drop_last() == v@.take(i as int));
            lemma_split_nonempty(v@.take(i as int), sep);
        }
        if c == sep {
            let done = cur;
            r.push(done);
            cur = Vec::new();
        } else {
            cur.push(c);
        }
    }
    assert(v@.take(v.len() as int) == v@);
    r.push(cur);
    r
}

/// Reads an `itunes:duration` value such as `"1:23:45"`, `"23:45"` or `"1234"`
/// into seconds.
pub fn parse_duration(s: &str) -> (r: Option<u64>)
    ensures
        r == duration_value(s@),
{
    let all = chars_of(s);
    let t = trim_chars(&all);
    let parts = split_chars(&t, ':');
    if parts.len() == 1 {
        proof {
            lemma_split_single(t@, ':');
        }
        parse_u64_chars(&t)
    } else if parts.len() == 2 {
        let m = match parse_u64_chars(&parts[0]) {
            Some(m) => m,
            None => return None,
        };
        let x = match parse_u64_chars(&parts[1]) {
            Some(x) => x,
            None => return None,
        };
        match m.checked_mul(60) {
            Some(a) => a.checked_add(x),
            None => None,
        }
    } else if parts.len() == 3 {
        let h = match parse_u64_chars(&parts[0]) {
            Some(h) => h,
            None => return None,
        };
        let m = match parse_u64_chars(&parts[1]) {
            Some(m) => m,
            None => return None,
        };
        let x = match parse_u64_chars(&parts[2]) {
            Some(x) => x,
            None => return None,
        };
        let a = match h.checked_mul(3600) {
            Some(a) => a,
            None => return None,
        };
        let b = match m.checked_mul(60) {
            Some(b) => b,
            None => return None,
        };
        match a.checked_add(b) {
            Some(c) => c.checked_add(x),
            None => None,
        }
    } else {
        None
    }
}


// ---------------------------------------------------------------- HTML

/// Whether, after reading `s`, a tag is open: a `<` was seen after the last `>`.
pub open spec fn in_tag_after(s: Seq<char>) -> bool
    decreases s.len(),
{
    if s.len() == 0 {
        false
    } else if s.last() == '<' {
        true
    } else if s.last() == '>' {
        false
    } else {
        in_tag_after(s.drop_last())
    }
}

/// The characters of `s` that stand outside tags: every `<` opens a tag, every
/// `>` closes one, and the angle brackets themselves are dropped.
pub open spec fn outside_tags(s: Seq<char>) -> Seq<char>
    decreases s.len(),
{
    if s.len() == 0 {
        seq![]
    } else {
        let p = outside_tags(s.drop_last());
        let c = s.last();
        if c == '<' || c == '>' || in_tag_after(s.drop_last()) {
            p
        } else {
            p.push(c)
        }
    }
}

/// The text of an HTML fragment: tags removed, white space collapsed.
pub open spec fn stripped(s: Seq<char>) -> Seq<char> {
    collapse_spaces(outside_tags(s))
}

/// `s` with a space put before every `<` (`str::replace('<', " <")`).
pub open spec fn space_before_tags(s: Seq<char>) -> Seq<char>
    decreases s.len(),
{
    if s.len() == 0 {
        seq![]
    } else if s.last() == '<' {
        space_before_tags(s.drop_last()) + seq![' ', '<']
    } else {
        space_before_tags(s.drop_last()).push(s.last())
    }
}

/// The plain text kept of an episode description.
pub open spec fn description_text(s: Seq<char>) -> Seq<char> {
    stripped(space_before_tags(s))
}

fn outside_tag_chars(v: &Vec<char>) -> (r: Vec<char>)
    ensures
        r@ == outside_tags(v@),
{
    let mut r: Vec<char> = Vec::new();
    let mut in_tag = false;
    for i in 0..v.len()
        invariant
            r@ == outside_tags(v@.take(i as int)),
            in_tag == in_tag_after(v@.take(i as int)),
    {
        let c = v[i];
        assert(v@.take(i + 1).drop_last() == v@.take(i as int));
        if c == '<' {
            in_tag = true;
        } else if c == '>' {
            in_tag = false;
        } else if !in_tag {
            r.push(c);
        }
    }
    assert(v@.take(v.len() as int) == v@);
    r
}

/// Removes HTML tags and collapses white space.
pub fn strip_html(s: &str) -> (r: String)
    ensures
        r@ == stripped(s@),
{
    let v = chars_of(s);
    let kept = outside_tag_chars(&v);
    let collapsed = collapse_chars(&kept);
    string_from(&collapsed)
}

fn space_before_tag_chars(v: &Vec<char>) -> (r: Vec<char>)
    ensures
        r@ == space_before_tags(v@),
{
    let mut r: Vec<char> = Vec::new();
    for i in 0..v.len()
        invariant
            r@ == space_before_tags(v@.take(i as int)),
    {
        let c = v[i];
        assert(v@.take(i + 1).drop_last() == v@.take(i as int));
        if c == '<' {
            r.push(' ');
        }
        r.push(c);
    }
    assert(v@.take(v.len() as int) == v@);
    r
}

/// The plain text of an episode description, with tags taken out so that
/// the text on either side of a tag stays apart.
pub fn description_plain_text(s: &str) -> (r: String)
    ensures
        r@ == description_text(s@),
{
    let v = chars_of(s);
    let spaced = space_before_tag_chars(&v);
    let kept = outside_tag_chars(&spaced);
    let collapsed = collapse_chars(&kept);
    string_from(&collapsed)
}


// ---------------------------------------------------------------- merging

/// Index of the last episode in `eps` whose guid is `g`.
pub open spec fn last_with_guid(eps: Seq<Episode>, g: Seq<char>) -> Option<int>
    decreases eps.len(),
{
    if eps.len() == 0 {
        None
    } else if eps.last().guid@ == g {
        Some(eps.len() - 1)
    } else {
        last_with_guid(eps.drop_last(), g)
    }
}

/// `r` is the freshly fetched `fresh` with the local state of `prior`: its
/// identifier, whether it is new, its download, listening progress and chapters.
pub open spec fn carries_local_state(r: Episode, fresh: Episode, prior: Episode) -> bool {
    &&& r.id == prior.id
    &&& r.is_new == prior.is_new
    &&& r.download == prior.download
    &&& r.listen_progress_secs == prior.listen_progress_secs
    &&& r.chapters@ == prior.chapters@
    &&& r.feed_id == fresh.feed_id
    &&& r.guid == fresh.guid
    &&& r.title == fresh.title
    &&& r.description == fresh.description
    &&& r.audio_url == fresh.audio_url
    &&& r.published == fresh.published
    &&& r.duration_secs == fresh.duration_secs
}

/// `r` is `fresh` merged with what is known of it locally in `existing`: the
/// last known episode with the same guid lends its local state.
pub open spec fn merged_episode(r: Episode, existing: Seq<Episode>, fresh: Episode) -> bool {
    match last_with_guid(existing, fresh.guid@) {
        Some(j) => carries_local_state(r, fresh, existing[j]),
        None => r == fresh,
    }
}

/// `r` is the list `fresh`, each merged with what `existing` knows of it.
pub open spec fn merged_list(r: Seq<Episode>, existing: Seq<Episode>, fresh: Seq<Episode>) -> bool {
    &&& r.len() == fresh.len()
    &&& forall|i: int| 0 <= i < fresh.len() ==> merged_episode(#[trigger] r[i], existing, fresh[i])
}

proof fn lemma_last_with_guid_range(eps: Seq<Episode>, g: Seq<char>)
    ensures
        last_with_guid(eps, g) matches Some(j) ==> 0 <= j < eps.len() && eps[j].guid@ == g,
    decreases eps.len(),
{
    if eps.len() > 0 && eps.last().guid@ != g {
        lemma_last_with_guid_range(eps.drop_last(), g);
    }
}

fn find_last_guid(existing: &Vec<Episode>, guid: &String) -> (r: Option<usize>)
    ensures
        r matches Some(j) ==> j < existing@.len() && last_with_guid(existing@, guid@) == Some(j as int),
        r is None ==> last_with_guid(existing@, guid@) is None,
{
    let mut i = existing.len();
    assert(existing@.take(i as int) == existing@);
    while i > 0
        invariant
            i <= existing@.len(),
            last_with_guid(existing@, guid@) == last_with_guid(existing@.take(i as int), guid@),
        decreases i,
    {
        assert(existing@.take(i as int).last() == existing@[i - 1]);
        assert(existing@.take(i as int).drop_last() == existing@.take(i - 1));
        if existing[i - 1].guid == *guid {
            return Some(i - 1);
        }
        i = i - 1;
    }
    None
}

/// Merges freshly fetched episodes into the known ones: the list becomes
/// `fresh`, and an episode whose guid was known keeps its local state.
pub fn merge_episodes(existing: &mut Vec<Episode>, fresh: Vec<Episode>)
    ensures
        merged_list(final(existing)@, old(existing)@, fresh@),
{
    let mut fresh = fresh;
    let ghost orig = fresh@;
    let n = fresh.len();
    let mut i: usize = 0;
    while i < n
        invariant
            n == orig.len(),
            fresh@.len() == n,
            i <= n,
            forall|k: int| 0 <= k < i ==> merged_episode(#[trigger] fresh@[k], existing@, orig[k]),
            forall|k: int| i <= k < n ==> #[trigger] fresh@[k] == orig[k],
        decreases n - i,
    {
        match find_last_guid(existing, &fresh[i].guid) {
            Some(j) => {
                proof {
                    lemma_last_with_guid_range(existing@, orig[i as int].guid@);
                }
                fresh[i].id = existing[j].id;
                fresh[i].is_new = existing[j].is_new;
                fresh[i].download = existing[j].download.duplicate();
                fresh[i].listen_progress_secs = existing[j].listen_progress_secs;
                fresh[i].chapters = duplicate_chapters(&existing[j].chapters);
            },
            None => {},
        }
        i = i + 1;
    }
    *existing = fresh;
}

// ---------------------------------------------------------------- reading RSS

/// The fields of an RSS item that an episode is made from, each as its text.
#[derive(Debug, Clone)]
pub struct RssItem {
    pub guid: Option<String>,
    pub title: Option<String>,
    pub enclosure_url: Option<String>,
    pub description: Option<String>,
    pub pub_date: Option<String>,
    pub duration: Option<String>,
}

/// An RSS channel: its title and its items in document order.
#[derive(Debug, Clone)]
pub struct RssChannel {
    pub title: String,
    pub items: Vec<RssItem>,
}

/// What the `rss` crate reads from a document: the channel, or the text of its error.
pub uninterp spec fn rss_document(bytes: Seq<u8>) -> Result<RssChannel, Seq<char>>;

/// Reads an RSS document with `rss::Channel::read_from` and copies out the
/// channel title and, for each item, the guid value, title, enclosure URL,
/// description, publication date and `itunes:duration`. The contract claims
/// only that the outcome is a function of the bytes (`rss_document`).
#[verifier::external_body]
fn read_channel(bytes: &[u8]) -> (r: Result<RssChannel, String>)
    ensures
        (match r {
            Ok(c) => Ok::<RssChannel, Seq<char>>(c),
            Err(e) => Err::<RssChannel, Seq<char>>(e@),
        }) == rss_document(bytes@),
{
    match ::rss::Channel::read_from(bytes) {
        Ok(ch) => Ok(RssChannel {
            title: ch.title().to_string(),
            items: ch.items().iter().map(|i| RssItem {
                guid: i.guid().map(|g| g.value().to_string()),
                title: i.title().map(str::to_string),
                enclosure_url: i.enclosure().map(|e| e.url().to_string()),
                description: i.description().map(str::to_string),
                pub_date: i.pub_date().map(str::to_string),
                duration: i.itunes_ext().and_then(|x| x.duration()).map(str::to_string),
            }).collect(),
        }),
        Err(e) => Err(e.to_string()),
    }
}

/// The instant that an RFC 2822 date denotes, in milliseconds since the Unix
/// epoch, as `chrono` reads it; `None` when it does not read.
pub uninterp spec fn rfc2822_millis(s: Seq<char>) -> Option<i64>;

/// Reads an RFC 2822 date with `chrono::DateTime::parse_from_rfc2822` and gives
/// its instant in milliseconds since the Unix epoch. The contract claims only
/// that the outcome is a function of the text (`rfc2822_millis`).
#[verifier::external_body]
fn parse_rfc2822(s: &str) -> (r: Option<i64>)
    ensures
        r == rfc2822_millis(s@),
{
    chrono::DateTime::parse_from_rfc2822(s).ok().map(|d| d.timestamp_millis())
}

/// Whether `c` is a lowercase hexadecimal digit.
pub open spec fn is_lower_hex(c: char) -> bool {
    48 <= (c as u32) <= 57 || 97 <= (c as u32) <= 102
}

/// Whether `s` is the hyphenated lowercase text of a version 4, RFC 4122
/// variant UUID: 36 characters, `-` at 8, 13, 18 and 23, lowercase hex
/// digits elsewhere, `4` at 14, and one of `8`, `9`, `a`, `b` at 19.
pub open spec fn is_v4_text(s: Seq<char>) -> bool {
    &&& s.len() == 36
    &&& forall|i: int|
        0 <= i < 36 ==> if i == 8 || i == 13 || i == 18 || i == 23 {
            #[trigger] s[i] == '-'
        } else {
            is_lower_hex(s[i])
        }
    &&& s[14] == '4'
    &&& (s[19] == '8' || s[19] == '9' || s[19] == 'a' || s[19] == 'b')
}

/// A random identifier in text form, from `uuid::Uuid::new_v4().to_string()`.
/// The contract states only the shape of the text, which `Display` for `Uuid`
/// (hyphenated, lowercase) gives every version 4 value; the digits are random.
#[verifier::external_body]
fn random_guid() -> (r: String)
    ensures
        is_v4_text(r@),
{
    uuid::Uuid::new_v4().to_string()
}

/// The guid an item is known by: its own, else its title, else `spare`.
pub open spec fn item_guid(item: RssItem, spare: Seq<char>) -> Seq<char> {
    match item.guid {
        Some(g) => g@,
        None => match item.title {
            Some(t) => t@,
            None => spare,
        },
    }
}

/// The title shown for an item.
pub open spec fn item_title(item: RssItem) -> Seq<char> {
    match item.title {
        Some(t) => t@,
        None => "(Untitled)"@,
    }
}

/// `e` is the new episode made of `item`, which has an enclosure: identifier
/// `id`, guid as `item_guid` says, nothing downloaded, nothing listened to.
pub open spec fn episode_from_item(e: Episode, feed_id: u128, item: RssItem, id: u128, spare: Seq<char>) -> bool {
    &&& e.id == id
    &&& e.feed_id == feed_id
    &&& e.guid@ == item_guid(item, spare)
    &&& e.title@ == item_title(item)
    &&& (item.description is None ==> e.description is None)
    &&& (item.description matches Some(d) ==> e.description matches Some(x) && x@
        == description_text(d@))
    &&& item.enclosure_url == Some(e.audio_url)
    &&& e.published == (match item.pub_date {
        Some(d) => rfc2822_millis(d@),
        None => None,
    })
    &&& e.duration_secs == (match item.duration {
        Some(d) => duration_value(d@),
        None => None,
    })
    &&& e.is_new
    &&& e.download is NotDownloaded
    &&& e.listen_progress_secs == 0
    &&& e.chapters@.len() == 0
}

/// Positions of the items that have an audio enclosure.
pub open spec fn audio_items(items: Seq<RssItem>) -> Seq<int>
    decreases items.len(),
{
    if items.len() == 0 {
        seq![]
    } else if items.last().enclosure_url is Some {
        audio_items(items.drop_last()).push(items.len() - 1)
    } else {
        audio_items(items.drop_last())
    }
}

/// `eps` are the episodes of `items`: one for each item with an enclosure,
/// in order, the episode of item `i` taking `ids[i]` and `spares[i]`.
pub open spec fn episodes_of_items(
    eps: Seq<Episode>,
    feed_id: u128,
    items: Seq<RssItem>,
    ids: Seq<u128>,
    spares: Seq<Seq<char>>,
) -> bool {
    let idx = audio_items(items);
    &&& eps.len() == idx.len()
    &&& forall|k: int|
        0 <= k < eps.len() ==> episode_from_item(
            #[trigger] eps[k],
            feed_id,
            items[idx[k]],
            ids[idx[k]],
            spares[idx[k]],
        )
}

proof fn lemma_audio_items_bounds(items: Seq<RssItem>)
    ensures
        forall|k: int| 0 <= k < audio_items(items).len() ==> 0 <= #[trigger] audio_items(items)[k] < items.len(),
    decreases items.len(),
{
    if items.len() > 0 {
        let p = items.drop_last();
        lemma_audio_items_bounds(p);
        assert forall|k: int| 0 <= k < audio_items(items).len() implies 0 <= #[trigger] audio_items(items)[k] < items.len() by {
            if k < audio_items(p).len() {
                assert(audio_items(p)[k] < p.len());
            }
        }
    }
}

fn episode_from(feed_id: u128, item: &RssItem, id: u128, spare: &String) -> (e: Episode)
    requires
        item.enclosure_url is Some,
    ensures
        episode_from_item(e, feed_id, *item, id, spare@),
{
    let guid = match &item.guid {
        Some(g) => g.clone(),
        None => match &item.title {
            Some(t) => t.clone(),
            None => spare.clone(),
        },
    };
    let title = match &item.title {
        Some(t) => t.clone(),
        None => String::from_str("(Untitled)"),
    };
    let description = match &item.description {
        Some(d) => Some(description_plain_text(d.as_str())),
        None => None,
    };
    let audio_url = match &item.enclosure_url {
        Some(u) => u.clone(),
        None => String::new(),
    };
    let published = match &item.pub_date {
        Some(d) => parse_rfc2822(d.as_str()),
        None => None,
    };
    let duration_secs = match &item.duration {
        Some(d) => parse_duration(d.as_str()),
        None => None,
    };
    Episode {
        id,
        feed_id,
        guid,
        title,
        description,
        audio_url,
        published,
        duration_secs,
        is_new: true,
        download: DownloadState::NotDownloaded,
        listen_progress_secs: 0,
        chapters: Vec::new(),
    }
}

/// The episodes of a channel: items without an audio enclosure are skipped;
/// item `i` gets identifier `ids[i]`, and `spare_guids[i]` as guid when it
/// has neither guid nor title.
pub fn episodes_from_channel(
    feed_id: u128,
    channel: &RssChannel,
    ids: &Vec<u128>,
    spare_guids: &Vec<String>,
) -> (r: Vec<Episode>)
    requires
        ids@.len() == channel.items@.len(),
        spare_guids@.len() == channel.items@.len(),
    ensures
        episodes_of_items(r@, feed_id, channel.items@, ids@, spare_guids@.map_values(|g: String| g@)),
{
    let ghost spares = spare_guids@.map_values(|g: String| g@);
    let mut r: Vec<Episode> = Vec::new();
    for i in 0..channel.items.len()
        invariant
            ids@.len() == channel.items@.len(),
            spare_guids@.len() == channel.items@.len(),
            spares == spare_guids@.map_values(|g: String| g@),
            episodes_of_items(r@, feed_id, channel.items@.take(i as int), ids@, spares),
    {
        let ghost items = channel.items@.take(i + 1);
        assert(items.drop_last() == channel.items@.take(i as int));
        assert(items.last() == channel.items@[i as int]);
        proof {
            lemma_audio_items_bounds(channel.items@.take(i as int));
        }
        let item = &channel.items[i];
        if item.enclosure_url.is_some() {
            let e = episode_from(feed_id, item, ids[i], &spare_guids[i]);
            r.push(e);
            assert forall|k: int| 0 <= k < r@.len() implies episode_from_item(
                #[trigger] r@[k],
                feed_id,
                items[audio_items(items)[k]],
                ids@[audio_items(items)[k]],
                spares[audio_items(items)[k]],
            ) by {
                if k < r@.len() - 1 {
                    let j = audio_items(channel.items@.take(i as int))[k];
                    assert(items[j] == channel.items@.take(i as int)[j]);
                }
            }
        } else {
            assert forall|k: int| 0 <= k < r@.len() implies episode_from_item(
                #[trigger] r@[k],
                feed_id,
                items[audio_items(items)[k]],
                ids@[audio_items(items)[k]],
                spares[audio_items(items)[k]],
            ) by {
                let j = audio_items(channel.items@.take(i as int))[k];
                assert(items[j] == channel.items@.take(i as int)[j]);
            }
        }
    }
    assert(channel.items@.take(channel.items.len() as int) == channel.items@);
    r
}

/// `title` and `eps` are what the document `bytes` holds for feed `feed_id`:
/// its channel title, and its episodes with some identifiers and spare guids.
pub open spec fn read_from_document(feed_id: u128, bytes: Seq<u8>, title: String, eps: Seq<Episode>) -> bool {
    match rss_document(bytes) {
        Ok(ch) => title == ch.title && channel_episodes(feed_id, ch, eps),
        Err(_) => false,
    }
}

/// `eps` are the episodes of channel `ch` with some version 4 identifiers, and
/// spare guids in UUID text form.
pub open spec fn channel_episodes(feed_id: u128, ch: RssChannel, eps: Seq<Episode>) -> bool {
    exists|ids: Seq<u128>, spares: Seq<Seq<char>>|
        #![trigger episodes_of_items(eps, feed_id, ch.items@, ids, spares)]
        ids.len() == ch.items@.len() && spares.len() == ch.items@.len()
            && (forall|k: int| 0 <= k < ids.len() ==> is_v4_id(#[trigger] ids[k]))
            && (forall|k: int| 0 <= k < spares.len() ==> is_v4_text(#[trigger] spares[k]))
            && episodes_of_items(
            eps,
            feed_id,
            ch.items@,
            ids,
            spares,
        )
}

/// Reads an RSS document into the channel title and its episodes, each with a
/// fresh random identifier.
pub fn parse_feed(feed_id: u128, bytes: &[u8]) -> (r: Result<(String, Vec<Episode>), FeedError>)
    ensures
        r is Ok <==> rss_document(bytes@) is Ok,
        r matches Err(e) ==> e matches FeedError::Parse(m) && rss_document(bytes@) == Err::<
            RssChannel,
            Seq<char>,
        >(m@),
        r matches Ok((title, eps)) ==> read_from_document(feed_id, bytes@, title, eps@),
{
    match read_channel(bytes) {
        Err(e) => Err(FeedError::Parse(e)),
        Ok(channel) => {
            let mut ids: Vec<u128> = Vec::new();
            let mut spares: Vec<String> = Vec::new();
            for i in 0..channel.items.len()
                invariant
                    ids@.len() == i,
                    spares@.len() == i,
                    forall|k: int| 0 <= k < i ==> is_v4_id(#[trigger] ids@[k]),
                    forall|k: int| 0 <= k < i ==> is_v4_text((#[trigger] spares@[k])@),
            {
                ids.push(random_id());
                spares.push(random_guid());
            }
            let eps = episodes_from_channel(feed_id, &channel, &ids, &spares);
            let ghost sv = spares@.map_values(|g: String| g@);
            let ghost ch = channel;
            assert(episodes_of_items(eps@, feed_id, ch.items@, ids@, sv));
            assert(channel_episodes(feed_id, ch, eps@));
            let title = channel.title;
            Ok((title, eps))
        },
    }
}

} // verus!
