//! Feeds, episodes and what is known of an episode locally.

use vstd::prelude::*;

verus! {

/// A chapter mark inside an episode.
#[derive(Debug, Clone)]
pub struct Chapter {
    pub title: String,
    pub start_secs: u64,
}

impl Chapter {
    /// An identical copy.
    pub fn duplicate(&self) -> (r: Chapter)
        ensures
            r == *self,
    {
        Chapter { title: self.title.clone(), start_secs: self.start_secs }
    }
}

/// Copies a list of chapters.
pub fn duplicate_chapters(v: &Vec<Chapter>) -> (r: Vec<Chapter>)
    ensures
        r@ == v@,
{
    let mut r: Vec<Chapter> = Vec::new();
    for i in 0..v.len()
        invariant
            r@ == v@.take(i as int),
    {
        r.push(v[i].duplicate());
        assert(v@.take(i + 1) == v@.take(i as int).push(v@[i as int]));
    }
    assert(v@.take(v.len() as int) == v@);
    r
}

/// Where the audio of an episode is kept.
///
/// A download in progress counts the bytes received against the length the
/// server announced (zero when it announced none).
#[derive(Debug, Clone)]
pub enum DownloadState {
    NotDownloaded,
    Downloading { done_bytes: u64, total_bytes: u64 },
    Downloaded { path: String },
    Failed { reason: String },
}

impl DownloadState {
    /// An identical copy.
    pub fn duplicate(&self) -> (r: DownloadState)
        ensures
            r == *self,
    {
        match self {
            DownloadState::NotDownloaded => DownloadState::NotDownloaded,
            DownloadState::Downloading { done_bytes, total_bytes } => DownloadState::Downloading {
                done_bytes: *done_bytes,
                total_bytes: *total_bytes,
            },
            DownloadState::Downloaded { path } => DownloadState::Downloaded { path: path.clone() },
            DownloadState::Failed { reason } => DownloadState::Failed { reason: reason.clone() },
        }
    }
}

impl Default for DownloadState {
    fn default() -> (r: Self)
        ensures
            r is NotDownloaded,
    {
        DownloadState::NotDownloaded
    }
}

/// One episode of a feed. Times are milliseconds since the Unix epoch.
#[derive(Debug, Clone)]
pub struct Episode {
    pub id: u128,
    pub feed_id: u128,
    pub guid: String,
    pub title: String,
    pub description: Option<String>,
    pub audio_url: String,
    pub published: Option<i64>,
    pub duration_secs: Option<u64>,
    pub is_new: bool,
    pub download: DownloadState,
    pub listen_progress_secs: u64,
    pub chapters: Vec<Chapter>,
}

/// A subscribed feed. `last_refreshed` is in milliseconds since the Unix epoch.
#[derive(Debug, Clone)]
pub struct Feed {
    pub id: u128,
    pub title: String,
    pub url: String,
    pub description: Option<String>,
    pub last_refreshed: Option<i64>,
    pub episodes: Vec<Episode>,
}

/// Whether `id` is the value of a version 4, RFC 4122 variant UUID: version
/// nibble 4, variant bits `10`.
pub open spec fn is_v4_id(id: u128) -> bool {
    &&& (id >> 76u128) & 0xfu128 == 4u128
    &&& (id >> 62u128) & 3u128 == 2u128
}

/// Draws a fresh random identifier with `uuid::Uuid::new_v4` and gives its
/// 128-bit value. The contract states only the version and variant bits,
/// which `new_v4` sets on every value; the other bits are random.
#[verifier::external_body]
pub(crate) fn random_id() -> (r: u128)
    ensures
        is_v4_id(r),
{
    uuid::Uuid::new_v4().as_u128()
}

impl Feed {
    /// A feed for `url` that has not been fetched yet, with a random
    /// version 4 UUID as identifier.
    pub fn new(url: String) -> (r: Feed)
        ensures
            is_v4_id(r.id),
            r.title == url,
            r.url == url,
            r.description is None,
            r.last_refreshed is None,
            r.episodes@.len() == 0,
    {
        let id = random_id();
        Feed::with_id(id, url)
    }

    /// A feed for `url` that has not been fetched yet: titled by its URL, no episodes.
    pub fn with_id(id: u128, url: String) -> (r: Feed)
        ensures
            r.id == id,
            r.title == url,
            r.url == url,
            r.description is None,
            r.last_refreshed is None,
            r.episodes@.len() == 0,
    {
        Feed {
            id,
            title: url.clone(),
            url,
            description: None,
            last_refreshed: None,
            episodes: Vec::new(),
        }
    }
}

/// Why fetching a feed failed.
#[derive(Debug, Clone)]
pub enum FeedError {
    /// The HTTP request failed; the text says why.
    Http(String),
    /// The document is not RSS; the text says why.
    Parse(String),
    /// An episode has no audio enclosure.
    NoEnclosure { guid: String },
}

} // verus!
