use podcast_tui::rss::types::{Chapter, DownloadState, Episode, Feed, FeedError};
use podcast_tui::rss::{merge_episodes, parse_feed, episodes_from_channel, RssChannel, RssItem};

const DOC: &str = r#"<?xml version="1.0" encoding="UTF-8"?>
<rss version="2.0" xmlns:itunes="http://www.itunes.com/dtds/podcast-1.0.dtd">
<channel>
  <title>Darknet Diaries</title>
  <link>https://example.com</link>
  <description>Stories</description>
  <item>
    <title>Ep 158: Alone in the Dark</title>
    <guid>ep-158</guid>
    <description>&lt;p&gt;A   story&lt;br&gt;of &lt;b&gt;hackers&lt;/b&gt;&lt;/p&gt;</description>
    <enclosure url="https://example.com/158.mp3" length="1" type="audio/mpeg"/>
    <pubDate>Mon, 10 Mar 2025 08:00:00 +0000</pubDate>
    <itunes:duration>47:13</itunes:duration>
  </item>
  <item>
    <title>Trailer without audio</title>
    <guid>trailer</guid>
  </item>
  <item>
    <title>Ep 157: Synthetic Souls</title>
    <enclosure url="https://example.com/157.mp3" length="1" type="audio/mpeg"/>
    <pubDate>not a date</pubDate>
    <itunes:duration>1:02:00</itunes:duration>
  </item>
  <item>
    <enclosure url="https://example.com/x.mp3" length="1" type="audio/mpeg"/>
  </item>
</channel>
</rss>"#;

fn episode(id: u128, guid: &str, title: &str) -> Episode {
    Episode {
        id,
        feed_id: 1,
        guid: guid.to_string(),
        title: title.to_string(),
        description: None,
        audio_url: format!("https://example.com/{}.mp3", guid),
        published: None,
        duration_secs: None,
        is_new: true,
        download: DownloadState::NotDownloaded,
        listen_progress_secs: 0,
        chapters: Vec::new(),
    }
}

#[test]
fn parse_feed_reads_channel_and_episodes() {
    let (title, eps) = parse_feed(7, DOC.as_bytes()).unwrap();
    assert_eq!(title, "Darknet Diaries");
    assert_eq!(eps.len(), 3);
    let e = &eps[0];
    assert_eq!(e.feed_id, 7);
    assert_eq!(e.guid, "ep-158");
    assert_eq!(e.title, "Ep 158: Alone in the Dark");
    assert_eq!(e.description.as_deref(), Some("A story of hackers"));
    assert_eq!(e.audio_url, "https://example.com/158.mp3");
    assert_eq!(e.published, Some(1741593600000));
    assert_eq!(e.duration_secs, Some(47 * 60 + 13));
    assert!(e.is_new);
    assert!(matches!(e.download, DownloadState::NotDownloaded));
    assert_eq!(e.listen_progress_secs, 0);
    assert!(e.chapters.is_empty());
    // Without a guid the title stands in; a bad date reads as none.
    assert_eq!(eps[1].guid, "Ep 157: Synthetic Souls");
    assert_eq!(eps[1].published, None);
    assert_eq!(eps[1].duration_secs, Some(3720));
    assert_eq!(eps[1].description, None);
    // Without guid and title, a random guid and "(Untitled)".
    assert_eq!(eps[2].title, "(Untitled)");
    assert_eq!(eps[2].guid.len(), 36);
    let g: Vec<char> = eps[2].guid.chars().collect();
    for (i, c) in g.iter().enumerate() {
        if i == 8 || i == 13 || i == 18 || i == 23 {
            assert_eq!(*c, '-');
        } else {
            assert!(c.is_ascii_hexdigit() && !c.is_ascii_uppercase(), "{}", eps[2].guid);
        }
    }
    assert_eq!(g[14], '4');
    assert!(matches!(g[19], '8' | '9' | 'a' | 'b'));
    assert_ne!(eps[0].id, eps[1].id);
}

#[test]
fn parse_feed_rejects_non_rss() {
    match parse_feed(1, b"this is not xml") {
        Err(FeedError::Parse(msg)) => assert!(!msg.is_empty()),
        other => panic!("unexpected: {:?}", other.map(|(t, _)| t)),
    }
}

#[test]
fn episodes_from_channel_uses_given_ids() {
    let item = |guid: Option<&str>, title: Option<&str>, url: Option<&str>| RssItem {
        guid: guid.map(str::to_string),
        title: title.map(str::to_string),
        enclosure_url: url.map(str::to_string),
        description: Some("<i>x</i>".to_string()),
        pub_date: None,
        duration: Some("90".to_string()),
    };
    let ch = RssChannel {
        title: "T".to_string(),
        items: vec![
            item(Some("g1"), Some("one"), Some("u1")),
            item(None, None, None),
            item(None, None, Some("u3")),
        ],
    };
    let eps = episodes_from_channel(9, &ch, &vec![10, 11, 12], &vec!["s1".into(), "s2".into(), "s3".into()]);
    assert_eq!(eps.len(), 2);
    assert_eq!(eps[0].id, 10);
    assert_eq!(eps[0].guid, "g1");
    assert_eq!(eps[0].description.as_deref(), Some("x"));
    assert_eq!(eps[0].duration_secs, Some(90));
    assert_eq!(eps[1].id, 12);
    assert_eq!(eps[1].guid, "s3");
    assert_eq!(eps[1].title, "(Untitled)");
    assert_eq!(eps[1].audio_url, "u3");
}

#[test]
fn merge_preserves_local_state() {
    let mut known = vec![episode(1, "a", "A old"), episode(2, "b", "B")];
    known[0].is_new = false;
    known[0].listen_progress_secs = 120;
    known[0].download = DownloadState::Downloaded { path: "/tmp/a.mp3".to_string() };
    known[0].chapters = vec![Chapter { title: "Intro".to_string(), start_secs: 0 }];
    let fresh = vec![episode(100, "c", "C"), episode(101, "a", "A new")];
    merge_episodes(&mut known, fresh);
    assert_eq!(known.len(), 2);
    assert_eq!(known[0].id, 100);
    assert_eq!(known[0].guid, "c");
    assert!(known[0].is_new);
    assert_eq!(known[1].id, 1);
    assert_eq!(known[1].title, "A new");
    assert!(!known[1].is_new);
    assert_eq!(known[1].listen_progress_secs, 120);
    assert!(matches!(&known[1].download, DownloadState::Downloaded { path } if path == "/tmp/a.mp3"));
    assert_eq!(known[1].chapters.len(), 1);
    assert_eq!(known[1].chapters[0].title, "Intro");
}

#[test]
fn merge_takes_last_known_duplicate() {
    let mut known = vec![episode(1, "a", "first"), episode(2, "a", "second")];
    known[1].is_new = false;
    merge_episodes(&mut known, vec![episode(50, "a", "fresh")]);
    assert_eq!(known.len(), 1);
    assert_eq!(known[0].id, 2);
    assert!(!known[0].is_new);
}

#[test]
fn merge_twice_changes_nothing() {
    let mut known = vec![episode(1, "a", "A")];
    known[0].is_new = false;
    let fresh = vec![episode(10, "a", "A"), episode(11, "b", "B")];
    merge_episodes(&mut known, fresh.clone());
    let once: Vec<(u128, bool)> = known.iter().map(|e| (e.id, e.is_new)).collect();
    merge_episodes(&mut known, fresh);
    let twice: Vec<(u128, bool)> = known.iter().map(|e| (e.id, e.is_new)).collect();
    assert_eq!(once, twice);
    assert_eq!(once, vec![(1, false), (11, true)]);
}

#[test]
fn new_feed_is_titled_by_url() {
    let f = Feed::new("https://example.com/feed.xml".to_string());
    assert_eq!(f.title, "https://example.com/feed.xml");
    assert_eq!(f.url, "https://example.com/feed.xml");
    assert!(f.episodes.is_empty());
    assert!(f.last_refreshed.is_none());
    assert_eq!((f.id >> 76) & 0xf, 4);
    assert_eq!((f.id >> 62) & 0x3, 2);
    let h = Feed::new("https://example.com/feed.xml".to_string());
    assert_eq!((h.id >> 76) & 0xf, 4);
    let g = Feed::with_id(5, "u".to_string());
    assert_eq!(g.id, 5);
    assert!(matches!(DownloadState::default(), DownloadState::NotDownloaded));
}
