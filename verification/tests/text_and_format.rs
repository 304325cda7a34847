use podcast_tui::download::safe_filename;
use podcast_tui::rss::{parse_duration, strip_html, description_plain_text};
use podcast_tui::text::{is_whitespace, chars_of, string_from, trim_chars, collapse_chars};
use podcast_tui::ui::{truncate, pad_left, title_bar_text, player_height, help_region, input_region, status_region, Region};
use podcast_tui::ui::episodes::format_duration;
use podcast_tui::ui::player::format_time;

#[test]
fn duration_plain_seconds() {
    assert_eq!(parse_duration("1234"), Some(1234));
}

#[test]
fn duration_minutes_seconds() {
    assert_eq!(parse_duration("23:45"), Some(23 * 60 + 45));
}

#[test]
fn duration_hours_minutes_seconds() {
    assert_eq!(parse_duration("1:23:45"), Some(3600 + 23 * 60 + 45));
}

#[test]
fn duration_surrounding_space_and_plus() {
    assert_eq!(parse_duration("  \t90\n"), Some(90));
    assert_eq!(parse_duration("+5"), Some(5));
    assert_eq!(parse_duration("+1:+2"), Some(62));
}

#[test]
fn duration_rejects_bad_input() {
    assert_eq!(parse_duration(""), None);
    assert_eq!(parse_duration("abc"), None);
    assert_eq!(parse_duration("1:2:3:4"), None);
    assert_eq!(parse_duration("1: 30"), None);
    assert_eq!(parse_duration("-5"), None);
    assert_eq!(parse_duration("+"), None);
    assert_eq!(parse_duration("12:"), None);
    assert_eq!(parse_duration("1.5"), None);
}

#[test]
fn duration_overflow_is_none() {
    assert_eq!(parse_duration("18446744073709551615"), Some(u64::MAX));
    assert_eq!(parse_duration("18446744073709551616"), None);
    assert_eq!(parse_duration("18446744073709551615:00"), None);
    assert_eq!(parse_duration("5124095576030431:00:00"), Some(18446744073709551600));
    assert_eq!(parse_duration("5124095576030432:00:00"), None);
}

#[test]
fn strip_html_removes_tags_and_collapses_space() {
    assert_eq!(strip_html("<p>Hello   <b>world</b></p>"), "Hello world");
    assert_eq!(strip_html("  a \n\t b  "), "a b");
    assert_eq!(strip_html("no tags"), "no tags");
    assert_eq!(strip_html("<a href='x'>link</a>"), "link");
    assert_eq!(strip_html(""), "");
}

#[test]
fn description_keeps_words_apart_across_tags() {
    assert_eq!(description_plain_text("one<br>two"), "one two");
    assert_eq!(strip_html("one<br>two"), "onetwo");
    assert_eq!(description_plain_text("<p>First</p><p>Second</p>"), "First Second");
}

#[test]
fn whitespace_matches_std() {
    for c in ['\t', '\n', ' ', '\u{85}', '\u{a0}', '\u{2003}', '\u{3000}', 'a', '0', '-', '\u{200b}', 'é'] {
        assert_eq!(is_whitespace(c), c.is_whitespace(), "{:?}", c);
    }
}

#[test]
fn char_helpers_round_trip() {
    let v = chars_of("héllo wörld");
    assert_eq!(v.len(), 11);
    assert_eq!(string_from(&v), "héllo wörld");
    assert_eq!(string_from(&trim_chars(&chars_of("  x y  "))), "x y");
    assert_eq!(string_from(&collapse_chars(&chars_of(" a  b\tc "))), "a b c");
}

#[test]
fn safe_filename_replaces_and_cuts() {
    assert_eq!(safe_filename("Ep 158: Alone in the Dark"), "Ep-158--Alone-in-the-Dark.mp3");
    assert_eq!(safe_filename("Über-Folge"), "Über-Folge.mp3");
    let long = "a".repeat(100);
    assert_eq!(safe_filename(&long), format!("{}.mp3", "a".repeat(80)));
    assert_eq!(safe_filename(""), ".mp3");
}

#[test]
fn truncate_cuts_with_ellipsis() {
    assert_eq!(truncate("Darknet Diaries", 20), "Darknet Diaries");
    assert_eq!(truncate("Darknet Diaries", 7), "Darkne…");
    assert_eq!(truncate("abc", 3), "abc");
    assert_eq!(truncate("abcd", 1), "…");
    assert_eq!(truncate("abcd", 0), "…");
    assert_eq!(truncate("äöüß", 3), "äö…");
}

#[test]
fn durations_in_the_table() {
    assert_eq!(format_duration(47 * 60 + 13), "47min");
    assert_eq!(format_duration(3600 + 2 * 60 + 5), "1h2m");
    assert_eq!(format_duration(59), "0min");
    assert_eq!(format_duration(3600), "1h0m");
}

#[test]
fn times_in_the_player_bar() {
    assert_eq!(format_time(18 * 60 + 42), "18:42");
    assert_eq!(format_time(47 * 60 + 13), "47:13");
    assert_eq!(format_time(0), "00:00");
    assert_eq!(format_time(3600 + 5), "01:00:05");
    assert_eq!(format_time(100 * 3600), "100:00:00");
}

#[test]
fn times_read_back_as_durations() {
    for n in [0u64, 5, 59, 60, 61, 3599, 3600, 3661, 86399, 360000] {
        assert_eq!(parse_duration(&format_time(n)), Some(n));
        assert_eq!(parse_duration(&n.to_string()), Some(n));
    }
}

#[test]
fn padding_and_title_bar() {
    assert_eq!(pad_left("47min", 6), " 47min");
    assert_eq!(pad_left("1h2m", 6), "  1h2m");
    assert_eq!(pad_left("toolongtext", 6), "toolongtext");
    assert_eq!(title_bar_text(2), "2 feed(s) | [?] hilfe [q] quit");
}

#[test]
fn layout_regions() {
    assert_eq!(player_height(30), 4);
    assert_eq!(player_height(8), 3);
    assert_eq!(help_region(100, 40), Region { x: 24, y: 7, width: 52, height: 26 });
    assert_eq!(help_region(40, 20), Region { x: 0, y: 0, width: 40, height: 20 });
    assert_eq!(input_region(100, 40), Region { x: 20, y: 17, width: 60, height: 5 });
    assert_eq!(input_region(30, 10), Region { x: 2, y: 2, width: 26, height: 5 });
    assert_eq!(status_region(100, 40, 12), Region { x: 42, y: 35, width: 16, height: 1 });
    assert_eq!(status_region(10, 3, 12), Region { x: 2, y: 0, width: 6, height: 1 });
}

#[test]
fn safe_filename_stays_in_its_directory() {
    let name = safe_filename("../../etc/passwd");
    assert_eq!(name, "------etc-passwd.mp3");
    let stem = &name[..name.len() - 4];
    assert!(!stem.contains('/') && !stem.contains('\\') && !stem.contains('\0') && !stem.contains('.'));
    assert_eq!(safe_filename("a\\b\0c.d"), "a-b-c-d.mp3");
    assert_eq!(safe_filename("Grüße 2024"), "Grüße-2024.mp3");
}

#[test]
fn status_region_for_very_long_text() {
    assert_eq!(status_region(100, 40, usize::MAX), Region { x: 2, y: 35, width: 96, height: 1 });
    assert_eq!(status_region(100, 40, 70000), Region { x: 2, y: 35, width: 96, height: 1 });
    assert_eq!(status_region(3, 2, 5), Region { x: 1, y: 0, width: 0, height: 1 });
}
