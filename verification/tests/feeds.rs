use shellcaster::feeds::{duration_from_captures, duration_to_int, feed_from_bytes, parse_explicit, PodcastFeed};
use shellcaster::types::Episode;

#[test]
fn nan_duration() {
    let duration = String::from("nan");
    assert_eq!(duration_to_int(Some(&duration)), None);
}

#[test]
fn nonnumeric_duration() {
    let duration = String::from("some string");
    assert_eq!(duration_to_int(Some(&duration)), None);
}

#[test]
fn duration_hhhmmss() {
    let duration = String::from("31:38:42");
    assert_eq!(duration_to_int(Some(&duration)), Some(113922));
}

#[test]
fn duration_hhmmss() {
    let duration = String::from("01:38:42");
    assert_eq!(duration_to_int(Some(&duration)), Some(5922));
}

#[test]
fn duration_hmmss() {
    let duration = String::from("1:38:42");
    assert_eq!(duration_to_int(Some(&duration)), Some(5922));
}

#[test]
fn duration_mmmss() {
    let duration = String::from("68:42");
    assert_eq!(duration_to_int(Some(&duration)), Some(4122));
}

#[test]
fn duration_mmss() {
    let duration = String::from("08:42");
    assert_eq!(duration_to_int(Some(&duration)), Some(522));
}

#[test]
fn duration_mss() {
    let duration = String::from("8:42");
    assert_eq!(duration_to_int(Some(&duration)), Some(522));
}

#[test]
fn duration_sss() {
    let duration = String::from("142");
    assert_eq!(duration_to_int(Some(&duration)), Some(142));
}

#[test]
fn duration_ss() {
    let duration = String::from("08");
    assert_eq!(duration_to_int(Some(&duration)), Some(8));
}

#[test]
fn duration_s() {
    let duration = String::from("8");
    assert_eq!(duration_to_int(Some(&duration)), Some(8));
}

#[test]
fn duration_missing() {
    assert_eq!(duration_to_int(None), None);
}

#[test]
fn duration_embedded_in_text() {
    // the first run of digits is taken, wherever it stands
    assert_eq!(duration_to_int(Some("about 2:05 long")), Some(125));
}

#[test]
fn duration_total_too_large() {
    // 700000 hours do not fit in an i32 number of seconds
    assert_eq!(duration_to_int(Some("700000:00:00")), None);
}

#[test]
fn duration_component_too_large() {
    assert_eq!(duration_to_int(Some("99999999999")), None);
}

#[test]
fn duration_from_groups_directly() {
    let caps = Some(vec![
        Some("1:02:03".chars().collect::<Vec<char>>()),
        Some(vec!['1']),
        Some(vec!['0', '2']),
        Some(vec!['0', '3']),
    ]);
    assert_eq!(duration_from_captures(caps), Some(3723));
    let two = Some(vec![Some(vec!['5']), Some(vec!['5']), None, Some(vec!['9'])]);
    assert_eq!(duration_from_captures(two), Some(309));
    assert_eq!(duration_from_captures(None), None);
    assert_eq!(duration_from_captures(Some(vec![])), None);
}

#[test]
fn podcast_feed_new_keeps_fields() {
    let feed = PodcastFeed::new(Some(3), "http://x".to_string(), None);
    assert_eq!(feed.id, Some(3));
    assert_eq!(feed.url, "http://x");
    assert_eq!(feed.title, None);
}

#[test]
fn parse_feed_from_rss_bytes() {
    let xml = r#"<?xml version="1.0"?>
<rss version="2.0" xmlns:itunes="http://www.itunes.com/dtds/podcast-1.0.dtd">
  <channel>
    <title>A Podcast</title>
    <description>About things</description>
    <itunes:author>Someone</itunes:author>
    <itunes:explicit>Clean</itunes:explicit>
    <item>
      <title>First</title>
      <enclosure url="http://example.com/1.mp3" length="1" type="audio/mpeg"/>
      <guid>g1</guid>
      <description>Desc</description>
      <pubDate>Thu, 01 Jan 1970 00:01:00 +0000</pubDate>
      <itunes:duration>1:02:03</itunes:duration>
    </item>
    <item>
      <title>Second</title>
    </item>
  </channel>
</rss>"#;
    let pod = feed_from_bytes(xml.as_bytes(), "http://example.com/feed", 42).unwrap();
    assert_eq!(pod.title, "A Podcast");
    assert_eq!(pod.url, "http://example.com/feed");
    assert_eq!(pod.description, Some("About things".to_string()));
    assert_eq!(pod.author, Some("Someone".to_string()));
    assert_eq!(pod.explicit, Some(false));
    assert_eq!(pod.last_checked, 42);
    assert_eq!(pod.episodes.len(), 2);
    assert_eq!(pod.episodes[0].title, "First");
    assert_eq!(pod.episodes[0].url, "http://example.com/1.mp3");
    assert_eq!(pod.episodes[0].guid, "g1");
    assert_eq!(pod.episodes[0].pubdate, Some(60));
    assert_eq!(pod.episodes[0].duration, Some(3723));
    assert_eq!(pod.episodes[1].url, "");
    assert_eq!(pod.episodes[1].duration, None);
}

#[test]
fn feed_without_description_or_episodes() {
    let xml = r#"<rss version="2.0"><channel><title>T</title></channel></rss>"#;
    let pod = feed_from_bytes(xml.as_bytes(), "u", 0).unwrap();
    assert_eq!(pod.description, Some("".to_string()));
    assert_eq!(pod.explicit, None);
    assert_eq!(pod.episodes.len(), 0);
}

#[test]
fn invalid_feed_bytes() {
    assert!(feed_from_bytes(b"<html></html>", "u", 0).is_none());
}

#[test]
fn explicit_values() {
    assert_eq!(parse_explicit(&Some("YES".to_string())), Some(true));
    assert_eq!(parse_explicit(&Some("explicit".to_string())), Some(true));
    assert_eq!(parse_explicit(&Some("no".to_string())), Some(false));
    assert_eq!(parse_explicit(&Some("maybe".to_string())), None);
    assert_eq!(parse_explicit(&None), None);
}

#[test]
fn formatted_duration_reads_back() {
    for text in ["01:02:03", "00:00:59", "99:59:59", "10:00:00"] {
        let secs = duration_to_int(Some(text)).unwrap();
        let ep = Episode {
            id: 1,
            pod_id: 1,
            title: String::new(),
            url: String::new(),
            guid: String::new(),
            description: String::new(),
            pubdate: None,
            duration: Some(secs as i64),
            path: None,
            played: false,
        };
        assert_eq!(ep.format_duration(), text);
    }
}
