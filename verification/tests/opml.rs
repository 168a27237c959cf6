use shellcaster::feeds::PodcastFeed;
use shellcaster::opml::{export, feeds_from_outlines, import, OutlineData};
use shellcaster::types::{LockVec, Podcast};

fn feed_parts(f: &PodcastFeed) -> (Option<i64>, String, Option<String>) {
    (f.id, f.url.clone(), f.title.clone())
}

#[test]
fn import_reads_feeds() {
    let xml = r#"<?xml version="1.0" encoding="UTF-8"?>
<opml version="2.0">
  <head><title>Feeds</title></head>
  <body>
    <outline text="First" title="First Title" type="rss" xmlUrl="http://a.example/feed"/>
    <outline text="Second" type="rss" xmlUrl="http://b.example/feed"/>
    <outline text="Folder"/>
  </body>
</opml>"#;
    let feeds = import(xml.to_string()).unwrap();
    let parts: Vec<_> = feeds.iter().map(feed_parts).collect();
    assert_eq!(
        parts,
        vec![
            (None, "http://a.example/feed".to_string(), Some("First Title".to_string())),
            (None, "http://b.example/feed".to_string(), Some("Second".to_string())),
        ]
    );
}

#[test]
fn import_rejects_bad_xml() {
    assert!(import("not xml at all".to_string()).is_err());
}

#[test]
fn outlines_without_titles() {
    let outlines = vec![
        OutlineData { text: String::new(), title: Some(String::new()), xml_url: Some("u".to_string()) },
        OutlineData { text: "t".to_string(), title: None, xml_url: None },
    ];
    let feeds = feeds_from_outlines(outlines);
    assert_eq!(feeds.len(), 1);
    assert_eq!(feed_parts(&feeds[0]), (None, "u".to_string(), None));
}

#[test]
fn export_lists_podcasts() {
    let pod = Podcast {
        id: 1,
        title: "Pod".to_string(),
        sort_title: "pod".to_string(),
        url: "http://a.example/feed".to_string(),
        description: None,
        author: None,
        explicit: None,
        last_checked: 0,
        episodes: LockVec::new(Vec::new()),
    };
    let doc = export(vec![pod], "2020-01-01".to_string());
    assert_eq!(doc.head_title, "Shellcaster Podcast Feeds");
    assert_eq!(doc.date_created, "2020-01-01");
    assert_eq!(doc.outlines.len(), 1);
    assert_eq!(doc.outlines[0].text, "Pod");
    assert_eq!(doc.outlines[0].kind, "rss");
    assert_eq!(doc.outlines[0].xml_url, "http://a.example/feed");
}

#[test]
fn exported_outlines_read_back_as_the_feeds() {
    let pod = |id: i64, title: &str, url: &str| Podcast {
        id,
        title: title.to_string(),
        sort_title: title.to_lowercase(),
        url: url.to_string(),
        description: None,
        author: None,
        explicit: None,
        last_checked: 0,
        episodes: LockVec::new(Vec::new()),
    };
    let doc = export(vec![pod(1, "One", "http://one/feed"), pod(2, "", "http://two/feed")], "now".to_string());
    let outlines: Vec<OutlineData> = doc
        .outlines
        .into_iter()
        .map(|o| OutlineData { text: o.text, title: Some(o.title), xml_url: Some(o.xml_url) })
        .collect();
    let parts: Vec<_> = feeds_from_outlines(outlines).iter().map(feed_parts).collect();
    assert_eq!(
        parts,
        vec![
            (None, "http://one/feed".to_string(), Some("One".to_string())),
            (None, "http://two/feed".to_string(), None),
        ]
    );
}
