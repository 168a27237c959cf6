use std::cmp::Ordering;

use shellcaster::text::lex_compare;
use shellcaster::types::{checked_title, Episode, LockVec, Menuable, NewEpisode, Podcast, StringUtils};

fn episode(id: i64, title: &str, duration: Option<i64>, path: Option<&str>, played: bool) -> Episode {
    Episode {
        id,
        pod_id: 1,
        title: title.to_string(),
        url: format!("http://example.com/{}.mp3", id),
        guid: String::new(),
        description: String::new(),
        pubdate: None,
        duration,
        path: path.map(|p| p.to_string()),
        played,
    }
}

fn podcast(id: i64, title: &str, eps: Vec<Episode>) -> Podcast {
    Podcast {
        id,
        title: title.to_string(),
        sort_title: title.to_lowercase(),
        url: "http://example.com/feed.xml".to_string(),
        description: None,
        author: None,
        explicit: None,
        last_checked: 0,
        episodes: LockVec::new(eps),
    }
}

#[test]
fn format_duration_hms() {
    assert_eq!(episode(1, "a", Some(3725), None, false).format_duration(), "01:02:05");
    assert_eq!(episode(1, "a", Some(0), None, false).format_duration(), "00:00:00");
    assert_eq!(episode(1, "a", None, None, false).format_duration(), "--:--:--");
}

#[test]
fn substr_counts_graphemes() {
    let s = "An episode with le Unicodé".to_string();
    assert_eq!(s.substr(0, 25), "An episode with le Unicod");
    assert_eq!(s.grapheme_len(), 26);
    assert_eq!("abc".to_string().substr(1, 10), "bc");
    assert_eq!("abc".to_string().substr(5, 2), "");
}

#[test]
fn num_unplayed_counts() {
    let p = podcast(1, "Pod", vec![
        episode(1, "a", None, None, false),
        episode(2, "b", None, None, true),
        episode(3, "c", None, None, false),
    ]);
    assert_eq!(p.num_unplayed(), 2);
    assert!(!p.is_played());
    let q = podcast(2, "Pod", vec![episode(4, "d", None, None, true)]);
    assert!(q.is_played());
}

#[test]
fn podcast_title_narrow_and_wide() {
    let p = podcast(1, "My Podcast", vec![episode(1, "a", None, None, false), episode(2, "b", None, None, true)]);
    assert_eq!(p.get_title(12), " My Podcast ");
    assert_eq!(p.get_title(8), " My Pod ");
    assert_eq!(p.get_title(30), format!(" My Podcast {:>17} ", "(1/2)"));
}

#[test]
fn episode_title_marks_download() {
    let e = episode(1, "Episode", None, Some("/tmp/x.mp3"), false);
    assert_eq!(e.get_title(13), " [D] Episode ");
    let f = episode(1, "Episode", Some(60), None, false);
    assert_eq!(f.get_title(50), format!(" Episode {:>40} ", "[00:01:00]"));
}

#[test]
fn checked_title_refuses_too_narrow() {
    let e = episode(1, "Episode", None, Some("/tmp/x.mp3"), false);
    assert_eq!(checked_title(&e, 3), None);
    assert_eq!(checked_title(&e, 13), Some(" [D] Episode ".to_string()));
}

#[test]
fn lockvec_keeps_order_and_replaces() {
    let mut v = LockVec::new(vec![episode(5, "e", None, None, false), episode(3, "c", None, None, false)]);
    assert_eq!(v.borrow_order().clone(), vec![5, 3]);
    assert_eq!(v.len(), 2);
    let mut e = v.clone_episode(3).unwrap();
    e.played = true;
    v.replace(3, e);
    assert_eq!(v.map_single(3, |e| e.played), Some(true));
    assert_eq!(v.map_single(9, |e| e.played), None);
    assert_eq!(v.map_single_by_index(0, |e| e.id), Some(5));
    assert_eq!(v.map(|e| e.id, false), vec![5, 3]);
    v.replace_all(Vec::new());
    assert!(v.is_empty());
}

#[test]
fn lockvec_filter_map_keeps_somes() {
    let v = LockVec::new(vec![
        episode(1, "a", None, Some("p"), false),
        episode(2, "b", None, None, false),
        episode(3, "c", None, None, false),
    ]);
    let ids = v.filter_map(|e| if e.path.is_none() { Some(e.id) } else { None });
    assert_eq!(ids, vec![2, 3]);
}

#[test]
fn podcast_equality_by_sort_title() {
    let a = podcast(1, "Alpha", Vec::new());
    let b = podcast(2, "ALPHA", Vec::new());
    assert!(a == b);
}

#[test]
fn new_episode_title_shows_podcast() {
    let e = NewEpisode {
        id: 1,
        pod_id: 2,
        title: "Ep".to_string(),
        pod_title: "Pod".to_string(),
        selected: false,
    };
    assert!(e.is_played());
    assert_eq!(e.get_id(), 1);
}

#[test]
fn podcasts_ordered_by_sort_title() {
    let a = podcast(1, "Abc", Vec::new());
    let b = podcast(2, "abd", Vec::new());
    let c = podcast(3, "ab", Vec::new());
    let d = podcast(4, "ABC", Vec::new());
    assert_eq!(a.partial_cmp(&b), Some(Ordering::Less));
    assert_eq!(b.partial_cmp(&a), Some(Ordering::Greater));
    assert_eq!(c.partial_cmp(&a), Some(Ordering::Less));
    assert_eq!(a.partial_cmp(&d), Some(Ordering::Equal));
    assert!(c < b);
}

#[test]
fn strings_compare_as_std_does() {
    let words = ["", "a", "ab", "b", "é", "z", "Zebra", "zebra", "日本"];
    for x in words.iter() {
        for y in words.iter() {
            let expected = match x.cmp(y) {
                Ordering::Less => -1,
                Ordering::Equal => 0,
                Ordering::Greater => 1,
            };
            assert_eq!(lex_compare(x, y), expected);
        }
    }
}
