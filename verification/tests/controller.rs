use std::collections::HashSet;

use shellcaster::downloads::{after_failed_try, file_extension, file_name, EpData};
use shellcaster::main_controller::{
    added_message, clear_episodes, episodes_to_download, feed_error_message, get_config_path, play_command_line,
    play_target, podcast_dir, set_episode_path, set_episode_played, store_error_message, sync_totals_fit, Progress, SyncResult,
};
use shellcaster::types::{Episode, LockVec, Podcast};

fn episode(id: i64, path: Option<&str>) -> Episode {
    Episode {
        id,
        pod_id: 7,
        title: format!("Episode {}", id),
        url: format!("http://example.com/{}.mp3", id),
        guid: String::new(),
        description: String::new(),
        pubdate: Some(0),
        duration: None,
        path: path.map(|p| p.to_string()),
        played: false,
    }
}

fn podcast(eps: Vec<Episode>) -> Podcast {
    Podcast {
        id: 7,
        title: "Pod".to_string(),
        sort_title: "pod".to_string(),
        url: "http://example.com/feed".to_string(),
        description: None,
        author: None,
        explicit: None,
        last_checked: 0,
        episodes: LockVec::new(eps),
    }
}

#[test]
fn tracker_messages() {
    let mut p = Progress::new();
    assert_eq!(p.update_tracker_notif(), None);
    p.begin_sync();
    assert_eq!(p.update_tracker_notif(), Some("Syncing 1 podcast...".to_string()));
    p.begin_sync();
    let eps = vec![EpData { id: 1, pod_id: 7, title: String::new(), url: String::new(), pubdate: None, file_path: None }];
    p.begin_downloads(&eps);
    assert_eq!(p.update_tracker_notif(), Some("Syncing 2 podcasts, downloading 1 episode...".to_string()));
    assert!(p.download_finished(1));
    assert_eq!(p.update_tracker_notif(), Some("Syncing 2 podcasts...".to_string()));
}

#[test]
fn sync_totals_reported_at_the_end() {
    let mut p = Progress::new();
    p.begin_sync();
    p.begin_sync();
    assert_eq!(p.sync_finished(SyncResult { added: Vec::new(), updated: vec![1, 2] }), None);
    let done = p.sync_finished(SyncResult { added: Vec::new(), updated: vec![3] });
    assert_eq!(done, Some("Sync complete: Added 0, updated 3 episodes.".to_string()));
    assert_eq!(p.sync_counter, 0);
    assert!(p.sync_tracker.is_empty());
}

#[test]
fn downloads_skip_downloaded_and_in_progress() {
    let pod = podcast(vec![episode(1, None), episode(2, Some("/x")), episode(3, None)]);
    let mut busy = HashSet::new();
    busy.insert(3);
    let all = episodes_to_download(&pod, None, &busy);
    assert_eq!(all.iter().map(|e| e.id).collect::<Vec<_>>(), vec![1]);
    let one = episodes_to_download(&pod, Some(2), &HashSet::new());
    assert!(one.is_empty());
    let other = episodes_to_download(&pod, Some(3), &HashSet::new());
    assert_eq!(other.len(), 1);
    assert_eq!(other[0].url, "http://example.com/3.mp3");
    assert_eq!(other[0].pubdate, Some(0));
}

#[test]
fn messages() {
    assert_eq!(feed_error_message(&Some("Pod".to_string())), "Error retrieving RSS feed for Pod.");
    assert_eq!(feed_error_message(&None), "Error retrieving RSS feed.");
    assert_eq!(store_error_message(true, "Pod"), "Error synchronizing Pod.");
    assert_eq!(store_error_message(false, "Pod"), "Error adding podcast to database.");
    assert_eq!(added_message(&SyncResult { added: Vec::new(), updated: Vec::new() }), "Successfully added 0 episodes.");
}

#[test]
fn play_commands() {
    assert_eq!(play_command_line("vlc %s", "/a b.mp3"), "vlc \"/a b.mp3\"");
    assert_eq!(play_command_line("mpv", "u"), "mpv \"u\"");
    assert_eq!(play_command_line("x %s %s", "u"), "x \"u\" \"u\"");
    assert_eq!(play_command_line("100%", "u"), "100% \"u\"");
    let e = episode(1, Some("/f.mp3"));
    assert_eq!(play_target(&e), ("/f.mp3".to_string(), "Error: Could not play file. Check configuration."));
    let f = episode(2, None);
    assert_eq!(play_target(&f), ("http://example.com/2.mp3".to_string(), "Error: Could not stream URL."));
}

#[test]
fn config_path_from_args_or_default() {
    let args = vec!["shellcaster".to_string(), "-c".to_string(), "/my/config.toml".to_string()];
    assert_eq!(get_config_path(&args, None), Some("/my/config.toml".to_string()));
    let args = vec!["shellcaster".to_string()];
    assert_eq!(get_config_path(&args, Some("/home/me/.config".to_string())), Some("/home/me/.config/shellcaster/config.toml".to_string()));
    assert_eq!(get_config_path(&args, None), None);
}

#[test]
fn file_extensions() {
    assert_eq!(file_extension(Some("audio/x-m4a")), "m4a");
    assert_eq!(file_extension(Some("video/mp4")), "mp4");
    assert_eq!(file_extension(Some("text/html")), "mp3");
    assert_eq!(file_extension(None), "mp3");
}

#[test]
fn file_names_are_sanitized_and_dated() {
    let ep = EpData { id: 1, pod_id: 1, title: "A/B: C?".to_string(), url: String::new(), pubdate: Some(86400), file_path: None };
    assert_eq!(file_name(&ep, Some("audio/mpeg")), "AB C_19700102_000000.mp3");
    let undated = EpData { id: 1, pod_id: 1, title: "Plain".to_string(), url: String::new(), pubdate: None, file_path: None };
    assert_eq!(file_name(&undated, Some("video/quicktime")), "Plain.mov");
}

#[test]
fn retries_count_down() {
    assert_eq!(after_failed_try(3), Some(2));
    assert_eq!(after_failed_try(1), None);
}

#[test]
fn podcast_directories_are_sanitized() {
    assert_eq!(podcast_dir("/tmp/dl", "A/B:C"), "/tmp/dl/ABC");
    assert_eq!(podcast_dir("/tmp/dl/", "Talk?"), "/tmp/dl/Talk");
}

#[test]
fn played_and_paths_are_recorded() {
    let mut pods = LockVec::new(vec![podcast(vec![episode(1, None), episode(2, None)])]);
    assert!(set_episode_played(&mut pods, 7, 2, true));
    assert!(set_episode_path(&mut pods, 7, 1, Some("/tmp/1.mp3".to_string())));
    assert!(!set_episode_played(&mut pods, 7, 9, true));
    assert!(!set_episode_path(&mut pods, 8, 1, None));
    let e1 = pods.clone_episode(7, 1).unwrap();
    let e2 = pods.clone_episode(7, 2).unwrap();
    assert_eq!(e1.path, Some("/tmp/1.mp3".to_string()));
    assert!(!e1.played);
    assert!(e2.played);
    assert_eq!(e2.path, None);
    assert_eq!(pods.clone_podcast(7).unwrap().episodes.len(), 2);
}

#[test]
fn all_episodes_can_be_cleared() {
    let mut pods = LockVec::new(vec![podcast(vec![episode(1, None), episode(2, None)])]);
    assert!(!clear_episodes(&mut pods, 8));
    assert!(clear_episodes(&mut pods, 7));
    let p = pods.clone_podcast(7).unwrap();
    assert!(p.episodes.is_empty());
    assert_eq!(p.title, "Pod");
}

#[test]
fn sync_totals_that_fit() {
    let tracker = vec![SyncResult { added: Vec::new(), updated: vec![1, 2] }];
    assert!(sync_totals_fit(&tracker, &SyncResult { added: Vec::new(), updated: vec![3] }));
    assert!(sync_totals_fit(&Vec::new(), &SyncResult { added: Vec::new(), updated: Vec::new() }));
}
