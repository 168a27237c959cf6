use shellcaster::store::{update_episodes, EpisodeAction, StoredEpisode};
use shellcaster::types::EpisodeNoId;

fn fetched(url: &str, pubdate: i64) -> EpisodeNoId {
    EpisodeNoId {
        title: url.to_string(),
        url: url.to_string(),
        guid: String::new(),
        description: String::new(),
        pubdate: Some(pubdate),
        duration: None,
    }
}

fn stored(id: i64, url: &str, pubdate: i64) -> StoredEpisode {
    StoredEpisode { id, url: url.to_string(), pubdate: Some(pubdate) }
}

#[test]
fn known_episodes_are_updated_and_new_ones_inserted() {
    let known = vec![stored(1, "a", 10), stored(2, "b", 20), stored(3, "b", 20)];
    // newest first, as a feed lists them
    let eps = vec![fetched("c", 30), fetched("b", 20), fetched("a", 11)];
    let actions = update_episodes(&known, &eps);
    assert_eq!(actions, vec![EpisodeAction::Insert, EpisodeAction::Update(3), EpisodeAction::Insert]);
}

#[test]
fn nothing_fetched_nothing_to_do() {
    let known = vec![stored(1, "a", 10)];
    assert!(update_episodes(&known, &Vec::new()).is_empty());
}
