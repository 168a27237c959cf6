use shellcaster::config::KeybindingsFromToml;
use shellcaster::keymap::{input_to_str, KeyCode, Keybindings, UserAction};

fn empty_config() -> KeybindingsFromToml {
    KeybindingsFromToml {
        left: None,
        right: None,
        up: None,
        down: None,
        big_up: None,
        big_down: None,
        go_top: None,
        go_bot: None,
        page_up: None,
        page_down: None,
        add_feed: None,
        sync: None,
        sync_all: None,
        play: None,
        mark_played: None,
        mark_all_played: None,
        download: None,
        download_all: None,
        delete: None,
        delete_all: None,
        remove: None,
        remove_all: None,
        filter_played: None,
        filter_downloaded: None,
        help: None,
        quit: None,
    }
}

#[test]
fn default_quit_and_play_keys() {
    let kb = Keybindings::default();
    assert_eq!(kb.keys_for_action(UserAction::Quit), vec!["q".to_string()]);
    assert_eq!(kb.keys_for_action(UserAction::Play), vec!["Enter".to_string(), "p".to_string()]);
    assert_eq!(kb.get(&"j".to_string()), Some(UserAction::Down));
    assert_eq!(kb.get(&"z".to_string()), None);
}

#[test]
fn input_names() {
    assert_eq!(input_to_str(KeyCode::PageUp), Some("PgUp".to_string()));
    assert_eq!(input_to_str(KeyCode::Char('\u{7f}')), Some("Backspace".to_string()));
    assert_eq!(input_to_str(KeyCode::F(12)), Some("F12".to_string()));
    assert_eq!(input_to_str(KeyCode::Char('x')), Some("x".to_string()));
    assert_eq!(input_to_str(KeyCode::Null), None);
}

#[test]
fn get_from_input_uses_names() {
    let kb = Keybindings::default();
    assert_eq!(kb.get_from_input(KeyCode::Enter), Some(UserAction::Play));
    assert_eq!(kb.get_from_input(KeyCode::Char('?')), Some(UserAction::Help));
    assert_eq!(kb.get_from_input(KeyCode::Other), None);
}

#[test]
fn insert_then_get_gives_last_binding() {
    let mut kb = Keybindings::new();
    kb.insert("q".to_string(), UserAction::Quit);
    kb.insert("q".to_string(), UserAction::Help);
    assert_eq!(kb.get(&"q".to_string()), Some(UserAction::Help));
    assert_eq!(kb.keys_for_action(UserAction::Quit), Vec::<String>::new());
}

#[test]
fn insert_from_vec_binds_each() {
    let mut kb = Keybindings::new();
    kb.insert_from_vec(vec!["a".to_string(), "b".to_string()], UserAction::AddFeed);
    assert_eq!(kb.keys_for_action(UserAction::AddFeed), vec!["a".to_string(), "b".to_string()]);
}

#[test]
fn config_replaces_defaults_per_action() {
    let mut config = empty_config();
    config.quit = Some(vec!["x".to_string()]);
    let kb = Keybindings::from_config(config);
    assert_eq!(kb.get(&"x".to_string()), Some(UserAction::Quit));
    assert_eq!(kb.get(&"q".to_string()), None);
    assert_eq!(kb.get(&"j".to_string()), Some(UserAction::Down));
}

#[test]
fn empty_config_gives_defaults() {
    let kb = Keybindings::from_config(empty_config());
    let d = Keybindings::default();
    assert_eq!(kb.keys_for_action(UserAction::Help), d.keys_for_action(UserAction::Help));
    assert_eq!(kb.keys_for_action(UserAction::Left), vec!["Left".to_string(), "h".to_string()]);
}

#[test]
fn defaults_list_every_action() {
    let defaults = Keybindings::_defaults();
    assert_eq!(defaults.len(), 26);
    assert_eq!(defaults[0], (UserAction::Left, vec!["Left".to_string(), "h".to_string()]));
}

#[test]
fn filters_bound_by_default() {
    let kb = Keybindings::default();
    assert_eq!(kb.get(&"1".to_string()), Some(UserAction::FilterPlayed));
    assert_eq!(kb.get(&"2".to_string()), Some(UserAction::FilterDownloaded));
}
