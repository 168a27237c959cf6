use shellcaster::config::{
    config_with_defaults, download_choice, parse_create_dir, positive_or_three, push_component, ConfigError,
    ConfigFromToml, DownloadNewEpisodes,
};
use shellcaster::keymap::UserAction;
use shellcaster::ui::colors::AppColors;

#[test]
fn download_choices() {
    assert_eq!(download_choice(&Some("always".to_string())), DownloadNewEpisodes::Always);
    assert_eq!(download_choice(&Some("ask-selected".to_string())), DownloadNewEpisodes::AskSelected);
    assert_eq!(download_choice(&Some("never".to_string())), DownloadNewEpisodes::Never);
    assert_eq!(download_choice(&Some("sometimes".to_string())), DownloadNewEpisodes::AskUnselected);
    assert_eq!(download_choice(&None), DownloadNewEpisodes::AskUnselected);
}

#[test]
fn counts_default_to_three() {
    assert_eq!(positive_or_three(Some(5)), 5);
    assert_eq!(positive_or_three(Some(0)), 3);
    assert_eq!(positive_or_three(None), 3);
}

#[test]
fn path_components() {
    assert_eq!(push_component("/home/me".to_string(), "shellcaster"), "/home/me/shellcaster");
    assert_eq!(push_component("/home/me/".to_string(), "shellcaster"), "/home/me/shellcaster");
    assert_eq!(push_component(String::new(), "shellcaster"), "shellcaster");
}

#[test]
fn download_dir_from_default() {
    assert_eq!(parse_create_dir(None, Some("/data".to_string())), Ok("/data/shellcaster".to_string()));
    assert_eq!(parse_create_dir(None, None), Err(ConfigError::NoDefaultDir));
    assert_eq!(parse_create_dir(Some("/plain/path"), None), Ok("/plain/path".to_string()));
}

#[test]
fn defaults_without_file() {
    let config = config_with_defaults(ConfigFromToml::without_file(), Some("/data".to_string())).unwrap();
    assert_eq!(config.play_command, "vlc %s");
    assert_eq!(config.download_path, "/data/shellcaster");
    assert_eq!(config.download_new_episodes, DownloadNewEpisodes::AskUnselected);
    assert_eq!(config.simultaneous_downloads, 3);
    assert_eq!(config.max_retries, 3);
    assert_eq!(config.colors, AppColors::default());
    assert_eq!(config.keybindings.get(&"q".to_string()), Some(UserAction::Quit));
}

#[test]
fn settings_given_are_kept() {
    let mut toml = ConfigFromToml::without_file();
    toml.play_command = Some("mpv %s".to_string());
    toml.simultaneous_downloads = Some(8);
    toml.download_new_episodes = Some("always".to_string());
    toml.keybindings = None;
    let config = config_with_defaults(toml, Some("/data".to_string())).unwrap();
    assert_eq!(config.play_command, "mpv %s");
    assert_eq!(config.simultaneous_downloads, 8);
    assert_eq!(config.download_new_episodes, DownloadNewEpisodes::Always);
    assert_eq!(config.keybindings.get(&"?".to_string()), Some(UserAction::Help));
}

#[test]
fn missing_default_dir_is_an_error() {
    let e = config_with_defaults(ConfigFromToml::without_file(), None).unwrap_err();
    assert_eq!(e, ConfigError::NoDefaultDir);
    assert_eq!(
        e.message(),
        "Could not identify a default directory for your OS. Please specify paths manually in config.toml."
    );
    assert_eq!(
        ConfigError::EnvVar("HOME".to_string(), "not set".to_string()).message(),
        "Could not parse environment variable HOME in config.toml. Reason: not set"
    );
}

#[test]
fn given_download_path_is_used() {
    let mut toml = ConfigFromToml::without_file();
    toml.download_path = Some("/srv/podcasts".to_string());
    let config = config_with_defaults(toml, None).unwrap();
    assert_eq!(config.download_path, "/srv/podcasts");
}

#[test]
fn unset_variable_in_download_path_is_an_error() {
    match parse_create_dir(Some("$SHELLCASTER_TEST_UNSET_VARIABLE/x"), None) {
        Err(ConfigError::EnvVar(name, _)) => assert_eq!(name, "SHELLCASTER_TEST_UNSET_VARIABLE"),
        other => panic!("expected an expansion error, got {:?}", other),
    }
}
