//! Program settings: display thresholds, what to do with new episodes,
//! and the raw settings read from the configuration file.

use vstd::prelude::*;

use crate::keymap::{config_groups, default_groups, entries_map, flatten_groups, Keybindings};
use crate::text::{eq_str, push_char, push_str};
use crate::ui::colors::{configured_color, spec_default_colors, AppColors, AppColorsFromToml};

verus! {

/// How long, in milliseconds, messages stay at the bottom of the screen.
pub const MESSAGE_TIME: u64 = 5000;

/// Minimum width before a podcast title shows (unplayed/total).
pub const PODCAST_UNPLAYED_TOTALS_LENGTH: usize = 25;

/// Minimum width before an episode title shows its duration.
pub const EPISODE_DURATION_LENGTH: usize = 45;

/// Minimum width before an episode title shows its publication date.
pub const EPISODE_PUBDATE_LENGTH: usize = 60;

/// Minimum terminal width before the details panel is shown.
pub const DETAILS_PANEL_LENGTH: u16 = 135;

/// How many lines a big scroll moves, as a divisor of the screen rows.
pub const BIG_SCROLL_AMOUNT: u16 = 4;

/// Keybindings as read from the configuration file; any field may be
/// missing.
#[derive(Debug)]
pub struct KeybindingsFromToml {
    pub left: Option<Vec<String>>,
    pub right: Option<Vec<String>>,
    pub up: Option<Vec<String>>,
    pub down: Option<Vec<String>>,
    pub big_up: Option<Vec<String>>,
    pub big_down: Option<Vec<String>>,
    pub go_top: Option<Vec<String>>,
    pub go_bot: Option<Vec<String>>,
    pub page_up: Option<Vec<String>>,
    pub page_down: Option<Vec<String>>,
    pub add_feed: Option<Vec<String>>,
    pub sync: Option<Vec<String>>,
    pub sync_all: Option<Vec<String>>,
    pub play: Option<Vec<String>>,
    pub mark_played: Option<Vec<String>>,
    pub mark_all_played: Option<Vec<String>>,
    pub download: Option<Vec<String>>,
    pub download_all: Option<Vec<String>>,
    pub delete: Option<Vec<String>>,
    pub delete_all: Option<Vec<String>>,
    pub remove: Option<Vec<String>>,
    pub remove_all: Option<Vec<String>>,
    pub filter_played: Option<Vec<String>>,
    pub filter_downloaded: Option<Vec<String>>,
    pub help: Option<Vec<String>>,
    pub quit: Option<Vec<String>>,
}


/// What to do with the new episodes found when a podcast is synced.
#[derive(Debug, Clone, Copy, PartialEq, Eq, Structural)]
pub enum DownloadNewEpisodes {
    Always,
    AskSelected,
    AskUnselected,
    Never,
}

/// The user's settings.
#[derive(Debug)]
pub struct Config {
    pub download_path: String,
    pub play_command: String,
    pub download_new_episodes: DownloadNewEpisodes,
    pub simultaneous_downloads: usize,
    pub max_retries: usize,
    pub keybindings: Keybindings,
    pub colors: AppColors,
}

/// The settings as read from the configuration file; any may be
/// missing.
#[derive(Debug)]
pub struct ConfigFromToml {
    pub download_path: Option<String>,
    pub play_command: Option<String>,
    pub download_new_episodes: Option<String>,
    pub simultaneous_downloads: Option<usize>,
    pub max_retries: Option<usize>,
    pub keybindings: Option<KeybindingsFromToml>,
    pub colors: Option<AppColorsFromToml>,
}

/// Why the settings could not be made.
#[derive(Debug, Clone, PartialEq, Eq)]
pub enum ConfigError {
    /// An environment variable in the download path could not be
    /// expanded: its name and the reason.
    EnvVar(String, String),
    /// No download path was given and the system has no default data
    /// directory.
    NoDefaultDir,
}

impl ConfigError {
    /// The message shown for the error.
    pub fn message(&self) -> (res: String)
        ensures
            res@ == match *self {
                ConfigError::EnvVar(var, cause) => "Could not parse environment variable "@ + var@
                    + " in config.toml. Reason: "@ + cause@,
                ConfigError::NoDefaultDir => "Could not identify a default directory for your OS. Please specify paths manually in config.toml."@,
            },
    {
        match self {
            ConfigError::EnvVar(var, cause) => {
                let mut m = String::from_str("Could not parse environment variable ");
                push_str(&mut m, var.as_str());
                push_str(&mut m, " in config.toml. Reason: ");
                push_str(&mut m, cause.as_str());
                m
            },
            ConfigError::NoDefaultDir => String::from_str(
                "Could not identify a default directory for your OS. Please specify paths manually in config.toml.",
            ),
        }
    }
}

/// The keybindings read when there is no configuration file: none set.
pub open spec fn no_keybindings(k: KeybindingsFromToml) -> bool {
    &&& k.left is None && k.right is None && k.up is None && k.down is None
    &&& k.big_up is None && k.big_down is None && k.go_top is None && k.go_bot is None
    &&& k.page_up is None && k.page_down is None && k.add_feed is None && k.sync is None
    &&& k.sync_all is None && k.play is None && k.mark_played is None && k.mark_all_played is None
    &&& k.download is None && k.download_all is None && k.delete is None && k.delete_all is None
    &&& k.remove is None && k.remove_all is None && k.filter_played is None
    &&& k.filter_downloaded is None && k.help is None && k.quit is None
}

/// The colours read when there is no configuration file: none set.
pub open spec fn no_colors(c: AppColorsFromToml) -> bool {
    &&& c.normal_foreground is None && c.normal_background is None
    &&& c.bold_foreground is None && c.bold_background is None
    &&& c.highlighted_active_foreground is None && c.highlighted_active_background is None
    &&& c.highlighted_foreground is None && c.highlighted_background is None
    &&& c.error_foreground is None && c.error_background is None
}

impl ConfigFromToml {
    /// The settings used when there is no configuration file: every
    /// setting missing, with empty keybinding and colour tables.
    pub fn without_file() -> (res: Self)
        ensures
            res.download_path is None,
            res.play_command is None,
            res.download_new_episodes is None,
            res.simultaneous_downloads is None,
            res.max_retries is None,
            res.keybindings matches Some(k) && no_keybindings(k),
            res.colors matches Some(c) && no_colors(c),
    {
        let keybindings = KeybindingsFromToml {
            left: None,
            right: None,
            up: None,
            down: None,
            big_up: None,
            big_down: None,
            go_top: None,
            go_bot: None,
            page_up: None,
            page_down: None,
            add_feed: None,
            sync: None,
            sync_all: None,
            play: None,
            mark_played: None,
            mark_all_played: None,
            download: None,
            download_all: None,
            delete: None,
            delete_all: None,
            remove: None,
            remove_all: None,
            filter_played: None,
            filter_downloaded: None,
            help: None,
            quit: None,
        };
        let colors = AppColorsFromToml {
            normal_foreground: None,
            normal_background: None,
            bold_foreground: None,
            bold_background: None,
            highlighted_active_foreground: None,
            highlighted_active_background: None,
            highlighted_foreground: None,
            highlighted_background: None,
            error_foreground: None,
            error_background: None,
        };
        ConfigFromToml {
            download_path: None,
            play_command: None,
            download_new_episodes: None,
            simultaneous_downloads: None,
            max_retries: None,
            keybindings: Some(keybindings),
            colors: Some(colors),
        }
    }
}

/// The choice named in the configuration file: "always",
/// "ask-selected", "ask-unselected" or "never"; anything else, or
/// nothing, asks with the new episodes unselected.
pub open spec fn spec_download_choice(s: Option<Seq<char>>) -> DownloadNewEpisodes {
    match s {
        Some(t) => if t == "always"@ {
            DownloadNewEpisodes::Always
        } else if t == "ask-selected"@ {
            DownloadNewEpisodes::AskSelected
        } else if t == "ask-unselected"@ {
            DownloadNewEpisodes::AskUnselected
        } else if t == "never"@ {
            DownloadNewEpisodes::Never
        } else {
            DownloadNewEpisodes::AskUnselected
        },
        None => DownloadNewEpisodes::AskUnselected,
    }
}

/// Reads the choice of what to do with new episodes.
pub fn download_choice(s: &Option<String>) -> (res: DownloadNewEpisodes)
    ensures
        res == spec_download_choice(match s {
            Some(t) => Some(t@),
            None => None,
        }),
{
    match s {
        Some(t) => if eq_str(t, "always") {
            DownloadNewEpisodes::Always
        } else if eq_str(t, "ask-selected") {
            DownloadNewEpisodes::AskSelected
        } else if eq_str(t, "ask-unselected") {
            DownloadNewEpisodes::AskUnselected
        } else if eq_str(t, "never") {
            DownloadNewEpisodes::Never
        } else {
            DownloadNewEpisodes::AskUnselected
        },
        None => DownloadNewEpisodes::AskUnselected,
    }
}

/// Each of the four names in the configuration gives the choice of the
/// same name, and only that name gives it, except that a missing or
/// unknown setting falls back to asking with nothing selected.
pub proof fn law_download_choice_names(t: Seq<char>)
    ensures
        (spec_download_choice(Some(t)) == DownloadNewEpisodes::Always) <==> t == "always"@,
        (spec_download_choice(Some(t)) == DownloadNewEpisodes::AskSelected) <==> t == "ask-selected"@,
        (spec_download_choice(Some(t)) == DownloadNewEpisodes::Never) <==> t == "never"@,
        (spec_download_choice(Some(t)) == DownloadNewEpisodes::AskUnselected) <==> !(t == "always"@
            || t == "ask-selected"@ || t == "never"@),
        spec_download_choice(Some("ask-unselected"@)) == DownloadNewEpisodes::AskUnselected,
        spec_download_choice(None) == DownloadNewEpisodes::AskUnselected,
{
    reveal_strlit("always");
    reveal_strlit("ask-selected");
    reveal_strlit("ask-unselected");
    reveal_strlit("never");
    assert("always"@ != "ask-unselected"@ && "ask-selected"@ != "ask-unselected"@ && "never"@
        != "ask-unselected"@) by {
        assert("always"@.len() != "ask-unselected"@.len());
        assert("ask-selected"@.len() != "ask-unselected"@.len());
        assert("never"@.len() != "ask-unselected"@.len());
    }
    assert("always"@ != "ask-selected"@ && "always"@ != "never"@ && "ask-selected"@ != "never"@) by {
        assert("always"@.len() != "ask-selected"@.len());
        assert("always"@[0] != "never"@[0]);
        assert("ask-selected"@.len() != "never"@.len());
    }
}

/// A count from the configuration file: the number given when it is
/// positive, else 3.
pub open spec fn spec_positive_or_three(n: Option<usize>) -> usize {
    match n {
        Some(k) => if k > 0 {
            k
        } else {
            3
        },
        None => 3,
    }
}

/// Reads a count, 3 unless a positive number is given.
pub fn positive_or_three(n: Option<usize>) -> (res: usize)
    ensures
        res == spec_positive_or_three(n),
{
    match n {
        Some(k) => if k > 0 {
            k
        } else {
            3
        },
        None => 3,
    }
}

/// `dir` with the path component `name` added, as `PathBuf::push` adds a
/// relative component: after a separator unless `dir` is empty or ends
/// with one.
pub open spec fn path_join(dir: Seq<char>, name: Seq<char>) -> Seq<char> {
    if dir.len() == 0 || dir.last() == '/' {
        dir + name
    } else {
        dir.push('/') + name
    }
}

/// `dir` with the path component `name` added.
pub fn push_component(dir: String, name: &str) -> (res: String)
    ensures
        res@ == path_join(dir@, name@),
{
    let mut p = dir;
    let n = p.as_str().unicode_len();
    if n > 0 && p.as_str().get_char(n - 1) != '/' {
        push_char(&mut p, '/');
    }
    push_str(&mut p, name);
    p
}

/// A path that names no environment variable (it has no `$`).
pub open spec fn names_no_variable(p: Seq<char>) -> bool {
    !p.contains('$')
}

/// A path that expansion leaves as it is: it names no environment
/// variable and does not start with `~`.
pub open spec fn plain_path(p: Seq<char>) -> bool {
    names_no_variable(p) && !(p.len() > 0 && p[0] == '~')
}

/// Calls `shellexpand::full(path)`: the path with `~` and environment
/// variables expanded, or the variable that could not be expanded and
/// why. What an expansion gives depends on the environment and is not
/// stated; stated is what the crate's source shows of every outcome:
/// only a variable can fail to expand, and a path with neither a
/// variable nor a leading `~` comes back unchanged.
#[verifier::external_body]
fn expand_path(path: &str) -> (res: Result<String, ConfigError>)
    ensures
        res matches Err(e) ==> e is EnvVar && !names_no_variable(path@),
        res matches Ok(p) ==> p@ == path@ || !plain_path(path@),
{
    match shellexpand::full(path) {
        Ok(p) => Ok(p.into_owned()),
        Err(e) => Err(ConfigError::EnvVar(e.var_name, e.cause.to_string())),
    }
}

/// The download directory: the path given (with `~` and environment
/// variables expanded), or else `shellcaster` in the system's data
/// directory.
pub fn parse_create_dir(user_dir: Option<&str>, default: Option<String>) -> (res: Result<String, ConfigError>)
    ensures
        user_dir is None ==> match default {
            Some(d) => res matches Ok(p) && p@ == path_join(d@, "shellcaster"@),
            None => res == Err::<String, ConfigError>(ConfigError::NoDefaultDir),
        },
        user_dir is Some ==> !(res matches Err(ConfigError::NoDefaultDir)),
        user_dir matches Some(u) ==> (names_no_variable(u@) ==> res is Ok),
        user_dir matches Some(u) ==> (plain_path(u@) ==> (res matches Ok(p) && p@ == u@)),
{
    match user_dir {
        Some(path) => expand_path(path),
        None => match default {
            Some(d) => Ok(push_component(d, "shellcaster")),
            None => Err(ConfigError::NoDefaultDir),
        },
    }
}

/// The settings: each given one, else its default. Keybindings and
/// colours given in the file replace the defaults one by one; the play
/// command is `vlc %s` unless given; the counts are 3 unless a positive
/// number is given. `default_dir` is the system's data directory.
pub fn config_with_defaults(config_toml: ConfigFromToml, default_dir: Option<String>) -> (res: Result<Config, ConfigError>)
    ensures
        config_toml.download_path is None && default_dir is None ==> res == Err::<Config, ConfigError>(
            ConfigError::NoDefaultDir,
        ),
        res matches Ok(c) ==> {
            &&& c.keybindings@ == match config_toml.keybindings {
                Some(kb) => entries_map(flatten_groups(config_groups(kb))),
                None => entries_map(flatten_groups(default_groups())),
            }
            &&& c.colors == match config_toml.colors {
                Some(clrs) => {
                    let d = spec_default_colors();
                    AppColors {
                        normal: (configured_color(d.normal.0, clrs.normal_foreground), configured_color(d.normal.1, clrs.normal_background)),
                        bold: (configured_color(d.bold.0, clrs.bold_foreground), configured_color(d.bold.1, clrs.bold_background)),
                        highlighted_active: (configured_color(d.highlighted_active.0, clrs.highlighted_active_foreground), configured_color(d.highlighted_active.1, clrs.highlighted_active_background)),
                        highlighted: (configured_color(d.highlighted.0, clrs.highlighted_foreground), configured_color(d.highlighted.1, clrs.highlighted_background)),
                        error: (configured_color(d.error.0, clrs.error_foreground), configured_color(d.error.1, clrs.error_background)),
                    }
                },
                None => spec_default_colors(),
            }
            &&& c.play_command@ == match config_toml.play_command {
                Some(cmd) => cmd@,
                None => "vlc %s"@,
            }
            &&& c.download_new_episodes == spec_download_choice(match config_toml.download_new_episodes {
                Some(t) => Some(t@),
                None => None,
            })
            &&& c.simultaneous_downloads == spec_positive_or_three(config_toml.simultaneous_downloads)
            &&& c.max_retries == spec_positive_or_three(config_toml.max_retries)
            &&& config_toml.download_path is None ==> (default_dir matches Some(d) && c.download_path@ == path_join(d@, "shellcaster"@))
        },
        config_toml.download_path is None && default_dir is Some ==> res is Ok,
        config_toml.download_path matches Some(u) ==> (names_no_variable(u@) ==> res is Ok),
        config_toml.download_path matches Some(u) ==> (plain_path(u@) ==> (res matches Ok(c)
            && c.download_path@ == u@)),
{
    let ConfigFromToml {
        download_path,
        play_command,
        download_new_episodes,
        simultaneous_downloads,
        max_retries,
        keybindings,
        colors,
    } = config_toml;
    let keymap = match keybindings {
        Some(kb) => Keybindings::from_config(kb),
        None => Keybindings::default(),
    };
    let colors = match colors {
        Some(clrs) => {
            let mut c = AppColors::default();
            c.add_from_config(clrs);
            c
        },
        None => AppColors::default(),
    };
    let download_path = match &download_path {
        Some(p) => parse_create_dir(Some(p.as_str()), default_dir),
        None => parse_create_dir(None, default_dir),
    };
    let download_path = match download_path {
        Ok(p) => p,
        Err(e) => {
            return Err(e);
        },
    };
    let play_command = match play_command {
        Some(cmd) => cmd,
        None => String::from_str("vlc %s"),
    };
    let choice = download_choice(&download_new_episodes);
    Ok(Config {
        download_path: download_path,
        play_command: play_command,
        download_new_episodes: choice,
        simultaneous_downloads: positive_or_three(simultaneous_downloads),
        max_retries: positive_or_three(max_retries),
        keybindings: keymap,
        colors: colors,
    })
}

} // verus!
