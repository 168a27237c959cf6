//! The terminal user interface: messages sent to the main controller,
//! the layout of the panels, and the decisions taken on user input.

pub mod colors;
pub mod details_panel;
pub mod menu;
pub mod mock_panel;
pub mod notification;

pub mod panel;
pub mod popup;

use vstd::prelude::*;

use self::colors::AppColors;
use self::details_panel::DetailsPanel;
use self::menu::{scroll_ok, Menu, Scroll};
use self::mock_panel::Details;
use self::notification::NotifWin;
use self::panel::{DrawCmd, Panel};
use self::popup::PopupWin;
use crate::config::{Config, BIG_SCROLL_AMOUNT, DETAILS_PANEL_LENGTH};
use crate::keymap::{spec_input_to_str, KeyCode, Keybindings, UserAction};
use crate::text::push_str;
use crate::types::{Episode, LockVec, Menuable, Podcast};

verus! {

/// Messages sent to the main controller once user input has been
/// captured; ids are those of the selected podcast and (where it
/// applies) episode, in that order.
#[derive(Debug, PartialEq)]
pub enum UiMsg {
    AddFeed(String),
    Play(i64, i64),
    MarkPlayed(i64, i64, bool),
    MarkAllPlayed(i64, bool),
    Sync(i64),
    SyncAll,
    Download(i64, i64),
    DownloadMulti(Vec<(i64, i64)>),
    DownloadAll(i64),
    Delete(i64, i64),
    DeleteAll(i64),
    RemovePodcast(i64, bool),
    RemoveEpisode(i64, i64, bool),
    RemoveAllEpisodes(i64, bool),
    Quit,
    Noop,
}

/// Messages of the first interface, which referred to podcasts and
/// episodes by their position in the lists.
#[derive(Debug)]
pub enum UiMessage {
    AddFeed(String),
    Play(i32, i32),
    Sync(i32),
    SyncAll,
    Download(i32, i32),
    DownloadAll(i32),
    Quit,
    Noop,
}

/// Which menu is active.
#[derive(Debug, Clone, Copy, PartialEq, Eq, Structural)]
pub enum ActiveMenu {
    PodcastMenu,
    EpisodeMenu,
}


/// Whether `c` is whitespace: the characters of Unicode's White_Space
/// property, which are those `char::is_whitespace` accepts.
pub open spec fn whitespace(c: char) -> bool {
    ||| '\t' <= c <= '\r'
    ||| c == ' '
    ||| c == '\u{85}'
    ||| c == '\u{a0}'
    ||| c == '\u{1680}'
    ||| '\u{2000}' <= c <= '\u{200a}'
    ||| c == '\u{2028}'
    ||| c == '\u{2029}'
    ||| c == '\u{202f}'
    ||| c == '\u{205f}'
    ||| c == '\u{3000}'
}

/// Whether `c` is whitespace: see `whitespace`.
fn is_whitespace(c: char) -> (res: bool)
    ensures
        res == whitespace(c),
{
    ('\t' <= c && c <= '\r') || c == ' ' || c == '\u{85}' || c == '\u{a0}' || c == '\u{1680}' || (
    '\u{2000}' <= c && c <= '\u{200a}') || c == '\u{2028}' || c == '\u{2029}' || c == '\u{202f}' || c
        == '\u{205f}' || c == '\u{3000}'
}

/// The first character of `s` that is not whitespace, if any.
pub open spec fn first_nonblank(s: Seq<char>) -> Option<char>
    decreases s.len(),
{
    if s.len() == 0 {
        None
    } else if !whitespace(s[0]) {
        Some(s[0])
    } else {
        first_nonblank(s.skip(1))
    }
}

/// The answer to a yes/no question: `y` or `Y` is yes, `n` or `N` is
/// no, read from the first character that is not whitespace; anything
/// else is no answer.
pub open spec fn spec_yes_no(s: Seq<char>) -> Option<bool> {
    match first_nonblank(s) {
        Some(c) => if c == 'Y' || c == 'y' {
            Some(true)
        } else if c == 'N' || c == 'n' {
            Some(false)
        } else {
            None
        },
        None => None,
    }
}

/// Reads the answer to a yes/no question.
pub fn yes_no_answer(input: &str) -> (res: Option<bool>)
    ensures
        res == spec_yes_no(input@),
{
    let chars = crate::text::chars_of(input);
    let ghost cv = chars@;
    let mut i: usize = 0;
    let mut first: Option<char> = None;
    assert(cv.skip(0) =~= cv);
    while i < chars.len() && first.is_none()
        invariant
            i <= cv.len(),
            cv == chars@,
            cv == input@,
            first is None ==> first_nonblank(cv.skip(i as int)) == first_nonblank(cv),
            first matches Some(c) ==> first_nonblank(cv) == Some(c),
        decreases chars.len() - i,
    {
        let c = chars[i];
        assert(cv.skip(i as int)[0] == c);
        if !is_whitespace(c) {
            first = Some(c);
        } else {
            assert(cv.skip(i as int).skip(1) =~= cv.skip(i + 1));
        }
        i = i + 1;
    }
    assert(first is None ==> cv.skip(i as int) =~= Seq::<char>::empty());
    match first {
        Some(c) => if c == 'Y' || c == 'y' {
            Some(true)
        } else if c == 'N' || c == 'n' {
            Some(false)
        } else {
            None
        },
        None => None,
    }
}

/// The prompt of a yes/no question.
pub fn yes_no_prompt(prefix: &str) -> (res: String)
    ensures
        res@ == prefix@ + " (y/n) "@,
{
    let mut p = String::from_str(prefix);
    push_str(&mut p, " (y/n) ");
    p
}

/// The widths of the podcast menu, the episode menu and the details
/// panel for a terminal `n_col` columns wide: thirds (the episode menu
/// one column wider, the details panel taking the rest and overlapping
/// borders) when the terminal is wider than `DETAILS_PANEL_LENGTH`;
/// otherwise halves, with no details panel.
pub open spec fn spec_sizes(n_col: i32) -> (i32, i32, i32) {
    if n_col > DETAILS_PANEL_LENGTH {
        let pod = n_col / 3;
        let ep = n_col / 3 + 1;
        (pod as i32, ep as i32, (n_col - pod - ep + 2) as i32)
    } else {
        let pod = n_col / 2;
        (pod as i32, (n_col - pod + 1) as i32, 0)
    }
}

/// What is waiting for the user's answer.
#[derive(Debug)]
pub enum Pending {
    /// The address of a feed to add.
    AddFeed,
    /// Whether to remove the podcast (if any).
    ConfirmRemovePodcast(Option<i64>),
    /// Whether to delete the downloaded files of the podcast removed.
    DeletePodcastFiles(i64),
    /// Whether to remove the episode (if any) of the podcast (if any).
    ConfirmRemoveEpisode(Option<i64>, Option<i64>),
    /// Whether to delete the downloaded file of the episode removed.
    DeleteEpisodeFile(i64, i64),
    /// Whether to delete the downloaded files of the episodes removed.
    DeleteAllFiles(i64),
}

/// What a key leads to: a message for the main controller, or a
/// question for the user (a line of text, or yes or no) whose answer is
/// handed back with `UI::answer`.
#[derive(Debug)]
pub enum UiStep {
    Done(UiMsg),
    AskText(String, Pending),
    AskYesNo(String, Pending),
}

/// The interface's state: the terminal's size, the keybindings, the
/// menus of podcasts and episodes and which one is active, the details
/// panel (when the terminal is wide enough), the message window and the
/// popup windows.
#[derive(Debug)]
pub struct UI<'a> {
    pub n_row: i32,
    pub n_col: i32,
    pub keymap: &'a Keybindings,
    pub colors: AppColors,
    pub podcast_menu: Menu<Podcast>,
    pub episode_menu: Menu<Episode>,
    pub active_menu: ActiveMenu,
    pub details_panel: Option<DetailsPanel>,
    pub notif_win: NotifWin,
    pub popup_win: PopupWin<'a>,
    pub pending_draws: Vec<DrawCmd>,
}

impl<'a> UI<'a> {
    /// The widths of the podcast menu, the episode menu and the details
    /// panel: see `spec_sizes`.
    pub fn calculate_sizes(n_col: i32) -> (res: (i32, i32, i32))
        requires
            n_col >= 0,
        ensures
            res == spec_sizes(n_col),
    {
        if n_col > DETAILS_PANEL_LENGTH as i32 {
            let pod_col = n_col / 3;
            let ep_col = n_col / 3 + 1;
            (pod_col, ep_col, n_col - pod_col - ep_col + 2)
        } else {
            let pod_col = n_col / 2;
            (pod_col, n_col - pod_col + 1, 0)
        }
    }

    /// The details panel, third from the left, `n_row` rows by `n_col`
    /// columns from column `start_x`, with nothing to show yet.
    fn make_details_panel(n_row: u16, n_col: u16, start_x: u16) -> (res: DetailsPanel)
        ensures
            res.panel.title@ == "Details"@,
            res.panel.screen_pos == 2,
            res.panel.n_row == n_row,
            res.panel.n_col == n_col,
            res.panel.start_x == start_x,
            res.details is None,
            res.content@.len() == 0,
            res.top_row == 0,
            res.total_rows == 0,
    {
        DetailsPanel::new(String::from_str("Details"), 2, n_row, n_col, start_x)
    }

    /// The episodes of the first podcast of `items`, or none.
    fn first_episodes(items: &LockVec<Podcast>) -> (res: LockVec<Episode>)
        ensures
            items.order_view().len() > 0 ==> res.map_view() == items.items()[0].episodes.map_view()
                && res.order_view() == items.items()[0].episodes.order_view(),
            items.order_view().len() == 0 ==> res.order_view().len() == 0,
    {
        if items.len() > 0 {
            items.item_at(0).episodes.clone()
        } else {
            let r = LockVec::new(Vec::new());
            assert(r.order_view() =~= Seq::<i64>::empty());
            r
        }
    }

    /// The interface for a terminal of `n_row` rows and `n_col` columns
    /// showing `items`: the podcast menu (a third or half of the width)
    /// active, the episode menu showing the first podcast's episodes, the
    /// details panel when the terminal is wide enough, the message window
    /// on the last row, and no popup.
    pub fn new(config: &'a Config, items: &LockVec<Podcast>, n_row: i32, n_col: i32) -> (res: UI<'a>)
        requires
            2 <= n_row <= u16::MAX,
            0 <= n_col <= u16::MAX,
        ensures
            res.n_row == n_row,
            res.n_col == n_col,
            *res.keymap == config.keybindings,
            res.colors == config.colors,
            res.active_menu == ActiveMenu::PodcastMenu,
            res.podcast_menu.panel.n_col == spec_sizes(n_col).0,
            res.episode_menu.panel.n_col == spec_sizes(n_col).1,
            res.podcast_menu.panel.n_row == n_row - 1,
            res.episode_menu.panel.n_row == n_row - 1,
            spec_sizes(n_col).0 >= 1 ==> res.episode_menu.panel.start_x == spec_sizes(n_col).0 - 1,
            res.podcast_menu.items.order_view() == items.order_view(),
            res.podcast_menu.items.map_view() == items.map_view(),
            res.podcast_menu.top_row == 0 && res.podcast_menu.selected == 0,
            res.episode_menu.top_row == 0 && res.episode_menu.selected == 0,
            items.order_view().len() > 0 ==> res.episode_menu.items.order_view()
                == items.items()[0].episodes.order_view(),
            items.order_view().len() == 0 ==> res.episode_menu.items.order_view().len() == 0,
            res.details_panel is Some <==> n_col > DETAILS_PANEL_LENGTH,
            res.details_panel matches Some(d) ==> d.panel.n_col == spec_sizes(n_col).2
                && d.panel.start_x == spec_sizes(n_col).0 + spec_sizes(n_col).1 - 2
                && d.panel.n_row == n_row - 1,
            res.notif_win.start_y == n_row - 1,
            res.popup_win.on_screen() == self::popup::ActivePopup::NoPopup,
    {
        let colors = config.colors;
        let (pod_col, ep_col, det_col) = Self::calculate_sizes(n_col);
        let rows = (n_row - 1) as u16;
        let podcast_panel = Panel::new(String::from_str("Podcasts"), 0, rows, pod_col as u16, 0);
        let podcast_menu = Menu::new(podcast_panel, None, items.clone());
        let ep_start: u16 = if pod_col >= 1 {
            (pod_col - 1) as u16
        } else {
            0
        };
        let episode_panel = Panel::new(String::from_str("Episodes"), 1, rows, ep_col as u16, ep_start);
        let episode_menu = Menu::new(episode_panel, None, Self::first_episodes(items));
        let details_panel = if n_col > DETAILS_PANEL_LENGTH as i32 {
            Some(Self::make_details_panel(rows, det_col as u16, (pod_col + ep_col - 2) as u16))
        } else {
            None
        };
        let notif_win = NotifWin::new(colors, rows, n_row as u16, n_col as u16);
        let popup_win = PopupWin::new(colors, &config.keybindings, n_row, n_col);
        UI {
            n_row: n_row,
            n_col: n_col,
            keymap: &config.keybindings,
            colors: colors,
            podcast_menu: podcast_menu,
            episode_menu: episode_menu,
            active_menu: ActiveMenu::PodcastMenu,
            details_panel: details_panel,
            notif_win: notif_win,
            popup_win: popup_win,
            pending_draws: Vec::new(),
        }
    }

    /// The ids of the selected podcast and episode, when the selected
    /// rows hold items.
    pub open spec fn current_ids(&self) -> (Option<i64>, Option<i64>) {
        let pi = self.podcast_menu.selected + self.podcast_menu.top_row;
        let ei = self.episode_menu.selected + self.episode_menu.top_row;
        let po = self.podcast_menu.items.order_view();
        let eo = self.episode_menu.items.order_view();
        (if pi < po.len() {
            Some(po[pi])
        } else {
            None
        }, if ei < eo.len() {
            Some(eo[ei])
        } else {
            None
        })
    }

    /// The ids of the selected podcast and episode.
    pub fn get_current_ids(&self) -> (res: (Option<i64>, Option<i64>))
        ensures
            res == self.current_ids(),
    {
        let pi = self.podcast_menu.selected as usize + self.podcast_menu.top_row as usize;
        let ei = self.episode_menu.selected as usize + self.episode_menu.top_row as usize;
        let po = self.podcast_menu.items.borrow_order();
        let eo = self.episode_menu.items.borrow_order();
        let pod = if pi < po.len() {
            Some(po[pi])
        } else {
            None
        };
        let ep = if ei < eo.len() {
            Some(eo[ei])
        } else {
            None
        };
        (pod, ep)
    }

    /// Some listed episode of podcast `pod_id` has been downloaded.
    pub open spec fn has_local_files(&self, pod_id: i64) -> bool {
        exists|i: int|
            0 <= i < self.podcast_menu.items.map_view()[pod_id].episodes.order_view().len()
                && (#[trigger] self.podcast_menu.items.map_view()[pod_id].episodes.items()[i]).path is Some
    }

    /// Whether some listed episode of podcast `pod_id` has been
    /// downloaded.
    pub fn check_for_local_files(&self, pod_id: i64) -> (res: bool)
        requires
            self.podcast_menu.items.map_view().contains_key(pod_id),
        ensures
            res == self.has_local_files(pod_id),
    {
        let pod = self.podcast_menu.items.clone_podcast(pod_id).unwrap();
        let n = pod.episodes.len();
        let mut i: usize = 0;
        while i < n
            invariant
                i <= n,
                n == pod.episodes.order_view().len(),
                pod.same_data(&self.podcast_menu.items.map_view()[pod_id]),
                forall|k: int| 0 <= k < i ==> (#[trigger] pod.episodes.items()[k]).path is None,
            decreases n - i,
        {
            if pod.episodes.item_at(i).path.is_some() {
                assert(pod.episodes.items()[i as int] == self.podcast_menu.items.map_view()[pod_id].episodes.items()[i as int]);
                return true;
            }
            i = i + 1;
        }
        assert forall|k: int| 0 <= k < n implies (#[trigger] self.podcast_menu.items.map_view()[pod_id].episodes.items()[k]).path is None by {
            assert(pod.episodes.items()[k] == self.podcast_menu.items.map_view()[pod_id].episodes.items()[k]);
        }
        false
    }

    /// Marks the selected episode as played, or as unplayed when it is
    /// played: the message, when a podcast and a listed episode are
    /// selected.
    pub fn mark_played(&mut self, curr_pod_id: Option<i64>, curr_ep_id: Option<i64>) -> (res: Option<UiMsg>)
        ensures
            *final(self) == *old(self),
            match (curr_pod_id, curr_ep_id) {
                (Some(p), Some(e)) => if old(self).episode_menu.items.map_view().contains_key(e) {
                    res matches Some(UiMsg::MarkPlayed(p2, e2, played)) && p2 == p && e2 == e
                        && played == !old(self).episode_menu.items.map_view()[e].played
                } else {
                    res is None
                },
                _ => res is None,
            },
    {
        if let Some(pod_id) = curr_pod_id {
            if let Some(ep_id) = curr_ep_id {
                if let Some(played) = self.episode_menu.items.map_single(ep_id, |ep: &Episode| -> (b: bool)
                    ensures
                        b == ep.played,
                    { ep.is_played() }) {
                    return Some(UiMsg::MarkPlayed(pod_id, ep_id, !played));
                }
            }
        }
        None
    }

    /// Marks every episode of the selected podcast as played, or all as
    /// unplayed when all are played: the message, when a listed podcast
    /// is selected.
    pub fn mark_all_played(&mut self, curr_pod_id: Option<i64>) -> (res: Option<UiMsg>)
        ensures
            *final(self) == *old(self),
            match curr_pod_id {
                Some(p) => if old(self).podcast_menu.items.map_view().contains_key(p) {
                    res matches Some(UiMsg::MarkAllPlayed(p2, played)) && p2 == p && played
                        == !old(self).podcast_menu.items.map_view()[p].spec_played()
                } else {
                    res is None
                },
                None => res is None,
            },
    {
        if let Some(pod_id) = curr_pod_id {
            if let Some(played) = self.podcast_menu.items.map_single(pod_id, |pod: &Podcast| -> (b: bool)
                ensures
                    b == pod.spec_played(),
                { pod.is_played() }) {
                return Some(UiMsg::MarkAllPlayed(pod_id, !played));
            }
        }
        None
    }
}


/// `<br>` tags (with any line breaks around them).
pub const RE_BR_TAGS: &'static str = r"((\r\n)|\r|\n)*<br */?>((\r\n)|\r|\n)*";

/// HTML tags.
pub const RE_HTML_TAGS: &'static str = r"<[^<>]*>";

/// More than two line breaks in a row.
pub const RE_MULT_LINE_BREAKS: &'static str = r"((\r\n)|\r|\n){3,}";

/// `text` with every match of the regular expression `pattern` replaced
/// by `rep`, as `regex::Regex::replace_all` does (`text` when `pattern`
/// is not a valid expression).
pub uninterp spec fn regex_replaced(pattern: Seq<char>, text: Seq<char>, rep: Seq<char>) -> Seq<char>;

/// Compiles `pattern` with `regex::Regex::new` and calls `replace_all`
/// on `text` with `rep`; the result is named `regex_replaced`.
#[verifier::external_body]
fn replace_all(pattern: &str, text: &str, rep: &str) -> (res: String)
    ensures
        res@ == regex_replaced(pattern@, text@, rep@),
{
    match regex::Regex::new(pattern) {
        Ok(re) => re.replace_all(text, rep).into_owned(),
        Err(_) => text.to_string(),
    }
}

/// `text` with its HTML entities decoded, as `escaper::decode_html`
/// does; `None` when it reports an error.
pub uninterp spec fn html_decoded(text: Seq<char>) -> Option<Seq<char>>;

/// Calls `escaper::decode_html`; the result is named `html_decoded`.
#[verifier::external_body]
fn decode_html(text: &str) -> (res: Option<String>)
    ensures
        match res {
            Some(t) => html_decoded(text@) == Some(t@),
            None => html_decoded(text@) is None,
        },
{
    escaper::decode_html(text).ok()
}

/// An episode's description as the details panel shows it: `<br>` tags
/// turned into line breaks, other HTML tags removed, entities decoded
/// (when they can be), and no more than two line breaks in a row.
pub open spec fn clean_description(d: Seq<char>) -> Seq<char> {
    let a = regex_replaced(RE_BR_TAGS@, d, "\n"@);
    let b = regex_replaced(RE_HTML_TAGS@, a, ""@);
    let c = match html_decoded(b) {
        Some(x) => x,
        None => b,
    };
    regex_replaced(RE_MULT_LINE_BREAKS@, c, "\n\n"@)
}

/// Cleans an episode's description for the details panel.
pub fn clean_description_text(d: &str) -> (res: String)
    ensures
        res@ == clean_description(d@),
{
    let a = replace_all(RE_BR_TAGS, d, "\n");
    let b = replace_all(RE_HTML_TAGS, a.as_str(), "");
    let c = match decode_html(b.as_str()) {
        Some(x) => x,
        None => b,
    };
    replace_all(RE_MULT_LINE_BREAKS, c.as_str(), "\n\n")
}

/// A text, or nothing when it is empty.
pub open spec fn nonempty(t: Seq<char>) -> Option<Seq<char>> {
    if t.len() == 0 {
        None
    } else {
        Some(t)
    }
}

/// The view of details: titles, date, duration, explicitness and
/// description.
pub open spec fn details_view(d: Details) -> (Option<Seq<char>>, Option<Seq<char>>, Option<i64>, Option<Seq<char>>, Option<bool>, Option<Seq<char>>) {
    (
        crate::feeds::opt_view(d.pod_title),
        crate::feeds::opt_view(d.ep_title),
        d.pubdate,
        crate::feeds::opt_view(d.duration),
        d.explicit,
        crate::feeds::opt_view(d.description),
    )
}

/// The details of episode `ep` of podcast `pod`: the titles (none when
/// empty), the date, the duration as HH:MM:SS, the podcast's
/// explicitness, and the cleaned description (none when empty).
pub open spec fn details_of(pod: Podcast, ep: Episode) -> (Option<Seq<char>>, Option<Seq<char>>, Option<i64>, Option<Seq<char>>, Option<bool>, Option<Seq<char>>) {
    (
        nonempty(pod.title@),
        nonempty(ep.title@),
        ep.pubdate,
        Some(crate::types::spec_format_duration(ep.duration)),
        pod.explicit,
        if ep.description@.len() == 0 {
            None
        } else {
            Some(clean_description(ep.description@))
        },
    )
}

/// A string, or nothing when it is empty.
fn nonempty_string(t: &String) -> (res: Option<String>)
    ensures
        crate::feeds::opt_view(res) == nonempty(t@),
{
    if t.as_str().unicode_len() == 0 {
        None
    } else {
        Some(t.clone())
    }
}

/// The amount `scroll` (positive: down) as a scroll of the menus.
pub open spec fn scroll_of(scroll: i32) -> Scroll {
    if scroll < 0 {
        Scroll::Up(if -scroll > u16::MAX {
            u16::MAX
        } else {
            (-scroll) as u16
        })
    } else {
        Scroll::Down(if scroll > u16::MAX {
            u16::MAX
        } else {
            scroll as u16
        })
    }
}

/// The amount `scroll` as a scroll of the menus (at most `u16::MAX`
/// rows either way).
fn to_scroll(scroll: i32) -> (res: Scroll)
    requires
        scroll > i32::MIN,
    ensures
        res == scroll_of(scroll),
{
    if scroll < 0 {
        let up = -scroll;
        Scroll::Up(if up > 65535 {
            65535
        } else {
            up as u16
        })
    } else {
        Scroll::Down(if scroll > 65535 {
            65535
        } else {
            scroll as u16
        })
    }
}

impl<'a> UI<'a> {
    /// A menu can scroll by `lines`.
    pub open spec fn menu_can_scroll<T: Clone + Menuable>(m: &Menu<T>, lines: Scroll) -> bool {
        &&& m.panel.n_row >= 2
        &&& scroll_ok(m.top_row, m.selected, (m.panel.n_row - 2) as u16, m.items.order_view().len() as u16, lines)
    }

    /// Shows in the details panel (if there is one) the details of the
    /// selected episode; nothing changes when no listed episode of a
    /// listed podcast is selected, or when the panel is too small to lay
    /// the details out.
    pub fn update_details_panel(&mut self)
        ensures
            final(self).podcast_menu == old(self).podcast_menu,
            final(self).episode_menu == old(self).episode_menu,
            final(self).active_menu == old(self).active_menu,
            final(self).popup_win == old(self).popup_win,
            final(self).n_row == old(self).n_row,
            final(self).n_col == old(self).n_col,
            final(self).keymap == old(self).keymap,
            final(self).details_panel is Some == old(self).details_panel is Some,
            ({
                let ids = old(self).current_ids();
                let shown = old(self).details_panel matches Some(dp) && dp.panel.n_col >= 5
                    && dp.panel.border_fits() && ids.0 is Some && ids.1 is Some
                    && old(self).podcast_menu.items.map_view().contains_key(ids.0->0)
                    && old(self).episode_menu.items.map_view().contains_key(ids.1->0);
                &&& shown ==> (final(self).details_panel matches Some(dp) && dp.details matches Some(d)
                    && details_view(d) == details_of(
                    old(self).podcast_menu.items.map_view()[ids.0->0],
                    old(self).episode_menu.items.map_view()[ids.1->0],
                ) && dp.top_row == 0)
                &&& !shown ==> final(self).details_panel == old(self).details_panel
            }),
    {
        let (curr_pod_id, curr_ep_id) = self.get_current_ids();
        let (pod_id, ep_id) = match (curr_pod_id, curr_ep_id) {
            (Some(p), Some(e)) => (p, e),
            _ => {
                return;
            },
        };
        let pod = match self.podcast_menu.items.clone_podcast(pod_id) {
            Some(p) => p,
            None => {
                return;
            },
        };
        let ep = match self.episode_menu.items.clone_episode(ep_id) {
            Some(e) => e,
            None => {
                return;
            },
        };
        let fits = match &self.details_panel {
            Some(dp) => dp.panel.n_col >= 5 && dp.panel.n_row >= 1 && dp.panel.n_col >= 2
                && dp.panel.start_x <= 65535 - dp.panel.n_col + 1 && dp.panel.start_x <= 65533,
            None => false,
        };
        if !fits {
            return;
        }
        let description = if ep.description.as_str().unicode_len() == 0 {
            None
        } else {
            Some(clean_description_text(ep.description.as_str()))
        };
        let details = Details {
            pod_title: nonempty_string(&pod.title),
            ep_title: nonempty_string(&ep.title),
            pubdate: ep.pubdate,
            duration: Some(ep.format_duration()),
            explicit: pod.explicit,
            description: description,
        };
        let mut det = self.details_panel.take().unwrap();
        match det.change_details(details) {
            Some(cmds) => {
                let mut cmds = cmds;
                self.pending_draws.append(&mut cmds);
            },
            None => {},
        }
        self.details_panel = Some(det);
    }

    /// What scrolling the active menu by `scroll` rows does to the menus:
    /// see `scroll_current_window`.
    pub open spec fn menus_scrolled(old: &UI<'a>, new: &UI<'a>, pod_id: Option<i64>, scroll: i32) -> bool {
        &&& new.active_menu == old.active_menu
        &&& new.podcast_menu.items == old.podcast_menu.items
        &&& pod_id is None ==> new.podcast_menu == old.podcast_menu && new.episode_menu == old.episode_menu
        &&& pod_id is Some && old.active_menu == ActiveMenu::EpisodeMenu ==> {
            &&& new.podcast_menu == old.podcast_menu
            &&& new.episode_menu.items == old.episode_menu.items
            &&& if Self::menu_can_scroll(&old.episode_menu, scroll_of(scroll)) {
                (new.episode_menu.top_row, new.episode_menu.selected) == crate::ui::menu::scrolled(
                    old.episode_menu.top_row,
                    old.episode_menu.selected,
                    (old.episode_menu.panel.n_row - 2) as u16,
                    old.episode_menu.items.order_view().len() as u16,
                    scroll_of(scroll),
                )
            } else {
                new.episode_menu == old.episode_menu
            }
        }
        &&& pod_id is Some && old.active_menu == ActiveMenu::PodcastMenu ==> {
            &&& if Self::menu_can_scroll(&old.podcast_menu, scroll_of(scroll)) {
                (new.podcast_menu.top_row, new.podcast_menu.selected) == crate::ui::menu::scrolled(
                    old.podcast_menu.top_row,
                    old.podcast_menu.selected,
                    (old.podcast_menu.panel.n_row - 2) as u16,
                    old.podcast_menu.items.order_view().len() as u16,
                    scroll_of(scroll),
                )
            } else {
                new.podcast_menu == old.podcast_menu
            }
            &&& new.episode_menu.top_row == 0
            &&& new.episode_menu.selected == old.episode_menu.start_row
            &&& new.current_ids().0 matches Some(p) ==> {
                &&& new.episode_menu.items.order_view() == new.podcast_menu.items.map_view()[p].episodes.order_view()
                &&& new.episode_menu.items.map_view() == new.podcast_menu.items.map_view()[p].episodes.map_view()
            }
        }
    }

    /// What scrolling the active menu by `scroll` rows does: the menus
    /// change as `menus_scrolled` states, and nothing else does.
    pub open spec fn scroll_effect(old: &UI<'a>, new: &UI<'a>, pod_id: Option<i64>, scroll: i32) -> bool {
        &&& new.n_row == old.n_row
        &&& new.n_col == old.n_col
        &&& new.keymap == old.keymap
        &&& new.popup_win == old.popup_win
        &&& Self::menus_scrolled(old, new, pod_id, scroll)
    }

    /// Scrolls the active menu by `scroll` rows (positive: down) when a
    /// podcast is selected; scrolling the podcast menu brings the episode
    /// menu to the start of the newly selected podcast's episodes. A
    /// scroll the menu cannot make (going down past the end of a list
    /// shorter than the panel) leaves it as it is.
    pub fn scroll_current_window(&mut self, pod_id: Option<i64>, scroll: i32)
        requires
            scroll > i32::MIN,
        ensures
            Self::scroll_effect(old(self), final(self), pod_id, scroll),
    {
        if pod_id.is_none() {
            return;
        }
        let lines = to_scroll(scroll);
        match self.active_menu {
            ActiveMenu::PodcastMenu => {
                if self.podcast_menu.panel.n_row >= 2 {
                    let n_row = self.podcast_menu.panel.n_row - 2;
                    let len = self.podcast_menu.items.len() as u16;
                    let ok = match lines {
                        Scroll::Up(_) => true,
                        Scroll::Down(v) => self.podcast_menu.selected <= n_row && (v < n_row
                            - self.podcast_menu.selected || (self.podcast_menu.selected < n_row && len
                            >= n_row)),
                    };
                    if ok {
                        self.podcast_menu.scroll(lines);
                    }
                }
                self.episode_menu.top_row = 0;
                self.episode_menu.selected = 0;
                let idx = self.podcast_menu.selected as usize + self.podcast_menu.top_row as usize;
                if idx < self.podcast_menu.items.len() {
                    let pod = self.podcast_menu.items.item_at(idx);
                    self.episode_menu.items = pod.episodes.clone();
                }
                self.episode_menu.update_items();
                self.update_details_panel();
            },
            ActiveMenu::EpisodeMenu => {
                if self.episode_menu.panel.n_row >= 2 {
                    let n_row = self.episode_menu.panel.n_row - 2;
                    let len = self.episode_menu.items.len() as u16;
                    let ok = match lines {
                        Scroll::Up(_) => true,
                        Scroll::Down(v) => self.episode_menu.selected <= n_row && (v < n_row
                            - self.episode_menu.selected || (self.episode_menu.selected < n_row && len
                            >= n_row)),
                    };
                    if ok {
                        self.episode_menu.scroll(lines);
                    }
                }
                self.update_details_panel();
            },
        }
    }
}


/// How far a movement scrolls the active menu (positive: down): a row,
/// a page (the screen's rows less three), a quarter of the screen, or
/// to either end; `None` for moving left or right (and other actions).
pub open spec fn move_scroll(action: UserAction, n_row: i32) -> Option<i32> {
    match action {
        UserAction::Down => Some(1),
        UserAction::Up => Some(-1i32),
        UserAction::PageUp => Some((-n_row + 3) as i32),
        UserAction::PageDown => Some((n_row - 3) as i32),
        UserAction::BigUp => Some((-(n_row / 4)) as i32),
        UserAction::BigDown => Some((n_row / 4) as i32),
        UserAction::GoTop => Some((-i32::MAX) as i32),
        UserAction::GoBot => Some(i32::MAX),
        _ => None,
    }
}

/// The actions that move the cursor.
pub open spec fn is_movement(action: UserAction) -> bool {
    ||| action == UserAction::Down
    ||| action == UserAction::Up
    ||| action == UserAction::Left
    ||| action == UserAction::Right
    ||| action == UserAction::PageUp
    ||| action == UserAction::PageDown
    ||| action == UserAction::BigUp
    ||| action == UserAction::BigDown
    ||| action == UserAction::GoTop
    ||| action == UserAction::GoBot
}

impl<'a> UI<'a> {
    /// What a movement does to the menus, for the selected podcast `pod`
    /// and episode `ep`: see `move_cursor`.
    pub open spec fn cursor_moved(old: &UI<'a>, new: &UI<'a>, action: UserAction, pod: Option<i64>, ep: Option<i64>) -> bool {
        match move_scroll(action, old.n_row) {
            Some(scroll) => Self::menus_scrolled(old, new, pod, scroll),
            None => {
                &&& new.podcast_menu == old.podcast_menu
                &&& new.episode_menu == old.episode_menu
                &&& new.active_menu == if action == UserAction::Left && pod is Some {
                    ActiveMenu::PodcastMenu
                } else if action == UserAction::Right && pod is Some && ep is Some {
                    ActiveMenu::EpisodeMenu
                } else {
                    old.active_menu
                }
            },
        }
    }

    /// Moves the cursor: scrolls the active menu (see `move_scroll`), or
    /// moves left to the podcast menu (when a podcast is selected) or
    /// right to the episode menu (when an episode is selected).
    pub fn move_cursor(&mut self, action: UserAction, curr_pod_id: Option<i64>, curr_ep_id: Option<i64>)
        requires
            0 <= old(self).n_row <= u16::MAX,
        ensures
            final(self).n_row == old(self).n_row,
            Self::cursor_moved(old(self), final(self), action, curr_pod_id, curr_ep_id),
            match move_scroll(action, old(self).n_row) {
                Some(scroll) => Self::scroll_effect(old(self), final(self), curr_pod_id, scroll),
                None => {
                    &&& final(self).podcast_menu == old(self).podcast_menu
                    &&& final(self).episode_menu == old(self).episode_menu
                    &&& final(self).popup_win == old(self).popup_win
                    &&& final(self).active_menu == if action == UserAction::Left && curr_pod_id is Some {
                        ActiveMenu::PodcastMenu
                    } else if action == UserAction::Right && curr_pod_id is Some && curr_ep_id is Some {
                        ActiveMenu::EpisodeMenu
                    } else {
                        old(self).active_menu
                    }
                },
            },
    {
        match action {
            UserAction::Down => self.scroll_current_window(curr_pod_id, 1),
            UserAction::Up => self.scroll_current_window(curr_pod_id, -1),
            UserAction::Left => {
                if curr_pod_id.is_some() {
                    match self.active_menu {
                        ActiveMenu::PodcastMenu => {},
                        ActiveMenu::EpisodeMenu => {
                            self.active_menu = ActiveMenu::PodcastMenu;
                        },
                    }
                }
            },
            UserAction::Right => {
                if curr_pod_id.is_some() && curr_ep_id.is_some() {
                    match self.active_menu {
                        ActiveMenu::PodcastMenu => {
                            self.active_menu = ActiveMenu::EpisodeMenu;
                        },
                        ActiveMenu::EpisodeMenu => {},
                    }
                }
            },
            UserAction::PageUp => self.scroll_current_window(curr_pod_id, -self.n_row + 3),
            UserAction::PageDown => self.scroll_current_window(curr_pod_id, self.n_row - 3),
            UserAction::BigUp => self.scroll_current_window(
                curr_pod_id,
                -(self.n_row / (BIG_SCROLL_AMOUNT as i32)),
            ),
            UserAction::BigDown => self.scroll_current_window(
                curr_pod_id,
                self.n_row / (BIG_SCROLL_AMOUNT as i32),
            ),
            UserAction::GoTop => self.scroll_current_window(curr_pod_id, -i32::MAX),
            UserAction::GoBot => self.scroll_current_window(curr_pod_id, i32::MAX),
            _ => {},
        }
    }

    /// Brings the menus up to date: the podcast menu's selection is
    /// brought back within its list, and the episode menu shows the
    /// selected podcast's episodes (none when there are no podcasts), its
    /// selection brought back within them.
    pub fn update_menus(&mut self)
        ensures
            final(self).podcast_menu == (Menu {
                selected: old(self).podcast_menu.clamped_selection(),
                ..old(self).podcast_menu
            }),
            final(self).active_menu == old(self).active_menu,
            final(self).popup_win == old(self).popup_win,
            final(self).n_row == old(self).n_row,
            final(self).n_col == old(self).n_col,
            final(self).keymap == old(self).keymap,
            final(self).details_panel == old(self).details_panel,
            final(self).episode_menu.top_row == old(self).episode_menu.top_row,
            final(self).episode_menu.selected == (Menu {
                items: final(self).episode_menu.items,
                ..old(self).episode_menu
            }).clamped_selection(),
            final(self).episode_menu.panel == old(self).episode_menu.panel,
            final(self).episode_menu.header == old(self).episode_menu.header,
            final(self).episode_menu.start_row == old(self).episode_menu.start_row,
            old(self).podcast_menu.items.order_view().len() == 0 ==> final(self).episode_menu.items.order_view().len() == 0,
            final(self).current_ids().0 matches Some(p) ==> {
                &&& final(self).episode_menu.items.order_view() == old(self).podcast_menu.items.map_view()[p].episodes.order_view()
                &&& final(self).episode_menu.items.map_view() == old(self).podcast_menu.items.map_view()[p].episodes.map_view()
            },
    {
        self.podcast_menu.update_items();
        if self.podcast_menu.items.is_empty() {
            let empty = LockVec::new(Vec::new());
            assert(empty.order_view() =~= Seq::<i64>::empty());
            self.episode_menu.items = empty;
        } else {
            let idx = self.podcast_menu.selected as usize + self.podcast_menu.top_row as usize;
            if idx < self.podcast_menu.items.len() {
                let pod = self.podcast_menu.items.item_at(idx);
                self.episode_menu.items = pod.episodes.clone();
            }
        }
        self.episode_menu.update_items();
    }
}


/// The action bound to key `k`, if any.
pub open spec fn action_for(keys: Keybindings, k: KeyCode) -> Option<UserAction> {
    match spec_input_to_str(k) {
        Some(code) => if keys@.contains_key(code) {
            Some(keys@[code])
        } else {
            None
        },
        None => None,
    }
}

/// What a key leads to, as a view: a message, or a question with its
/// prompt and what waits for the answer.
pub enum Outcome {
    Msg(UiMsg),
    Text(Seq<char>, Pending),
    YesNo(Seq<char>, Pending),
}

/// The step `res` is the outcome `o`.
pub open spec fn step_is(res: UiStep, o: Outcome) -> bool {
    match o {
        Outcome::Msg(m) => res == UiStep::Done(m),
        Outcome::Text(p, w) => res matches UiStep::AskText(t, q) && t@ == p && q == w,
        Outcome::YesNo(p, w) => res matches UiStep::AskYesNo(t, q) && t@ == p && q == w,
    }
}

/// The question whether to remove the selected podcast.
pub open spec fn ask_remove_podcast(pod: Option<i64>) -> Outcome {
    Outcome::YesNo("Are you sure you want to remove the podcast?"@ + " (y/n) "@, Pending::ConfirmRemovePodcast(pod))
}

impl<'a> UI<'a> {
    /// Removing all episodes of podcast `pod`: asks whether to delete the
    /// downloaded files when there are some.
    pub open spec fn remove_all_outcome(&self, pod: Option<i64>) -> Outcome {
        match pod {
            Some(p) => if self.has_local_files(p) {
                Outcome::YesNo("Delete local files too?"@ + " (y/n) "@, Pending::DeleteAllFiles(p))
            } else {
                Outcome::Msg(UiMsg::RemoveAllEpisodes(p, false))
            },
            None => Outcome::Msg(UiMsg::Noop),
        }
    }

    /// What an action leads to when no popup takes the keys, for the
    /// selected podcast `pod` and episode `ep`.
    pub open spec fn outcome_of(&self, action: Option<UserAction>, pod: Option<i64>, ep: Option<i64>) -> Outcome {
        let noop = Outcome::Msg(UiMsg::Noop);
        let in_eps = self.active_menu == ActiveMenu::EpisodeMenu;
        match action {
            Some(UserAction::AddFeed) => Outcome::Text("Feed URL: "@, Pending::AddFeed),
            Some(UserAction::Sync) => match pod {
                Some(p) => Outcome::Msg(UiMsg::Sync(p)),
                None => noop,
            },
            Some(UserAction::SyncAll) => if pod is Some {
                Outcome::Msg(UiMsg::SyncAll)
            } else {
                noop
            },
            Some(UserAction::Play) => match (pod, ep) {
                (Some(p), Some(e)) => Outcome::Msg(UiMsg::Play(p, e)),
                _ => noop,
            },
            Some(UserAction::MarkPlayed) => match (pod, ep) {
                (Some(p), Some(e)) => if in_eps && self.episode_menu.items.map_view().contains_key(e) {
                    Outcome::Msg(UiMsg::MarkPlayed(p, e, !self.episode_menu.items.map_view()[e].played))
                } else {
                    noop
                },
                _ => noop,
            },
            Some(UserAction::MarkAllPlayed) => match pod {
                Some(p) => if self.podcast_menu.items.map_view().contains_key(p) {
                    Outcome::Msg(UiMsg::MarkAllPlayed(p, !self.podcast_menu.items.map_view()[p].spec_played()))
                } else {
                    noop
                },
                None => noop,
            },
            Some(UserAction::Download) => match (pod, ep) {
                (Some(p), Some(e)) => Outcome::Msg(UiMsg::Download(p, e)),
                _ => noop,
            },
            Some(UserAction::DownloadAll) => match pod {
                Some(p) => Outcome::Msg(UiMsg::DownloadAll(p)),
                None => noop,
            },
            Some(UserAction::Delete) => match (pod, ep) {
                (Some(p), Some(e)) => if in_eps {
                    Outcome::Msg(UiMsg::Delete(p, e))
                } else {
                    noop
                },
                _ => noop,
            },
            Some(UserAction::DeleteAll) => match pod {
                Some(p) => Outcome::Msg(UiMsg::DeleteAll(p)),
                None => noop,
            },
            Some(UserAction::Remove) => if in_eps {
                Outcome::YesNo(
                    "Are you sure you want to remove the episode?"@ + " (y/n) "@,
                    Pending::ConfirmRemoveEpisode(pod, ep),
                )
            } else {
                ask_remove_podcast(pod)
            },
            Some(UserAction::RemoveAll) => if in_eps {
                self.remove_all_outcome(pod)
            } else {
                ask_remove_podcast(pod)
            },
            Some(UserAction::Quit) => Outcome::Msg(UiMsg::Quit),
            _ => noop,
        }
    }

    /// Handles a key: `None` (no key) does nothing. Once the podcast
    /// list is not empty the welcome window is withdrawn. While the help
    /// or download window is wanted, it takes the key (Esc, `q` or `Q`
    /// close the help window), and once no popup is left the menus are
    /// brought up to date. Otherwise the
    /// key's action moves the cursor, opens the help window, or leads to
    /// a message or a question (see `outcome_of`).
    pub fn getch(&mut self, input: Option<KeyCode>) -> (res: UiStep)
        requires
            0 <= old(self).n_row <= u16::MAX,
        ensures
            input is None ==> res == UiStep::Done(UiMsg::Noop) && *final(self) == *old(self),
            input matches Some(k) ==> {
                let ids = old(self).current_ids();
                let nw = old(self).popup_win.wanted().1 || old(self).popup_win.wanted().2;
                let action = action_for(*old(self).keymap, k);
                &&& nw ==> res == UiStep::Done(UiMsg::Noop)
                &&& nw ==> {
                    let closing = old(self).popup_win.on_screen() == self::popup::ActivePopup::HelpWin
                        && self::popup::closes_help(Some(k));
                    let fw = final(self).popup_win.wanted();
                    &&& fw.2 == old(self).popup_win.wanted().2
                    &&& closing ==> !fw.1
                    &&& !self::popup::closes_help(Some(k)) ==> fw.1 == old(self).popup_win.wanted().1
                    &&& final(self).active_menu == old(self).active_menu
                    &&& (fw.0 || fw.1 || fw.2) ==> final(self).podcast_menu == old(self).podcast_menu
                        && final(self).episode_menu == old(self).episode_menu
                    &&& !(fw.0 || fw.1 || fw.2) ==> final(self).podcast_menu == (Menu {
                        selected: old(self).podcast_menu.clamped_selection(),
                        ..old(self).podcast_menu
                    })
                    &&& !(fw.0 || fw.1 || fw.2) ==> (final(self).current_ids().0 matches Some(p) ==> {
                        &&& final(self).episode_menu.items.order_view()
                            == old(self).podcast_menu.items.map_view()[p].episodes.order_view()
                        &&& final(self).episode_menu.items.map_view()
                            == old(self).podcast_menu.items.map_view()[p].episodes.map_view()
                    })
                }
                &&& !nw ==> {
                    &&& (action matches Some(a) && is_movement(a)) ==> res == UiStep::Done(UiMsg::Noop)
                    &&& action matches Some(a) ==> (is_movement(a) ==> Self::cursor_moved(
                        old(self),
                        final(self),
                        a,
                        ids.0,
                        ids.1,
                    ))
                    &&& action == Some(UserAction::Help) ==> res == UiStep::Done(UiMsg::Noop)
                        && final(self).popup_win.wanted().1
                    &&& !(action matches Some(a) && (is_movement(a) || a == UserAction::Help)) ==> step_is(
                        res,
                        old(self).outcome_of(action, ids.0, ids.1),
                    )
                }
                &&& old(self).popup_win.wanted().0 && old(self).podcast_menu.items.order_view().len() > 0
                    ==> !final(self).popup_win.wanted().0
            },
    {
        let input = match input {
            Some(k) => k,
            None => {
                return UiStep::Done(UiMsg::Noop);
            },
        };
        let (curr_pod_id, curr_ep_id) = self.get_current_ids();
        let _ = self.podcast_menu.items.len();
        if self.popup_win.welcome_wanted() && !self.podcast_menu.items.is_empty() {
            self.popup_win.turn_off_welcome_win();
        }
        if self.popup_win.is_non_welcome_popup_active() {
            proof {
                if old(self).popup_win.on_screen() == self::popup::ActivePopup::HelpWin {
                    assert(self.popup_win.on_screen() == self::popup::ActivePopup::HelpWin);
                }
            }
            self.popup_win.handle_input(Some(input));
            let ghost mid = *self;
            if !self.popup_win.is_popup_active() {
                self.update_menus();
                if self.details_panel.is_some() {
                    self.update_details_panel();
                }
            }
            proof {
                let closing = old(self).popup_win.on_screen() == self::popup::ActivePopup::HelpWin
                    && self::popup::closes_help(Some(input));
                let fw = self.popup_win.wanted();
                assert(fw.2 == old(self).popup_win.wanted().2);
                assert(closing ==> !fw.1);
                assert(self.active_menu == old(self).active_menu);
            }
            return UiStep::Done(UiMsg::Noop);
        }
        let action = self.keymap.get_from_input(input);
        match action {
            Some(a) => {
                let movement = match a {
                    UserAction::Down | UserAction::Up | UserAction::Left | UserAction::Right
                    | UserAction::PageUp | UserAction::PageDown | UserAction::BigUp
                    | UserAction::BigDown | UserAction::GoTop | UserAction::GoBot => true,
                    _ => false,
                };
                if movement {
                    self.move_cursor(a, curr_pod_id, curr_ep_id);
                    return UiStep::Done(UiMsg::Noop);
                }
                match a {
                    UserAction::Help => {
                        self.popup_win.spawn_help_win();
                        UiStep::Done(UiMsg::Noop)
                    },
                    UserAction::AddFeed => UiStep::AskText(String::from_str("Feed URL: "), Pending::AddFeed),
                    UserAction::Sync => match curr_pod_id {
                        Some(p) => UiStep::Done(UiMsg::Sync(p)),
                        None => UiStep::Done(UiMsg::Noop),
                    },
                    UserAction::SyncAll => if curr_pod_id.is_some() {
                        UiStep::Done(UiMsg::SyncAll)
                    } else {
                        UiStep::Done(UiMsg::Noop)
                    },
                    UserAction::Play => match (curr_pod_id, curr_ep_id) {
                        (Some(p), Some(e)) => UiStep::Done(UiMsg::Play(p, e)),
                        _ => UiStep::Done(UiMsg::Noop),
                    },
                    UserAction::MarkPlayed => match self.active_menu {
                        ActiveMenu::PodcastMenu => UiStep::Done(UiMsg::Noop),
                        ActiveMenu::EpisodeMenu => match self.mark_played(curr_pod_id, curr_ep_id) {
                            Some(m) => UiStep::Done(m),
                            None => UiStep::Done(UiMsg::Noop),
                        },
                    },
                    UserAction::MarkAllPlayed => match self.mark_all_played(curr_pod_id) {
                        Some(m) => UiStep::Done(m),
                        None => UiStep::Done(UiMsg::Noop),
                    },
                    UserAction::Download => match (curr_pod_id, curr_ep_id) {
                        (Some(p), Some(e)) => UiStep::Done(UiMsg::Download(p, e)),
                        _ => UiStep::Done(UiMsg::Noop),
                    },
                    UserAction::DownloadAll => match curr_pod_id {
                        Some(p) => UiStep::Done(UiMsg::DownloadAll(p)),
                        None => UiStep::Done(UiMsg::Noop),
                    },
                    UserAction::Delete => match self.active_menu {
                        ActiveMenu::PodcastMenu => UiStep::Done(UiMsg::Noop),
                        ActiveMenu::EpisodeMenu => match (curr_pod_id, curr_ep_id) {
                            (Some(p), Some(e)) => UiStep::Done(UiMsg::Delete(p, e)),
                            _ => UiStep::Done(UiMsg::Noop),
                        },
                    },
                    UserAction::DeleteAll => match curr_pod_id {
                        Some(p) => UiStep::Done(UiMsg::DeleteAll(p)),
                        None => UiStep::Done(UiMsg::Noop),
                    },
                    UserAction::Remove => match self.active_menu {
                        ActiveMenu::PodcastMenu => self.remove_podcast(curr_pod_id),
                        ActiveMenu::EpisodeMenu => self.remove_episode(curr_pod_id, curr_ep_id),
                    },
                    UserAction::RemoveAll => match self.active_menu {
                        ActiveMenu::PodcastMenu => self.remove_podcast(curr_pod_id),
                        ActiveMenu::EpisodeMenu => self.remove_all_episodes(curr_pod_id),
                    },
                    UserAction::Quit => UiStep::Done(UiMsg::Quit),
                    _ => UiStep::Done(UiMsg::Noop),
                }
            },
            None => UiStep::Done(UiMsg::Noop),
        }
    }

    /// Removing the selected podcast: asks for confirmation (the rest is
    /// decided by the answer, see `answer_outcome`).
    pub fn remove_podcast(&self, curr_pod_id: Option<i64>) -> (res: UiStep)
        ensures
            step_is(res, ask_remove_podcast(curr_pod_id)),
    {
        UiStep::AskYesNo(
            yes_no_prompt("Are you sure you want to remove the podcast?"),
            Pending::ConfirmRemovePodcast(curr_pod_id),
        )
    }

    /// Removing the selected episode: asks for confirmation (the rest is
    /// decided by the answer, see `answer_outcome`).
    fn remove_episode(&self, curr_pod_id: Option<i64>, curr_ep_id: Option<i64>) -> (res: UiStep)
        ensures
            step_is(res, Outcome::YesNo(
                "Are you sure you want to remove the episode?"@ + " (y/n) "@,
                Pending::ConfirmRemoveEpisode(curr_pod_id, curr_ep_id),
            )),
    {
        UiStep::AskYesNo(
            yes_no_prompt("Are you sure you want to remove the episode?"),
            Pending::ConfirmRemoveEpisode(curr_pod_id, curr_ep_id),
        )
    }

    /// Removing all episodes of the selected podcast: asks whether to
    /// delete the downloaded files when there are some.
    fn remove_all_episodes(&self, curr_pod_id: Option<i64>) -> (res: UiStep)
        requires
            curr_pod_id matches Some(p) ==> self.podcast_menu.items.map_view().contains_key(p),
        ensures
            step_is(res, self.remove_all_outcome(curr_pod_id)),
    {
        match curr_pod_id {
            Some(pod_id) => if self.check_for_local_files(pod_id) {
                UiStep::AskYesNo(yes_no_prompt("Delete local files too?"), Pending::DeleteAllFiles(pod_id))
            } else {
                UiStep::Done(UiMsg::RemoveAllEpisodes(pod_id, false))
            },
            None => UiStep::Done(UiMsg::Noop),
        }
    }
}


/// The answer is yes.
pub open spec fn said_yes(text: Seq<char>) -> bool {
    spec_yes_no(text) == Some(true)
}

impl<'a> UI<'a> {
    /// What the user's answer `text` to a question leads to (a feed
    /// address aside): the removal is confirmed only by a yes; then, when
    /// there are downloaded files, whether to delete them is asked, and
    /// they are deleted only on a yes.
    pub open spec fn answer_outcome(&self, pending: Pending, text: Seq<char>) -> Outcome {
        let noop = Outcome::Msg(UiMsg::Noop);
        match pending {
            Pending::AddFeed => noop,
            Pending::ConfirmRemovePodcast(pod) => if !said_yes(text) {
                noop
            } else {
                match pod {
                    Some(p) => if self.has_local_files(p) {
                        Outcome::YesNo("Delete local files too?"@ + " (y/n) "@, Pending::DeletePodcastFiles(p))
                    } else {
                        Outcome::Msg(UiMsg::RemovePodcast(p, false))
                    },
                    None => noop,
                }
            },
            Pending::DeletePodcastFiles(p) => Outcome::Msg(UiMsg::RemovePodcast(p, said_yes(text))),
            Pending::ConfirmRemoveEpisode(pod, ep) => if !said_yes(text) {
                noop
            } else {
                match (pod, ep) {
                    (Some(p), Some(e)) => if self.episode_menu.items.map_view()[e].path is Some {
                        Outcome::YesNo("Delete local file too?"@ + " (y/n) "@, Pending::DeleteEpisodeFile(p, e))
                    } else {
                        Outcome::Msg(UiMsg::RemoveEpisode(p, e, false))
                    },
                    _ => noop,
                }
            },
            Pending::DeleteEpisodeFile(p, e) => Outcome::Msg(UiMsg::RemoveEpisode(p, e, said_yes(text))),
            Pending::DeleteAllFiles(p) => Outcome::Msg(UiMsg::RemoveAllEpisodes(p, said_yes(text))),
        }
    }

    /// Takes the user's answer `text` to a question: a feed address is
    /// added unless empty; the removals go on as `answer_outcome` says.
    pub fn answer(&self, pending: Pending, text: &str) -> (res: UiStep)
        requires
            pending matches Pending::ConfirmRemovePodcast(Some(p)) ==> self.podcast_menu.items.map_view().contains_key(p),
            pending matches Pending::ConfirmRemoveEpisode(Some(_), Some(e)) ==> self.episode_menu.items.map_view().contains_key(e),
        ensures
            pending is AddFeed ==> if text@.len() > 0 {
                res matches UiStep::Done(UiMsg::AddFeed(u)) && u@ == text@
            } else {
                res == UiStep::Done(UiMsg::Noop)
            },
            !(pending is AddFeed) ==> step_is(res, self.answer_outcome(pending, text@)),
    {
        match pending {
            Pending::AddFeed => {
                if text.unicode_len() > 0 {
                    UiStep::Done(UiMsg::AddFeed(String::from_str(text)))
                } else {
                    UiStep::Done(UiMsg::Noop)
                }
            },
            Pending::ConfirmRemovePodcast(pod) => {
                let confirm = match yes_no_answer(text) {
                    Some(v) => v,
                    None => false,
                };
                if !confirm {
                    return UiStep::Done(UiMsg::Noop);
                }
                match pod {
                    Some(p) => if self.check_for_local_files(p) {
                        UiStep::AskYesNo(yes_no_prompt("Delete local files too?"), Pending::DeletePodcastFiles(p))
                    } else {
                        UiStep::Done(UiMsg::RemovePodcast(p, false))
                    },
                    None => UiStep::Done(UiMsg::Noop),
                }
            },
            Pending::DeletePodcastFiles(p) => {
                let delete = match yes_no_answer(text) {
                    Some(v) => v,
                    None => false,
                };
                UiStep::Done(UiMsg::RemovePodcast(p, delete))
            },
            Pending::ConfirmRemoveEpisode(pod, ep) => {
                let confirm = match yes_no_answer(text) {
                    Some(v) => v,
                    None => false,
                };
                if !confirm {
                    return UiStep::Done(UiMsg::Noop);
                }
                match (pod, ep) {
                    (Some(p), Some(e)) => {
                        let is_downloaded = self.episode_menu.items.map_single(e, |ep: &Episode| -> (b: bool)
                            ensures
                                b == ep.path is Some,
                            { ep.path.is_some() }).unwrap();
                        if is_downloaded {
                            UiStep::AskYesNo(yes_no_prompt("Delete local file too?"), Pending::DeleteEpisodeFile(p, e))
                        } else {
                            UiStep::Done(UiMsg::RemoveEpisode(p, e, false))
                        }
                    },
                    _ => UiStep::Done(UiMsg::Noop),
                }
            },
            Pending::DeleteEpisodeFile(p, e) => {
                let delete = match yes_no_answer(text) {
                    Some(v) => v,
                    None => false,
                };
                UiStep::Done(UiMsg::RemoveEpisode(p, e, delete))
            },
            Pending::DeleteAllFiles(p) => {
                let delete = match yes_no_answer(text) {
                    Some(v) => v,
                    None => false,
                };
                UiStep::Done(UiMsg::RemoveAllEpisodes(p, delete))
            },
        }
    }
}


impl<'a> UI<'a> {
    /// Shows the details of the selected episode and, when there are no
    /// podcasts yet, the welcome window.
    pub fn init(&mut self)
        ensures
            final(self).podcast_menu == old(self).podcast_menu,
            final(self).episode_menu == old(self).episode_menu,
            final(self).active_menu == old(self).active_menu,
            old(self).podcast_menu.items.order_view().len() == 0 ==> final(self).popup_win.wanted().0,
            old(self).podcast_menu.items.order_view().len() > 0 ==> final(self).popup_win == old(self).popup_win,
    {
        self.update_details_panel();
        if self.podcast_menu.items.is_empty() {
            self.popup_win.spawn_welcome_win();
        }
    }

    /// Takes on a new terminal size: the menus and panels take their new
    /// widths (see `spec_sizes`), the details panel is made or dropped as
    /// the width allows, the menus are brought up to date, and the popup
    /// windows are laid out again.
    pub fn resize(&mut self, n_row: i32, n_col: i32)
        requires
            2 <= n_row <= u16::MAX,
            0 <= n_col <= u16::MAX,
        ensures
            final(self).n_row == n_row,
            final(self).n_col == n_col,
            final(self).active_menu == old(self).active_menu,
            final(self).details_panel is Some <==> (old(self).details_panel is Some && spec_sizes(n_col).2 > 0)
                || (old(self).details_panel is None && spec_sizes(n_col).2 > 0),
            final(self).popup_win.rows() == n_row,
            final(self).popup_win.cols() == n_col,
            final(self).podcast_menu.items == old(self).podcast_menu.items,
            n_row >= 4 && old(self).podcast_menu.top_row + old(self).podcast_menu.selected <= u16::MAX
                ==> final(self).podcast_menu.panel.n_row == n_row - 1
                && final(self).podcast_menu.panel.n_col == spec_sizes(n_col).0,
            n_row >= 4 && old(self).episode_menu.top_row + old(self).episode_menu.selected <= u16::MAX
                ==> final(self).episode_menu.panel.n_row == n_row - 1
                && final(self).episode_menu.panel.n_col == spec_sizes(n_col).1,
    {
        self.n_row = n_row;
        self.n_col = n_col;
        let (pod_col, ep_col, det_col) = Self::calculate_sizes(n_col);
        let rows = (n_row - 1) as u16;
        if rows >= 3 && (self.podcast_menu.selected <= rows - 3 || (self.podcast_menu.top_row as u32)
            + (self.podcast_menu.selected as u32) - ((rows - 3) as u32) <= 65535) {
            self.podcast_menu.resize(rows, pod_col as u16, 0, 0);
        }
        let ep_start: u16 = if pod_col >= 1 {
            (pod_col - 1) as u16
        } else {
            0
        };
        if rows >= 3 && (self.episode_menu.selected <= rows - 3 || (self.episode_menu.top_row as u32)
            + (self.episode_menu.selected as u32) - ((rows - 3) as u32) <= 65535) {
            self.episode_menu.resize(rows, ep_col as u16, 0, ep_start);
        }
        if self.details_panel.is_some() {
            if det_col > 0 {
                let mut det = self.details_panel.take().unwrap();
                let det_x = (pod_col + ep_col - 2) as u16;
                if det_col >= 5 && rows >= 1 && (det_x as u32) + (det_col as u32) - 1 <= 65535
                    && det_x <= 65533 {
                    match det.resize(rows, det_col as u16, det_x) {
                        Some(cmds) => {
                            let mut cmds = cmds;
                            self.pending_draws.append(&mut cmds);
                        },
                        None => {},
                    }
                }
                self.details_panel = Some(det);
            } else {
                self.details_panel = None;
            }
        } else if det_col > 0 {
            self.details_panel = Some(Self::make_details_panel(rows, det_col as u16, (pod_col + ep_col - 2) as u16));
        }
        self.update_menus();
        if self.details_panel.is_some() {
            self.update_details_panel();
        }
        self.popup_win.resize(n_row, n_col);
        self.notif_win.resize(n_row as u16, n_col as u16);
    }
}


/// The text of the first interface's welcome window, with the phrases
/// naming the keys that add a feed and that quit.
pub open spec fn welcome_message_text(add: Seq<char>, quit: Seq<char>) -> Seq<char> {
    "Welcome to shellcaster!\n\nYour podcast list is currently empty. Press "@ + add
        + " to add a new podcast feed, or "@ + quit
        + " to quit.\n\nOther keybindings can be found on the Github repo readme:\nhttps://github.com/jeff-hughes/shellcaster"@
}

impl<'a> UI<'a> {
    /// The welcome text the first interface shows when the podcast list
    /// is empty: how to add a feed and how to quit, with the keys bound
    /// to each in `config`.
    pub fn make_welcome_win(config: &Config) -> (res: String)
        ensures
            res@ == welcome_message_text(
                self::popup::keys_phrase(config.keybindings.key_list(UserAction::AddFeed)),
                self::popup::keys_phrase(config.keybindings.key_list(UserAction::Quit)),
            ),
    {
        let add_keys = config.keybindings.keys_for_action(UserAction::AddFeed);
        let quit_keys = config.keybindings.keys_for_action(UserAction::Quit);
        let mut s = String::from_str("Welcome to shellcaster!\n\nYour podcast list is currently empty. Press ");
        self::popup::push_keys_phrase(&mut s, &add_keys);
        push_str(&mut s, " to add a new podcast feed, or ");
        self::popup::push_keys_phrase(&mut s, &quit_keys);
        push_str(
            &mut s,
            " to quit.\n\nOther keybindings can be found on the Github repo readme:\nhttps://github.com/jeff-hughes/shellcaster",
        );
        s
    }
}

/// The answer to a yes/no question is yes: its first character that is
/// not whitespace is `y` or `Y`.
pub open spec fn answered_yes(text: Seq<char>) -> bool {
    first_nonblank(text) == Some('y') || first_nonblank(text) == Some('Y')
}

/// After removing a podcast or an episode, the local files go only on a
/// yes: the message asked for by "Delete local file(s) too?" deletes the
/// files exactly when the answer starts with `y` or `Y` (an answer that
/// starts with `n`, anything else, or no answer at all keeps them). A
/// removal that was not confirmed with a yes does nothing.
pub proof fn law_files_deleted_only_on_yes(ui: &UI, p: i64, e: i64, pod: Option<i64>, ep: Option<i64>, text: Seq<char>)
    ensures
        ui.answer_outcome(Pending::DeleteEpisodeFile(p, e), text) == Outcome::Msg(
            UiMsg::RemoveEpisode(p, e, answered_yes(text)),
        ),
        ui.answer_outcome(Pending::DeletePodcastFiles(p), text) == Outcome::Msg(
            UiMsg::RemovePodcast(p, answered_yes(text)),
        ),
        ui.answer_outcome(Pending::DeleteAllFiles(p), text) == Outcome::Msg(
            UiMsg::RemoveAllEpisodes(p, answered_yes(text)),
        ),
        !answered_yes(text) ==> ui.answer_outcome(Pending::ConfirmRemovePodcast(pod), text) == Outcome::Msg(
            UiMsg::Noop,
        ),
        !answered_yes(text) ==> ui.answer_outcome(Pending::ConfirmRemoveEpisode(pod, ep), text)
            == Outcome::Msg(UiMsg::Noop),
{
}

/// A change to the one-line input window of the first interface.
#[derive(Debug, Clone, Copy, PartialEq, Eq, Structural)]
pub enum WindowOp {
    /// Move the cursor to this column.
    MoveTo(i32),
    /// Delete the character under the cursor.
    DeleteChar,
    /// Insert a character at the cursor.
    InsertChar(char),
}

/// What happens after a key is typed into the first interface's input
/// window.
#[derive(Debug)]
pub enum InputWinStep {
    /// Typing goes on; these are the changes to the window.
    Continue(Vec<WindowOp>),
    /// The text was entered.
    Submit(String),
    /// Typing was cancelled.
    Cancel,
}

/// The first interface's one-line input window: the text typed after
/// a prompt, the cursor's column and the column the window takes as the
/// end of the text. Characters typed are added at the end of the text
/// wherever the cursor is, and deleting under the cursor does not move
/// the end column.
#[derive(Debug)]
pub struct InputWin {
    pub min_x: i32,
    pub text: Vec<char>,
    pub cursor_x: i32,
    pub current_x: i32,
}

impl InputWin {
    /// The cursor lies between the prompt and the end column, and the
    /// text is no longer than the columns between them.
    pub open spec fn wf(&self) -> bool {
        &&& 0 <= self.min_x <= self.cursor_x <= self.current_x
        &&& self.text@.len() <= self.current_x - self.min_x
    }

    /// A key can be handled: deleting backwards needs a character before
    /// the cursor whenever the end column is past the prompt, deleting
    /// needs a character under the cursor whenever the cursor is before
    /// the end column, and typing needs room for one more column.
    pub open spec fn key_ok(&self, key: KeyCode) -> bool {
        &&& (key == KeyCode::Backspace || key == KeyCode::Char('\u{7f}')) && self.current_x > self.min_x
            ==> self.cursor_x > self.min_x && self.cursor_x - 1 - self.min_x < self.text@.len()
        &&& key == KeyCode::Delete && self.cursor_x < self.current_x ==> self.cursor_x - self.min_x
            < self.text@.len()
        &&& self.current_x < i32::MAX
    }

    /// Opens the input window after a prompt of `prefix_len` columns.
    pub fn spawn_input_win(prefix_len: i32) -> (res: InputWin)
        requires
            prefix_len >= 0,
        ensures
            res.wf(),
            res.min_x == prefix_len,
            res.cursor_x == prefix_len,
            res.current_x == prefix_len,
            res.text@.len() == 0,
    {
        InputWin { min_x: prefix_len, text: Vec::new(), cursor_x: prefix_len, current_x: prefix_len }
    }

    /// Handles one key: Esc cancels; Enter enters the text; Backspace
    /// moves the cursor left and deletes the character there; Delete
    /// deletes the character under the cursor; Left and Right move the
    /// cursor between the prompt and the end column; a character is
    /// shown at the cursor and added at the end of the text.
    pub fn handle_key(&mut self, key: KeyCode) -> (res: InputWinStep)
        requires
            old(self).wf(),
            old(self).key_ok(key),
        ensures
            final(self).wf(),
            final(self).min_x == old(self).min_x,
            ({
                let o = *old(self);
                let n = *final(self);
                let i = o.cursor_x - o.min_x;
                if key == KeyCode::Esc || key == KeyCode::Char('\u{1b}') {
                    res is Cancel && n == o
                } else if key == KeyCode::Enter || key == KeyCode::Char('\n') {
                    (res matches InputWinStep::Submit(t) && t@ == o.text@) && n == o
                } else if key == KeyCode::Backspace || key == KeyCode::Char('\u{7f}') {
                    if o.current_x > o.min_x {
                        &&& n.text@ == o.text@.remove(i - 1)
                        &&& n.cursor_x == o.cursor_x - 1
                        &&& n.current_x == o.current_x - 1
                        &&& res matches InputWinStep::Continue(ops) && ops@ == seq![
                            WindowOp::MoveTo(n.cursor_x),
                            WindowOp::DeleteChar,
                        ]
                    } else {
                        n == o && (res matches InputWinStep::Continue(ops) && ops@.len() == 0)
                    }
                } else if key == KeyCode::Delete {
                    if o.cursor_x < o.current_x {
                        &&& n.text@ == o.text@.remove(i)
                        &&& n.cursor_x == o.cursor_x
                        &&& n.current_x == o.current_x
                        &&& res matches InputWinStep::Continue(ops) && ops@ == seq![WindowOp::DeleteChar]
                    } else {
                        n == o && (res matches InputWinStep::Continue(ops) && ops@.len() == 0)
                    }
                } else if key == KeyCode::Left {
                    if o.cursor_x > o.min_x {
                        &&& n.text@ == o.text@ && n.current_x == o.current_x
                        &&& n.cursor_x == o.cursor_x - 1
                        &&& res matches InputWinStep::Continue(ops) && ops@ == seq![WindowOp::MoveTo(n.cursor_x)]
                    } else {
                        n == o && (res matches InputWinStep::Continue(ops) && ops@.len() == 0)
                    }
                } else if key == KeyCode::Right {
                    if o.cursor_x < o.current_x {
                        &&& n.text@ == o.text@ && n.current_x == o.current_x
                        &&& n.cursor_x == o.cursor_x + 1
                        &&& res matches InputWinStep::Continue(ops) && ops@ == seq![WindowOp::MoveTo(n.cursor_x)]
                    } else {
                        n == o && (res matches InputWinStep::Continue(ops) && ops@.len() == 0)
                    }
                } else if key is Char {
                    let c = key->Char_0;
                    &&& n.text@ == o.text@.push(c)
                    &&& n.cursor_x == o.cursor_x + 1
                    &&& n.current_x == o.current_x + 1
                    &&& res matches InputWinStep::Continue(ops) && ops@ == seq![
                        WindowOp::InsertChar(c),
                        WindowOp::MoveTo(n.cursor_x),
                    ]
                } else {
                    n == o && (res matches InputWinStep::Continue(ops) && ops@.len() == 0)
                }
            }),
    {
        let mut ops: Vec<WindowOp> = Vec::new();
        if key == KeyCode::Esc || key == KeyCode::Char('\u{1b}') {
            return InputWinStep::Cancel;
        }
        if key == KeyCode::Enter || key == KeyCode::Char('\n') {
            return InputWinStep::Submit(crate::text::string_from_chars(&self.text));
        }
        if key == KeyCode::Backspace || key == KeyCode::Char('\u{7f}') {
            if self.current_x > self.min_x {
                self.current_x = self.current_x - 1;
                self.cursor_x = self.cursor_x - 1;
                let _ = self.text.remove((self.cursor_x - self.min_x) as usize);
                ops.push(WindowOp::MoveTo(self.cursor_x));
                ops.push(WindowOp::DeleteChar);
                assert(ops@ =~= seq![WindowOp::MoveTo(self.cursor_x), WindowOp::DeleteChar]);
            }
            return InputWinStep::Continue(ops);
        }
        match key {
            KeyCode::Delete => {
                if self.cursor_x < self.current_x {
                    let _ = self.text.remove((self.cursor_x - self.min_x) as usize);
                    ops.push(WindowOp::DeleteChar);
                    assert(ops@ =~= seq![WindowOp::DeleteChar]);
                }
            },
            KeyCode::Left => {
                if self.cursor_x > self.min_x {
                    self.cursor_x = self.cursor_x - 1;
                    ops.push(WindowOp::MoveTo(self.cursor_x));
                    assert(ops@ =~= seq![WindowOp::MoveTo(self.cursor_x)]);
                }
            },
            KeyCode::Right => {
                if self.cursor_x < self.current_x {
                    self.cursor_x = self.cursor_x + 1;
                    ops.push(WindowOp::MoveTo(self.cursor_x));
                    assert(ops@ =~= seq![WindowOp::MoveTo(self.cursor_x)]);
                }
            },
            KeyCode::Char(c) => {
                self.current_x = self.current_x + 1;
                self.cursor_x = self.cursor_x + 1;
                ops.push(WindowOp::InsertChar(c));
                ops.push(WindowOp::MoveTo(self.cursor_x));
                self.text.push(c);
                assert(ops@ =~= seq![WindowOp::InsertChar(c), WindowOp::MoveTo(self.cursor_x)]);
            },
            _ => {},
        }
        InputWinStep::Continue(ops)
    }
}

} // verus!
