//! Popup windows drawn over the menus: the welcome window (shown while
//! there are no podcasts), the help window listing the keybindings, and
//! the window offering new episodes for download.
//!
//! The help window takes precedence over every other popup; the welcome
//! window has the lowest priority and appears only when no other popup
//! is wanted.

use vstd::prelude::*;
use vstd::string::*;

use super::colors::{AppColors, ColorType};
use super::mock_panel::{
    wrap_write,
    wrap_write_fits,
    LineView,
    Panel,
    A_NORMAL,
    A_UNDERLINE,
    overwrite,
};
use crate::keymap::{views, Keybindings, KeyCode, UserAction};
use crate::text::{pad_left, push_char, push_padded_left, push_spaces, push_str, spaces};

verus! {

/// Which popup window is on screen.
#[derive(Debug, Clone, Copy, PartialEq, Eq, Structural)]
pub enum ActivePopup {
    WelcomeWin,
    HelpWin,
    DownloadWin,
    NoPopup,
}

/// A key name between double quotes.
pub open spec fn quoted(k: Seq<char>) -> Seq<char> {
    seq!['"'] + k + seq!['"']
}

/// Three or more keys, each after `, or ` except the last, which comes
/// after `, `.
pub open spec fn long_phrase(keys: Seq<Seq<char>>, n: int) -> Seq<char>
    decreases n,
{
    if n <= 0 {
        Seq::empty()
    } else {
        long_phrase(keys, n - 1) + (if n - 1 == keys.len() - 1 {
            ", "@
        } else {
            ", or "@
        }) + quoted(keys[n - 1])
    }
}

/// How the welcome window names the keys of an action.
pub open spec fn keys_phrase(keys: Seq<Seq<char>>) -> Seq<char> {
    if keys.len() == 0 {
        "<missing>"@
    } else if keys.len() == 1 {
        quoted(keys[0])
    } else if keys.len() == 2 {
        quoted(keys[0]) + " or "@ + quoted(keys[1])
    } else {
        long_phrase(keys, keys.len() as int)
    }
}

/// The first line of the welcome window.
pub open spec fn welcome_text1() -> Seq<char> {
    "Welcome to shellcaster!"@
}

/// The second paragraph of the welcome window, naming the keys that add
/// a feed, quit, and open the help window.
pub open spec fn welcome_text2(add: Seq<char>, quit: Seq<char>, help: Seq<char>) -> Seq<char> {
    "Your podcast list is currently empty. Press "@ + add + " to add a new podcast feed, "@ + quit
        + " to quit, or see all available commands by typing "@ + help + " to get help."@
}

/// The third paragraph of the welcome window.
pub open spec fn welcome_text3() -> Seq<char> {
    "More details of how to customize shellcaster can be found on the Github repo readme:"@
}

/// The last line of the welcome window.
pub open spec fn welcome_text4() -> Seq<char> {
    "https://github.com/jeff-hughes/shellcaster"@
}

/// The lines of a new panel of `n_row` rows.
pub open spec fn empty_panel(n_row: i32) -> Seq<LineView> {
    Seq::new((n_row - 2) as nat, |i: int| (Seq::<char>::empty(), A_NORMAL, ColorType::Normal))
}

/// The actions listed in the help window, with their labels.
pub open spec fn help_actions() -> Seq<(UserAction, Seq<char>)> {
    seq![
        (UserAction::Left, "Left:"@),
        (UserAction::Right, "Right:"@),
        (UserAction::Up, "Up:"@),
        (UserAction::Down, "Down:"@),
        (UserAction::AddFeed, "Add feed:"@),
        (UserAction::Sync, "Sync:"@),
        (UserAction::SyncAll, "Sync all:"@),
        (UserAction::Play, "Play:"@),
        (UserAction::MarkPlayed, "Mark as played:"@),
        (UserAction::MarkAllPlayed, "Mark all as played:"@),
        (UserAction::Download, "Download:"@),
        (UserAction::DownloadAll, "Download all:"@),
        (UserAction::Delete, "Delete file:"@),
        (UserAction::DeleteAll, "Delete all files:"@),
        (UserAction::Remove, "Remove from list:"@),
        (UserAction::RemoveAll, "Remove all from list:"@),
        (UserAction::Help, "Help:"@),
        (UserAction::Quit, "Quit:"@),
    ]
}

/// A help entry: the label right-aligned in 21 columns, then the first
/// one or two keys of the action.
pub open spec fn help_entry(label: Seq<char>, keys: Seq<Seq<char>>) -> Seq<char> {
    pad_left(label, 21) + if keys.len() == 0 {
        " <missing>"@
    } else if keys.len() == 1 {
        seq![' '] + quoted(keys[0])
    } else {
        seq![' '] + quoted(keys[0]) + " or "@ + quoted(keys[1])
    }
}

/// `s` left-aligned in a field of `width` characters (`{:<width$}`).
pub open spec fn pad_right(s: Seq<char>, width: int) -> Seq<char> {
    if s.len() < width {
        s + spaces((width - s.len()) as nat)
    } else {
        s
    }
}

/// The length of the longest entry.
pub open spec fn longest(entries: Seq<Seq<char>>) -> nat
    decreases entries.len(),
{
    if entries.len() == 0 {
        0
    } else {
        let rest = longest(entries.drop_last());
        if entries.last().len() > rest {
            entries.last().len()
        } else {
            rest
        }
    }
}

/// One line of the help window: entry `i` of each column, the first
/// column padded to leave five spaces before the second.
pub open spec fn help_row(entries: Seq<Seq<char>>, i: int, n_cols: int, per_row: int, width: int, j: int) -> Seq<char>
    decreases j,
{
    if j <= 0 {
        Seq::empty()
    } else {
        let offset = (j - 1) * per_row;
        help_row(entries, i, n_cols, per_row, width, j - 1) + if 0 <= i + offset < entries.len() {
            pad_right(
                entries[i + offset],
                if n_cols > 1 && offset == 0 {
                    width + 5
                } else {
                    width
                },
            )
        } else {
            Seq::empty()
        }
    }
}

/// The closing line of the help window.
pub open spec fn help_closing() -> Seq<char> {
    "Press \"q\" to close this window."@
}

/// Holds the state of the popup windows.
#[derive(Debug)]
pub struct PopupWin<'a> {
    panel: Option<Panel>,
    colors: AppColors,
    keymap: &'a Keybindings,
    total_rows: i32,
    total_cols: i32,
    pub active: ActivePopup,
    pub welcome_win: bool,
    pub help_win: bool,
    pub download_win: bool,
}

impl<'a> PopupWin<'a> {
    /// The keybindings the windows describe.
    pub closed spec fn keys(&self) -> Keybindings {
        *self.keymap
    }

    /// The terminal rows.
    pub closed spec fn rows(&self) -> i32 {
        self.total_rows
    }

    /// The terminal columns.
    pub closed spec fn cols(&self) -> i32 {
        self.total_cols
    }

    /// The colours.
    pub closed spec fn color_scheme(&self) -> AppColors {
        self.colors
    }

    /// The popup window on screen.
    pub closed spec fn on_screen(&self) -> ActivePopup {
        self.active
    }

    /// Whether the welcome, help and download windows are wanted.
    pub closed spec fn wanted(&self) -> (bool, bool, bool) {
        (self.welcome_win, self.help_win, self.download_win)
    }

    /// The lines of the popup on screen, if any.
    pub closed spec fn shown(&self) -> Option<Seq<LineView>> {
        match self.panel {
            Some(p) => Some(p.view_lines()),
            None => None,
        }
    }

    /// The welcome window's four steps of writing, from its empty panel.
    pub open spec fn welcome_steps(&self) -> Seq<(Seq<LineView>, int)> {
        let n_row = (self.rows() - 1) as i32;
        let n_col = self.cols();
        let t2 = welcome_text2(
            keys_phrase(self.keys().key_list(UserAction::AddFeed)),
            keys_phrase(self.keys().key_list(UserAction::Quit)),
            keys_phrase(self.keys().key_list(UserAction::Help)),
        );
        let s1 = wrap_write(empty_panel(n_row), 1, welcome_text1(), n_row, n_col);
        let s2 = wrap_write(s1.0, s1.1 + 2, t2, n_row, n_col);
        let s3 = wrap_write(s2.0, s2.1 + 2, welcome_text3(), n_row, n_col);
        let s4 = wrap_write(s3.0, s3.1 + 1, welcome_text4(), n_row, n_col);
        seq![(empty_panel(n_row), 0), s1, s2, s3, s4]
    }

    /// The lines of the welcome window.
    pub open spec fn welcome_lines(&self) -> Seq<LineView> {
        self.welcome_steps()[4].0
    }

    /// The terminal is large enough for the welcome window to be laid
    /// out.
    pub open spec fn welcome_fits(&self) -> bool {
        let n_row = (self.rows() - 1) as i32;
        let n_col = self.cols();
        let st = self.welcome_steps();
        let len = n_row - 2;
        let t2 = welcome_text2(
            keys_phrase(self.keys().key_list(UserAction::AddFeed)),
            keys_phrase(self.keys().key_list(UserAction::Quit)),
            keys_phrase(self.keys().key_list(UserAction::Help)),
        );
        &&& self.rows() - 1 >= 2
        &&& wrap_write_fits(len, 1, welcome_text1(), n_row, n_col)
        &&& wrap_write_fits(len, st[1].1 + 2, t2, n_row, n_col)
        &&& wrap_write_fits(len, st[2].1 + 2, welcome_text3(), n_row, n_col)
        &&& wrap_write_fits(len, st[3].1 + 1, welcome_text4(), n_row, n_col)
    }

    /// The help entries, in the order of `help_actions`.
    pub open spec fn help_entries(&self) -> Seq<Seq<char>> {
        help_actions().map_values(
            |a: (UserAction, Seq<char>)| help_entry(a.1, self.keys().key_list(a.0)),
        )
    }

    /// The number of columns of entries: two when the panel is wide
    /// enough for two of the longest entry and five spaces, else one.
    pub open spec fn help_columns(&self) -> int {
        let longest_line = longest(self.help_entries());
        if self.cols() - 5 > ((longest_line * 2 + 5) as usize) as i32 {
            2
        } else {
            1
        }
    }

    /// The lines of the help window's list of keys.
    pub open spec fn help_rows(&self) -> Seq<Seq<char>> {
        let n_cols = self.help_columns();
        let per_row = 18int / n_cols;
        Seq::new(
            per_row as nat,
            |i: int| help_row(self.help_entries(), i, n_cols, per_row, longest(self.help_entries()) as int, n_cols),
        )
    }

    /// The help window's steps: the heading, the heading underlined, the
    /// list of keys, and the closing line.
    pub open spec fn help_steps(&self) -> Seq<(Seq<LineView>, int)> {
        let n_row = (self.rows() - 1) as i32;
        let n_col = self.cols();
        let s1 = wrap_write(empty_panel(n_row), 1, "Available keybindings:"@, n_row, n_col);
        let s2 = s1.0.update(s1.1, (s1.0[s1.1].0, A_UNDERLINE, ColorType::Normal));
        let rows = self.help_rows();
        let s3 = overwrite(s2, s1.1 + 2, rows, rows.len() as int);
        let s4 = wrap_write(s3, s1.1 + 1 + rows.len() + 2, help_closing(), n_row, n_col);
        seq![s1, (s2, s1.1 + 1), (s3, s1.1 + 1 + rows.len()), s4]
    }

    /// The lines of the help window.
    pub open spec fn help_lines(&self) -> Seq<LineView> {
        self.help_steps()[3].0
    }

    /// The terminal is large enough for the help window to be laid out.
    pub open spec fn help_fits(&self) -> bool {
        let n_row = (self.rows() - 1) as i32;
        let n_col = self.cols();
        let len = n_row - 2;
        let st = self.help_steps();
        &&& self.rows() - 1 >= 2
        &&& self.cols() >= i32::MIN + 5
        &&& longest(self.help_entries()) * 2 + 5 <= usize::MAX
        &&& wrap_write_fits(len, 1, "Available keybindings:"@, n_row, n_col)
        &&& 0 <= st[0].1 < len
        &&& st[0].1 + 1 + self.help_rows().len() < len
        &&& wrap_write_fits(len, st[2].1 + 2, help_closing(), n_row, n_col)
    }

    /// Popup windows over a terminal of `total_rows` by `total_cols`,
    /// none of them shown.
    pub fn new(colors: AppColors, keymap: &'a Keybindings, total_rows: i32, total_cols: i32) -> (res: Self)
        ensures
            res.keys() == *keymap,
            res.rows() == total_rows,
            res.cols() == total_cols,
            res.color_scheme() == colors,
            res.shown() is None,
            res.on_screen() == ActivePopup::NoPopup,
            res.wanted() == (false, false, false),
    {
        Self {
            panel: None,
            colors: colors,
            keymap: keymap,
            total_rows: total_rows,
            total_cols: total_cols,
            active: ActivePopup::NoPopup,
            welcome_win: false,
            help_win: false,
            download_win: false,
        }
    }

    /// Whether any popup window is wanted on screen.
    pub fn is_popup_active(&self) -> (res: bool)
        ensures
            res == (self.wanted().0 || self.wanted().1 || self.wanted().2),
    {
        self.welcome_win || self.help_win || self.download_win
    }

    /// The panel of the popup window on screen, if any: its lines are
    /// those shown.
    pub fn shown_panel(&self) -> (res: &Option<Panel>)
        ensures
            match *res {
                Some(p) => self.shown() == Some(p.view_lines()),
                None => self.shown() is None,
            },
    {
        &self.panel
    }

    /// Whether the welcome window is wanted on screen.
    pub fn welcome_wanted(&self) -> (res: bool)
        ensures
            res == self.wanted().0,
    {
        self.welcome_win
    }

    /// Whether a popup other than the welcome window is wanted on screen.
    pub fn is_non_welcome_popup_active(&self) -> (res: bool)
        ensures
            res == (self.wanted().1 || self.wanted().2),
    {
        self.help_win || self.download_win
    }
}

/// Appends the phrase naming a list of keys.
pub(crate) fn push_keys_phrase(out: &mut String, keys: &Vec<String>)
    ensures
        final(out)@ == old(out)@ + keys_phrase(views(keys@)),
{
    let ghost kv = views(keys@);
    let n = keys.len();
    if n == 0 {
        push_str(out, "<missing>");
    } else if n == 1 {
        push_char(out, '"');
        push_str(out, keys[0].as_str());
        push_char(out, '"');
        assert(out@ =~= old(out)@ + keys_phrase(kv));
    } else if n == 2 {
        push_char(out, '"');
        push_str(out, keys[0].as_str());
        push_char(out, '"');
        push_str(out, " or ");
        push_char(out, '"');
        push_str(out, keys[1].as_str());
        push_char(out, '"');
        assert(out@ =~= old(out)@ + keys_phrase(kv));
    } else {
        let ghost start = out@;
        let mut i: usize = 0;
        while i < n
            invariant
                i <= n,
                n == keys@.len(),
                n >= 3,
                kv == views(keys@),
                out@ == start + long_phrase(kv, i as int),
            decreases n - i,
        {
            if i == n - 1 {
                push_str(out, ", ");
            } else {
                push_str(out, ", or ");
            }
            push_char(out, '"');
            push_str(out, keys[i].as_str());
            push_char(out, '"');
            i = i + 1;
            assert(out@ =~= start + long_phrase(kv, i as int));
        }
    }
}

/// Appends a help entry for an action.
fn push_help_entry(out: &mut String, label: &str, keys: &Vec<String>)
    ensures
        final(out)@ == old(out)@ + help_entry(label@, views(keys@)),
{
    let ghost start = out@;
    let l = String::from_str(label);
    push_padded_left(out, &l, 21);
    let n = keys.len();
    if n == 0 {
        push_str(out, " <missing>");
    } else if n == 1 {
        push_char(out, ' ');
        push_char(out, '"');
        push_str(out, keys[0].as_str());
        push_char(out, '"');
    } else {
        push_char(out, ' ');
        push_char(out, '"');
        push_str(out, keys[0].as_str());
        push_char(out, '"');
        push_str(out, " or ");
        push_char(out, '"');
        push_str(out, keys[1].as_str());
        push_char(out, '"');
    }
    assert(out@ =~= start + help_entry(label@, views(keys@)));
}

/// Appends `s` left-aligned in a field of `width` characters.
fn push_padded_right(out: &mut String, s: &String, width: usize)
    ensures
        final(out)@ == old(out)@ + pad_right(s@, width as int),
{
    let n = s.as_str().unicode_len();
    push_str(out, s.as_str());
    if n < width {
        push_spaces(out, width - n);
    }
}


impl<'a> PopupWin<'a> {
    /// The welcome window: its lines are `welcome_lines`.
    pub fn make_welcome_win(&self) -> (res: Panel)
        requires
            self.welcome_fits(),
        ensures
            res.view_lines() == self.welcome_lines(),
            res.title@ == "Shellcaster"@,
            res.n_row == self.rows() - 1,
            res.n_col == self.cols(),
            res.colors == self.color_scheme(),
            res.screen_pos == 0,
    {
        let add = self.keymap.keys_for_action(UserAction::AddFeed);
        let quit = self.keymap.keys_for_action(UserAction::Quit);
        let help = self.keymap.keys_for_action(UserAction::Help);
        let mut text2 = String::new();
        push_str(&mut text2, "Your podcast list is currently empty. Press ");
        push_keys_phrase(&mut text2, &add);
        push_str(&mut text2, " to add a new podcast feed, ");
        push_keys_phrase(&mut text2, &quit);
        push_str(&mut text2, " to quit, or see all available commands by typing ");
        push_keys_phrase(&mut text2, &help);
        push_str(&mut text2, " to get help.");
        let ghost t2 = welcome_text2(
            keys_phrase(self.keys().key_list(UserAction::AddFeed)),
            keys_phrase(self.keys().key_list(UserAction::Quit)),
            keys_phrase(self.keys().key_list(UserAction::Help)),
        );
        assert(text2@ =~= t2);
        let ghost st = self.welcome_steps();
        let mut win = Panel::new(
            self.colors,
            String::from_str("Shellcaster"),
            0,
            self.total_rows - 1,
            self.total_cols,
            0,
            0,
        );
        assert(win.view_lines() =~= empty_panel((self.total_rows - 1) as i32));
        let row = win.write_wrap_line(1, String::from_str("Welcome to shellcaster!"));
        assert(win.view_lines() == st[1].0 && row == st[1].1);
        let row = win.write_wrap_line(row + 2, text2);
        assert(win.view_lines() == st[2].0 && row == st[2].1);
        let row = win.write_wrap_line(
            row + 2,
            String::from_str(
                "More details of how to customize shellcaster can be found on the Github repo readme:",
            ),
        );
        assert(win.view_lines() == st[3].0 && row == st[3].1);
        let _ = win.write_wrap_line(
            row + 1,
            String::from_str("https://github.com/jeff-hughes/shellcaster"),
        );
        win
    }

    /// The welcome window, when the terminal is large enough for it;
    /// otherwise `None`.
    pub fn try_make_welcome_win(&self) -> (res: Option<Panel>)
        ensures
            res is Some <==> self.welcome_fits(),
            res matches Some(p) ==> p.view_lines() == self.welcome_lines() && p.n_row == self.rows()
                - 1 && p.n_col == self.cols() && p.colors == self.color_scheme(),
    {
        if self.total_rows < 3 || self.total_cols < i32::MIN + 5 {
            return None;
        }
        let n_row = self.total_rows - 1;
        let n_col = self.total_cols;
        let len: i32 = n_row - 2;
        let add = self.keymap.keys_for_action(UserAction::AddFeed);
        let quit = self.keymap.keys_for_action(UserAction::Quit);
        let help = self.keymap.keys_for_action(UserAction::Help);
        let mut text2 = String::new();
        push_str(&mut text2, "Your podcast list is currently empty. Press ");
        push_keys_phrase(&mut text2, &add);
        push_str(&mut text2, " to add a new podcast feed, ");
        push_keys_phrase(&mut text2, &quit);
        push_str(&mut text2, " to quit, or see all available commands by typing ");
        push_keys_phrase(&mut text2, &help);
        push_str(&mut text2, " to get help.");
        let ghost t2 = welcome_text2(
            keys_phrase(self.keys().key_list(UserAction::AddFeed)),
            keys_phrase(self.keys().key_list(UserAction::Quit)),
            keys_phrase(self.keys().key_list(UserAction::Help)),
        );
        assert(text2@ =~= t2);
        let mut probe = Panel::new(self.colors, String::new(), 0, n_row, n_col, 0, 0);
        assert(probe.view_lines() =~= empty_panel(n_row));
        let ghost st = self.welcome_steps();
        let r1 = match probe.try_write_wrap_line(1, String::from_str("Welcome to shellcaster!")) {
            Some(r) => r,
            None => {
                return None;
            },
        };
        assert(probe.view_lines() == st[1].0 && r1 == st[1].1);
        if r1 > i32::MAX - 2 {
            return None;
        }
        let r2 = match probe.try_write_wrap_line(r1 + 2, text2) {
            Some(r) => r,
            None => {
                return None;
            },
        };
        assert(probe.view_lines() == st[2].0 && r2 == st[2].1);
        if r2 > i32::MAX - 2 {
            return None;
        }
        let r3 = match probe.try_write_wrap_line(
            r2 + 2,
            String::from_str(
                "More details of how to customize shellcaster can be found on the Github repo readme:",
            ),
        ) {
            Some(r) => r,
            None => {
                return None;
            },
        };
        assert(probe.view_lines() == st[3].0 && r3 == st[3].1);
        if r3 > i32::MAX - 1 {
            return None;
        }
        match probe.try_write_wrap_line(
            r3 + 1,
            String::from_str("https://github.com/jeff-hughes/shellcaster"),
        ) {
            Some(_) => {},
            None => {
                return None;
            },
        }
        assert(self.welcome_fits());
        Some(self.make_welcome_win())
    }
}


/// The views of the (action, label) pairs of the help window.
pub open spec fn label_views(v: Seq<(UserAction, &str)>) -> Seq<(UserAction, Seq<char>)> {
    v.map_values(|a: (UserAction, &str)| (a.0, a.1@))
}

/// The actions listed in the help window, with their labels.
fn help_action_list() -> (res: Vec<(UserAction, &'static str)>)
    ensures
        label_views(res@) == help_actions(),
{
    let v = vec![
        (UserAction::Left, "Left:"),
        (UserAction::Right, "Right:"),
        (UserAction::Up, "Up:"),
        (UserAction::Down, "Down:"),
        (UserAction::AddFeed, "Add feed:"),
        (UserAction::Sync, "Sync:"),
        (UserAction::SyncAll, "Sync all:"),
        (UserAction::Play, "Play:"),
        (UserAction::MarkPlayed, "Mark as played:"),
        (UserAction::MarkAllPlayed, "Mark all as played:"),
        (UserAction::Download, "Download:"),
        (UserAction::DownloadAll, "Download all:"),
        (UserAction::Delete, "Delete file:"),
        (UserAction::DeleteAll, "Delete all files:"),
        (UserAction::Remove, "Remove from list:"),
        (UserAction::RemoveAll, "Remove all from list:"),
        (UserAction::Help, "Help:"),
        (UserAction::Quit, "Quit:"),
    ];
    assert(label_views(v@) =~= help_actions());
    v
}

impl<'a> PopupWin<'a> {
    /// The help entries, one per action of `help_actions`, and the length
    /// of the longest.
    fn help_entry_list(&self) -> (res: (Vec<String>, usize))
        ensures
            views(res.0@) == self.help_entries(),
            res.1 == longest(self.help_entries()),
    {
        let actions = help_action_list();
        let ghost all = self.help_entries();
        let mut entries: Vec<String> = Vec::new();
        let mut longest_line: usize = 0;
        let mut i: usize = 0;
        while i < actions.len()
            invariant
                i <= actions@.len(),
                label_views(actions@) == help_actions(),
                all == self.help_entries(),
                all.len() == actions@.len(),
                views(entries@) == all.take(i as int),
                longest_line == longest(all.take(i as int)),
            decreases actions.len() - i,
        {
            let (action, label) = actions[i];
            let keys = self.keymap.keys_for_action(action);
            let mut e = String::new();
            push_help_entry(&mut e, label, &keys);
            assert(label_views(actions@)[i as int] == (action, label@));
            assert(e@ == all[i as int]);
            let n = e.as_str().unicode_len();
            if n > longest_line {
                longest_line = n;
            }
            entries.push(e);
            i = i + 1;
            assert(all.take(i as int).drop_last() =~= all.take(i - 1));
            assert(views(entries@) =~= all.take(i as int));
        }
        assert(all.take(i as int) =~= all);
        (entries, longest_line)
    }
}


impl<'a> PopupWin<'a> {
    /// The line of help row `i`: entry `i` of each column, padded.
    fn help_line(entries: &Vec<String>, i: i32, n_cols: i32, per_row: i32, longest_line: usize) -> (res: String)
        requires
            0 <= i < per_row <= 18,
            1 <= n_cols <= 2,
            per_row * n_cols <= 18,
            longest_line + 5 <= usize::MAX,
        ensures
            res@ == help_row(views(entries@), i as int, n_cols as int, per_row as int, longest_line as int, n_cols as int),
    {
        let ghost ev = views(entries@);
        let mut line = String::new();
        let mut j: i32 = 0;
        while j < n_cols
            invariant
                0 <= j <= n_cols,
                0 <= i < per_row <= 18,
                1 <= n_cols <= 2,
                per_row * n_cols <= 18,
                longest_line + 5 <= usize::MAX,
                ev == views(entries@),
                line@ == help_row(ev, i as int, n_cols as int, per_row as int, longest_line as int, j as int),
            decreases n_cols - j,
        {
            assert(j * per_row <= 18) by (nonlinear_arith)
                requires
                    0 <= j < n_cols,
                    per_row * n_cols <= 18,
                    0 <= per_row,
            ;
            let offset = j * per_row;
            let idx = i + offset;
            if (idx as usize) < entries.len() {
                let width = if n_cols > 1 && offset == 0 {
                    longest_line + 5
                } else {
                    longest_line
                };
                push_padded_right(&mut line, &entries[idx as usize], width);
            }
            j = j + 1;
        }
        line
    }

    /// The help window: its lines are `help_lines`.
    pub fn make_help_win(&self) -> (res: Panel)
        requires
            self.help_fits(),
        ensures
            res.view_lines() == self.help_lines(),
            res.title@ == "Help"@,
            res.n_row == self.rows() - 1,
            res.n_col == self.cols(),
            res.colors == self.color_scheme(),
            res.screen_pos == 0,
    {
        let (entries, longest_line) = self.help_entry_list();
        let ghost ev = views(entries@);
        let ghost st = self.help_steps();
        let ghost rows = self.help_rows();
        let mut win = Panel::new(
            self.colors,
            String::from_str("Help"),
            0,
            self.total_rows - 1,
            self.total_cols,
            0,
            0,
        );
        assert(win.view_lines() =~= empty_panel((self.total_rows - 1) as i32));
        let mut row = win.write_wrap_line(1, String::from_str("Available keybindings:"));
        assert(win.view_lines() == st[0].0 && row == st[0].1);
        win.change_attr(row, 0, 22, A_UNDERLINE, ColorType::Normal);
        row = row + 1;
        assert(win.view_lines() == st[1].0);
        let n_cols: i32 = if win.get_cols() > (longest_line * 2 + 5) as i32 {
            2
        } else {
            1
        };
        assert(n_cols == self.help_columns());
        let keys_per_row: i32 = 18 / n_cols;
        assert(rows.len() == keys_per_row);
        let ghost start = st[1].0;
        let ghost top = row;
        let mut i: i32 = 0;
        while i < keys_per_row
            invariant
                0 <= i <= keys_per_row,
                keys_per_row == 18i32 / n_cols,
                1 <= n_cols <= 2,
                n_cols == self.help_columns(),
                longest_line == longest(self.help_entries()),
                longest_line * 2 + 5 <= usize::MAX,
                ev == views(entries@),
                ev == self.help_entries(),
                rows == self.help_rows(),
                rows.len() == keys_per_row,
                top == st[0].1 + 1,
                row == top + i,
                top + rows.len() < win.window@.len(),
                0 <= top,
                win.view_lines() == overwrite(start, top + 1, rows, i as int),
                win.window@.len() == start.len(),
                win.window@.len() == self.rows() - 3,
                win.n_row == self.rows() - 1,
                win.n_col == self.cols(),
                win.title@ == "Help"@,
                win.colors == self.color_scheme(),
                win.screen_pos == 0,
            decreases keys_per_row - i,
        {
            let line = Self::help_line(&entries, i, n_cols, keys_per_row, longest_line);
            assert(line@ == rows[i as int]);
            let ghost before = win.view_lines();
            win.write_line(row + 1, line);
            assert(win.view_lines() =~= overwrite(start, top + 1, rows, i + 1));
            row = row + 1;
            i = i + 1;
        }
        assert(win.view_lines() == st[2].0 && row == st[2].1);
        let _ = win.write_wrap_line(row + 2, String::from_str("Press \"q\" to close this window."));
        win
    }
}


impl<'a> PopupWin<'a> {
    /// The help window, when the terminal is large enough for it;
    /// otherwise `None`.
    pub fn try_make_help_win(&self) -> (res: Option<Panel>)
        ensures
            res is Some <==> self.help_fits(),
            res matches Some(p) ==> p.view_lines() == self.help_lines() && p.n_row == self.rows() - 1
                && p.n_col == self.cols() && p.colors == self.color_scheme(),
    {
        if self.total_rows < 3 || self.total_cols < i32::MIN + 5 {
            return None;
        }
        let (_entries, longest_line) = self.help_entry_list();
        if longest_line > (usize::MAX - 5) / 2 {
            return None;
        }
        let n_row = self.total_rows - 1;
        let n_col = self.total_cols;
        let len: i32 = n_row - 2;
        let ghost st = self.help_steps();
        let mut probe = Panel::new(self.colors, String::new(), 0, n_row, n_col, 0, 0);
        assert(probe.view_lines() =~= empty_panel(n_row));
        let r0 = match probe.try_write_wrap_line(1, String::from_str("Available keybindings:")) {
            Some(r) => r,
            None => {
                return None;
            },
        };
        assert(r0 == st[0].1);
        if r0 < 0 || r0 >= len {
            return None;
        }
        let n_cols: i32 = if n_col - 5 > (longest_line * 2 + 5) as i32 {
            2
        } else {
            1
        };
        assert(n_cols == self.help_columns());
        let per_row: i32 = 18 / n_cols;
        assert(self.help_rows().len() == per_row);
        if (r0 as i64) + 1 + (per_row as i64) >= (len as i64) {
            return None;
        }
        match probe.try_write_wrap_line(
            r0 + 1 + per_row + 2,
            String::from_str("Press \"q\" to close this window."),
        ) {
            Some(_) => {},
            None => {
                return None;
            },
        }
        assert(self.help_fits());
        Some(self.make_help_win())
    }
}


/// Keys that close the help window: Esc, `q` and `Q`.
pub open spec fn closes_help(input: Option<KeyCode>) -> bool {
    match input {
        Some(KeyCode::Esc) => true,
        Some(KeyCode::Char(c)) => c == '\u{1b}' || c == 'q' || c == 'Q',
        _ => false,
    }
}

impl<'a> PopupWin<'a> {
    /// The lines of a window too large for the terminal: the window
    /// takes the terminal's rows (less the message line) with its lines
    /// left empty, or has no lines when the terminal has fewer than three
    /// rows.
    pub open spec fn blank_lines(&self) -> Option<Seq<LineView>> {
        if self.rows() - 1 >= 2 {
            Some(empty_panel((self.rows() - 1) as i32))
        } else {
            None
        }
    }

    /// The lines the help window shows: `help_lines` when they fit the
    /// terminal, else `blank_lines`.
    pub open spec fn help_shown(&self) -> Option<Seq<LineView>> {
        if self.help_fits() {
            Some(self.help_lines())
        } else {
            self.blank_lines()
        }
    }

    /// The lines the welcome window shows: `welcome_lines` when they fit
    /// the terminal, else `blank_lines`.
    pub open spec fn welcome_shown(&self) -> Option<Seq<LineView>> {
        if self.welcome_fits() {
            Some(self.welcome_lines())
        } else {
            self.blank_lines()
        }
    }

    /// What is on screen once the wanted windows are `w` = (welcome,
    /// help, download): the help window takes precedence over all
    /// others and stays while it is wanted; the download window comes
    /// next (it is never drawn, so the screen stays as it is); the
    /// welcome window appears only when no other is wanted; with none
    /// wanted the screen is cleared.
    pub open spec fn next_screen_for(&self, w: (bool, bool, bool)) -> (ActivePopup, Option<Seq<LineView>>) {
        let (welcome, help, download) = w;
        let active = self.on_screen();
        if help {
            if active != ActivePopup::HelpWin {
                (ActivePopup::HelpWin, self.help_shown())
            } else {
                (active, self.shown())
            }
        } else if download {
            (active, self.shown())
        } else if welcome {
            if active != ActivePopup::WelcomeWin {
                (ActivePopup::WelcomeWin, self.welcome_shown())
            } else {
                (active, self.shown())
            }
        } else if active != ActivePopup::NoPopup {
            (ActivePopup::NoPopup, None)
        } else {
            (active, self.shown())
        }
    }

    /// The settings that no change of popup touches are those of `old`.
    pub open spec fn same_settings(&self, old: &Self) -> bool {
        &&& self.keys() == old.keys()
        &&& self.rows() == old.rows()
        &&& self.cols() == old.cols()
        &&& self.color_scheme() == old.color_scheme()
    }

    /// A window with empty lines over the terminal (see `blank_lines`).
    fn blank_win(&self) -> (res: Option<Panel>)
        ensures
            match res {
                Some(p) => self.blank_lines() == Some(p.view_lines()),
                None => self.blank_lines() is None,
            },
    {
        if self.total_rows >= 3 {
            let p = Panel::new(self.colors, String::new(), 0, self.total_rows - 1, self.total_cols, 0, 0);
            assert(p.view_lines() =~= empty_panel((self.total_rows - 1) as i32));
            Some(p)
        } else {
            None
        }
    }

    /// The help window, laid out for the terminal: see `help_shown`.
    fn help_win_for_screen(&self) -> (res: Option<Panel>)
        ensures
            match res {
                Some(p) => self.help_shown() == Some(p.view_lines()),
                None => self.help_shown() is None,
            },
    {
        match self.try_make_help_win() {
            Some(p) => Some(p),
            None => self.blank_win(),
        }
    }

    /// The welcome window, laid out for the terminal: see
    /// `welcome_shown`.
    fn welcome_win_for_screen(&self) -> (res: Option<Panel>)
        ensures
            match res {
                Some(p) => self.welcome_shown() == Some(p.view_lines()),
                None => self.welcome_shown() is None,
            },
    {
        match self.try_make_welcome_win() {
            Some(p) => Some(p),
            None => self.blank_win(),
        }
    }

    /// Puts on screen the window that the wanted windows call for.
    fn change_win(&mut self)
        ensures
            final(self).same_settings(old(self)),
            final(self).wanted() == old(self).wanted(),
            final(self).on_screen() == old(self).next_screen_for(old(self).wanted()).0,
            final(self).shown() == old(self).next_screen_for(old(self).wanted()).1,
    {
        if self.help_win {
            if self.active != ActivePopup::HelpWin {
                let win = self.help_win_for_screen();
                if let Some(w) = &win {
                    w.refresh();
                }
                self.panel = win;
                self.active = ActivePopup::HelpWin;
            }
        } else if self.download_win {
        } else if self.welcome_win {
            if self.active != ActivePopup::WelcomeWin {
                let win = self.welcome_win_for_screen();
                if let Some(w) = &win {
                    w.refresh();
                }
                self.panel = win;
                self.active = ActivePopup::WelcomeWin;
            }
        } else if self.active != ActivePopup::NoPopup {
            self.panel = None;
            self.active = ActivePopup::NoPopup;
        }
    }

    /// Asks for the welcome window and updates the screen.
    pub fn spawn_welcome_win(&mut self)
        ensures
            final(self).same_settings(old(self)),
            final(self).wanted() == (true, old(self).wanted().1, old(self).wanted().2),
            final(self).on_screen() == old(self).next_screen_for(final(self).wanted()).0,
            final(self).shown() == old(self).next_screen_for(final(self).wanted()).1,
            !old(self).wanted().1 && !old(self).wanted().2 && old(self).on_screen()
                != ActivePopup::WelcomeWin ==> final(self).on_screen() == ActivePopup::WelcomeWin
                && final(self).shown() == old(self).welcome_shown(),
            old(self).wanted().1 ==> final(self).on_screen() == ActivePopup::HelpWin,
    {
        self.welcome_win = true;
        self.change_win();
    }

    /// Asks for the help window and updates the screen; the help window
    /// comes over any other.
    pub fn spawn_help_win(&mut self)
        ensures
            final(self).same_settings(old(self)),
            final(self).wanted() == (old(self).wanted().0, true, old(self).wanted().2),
            final(self).on_screen() == old(self).next_screen_for(final(self).wanted()).0,
            final(self).shown() == old(self).next_screen_for(final(self).wanted()).1,
            final(self).on_screen() == ActivePopup::HelpWin,
            old(self).on_screen() != ActivePopup::HelpWin ==> final(self).shown() == old(self).help_shown(),
            old(self).on_screen() == ActivePopup::HelpWin ==> final(self).shown() == old(self).shown(),
    {
        self.help_win = true;
        self.change_win();
    }

    /// Withdraws the welcome window and updates the screen.
    pub fn turn_off_welcome_win(&mut self)
        ensures
            final(self).same_settings(old(self)),
            final(self).wanted() == (false, old(self).wanted().1, old(self).wanted().2),
            final(self).on_screen() == old(self).next_screen_for(final(self).wanted()).0,
            final(self).shown() == old(self).next_screen_for(final(self).wanted()).1,
    {
        self.welcome_win = false;
        self.change_win();
    }

    /// Withdraws the help window and updates the screen: the window kept
    /// in reserve beneath it comes back.
    pub fn turn_off_help_win(&mut self)
        ensures
            final(self).same_settings(old(self)),
            final(self).wanted() == (old(self).wanted().0, false, old(self).wanted().2),
            final(self).on_screen() == old(self).next_screen_for(final(self).wanted()).0,
            final(self).shown() == old(self).next_screen_for(final(self).wanted()).1,
            old(self).on_screen() == ActivePopup::HelpWin && old(self).wanted().0
                && !old(self).wanted().2 ==> final(self).on_screen() == ActivePopup::WelcomeWin
                && final(self).shown() == old(self).welcome_shown(),
            old(self).on_screen() == ActivePopup::HelpWin && !old(self).wanted().0
                && !old(self).wanted().2 ==> final(self).on_screen() == ActivePopup::NoPopup
                && final(self).shown() is None,
    {
        self.help_win = false;
        self.change_win();
    }

    /// Takes on a new terminal size and lays the window on screen out
    /// again (see `help_shown` and `welcome_shown`).
    pub fn resize(&mut self, total_rows: i32, total_cols: i32)
        ensures
            final(self).rows() == total_rows,
            final(self).cols() == total_cols,
            final(self).keys() == old(self).keys(),
            final(self).color_scheme() == old(self).color_scheme(),
            final(self).wanted() == old(self).wanted(),
            final(self).on_screen() == old(self).on_screen(),
            final(self).shown() == if old(self).on_screen() == ActivePopup::WelcomeWin {
                final(self).welcome_shown()
            } else if old(self).on_screen() == ActivePopup::HelpWin {
                final(self).help_shown()
            } else {
                old(self).shown()
            },
    {
        self.total_rows = total_rows;
        self.total_cols = total_cols;
        match self.active {
            ActivePopup::WelcomeWin => {
                let win = self.welcome_win_for_screen();
                if let Some(w) = &win {
                    w.refresh();
                }
                self.panel = win;
            },
            ActivePopup::HelpWin => {
                let win = self.help_win_for_screen();
                if let Some(w) = &win {
                    w.refresh();
                }
                self.panel = win;
            },
            ActivePopup::DownloadWin => {},
            ActivePopup::NoPopup => {},
        }
    }

    /// Handles a key pressed while a popup is on screen: Esc, `q` or `Q`
    /// closes the help window.
    pub fn handle_input(&mut self, input: Option<KeyCode>)
        ensures
            final(self).same_settings(old(self)),
            if old(self).on_screen() == ActivePopup::HelpWin && closes_help(input) {
                &&& final(self).wanted() == (old(self).wanted().0, false, old(self).wanted().2)
                &&& final(self).on_screen() == old(self).next_screen_for(final(self).wanted()).0
                &&& final(self).shown() == old(self).next_screen_for(final(self).wanted()).1
            } else {
                &&& final(self).wanted() == old(self).wanted()
                &&& final(self).on_screen() == old(self).on_screen()
                &&& final(self).shown() == old(self).shown()
            },
    {
        if self.active == ActivePopup::HelpWin {
            match input {
                Some(KeyCode::Esc) => self.turn_off_help_win(),
                Some(KeyCode::Char(c)) => {
                    if c == '\u{1b}' || c == 'q' || c == 'Q' {
                        self.turn_off_help_win();
                    }
                },
                Some(_) => {},
                None => {},
            }
        }
    }
}


/// The help window comes over every other window: whenever it is
/// wanted, it is the one on screen after a change, whether it was on
/// screen before or not.
pub proof fn law_help_first(p: PopupWin, w: (bool, bool, bool))
    requires
        w.1,
    ensures
        p.next_screen_for(w).0 == ActivePopup::HelpWin,
{
}

/// The welcome window has the lowest priority: it is put on screen
/// only when neither the help window nor the download window is wanted.
pub proof fn law_welcome_last(p: PopupWin, w: (bool, bool, bool))
    requires
        p.on_screen() != ActivePopup::WelcomeWin,
        p.next_screen_for(w).0 == ActivePopup::WelcomeWin,
    ensures
        !w.1 && !w.2,
{
}

/// With no window wanted, the screen is cleared.
pub proof fn law_nothing_wanted_clears(p: PopupWin)
    ensures
        p.next_screen_for((false, false, false)) == if p.on_screen() == ActivePopup::NoPopup {
            (p.on_screen(), p.shown())
        } else {
            (ActivePopup::NoPopup, None)
        },
{
}

} // verus!
