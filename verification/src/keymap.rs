//! User actions and the keybindings that trigger them.
//!
//! A `Keybindings` value maps key names (such as `"Left"` or `"q"`) to
//! the `UserAction` they perform. Several keys may perform the same
//! action, but a key performs at most one action: the value is a map
//! from key names to actions.

use vstd::prelude::*;
use vstd::string::*;

use crate::config::KeybindingsFromToml;
use crate::text::{decimal, decimal_chars, push_char};

verus! {

/// Every action that a user can perform, and can therefore be bound to
/// keys.
#[derive(Debug, Clone, Copy, PartialEq, Eq, Hash, Structural)]
pub enum UserAction {
    Left,
    Right,
    Up,
    Down,
    BigUp,
    BigDown,
    PageUp,
    PageDown,
    GoTop,
    GoBot,
    AddFeed,
    Sync,
    SyncAll,
    Play,
    MarkPlayed,
    MarkAllPlayed,
    Download,
    DownloadAll,
    Delete,
    DeleteAll,
    Remove,
    RemoveAll,
    FilterPlayed,
    FilterDownloaded,
    Help,
    Quit,
}

/// A key as read from the terminal.
#[derive(Debug, Clone, Copy, PartialEq, Eq, Structural)]
pub enum KeyCode {
    Backspace,
    Enter,
    Left,
    Right,
    Up,
    Down,
    Home,
    End,
    PageUp,
    PageDown,
    Tab,
    BackTab,
    Delete,
    Insert,
    F(u8),
    Char(char),
    Null,
    Esc,
    /// Any other key (lock keys, media keys, modifier keys, ...).
    Other,
}

/// The name of a key, as used in keybindings; `None` for keys that
/// have no name.
pub open spec fn spec_input_to_str(input: KeyCode) -> Option<Seq<char>> {
    match input {
        KeyCode::Backspace => Some("Backspace"@),
        KeyCode::Enter => Some("Enter"@),
        KeyCode::Left => Some("Left"@),
        KeyCode::Right => Some("Right"@),
        KeyCode::Up => Some("Up"@),
        KeyCode::Down => Some("Down"@),
        KeyCode::Home => Some("Home"@),
        KeyCode::End => Some("End"@),
        KeyCode::PageUp => Some("PgUp"@),
        KeyCode::PageDown => Some("PgDn"@),
        KeyCode::Tab => Some("Tab"@),
        KeyCode::BackTab => Some("S_Tab"@),
        KeyCode::Delete => Some("Del"@),
        KeyCode::Insert => Some("Ins"@),
        KeyCode::Esc => Some("Esc"@),
        KeyCode::F(num) => Some(seq!['F'] + decimal(num as nat)),
        KeyCode::Char(c) => {
            if c == '\u{7f}' {
                Some("Backspace"@)
            } else if c == '\u{1b}' {
                Some("Escape"@)
            } else if c == '\n' {
                Some("Enter"@)
            } else if c == '\t' {
                Some("Tab"@)
            } else {
                Some(seq![c])
            }
        },
        KeyCode::Null => None,
        KeyCode::Other => None,
    }
}

/// The key a key read from the terminal stands for: the characters that
/// terminals send for Backspace, Enter and Tab are those keys.
pub open spec fn named_key(k: KeyCode) -> KeyCode {
    match k {
        KeyCode::Char(c) => if c == '\u{7f}' {
            KeyCode::Backspace
        } else if c == '\n' {
            KeyCode::Enter
        } else if c == '\t' {
            KeyCode::Tab
        } else {
            k
        },
        _ => k,
    }
}

/// Key names tell keys apart: two keys with the same name are the same
/// key (up to the characters that stand for Backspace, Enter and Tab),
/// so a binding for one key never triggers on another. The arrow keys
/// are named after their directions.
pub proof fn law_key_names_distinct(a: KeyCode, b: KeyCode)
    ensures
        spec_input_to_str(a) is Some && spec_input_to_str(a) == spec_input_to_str(b) ==> named_key(a)
            == named_key(b),
        spec_input_to_str(KeyCode::Up) == Some("Up"@),
        spec_input_to_str(KeyCode::Down) == Some("Down"@),
        spec_input_to_str(KeyCode::Left) == Some("Left"@),
        spec_input_to_str(KeyCode::Right) == Some("Right"@),
{
    reveal_strlit("Backspace");
    reveal_strlit("Enter");
    reveal_strlit("Left");
    reveal_strlit("Right");
    reveal_strlit("Up");
    reveal_strlit("Down");
    reveal_strlit("Home");
    reveal_strlit("End");
    reveal_strlit("PgUp");
    reveal_strlit("PgDn");
    reveal_strlit("Tab");
    reveal_strlit("S_Tab");
    reveal_strlit("Del");
    reveal_strlit("Ins");
    reveal_strlit("Esc");
    reveal_strlit("Escape");
    if let KeyCode::F(n) = a {
        crate::feeds::lemma_decimal_reads_back(n as nat);
    }
    if let KeyCode::F(n) = b {
        crate::feeds::lemma_decimal_reads_back(n as nat);
    }
    if spec_input_to_str(a) is Some && spec_input_to_str(a) == spec_input_to_str(b) {
        let na = spec_input_to_str(a)->0;
        assert(na.len() == spec_input_to_str(b)->0.len());
        assert(na[0] == spec_input_to_str(b)->0[0]);
        if na.len() > 2 {
            assert(na[1] == spec_input_to_str(b)->0[1]);
            assert(na[2] == spec_input_to_str(b)->0[2]);
        }
        if let KeyCode::F(x) = a {
            if let KeyCode::F(y) = b {
                assert(na.skip(1) =~= decimal(x as nat));
                assert(spec_input_to_str(b)->0.skip(1) =~= decimal(y as nat));
            }
        }
    }
}

/// Converts a key into the unique string that names it in keybindings.
/// Keys without a name give `None`.
pub fn input_to_str(input: KeyCode) -> (res: Option<String>)
    ensures
        res matches Some(s) ==> spec_input_to_str(input) == Some(s@),
        res is None <==> spec_input_to_str(input) is None,
{
    match input {
        KeyCode::Backspace => Some(String::from_str("Backspace")),
        KeyCode::Enter => Some(String::from_str("Enter")),
        KeyCode::Left => Some(String::from_str("Left")),
        KeyCode::Right => Some(String::from_str("Right")),
        KeyCode::Up => Some(String::from_str("Up")),
        KeyCode::Down => Some(String::from_str("Down")),
        KeyCode::Home => Some(String::from_str("Home")),
        KeyCode::End => Some(String::from_str("End")),
        KeyCode::PageUp => Some(String::from_str("PgUp")),
        KeyCode::PageDown => Some(String::from_str("PgDn")),
        KeyCode::Tab => Some(String::from_str("Tab")),
        KeyCode::BackTab => Some(String::from_str("S_Tab")),
        KeyCode::Delete => Some(String::from_str("Del")),
        KeyCode::Insert => Some(String::from_str("Ins")),
        KeyCode::Esc => Some(String::from_str("Esc")),
        KeyCode::F(num) => {
            let mut s = String::from_str("F");
            proof {
                reveal_strlit("F");
                assert(s@ =~= seq!['F'] + Seq::<char>::empty());
            }
            let digits = decimal_chars(num as u64);
            let mut i: usize = 0;
            while i < digits.len()
                invariant
                    i <= digits.len(),
                    digits@ == decimal(num as nat),
                    s@ == seq!['F'] + digits@.take(i as int),
                decreases digits.len() - i,
            {
                push_char(&mut s, digits[i]);
                i = i + 1;
                assert(s@ =~= seq!['F'] + digits@.take(i as int));
            }
            assert(digits@.take(digits.len() as int) =~= digits@);
            Some(s)
        },
        KeyCode::Char(c) => {
            if c == '\u{7f}' {
                Some(String::from_str("Backspace"))
            } else if c == '\u{1b}' {
                Some(String::from_str("Escape"))
            } else if c == '\n' {
                Some(String::from_str("Enter"))
            } else if c == '\t' {
                Some(String::from_str("Tab"))
            } else {
                let mut s = String::new();
                push_char(&mut s, c);
                assert(s@ =~= seq![c]);
                Some(s)
            }
        },
        KeyCode::Null => None,
        KeyCode::Other => None,
    }
}

/// The views of a sequence of strings.
pub open spec fn views(s: Seq<String>) -> Seq<Seq<char>> {
    s.map_values(|k: String| k@)
}

/// The map obtained by binding, in order, each key of `pairs` to its
/// action, starting from `m`; a later binding of a key replaces an
/// earlier one.
pub open spec fn apply_bindings(
    m: Map<Seq<char>, UserAction>,
    pairs: Seq<(Seq<char>, UserAction)>,
) -> Map<Seq<char>, UserAction>
    decreases pairs.len(),
{
    if pairs.len() == 0 {
        m
    } else {
        apply_bindings(m, pairs.drop_last()).insert(pairs.last().0, pairs.last().1)
    }
}

/// Every key of `keys`, each paired with the same action.
pub open spec fn pairs_for(keys: Seq<Seq<char>>, action: UserAction) -> Seq<(Seq<char>, UserAction)> {
    keys.map_values(|k: Seq<char>| (k, action))
}

/// The (key, action) pairs of a list of (keys, action) groups, group by
/// group and key by key.
pub open spec fn flatten_groups(groups: Seq<(Seq<Seq<char>>, UserAction)>) -> Seq<(Seq<char>, UserAction)>
    decreases groups.len(),
{
    if groups.len() == 0 {
        Seq::empty()
    } else {
        flatten_groups(groups.drop_last()) + pairs_for(groups.last().0, groups.last().1)
    }
}

/// Binding a list of pairs after another is binding their
/// concatenation.
pub proof fn lemma_apply_bindings_concat(
    m: Map<Seq<char>, UserAction>,
    p: Seq<(Seq<char>, UserAction)>,
    q: Seq<(Seq<char>, UserAction)>,
)
    ensures
        apply_bindings(m, p + q) == apply_bindings(apply_bindings(m, p), q),
    decreases q.len(),
{
    if q.len() == 0 {
        assert(p + q =~= p);
    } else {
        assert((p + q).drop_last() =~= p + q.drop_last());
        lemma_apply_bindings_concat(m, p, q.drop_last());
    }
}

/// Binding several keys to one action: each of those keys now performs
/// the action, every other key keeps what it had.
pub proof fn lemma_apply_same_action(
    m: Map<Seq<char>, UserAction>,
    keys: Seq<Seq<char>>,
    action: UserAction,
)
    ensures
        forall|k: Seq<char>|
            #![trigger apply_bindings(m, pairs_for(keys, action)).contains_key(k)]
            apply_bindings(m, pairs_for(keys, action)).contains_key(k) <==> (m.contains_key(k)
                || keys.contains(k)),
        forall|k: Seq<char>|
            #![trigger apply_bindings(m, pairs_for(keys, action))[k]]
            apply_bindings(m, pairs_for(keys, action)).contains_key(k) ==> apply_bindings(
                m,
                pairs_for(keys, action),
            )[k] == (if keys.contains(k) {
                action
            } else {
                m[k]
            }),
    decreases keys.len(),
{
    if keys.len() > 0 {
        let ks = keys.drop_last();
        assert(pairs_for(keys, action).drop_last() =~= pairs_for(ks, action));
        lemma_apply_same_action(m, ks, action);
        assert forall|k: Seq<char>| keys.contains(k) <==> (ks.contains(k) || k == keys.last()) by {
            if keys.contains(k) {
                let i = choose|i: int| 0 <= i < keys.len() && keys[i] == k;
                if i < keys.len() - 1 {
                    assert(ks[i] == k);
                }
            }
            if ks.contains(k) {
                let i = choose|i: int| 0 <= i < ks.len() && ks[i] == k;
                assert(keys[i] == k);
            }
            if k == keys.last() {
                assert(keys[keys.len() - 1] == k);
            }
        }
    }
}

/// The key-to-action map held by a list of entries, a later entry for a
/// key taking precedence over an earlier one.
pub open spec fn entries_map(s: Seq<(Seq<char>, UserAction)>) -> Map<Seq<char>, UserAction> {
    apply_bindings(Map::empty(), s)
}

/// `i` is the last entry for its key.
pub open spec fn is_last_for_key(s: Seq<(Seq<char>, UserAction)>, i: int) -> bool {
    forall|j: int| i < j < s.len() ==> s[j].0 != s[i].0
}

/// The map holds exactly the entries' keys, each with the action of its
/// last entry.
proof fn lemma_entries_map(s: Seq<(Seq<char>, UserAction)>)
    ensures
        forall|k: Seq<char>|
            #![trigger entries_map(s).contains_key(k)]
            entries_map(s).contains_key(k) <==> exists|i: int| 0 <= i < s.len() && s[i].0 == k,
        forall|i: int|
            0 <= i < s.len() && is_last_for_key(s, i) ==> #[trigger] entries_map(s)[s[i].0]
                == s[i].1,
    decreases s.len(),
{
    if s.len() > 0 {
        let t = s.drop_last();
        lemma_entries_map(t);
        assert forall|k: Seq<char>| entries_map(s).contains_key(k) implies exists|i: int|
            0 <= i < s.len() && s[i].0 == k by {
            if k != s.last().0 {
                assert(entries_map(t).contains_key(k));
                let i = choose|i: int| 0 <= i < t.len() && t[i].0 == k;
                assert(s[i].0 == k);
            } else {
                assert(s[s.len() - 1].0 == k);
            }
        }
        assert forall|k: Seq<char>| (exists|i: int| 0 <= i < s.len() && s[i].0 == k) implies entries_map(s).contains_key(k) by {
            let i = choose|i: int| 0 <= i < s.len() && s[i].0 == k;
            if i < s.len() - 1 {
                assert(t[i].0 == k);
                assert(entries_map(t).contains_key(t[i].0));
            }
        }
        assert(entries_map(s) == entries_map(t).insert(s.last().0, s.last().1));
        assert forall|i: int| 0 <= i < s.len() && is_last_for_key(s, i) implies #[trigger] entries_map(s)[s[i].0] == s[i].1 by {
            if i < s.len() - 1 {
                assert(t[i] == s[i]);
                assert(s[s.len() - 1].0 != s[i].0);
                assert(is_last_for_key(t, i));
                assert(entries_map(t)[t[i].0] == t[i].1);
                assert(t[i] == s[i]);
                assert(s[s.len() - 1].0 != s[i].0);
                assert(is_last_for_key(t, i));
            }
        }
    }
}

/// The keys, among the first `n` entries, whose last entry binds them
/// to `action`, in entry order.
pub open spec fn keys_bound_to(s: Seq<(Seq<char>, UserAction)>, action: UserAction, n: int) -> Seq<Seq<char>>
    decreases n,
{
    if n <= 0 {
        Seq::empty()
    } else {
        let rest = keys_bound_to(s, action, n - 1);
        if s[n - 1].1 == action && is_last_for_key(s, n - 1) {
            rest.push(s[n - 1].0)
        } else {
            rest
        }
    }
}

/// Some entry at or after `i` is the last one for the key of entry `i`.
proof fn lemma_last_from(s: Seq<(Seq<char>, UserAction)>, i: int) -> (j: int)
    requires
        0 <= i < s.len(),
    ensures
        i <= j < s.len(),
        s[j].0 == s[i].0,
        is_last_for_key(s, j),
    decreases s.len() - i,
{
    if exists|m: int| i < m < s.len() && s[m].0 == s[i].0 {
        let m = choose|m: int| i < m < s.len() && s[m].0 == s[i].0;
        lemma_last_from(s, m)
    } else {
        i
    }
}

/// The keys bound to each action by default.
pub open spec fn spec_default_keys(action: UserAction) -> Seq<Seq<char>> {
    match action {
        UserAction::Left => seq!["Left"@, "h"@],
        UserAction::Right => seq!["Right"@, "l"@],
        UserAction::Up => seq!["Up"@, "k"@],
        UserAction::Down => seq!["Down"@, "j"@],
        UserAction::BigUp => seq!["K"@],
        UserAction::BigDown => seq!["J"@],
        UserAction::PageUp => seq!["PgUp"@],
        UserAction::PageDown => seq!["PgDn"@],
        UserAction::GoTop => seq!["g"@],
        UserAction::GoBot => seq!["G"@],
        UserAction::AddFeed => seq!["a"@],
        UserAction::Sync => seq!["s"@],
        UserAction::SyncAll => seq!["S"@],
        UserAction::Play => seq!["Enter"@, "p"@],
        UserAction::MarkPlayed => seq!["m"@],
        UserAction::MarkAllPlayed => seq!["M"@],
        UserAction::Download => seq!["d"@],
        UserAction::DownloadAll => seq!["D"@],
        UserAction::Delete => seq!["x"@],
        UserAction::DeleteAll => seq!["X"@],
        UserAction::Remove => seq!["r"@],
        UserAction::RemoveAll => seq!["R"@],
        UserAction::FilterPlayed => seq!["1"@],
        UserAction::FilterDownloaded => seq!["2"@],
        UserAction::Help => seq!["?"@],
        UserAction::Quit => seq!["q"@],
    }
}

/// Every action, in the order in which keybindings are set up.
pub open spec fn all_actions() -> Seq<UserAction> {
    seq![
        UserAction::Left,
        UserAction::Right,
        UserAction::Up,
        UserAction::Down,
        UserAction::BigUp,
        UserAction::BigDown,
        UserAction::PageUp,
        UserAction::PageDown,
        UserAction::GoTop,
        UserAction::GoBot,
        UserAction::AddFeed,
        UserAction::Sync,
        UserAction::SyncAll,
        UserAction::Play,
        UserAction::MarkPlayed,
        UserAction::MarkAllPlayed,
        UserAction::Download,
        UserAction::DownloadAll,
        UserAction::Delete,
        UserAction::DeleteAll,
        UserAction::Remove,
        UserAction::RemoveAll,
        UserAction::FilterPlayed,
        UserAction::FilterDownloaded,
        UserAction::Help,
        UserAction::Quit,
    ]
}

/// The default (keys, action) groups, in the order of `all_actions`.
pub open spec fn default_groups() -> Seq<(Seq<Seq<char>>, UserAction)> {
    all_actions().map_values(|a: UserAction| (spec_default_keys(a), a))
}

/// The keys that the configuration file gives for an action, if it
/// gives any.
pub open spec fn config_keys(config: KeybindingsFromToml, action: UserAction) -> Option<Vec<String>> {
    match action {
        UserAction::Left => config.left,
        UserAction::Right => config.right,
        UserAction::Up => config.up,
        UserAction::Down => config.down,
        UserAction::BigUp => config.big_up,
        UserAction::BigDown => config.big_down,
        UserAction::PageUp => config.page_up,
        UserAction::PageDown => config.page_down,
        UserAction::GoTop => config.go_top,
        UserAction::GoBot => config.go_bot,
        UserAction::AddFeed => config.add_feed,
        UserAction::Sync => config.sync,
        UserAction::SyncAll => config.sync_all,
        UserAction::Play => config.play,
        UserAction::MarkPlayed => config.mark_played,
        UserAction::MarkAllPlayed => config.mark_all_played,
        UserAction::Download => config.download,
        UserAction::DownloadAll => config.download_all,
        UserAction::Delete => config.delete,
        UserAction::DeleteAll => config.delete_all,
        UserAction::Remove => config.remove,
        UserAction::RemoveAll => config.remove_all,
        UserAction::FilterPlayed => config.filter_played,
        UserAction::FilterDownloaded => config.filter_downloaded,
        UserAction::Help => config.help,
        UserAction::Quit => config.quit,
    }
}

/// The keys for an action: those the configuration gives, or else the
/// default ones.
pub open spec fn configured_keys(config: KeybindingsFromToml, action: UserAction) -> Seq<Seq<char>> {
    match config_keys(config, action) {
        Some(v) => views(v@),
        None => spec_default_keys(action),
    }
}

/// The (keys, action) groups that a configuration sets up, in the order
/// of `all_actions`.
pub open spec fn config_groups(config: KeybindingsFromToml) -> Seq<(Seq<Seq<char>>, UserAction)> {
    all_actions().map_values(|a: UserAction| (configured_keys(config, a), a))
}

/// The (keys, action) group of one default entry.
pub open spec fn entry_group(entry: (UserAction, Vec<String>)) -> (Seq<Seq<char>>, UserAction) {
    (views(entry.1@), entry.0)
}

/// The (keys, action) group of one configured action.
pub open spec fn group_of(entry: (Option<Vec<String>>, UserAction)) -> (Seq<Seq<char>>, UserAction) {
    (
        match entry.0 {
            Some(v) => views(v@),
            None => spec_default_keys(entry.1),
        },
        entry.1,
    )
}

/// The bindings after each group has been bound in turn: the groups up
/// to `n`, plus group `n`.
proof fn lemma_flatten_step(groups: Seq<(Seq<Seq<char>>, UserAction)>, n: int)
    requires
        0 <= n < groups.len(),
    ensures
        flatten_groups(groups.take(n + 1)) == flatten_groups(groups.take(n)) + pairs_for(
            groups[n].0,
            groups[n].1,
        ),
{
    assert(groups.take(n + 1).drop_last() =~= groups.take(n));
}

fn strings1(a: &str) -> (res: Vec<String>)
    ensures
        views(res@) == seq![a@],
{
    let res = vec![String::from_str(a)];
    assert(views(res@) =~= seq![a@]);
    res
}

fn strings2(a: &str, b: &str) -> (res: Vec<String>)
    ensures
        views(res@) == seq![a@, b@],
{
    let res = vec![String::from_str(a), String::from_str(b)];
    assert(views(res@) =~= seq![a@, b@]);
    res
}

/// The keys bound to `action` by default.
pub fn default_keys(action: UserAction) -> (res: Vec<String>)
    ensures
        views(res@) == spec_default_keys(action),
{
    match action {
        UserAction::Left => strings2("Left", "h"),
        UserAction::Right => strings2("Right", "l"),
        UserAction::Up => strings2("Up", "k"),
        UserAction::Down => strings2("Down", "j"),
        UserAction::BigUp => strings1("K"),
        UserAction::BigDown => strings1("J"),
        UserAction::PageUp => strings1("PgUp"),
        UserAction::PageDown => strings1("PgDn"),
        UserAction::GoTop => strings1("g"),
        UserAction::GoBot => strings1("G"),
        UserAction::AddFeed => strings1("a"),
        UserAction::Sync => strings1("s"),
        UserAction::SyncAll => strings1("S"),
        UserAction::Play => strings2("Enter", "p"),
        UserAction::MarkPlayed => strings1("m"),
        UserAction::MarkAllPlayed => strings1("M"),
        UserAction::Download => strings1("d"),
        UserAction::DownloadAll => strings1("D"),
        UserAction::Delete => strings1("x"),
        UserAction::DeleteAll => strings1("X"),
        UserAction::Remove => strings1("r"),
        UserAction::RemoveAll => strings1("R"),
        UserAction::FilterPlayed => strings1("1"),
        UserAction::FilterDownloaded => strings1("2"),
        UserAction::Help => strings1("?"),
        UserAction::Quit => strings1("q"),
    }
}

/// Every action, in the order of `all_actions`.
fn action_list() -> (res: Vec<UserAction>)
    ensures
        res@ == all_actions(),
{
    let res = vec![
        UserAction::Left,
        UserAction::Right,
        UserAction::Up,
        UserAction::Down,
        UserAction::BigUp,
        UserAction::BigDown,
        UserAction::PageUp,
        UserAction::PageDown,
        UserAction::GoTop,
        UserAction::GoBot,
        UserAction::AddFeed,
        UserAction::Sync,
        UserAction::SyncAll,
        UserAction::Play,
        UserAction::MarkPlayed,
        UserAction::MarkAllPlayed,
        UserAction::Download,
        UserAction::DownloadAll,
        UserAction::Delete,
        UserAction::DeleteAll,
        UserAction::Remove,
        UserAction::RemoveAll,
        UserAction::FilterPlayed,
        UserAction::FilterDownloaded,
        UserAction::Help,
        UserAction::Quit,
    ];
    assert(res@ =~= all_actions());
    res
}

/// Keybindings: a map from key names to the action each performs.
///
/// The entries are kept in the order in which keys were bound; the
/// last entry for a key is the one in force.
#[derive(Debug, Clone)]
pub struct Keybindings(Vec<(String, UserAction)>);

impl View for Keybindings {
    type V = Map<Seq<char>, UserAction>;

    closed spec fn view(&self) -> Map<Seq<char>, UserAction> {
        entries_map(self.entries())
    }
}

impl Keybindings {
    /// The entries as (key name, action) pairs.
    closed spec fn entries(&self) -> Seq<(Seq<char>, UserAction)> {
        self.0@.map_values(|e: (String, UserAction)| (e.0@, e.1))
    }

    /// A keybinding map with no keys bound.
    pub fn new() -> (res: Self)
        ensures
            res@ == Map::<Seq<char>, UserAction>::empty(),
    {
        let res = Keybindings(Vec::new());
        assert(res.entries() =~= Seq::<(Seq<char>, UserAction)>::empty());
        res
    }

    /// Binds `code` to `action`, replacing what `code` was bound to.
    pub fn insert(&mut self, code: String, action: UserAction)
        ensures
            final(self)@ == old(self)@.insert(code@, action),
    {
        let ghost old_entries = self.entries();
        self.0.push((code, action));
        assert(self.entries() =~= old_entries.push((code@, action)));
        assert(self.entries().drop_last() =~= old_entries);
    }

    /// Binds each key of `vec` to `action`, replacing what those keys
    /// were bound to.
    pub fn insert_from_vec(&mut self, vec: Vec<String>, action: UserAction)
        ensures
            final(self)@ == apply_bindings(old(self)@, pairs_for(views(vec@), action)),
            forall|k: Seq<char>|
                #![trigger final(self)@.contains_key(k)]
                final(self)@.contains_key(k) <==> (old(self)@.contains_key(k) || views(
                    vec@,
                ).contains(k)),
            forall|k: Seq<char>|
                #![trigger final(self)@[k]]
                final(self)@.contains_key(k) ==> final(self)@[k] == (if views(vec@).contains(k) {
                    action
                } else {
                    old(self)@[k]
                }),
    {
        let ghost start = self@;
        let mut i: usize = 0;
        while i < vec.len()
            invariant
                i <= vec.len(),
                self@ == apply_bindings(start, pairs_for(views(vec@).take(i as int), action)),
            decreases vec.len() - i,
        {
            let key = vec[i].clone();
            self.insert(key, action);
            assert(pairs_for(views(vec@).take(i + 1), action).drop_last() =~= pairs_for(
                views(vec@).take(i as int),
                action,
            ));
            i = i + 1;
        }
        assert(views(vec@).take(vec.len() as int) =~= views(vec@));
        proof {
            lemma_apply_same_action(start, views(vec@), action);
        }
    }

    /// Index of the last entry at or after `from` whose key is the key
    /// of entry `i`, scanning the entries after `i`.
    fn is_last_entry(&self, i: usize) -> (res: bool)
        requires
            i < self.0@.len(),
        ensures
            res == is_last_for_key(self.entries(), i as int),
    {
        let ghost es = self.entries();
        let n = self.0.len();
        let mut j: usize = i + 1;
        while j < n
            invariant
                n == self.0@.len(),
                i < j <= n,
                es == self.entries(),
                forall|m: int| i < m < j ==> es[m].0 != es[i as int].0,
            decreases n - j,
        {
            assert(es[j as int] == (self.0@[j as int].0@, self.0@[j as int].1));
            assert(es[i as int] == (self.0@[i as int].0@, self.0@[i as int].1));
            if self.0[j].0 == self.0[i].0 {
                return false;
            }
            j = j + 1;
        }
        true
    }

    /// The keys bound to `action`, in the order in which they were
    /// (last) bound.
    pub closed spec fn key_list(&self, action: UserAction) -> Seq<Seq<char>> {
        keys_bound_to(self.entries(), action, self.entries().len() as int)
    }

    /// Every key bound to `action`, each once, in the order in which they
    /// were last bound.
    pub fn keys_for_action(&self, action: UserAction) -> (res: Vec<String>)
        ensures
            views(res@) == self.key_list(action),
            views(res@).no_duplicates(),
            forall|k: Seq<char>|
                views(res@).contains(k) <==> (self@.contains_key(k) && self@[k] == action),
    {
        let ghost es = self.entries();
        proof {
            lemma_entries_map(es);
        }
        let mut res: Vec<String> = Vec::new();
        let mut i: usize = 0;
        while i < self.0.len()
            invariant
                i <= self.0.len(),
                es == self.entries(),
                views(res@).no_duplicates(),
                views(res@) == keys_bound_to(es, action, i as int),
                forall|k: Seq<char>|
                    views(res@).contains(k) <==> (exists|j: int|
                        0 <= j < i && es[j].0 == k && es[j].1 == action && is_last_for_key(es, j)),
            decreases self.0.len() - i,
        {
            let last = self.is_last_entry(i);
            let ghost before = views(res@);
            assert(es[i as int] == (self.0@[i as int].0@, self.0@[i as int].1));
            if self.0[i].1 == action && last {
                res.push(self.0[i].0.clone());
                assert(views(res@) =~= before.push(es[i as int].0));
                assert(!before.contains(es[i as int].0)) by {
                    if before.contains(es[i as int].0) {
                        let j = choose|j: int|
                            0 <= j < i && es[j].0 == es[i as int].0 && es[j].1 == action
                                && is_last_for_key(es, j);
                    }
                }
                assert forall|k: Seq<char>| views(res@).contains(k) <==> (exists|j: int|
                    0 <= j < i + 1 && es[j].0 == k && es[j].1 == action && is_last_for_key(es, j)) by {
                    if views(res@).contains(k) {
                        let m = choose|m: int| 0 <= m < views(res@).len() && views(res@)[m] == k;
                        if m < before.len() {
                            assert(before[m] == k);
                            assert(before.contains(k));
                            let j = choose|j: int|
                                0 <= j < i && es[j].0 == k && es[j].1 == action && is_last_for_key(es, j);
                            assert(0 <= j < i + 1 && es[j].0 == k && es[j].1 == action && is_last_for_key(es, j));
                        } else {
                            assert(es[i as int].0 == k);
                            assert(is_last_for_key(es, i as int));
                            let j = i as int;
                            assert(0 <= j < i + 1 && es[j].0 == k && es[j].1 == action && is_last_for_key(es, j));
                        }
                    }
                    if exists|j: int| 0 <= j < i + 1 && es[j].0 == k && es[j].1 == action && is_last_for_key(es, j) {
                        let j = choose|j: int| 0 <= j < i + 1 && es[j].0 == k && es[j].1 == action && is_last_for_key(es, j);
                        if j < i {
                            assert(exists|j: int| 0 <= j < i && es[j].0 == k && es[j].1 == action && is_last_for_key(es, j));
                            assert(before.contains(k));
                            let m = choose|m: int| 0 <= m < before.len() && before[m] == k;
                            assert(views(res@)[m] == k);
                        } else {
                            assert(views(res@)[before.len() as int] == k);
                        }
                    }
                }
            } else {
                assert forall|k: Seq<char>| views(res@).contains(k) <==> (exists|j: int|
                    0 <= j < i + 1 && es[j].0 == k && es[j].1 == action && is_last_for_key(es, j)) by {
                    if exists|j: int| 0 <= j < i + 1 && es[j].0 == k && es[j].1 == action && is_last_for_key(es, j) {
                        let j = choose|j: int| 0 <= j < i + 1 && es[j].0 == k && es[j].1 == action && is_last_for_key(es, j);
                        assert(j < i);
                    }
                }
            }
            i = i + 1;
        }
        assert forall|k: Seq<char>| views(res@).contains(k) <==> (self@.contains_key(k) && self@[k] == action) by {
            if self@.contains_key(k) {
                let j = self.last_index_of(k);
                assert(entries_map(es)[es[j].0] == es[j].1);
            }
            if views(res@).contains(k) {
                let j = choose|j: int| 0 <= j < es.len() && es[j].0 == k && es[j].1 == action && is_last_for_key(es, j);
                assert(entries_map(es)[es[j].0] == es[j].1);
            }
        }
        res
    }

    /// The last entry for a bound key.
    proof fn last_index_of(&self, k: Seq<char>) -> (j: int)
        requires
            exists|i: int| 0 <= i < self.entries().len() && self.entries()[i].0 == k,
        ensures
            0 <= j < self.entries().len(),
            self.entries()[j].0 == k,
            is_last_for_key(self.entries(), j),
    {
        let es = self.entries();
        let i0 = choose|i: int| 0 <= i < es.len() && es[i].0 == k;
        lemma_last_from(es, i0)
    }

    /// The action bound to `code`, if any.
    pub fn get(&self, code: &String) -> (res: Option<UserAction>)
        ensures
            res == (if self@.contains_key(code@) {
                Some(self@[code@])
            } else {
                None
            }),
    {
        let ghost es = self.entries();
        proof {
            lemma_entries_map(es);
        }
        let mut i: usize = self.0.len();
        while i > 0
            invariant
                i <= self.0.len(),
                es == self.entries(),
                forall|j: int| i <= j < es.len() ==> es[j].0 != code@,
            decreases i,
        {
            i = i - 1;
            assert(es[i as int] == (self.0@[i as int].0@, self.0@[i as int].1));
            if self.0[i].0 == *code {
                assert(is_last_for_key(es, i as int));
                proof {
                    lemma_entries_map(es);
                }
                assert(entries_map(es)[es[i as int].0] == es[i as int].1);
                return Some(self.0[i].1);
            }
        }
        assert(!entries_map(es).contains_key(code@));
        None
    }

    /// The default keys of every action, in the order of `all_actions`.
    pub fn _defaults() -> (res: Vec<(UserAction, Vec<String>)>)
        ensures
            res@.len() == all_actions().len(),
            forall|i: int|
                0 <= i < res@.len() ==> #[trigger] res@[i].0 == all_actions()[i] && views(
                    res@[i].1@,
                ) == spec_default_keys(all_actions()[i]),
    {
        let actions = action_list();
        let mut res: Vec<(UserAction, Vec<String>)> = Vec::new();
        let mut i: usize = 0;
        while i < actions.len()
            invariant
                i <= actions.len(),
                actions@ == all_actions(),
                res@.len() == i,
                forall|j: int|
                    0 <= j < i ==> #[trigger] res@[j].0 == all_actions()[j] && views(res@[j].1@)
                        == spec_default_keys(all_actions()[j]),
            decreases actions.len() - i,
        {
            let a = actions[i];
            let keys = default_keys(a);
            let ghost before = res@;
            res.push((a, keys));
            assert(res@[i as int].0 == all_actions()[i as int]);
            assert(forall|j: int| 0 <= j < i ==> res@[j] == before[j]);
            i = i + 1;
        }
        res
    }

    /// Keybindings holding every default key.
    pub fn default() -> (res: Self)
        ensures
            res@ == entries_map(flatten_groups(default_groups())),
    {
        let mut defaults = Self::_defaults();
        let ghost groups = default_groups();
        let ghost all = defaults@;
        assert forall|i: int| 0 <= i < all.len() implies #[trigger] entry_group(all[i]) == groups[i] by {
            assert(all[i].0 == all_actions()[i]);
        }
        let mut keymap = Self::new();
        let mut n: usize = 0;
        while defaults.len() > 0
            invariant
                all.len() == groups.len(),
                groups.len() == 26,
                n + defaults@.len() == all.len(),
                defaults@ == all.skip(n as int),
                forall|i: int| 0 <= i < all.len() ==> #[trigger] entry_group(all[i]) == groups[i],
                keymap@ == entries_map(flatten_groups(groups.take(n as int))),
            decreases defaults@.len(),
        {
            let (action, keys) = defaults.remove(0);
            assert(all[n as int] == (action, keys));
            assert(entry_group(all[n as int]) == groups[n as int]);
            assert(groups[n as int] == (views(keys@), action));
            proof {
                lemma_flatten_step(groups, n as int);
                lemma_apply_bindings_concat(
                    Map::empty(),
                    flatten_groups(groups.take(n as int)),
                    pairs_for(groups[n as int].0, groups[n as int].1),
                );
            }
            keymap.insert_from_vec(keys, action);
            n = n + 1;
            assert(defaults@ =~= all.skip(n as int));
        }
        assert(groups.take(groups.len() as int) =~= groups);
        keymap
    }

    /// Keybindings from the configuration file: each action is bound to
    /// the keys the file gives for it, or to its default keys where the
    /// file gives none. Actions are bound in the order of
    /// `all_actions`, so a key given for two actions performs the later.
    pub fn from_config(config: KeybindingsFromToml) -> (res: Self)
        ensures
            res@ == entries_map(flatten_groups(config_groups(config))),
    {
        let ghost groups = config_groups(config);
        let KeybindingsFromToml {
            left,
            right,
            up,
            down,
            big_up,
            big_down,
            go_top,
            go_bot,
            page_up,
            page_down,
            add_feed,
            sync,
            sync_all,
            play,
            mark_played,
            mark_all_played,
            download,
            download_all,
            delete,
            delete_all,
            remove,
            remove_all,
            filter_played,
            filter_downloaded,
            help,
            quit,
        } = config;
        let mut config_actions: Vec<(Option<Vec<String>>, UserAction)> = vec![
            (left, UserAction::Left),
            (right, UserAction::Right),
            (up, UserAction::Up),
            (down, UserAction::Down),
            (big_up, UserAction::BigUp),
            (big_down, UserAction::BigDown),
            (page_up, UserAction::PageUp),
            (page_down, UserAction::PageDown),
            (go_top, UserAction::GoTop),
            (go_bot, UserAction::GoBot),
            (add_feed, UserAction::AddFeed),
            (sync, UserAction::Sync),
            (sync_all, UserAction::SyncAll),
            (play, UserAction::Play),
            (mark_played, UserAction::MarkPlayed),
            (mark_all_played, UserAction::MarkAllPlayed),
            (download, UserAction::Download),
            (download_all, UserAction::DownloadAll),
            (delete, UserAction::Delete),
            (delete_all, UserAction::DeleteAll),
            (remove, UserAction::Remove),
            (remove_all, UserAction::RemoveAll),
            (filter_played, UserAction::FilterPlayed),
            (filter_downloaded, UserAction::FilterDownloaded),
            (help, UserAction::Help),
            (quit, UserAction::Quit),
        ];
        let ghost all = config_actions@;
        assert(all.len() == groups.len());
        assert forall|i: int| 0 <= i < all.len() implies #[trigger] group_of(all[i]) == groups[i] by {
            assert(all_actions()[i] == all[i].1);
        }
        let mut keymap = Self::new();
        let mut n: usize = 0;
        while config_actions.len() > 0
            invariant
                all.len() == groups.len(),
                groups.len() == 26,
                n + config_actions@.len() == all.len(),
                config_actions@ == all.skip(n as int),
                forall|i: int| 0 <= i < all.len() ==> #[trigger] group_of(all[i]) == groups[i],
                keymap@ == entries_map(flatten_groups(groups.take(n as int))),
            decreases config_actions@.len(),
        {
            let (keys_opt, action) = config_actions.remove(0);
            assert(all[n as int] == (keys_opt, action));
            let keys = match keys_opt {
                Some(v) => v,
                None => default_keys(action),
            };
            assert(group_of(all[n as int]) == groups[n as int]);
            assert(groups[n as int] == (views(keys@), action));
            proof {
                lemma_flatten_step(groups, n as int);
                lemma_apply_bindings_concat(
                    Map::empty(),
                    flatten_groups(groups.take(n as int)),
                    pairs_for(groups[n as int].0, groups[n as int].1),
                );
            }
            keymap.insert_from_vec(keys, action);
            n = n + 1;
            assert(config_actions@ =~= all.skip(n as int));
        }
        assert(groups.take(groups.len() as int) =~= groups);
        keymap
    }

    /// The action bound to the key `input`, if that key has a name and
    /// the name is bound.
    pub fn get_from_input(&self, input: KeyCode) -> (res: Option<UserAction>)
        ensures
            res == (match spec_input_to_str(input) {
                Some(code) => if self@.contains_key(code) {
                    Some(self@[code])
                } else {
                    None
                },
                None => None,
            }),
    {
        match input_to_str(input) {
            Some(code) => self.get(&code),
            None => None,
        }
    }
}


/// Looking a key up after binding it gives the action it was bound to,
/// whatever it was bound to before; the other keys keep their actions.
pub proof fn law_get_after_insert(kb: Keybindings, code: String, action: UserAction, other: Seq<char>)
    ensures
        ({
            let after = kb@.insert(code@, action);
            &&& (if after.contains_key(code@) {
                Some(after[code@])
            } else {
                None
            }) == Some(action)
            &&& other != code@ ==> (if after.contains_key(other) {
                Some(after[other])
            } else {
                None
            }) == (if kb@.contains_key(other) {
                Some(kb@[other])
            } else {
                None
            })
        }),
{
}

/// A configuration file that sets no keybinding gives the default
/// keybindings.
pub proof fn law_empty_config_is_default(config: KeybindingsFromToml)
    requires
        crate::config::no_keybindings(config),
    ensures
        entries_map(flatten_groups(config_groups(config))) == entries_map(flatten_groups(default_groups())),
{
    assert(config_groups(config) =~= default_groups());
}

} // verus!
