//! The one-line message window at the bottom of the screen.
//!
//! Timed notifications are kept on a stack; the last one that has not
//! expired is shown. When none is left, the persistent notification is
//! shown, if there is one. Times are milliseconds on a clock that the
//! caller reads; the decisions of what to show are returned to the
//! caller, which draws them.

use vstd::prelude::*;
use vstd::string::*;

use super::colors::AppColors;
use crate::keymap::KeyCode;
use super::panel::{cmd_views, DrawCmd, TextStyle};
use crate::text::{chars_of, push_char, push_spaces, push_str, spaces, string_from_chars};

verus! {

/// A message, whether it reports an error, and (for a timed message)
/// the time at which it disappears.
#[derive(Debug, Clone, PartialEq)]
pub struct Notification {
    pub message: String,
    pub error: bool,
    pub expiry: Option<u64>,
}

impl Notification {
    /// A notification; `expiry` is the time at which a timed
    /// notification disappears, `None` for one that stays.
    pub fn new(message: String, error: bool, expiry: Option<u64>) -> (res: Self)
        ensures
            res.message == message,
            res.error == error,
            res.expiry == expiry,
    {
        Self { message: message, error: error, expiry: expiry }
    }

    /// The notification's content.
    pub open spec fn content(&self) -> (Seq<char>, bool, Option<u64>) {
        (self.message@, self.error, self.expiry)
    }

    /// Whether two notifications have the same content.
    pub fn same_as(&self, other: &Notification) -> (res: bool)
        ensures
            res == (self.content() == other.content()),
    {
        self.message == other.message && self.error == other.error && match (self.expiry, other.expiry) {
            (Some(a), Some(b)) => a == b,
            (None, None) => true,
            _ => false,
        }
    }

    /// A copy.
    pub fn copy(&self) -> (res: Notification)
        ensures
            res == *self,
    {
        Notification { message: self.message.clone(), error: self.error, expiry: self.expiry }
    }
}

/// The notification with the given parts.
pub open spec fn notification_of(message: String, error: bool, expiry: Option<u64>) -> Notification {
    Notification { message: message, error: error, expiry: expiry }
}

/// The notification is still on screen at time `now`.
pub open spec fn live(n: Notification, now: u64) -> bool {
    match n.expiry {
        Some(exp) => now < exp,
        None => true,
    }
}

/// The notifications of `stack` still on screen at `now`, in order.
pub open spec fn live_notifs(stack: Seq<Notification>, now: u64) -> Seq<Notification> {
    stack.filter(|n: Notification| live(n, now))
}

/// What the message window should do after a change.
#[derive(Debug)]
pub enum NotifDisplay {
    /// Draw this notification.
    Show(Notification),
    /// Erase the window.
    Erase,
    /// Leave the window as it is.
    Keep,
}

/// The message window: its place and size, the stack of timed
/// notifications, the persistent notification, and the one shown.
#[derive(Debug)]
pub struct NotifWin {
    pub colors: AppColors,
    pub start_y: u16,
    pub total_rows: u16,
    pub total_cols: u16,
    pub msg_stack: Vec<Notification>,
    pub persistent_msg: Option<Notification>,
    pub current_msg: Option<Notification>,
}

/// The content of an optional notification.
pub open spec fn opt_content(n: Option<Notification>) -> Option<(Seq<char>, bool, Option<u64>)> {
    match n {
        Some(x) => Some(x.content()),
        None => None,
    }
}

/// Showing `next` when `current` is on screen: draw it unless it is
/// already there.
pub open spec fn show_unless_current(
    current: Option<Notification>,
    next: Notification,
    action: NotifDisplay,
) -> bool {
    if opt_content(current) == Some(next.content()) {
        action is Keep
    } else {
        action matches NotifDisplay::Show(n) && n.content() == next.content()
    }
}

impl NotifWin {
    /// An empty message window at row `start_y`.
    pub fn new(colors: AppColors, start_y: u16, total_rows: u16, total_cols: u16) -> (res: Self)
        ensures
            res.colors == colors,
            res.start_y == start_y,
            res.total_rows == total_rows,
            res.total_cols == total_cols,
            res.msg_stack@.len() == 0,
            res.persistent_msg is None,
            res.current_msg is None,
    {
        Self {
            colors: colors,
            start_y: start_y,
            total_rows: total_rows,
            total_cols: total_cols,
            msg_stack: Vec::new(),
            persistent_msg: None,
            current_msg: None,
        }
    }

    /// At time `now`, drops the expired timed notifications and decides
    /// what to show: the last timed notification left, or else the
    /// persistent one, or else nothing. Nothing changes when the stack
    /// was already empty.
    pub fn check_notifs(&mut self, now: u64) -> (res: NotifDisplay)
        ensures
            old(self).msg_stack@.len() == 0 ==> res is Keep && *final(self) == *old(self),
            old(self).msg_stack@.len() > 0 ==> {
                let left = live_notifs(old(self).msg_stack@, now);
                &&& final(self).msg_stack@ == left
                &&& final(self).persistent_msg == old(self).persistent_msg
                &&& if left.len() > 0 {
                    &&& show_unless_current(old(self).current_msg, left.last(), res)
                    &&& opt_content(final(self).current_msg) == Some(left.last().content())
                } else if old(self).persistent_msg is Some {
                    &&& show_unless_current(
                        old(self).current_msg,
                        old(self).persistent_msg->0,
                        res,
                    )
                    &&& opt_content(final(self).current_msg) == Some(
                        old(self).persistent_msg->0.content(),
                    )
                } else {
                    res is Erase && final(self).current_msg is None
                }
            },
            final(self).colors == old(self).colors,
            final(self).start_y == old(self).start_y,
            final(self).total_rows == old(self).total_rows,
            final(self).total_cols == old(self).total_cols,
    {
        if self.msg_stack.len() == 0 {
            return NotifDisplay::Keep;
        }
        let ghost stack = self.msg_stack@;
        let mut kept: Vec<Notification> = Vec::new();
        let mut i: usize = 0;
        while i < self.msg_stack.len()
            invariant
                i <= self.msg_stack@.len(),
                stack == self.msg_stack@,
                kept@ == live_notifs(stack.take(i as int), now),
            decreases self.msg_stack@.len() - i,
        {
            let ghost prefix = stack.take(i as int);
            assert(stack.take(i + 1).drop_last() =~= prefix);
            proof {
                reveal(Seq::filter);
            }
            let keep = match self.msg_stack[i].expiry {
                Some(exp) => now < exp,
                None => true,
            };
            if keep {
                kept.push(self.msg_stack[i].copy());
            }
            assert(kept@ =~= live_notifs(stack.take(i + 1), now));
            i = i + 1;
        }
        assert(stack.take(stack.len() as int) =~= stack);
        self.msg_stack = kept;
        if self.msg_stack.len() > 0 {
            let last = self.msg_stack[self.msg_stack.len() - 1].copy();
            let action = match &self.current_msg {
                Some(curr) => if last.same_as(curr) {
                    NotifDisplay::Keep
                } else {
                    NotifDisplay::Show(last.copy())
                },
                None => NotifDisplay::Show(last.copy()),
            };
            self.current_msg = Some(last);
            action
        } else {
            match &self.persistent_msg {
                Some(msg) => {
                    let action = match &self.current_msg {
                        Some(curr) => if msg.same_as(curr) {
                            NotifDisplay::Keep
                        } else {
                            NotifDisplay::Show(msg.copy())
                        },
                        None => NotifDisplay::Show(msg.copy()),
                    };
                    self.current_msg = Some(msg.copy());
                    action
                },
                None => {
                    self.current_msg = None;
                    NotifDisplay::Erase
                },
            }
        }
    }

    /// At time `now`, adds a notification that stays on screen for
    /// `duration` milliseconds.
    pub fn timed_notif(&mut self, message: String, duration: u64, error: bool, now: u64)
        requires
            now + duration <= u64::MAX,
        ensures
            final(self).msg_stack@ == old(self).msg_stack@.push(
                notification_of(message, error, Some((now + duration) as u64)),
            ),
            final(self).persistent_msg == old(self).persistent_msg,
            final(self).current_msg == old(self).current_msg,
            final(self).colors == old(self).colors,
            final(self).start_y == old(self).start_y,
    {
        let expiry = now + duration;
        self.msg_stack.push(Notification::new(message, error, Some(expiry)));
    }

    /// Sets the notification that stays on screen until cleared,
    /// replacing the previous one; it is shown at once unless a timed
    /// notification is on screen.
    pub fn persistent_notif(&mut self, message: String, error: bool) -> (res: NotifDisplay)
        ensures
            final(self).persistent_msg == Some(notification_of(message, error, None)),
            final(self).msg_stack == old(self).msg_stack,
            old(self).msg_stack@.len() == 0 ==> (final(self).current_msg == Some(
                notification_of(message, error, None),
            ) && (res matches NotifDisplay::Show(n) && n == notification_of(message, error, None))),
            old(self).msg_stack@.len() > 0 ==> (final(self).current_msg == old(self).current_msg
                && (res is Keep)),
            final(self).colors == old(self).colors,
            final(self).start_y == old(self).start_y,
    {
        let notif = Notification::new(message, error, None);
        self.persistent_msg = Some(notif.copy());
        if self.msg_stack.len() == 0 {
            self.current_msg = Some(notif.copy());
            NotifDisplay::Show(notif)
        } else {
            NotifDisplay::Keep
        }
    }

    /// Clears the persistent notification; the window is erased unless a
    /// timed notification is on screen.
    pub fn clear_persistent_notif(&mut self) -> (res: NotifDisplay)
        ensures
            final(self).persistent_msg is None,
            final(self).msg_stack == old(self).msg_stack,
            old(self).msg_stack@.len() == 0 ==> ((final(self).current_msg is None) && (res is Erase)),
            old(self).msg_stack@.len() > 0 ==> (final(self).current_msg == old(self).current_msg
                && (res is Keep)),
            final(self).colors == old(self).colors,
            final(self).start_y == old(self).start_y,
    {
        self.persistent_msg = None;
        if self.msg_stack.len() == 0 {
            self.current_msg = None;
            NotifDisplay::Erase
        } else {
            NotifDisplay::Keep
        }
    }

    /// Takes on a new terminal size. The window keeps its size and place,
    /// so this changes nothing.
    pub fn resize(&mut self, total_rows: u16, total_cols: u16)
        ensures
            *final(self) == *old(self),
    {
    }

    /// Clears the window: its row filled with spaces, in the normal
    /// colours.
    pub fn redraw(&self) -> (res: DrawCmd)
        ensures
            res.pos == Some((0u16, self.start_y)),
            res.text@ == spaces(self.total_cols as nat),
            res.style is None,
    {
        let mut blank = String::new();
        push_spaces(&mut blank, self.total_cols as usize);
        DrawCmd { pos: Some((0, self.start_y)), text: blank, style: None }
    }

    /// Shows `notif`: the window cleared, then the message from its
    /// first column, in bold when it reports an error (in the error
    /// colours, which the caller applies).
    pub fn display_notif(&self, notif: &Notification) -> (res: Vec<DrawCmd>)
        ensures
            cmd_views(res@) == seq![
                (Some((0u16, self.start_y)), spaces(self.total_cols as nat), None),
                (Some((0u16, self.start_y)), notif.message@, if notif.error {
                    Some(TextStyle::Bold)
                } else {
                    None
                }),
            ],
    {
        let mut text = String::new();
        push_str(&mut text, notif.message.as_str());
        let style = if notif.error {
            Some(TextStyle::Bold)
        } else {
            None
        };
        let mut cmds = Vec::new();
        cmds.push(self.redraw());
        cmds.push(DrawCmd { pos: Some((0, self.start_y)), text: text, style: style });
        assert(cmd_views(cmds@) =~= seq![
            (Some((0u16, self.start_y)), spaces(self.total_cols as nat), None),
            (Some((0u16, self.start_y)), notif.message@, style),
        ]);
        cmds
    }
}


/// A change to the message window while text is typed into it.
#[derive(Debug)]
pub enum EchoCmd {
    /// Move the cursor to (column, row).
    MoveTo(u16, u16),
    /// Move the cursor one column left.
    MoveLeft,
    /// Move the cursor one column right.
    MoveRight,
    /// Print text at the cursor.
    Print(String),
    /// Show the cursor.
    ShowCursor,
}

/// The view of an echo command: (kind, column, row, text), with kinds
/// 0 to 4 in the order of the variants.
pub open spec fn echo_view(c: EchoCmd) -> (u8, u16, u16, Seq<char>) {
    match c {
        EchoCmd::MoveTo(x, y) => (0, x, y, Seq::empty()),
        EchoCmd::MoveLeft => (1, 0, 0, Seq::empty()),
        EchoCmd::MoveRight => (2, 0, 0, Seq::empty()),
        EchoCmd::Print(t) => (3, 0, 0, t@),
        EchoCmd::ShowCursor => (4, 0, 0, Seq::empty()),
    }
}

/// The views of echo commands.
pub open spec fn echo_views(v: Seq<EchoCmd>) -> Seq<(u8, u16, u16, Seq<char>)> {
    v.map_values(|c: EchoCmd| echo_view(c))
}

/// `MoveTo(x, y)`.
pub open spec fn move_to(x: u16, y: u16) -> (u8, u16, u16, Seq<char>) {
    (0, x, y, Seq::empty())
}

/// `Print(t)`.
pub open spec fn print(t: Seq<char>) -> (u8, u16, u16, Seq<char>) {
    (3, 0, 0, t)
}

/// What happens after a key is typed into an input line.
#[derive(Debug)]
pub enum InputOutcome {
    /// Typing goes on; these are the changes to the window.
    Continue(Vec<EchoCmd>),
    /// The text was entered.
    Submit(String),
    /// Typing was cancelled.
    Cancel,
}

/// A line of text being typed after a prompt on the message window's
/// row: the text, the cursor's column, and the column after the text.
/// The prompt takes the columns before `min_x`.
#[derive(Debug)]
pub struct InputLine {
    pub start_y: u16,
    pub min_x: u16,
    pub text: Vec<char>,
    pub cursor_x: u16,
    pub max_x: u16,
}

/// The kinds of keys as the input line reads them.
pub open spec fn is_cancel(key: KeyCode) -> bool {
    key == KeyCode::Esc || key == KeyCode::Char('\u{1b}')
}

/// A key that enters the text.
pub open spec fn is_submit(key: KeyCode) -> bool {
    key == KeyCode::Enter || key == KeyCode::Char('\n')
}

/// A key that deletes the character before the cursor.
pub open spec fn is_backspace(key: KeyCode) -> bool {
    key == KeyCode::Backspace || key == KeyCode::Char('\u{7f}')
}

impl InputLine {
    /// The text ends at `max_x` and the cursor lies between the prompt
    /// and the end of the text.
    pub open spec fn wf(&self) -> bool {
        &&& self.max_x == self.min_x + self.text@.len()
        &&& self.min_x <= self.cursor_x <= self.max_x
    }

    /// The cursor's position in the text.
    pub open spec fn idx(&self) -> int {
        self.cursor_x - self.min_x
    }

    /// A key can be handled: deleting backwards needs a character before
    /// the cursor whenever there is text, and typing needs room for one
    /// more column.
    pub open spec fn key_ok(&self, key: KeyCode) -> bool {
        &&& is_backspace(key) && self.max_x > self.min_x ==> self.cursor_x > self.min_x
        &&& (key matches KeyCode::Char(c) && !is_cancel(key) && !is_submit(key) && !is_backspace(key))
            ==> self.max_x < u16::MAX
    }

    /// Handles one key: Esc cancels; Enter enters the text; Backspace
    /// deletes the character before the cursor, Delete the one under it;
    /// Left and Right move the cursor within the text; a character is
    /// inserted at the cursor. Other keys are ignored. The changes to the
    /// window keep it showing the prompt, the text and the cursor.
    pub fn handle_key(&mut self, key: KeyCode) -> (res: InputOutcome)
        requires
            old(self).wf(),
            old(self).key_ok(key),
        ensures
            final(self).wf(),
            final(self).start_y == old(self).start_y,
            final(self).min_x == old(self).min_x,
            is_cancel(key) ==> res is Cancel && *final(self) == *old(self),
            !is_cancel(key) && is_submit(key) ==> (res matches InputOutcome::Submit(t) && t@ == old(
                self,
            ).text@) && *final(self) == *old(self),
            !is_cancel(key) && !is_submit(key) ==> (res matches InputOutcome::Continue(cmds) && {
                let i = old(self).idx();
                let t = old(self).text@;
                let y = old(self).start_y;
                if is_backspace(key) {
                    if old(self).max_x > old(self).min_x {
                        let nt = t.remove(i - 1);
                        &&& final(self).text@ == nt
                        &&& final(self).cursor_x == old(self).cursor_x - 1
                        &&& echo_views(cmds@) == seq![(1u8, 0u16, 0u16, Seq::<char>::empty()), print(nt.skip(i - 1)), print(seq![' ']), move_to(final(self).cursor_x, y)]
                    } else {
                        *final(self) == *old(self) && cmds@.len() == 0
                    }
                } else {
                    match key {
                        KeyCode::Delete => if old(self).cursor_x < old(self).max_x {
                            let nt = t.remove(i);
                            &&& final(self).text@ == nt
                            &&& final(self).cursor_x == old(self).cursor_x
                            &&& echo_views(cmds@) == seq![print(nt.skip(i)), print(seq![' ']), move_to(final(self).cursor_x, y)]
                        } else {
                            *final(self) == *old(self) && cmds@.len() == 0
                        },
                        KeyCode::Left => if old(self).cursor_x > old(self).min_x {
                            &&& final(self).text@ == t
                            &&& final(self).cursor_x == old(self).cursor_x - 1
                            &&& echo_views(cmds@) == seq![(1u8, 0u16, 0u16, Seq::<char>::empty())]
                        } else {
                            *final(self) == *old(self) && cmds@.len() == 0
                        },
                        KeyCode::Right => if old(self).cursor_x < old(self).max_x {
                            &&& final(self).text@ == t
                            &&& final(self).cursor_x == old(self).cursor_x + 1
                            &&& echo_views(cmds@) == seq![(2u8, 0u16, 0u16, Seq::<char>::empty())]
                        } else {
                            *final(self) == *old(self) && cmds@.len() == 0
                        },
                        KeyCode::Char(c) => if old(self).cursor_x < old(self).max_x {
                            let nt = t.insert(i, c);
                            &&& final(self).text@ == nt
                            &&& final(self).cursor_x == old(self).cursor_x + 1
                            &&& echo_views(cmds@) == seq![print(nt.skip(i)), move_to(final(self).cursor_x, y)]
                        } else {
                            &&& final(self).text@ == t.push(c)
                            &&& final(self).cursor_x == old(self).cursor_x + 1
                            &&& echo_views(cmds@) == seq![print(seq![c])]
                        },
                        _ => *final(self) == *old(self) && cmds@.len() == 0,
                    }
                }
            }),
    {
        let idx = (self.cursor_x - self.min_x) as usize;
        let esc = key == KeyCode::Esc || key == KeyCode::Char('\u{1b}');
        let enter = key == KeyCode::Enter || key == KeyCode::Char('\n');
        let back = key == KeyCode::Backspace || key == KeyCode::Char('\u{7f}');
        if esc {
            return InputOutcome::Cancel;
        }
        if enter {
            return InputOutcome::Submit(string_from_chars(&self.text));
        }
        let mut cmds: Vec<EchoCmd> = Vec::new();
        if back {
            if self.max_x > self.min_x {
                self.max_x = self.max_x - 1;
                self.cursor_x = self.cursor_x - 1;
                let _ = self.text.remove(idx - 1);
                cmds.push(EchoCmd::MoveLeft);
                cmds.push(EchoCmd::Print(tail_from(&self.text, idx - 1)));
                cmds.push(EchoCmd::Print(single(' ')));
                cmds.push(EchoCmd::MoveTo(self.cursor_x, self.start_y));
                assert(echo_views(cmds@) =~= seq![(1u8, 0u16, 0u16, Seq::<char>::empty()), print(self.text@.skip(idx - 1)), print(seq![' ']), move_to(self.cursor_x, self.start_y)]);
            }
            return InputOutcome::Continue(cmds);
        }
        match key {
            KeyCode::Delete => {
                if self.cursor_x < self.max_x {
                    self.max_x = self.max_x - 1;
                    let _ = self.text.remove(idx);
                    cmds.push(EchoCmd::Print(tail_from(&self.text, idx)));
                    cmds.push(EchoCmd::Print(single(' ')));
                    cmds.push(EchoCmd::MoveTo(self.cursor_x, self.start_y));
                    assert(echo_views(cmds@) =~= seq![print(self.text@.skip(idx as int)), print(seq![' ']), move_to(self.cursor_x, self.start_y)]);
                }
            },
            KeyCode::Left => {
                if self.cursor_x > self.min_x {
                    self.cursor_x = self.cursor_x - 1;
                    cmds.push(EchoCmd::MoveLeft);
                    assert(echo_views(cmds@) =~= seq![(1u8, 0u16, 0u16, Seq::<char>::empty())]);
                }
            },
            KeyCode::Right => {
                if self.cursor_x < self.max_x {
                    self.cursor_x = self.cursor_x + 1;
                    cmds.push(EchoCmd::MoveRight);
                    assert(echo_views(cmds@) =~= seq![(2u8, 0u16, 0u16, Seq::<char>::empty())]);
                }
            },
            KeyCode::Char(c) => {
                if self.cursor_x < self.max_x {
                    self.max_x = self.max_x + 1;
                    self.cursor_x = self.cursor_x + 1;
                    self.text.insert(idx, c);
                    cmds.push(EchoCmd::Print(tail_from(&self.text, idx)));
                    cmds.push(EchoCmd::MoveTo(self.cursor_x, self.start_y));
                    assert(echo_views(cmds@) =~= seq![print(self.text@.skip(idx as int)), move_to(self.cursor_x, self.start_y)]);
                } else {
                    self.max_x = self.max_x + 1;
                    self.cursor_x = self.cursor_x + 1;
                    self.text.push(c);
                    cmds.push(EchoCmd::Print(single(c)));
                    assert(echo_views(cmds@) =~= seq![print(seq![c])]);
                }
            },
            _ => {},
        }
        InputOutcome::Continue(cmds)
    }
}

/// The characters of `text` from `from` on, as a string.
fn tail_from(text: &Vec<char>, from: usize) -> (res: String)
    requires
        from <= text@.len(),
    ensures
        res@ == text@.skip(from as int),
{
    let mut res = String::new();
    let mut i: usize = from;
    while i < text.len()
        invariant
            from <= i <= text@.len(),
            res@ == text@.subrange(from as int, i as int),
        decreases text.len() - i,
    {
        push_char(&mut res, text[i]);
        i = i + 1;
        assert(res@ =~= text@.subrange(from as int, i as int));
    }
    assert(text@.subrange(from as int, i as int) =~= text@.skip(from as int));
    res
}

/// A string of one character.
fn single(c: char) -> (res: String)
    ensures
        res@ == seq![c],
{
    let mut res = String::new();
    push_char(&mut res, c);
    assert(res@ =~= seq![c]);
    res
}

impl NotifWin {
    /// Starts a line of text input after `prefix` on the window's row:
    /// gives the empty line (its cursor right after the prompt) and what
    /// shows the prompt and the cursor.
    pub fn input_notif(&self, prefix: &str) -> (res: (InputLine, Vec<EchoCmd>))
        requires
            prefix@.len() <= u16::MAX,
        ensures
            res.0.wf(),
            res.0.start_y == self.start_y,
            res.0.min_x == prefix@.len(),
            res.0.text@.len() == 0,
            res.0.cursor_x == prefix@.len(),
            echo_views(res.1@) == seq![move_to(0, self.start_y), print(prefix@), (4u8, 0u16, 0u16, Seq::<char>::empty())],
    {
        let n = prefix.unicode_len() as u16;
        let mut cmds: Vec<EchoCmd> = Vec::new();
        cmds.push(EchoCmd::MoveTo(0, self.start_y));
        cmds.push(EchoCmd::Print(String::from_str(prefix)));
        cmds.push(EchoCmd::ShowCursor);
        assert(echo_views(cmds@) =~= seq![move_to(0, self.start_y), print(prefix@), (4u8, 0u16, 0u16, Seq::<char>::empty())]);
        (InputLine { start_y: self.start_y, min_x: n, text: Vec::new(), cursor_x: n, max_x: n }, cmds)
    }
}


/// A timed notification added at time `now` for `duration`
/// milliseconds is shown until `now + duration` and not after.
pub proof fn law_timed_notif_lifetime(message: String, error: bool, now: u64, duration: u64, t: u64)
    requires
        now + duration <= u64::MAX,
    ensures
        live(notification_of(message, error, Some((now + duration) as u64)), t) <==> t < now + duration,
{
}

/// Typing a character and then deleting backwards gives back the text
/// as it was.
pub proof fn law_backspace_undoes_typing(t: Seq<char>, i: int, c: char)
    requires
        0 <= i <= t.len(),
    ensures
        (if i < t.len() {
            t.insert(i, c)
        } else {
            t.push(c)
        }).remove(i) == t,
{
    if i < t.len() {
        assert(t.insert(i, c).remove(i) =~= t);
    } else {
        assert(t.push(c).remove(i) =~= t);
    }
}

} // verus!
