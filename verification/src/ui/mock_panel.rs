//! A panel held in memory as a list of lines, each with a text
//! attribute and a colour role. Writing to it changes the lines; nothing
//! is drawn. It lets the layout of a panel be built and examined.

use vstd::prelude::*;
use vstd::string::*;

use super::colors::{AppColors, ColorType};
use crate::text::push_str;
use crate::types::{format_date, formatted_date};

verus! {

/// The plain text attribute.
pub const A_NORMAL: u32 = 0;

/// The underlined text attribute.
pub const A_UNDERLINE: u32 = 0x0002_0000;

/// The lines that `textwrap::wrap` breaks `text` into for a width of
/// `width` columns.
pub uninterp spec fn wrapped_lines(text: Seq<char>, width: nat) -> Seq<Seq<char>>;

/// The views of a sequence of strings.
pub open spec fn line_views(v: Seq<String>) -> Seq<Seq<char>> {
    v.map_values(|s: String| s@)
}

/// Calls `textwrap::wrap(text, width)`; the lines are named
/// `wrapped_lines` of the two arguments.
#[verifier::external_body]
pub(crate) fn wrap_text(text: &str, width: usize) -> (res: Vec<String>)
    ensures
        line_views(res@) == wrapped_lines(text@, width as nat),
{
    textwrap::wrap(text, width).into_iter().map(|l| l.into_owned()).collect()
}

/// How many lines `write_wrap_line` writes: all of them, but none past
/// the last row of the panel, and always the first one.
pub open spec fn wrap_count(nlines: int, start_y: int, max_row: int) -> int {
    if nlines == 0 {
        0
    } else if start_y >= max_row {
        1
    } else if nlines < max_row - start_y {
        nlines
    } else {
        max_row - start_y
    }
}

/// The panel's width as the wrap width: the columns, cast to `usize` as
/// Rust casts an `i32`.
pub open spec fn wrap_width(cols: i32) -> nat {
    (cols as usize) as nat
}

/// A line's view: (text, attribute, colour role).
pub type LineView = (Seq<char>, u32, ColorType);

/// The views of a panel's lines.
pub open spec fn lines_of(w: Seq<(String, u32, ColorType)>) -> Seq<LineView> {
    w.map_values(|l: (String, u32, ColorType)| (l.0@, l.1, l.2))
}

/// `win` with rows `start .. start + m` replaced by the first `m` lines,
/// plain and in the normal colour.
pub open spec fn overwrite(win: Seq<LineView>, start: int, lines: Seq<Seq<char>>, m: int) -> Seq<LineView> {
    Seq::new(
        win.len(),
        |i: int|
            if start <= i < start + m {
                (lines[i - start], A_NORMAL, ColorType::Normal)
            } else {
                win[i]
            },
    )
}

/// The lines after `write_wrap_line(start_y, text)` on a panel of
/// `n_row` rows and `n_col` columns whose lines are `win`, and the row
/// it gives back.
pub open spec fn wrap_write(win: Seq<LineView>, start_y: int, text: Seq<char>, n_row: i32, n_col: i32) -> (Seq<LineView>, int) {
    let lines = wrapped_lines(text, wrap_width((n_col - 5) as i32));
    let m = wrap_count(lines.len() as int, start_y, n_row - 2);
    (overwrite(win, start_y, lines, m), start_y + m - 1)
}

/// `write_wrap_line(start_y, text)` stays inside the panel's lines and
/// the range of an `i32`.
pub open spec fn wrap_write_fits(win_len: int, start_y: int, text: Seq<char>, n_row: i32, n_col: i32) -> bool {
    let m = wrap_count(
        wrapped_lines(text, wrap_width((n_col - 5) as i32)).len() as int,
        start_y,
        n_row - 2,
    );
    &&& n_row >= i32::MIN + 2
    &&& n_col >= i32::MIN + 5
    &&& i32::MIN <= start_y <= i32::MAX
    &&& m == 0 ==> start_y > i32::MIN
    &&& m > 0 ==> 0 <= start_y && start_y + m <= win_len && start_y + m <= i32::MAX
}

/// A panel held in memory: `window` has one entry per row, holding the
/// row's text, its attribute and its colour role.
#[derive(Debug)]
pub struct Panel {
    pub window: Vec<(String, u32, ColorType)>,
    pub screen_pos: usize,
    pub colors: AppColors,
    pub title: String,
    pub n_row: i32,
    pub n_col: i32,
}

/// An empty line with the plain attribute.
fn empty_line() -> (res: (String, u32, ColorType))
    ensures
        res.0@ == Seq::<char>::empty(),
        res.1 == A_NORMAL,
        res.2 == ColorType::Normal,
{
    (String::new(), A_NORMAL, ColorType::Normal)
}

/// `n` empty lines.
fn empty_lines(n: usize) -> (res: Vec<(String, u32, ColorType)>)
    ensures
        res@.len() == n,
        forall|i: int|
            0 <= i < n ==> (#[trigger] res@[i]).0@ == Seq::<char>::empty() && res@[i].1 == A_NORMAL
                && res@[i].2 == ColorType::Normal,
{
    let mut v: Vec<(String, u32, ColorType)> = Vec::new();
    let mut i: usize = 0;
    while i < n
        invariant
            i <= n,
            v@.len() == i,
            forall|j: int|
                0 <= j < i ==> (#[trigger] v@[j]).0@ == Seq::<char>::empty() && v@[j].1 == A_NORMAL
                    && v@[j].2 == ColorType::Normal,
        decreases n - i,
    {
        v.push(empty_line());
        i = i + 1;
    }
    v
}

impl Panel {
    /// A panel of `n_row` rows (two of them border) and `n_col` columns,
    /// all of its `n_row - 2` lines empty.
    pub fn new(
        colors: AppColors,
        title: String,
        screen_pos: usize,
        n_row: i32,
        n_col: i32,
        _start_y: i32,
        _start_x: i32,
    ) -> (res: Self)
        requires
            n_row >= 2,
        ensures
            res.window@.len() == n_row - 2,
            res.view_lines() == Seq::new(
                (n_row - 2) as nat,
                |i: int| (Seq::<char>::empty(), A_NORMAL, ColorType::Normal),
            ),
            forall|i: int|
                0 <= i < n_row - 2 ==> (#[trigger] res.window@[i]).0@ == Seq::<char>::empty()
                    && res.window@[i].1 == A_NORMAL && res.window@[i].2 == ColorType::Normal,
            res.colors == colors,
            res.title == title,
            res.screen_pos == screen_pos,
            res.n_row == n_row,
            res.n_col == n_col,
    {
        let panel_win = empty_lines((n_row - 2) as usize);
        assert(lines_of(panel_win@) =~= Seq::new(
            (n_row - 2) as nat,
            |i: int| (Seq::<char>::empty(), A_NORMAL, ColorType::Normal),
        ));
        Panel {
            window: panel_win,
            screen_pos: screen_pos,
            colors: colors,
            title: title,
            n_row: n_row,
            n_col: n_col,
        }
    }

    /// Sets up the panel; there is nothing to set up in memory.
    pub fn init(&self) {
    }

    /// Shows the panel; there is nothing to show in memory.
    pub fn refresh(&self) {
    }

    /// Empties the panel: `n_row` empty lines.
    pub fn erase(&mut self)
        requires
            old(self).n_row >= 0,
        ensures
            final(self).window@.len() == old(self).n_row,
            forall|i: int|
                0 <= i < old(self).n_row ==> (#[trigger] final(self).window@[i]).0@
                    == Seq::<char>::empty() && final(self).window@[i].1 == A_NORMAL
                    && final(self).window@[i].2 == ColorType::Normal,
            final(self).n_row == old(self).n_row,
            final(self).n_col == old(self).n_col,
            final(self).title == old(self).title,
            final(self).colors == old(self).colors,
            final(self).screen_pos == old(self).screen_pos,
    {
        self.window = empty_lines(self.n_row as usize);
    }

    /// Replaces line `y` with `string`, plain and in the normal colour.
    pub fn write_line(&mut self, y: i32, string: String)
        requires
            0 <= y < old(self).window@.len(),
        ensures
            final(self).window@ == old(self).window@.update(
                y as int,
                (string, A_NORMAL, ColorType::Normal),
            ),
            final(self).view_lines() == old(self).view_lines().update(
                y as int,
                (string@, A_NORMAL, ColorType::Normal),
            ),
            final(self).n_row == old(self).n_row,
            final(self).n_col == old(self).n_col,
            final(self).title == old(self).title,
            final(self).colors == old(self).colors,
            final(self).screen_pos == old(self).screen_pos,
    {
        let ghost sv = string@;
        self.window.set(y as usize, (string, A_NORMAL, ColorType::Normal));
        assert(self.view_lines() =~= old(self).view_lines().update(
            y as int,
            (sv, A_NORMAL, ColorType::Normal),
        ));
    }

    /// Inserts `string` as line `y`, pushing the lines below it down;
    /// the last line falls off, so the panel keeps its number of lines.
    pub fn insert_line(&mut self, y: i32, string: String)
        requires
            0 <= y <= old(self).window@.len(),
        ensures
            final(self).window@ == old(self).window@.insert(
                y as int,
                (string, A_NORMAL, ColorType::Normal),
            ).drop_last(),
            final(self).n_row == old(self).n_row,
            final(self).n_col == old(self).n_col,
    {
        self.window.insert(y as usize, (string, A_NORMAL, ColorType::Normal));
        let _ = self.window.pop();
    }

    /// Deletes line `y`, pulling the lines below it up; an empty line
    /// is added at the bottom, so the panel keeps its number of lines.
    pub fn delete_line(&mut self, y: i32)
        requires
            0 <= y < old(self).window@.len(),
        ensures
            final(self).window@.len() == old(self).window@.len(),
            final(self).window@.drop_last() == old(self).window@.remove(y as int),
            final(self).window@.last().0@ == Seq::<char>::empty(),
            final(self).window@.last().1 == A_NORMAL,
            final(self).window@.last().2 == ColorType::Normal,
            final(self).n_row == old(self).n_row,
            final(self).n_col == old(self).n_col,
    {
        let _ = self.window.remove(y as usize);
        let ghost before = self.window@;
        self.window.push(empty_line());
        assert(self.window@.drop_last() =~= before);
    }

    /// The views of the panel's lines.
    pub open spec fn view_lines(&self) -> Seq<LineView> {
        lines_of(self.window@)
    }

    /// Writing the wrapped `string` from row `start_y` stays inside the
    /// panel's lines and the range of an `i32`.
    pub open spec fn wrap_fits(&self, start_y: i32, string: Seq<char>) -> bool {
        wrap_write_fits(self.window@.len() as int, start_y as int, string, self.n_row, self.n_col)
    }

    /// Writes `string`, word-wrapped to the panel's columns, one line per
    /// row from row `start_y`, stopping at the panel's last row (the
    /// first line is always written). Gives the last row written to.
    pub fn write_wrap_line(&mut self, start_y: i32, string: String) -> (res: i32)
        requires
            old(self).wrap_fits(start_y, string@),
        ensures
            ({
                let lines = wrapped_lines(string@, wrap_width((old(self).n_col - 5) as i32));
                let m = wrap_count(lines.len() as int, start_y as int, old(self).n_row - 2);
                &&& res == start_y + m - 1
                &&& final(self).window@.len() == old(self).window@.len()
                &&& forall|i: int|
                    0 <= i < old(self).window@.len() ==> (#[trigger] final(self).window@[i]) == if start_y
                        <= i < start_y + m {
                        (final(self).window@[i].0, A_NORMAL, ColorType::Normal)
                    } else {
                        old(self).window@[i]
                    }
                &&& forall|k: int|
                    0 <= k < m ==> (#[trigger] final(self).window@[start_y + k]).0@ == lines[k]
            }),
            final(self).view_lines() == wrap_write(
                old(self).view_lines(),
                start_y as int,
                string@,
                old(self).n_row,
                old(self).n_col,
            ).0,
            res == wrap_write(
                old(self).view_lines(),
                start_y as int,
                string@,
                old(self).n_row,
                old(self).n_col,
            ).1,
            final(self).n_row == old(self).n_row,
            final(self).n_col == old(self).n_col,
            final(self).title == old(self).title,
            final(self).colors == old(self).colors,
            final(self).screen_pos == old(self).screen_pos,
    {
        let ghost old_window = self.window@;
        let mut row = start_y;
        let max_row = self.get_rows();
        let lines = wrap_text(string.as_str(), self.get_cols() as usize);
        let ghost lv = line_views(lines@);
        let ghost m = wrap_count(lv.len() as int, start_y as int, max_row as int);
        let mut k: usize = 0;
        while k < lines.len() && (k == 0 || row < max_row)
            invariant
                k <= lines@.len(),
                lv == line_views(lines@),
                lv == wrapped_lines(string@, wrap_width((self.n_col - 5) as i32)),
                max_row == self.n_row - 2,
                m == wrap_count(lv.len() as int, start_y as int, max_row as int),
                m > 0 ==> 0 <= start_y && start_y + m <= old_window.len() && start_y + m
                    <= i32::MAX,
                k <= m,
                row == start_y + k,
                self.window@.len() == old_window.len(),
                forall|i: int|
                    0 <= i < old_window.len() ==> (#[trigger] self.window@[i]) == if start_y <= i
                        < start_y + k {
                        (self.window@[i].0, A_NORMAL, ColorType::Normal)
                    } else {
                        old_window[i]
                    },
                forall|j: int| 0 <= j < k ==> (#[trigger] self.window@[start_y + j]).0@ == lv[j],
                self.n_row == old(self).n_row,
                self.n_col == old(self).n_col,
                self.title == old(self).title,
                self.colors == old(self).colors,
                self.screen_pos == old(self).screen_pos,
            decreases lines@.len() - k,
        {
            assert(k + 1 <= m);
            let line = lines[k].clone();
            assert(line@ == lv[k as int]);
            self.write_line(row, line);
            row = row + 1;
            k = k + 1;
        }
        assert(k == m);
        assert(self.view_lines() =~= overwrite(lines_of(old_window), start_y as int, lv, m)) by {
            assert forall|i: int| 0 <= i < old_window.len() implies #[trigger] self.view_lines()[i]
                == overwrite(lines_of(old_window), start_y as int, lv, m)[i] by {
                if start_y <= i < start_y + m {
                    let j = i - start_y;
                    assert(self.window@[start_y + j].0@ == lv[j]);
                }
            }
        }
        row - 1
    }

    /// Writes `string` as `write_wrap_line` does, if it fits; otherwise
    /// leaves the panel as it is and gives `None`.
    pub fn try_write_wrap_line(&mut self, start_y: i32, string: String) -> (res: Option<i32>)
        ensures
            res is Some <==> old(self).wrap_fits(start_y, string@),
            res is None ==> *final(self) == *old(self),
            res matches Some(r) ==> {
                let w = wrap_write(
                    old(self).view_lines(),
                    start_y as int,
                    string@,
                    old(self).n_row,
                    old(self).n_col,
                );
                &&& final(self).view_lines() == w.0
                &&& r == w.1
                &&& final(self).window@.len() == old(self).window@.len()
                &&& final(self).n_row == old(self).n_row
                &&& final(self).n_col == old(self).n_col
                &&& final(self).title == old(self).title
                &&& final(self).colors == old(self).colors
                &&& final(self).screen_pos == old(self).screen_pos
            },
    {
        if self.n_row < i32::MIN + 2 || self.n_col < i32::MIN + 5 {
            return None;
        }
        let lines = wrap_text(string.as_str(), self.get_cols() as usize);
        let max_row = self.get_rows();
        let n = lines.len();
        let m: i128 = if n == 0 {
            0
        } else if start_y >= max_row {
            1
        } else if (n as i128) < (max_row as i128) - (start_y as i128) {
            n as i128
        } else {
            (max_row as i128) - (start_y as i128)
        };
        let fits = if m == 0 {
            start_y > i32::MIN
        } else {
            0 <= start_y && (start_y as i128) + m <= (self.window.len() as i128) && (start_y as i128)
                + m <= i32::MAX as i128
        };
        if fits {
            Some(self.write_wrap_line(start_y, string))
        } else {
            None
        }
    }

    /// Sets the attribute and colour role of line `y`, keeping its text.
    /// (The whole line changes, whatever the columns given.)
    pub fn change_attr(&mut self, y: i32, _x: i32, _nchars: i32, attr: u32, color: ColorType)
        requires
            0 <= y < old(self).window@.len(),
        ensures
            final(self).window@ == old(self).window@.update(
                y as int,
                (old(self).window@[y as int].0, attr, color),
            ),
            final(self).view_lines() == old(self).view_lines().update(
                y as int,
                (old(self).view_lines()[y as int].0, attr, color),
            ),
            final(self).n_row == old(self).n_row,
            final(self).n_col == old(self).n_col,
            final(self).title == old(self).title,
            final(self).colors == old(self).colors,
            final(self).screen_pos == old(self).screen_pos,
    {
        let text = self.window[y as usize].0.clone();
        self.window.set(y as usize, (text, attr, color));
        assert(self.view_lines() =~= old(self).view_lines().update(
            y as int,
            (old(self).view_lines()[y as int].0, attr, color),
        ));
    }

    /// Takes on a new size: the panel keeps `n_row - 2` lines (those
    /// inside the border, as `get_rows` counts them). When it should have
    /// fewer lines, the extra lines are cut off; when it should have
    /// more, empty lines are added at the bottom.
    pub fn resize(&mut self, n_row: i32, n_col: i32, _start_y: i32, _start_x: i32)
        requires
            n_row >= 2,
        ensures
            final(self).n_row == n_row,
            final(self).n_col == n_col,
            final(self).window@.len() == n_row - 2,
            ({
                let new_len = n_row - 2;
                let len = old(self).window@.len();
                if new_len <= len {
                    final(self).window@ == old(self).window@.take(new_len)
                } else {
                    &&& final(self).window@.take(len as int) == old(self).window@
                    &&& forall|i: int|
                        len <= i < new_len ==> (#[trigger] final(self).window@[i]).0@
                            == Seq::<char>::empty() && final(self).window@[i].1 == A_NORMAL
                            && final(self).window@[i].2 == ColorType::Normal
                }
            }),
            final(self).title == old(self).title,
            final(self).colors == old(self).colors,
            final(self).screen_pos == old(self).screen_pos,
    {
        self.n_row = n_row;
        self.n_col = n_col;
        let new_len = (n_row - 2) as usize;
        let len = self.window.len();
        if new_len <= len {
            self.window.truncate(new_len);
            assert(self.window@ =~= old(self).window@.take(new_len as int));
        } else {
            let ghost before = self.window@;
            assert(before.take(len as int) =~= before);
            let mut i: usize = len;
            while i < new_len
                invariant
                    len <= i <= new_len,
                    self.window@.len() == i,
                    self.window@.take(len as int) == before,
                    before.len() == len,
                    forall|j: int|
                        len <= j < self.window@.len() ==> (#[trigger] self.window@[j]).0@
                            == Seq::<char>::empty() && self.window@[j].1 == A_NORMAL
                            && self.window@[j].2 == ColorType::Normal,
                    self.n_row == n_row,
                    self.n_col == n_col,
                    self.title == old(self).title,
                    self.colors == old(self).colors,
                    self.screen_pos == old(self).screen_pos,
                decreases new_len - i,
            {
                let ghost prev = self.window@;
                self.window.push(empty_line());
                assert(self.window@.take(len as int) =~= prev.take(len as int));
                i = i + 1;
            }
        }
    }

    /// The rows inside the border.
    pub fn get_rows(&self) -> (res: i32)
        requires
            self.n_row >= i32::MIN + 2,
        ensures
            res == self.n_row - 2,
    {
        self.n_row - 2
    }

    /// The columns inside the border and margins.
    pub fn get_cols(&self) -> (res: i32)
        requires
            self.n_col >= i32::MIN + 5,
        ensures
            res == self.n_col - 5,
    {
        self.n_col - 5
    }

    /// A copy of line `row`.
    pub fn get_row(&self, row: usize) -> (res: (String, u32, ColorType))
        requires
            row < self.window@.len(),
        ensures
            res == self.window@[row as int],
    {
        let line = &self.window[row];
        (line.0.clone(), line.1, line.2)
    }
}


/// The raw data shown in the details panel: the podcast's and the
/// episode's titles, the publication date (a Unix timestamp), the
/// duration, whether the podcast is explicit, and the description.
#[derive(Debug)]
pub struct Details {
    pub pod_title: Option<String>,
    pub ep_title: Option<String>,
    pub pubdate: Option<i64>,
    pub duration: Option<String>,
    pub explicit: Option<bool>,
    pub description: Option<String>,
}

/// One step of a template: `None` leaves a blank line; `Some((text,
/// underlined))` writes `text` word-wrapped on the next row, its first
/// line underlined when asked.
pub type TemplateStep = Option<(Seq<char>, bool)>;

/// The view of an executable template step.
pub open spec fn step_view(st: Option<(String, bool)>) -> TemplateStep {
    match st {
        Some((t, u)) => Some((t@, u)),
        None => None,
    }
}

/// A title, or "No title".
pub open spec fn title_or_default(t: Option<String>) -> Seq<char> {
    match t {
        Some(t) => t@,
        None => "No title"@,
    }
}

/// The steps of the details template: the two titles, a blank line,
/// the date, duration and explicitness when known (each underlined),
/// another blank line, and the description (under a heading) or a note
/// that there is none.
pub open spec fn details_steps(d: Details) -> Seq<TemplateStep> {
    let date: Seq<TemplateStep> = match d.pubdate {
        Some(ts) => match formatted_date(ts as int, "%B %-d, %Y"@) {
            Some(text) => seq![Some(("Published: "@ + text, true))],
            None => Seq::empty(),
        },
        None => Seq::empty(),
    };
    let dur: Seq<TemplateStep> = match d.duration {
        Some(t) => seq![Some(("Duration: "@ + t@, true))],
        None => Seq::empty(),
    };
    let exp: Seq<TemplateStep> = match d.explicit {
        Some(true) => seq![Some(("Explicit: Yes"@, true))],
        Some(false) => seq![Some(("Explicit: No"@, true))],
        None => Seq::empty(),
    };
    let desc: Seq<TemplateStep> = match d.description {
        Some(t) => seq![Some(("Description:"@, false)), Some((t@, false))],
        None => seq![Some(("No description."@, false))],
    };
    seq![
        Some((title_or_default(d.pod_title), false)),
        Some((title_or_default(d.ep_title), false)),
        None,
    ] + date + dur + exp + seq![None] + desc
}

/// The lines after the steps, from the lines `win` with the last row
/// written being `row`, and the last row written after them.
pub open spec fn run_steps(win: Seq<LineView>, row: int, steps: Seq<TemplateStep>, n_row: i32, n_col: i32) -> (Seq<LineView>, int)
    decreases steps.len(),
{
    if steps.len() == 0 {
        (win, row)
    } else {
        match steps[0] {
            None => run_steps(win, row + 1, steps.drop_first(), n_row, n_col),
            Some((text, underlined)) => {
                let w = wrap_write(win, row + 1, text, n_row, n_col);
                let win2 = if underlined {
                    w.0.update(row + 1, (w.0[row + 1].0, A_UNDERLINE, ColorType::Normal))
                } else {
                    w.0
                };
                run_steps(win2, w.1, steps.drop_first(), n_row, n_col)
            },
        }
    }
}

/// Every step stays inside the panel's `len` lines and the range of an
/// `i32`.
pub open spec fn steps_fit(len: int, win: Seq<LineView>, row: int, steps: Seq<TemplateStep>, n_row: i32, n_col: i32) -> bool
    decreases steps.len(),
{
    if steps.len() == 0 {
        true
    } else {
        match steps[0] {
            None => row + 1 <= i32::MAX && steps_fit(len, win, row + 1, steps.drop_first(), n_row, n_col),
            Some((text, underlined)) => {
                let w = wrap_write(win, row + 1, text, n_row, n_col);
                let win2 = if underlined {
                    w.0.update(row + 1, (w.0[row + 1].0, A_UNDERLINE, ColorType::Normal))
                } else {
                    w.0
                };
                &&& row + 1 <= i32::MAX
                &&& wrap_write_fits(len, row + 1, text, n_row, n_col)
                &&& underlined ==> 0 <= row + 1 < len
                &&& steps_fit(len, win2, w.1, steps.drop_first(), n_row, n_col)
            },
        }
    }
}

/// The executable steps of the details template.
fn details_step_list(details: Details) -> (res: Vec<Option<(String, bool)>>)
    ensures
        res@.map_values(|st: Option<(String, bool)>| step_view(st)) == details_steps(details),
{
    let ghost d = details;
    let mut v: Vec<Option<(String, bool)>> = Vec::new();
    let pod = match details.pod_title {
        Some(t) => t,
        None => String::from_str("No title"),
    };
    v.push(Some((pod, false)));
    let ep = match details.ep_title {
        Some(t) => t,
        None => String::from_str("No title"),
    };
    v.push(Some((ep, false)));
    v.push(None);
    if let Some(ts) = details.pubdate {
        if let Some(date) = format_date(ts, "%B %-d, %Y") {
            let mut line = String::from_str("Published: ");
            push_str(&mut line, date.as_str());
            v.push(Some((line, true)));
        }
    }
    if let Some(dur) = details.duration {
        let mut line = String::from_str("Duration: ");
        push_str(&mut line, dur.as_str());
        v.push(Some((line, true)));
    }
    if let Some(exp) = details.explicit {
        if exp {
            v.push(Some((String::from_str("Explicit: Yes"), true)));
        } else {
            v.push(Some((String::from_str("Explicit: No"), true)));
        }
    }
    v.push(None);
    match details.description {
        Some(desc) => {
            v.push(Some((String::from_str("Description:"), false)));
            v.push(Some((desc, false)));
        },
        None => {
            v.push(Some((String::from_str("No description."), false)));
        },
    }
    assert(v@.map_values(|st: Option<(String, bool)>| step_view(st)) =~= details_steps(d));
    v
}

impl Panel {
    /// Runs template steps from the row after `row`, giving the last
    /// row written.
    fn write_steps(&mut self, row: i32, steps: Vec<Option<(String, bool)>>) -> (res: i32)
        requires
            steps_fit(
                old(self).window@.len() as int,
                old(self).view_lines(),
                row as int,
                steps@.map_values(|st: Option<(String, bool)>| step_view(st)),
                old(self).n_row,
                old(self).n_col,
            ),
        ensures
            ({
                let r = run_steps(
                    old(self).view_lines(),
                    row as int,
                    steps@.map_values(|st: Option<(String, bool)>| step_view(st)),
                    old(self).n_row,
                    old(self).n_col,
                );
                final(self).view_lines() == r.0 && res == r.1
            }),
            final(self).window@.len() == old(self).window@.len(),
            final(self).n_row == old(self).n_row,
            final(self).n_col == old(self).n_col,
            final(self).title == old(self).title,
            final(self).colors == old(self).colors,
            final(self).screen_pos == old(self).screen_pos,
    {
        let ghost goal = run_steps(
            self.view_lines(),
            row as int,
            steps@.map_values(|st: Option<(String, bool)>| step_view(st)),
            self.n_row,
            self.n_col,
        );
        let mut row = row;
        let mut steps = steps;
        while steps.len() > 0
            invariant
                steps_fit(
                    self.window@.len() as int,
                    self.view_lines(),
                    row as int,
                    steps@.map_values(|st: Option<(String, bool)>| step_view(st)),
                    self.n_row,
                    self.n_col,
                ),
                run_steps(
                    self.view_lines(),
                    row as int,
                    steps@.map_values(|st: Option<(String, bool)>| step_view(st)),
                    self.n_row,
                    self.n_col,
                ) == goal,
                self.window@.len() == old(self).window@.len(),
                self.n_row == old(self).n_row,
                self.n_col == old(self).n_col,
                self.title == old(self).title,
                self.colors == old(self).colors,
                self.screen_pos == old(self).screen_pos,
            decreases steps.len(),
        {
            let ghost before = steps@.map_values(|st: Option<(String, bool)>| step_view(st));
            let st = steps.remove(0);
            assert(before[0] == step_view(st));
            assert(before.drop_first() =~= steps@.map_values(|st: Option<(String, bool)>| step_view(st)));
            match st {
                None => {
                    row = row + 1;
                },
                Some((text, underlined)) => {
                    let start = row + 1;
                    let new_row = self.write_wrap_line(start, text);
                    if underlined {
                        self.change_attr(start, 0, 10, A_UNDERLINE, ColorType::Normal);
                    }
                    row = new_row;
                },
            }
        }
        row
    }

    /// Writes the details of an episode from row `start_y`: see
    /// `details_steps`.
    pub fn details_template(&mut self, start_y: i32, details: Details)
        requires
            start_y > i32::MIN,
            steps_fit(
                old(self).window@.len() as int,
                old(self).view_lines(),
                start_y - 1,
                details_steps(details),
                old(self).n_row,
                old(self).n_col,
            ),
        ensures
            final(self).view_lines() == run_steps(
                old(self).view_lines(),
                start_y - 1,
                details_steps(details),
                old(self).n_row,
                old(self).n_col,
            ).0,
            final(self).window@.len() == old(self).window@.len(),
            final(self).n_row == old(self).n_row,
            final(self).n_col == old(self).n_col,
    {
        let steps = details_step_list(details);
        let _ = self.write_steps(start_y - 1, steps);
    }
}


/// A copy of the details.
fn copy_details(d: &Details) -> (res: Details)
    ensures
        res == *d,
{
    let copy_str = |s: &Option<String>| -> (r: Option<String>)
        ensures
            r == *s,
    {
        match s {
            Some(t) => Some(t.clone()),
            None => None,
        }
    };
    Details {
        pod_title: copy_str(&d.pod_title),
        ep_title: copy_str(&d.ep_title),
        pubdate: d.pubdate,
        duration: copy_str(&d.duration),
        explicit: d.explicit,
        description: copy_str(&d.description),
    }
}

impl Panel {
    /// A copy of the panel.
    fn duplicate(&self) -> (res: Panel)
        ensures
            res.view_lines() == self.view_lines(),
            res.window@.len() == self.window@.len(),
            res.n_row == self.n_row,
            res.n_col == self.n_col,
            res.title == self.title,
            res.colors == self.colors,
            res.screen_pos == self.screen_pos,
    {
        let mut w: Vec<(String, u32, ColorType)> = Vec::new();
        let mut i: usize = 0;
        while i < self.window.len()
            invariant
                i <= self.window@.len(),
                w@.len() == i,
                forall|j: int| 0 <= j < i ==> (#[trigger] w@[j]).0@ == self.window@[j].0@ && w@[j].1 == self.window@[j].1 && w@[j].2 == self.window@[j].2,
            decreases self.window.len() - i,
        {
            let line = &self.window[i];
            w.push((line.0.clone(), line.1, line.2));
            i = i + 1;
        }
        let res = Panel {
            window: w,
            screen_pos: self.screen_pos,
            colors: self.colors,
            title: self.title.clone(),
            n_row: self.n_row,
            n_col: self.n_col,
        };
        assert(res.view_lines() =~= self.view_lines());
        res
    }

    /// Runs template steps as `write_steps` does while they fit, and
    /// tells whether all of them did.
    fn try_write_steps(&mut self, first: i32, all_steps: Vec<Option<(String, bool)>>) -> (res: bool)
        ensures
            res == steps_fit(
                old(self).window@.len() as int,
                old(self).view_lines(),
                first as int,
                all_steps@.map_values(|st: Option<(String, bool)>| step_view(st)),
                old(self).n_row,
                old(self).n_col,
            ),
    {
        let mut row = first;
        let mut steps = all_steps;
        let ghost goal = steps_fit(
            self.window@.len() as int,
            self.view_lines(),
            row as int,
            steps@.map_values(|st: Option<(String, bool)>| step_view(st)),
            self.n_row,
            self.n_col,
        );
        while steps.len() > 0
            invariant
                goal == steps_fit(
                    old(self).window@.len() as int,
                    old(self).view_lines(),
                    first as int,
                    all_steps@.map_values(|st: Option<(String, bool)>| step_view(st)),
                    old(self).n_row,
                    old(self).n_col,
                ),
                goal == steps_fit(
                    self.window@.len() as int,
                    self.view_lines(),
                    row as int,
                    steps@.map_values(|st: Option<(String, bool)>| step_view(st)),
                    self.n_row,
                    self.n_col,
                ),
            decreases steps.len(),
        {
            let ghost before = steps@.map_values(|st: Option<(String, bool)>| step_view(st));
            let ghost v0 = self.view_lines();
            let ghost l0 = self.window@.len() as int;
            let st = steps.remove(0);
            assert(before[0] == step_view(st));
            assert(before.drop_first() =~= steps@.map_values(|st: Option<(String, bool)>| step_view(st)));
            if row == i32::MAX {
                assert(!steps_fit(l0, v0, row as int, before, self.n_row, self.n_col));
                return false;
            }
            match st {
                None => {
                    row = row + 1;
                },
                Some((text, underlined)) => {
                    let start = row + 1;
                    match self.try_write_wrap_line(start, text) {
                        Some(new_row) => {
                            if underlined {
                                if start < 0 || (start as usize) >= self.window.len() {
                                    assert(!steps_fit(l0, v0, row as int, before, self.n_row, self.n_col));
                                    return false;
                                }
                                self.change_attr(start, 0, 10, A_UNDERLINE, ColorType::Normal);
                            }
                            row = new_row;
                        },
                        None => {
                            return false;
                        },
                    }
                },
            }
        }
        true
    }

    /// Writes the details template as `details_template` does when it
    /// fits the panel, and tells whether it did; otherwise the panel
    /// stays as it is.
    pub fn try_details_template(&mut self, start_y: i32, details: Details) -> (res: bool)
        ensures
            res == (start_y > i32::MIN && steps_fit(
                old(self).window@.len() as int,
                old(self).view_lines(),
                start_y - 1,
                details_steps(details),
                old(self).n_row,
                old(self).n_col,
            )),
            res ==> final(self).view_lines() == run_steps(
                old(self).view_lines(),
                start_y - 1,
                details_steps(details),
                old(self).n_row,
                old(self).n_col,
            ).0,
            !res ==> *final(self) == *old(self),
            final(self).window@.len() == old(self).window@.len(),
            final(self).n_row == old(self).n_row,
            final(self).n_col == old(self).n_col,
    {
        if start_y == i32::MIN {
            return false;
        }
        let probe_steps = details_step_list(copy_details(&details));
        let mut probe = self.duplicate();
        if !probe.try_write_steps(start_y - 1, probe_steps) {
            return false;
        }
        self.details_template(start_y, details);
        true
    }
}

} // verus!
