//! A bordered panel of the terminal. The panel translates rows and
//! columns relative to its inside into terminal coordinates, accounting
//! for its border and margins.

use vstd::prelude::*;

use super::details_panel::{detail_line_views, meta_content, push_line, push_meta, DetailsLine, DetailsLineView};
use super::mock_panel::{wrap_count, wrap_text, wrapped_lines, Details};
use crate::text::{push_char, push_str};
use crate::types::{format_date, formatted_date};

verus! {

/// The vertical border.
pub const VERTICAL: char = '\u{2502}';

/// The horizontal border.
pub const HORIZONTAL: char = '\u{2500}';

/// The top right corner.
pub const TOP_RIGHT: char = '\u{2510}';

/// The top left corner.
pub const TOP_LEFT: char = '\u{250c}';

/// The bottom right corner.
pub const BOTTOM_RIGHT: char = '\u{2518}';

/// The bottom left corner.
pub const BOTTOM_LEFT: char = '\u{2514}';

/// The border's joint at the top, between two panels.
pub const TOP_TEE: char = '\u{252c}';

/// The border's joint at the bottom, between two panels.
pub const BOTTOM_TEE: char = '\u{2534}';

/// How a piece of text is styled.
#[derive(Debug, Clone, Copy, PartialEq, Eq, Structural)]
pub enum TextStyle {
    Bold,
    Underlined,
}

/// A piece of text to print: at a terminal position (column, row), or
/// where the previous piece ended when there is none; with a style or
/// plain.
#[derive(Debug)]
pub struct DrawCmd {
    pub pos: Option<(u16, u16)>,
    pub text: String,
    pub style: Option<TextStyle>,
}

/// The view of a drawing command.
pub type DrawView = (Option<(u16, u16)>, Seq<char>, Option<TextStyle>);

/// The views of drawing commands.
pub open spec fn cmd_views(v: Seq<DrawCmd>) -> Seq<DrawView> {
    v.map_values(|c: DrawCmd| (c.pos, c.text@, c.style))
}

/// `n` copies of the character `c`.
pub open spec fn repeat_char(c: char, n: nat) -> Seq<char> {
    Seq::new(n, |i: int| c)
}

/// Appends `n` copies of `c`.
fn push_repeat(out: &mut String, c: char, n: u16)
    ensures
        final(out)@ == old(out)@ + repeat_char(c, n as nat),
{
    let ghost start = out@;
    let mut i: u16 = 0;
    while i < n
        invariant
            i <= n,
            out@ == start + repeat_char(c, i as nat),
        decreases n - i,
    {
        push_char(out, c);
        i = i + 1;
        assert(out@ =~= start + repeat_char(c, i as nat));
    }
}

/// A bordered region of the terminal with a title in its top border.
#[derive(Debug)]
pub struct Panel {
    pub screen_pos: usize,
    pub title: String,
    pub start_x: u16,
    pub n_row: u16,
    pub n_col: u16,
}

impl Panel {
    /// A panel at column `start_x`, `n_row` rows by `n_col` columns;
    /// `screen_pos` is its position among the panels, from the left.
    pub fn new(title: String, screen_pos: usize, n_row: u16, n_col: u16, start_x: u16) -> (res: Self)
        ensures
            res.title == title,
            res.screen_pos == screen_pos,
            res.n_row == n_row,
            res.n_col == n_col,
            res.start_x == start_x,
    {
        Panel { screen_pos: screen_pos, title: title, start_x: start_x, n_row: n_row, n_col: n_col }
    }

    /// Changes the size of the panel: `n_row` rows by `n_col` columns
    /// from column `start_x` (panels always start on the top row).
    pub fn resize(&mut self, n_row: u16, n_col: u16, start_y: u16, start_x: u16)
        ensures
            final(self).n_row == n_row,
            final(self).n_col == n_col,
            final(self).start_x == start_x,
            final(self).title == old(self).title,
            final(self).screen_pos == old(self).screen_pos,
    {
        self.n_row = n_row;
        self.n_col = n_col;
        self.start_x = start_x;
    }

    /// The rows inside the border.
    pub fn get_rows(&self) -> (res: u16)
        requires
            self.n_row >= 2,
        ensures
            res == self.n_row - 2,
    {
        self.n_row - 2
    }

    /// The columns inside the border and margins.
    pub fn get_cols(&self) -> (res: u16)
        requires
            self.n_col >= 5,
        ensures
            res == self.n_col - 5,
    {
        self.n_col - 5
    }

    /// The terminal row of row `y` of the panel.
    pub fn abs_y(&self, y: i16) -> (res: u16)
        requires
            -1 <= y < i16::MAX,
        ensures
            res == y + 1,
    {
        let v: i16 = y + 1;
        v as u16
    }

    /// The terminal column of column `x` of the panel.
    pub fn abs_x(&self, x: i16) -> (res: u16)
        requires
            0 <= x + (self.start_x as i16) + 2 <= i16::MAX,
        ensures
            res == x + (self.start_x as i16) + 2,
    {
        let v: i16 = x + (self.start_x as i16) + 2;
        v as u16
    }
}


/// The rows between the top and bottom borders of a panel of `n_row`
/// rows.
pub open spec fn inner_rows(n_row: u16) -> nat {
    if n_row >= 2 {
        (n_row - 2) as nat
    } else {
        0
    }
}

impl Panel {
    /// The border can be drawn: there is a bottom row, room for the
    /// corners, and the right border and the title lie on the terminal.
    pub open spec fn border_fits(&self) -> bool {
        &&& self.n_row >= 1
        &&& self.n_col >= 2
        &&& self.start_x + self.n_col - 1 <= u16::MAX
        &&& self.start_x + 2 <= u16::MAX
    }

    /// What draws the border: the top line (with a plain corner for the
    /// leftmost panel and a joint otherwise), the bottom line, the two
    /// sides of each inner row, and the title in the top border.
    pub open spec fn border_cmds(&self) -> Seq<DrawView> {
        let tl = if self.screen_pos == 0 {
            TOP_LEFT
        } else {
            TOP_TEE
        };
        let bl = if self.screen_pos == 0 {
            BOTTOM_LEFT
        } else {
            BOTTOM_TEE
        };
        let line = repeat_char(HORIZONTAL, (self.n_col - 2) as nat);
        let top = seq![tl] + line + seq![TOP_RIGHT];
        let bottom = seq![bl] + line + seq![BOTTOM_RIGHT];
        let sides = Seq::new(
            2 * inner_rows(self.n_row),
            |i: int|
                if i % 2 == 0 {
                    (Some((self.start_x, (1 + i / 2) as u16)), seq![VERTICAL], None::<TextStyle>)
                } else {
                    (
                        Some(((self.start_x + self.n_col - 1) as u16, (1 + i / 2) as u16)),
                        seq![VERTICAL],
                        None::<TextStyle>,
                    )
                },
        );
        seq![
            (Some((self.start_x, 0u16)), top, None::<TextStyle>),
            (Some((self.start_x, (self.n_row - 1) as u16)), bottom, None::<TextStyle>),
        ] + sides + seq![(Some(((self.start_x + 2) as u16, 0u16)), self.title@, None::<TextStyle>)]
    }

    /// What clears the panel: a line of spaces on each row but the last.
    pub open spec fn clear_cmds(&self) -> Seq<DrawView> {
        Seq::new(
            (self.n_row - 1) as nat,
            |r: int| (Some((self.start_x, r as u16)), repeat_char(' ', self.n_col as nat), None::<TextStyle>),
        )
    }

    /// Draws the border around the panel.
    pub fn draw_border(&self) -> (res: Vec<DrawCmd>)
        requires
            self.border_fits(),
        ensures
            cmd_views(res@) == self.border_cmds(),
    {
        let (top_left, bot_left) = if self.screen_pos == 0 {
            (TOP_LEFT, BOTTOM_LEFT)
        } else {
            (TOP_TEE, BOTTOM_TEE)
        };
        let mut border_top = String::new();
        push_char(&mut border_top, top_left);
        push_repeat(&mut border_top, HORIZONTAL, self.n_col - 2);
        push_char(&mut border_top, TOP_RIGHT);
        let mut border_bottom = String::new();
        push_char(&mut border_bottom, bot_left);
        push_repeat(&mut border_bottom, HORIZONTAL, self.n_col - 2);
        push_char(&mut border_bottom, BOTTOM_RIGHT);
        let ghost line = repeat_char(HORIZONTAL, (self.n_col - 2) as nat);
        assert(border_top@ =~= seq![top_left] + line + seq![TOP_RIGHT]);
        assert(border_bottom@ =~= seq![bot_left] + line + seq![BOTTOM_RIGHT]);
        let mut cmds: Vec<DrawCmd> = Vec::new();
        cmds.push(DrawCmd { pos: Some((self.start_x, 0)), text: border_top, style: None });
        cmds.push(DrawCmd { pos: Some((self.start_x, self.n_row - 1)), text: border_bottom, style: None });
        let ghost head = cmd_views(cmds@);
        assert(head =~= self.border_cmds().take(2));
        let ghost sides = self.border_cmds().subrange(2, 2 + 2 * inner_rows(self.n_row) as int);
        let mut r: u16 = 1;
        while r < self.n_row - 1
            invariant
                self.border_fits(),
                1 <= r,
                r <= self.n_row - 1 || self.n_row == 1,
                self.n_row == 1 ==> r == 1,
                cmds@.len() == 2 + 2 * (r - 1),
                cmd_views(cmds@).take(2) == head,
                sides == self.border_cmds().subrange(2, 2 + 2 * inner_rows(self.n_row) as int),
                forall|i: int| 0 <= i < 2 * (r - 1) ==> cmd_views(cmds@)[2 + i] == #[trigger] sides[i],
            decreases self.n_row - r,
        {
            let mut left = String::new();
            push_char(&mut left, VERTICAL);
            let mut right = String::new();
            push_char(&mut right, VERTICAL);
            cmds.push(DrawCmd { pos: Some((self.start_x, r)), text: left, style: None });
            cmds.push(DrawCmd { pos: Some((self.start_x + (self.n_col - 1), r)), text: right, style: None });
            assert(cmd_views(cmds@).take(2) =~= head);
            r = r + 1;
        }
        assert(r - 1 == inner_rows(self.n_row));
        cmds.push(DrawCmd { pos: Some((self.start_x + 2, 0)), text: self.title.clone(), style: None });
        let ghost bc = self.border_cmds();
        assert forall|i: int| 0 <= i < bc.len() implies #[trigger] cmd_views(cmds@)[i] == bc[i] by {
            if i < 2 {
                assert(cmd_views(cmds@).take(2)[i] == head[i]);
            } else if i < 2 + 2 * inner_rows(self.n_row) {
                assert(cmd_views(cmds@)[2 + (i - 2)] == sides[i - 2]);
            }
        }
        assert(cmd_views(cmds@) =~= self.border_cmds());
        cmds
    }

    /// Clears the panel and draws its border.
    pub fn redraw(&self) -> (res: Vec<DrawCmd>)
        requires
            self.border_fits(),
        ensures
            cmd_views(res@) == self.clear_cmds() + self.border_cmds(),
    {
        let mut cmds: Vec<DrawCmd> = Vec::new();
        let mut r: u16 = 0;
        while r < self.n_row - 1
            invariant
                self.border_fits(),
                r <= self.n_row - 1,
                cmd_views(cmds@) == self.clear_cmds().take(r as int),
            decreases self.n_row - 1 - r,
        {
            let mut empty = String::new();
            push_repeat(&mut empty, ' ', self.n_col);
            assert(empty@ =~= repeat_char(' ', self.n_col as nat));
            let ghost prev = cmd_views(cmds@);
            cmds.push(DrawCmd { pos: Some((self.start_x, r)), text: empty, style: None });
            assert(cmd_views(cmds@) =~= prev.push(self.clear_cmds()[r as int]));
            r = r + 1;
            assert(cmd_views(cmds@) =~= self.clear_cmds().take(r as int));
        }
        let border = self.draw_border();
        let ghost c = cmd_views(cmds@);
        assert(c =~= self.clear_cmds());
        let ghost cv = cmds@;
        let ghost bv = border@;
        let mut border = border;
        cmds.append(&mut border);
        assert(cmds@ =~= cv + bv);
        assert(cmd_views(cv + bv) =~= cmd_views(cv) + cmd_views(bv));
        assert(cmd_views(cmds@) =~= self.clear_cmds() + self.border_cmds());
        cmds
    }
}


/// The views of the pieces of `(Option<(String, bool)>)`-free text: the
/// view of a list of strings.
pub open spec fn string_views(v: Seq<String>) -> Seq<Seq<char>> {
    v.map_values(|t: String| t@)
}

impl Panel {
    /// The terminal position of the start of row `y` of the panel.
    pub open spec fn row_pos(&self, y: int) -> (u16, u16) {
        ((self.start_x + 2) as u16, (y + 1) as u16)
    }

    /// Row `y` can be written: it lies on the terminal as the panel
    /// computes positions (in `i16`).
    pub open spec fn row_fits(&self, y: int) -> bool {
        &&& 0 <= y < i16::MAX
        &&& self.start_x + 2 <= i16::MAX
    }

    /// Writes `string` on row `y`, with `style` or plain.
    pub fn write_line(&self, y: u16, string: String, style: Option<TextStyle>) -> (res: DrawCmd)
        requires
            self.row_fits(y as int),
        ensures
            res.pos == Some(self.row_pos(y as int)),
            res.text == string,
            res.style == style,
    {
        let x = self.abs_x(0);
        let ry = self.abs_y(y as i16);
        DrawCmd { pos: Some((x, ry)), text: string, style: style }
    }

    /// What writes `key: value` on row `y`: the key and a colon in the
    /// key's style, then a space and the value in the value's style.
    pub open spec fn key_value_cmds(&self, y: int, key: Seq<char>, value: Seq<char>, key_style: Option<TextStyle>, value_style: Option<TextStyle>) -> Seq<DrawView> {
        seq![
            (Some(self.row_pos(y)), key.push(':'), key_style),
            (None::<(u16, u16)>, seq![' '] + value, value_style),
        ]
    }

    /// Writes `key: value` on row `y`.
    pub fn write_key_value_line(
        &self,
        y: u16,
        key: String,
        value: String,
        key_style: Option<TextStyle>,
        value_style: Option<TextStyle>,
    ) -> (res: Vec<DrawCmd>)
        requires
            self.row_fits(y as int),
        ensures
            cmd_views(res@) == self.key_value_cmds(y as int, key@, value@, key_style, value_style),
    {
        let ghost k0 = key@;
        let ghost v0 = value@;
        let mut key = key;
        push_char(&mut key, ':');
        proof {
            reveal_strlit(" ");
        }
        let mut v = String::from_str(" ");
        push_str(&mut v, value.as_str());
        let x = self.abs_x(0);
        let ry = self.abs_y(y as i16);
        let mut cmds: Vec<DrawCmd> = Vec::new();
        cmds.push(DrawCmd { pos: Some((x, ry)), text: key, style: key_style });
        cmds.push(DrawCmd { pos: None, text: v, style: value_style });
        assert(v@ =~= seq![' '] + v0);
        assert(key@ =~= k0.push(':'));
        assert(x == self.row_pos(y as int).0 && ry == self.row_pos(y as int).1);
        assert(cmd_views(cmds@)[0] == self.key_value_cmds(y as int, k0, v0, key_style, value_style)[0]);
        assert(cmd_views(cmds@)[1] == self.key_value_cmds(y as int, k0, v0, key_style, value_style)[1]);
        assert(cmd_views(cmds@) =~= self.key_value_cmds(y as int, k0, v0, key_style, value_style));
        cmds
    }

    /// The lines `text` wraps into on the panel.
    pub open spec fn wrap_lines_of(&self, text: Seq<char>) -> Seq<Seq<char>> {
        wrapped_lines(text, ((self.n_col - 5) as usize) as nat)
    }

    /// How many of those lines are written from row `start_y`.
    pub open spec fn wrap_rows(&self, start_y: int, text: Seq<char>) -> int {
        wrap_count(self.wrap_lines_of(text).len() as int, start_y, self.n_row - 2)
    }

    /// What writing `text` word-wrapped from row `start_y` draws (one
    /// line per row, stopping at the panel's last row but always writing
    /// the first line), and the last row written.
    pub open spec fn wrap_cmds(&self, start_y: int, text: Seq<char>, style: Option<TextStyle>) -> (Seq<DrawView>, int) {
        let lines = self.wrap_lines_of(text);
        let m = self.wrap_rows(start_y, text);
        (Seq::new(m as nat, |k: int| (Some(self.row_pos(start_y + k)), lines[k], style)), start_y + m - 1)
    }

    /// `text` can be written word-wrapped from row `start_y`.
    pub open spec fn wrap_fits(&self, start_y: int, text: Seq<char>) -> bool {
        let m = self.wrap_rows(start_y, text);
        &&& self.n_row >= 2
        &&& self.n_col >= 5
        &&& self.start_x + 2 <= i16::MAX
        &&& 0 <= start_y
        &&& m == 0 ==> start_y >= 1
        &&& start_y + m <= i16::MAX
    }

    /// Writes `string` word-wrapped from row `start_y`; gives what to
    /// draw and the last row written.
    pub fn write_wrap_line(&self, start_y: u16, string: &str, style: Option<TextStyle>) -> (res: (Vec<DrawCmd>, u16))
        requires
            self.wrap_fits(start_y as int, string@),
        ensures
            cmd_views(res.0@) == self.wrap_cmds(start_y as int, string@, style).0,
            res.1 == self.wrap_cmds(start_y as int, string@, style).1,
    {
        let max_row = self.get_rows();
        let lines = wrap_text(string, self.get_cols() as usize);
        let ghost lv = string_views(lines@);
        let ghost m = self.wrap_rows(start_y as int, string@);
        let ghost goal = self.wrap_cmds(start_y as int, string@, style).0;
        assert(lv == self.wrap_lines_of(string@)) by {
            assert(string_views(lines@) =~= super::mock_panel::line_views(lines@));
        }
        let mut cmds: Vec<DrawCmd> = Vec::new();
        let mut row = start_y;
        let mut k: usize = 0;
        while k < lines.len() && (k == 0 || row < max_row)
            invariant
                self.wrap_fits(start_y as int, string@),
                max_row == self.n_row - 2,
                lv == string_views(lines@),
                lv == self.wrap_lines_of(string@),
                m == self.wrap_rows(start_y as int, string@),
                goal == self.wrap_cmds(start_y as int, string@, style).0,
                k <= lines@.len(),
                k <= m,
                row == start_y + k,
                cmd_views(cmds@) == goal.take(k as int),
            decreases lines@.len() - k,
        {
            let text = lines[k].clone();
            let c = self.write_line(row, text, style);
            let ghost prev = cmd_views(cmds@);
            cmds.push(c);
            assert(cmd_views(cmds@) =~= prev.push(goal[k as int]));
            row = row + 1;
            k = k + 1;
            assert(cmd_views(cmds@) =~= goal.take(k as int));
        }
        assert(k == m);
        assert(goal.take(k as int) =~= goal);
        (cmds, row - 1)
    }

    /// Writes `string` as `write_wrap_line` does when it fits the panel;
    /// otherwise `None`.
    pub fn try_write_wrap_line(&self, start_y: u16, string: &str, style: Option<TextStyle>) -> (res: Option<(Vec<DrawCmd>, u16)>)
        ensures
            res is Some <==> self.wrap_fits(start_y as int, string@),
            res matches Some(r) ==> cmd_views(r.0@) == self.wrap_cmds(start_y as int, string@, style).0
                && r.1 == self.wrap_cmds(start_y as int, string@, style).1,
    {
        if self.n_row < 2 || self.n_col < 5 || self.start_x > 32765 {
            return None;
        }
        let lines = wrap_text(string, self.get_cols() as usize);
        assert(string_views(lines@) =~= super::mock_panel::line_views(lines@));
        let n = lines.len();
        let max_row = self.get_rows();
        let m: usize = if n == 0 {
            0
        } else if start_y >= max_row {
            1
        } else if n < (max_row - start_y) as usize {
            n
        } else {
            (max_row - start_y) as usize
        };
        if m == 0 && start_y < 1 {
            return None;
        }
        if (start_y as usize) + m > 32767 {
            return None;
        }
        Some(self.write_wrap_line(start_y, string, style))
    }
}


/// A title, or "No title".
pub open spec fn title_text(t: Option<String>) -> Seq<char> {
    match t {
        Some(t) => t@,
        None => "No title"@,
    }
}

/// The lines of the details template on a panel: the titles in bold,
/// the known facts between blank lines (see `meta_content`), and the
/// description under a heading, or a note that there is none.
pub open spec fn template_lines(d: Details) -> Seq<DetailsLineView> {
    let desc: Seq<DetailsLineView> = match d.description {
        Some(t) => seq![DetailsLineView::Line("Description:"@, None), DetailsLineView::Line(t@, None)],
        None => seq![DetailsLineView::Line("No description."@, None)],
    };
    seq![
        DetailsLineView::Line(title_text(d.pod_title), Some(TextStyle::Bold)),
        DetailsLineView::Line(title_text(d.ep_title), Some(TextStyle::Bold)),
    ] + meta_content(d) + desc
}

impl Panel {
    /// What the steps draw from the row after `row`, or `None` when one
    /// of them does not fit the panel.
    pub open spec fn run_detail_lines(&self, row: int, steps: Seq<DetailsLineView>) -> Option<Seq<DrawView>>
        decreases steps.len(),
    {
        if steps.len() == 0 {
            Some(Seq::empty())
        } else {
            match steps[0] {
                DetailsLineView::Blank => {
                    if row + 1 <= u16::MAX {
                        self.run_detail_lines(row + 1, steps.drop_first())
                    } else {
                        None
                    }
                },
                DetailsLineView::KeyValueLine((k, ks), (v, vs)) => {
                    if self.row_fits(row + 1) {
                        match self.run_detail_lines(row + 1, steps.drop_first()) {
                            Some(rest) => Some(self.key_value_cmds(row + 1, k, v, ks, vs) + rest),
                            None => None,
                        }
                    } else {
                        None
                    }
                },
                DetailsLineView::Line(t, st) => {
                    if 0 <= row + 1 && self.wrap_fits(row + 1, t) {
                        let w = self.wrap_cmds(row + 1, t, st);
                        match self.run_detail_lines(w.1, steps.drop_first()) {
                            Some(rest) => Some(w.0 + rest),
                            None => None,
                        }
                    } else {
                        None
                    }
                },
            }
        }
    }

    /// Runs the steps from the row after `row`: what they draw, or
    /// `None` when one of them does not fit.
    pub(crate) fn write_detail_lines(&self, row: i32, steps: Vec<DetailsLine>) -> (res: Option<Vec<DrawCmd>>)
        requires
            -1 <= row <= u16::MAX,
        ensures
            match res {
                Some(c) => self.run_detail_lines(row as int, detail_line_views(steps@)) == Some(cmd_views(c@)),
                None => self.run_detail_lines(row as int, detail_line_views(steps@)) is None,
            },
        decreases steps@.len(),
    {
        let mut steps = steps;
        if steps.len() == 0 {
            let empty: Vec<DrawCmd> = Vec::new();
            assert(cmd_views(empty@) =~= Seq::<DrawView>::empty());
            return Some(empty);
        }
        let ghost all = detail_line_views(steps@);
        let st = steps.remove(0);
        assert(all[0] == super::details_panel::detail_line_view(st));
        assert(all.drop_first() =~= detail_line_views(steps@));
        match st {
            DetailsLine::Blank => {
                if row + 1 > 65535 {
                    return None;
                }
                self.write_detail_lines(row + 1, steps)
            },
            DetailsLine::KeyValueLine((k, ks), (v, vs)) => {
                if row + 1 >= 32767 || self.start_x > 32765 {
                    return None;
                }
                let mut c = self.write_key_value_line(
                    (row + 1) as u16,
                    k,
                    v,
                    ks,
                    vs,
                );
                match self.write_detail_lines(row + 1, steps) {
                    Some(rest) => {
                        let ghost cv = c@;
                        let ghost rv = rest@;
                        let mut rest = rest;
                        c.append(&mut rest);
                        assert(c@ =~= cv + rv);
                        assert(cmd_views(cv + rv) =~= cmd_views(cv) + cmd_views(rv));
                        Some(c)
                    },
                    None => None,
                }
            },
            DetailsLine::Line(t, style) => {
                if row + 1 > 32767 {
                    return None;
                }
                match self.try_write_wrap_line((row + 1) as u16, t.as_str(), style) {
                    Some((c, r)) => {
                        match self.write_detail_lines(r as i32, steps) {
                            Some(rest) => {
                                let mut c = c;
                                let ghost cv = c@;
                                let ghost rv = rest@;
                                let mut rest = rest;
                                c.append(&mut rest);
                                assert(c@ =~= cv + rv);
                                assert(cmd_views(cv + rv) =~= cmd_views(cv) + cmd_views(rv));
                                Some(c)
                            },
                            None => None,
                        }
                    },
                    None => None,
                }
            },
        }
    }
}


/// The executable lines of the details template on a panel.
fn template_line_list(details: Details) -> (res: Vec<DetailsLine>)
    ensures
        detail_line_views(res@) == template_lines(details),
{
    let ghost d = details;
    let mut v: Vec<DetailsLine> = Vec::new();
    let pod = match &details.pod_title {
        Some(t) => t.clone(),
        None => String::from_str("No title"),
    };
    push_line(&mut v, DetailsLine::Line(pod, Some(TextStyle::Bold)));
    let ep = match &details.ep_title {
        Some(t) => t.clone(),
        None => String::from_str("No title"),
    };
    push_line(&mut v, DetailsLine::Line(ep, Some(TextStyle::Bold)));
    push_meta(&mut v, &details);
    let ghost before_desc = detail_line_views(v@);
    match details.description {
        Some(desc) => {
            push_line(&mut v, DetailsLine::Line(String::from_str("Description:"), None));
            push_line(&mut v, DetailsLine::Line(desc, None));
        },
        None => {
            push_line(&mut v, DetailsLine::Line(String::from_str("No description."), None));
        },
    }
    assert(detail_line_views(v@) =~= template_lines(d));
    v
}

impl Panel {
    /// Writes the details of an episode from row `start_y` (see
    /// `template_lines`); gives what to draw, or `None` when the
    /// template does not fit the panel.
    pub fn details_template(&self, start_y: u16, details: Details) -> (res: Option<Vec<DrawCmd>>)
        ensures
            match res {
                Some(c) => self.run_detail_lines(start_y - 1, template_lines(details)) == Some(
                    cmd_views(c@),
                ),
                None => self.run_detail_lines(start_y - 1, template_lines(details)) is None,
            },
    {
        let steps = template_line_list(details);
        self.write_detail_lines(start_y as i32 - 1, steps)
    }
}


impl Panel {
    /// The inside of the panel can be cleared.
    pub open spec fn inner_fits(&self) -> bool {
        &&& self.n_row >= 2
        &&& self.n_col >= 5
        &&& self.n_row - 2 <= i16::MAX
        &&& self.start_x + 2 <= i16::MAX
    }

    /// What clears the inside of the panel: a line of spaces as wide as
    /// the inside on each inner row, leaving the border as it is.
    pub open spec fn clear_inner_cmds(&self) -> Seq<DrawView> {
        Seq::new(
            (self.n_row - 2) as nat,
            |r: int| (Some(self.row_pos(r)), repeat_char(' ', (self.n_col - 5) as nat), None::<TextStyle>),
        )
    }

    /// Clears the inside of the panel.
    pub fn clear_inner(&self) -> (res: Vec<DrawCmd>)
        requires
            self.inner_fits(),
        ensures
            cmd_views(res@) == self.clear_inner_cmds(),
    {
        let rows = self.get_rows();
        let cols = self.get_cols();
        let mut cmds: Vec<DrawCmd> = Vec::new();
        let mut r: u16 = 0;
        while r < rows
            invariant
                self.inner_fits(),
                rows == self.n_row - 2,
                cols == self.n_col - 5,
                r <= rows,
                cmd_views(cmds@) == self.clear_inner_cmds().take(r as int),
            decreases rows - r,
        {
            let mut empty = String::new();
            push_repeat(&mut empty, ' ', cols);
            assert(empty@ =~= repeat_char(' ', cols as nat));
            let c = self.write_line(r, empty, None);
            let ghost prev = cmd_views(cmds@);
            cmds.push(c);
            assert(cmd_views(cmds@) =~= prev.push(self.clear_inner_cmds()[r as int]));
            r = r + 1;
            assert(cmd_views(cmds@) =~= self.clear_inner_cmds().take(r as int));
        }
        assert(self.clear_inner_cmds().take(r as int) =~= self.clear_inner_cmds());
        cmds
    }
}

} // verus!
