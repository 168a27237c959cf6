//! The details panel: the title, date, duration and description of the
//! selected episode, laid out as lines that fit the panel's width and
//! scrolled as a whole.

use vstd::prelude::*;

use super::menu::Scroll;
use super::mock_panel::{line_views, wrap_text, wrapped_lines, Details};
use super::panel::{cmd_views, DrawCmd, DrawView, Panel, TextStyle};
use crate::types::{format_date, formatted_date};

verus! {

/// One line of the details panel's content: a blank line, a line of
/// text, or a `key: value` line; each piece with its style.
#[derive(Debug)]
pub enum DetailsLine {
    Blank,
    Line(String, Option<TextStyle>),
    KeyValueLine((String, Option<TextStyle>), (String, Option<TextStyle>)),
}

/// The view of a line of content.
pub enum DetailsLineView {
    Blank,
    Line(Seq<char>, Option<TextStyle>),
    KeyValueLine((Seq<char>, Option<TextStyle>), (Seq<char>, Option<TextStyle>)),
}

/// The view of a line.
pub open spec fn detail_line_view(l: DetailsLine) -> DetailsLineView {
    match l {
        DetailsLine::Blank => DetailsLineView::Blank,
        DetailsLine::Line(t, s) => DetailsLineView::Line(t@, s),
        DetailsLine::KeyValueLine((k, ks), (v, vs)) => DetailsLineView::KeyValueLine((k@, ks), (v@, vs)),
    }
}

/// The views of lines.
pub open spec fn detail_line_views(v: Seq<DetailsLine>) -> Seq<DetailsLineView> {
    v.map_values(|l: DetailsLine| detail_line_view(l))
}

/// Each line `text` wraps into for `width` columns, with `style`.
pub open spec fn wrapped_content(text: Seq<char>, width: nat, style: Option<TextStyle>) -> Seq<DetailsLineView> {
    wrapped_lines(text, width).map_values(|l: Seq<char>| DetailsLineView::Line(l, style))
}

/// A title, or "No title".
pub open spec fn title_or_none(t: Option<String>) -> Seq<char> {
    match t {
        Some(t) => t@,
        None => "No title"@,
    }
}

/// The titles of the podcast and the episode, wrapped and in bold.
pub open spec fn titles_content(d: Details, width: nat) -> Seq<DetailsLineView> {
    wrapped_content(title_or_none(d.pod_title), width, Some(TextStyle::Bold)) + wrapped_content(
        title_or_none(d.ep_title),
        width,
        Some(TextStyle::Bold),
    )
}

/// A blank line, the date, duration and explicitness when known (each
/// as `key: value` with the key underlined), and another blank line.
pub open spec fn meta_content(d: Details) -> Seq<DetailsLineView> {
    let ul = Some(TextStyle::Underlined);
    let date: Seq<DetailsLineView> = match d.pubdate {
        Some(ts) => match formatted_date(ts as int, "%B %-d, %Y"@) {
            Some(text) => seq![DetailsLineView::KeyValueLine(("Published"@, ul), (text, None))],
            None => Seq::empty(),
        },
        None => Seq::empty(),
    };
    let dur: Seq<DetailsLineView> = match d.duration {
        Some(t) => seq![DetailsLineView::KeyValueLine(("Duration"@, ul), (t@, None))],
        None => Seq::empty(),
    };
    let exp: Seq<DetailsLineView> = match d.explicit {
        Some(true) => seq![DetailsLineView::KeyValueLine(("Explicit"@, ul), ("Yes"@, None))],
        Some(false) => seq![DetailsLineView::KeyValueLine(("Explicit"@, ul), ("No"@, None))],
        None => Seq::empty(),
    };
    seq![DetailsLineView::Blank] + date + dur + exp + seq![DetailsLineView::Blank]
}

/// The description wrapped under a bold heading, or a note that there
/// is none.
pub open spec fn description_content(d: Details, width: nat) -> Seq<DetailsLineView> {
    match d.description {
        Some(t) => wrapped_content("Description:"@, width, Some(TextStyle::Bold)) + wrapped_content(
            t@,
            width,
            None,
        ),
        None => wrapped_content("No description."@, width, None),
    }
}

/// The content of the details panel for `d` at `width` columns: the
/// titles, the known facts, and the description.
pub open spec fn details_content(d: Details, width: nat) -> Seq<DetailsLineView> {
    titles_content(d, width) + meta_content(d) + description_content(d, width)
}

/// Appends the lines `text` wraps into for `width` columns, with
/// `style`.
fn push_wrapped(content: &mut Vec<DetailsLine>, text: &str, width: usize, style: Option<TextStyle>)
    ensures
        detail_line_views(final(content)@) == detail_line_views(old(content)@) + wrapped_content(
            text@,
            width as nat,
            style,
        ),
{
    let lines = wrap_text(text, width);
    let ghost start = detail_line_views(content@);
    let ghost goal = wrapped_content(text@, width as nat, style);
    let mut i: usize = 0;
    while i < lines.len()
        invariant
            i <= lines@.len(),
            line_views(lines@) == wrapped_lines(text@, width as nat),
            goal == wrapped_content(text@, width as nat, style),
            detail_line_views(content@) == start + goal.take(i as int),
        decreases lines.len() - i,
    {
        let ghost prev = content@;
        content.push(DetailsLine::Line(lines[i].clone(), style));
        assert(detail_line_views(content@) =~= detail_line_views(prev).push(goal[i as int]));
        i = i + 1;
        assert(goal.take(i as int) =~= goal.take(i - 1).push(goal[i - 1]));
    }
    assert(goal.take(i as int) =~= goal);
}

/// Appends one line.
pub(crate) fn push_line(content: &mut Vec<DetailsLine>, line: DetailsLine)
    ensures
        detail_line_views(final(content)@) == detail_line_views(old(content)@).push(detail_line_view(line)),
{
    let ghost prev = content@;
    let ghost lv = detail_line_view(line);
    content.push(line);
    assert(detail_line_views(content@) =~= detail_line_views(prev).push(lv));
}

/// Appends the titles.
fn push_titles(content: &mut Vec<DetailsLine>, details: &Details, width: usize)
    ensures
        detail_line_views(final(content)@) == detail_line_views(old(content)@) + titles_content(
            *details,
            width as nat,
        ),
{
    let bold = Some(TextStyle::Bold);
    match &details.pod_title {
        Some(t) => push_wrapped(content, t.as_str(), width, bold),
        None => push_wrapped(content, "No title", width, bold),
    }
    match &details.ep_title {
        Some(t) => push_wrapped(content, t.as_str(), width, bold),
        None => push_wrapped(content, "No title", width, bold),
    }
    assert(detail_line_views(content@) =~= detail_line_views(old(content)@) + titles_content(
        *details,
        width as nat,
    ));
}

/// Appends the blank lines and the known facts.
pub(crate) fn push_meta(content: &mut Vec<DetailsLine>, details: &Details)
    ensures
        detail_line_views(final(content)@) == detail_line_views(old(content)@) + meta_content(*details),
{
    let underlined = Some(TextStyle::Underlined);
    push_line(content, DetailsLine::Blank);
    if let Some(ts) = details.pubdate {
        if let Some(date) = format_date(ts, "%B %-d, %Y") {
            push_line(
                content,
                DetailsLine::KeyValueLine((String::from_str("Published"), underlined), (date, None)),
            );
        }
    }
    if let Some(dur) = &details.duration {
        push_line(
            content,
            DetailsLine::KeyValueLine((String::from_str("Duration"), underlined), (dur.clone(), None)),
        );
    }
    if let Some(exp) = details.explicit {
        let exp_string = if exp {
            String::from_str("Yes")
        } else {
            String::from_str("No")
        };
        push_line(
            content,
            DetailsLine::KeyValueLine((String::from_str("Explicit"), underlined), (exp_string, None)),
        );
    }
    push_line(content, DetailsLine::Blank);
    assert(detail_line_views(content@) =~= detail_line_views(old(content)@) + meta_content(*details));
}

/// Appends the description.
fn push_description(content: &mut Vec<DetailsLine>, details: &Details, width: usize)
    ensures
        detail_line_views(final(content)@) == detail_line_views(old(content)@) + description_content(
            *details,
            width as nat,
        ),
{
    match &details.description {
        Some(desc) => {
            push_wrapped(content, "Description:", width, Some(TextStyle::Bold));
            push_wrapped(content, desc.as_str(), width, None);
        },
        None => {
            push_wrapped(content, "No description.", width, None);
        },
    }
    assert(detail_line_views(content@) =~= detail_line_views(old(content)@) + description_content(
        *details,
        width as nat,
    ));
}

/// The details panel: the panel, the details shown, their content laid
/// out in lines, and the first line shown.
#[derive(Debug)]
pub struct DetailsPanel {
    pub panel: Panel,
    pub details: Option<Details>,
    pub content: Vec<DetailsLine>,
    pub top_row: u16,
    pub total_rows: u16,
}

impl DetailsPanel {
    /// A details panel with nothing to show.
    pub fn new(title: String, screen_pos: usize, n_row: u16, n_col: u16, start_x: u16) -> (res: Self)
        ensures
            res.panel.title == title,
            res.panel.screen_pos == screen_pos,
            res.panel.n_row == n_row,
            res.panel.n_col == n_col,
            res.panel.start_x == start_x,
            res.details is None,
            res.content@.len() == 0,
            res.top_row == 0,
            res.total_rows == 0,
    {
        let panel = Panel::new(title, screen_pos, n_row, n_col, start_x);
        DetailsPanel { panel: panel, details: None, content: Vec::new(), top_row: 0, total_rows: 0 }
    }

    /// Clears the panel and draws its border.
    pub fn redraw(&self) -> (res: Vec<DrawCmd>)
        requires
            self.panel.border_fits(),
        ensures
            cmd_views(res@) == self.panel.clear_cmds() + self.panel.border_cmds(),
    {
        self.panel.redraw()
    }

    /// Lays the details out in lines that fit the panel's width (see
    /// `details_content`); without details, the content stays as it is.
    fn stringify_content(&mut self)
        requires
            old(self).panel.n_col >= 5,
        ensures
            match old(self).details {
                Some(d) => detail_line_views(final(self).content@) == details_content(
                    d,
                    (old(self).panel.n_col - 5) as nat,
                ),
                None => final(self).content@ == old(self).content@,
            },
            final(self).panel == old(self).panel,
            final(self).details == old(self).details,
            final(self).top_row == old(self).top_row,
            final(self).total_rows == old(self).total_rows,
    {
        if let Some(details) = &self.details {
            let num_cols = self.panel.get_cols() as usize;
            let mut content: Vec<DetailsLine> = Vec::new();
            push_titles(&mut content, details, num_cols);
            push_meta(&mut content, details);
            push_description(&mut content, details, num_cols);
            assert(detail_line_views(content@) =~= details_content(*details, num_cols as nat));
            self.content = content;
        }
    }
}


/// A copy of the lines from `from` on (none when `from` is past the
/// end).
fn copy_lines_from(v: &Vec<DetailsLine>, from: usize) -> (res: Vec<DetailsLine>)
    ensures
        detail_line_views(res@) == if from < v@.len() {
            detail_line_views(v@).skip(from as int)
        } else {
            Seq::empty()
        },
{
    let mut res: Vec<DetailsLine> = Vec::new();
    let mut i: usize = from;
    let ghost goal = if from < v@.len() {
        detail_line_views(v@).skip(from as int)
    } else {
        Seq::empty()
    };
    if from >= v.len() {
        assert(detail_line_views(res@) =~= goal);
        return res;
    }
    while i < v.len()
        invariant
            from <= i <= v@.len(),
            from < v@.len(),
            goal == detail_line_views(v@).skip(from as int),
            detail_line_views(res@) == goal.take(i - from),
        decreases v.len() - i,
    {
        let l = match &v[i] {
            DetailsLine::Blank => DetailsLine::Blank,
            DetailsLine::Line(t, s) => DetailsLine::Line(t.clone(), *s),
            DetailsLine::KeyValueLine((k, ks), (val, vs)) => DetailsLine::KeyValueLine(
                (k.clone(), *ks),
                (val.clone(), *vs),
            ),
        };
        let ghost prev = detail_line_views(res@);
        assert(detail_line_view(l) == goal[i - from]);
        res.push(l);
        assert(detail_line_views(res@) =~= prev.push(goal[i - from]));
        i = i + 1;
        assert(detail_line_views(res@) =~= goal.take(i - from));
    }
    assert(goal.take(i - from) =~= goal);
    res
}

impl DetailsPanel {
    /// The lines shown: the content from the first line shown on.
    pub open spec fn shown_lines(&self) -> Seq<DetailsLineView> {
        if self.top_row < self.content@.len() {
            detail_line_views(self.content@).skip(self.top_row as int)
        } else {
            Seq::empty()
        }
    }

    /// What writing the content draws: nothing without content, else
    /// the lines shown from the panel's first row (`None` when they do
    /// not fit the panel).
    pub open spec fn details_cmds(&self) -> Option<Seq<DrawView>> {
        if self.content@.len() == 0 {
            Some(Seq::empty())
        } else {
            self.panel.run_detail_lines(-1, self.shown_lines())
        }
    }

    /// Writes the content, from the first line shown, on the panel's
    /// rows; gives what to draw, or `None` when it does not fit.
    pub fn write_details(&mut self) -> (res: Option<Vec<DrawCmd>>)
        ensures
            *final(self) == *old(self),
            match res {
                Some(c) => old(self).details_cmds() == Some(cmd_views(c@)),
                None => old(self).details_cmds() is None,
            },
    {
        if self.content.len() == 0 {
            let empty: Vec<DrawCmd> = Vec::new();
            assert(cmd_views(empty@) =~= Seq::<DrawView>::empty());
            return Some(empty);
        }
        let lines = copy_lines_from(&self.content, self.top_row as usize);
        self.panel.write_detail_lines(-1, lines)
    }

    /// What scrolling draws after the first line shown has changed: the
    /// inside cleared, then the content written (`None` when either does
    /// not fit).
    pub open spec fn redraw_after_scroll(&self) -> Option<Seq<DrawView>> {
        if !self.panel.inner_fits() {
            None
        } else {
            match self.details_cmds() {
                Some(c) => Some(self.panel.clear_inner_cmds() + c),
                None => None,
            }
        }
    }

    /// The first line shown after scrolling by `lines`: up stops at the
    /// first line; down stops when the last line reaches the panel's
    /// last row, and does nothing when all lines fit the panel.
    pub open spec fn scrolled_top(&self, lines: Scroll) -> u16 {
        let total = self.content@.len() as u16;
        if self.content@.len() == 0 {
            self.top_row
        } else {
            match lines {
                Scroll::Up(v) => {
                    if v <= self.top_row {
                        (self.top_row - v) as u16
                    } else {
                        0
                    }
                },
                Scroll::Down(v) => {
                    let n_row = self.panel.n_row - 2;
                    if total <= n_row {
                        self.top_row
                    } else {
                        let room = total - self.top_row - n_row;
                        (self.top_row + if v <= room {
                            v as int
                        } else {
                            room
                        }) as u16
                    }
                },
            }
        }
    }

    /// Scrolls the content by `lines` (see `scrolled_top`); when the
    /// first line shown changes, gives what redraws the inside, else
    /// nothing to draw; `None` when the redrawing does not fit.
    pub fn scroll(&mut self, lines: Scroll) -> (res: Option<Vec<DrawCmd>>)
        requires
            lines matches Scroll::Down(_) && old(self).content@.len() > 0 ==> {
                &&& old(self).panel.n_row >= 2
                &&& (old(self).content@.len() as u16) > old(self).panel.n_row - 2 ==> old(self).top_row
                    + old(self).panel.n_row - 2 <= (old(self).content@.len() as u16)
            },
        ensures
            final(self).top_row == old(self).scrolled_top(lines),
            final(self).panel == old(self).panel,
            final(self).content == old(self).content,
            final(self).details == old(self).details,
            final(self).total_rows == old(self).total_rows,
            if final(self).top_row == old(self).top_row {
                res matches Some(c) && c@.len() == 0
            } else {
                match res {
                    Some(c) => final(self).redraw_after_scroll() == Some(cmd_views(c@)),
                    None => final(self).redraw_after_scroll() is None,
                }
            },
    {
        if self.content.len() == 0 {
            return Some(Vec::new());
        }
        let total_rows = self.content.len() as u16;
        let old_top_row = self.top_row;
        match lines {
            Scroll::Up(v) => {
                self.top_row = match self.top_row.checked_sub(v) {
                    Some(top) => top,
                    None => 0,
                };
            },
            Scroll::Down(v) => {
                let n_row = self.panel.get_rows();
                if total_rows <= n_row {
                    return Some(Vec::new());
                }
                let room = total_rows - self.top_row - n_row;
                let move_dist = if v <= room {
                    v
                } else {
                    room
                };
                self.top_row = self.top_row + move_dist;
            },
        }
        if self.top_row == old_top_row {
            return Some(Vec::new());
        }
        if self.panel.n_row < 2 || self.panel.n_col < 5 || self.panel.n_row - 2 > 32767
            || self.panel.start_x > 32765 {
            return None;
        }
        let mut cmds = self.panel.clear_inner();
        match self.write_details() {
            Some(c) => {
                let ghost cv = cmds@;
                let ghost wv = c@;
                let mut c = c;
                cmds.append(&mut c);
                assert(cmds@ =~= cv + wv);
                assert(cmd_views(cv + wv) =~= cmd_views(cv) + cmd_views(wv));
                Some(cmds)
            },
            None => None,
        }
    }

    /// Shows `details` from their first line: lays them out, clears the
    /// panel and writes them; gives what to draw (`None` when the content
    /// does not fit the panel).
    pub fn change_details(&mut self, details: Details) -> (res: Option<Vec<DrawCmd>>)
        requires
            old(self).panel.n_col >= 5,
            old(self).panel.border_fits(),
        ensures
            final(self).top_row == 0,
            final(self).details == Some(details),
            final(self).panel == old(self).panel,
            detail_line_views(final(self).content@) == details_content(
                details,
                (old(self).panel.n_col - 5) as nat,
            ),
            match res {
                Some(c) => final(self).details_cmds() matches Some(w) && cmd_views(c@)
                    == final(self).panel.clear_cmds() + final(self).panel.border_cmds() + w,
                None => final(self).details_cmds() is None,
            },
    {
        self.top_row = 0;
        self.details = Some(details);
        self.stringify_content();
        self.redraw_content()
    }

    /// Clears the panel, draws its border and writes the content.
    fn redraw_content(&mut self) -> (res: Option<Vec<DrawCmd>>)
        requires
            old(self).panel.border_fits(),
        ensures
            *final(self) == *old(self),
            match res {
                Some(c) => old(self).details_cmds() matches Some(w) && cmd_views(c@)
                    == old(self).panel.clear_cmds() + old(self).panel.border_cmds() + w,
                None => old(self).details_cmds() is None,
            },
    {
        let mut cmds = self.redraw();
        match self.write_details() {
            Some(c) => {
                let ghost cv = cmds@;
                let ghost wv = c@;
                let mut c = c;
                cmds.append(&mut c);
                assert(cmds@ =~= cv + wv);
                assert(cmd_views(cv + wv) =~= cmd_views(cv) + cmd_views(wv));
                Some(cmds)
            },
            None => None,
        }
    }

    /// Takes on a new size (`n_row` rows by `n_col` columns from column
    /// `start_x`) and lays the content out again for the new width.
    pub fn resize(&mut self, n_row: u16, n_col: u16, start_x: u16) -> (res: Option<Vec<DrawCmd>>)
        requires
            n_col >= 5,
            n_row >= 1,
            start_x + n_col - 1 <= u16::MAX,
            start_x + 2 <= u16::MAX,
        ensures
            final(self).panel.n_row == n_row,
            final(self).panel.n_col == n_col,
            final(self).panel.start_x == start_x,
            final(self).panel.title == old(self).panel.title,
            final(self).panel.screen_pos == old(self).panel.screen_pos,
            final(self).details == old(self).details,
            final(self).top_row == old(self).top_row,
            match old(self).details {
                Some(d) => detail_line_views(final(self).content@) == details_content(
                    d,
                    (n_col - 5) as nat,
                ),
                None => final(self).content@ == old(self).content@,
            },
            match res {
                Some(c) => final(self).details_cmds() matches Some(w) && cmd_views(c@)
                    == final(self).panel.clear_cmds() + final(self).panel.border_cmds() + w,
                None => final(self).details_cmds() is None,
            },
    {
        self.panel.resize(n_row, n_col, 0, start_x);
        self.stringify_content();
        self.redraw_content()
    }
}


/// Scrolling the details never shows past their end: when the content
/// is longer than the panel and its end is not above the panel's last
/// row, it stays so after scrolling either way.
pub proof fn law_scroll_stays_in_content(dp: DetailsPanel, lines: Scroll)
    requires
        dp.content@.len() <= u16::MAX,
        dp.panel.n_row >= 2,
        dp.content@.len() > dp.panel.n_row - 2,
        dp.top_row + dp.panel.n_row - 2 <= dp.content@.len(),
    ensures
        dp.scrolled_top(lines) + dp.panel.n_row - 2 <= dp.content@.len(),
        dp.scrolled_top(lines) <= dp.content@.len(),
{
}

} // verus!
