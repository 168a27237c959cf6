//! Menus: the lists of podcasts and episodes shown in panels, with the
//! row that is highlighted and the first item shown.
//!
//! `top_row` is the index of the first item shown; `selected` is the
//! highlighted row of the panel; `start_row` is the first row below the
//! header (0 when there is none). The item on row `y` is item
//! `top_row + y - start_row`.

use vstd::prelude::*;

use super::colors::ColorType;
use super::panel::{cmd_views, DrawCmd, DrawView, Panel, TextStyle};
use crate::types::checked_title;
use crate::types::{Episode, LockVec, Menuable, NewEpisode, Podcast};

verus! {

/// How far to scroll a menu, up or down.
#[derive(Debug, Clone, Copy, PartialEq, Eq, Structural)]
pub enum Scroll {
    Up(u16),
    Down(u16),
}

/// A list menu shown in a panel.
#[derive(Debug)]
pub struct Menu<T> where T: Clone + Menuable {
    pub panel: Panel,
    pub header: Option<String>,
    pub items: LockVec<T>,
    pub start_row: u16,
    pub top_row: u16,
    pub selected: u16,
}

/// The menu's position after scrolling by `lines`: (top row, selected
/// row), for a panel of `n_row` inner rows and a list of `list_len`
/// items (as the list's length is taken modulo 2^16). The selection
/// moves within the panel; the lines it would move past the top or the
/// bottom scroll the list instead, no further than its start or its end.
pub open spec fn scrolled(top_row: u16, selected: u16, n_row: u16, list_len: u16, lines: Scroll) -> (u16, u16) {
    match lines {
        Scroll::Up(v) => {
            if v <= selected {
                (top_row, (selected - v) as u16)
            } else {
                let amount = v - selected;
                ((if amount <= top_row {
                    top_row - amount
                } else {
                    0
                }) as u16, 0)
            }
        },
        Scroll::Down(v) => {
            if v < n_row - selected {
                (top_row, (selected + v) as u16)
            } else {
                let amount = v - (n_row - selected - 1);
                let bottom = list_len - n_row;
                ((if top_row + amount <= bottom {
                    top_row + amount
                } else {
                    bottom
                }) as u16, (n_row - 1) as u16)
            }
        },
    }
}

/// Scrolling by `lines` stays within the ranges of `u16`: going down
/// past the bottom needs the selection inside the panel and a list at
/// least as long as the panel.
pub open spec fn scroll_ok(top_row: u16, selected: u16, n_row: u16, list_len: u16, lines: Scroll) -> bool {
    match lines {
        Scroll::Up(v) => true,
        Scroll::Down(v) => {
            &&& selected <= n_row
            &&& v >= n_row - selected ==> selected < n_row && list_len >= n_row
        },
    }
}

impl<T: Clone + Menuable> Menu<T> {
    /// A menu of `items` in `panel`, with the first item at the top and
    /// the first row selected.
    pub fn new(panel: Panel, header: Option<String>, items: LockVec<T>) -> (res: Self)
        ensures
            res.panel == panel,
            res.header == header,
            res.items == items,
            res.start_row == 0,
            res.top_row == 0,
            res.selected == 0,
    {
        Self { panel: panel, header: header, items: items, start_row: 0, top_row: 0, selected: 0 }
    }

    /// The selected row brought back within the list: not above the
    /// start row and, when the list got shorter than the selected item,
    /// on the list's last item (when that item is not above the top row;
    /// otherwise the row stays as it is).
    pub open spec fn clamped_selection(&self) -> u16 {
        let s: int = if self.selected < self.start_row {
            self.start_row as int
        } else {
            self.selected as int
        };
        let len = self.items.order_view().len();
        let cur = self.top_row + s - self.start_row;
        if len > 0 && cur >= len && self.top_row <= len - 1 + self.start_row {
            (len - 1 + self.start_row - self.top_row) as u16
        } else {
            s as u16
        }
    }

    /// What draws row `i` of the panel, if it shows an item: the item's
    /// title in the panel's inner width, plain for a played item and
    /// bold otherwise. A row past the end of the list, or one the title
    /// cannot be laid out on, draws nothing.
    pub open spec fn row_view(&self, i: int) -> Option<DrawView> {
        let idx = self.top_row + i - self.start_row;
        let len = (self.panel.n_col - 5) as usize;
        if 0 <= idx < self.items.order_view().len() && self.panel.n_col >= 5 && self.panel.row_fits(i) {
            let item = self.items.items()[idx];
            if item.title_fits(len) {
                Some((Some(self.panel.row_pos(i)), item.spec_title(len), if item.spec_played() {
                    None
                } else {
                    Some(TextStyle::Bold)
                }))
            } else {
                None
            }
        } else {
            None
        }
    }

    /// What draws the rows from the start row up to (not including) row
    /// `k`.
    pub open spec fn rows_cmds(&self, k: int) -> Seq<DrawView>
        decreases k,
    {
        if k <= self.start_row {
            Seq::empty()
        } else {
            self.rows_cmds(k - 1) + match self.row_view(k - 1) {
                Some(c) => seq![c],
                None => Seq::empty(),
            }
        }
    }

    /// What draws row `i`: see `row_view`.
    fn draw_row(&self, i: u16) -> (res: Option<DrawCmd>)
        ensures
            match res {
                Some(c) => self.row_view(i as int) == Some((c.pos, c.text@, c.style)),
                None => self.row_view(i as int) is None,
            },
    {
        if (self.top_row as u64) + (i as u64) < (self.start_row as u64) {
            return None;
        }
        let idx: u64 = (self.top_row as u64) + (i as u64) - (self.start_row as u64);
        if idx >= self.items.len() as u64 || self.panel.n_col < 5 || i >= 32767 || self.panel.start_x
            > 32765 {
            return None;
        }
        let item = self.items.item_at(idx as usize);
        match checked_title(item, (self.panel.n_col - 5) as usize) {
            Some(title) => {
                let style = if item.is_played() {
                    None
                } else {
                    Some(TextStyle::Bold)
                };
                Some(self.panel.write_line(i, title, style))
            },
            None => None,
        }
    }

    /// Clears the panel, draws its border and the visible items (see
    /// `rows_cmds`), after bringing the selection back within the list
    /// (see `update_items`).
    pub fn redraw(&mut self) -> (res: Vec<DrawCmd>)
        requires
            old(self).panel.border_fits(),
        ensures
            final(self).selected == old(self).clamped_selection(),
            final(self).panel == old(self).panel,
            final(self).items == old(self).items,
            final(self).header == old(self).header,
            final(self).start_row == old(self).start_row,
            final(self).top_row == old(self).top_row,
            cmd_views(res@) == old(self).panel.clear_cmds() + old(self).panel.border_cmds()
                + final(self).rows_cmds(old(self).panel.n_row - 2),
    {
        let mut cmds = self.panel.redraw();
        self.update_items();
        let ghost base = cmd_views(cmds@);
        let n_rows: u16 = if self.panel.n_row >= 2 {
            self.panel.n_row - 2
        } else {
            0
        };
        let mut i: u16 = self.start_row;
        assert(self.rows_cmds(i as int) =~= Seq::<DrawView>::empty());
        while i < n_rows
            invariant
                self.start_row <= i,
                i <= n_rows || i == self.start_row,
                n_rows == if self.panel.n_row >= 2 { self.panel.n_row - 2 } else { 0 },
                cmd_views(cmds@) == base + self.rows_cmds(i as int),
            decreases n_rows - i,
        {
            let ghost before = cmds@;
            match self.draw_row(i) {
                Some(c) => {
                    cmds.push(c);
                    assert(cmd_views(cmds@) =~= cmd_views(before) + seq![self.row_view(i as int)->0]);
                },
                None => {},
            }
            assert(self.rows_cmds(i + 1) == self.rows_cmds(i as int) + match self.row_view(i as int) {
                Some(c) => seq![c],
                None => Seq::<DrawView>::empty(),
            });
            assert(cmd_views(cmds@) =~= base + self.rows_cmds(i + 1));
            i = i + 1;
        }
        proof {
            lemma_rows_cmds_before_start(self, i as int, self.panel.n_row - 2);
        }
        cmds
    }

    /// Brings the selection back within the list: see
    /// `clamped_selection`. (The rows are drawn by `redraw`.)
    pub fn update_items(&mut self)
        ensures
            final(self).selected == old(self).clamped_selection(),
            final(self).panel == old(self).panel,
            final(self).items == old(self).items,
            final(self).header == old(self).header,
            final(self).start_row == old(self).start_row,
            final(self).top_row == old(self).top_row,
    {
        if self.selected < self.start_row {
            self.selected = self.start_row;
        }
        let len = self.items.len();
        if len > 0 {
            let cur: u64 = (self.top_row as u64) + (self.selected as u64) - (self.start_row as u64);
            if cur >= len as u64 && (self.top_row as u64) <= (len as u64) - 1 + (self.start_row as u64) {
                self.selected = ((len as u64) - 1 + (self.start_row as u64) - (self.top_row as u64)) as u16;
            }
        }
    }

    /// Writes the header, if any, from the top row; gives what to draw
    /// and the first row below it (0 without a header).
    fn print_header(&mut self) -> (res: (Vec<DrawCmd>, u16))
        requires
            old(self).header matches Some(h) ==> old(self).panel.wrap_fits(0, h@)
                && old(self).panel.wrap_cmds(0, h@, None).1 + 2 <= u16::MAX,
        ensures
            *final(self) == *old(self),
            match old(self).header {
                Some(h) => super::panel::cmd_views(res.0@) == old(self).panel.wrap_cmds(0, h@, None).0
                    && res.1 == old(self).panel.wrap_cmds(0, h@, None).1 + 2,
                None => res.0@.len() == 0 && res.1 == 0,
            },
    {
        match &self.header {
            Some(header) => {
                let (cmds, row) = self.panel.write_wrap_line(0, header.as_str(), None);
                (cmds, row + 2)
            },
            None => (Vec::new(), 0),
        }
    }

    /// Scrolls the menu by `lines` lines: see `scrolled`. Going up past
    /// the top row scrolls the list up and selects the first row; going
    /// down past the bottom row scrolls the list down and selects the
    /// last row.
    pub fn scroll(&mut self, lines: Scroll)
        requires
            old(self).panel.n_row >= 2,
            scroll_ok(
                old(self).top_row,
                old(self).selected,
                (old(self).panel.n_row - 2) as u16,
                old(self).items.order_view().len() as u16,
                lines,
            ),
        ensures
            (final(self).top_row, final(self).selected) == scrolled(
                old(self).top_row,
                old(self).selected,
                (old(self).panel.n_row - 2) as u16,
                old(self).items.order_view().len() as u16,
                lines,
            ),
            final(self).panel == old(self).panel,
            final(self).header == old(self).header,
            final(self).items == old(self).items,
            final(self).start_row == old(self).start_row,
    {
        match lines {
            Scroll::Up(v) => {
                if v <= self.selected {
                    self.selected = self.selected - v;
                } else {
                    let list_scroll_amount = v - self.selected;
                    self.top_row = if list_scroll_amount <= self.top_row {
                        self.top_row - list_scroll_amount
                    } else {
                        0
                    };
                    self.selected = 0;
                }
            },
            Scroll::Down(v) => {
                let n_row = self.panel.get_rows();
                if v < n_row - self.selected {
                    self.selected = self.selected + v;
                } else {
                    let list_len = self.items.len() as u16;
                    let list_scroll_amount = v - (n_row - self.selected - 1);
                    let bottom = list_len - n_row;
                    let moved: u32 = self.top_row as u32 + list_scroll_amount as u32;
                    self.top_row = if moved <= bottom as u32 {
                        moved as u16
                    } else {
                        bottom
                    };
                    self.selected = n_row - 1;
                }
            },
        }
    }

    /// Sets the text attributes of row `index`; rows are not drawn, so
    /// nothing changes.
    pub fn set_attrs(&mut self, index: u16, played: bool, color: ColorType)
        ensures
            *final(self) == *old(self),
    {
    }

    /// Highlights the selected row; rows are not drawn, so nothing
    /// changes.
    pub fn highlight_selected(&mut self, active_menu: bool)
        ensures
            *final(self) == *old(self),
    {
    }

    /// The item on the selected row can be found.
    pub open spec fn selection_in_range(&self) -> bool {
        &&& self.top_row + self.selected <= u16::MAX
        &&& self.top_row + self.selected >= self.start_row
    }

    /// Highlights the selected item as active, if there is one; rows are
    /// not drawn, so nothing changes.
    pub fn activate(&mut self)
        requires
            old(self).selection_in_range(),
        ensures
            *final(self) == *old(self),
    {
        let idx = self.get_menu_idx(self.selected);
        if let Some(played) = self.items.map_single_by_index(idx, |el: &T| el.is_played()) {
            self.set_attrs(self.selected, played, ColorType::HighlightedActive);
        }
    }

    /// Takes on a new size: when the selected row falls below the
    /// panel's last row, the list scrolls so that the same item stays
    /// selected, on the last row.
    pub fn resize(&mut self, n_row: u16, n_col: u16, start_y: u16, start_x: u16)
        requires
            n_row >= 3,
            old(self).selected > n_row - 3 ==> old(self).top_row + old(self).selected - (n_row - 3)
                <= u16::MAX,
        ensures
            final(self).panel.n_row == n_row,
            final(self).panel.n_col == n_col,
            final(self).panel.start_x == start_x,
            final(self).panel.title == old(self).panel.title,
            final(self).panel.screen_pos == old(self).panel.screen_pos,
            final(self).items == old(self).items,
            final(self).header == old(self).header,
            final(self).start_row == old(self).start_row,
            if old(self).selected > n_row - 3 {
                &&& final(self).top_row == old(self).top_row + old(self).selected - (n_row - 3)
                &&& final(self).selected == n_row - 3
            } else {
                &&& final(self).top_row == old(self).top_row
                &&& final(self).selected == old(self).selected
            },
    {
        self.panel.resize(n_row, n_col, start_y, start_x);
        let n_row = self.panel.get_rows();
        if self.selected > n_row - 1 {
            self.top_row = self.top_row + (self.selected - (n_row - 1));
            self.selected = n_row - 1;
        }
    }

    /// The index of the item on row `screen_y` of the panel.
    pub fn get_menu_idx(&self, screen_y: u16) -> (res: usize)
        requires
            self.top_row + screen_y <= u16::MAX,
            self.top_row + screen_y >= self.start_row,
        ensures
            res == self.top_row + screen_y - self.start_row,
    {
        (self.top_row + screen_y - self.start_row) as usize
    }
}

impl Menu<Podcast> {
    /// A copy of the episode list of the selected podcast.
    pub fn get_episodes(&self) -> (res: LockVec<Episode>)
        requires
            self.selection_in_range(),
            self.top_row + self.selected - self.start_row < self.items.order_view().len(),
        ensures
            ({
                let pod = self.items.items()[self.top_row + self.selected - self.start_row];
                &&& res.map_view() == pod.episodes.map_view()
                &&& res.order_view() == pod.episodes.order_view()
                &&& res.filtered_view() == pod.episodes.filtered_view()
            }),
    {
        let index = self.get_menu_idx(self.selected);
        let pod = self.items.item_at(index);
        pod.episodes.clone()
    }

    /// Highlights the selected podcast as inactive, if there is one; rows
    /// are not drawn, so nothing changes.
    pub fn deactivate(&mut self)
        requires
            old(self).selection_in_range(),
        ensures
            *final(self) == *old(self),
    {
        let idx = self.get_menu_idx(self.selected);
        if let Some(played) = self.items.map_single_by_index(idx, |el: &Podcast| el.is_played()) {
            self.set_attrs(self.selected, played, ColorType::Highlighted);
        }
    }
}

impl Menu<Episode> {
    /// Shows the selected episode as normal, if there is one; rows are
    /// not drawn, so nothing changes.
    pub fn deactivate(&mut self)
        requires
            old(self).selection_in_range(),
        ensures
            *final(self) == *old(self),
    {
        let idx = self.get_menu_idx(self.selected);
        if let Some(played) = self.items.map_single_by_index(idx, |el: &Episode| el.is_played()) {
            self.set_attrs(self.selected, played, ColorType::Normal);
        }
    }
}


/// `ep` with its selection set to `sel`, or flipped when `sel` is
/// `None`.
pub open spec fn with_selection(ep: NewEpisode, sel: Option<bool>) -> NewEpisode {
    NewEpisode {
        selected: match sel {
            Some(s) => s,
            None => !ep.selected,
        },
        ..ep
    }
}

/// The episodes by id after changing, in turn, the selection of the
/// episode at each of `idxs` in the list `order` (indexes past the end
/// of the list are skipped).
pub open spec fn apply_selections(m: Map<i64, NewEpisode>, order: Seq<i64>, idxs: Seq<usize>, sel: Option<bool>) -> Map<i64, NewEpisode>
    decreases idxs.len(),
{
    if idxs.len() == 0 {
        m
    } else {
        let m1 = apply_selections(m, order, idxs.drop_last(), sel);
        let i = idxs.last() as int;
        if i < order.len() {
            m1.insert(order[i], with_selection(m1[order[i]], sel))
        } else {
            m1
        }
    }
}

/// The indexes `0 .. n`.
pub open spec fn index_range(n: nat) -> Seq<usize> {
    Seq::new(n, |i: int| i as usize)
}

/// Setting the selection of the episodes at `0 .. n` to `s` sets it on
/// each of them, changes nothing else of them, and keeps the ids.
proof fn lemma_select_range(m: Map<i64, NewEpisode>, order: Seq<i64>, n: nat, s: bool)
    requires
        n <= order.len(),
        n <= usize::MAX,
        forall|i: int| 0 <= i < order.len() ==> m.contains_key(#[trigger] order[i]),
    ensures
        ({
            let r = apply_selections(m, order, index_range(n), Some(s));
            &&& r.dom() == m.dom()
            &&& forall|i: int| 0 <= i < n ==> (#[trigger] r[order[i]]).selected == s
            &&& forall|id: i64| #[trigger] r.contains_key(id) ==> r[id] == NewEpisode { selected: r[id].selected, ..m[id] }
        }),
    decreases n,
{
    let r = apply_selections(m, order, index_range(n), Some(s));
    if n > 0 {
        lemma_select_range(m, order, (n - 1) as nat, s);
        assert(index_range(n).drop_last() =~= index_range((n - 1) as nat));
        let r0 = apply_selections(m, order, index_range((n - 1) as nat), Some(s));
        let last = order[n - 1];
        assert(index_range(n).last() as int == n - 1);
        assert(r == r0.insert(last, with_selection(r0[last], Some(s))));
        assert(r.dom() =~= m.dom());
        assert forall|i: int| 0 <= i < n implies (#[trigger] r[order[i]]).selected == s by {
            if order[i] != last {
                assert(r[order[i]] == r0[order[i]]);
            }
        }
        assert forall|id: i64| #[trigger] r.contains_key(id) implies r[id] == NewEpisode {
            selected: r[id].selected,
            ..m[id]
        } by {
            if id != last {
                assert(r[id] == r0[id]);
            }
        }
    } else {
        assert(r == m);
        assert forall|id: i64| #[trigger] r.contains_key(id) implies r[id] == NewEpisode {
            selected: r[id].selected,
            ..m[id]
        } by {
        }
    }
}

impl Menu<NewEpisode> {
    /// Changes, in turn, the selection of the episode at each of
    /// `indexes`: sets it to `selection` when given, else flips it. Tells
    /// whether any episode was changed.
    fn change_item_selections(&mut self, indexes: Vec<usize>, selection: Option<bool>) -> (res: bool)
        ensures
            final(self).items.map_view() == apply_selections(
                old(self).items.map_view(),
                old(self).items.order_view(),
                indexes@,
                selection,
            ),
            final(self).items.order_view() == old(self).items.order_view(),
            final(self).items.filtered_view() == old(self).items.filtered_view(),
            res == exists|k: int| 0 <= k < indexes@.len() && indexes@[k] < old(self).items.order_view().len(),
            final(self).panel == old(self).panel,
            final(self).header == old(self).header,
            final(self).start_row == old(self).start_row,
            final(self).top_row == old(self).top_row,
            final(self).selected == old(self).selected,
    {
        let mut changed = false;
        let mut i: usize = 0;
        while i < indexes.len()
            invariant
                i <= indexes@.len(),
                self.items.map_view() == apply_selections(
                    old(self).items.map_view(),
                    old(self).items.order_view(),
                    indexes@.take(i as int),
                    selection,
                ),
                self.items.order_view() == old(self).items.order_view(),
                self.items.filtered_view() == old(self).items.filtered_view(),
                changed == exists|k: int| 0 <= k < i && indexes@[k] < old(self).items.order_view().len(),
                self.panel == old(self).panel,
                self.header == old(self).header,
                self.start_row == old(self).start_row,
                self.top_row == old(self).top_row,
                self.selected == old(self).selected,
            decreases indexes.len() - i,
        {
            let idx = indexes[i];
            assert(indexes@.take(i + 1).drop_last() =~= indexes@.take(i as int));
            if idx < self.items.len() {
                let id = self.items.borrow_order()[idx];
                let mut ep = self.items.item_at(idx).clone();
                ep.selected = match selection {
                    Some(sel) => sel,
                    None => !ep.selected,
                };
                self.items.replace(id, ep);
                changed = true;
            }
            i = i + 1;
        }
        assert(indexes@.take(i as int) =~= indexes@);
        changed
    }

    /// Flips the selection of the selected episode.
    pub fn select_item(&mut self)
        requires
            old(self).selection_in_range(),
        ensures
            ({
                let idx = (old(self).top_row + old(self).selected - old(self).start_row) as usize;
                final(self).items.map_view() == apply_selections(
                    old(self).items.map_view(),
                    old(self).items.order_view(),
                    seq![idx],
                    None,
                )
            }),
            final(self).items.order_view() == old(self).items.order_view(),
            final(self).top_row == old(self).top_row,
            final(self).selected == if old(self).top_row + old(self).selected - old(self).start_row
                < old(self).items.order_view().len() {
                old(self).clamped_selection()
            } else {
                old(self).selected
            },
    {
        let idx = self.get_menu_idx(self.selected);
        let v = vec![idx];
        assert(v@ =~= seq![idx]);
        let changed = self.change_item_selections(v, None);
        if changed {
            self.update_items();
            self.highlight_selected(true);
        }
    }

    /// Selects every episode, or, when all of them are selected already,
    /// unselects every episode.
    pub fn select_all_items(&mut self)
        ensures
            ({
                let all_selected = forall|i: int|
                    0 <= i < old(self).items.order_view().len() ==> (#[trigger] old(self).items.items()[i]).selected;
                &&& final(self).items.map_view() == apply_selections(
                    old(self).items.map_view(),
                    old(self).items.order_view(),
                    index_range(old(self).items.order_view().len()),
                    Some(!all_selected),
                )
                &&& forall|i: int|
                    0 <= i < final(self).items.order_view().len() ==> (#[trigger] final(self).items.items()[i]).selected
                        == !all_selected
            }),
            final(self).items.order_view() == old(self).items.order_view(),
            final(self).items.map_view().dom() == old(self).items.map_view().dom(),
            final(self).top_row == old(self).top_row,
            final(self).selected == if old(self).items.order_view().len() > 0 {
                old(self).clamped_selection()
            } else {
                old(self).selected
            },
    {
        let is_selected = |ep: &NewEpisode| -> (b: bool)
            ensures
                b == ep.selected,
        {
            ep.selected
        };
        let flags = self.items.map(is_selected, false);
        let ghost items = self.items.items();
        let mut all_selected = true;
        let mut i: usize = 0;
        while i < flags.len()
            invariant
                i <= flags@.len(),
                flags@.len() == items.len(),
                forall|j: int| 0 <= j < flags@.len() ==> #[trigger] flags@[j] == items[j].selected,
                all_selected == forall|j: int| 0 <= j < i ==> (#[trigger] items[j]).selected,
            decreases flags.len() - i,
        {
            if !flags[i] {
                all_selected = false;
            }
            i = i + 1;
        }
        let n = self.items.len();
        let mut indexes: Vec<usize> = Vec::new();
        let mut k: usize = 0;
        while k < n
            invariant
                k <= n,
                indexes@ == index_range(k as nat),
            decreases n - k,
        {
            indexes.push(k);
            k = k + 1;
            assert(indexes@ =~= index_range(k as nat));
        }
        let ghost m0 = self.items.map_view();
        let ghost order = self.items.order_view();
        proof {
            lemma_select_range(m0, order, n as nat, !all_selected);
        }
        let changed = self.change_item_selections(indexes, Some(!all_selected));
        if changed {
            self.update_items();
            self.highlight_selected(true);
        }
    }
}

/// Scrolling keeps the selection on screen: when the selected row is
/// one of the panel's `n_row` rows, it still is after scrolling either
/// way.
pub proof fn law_scroll_keeps_selection_on_screen(top_row: u16, selected: u16, n_row: u16, list_len: u16, lines: Scroll)
    requires
        selected < n_row,
        scroll_ok(top_row, selected, n_row, list_len, lines),
    ensures
        scrolled(top_row, selected, n_row, list_len, lines).1 < n_row,
{
}

/// Once the rows from the start row have all been drawn, what was drawn
/// is what the panel's rows draw: rows before the start row draw
/// nothing.
proof fn lemma_rows_cmds_before_start<T: Clone + Menuable>(m: &Menu<T>, i: int, k: int)
    requires
        i >= m.start_row,
        i == k || (k <= m.start_row && i == m.start_row),
    ensures
        m.rows_cmds(i) == m.rows_cmds(k),
    decreases m.start_row - k,
{
    if i != k && k < m.start_row {
        lemma_rows_cmds_before_start(m, i, k + 1);
    }
}

} // verus!
