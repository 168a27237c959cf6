use shellcaster::types::{Episode, LockVec, NewEpisode, Podcast};
use shellcaster::ui::details_panel::{DetailsLine, DetailsPanel};
use shellcaster::ui::menu::{Menu, Scroll};
use shellcaster::ui::mock_panel::Details;
use shellcaster::ui::panel::{Panel, TextStyle};

fn episode(id: i64) -> Episode {
    Episode {
        id,
        pod_id: 1,
        title: format!("Episode {}", id),
        url: String::new(),
        guid: String::new(),
        description: String::new(),
        pubdate: None,
        duration: None,
        path: None,
        played: false,
    }
}

fn menu(n_items: i64, n_row: u16, top_row: u16, selected: u16) -> Menu<Episode> {
    let items = LockVec::new((0..n_items).map(episode).collect());
    let mut m = Menu::new(Panel::new("Episodes".to_string(), 1, n_row, 40, 0), None, items);
    m.top_row = top_row;
    m.selected = selected;
    m
}

#[test]
fn scroll_down_within_panel() {
    let mut m = menu(10, 7, 0, 0);
    m.scroll(Scroll::Down(2));
    assert_eq!((m.top_row, m.selected), (0, 2));
}

#[test]
fn scroll_down_past_bottom() {
    let mut m = menu(10, 7, 0, 4);
    m.scroll(Scroll::Down(1));
    assert_eq!((m.top_row, m.selected), (1, 4));
    m.scroll(Scroll::Down(9));
    assert_eq!((m.top_row, m.selected), (5, 4));
}

#[test]
fn scroll_down() {
    let mut m = menu(7, 7, 0, 4);
    m.scroll(Scroll::Down(1));
    assert_eq!((m.top_row, m.selected), (1, 4));
}

#[test]
fn scroll_up() {
    let mut m = menu(10, 7, 2, 0);
    m.scroll(Scroll::Up(1));
    assert_eq!((m.top_row, m.selected), (1, 0));
}

#[test]
fn scroll_up_within_and_past_top() {
    let mut m = menu(10, 7, 2, 3);
    m.scroll(Scroll::Up(1));
    assert_eq!((m.top_row, m.selected), (2, 2));
    m.scroll(Scroll::Up(5));
    assert_eq!((m.top_row, m.selected), (0, 0));
}

#[test]
fn resize_keeps_selected_item() {
    let mut m = menu(10, 9, 0, 6);
    m.resize(7, 40, 0, 0);
    assert_eq!((m.top_row, m.selected), (2, 4));
    assert_eq!((m.panel.n_row, m.panel.n_col), (7, 40));
    let mut n = menu(10, 5, 0, 6);
    n.resize(5, 40, 0, 0);
    assert_eq!((n.top_row, n.selected), (4, 2));
}

#[test]
fn menu_index() {
    let m = menu(10, 7, 3, 2);
    assert_eq!(m.get_menu_idx(2), 5);
}

#[test]
fn podcast_menu_episodes() {
    let pod = Podcast {
        id: 1,
        title: "Pod".to_string(),
        sort_title: "pod".to_string(),
        url: String::new(),
        description: None,
        author: None,
        explicit: None,
        last_checked: 0,
        episodes: LockVec::new(vec![episode(4), episode(5)]),
    };
    let m = Menu::new(Panel::new("Podcasts".to_string(), 0, 7, 40, 0), None, LockVec::new(vec![pod]));
    let eps = m.get_episodes();
    assert_eq!(eps.borrow_order().clone(), vec![4, 5]);
}

fn new_episode(id: i64, selected: bool) -> NewEpisode {
    NewEpisode { id, pod_id: 1, title: format!("E{}", id), pod_title: "P".to_string(), selected }
}

#[test]
fn select_item_flips_selection() {
    let items = LockVec::new(vec![new_episode(1, false), new_episode(2, false)]);
    let mut m = Menu::new(Panel::new("New".to_string(), 0, 7, 40, 0), None, items);
    m.selected = 1;
    m.select_item();
    assert_eq!(m.items.map_single(2, |e| e.selected), Some(true));
    assert_eq!(m.items.map_single(1, |e| e.selected), Some(false));
}

#[test]
fn select_all_selects_unless_all_selected() {
    let items = LockVec::new(vec![new_episode(1, true), new_episode(2, false)]);
    let mut m = Menu::new(Panel::new("New".to_string(), 0, 7, 40, 0), None, items);
    m.select_all_items();
    assert_eq!(m.items.map(|e| e.selected, false), vec![true, true]);
    m.select_all_items();
    assert_eq!(m.items.map(|e| e.selected, false), vec![false, false]);
}

fn line_text(l: &DetailsLine) -> String {
    match l {
        DetailsLine::Blank => String::new(),
        DetailsLine::Line(t, _) => t.clone(),
        DetailsLine::KeyValueLine((k, _), (v, _)) => format!("{}: {}", k, v),
    }
}

#[test]
fn details_panel_content_and_scroll() {
    let mut d = DetailsPanel::new("Details".to_string(), 2, 6, 30, 0);
    let details = Details {
        pod_title: Some("Pod".to_string()),
        ep_title: Some("Ep".to_string()),
        pubdate: None,
        duration: Some("00:10:00".to_string()),
        explicit: None,
        description: Some("one two three four five six seven eight nine ten eleven twelve".to_string()),
    };
    let _ = d.change_details(details);
    let texts: Vec<String> = d.content.iter().map(line_text).collect();
    assert_eq!(texts[0], "Pod");
    assert_eq!(texts[1], "Ep");
    assert_eq!(texts[2], "");
    assert_eq!(texts[3], "Duration: 00:10:00");
    assert_eq!(texts[4], "");
    assert_eq!(texts[5], "Description:");
    match &d.content[0] {
        DetailsLine::Line(_, style) => assert_eq!(*style, Some(TextStyle::Bold)),
        _ => panic!("a title line"),
    }
    assert_eq!(d.top_row, 0);
    let _ = d.scroll(Scroll::Down(2));
    assert_eq!(d.top_row, 2);
    let _ = d.scroll(Scroll::Up(5));
    assert_eq!(d.top_row, 0);
    let total = d.content.len() as u16;
    let _ = d.scroll(Scroll::Down(1000));
    assert_eq!(d.top_row, total - 4);
}

#[test]
fn selection_stays_on_screen_after_scrolling() {
    // 5 inner rows; every scroll keeps the selection on one of them
    let mut m = menu(30, 7, 0, 0);
    for lines in [Scroll::Down(3), Scroll::Down(9), Scroll::Up(2), Scroll::Down(1), Scroll::Up(20)] {
        m.scroll(lines);
        assert!(m.selected < 5);
    }
}

#[test]
fn resize_bigger() {
    let mut m = menu(10, 7, 0, 4);
    m.resize(12, 75, 0, 0);
    assert_eq!((m.top_row, m.selected), (0, 4));
    assert_eq!(m.panel.get_rows(), 10);
}

#[test]
fn panel_resize_takes_the_new_size() {
    let mut p = Panel::new("Details".to_string(), 2, 10, 40, 0);
    p.resize(20, 80, 0, 3);
    assert_eq!(p.get_rows(), 18);
    assert_eq!(p.get_cols(), 75);
    assert_eq!(p.start_x, 3);
}

#[test]
fn redraw_draws_the_visible_items() {
    // 7 rows (5 inside the border), 3 items from the top
    let mut m = menu(3, 7, 0, 0);
    let cmds = m.redraw();
    let rows: Vec<_> = cmds.iter().filter(|c| c.text.contains("Episode ") && matches!(c.pos, Some((2, _)))).collect();
    assert_eq!(rows.len(), 3);
    assert!(rows[0].text.contains("Episode 0"));
    assert_eq!(rows[0].pos, Some((2, 1)));
    assert_eq!(rows[2].pos, Some((2, 3)));
    assert_eq!(rows[0].style, Some(TextStyle::Bold));
}

#[test]
fn update_items_brings_the_selection_back() {
    // the selected item (index 4) is past the end of a 3-item list
    let mut m = menu(3, 9, 0, 4);
    m.update_items();
    assert_eq!(m.selected, 2);
    let mut n = menu(10, 9, 0, 4);
    n.update_items();
    assert_eq!(n.selected, 4);
}
