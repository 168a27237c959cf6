use shellcaster::ui::colors::{AppColors, ColorType};
use shellcaster::ui::mock_panel::{Details, Panel as MemPanel, A_NORMAL, A_UNDERLINE};
use shellcaster::ui::panel::{DrawCmd, Panel, TextStyle};

fn mem_panel(n_row: i32, n_col: i32) -> MemPanel {
    MemPanel::new(AppColors::default(), "Title".to_string(), 0, n_row, n_col, 0, 0)
}

fn cmd(c: &DrawCmd) -> (Option<(u16, u16)>, String, Option<TextStyle>) {
    (c.pos, c.text.clone(), c.style)
}

#[test]
fn mem_panel_new_is_empty() {
    let p = mem_panel(7, 20);
    assert_eq!(p.window.len(), 5);
    assert_eq!(p.get_rows(), 5);
    assert_eq!(p.get_cols(), 15);
    assert_eq!(p.get_row(0), (String::new(), A_NORMAL, ColorType::Normal));
}

#[test]
fn mem_panel_write_insert_delete() {
    let mut p = mem_panel(5, 20);
    p.write_line(0, "one".to_string());
    p.write_line(1, "two".to_string());
    p.insert_line(0, "zero".to_string());
    assert_eq!(p.get_row(0).0, "zero");
    assert_eq!(p.get_row(1).0, "one");
    assert_eq!(p.get_row(2).0, "two");
    p.delete_line(0);
    assert_eq!(p.get_row(0).0, "one");
    assert_eq!(p.get_row(2).0, "");
    assert_eq!(p.window.len(), 3);
}

#[test]
fn mem_panel_wrap_stops_at_last_row() {
    let mut p = mem_panel(5, 10);
    let row = p.write_wrap_line(0, "aaa bbb ccc ddd".to_string());
    assert_eq!(row, 2);
    assert_eq!(p.get_row(0).0, "aaa");
    assert_eq!(p.get_row(1).0, "bbb");
    assert_eq!(p.get_row(2).0, "ccc");
}

#[test]
fn mem_panel_try_wrap_refuses_rows_outside() {
    let mut p = mem_panel(4, 10);
    assert_eq!(p.try_write_wrap_line(5, "text".to_string()), None);
    assert_eq!(p.get_row(0).0, "");
    assert_eq!(p.try_write_wrap_line(0, "text".to_string()), Some(0));
    assert_eq!(p.get_row(0).0, "text");
}

#[test]
fn mem_panel_change_attr_keeps_text() {
    let mut p = mem_panel(4, 10);
    p.write_line(1, "x".to_string());
    p.change_attr(1, 0, 1, A_UNDERLINE, ColorType::Normal);
    assert_eq!(p.get_row(1), ("x".to_string(), A_UNDERLINE, ColorType::Normal));
}

#[test]
fn mem_panel_resize_keeps_the_inner_rows() {
    let mut p = mem_panel(4, 10);
    p.resize(10, 10, 0, 0);
    assert_eq!(p.window.len(), 8);
    assert_eq!(p.get_rows(), 8);
    assert!(p.window.iter().all(|l| l.0.is_empty()));
    p.resize(3, 10, 0, 0);
    assert_eq!(p.window.len(), 1);
}

#[test]
fn mem_panel_details_template() {
    let mut p = mem_panel(20, 40);
    let details = Details {
        pod_title: Some("Pod".to_string()),
        ep_title: None,
        pubdate: None,
        duration: Some("01:00:00".to_string()),
        explicit: Some(true),
        description: None,
    };
    assert!(p.try_details_template(0, details));
    assert_eq!(p.get_row(0).0, "Pod");
    assert_eq!(p.get_row(1).0, "No title");
    assert_eq!(p.get_row(2).0, "");
    assert_eq!(p.get_row(3), ("Duration: 01:00:00".to_string(), A_UNDERLINE, ColorType::Normal));
    assert_eq!(p.get_row(4), ("Explicit: Yes".to_string(), A_UNDERLINE, ColorType::Normal));
    assert_eq!(p.get_row(5).0, "");
    assert_eq!(p.get_row(6).0, "No description.");
}

#[test]
fn mem_panel_details_template_too_small() {
    let mut p = mem_panel(4, 40);
    let details = Details {
        pod_title: None,
        ep_title: None,
        pubdate: None,
        duration: None,
        explicit: None,
        description: Some("A description.".to_string()),
    };
    assert!(!p.try_details_template(0, details));
    assert_eq!(p.get_row(0).0, "");
}

#[test]
fn panel_sizes_and_positions() {
    let p = Panel::new("Podcasts".to_string(), 0, 10, 30, 4);
    assert_eq!(p.get_rows(), 8);
    assert_eq!(p.get_cols(), 25);
    assert_eq!(p.abs_y(0), 1);
    assert_eq!(p.abs_x(0), 6);
}

#[test]
fn panel_border_commands() {
    let p = Panel::new("T".to_string(), 0, 4, 5, 0);
    let cmds: Vec<_> = p.draw_border().iter().map(cmd).collect();
    assert_eq!(cmds[0], (Some((0, 0)), "┌───┐".to_string(), None));
    assert_eq!(cmds[1], (Some((0, 3)), "└───┘".to_string(), None));
    assert_eq!(cmds[2], (Some((0, 1)), "│".to_string(), None));
    assert_eq!(cmds[3], (Some((4, 1)), "│".to_string(), None));
    assert_eq!(cmds.len(), 2 + 4 + 1);
    assert_eq!(cmds[6], (Some((2, 0)), "T".to_string(), None));
    let q = Panel::new("T".to_string(), 1, 4, 5, 0);
    assert_eq!(cmd(&q.draw_border()[0]).1, "┬───┐");
}

#[test]
fn panel_redraw_clears_then_borders() {
    let p = Panel::new("T".to_string(), 0, 3, 4, 0);
    let cmds = p.redraw();
    assert_eq!(cmd(&cmds[0]), (Some((0, 0)), "    ".to_string(), None));
    assert_eq!(cmd(&cmds[1]), (Some((0, 1)), "    ".to_string(), None));
    assert_eq!(cmds.len(), 2 + 2 + 2 + 1);
}

#[test]
fn panel_key_value_line() {
    let p = Panel::new("T".to_string(), 0, 10, 30, 0);
    let cmds = p.write_key_value_line(2, "Duration".to_string(), "1:00".to_string(), Some(TextStyle::Underlined), None);
    assert_eq!(cmd(&cmds[0]), (Some((2, 3)), "Duration:".to_string(), Some(TextStyle::Underlined)));
    assert_eq!(cmd(&cmds[1]), (None, " 1:00".to_string(), None));
}

#[test]
fn panel_wrap_line_commands() {
    let p = Panel::new("T".to_string(), 0, 6, 10, 0);
    let (cmds, row) = p.write_wrap_line(1, "aaa bbb ccc ddd", Some(TextStyle::Bold));
    assert_eq!(row, 3);
    assert_eq!(cmds.len(), 3);
    assert_eq!(cmd(&cmds[0]), (Some((2, 2)), "aaa".to_string(), Some(TextStyle::Bold)));
    let narrow = Panel::new("T".to_string(), 0, 6, 3, 0);
    assert!(narrow.try_write_wrap_line(1, "x", None).is_none());
}

#[test]
fn panel_details_template_commands() {
    let p = Panel::new("Details".to_string(), 2, 20, 40, 0);
    let details = Details {
        pod_title: Some("Pod".to_string()),
        ep_title: Some("Ep".to_string()),
        pubdate: None,
        duration: None,
        explicit: Some(false),
        description: Some("Words".to_string()),
    };
    let cmds: Vec<_> = p.details_template(0, details).unwrap().iter().map(cmd).collect();
    assert_eq!(cmds[0], (Some((2, 1)), "Pod".to_string(), Some(TextStyle::Bold)));
    assert_eq!(cmds[1], (Some((2, 2)), "Ep".to_string(), Some(TextStyle::Bold)));
    assert_eq!(cmds[2], (Some((2, 4)), "Explicit:".to_string(), Some(TextStyle::Underlined)));
    assert_eq!(cmds[3], (None, " No".to_string(), None));
    assert_eq!(cmds[4], (Some((2, 6)), "Description:".to_string(), None));
    assert_eq!(cmds[5], (Some((2, 7)), "Words".to_string(), None));
}

#[test]
fn panel_clear_inner() {
    let p = Panel::new("T".to_string(), 0, 4, 7, 1);
    let cmds = p.clear_inner();
    assert_eq!(cmds.len(), 2);
    assert_eq!(cmd(&cmds[1]), (Some((3, 2)), "  ".to_string(), None));
}
