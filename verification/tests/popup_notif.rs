use shellcaster::keymap::{KeyCode, Keybindings};
use shellcaster::ui::colors::AppColors;
use shellcaster::ui::notification::{EchoCmd, InputOutcome, NotifDisplay, NotifWin, Notification};
use shellcaster::ui::panel::TextStyle;
use shellcaster::ui::popup::{ActivePopup, PopupWin};

fn text_of(cmds: &[EchoCmd]) -> Vec<String> {
    cmds.iter()
        .map(|c| match c {
            EchoCmd::MoveTo(x, y) => format!("to {},{}", x, y),
            EchoCmd::MoveLeft => "left".to_string(),
            EchoCmd::MoveRight => "right".to_string(),
            EchoCmd::Print(t) => format!("print {}", t),
            EchoCmd::ShowCursor => "show".to_string(),
        })
        .collect()
}

#[test]
fn popup_new_is_inactive() {
    let kb = Keybindings::default();
    let p = PopupWin::new(AppColors::default(), &kb, 40, 100);
    assert!(!p.is_popup_active());
    assert!(!p.is_non_welcome_popup_active());
    assert_eq!(p.active, ActivePopup::NoPopup);
}

#[test]
fn welcome_window_text() {
    let kb = Keybindings::default();
    let p = PopupWin::new(AppColors::default(), &kb, 40, 200);
    let w = p.try_make_welcome_win().unwrap();
    assert_eq!(w.get_row(1).0, "Welcome to shellcaster!");
    assert_eq!(
        w.get_row(3).0,
        "Your podcast list is currently empty. Press \"a\" to add a new podcast feed, \"q\" to quit, or see all available commands by typing \"?\" to get help."
    );
    assert_eq!(w.title, "Shellcaster");
}

#[test]
fn help_window_lists_keys() {
    let kb = Keybindings::default();
    let p = PopupWin::new(AppColors::default(), &kb, 40, 200);
    let w = p.try_make_help_win().unwrap();
    assert_eq!(w.get_row(1).0, "Available keybindings:");
    assert_eq!(w.get_row(1).1, shellcaster::ui::mock_panel::A_UNDERLINE);
    assert!(w.get_row(3).0.starts_with("                Left: \"Left\" or \"h\""));
    assert!(w.get_row(4).0.contains("            Download: \"d\""));
}

#[test]
fn help_window_too_small() {
    let kb = Keybindings::default();
    let p = PopupWin::new(AppColors::default(), &kb, 5, 200);
    assert!(p.try_make_help_win().is_none());
}

#[test]
fn help_takes_precedence_and_returns_welcome() {
    let kb = Keybindings::default();
    let mut p = PopupWin::new(AppColors::default(), &kb, 40, 200);
    p.spawn_welcome_win();
    assert_eq!(p.active, ActivePopup::WelcomeWin);
    p.spawn_help_win();
    assert_eq!(p.active, ActivePopup::HelpWin);
    assert!(p.is_non_welcome_popup_active());
    p.handle_input(Some(KeyCode::Char('q')));
    assert_eq!(p.active, ActivePopup::WelcomeWin);
    p.turn_off_welcome_win();
    assert_eq!(p.active, ActivePopup::NoPopup);
    assert!(!p.is_popup_active());
}

#[test]
fn help_ignores_other_keys() {
    let kb = Keybindings::default();
    let mut p = PopupWin::new(AppColors::default(), &kb, 40, 200);
    p.spawn_help_win();
    p.handle_input(Some(KeyCode::Char('x')));
    assert_eq!(p.active, ActivePopup::HelpWin);
    p.handle_input(Some(KeyCode::Esc));
    assert_eq!(p.active, ActivePopup::NoPopup);
}

#[test]
fn notification_expiry() {
    let mut w = NotifWin::new(AppColors::default(), 39, 40, 100);
    w.timed_notif("hello".to_string(), 1000, false, 0);
    match w.check_notifs(500) {
        NotifDisplay::Show(n) => assert_eq!(n.message, "hello"),
        _ => panic!("expected the message to be shown"),
    }
    match w.check_notifs(600) {
        NotifDisplay::Keep => {}
        _ => panic!("expected no change"),
    }
    match w.check_notifs(1000) {
        NotifDisplay::Erase => {}
        _ => panic!("expected the window to be erased"),
    }
    assert!(w.msg_stack.is_empty());
}

#[test]
fn persistent_notification_under_timed() {
    let mut w = NotifWin::new(AppColors::default(), 39, 40, 100);
    match w.persistent_notif("syncing".to_string(), false) {
        NotifDisplay::Show(n) => assert_eq!(n, Notification::new("syncing".to_string(), false, None)),
        _ => panic!("expected the message to be shown"),
    }
    w.timed_notif("error".to_string(), 10, true, 0);
    match w.check_notifs(20) {
        NotifDisplay::Keep => {}
        _ => panic!("the persistent message was already shown"),
    }
    match w.clear_persistent_notif() {
        NotifDisplay::Erase => {}
        _ => panic!("expected the window to be erased"),
    }
}

#[test]
fn input_line_typing_and_editing() {
    let w = NotifWin::new(AppColors::default(), 9, 10, 80);
    let (mut line, cmds) = w.input_notif("URL: ");
    assert_eq!(text_of(&cmds), vec!["to 0,9", "print URL: ", "show"]);
    for c in "abd".chars() {
        match line.handle_key(KeyCode::Char(c)) {
            InputOutcome::Continue(cmds) => assert_eq!(text_of(&cmds), vec![format!("print {}", c)]),
            _ => panic!("typing goes on"),
        }
    }
    line.handle_key(KeyCode::Left);
    match line.handle_key(KeyCode::Char('c')) {
        InputOutcome::Continue(cmds) => assert_eq!(text_of(&cmds), vec!["print cd", "to 8,9"]),
        _ => panic!("typing goes on"),
    }
    match line.handle_key(KeyCode::Backspace) {
        InputOutcome::Continue(cmds) => assert_eq!(text_of(&cmds), vec!["left", "print d", "print  ", "to 7,9"]),
        _ => panic!("typing goes on"),
    }
    match line.handle_key(KeyCode::Enter) {
        InputOutcome::Submit(t) => assert_eq!(t, "abd"),
        _ => panic!("enter submits"),
    }
}

#[test]
fn input_line_cancel_and_delete() {
    let w = NotifWin::new(AppColors::default(), 0, 1, 80);
    let (mut line, _) = w.input_notif("> ");
    line.handle_key(KeyCode::Char('x'));
    line.handle_key(KeyCode::Char('y'));
    line.handle_key(KeyCode::Left);
    line.handle_key(KeyCode::Left);
    line.handle_key(KeyCode::Delete);
    assert_eq!(line.text, vec!['y']);
    match line.handle_key(KeyCode::Esc) {
        InputOutcome::Cancel => {}
        _ => panic!("escape cancels"),
    }
}

#[test]
fn notification_row_is_cleared_then_written() {
    let w = NotifWin::new(AppColors::default(), 9, 10, 4);
    let blank = w.redraw();
    assert_eq!(blank.pos, Some((0, 9)));
    assert_eq!(blank.text, "    ");
    assert_eq!(blank.style, None);
    let cmds = w.display_notif(&Notification::new("Oops".to_string(), true, None));
    assert_eq!(cmds.len(), 2);
    assert_eq!(cmds[0].text, "    ");
    assert_eq!(cmds[1].pos, Some((0, 9)));
    assert_eq!(cmds[1].text, "Oops");
    assert_eq!(cmds[1].style, Some(TextStyle::Bold));
    let plain = w.display_notif(&Notification::new("Fine".to_string(), false, None));
    assert_eq!(plain[1].style, None);
}

#[test]
fn help_window_shown_even_when_too_small() {
    let kb = Keybindings::default();
    let mut p = PopupWin::new(AppColors::default(), &kb, 5, 200);
    p.spawn_help_win();
    assert_eq!(p.active, ActivePopup::HelpWin);
    let shown = p.shown_panel().as_ref().unwrap();
    assert_eq!(shown.window.len(), 2);
    assert!(shown.window.iter().all(|l| l.0.is_empty()));
    p.spawn_welcome_win();
    p.handle_input(Some(KeyCode::Esc));
    assert_eq!(p.active, ActivePopup::WelcomeWin);
}

#[test]
fn help_stays_over_a_later_welcome() {
    let kb = Keybindings::default();
    let mut p = PopupWin::new(AppColors::default(), &kb, 25, 100);
    p.spawn_help_win();
    p.spawn_welcome_win();
    assert!(p.welcome_win && p.help_win);
    assert_eq!(p.active, ActivePopup::HelpWin);
    p.turn_off_help_win();
    assert_eq!(p.active, ActivePopup::WelcomeWin);
}
