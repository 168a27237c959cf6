use shellcaster::config::{config_with_defaults, ConfigFromToml};
use shellcaster::keymap::KeyCode;
use shellcaster::types::{Episode, LockVec, Podcast};
use shellcaster::ui::popup::ActivePopup;
use shellcaster::ui::colors::AppColors;
use shellcaster::ui::notification::NotifWin;
use shellcaster::ui::{InputWin, InputWinStep, WindowOp};
use shellcaster::ui::{clean_description_text, yes_no_answer, yes_no_prompt, ActiveMenu, Pending, UiMsg, UiStep, UI};

fn episode(id: i64, path: Option<&str>, played: bool) -> Episode {
    Episode {
        id,
        pod_id: 1,
        title: format!("Episode {}", id),
        url: String::new(),
        guid: String::new(),
        description: "<p>Hello &amp; welcome</p><br/>Bye".to_string(),
        pubdate: None,
        duration: Some(61),
        path: path.map(|p| p.to_string()),
        played,
    }
}

fn podcast(id: i64, eps: Vec<Episode>) -> Podcast {
    Podcast {
        id,
        title: format!("Podcast {}", id),
        sort_title: String::new(),
        url: String::new(),
        description: None,
        author: None,
        explicit: Some(true),
        last_checked: 0,
        episodes: LockVec::new(eps),
    }
}

fn step_msg(s: UiStep) -> Option<UiMsg> {
    match s {
        UiStep::Done(m) => Some(m),
        _ => None,
    }
}

#[test]
fn sizes_of_panels() {
    assert_eq!(UI::calculate_sizes(150), (50, 51, 51));
    assert_eq!(UI::calculate_sizes(100), (50, 51, 0));
}

#[test]
fn yes_no_answers() {
    assert_eq!(yes_no_answer("  y"), Some(true));
    assert_eq!(yes_no_answer("No thanks"), Some(false));
    assert_eq!(yes_no_answer("maybe"), None);
    assert_eq!(yes_no_answer("   "), None);
    assert_eq!(yes_no_prompt("Sure?"), "Sure? (y/n) ");
}

#[test]
fn description_cleaning() {
    assert_eq!(clean_description_text("<p>Hello &amp; welcome</p><br/>Bye"), "Hello & welcome\nBye");
    assert_eq!(clean_description_text("a\n\n\n\nb"), "a\n\nb");
}

#[test]
fn keys_lead_to_messages() {
    let config = config_with_defaults(ConfigFromToml::without_file(), Some("/tmp".to_string())).unwrap();
    let items = LockVec::new(vec![podcast(1, vec![episode(10, None, false), episode(11, Some("/f"), true)])]);
    let mut ui = UI::new(&config, &items, 30, 100);
    assert_eq!(ui.get_current_ids(), (Some(1), Some(10)));
    assert_eq!(step_msg(ui.getch(Some(KeyCode::Char('s')))), Some(UiMsg::Sync(1)));
    assert_eq!(step_msg(ui.getch(Some(KeyCode::Char('p')))), Some(UiMsg::Play(1, 10)));
    assert_eq!(step_msg(ui.getch(Some(KeyCode::Char('D')))), Some(UiMsg::DownloadAll(1)));
    assert_eq!(step_msg(ui.getch(Some(KeyCode::Char('q')))), Some(UiMsg::Quit));
    assert_eq!(step_msg(ui.getch(None)), Some(UiMsg::Noop));
    assert_eq!(step_msg(ui.getch(Some(KeyCode::Char('m')))), Some(UiMsg::Noop));
    match ui.getch(Some(KeyCode::Char('a'))) {
        UiStep::AskText(prompt, Pending::AddFeed) => assert_eq!(prompt, "Feed URL: "),
        _ => panic!("adding a feed asks for its address"),
    }
}

#[test]
fn moving_between_menus() {
    let config = config_with_defaults(ConfigFromToml::without_file(), Some("/tmp".to_string())).unwrap();
    let items = LockVec::new(vec![podcast(1, vec![episode(10, None, false), episode(11, Some("/f"), true)])]);
    let mut ui = UI::new(&config, &items, 30, 100);
    ui.getch(Some(KeyCode::Char('l')));
    assert_eq!(ui.active_menu, ActiveMenu::EpisodeMenu);
    ui.getch(Some(KeyCode::Char('j')));
    assert_eq!(ui.get_current_ids(), (Some(1), Some(11)));
    assert_eq!(step_msg(ui.getch(Some(KeyCode::Char('m')))), Some(UiMsg::MarkPlayed(1, 11, false)));
    assert_eq!(step_msg(ui.getch(Some(KeyCode::Char('x')))), Some(UiMsg::Delete(1, 11)));
    ui.getch(Some(KeyCode::Char('h')));
    assert_eq!(ui.active_menu, ActiveMenu::PodcastMenu);
}

#[test]
fn removing_asks_first() {
    let config = config_with_defaults(ConfigFromToml::without_file(), Some("/tmp".to_string())).unwrap();
    let items = LockVec::new(vec![podcast(1, vec![episode(10, None, false), episode(11, Some("/f"), true)])]);
    let mut ui = UI::new(&config, &items, 30, 100);
    let pending = match ui.getch(Some(KeyCode::Char('r'))) {
        UiStep::AskYesNo(prompt, p) => {
            assert_eq!(prompt, "Are you sure you want to remove the podcast? (y/n) ");
            p
        }
        _ => panic!("removing asks for confirmation"),
    };
    assert_eq!(step_msg(ui.answer(Pending::ConfirmRemovePodcast(Some(1)), "n")), Some(UiMsg::Noop));
    let next = match ui.answer(pending, "y") {
        UiStep::AskYesNo(prompt, p) => {
            assert_eq!(prompt, "Delete local files too? (y/n) ");
            p
        }
        _ => panic!("downloaded files make it ask about them"),
    };
    assert_eq!(step_msg(ui.answer(next, "Y")), Some(UiMsg::RemovePodcast(1, true)));
    assert_eq!(
        match ui.answer(Pending::AddFeed, "http://x") {
            UiStep::Done(UiMsg::AddFeed(u)) => u,
            _ => String::new(),
        },
        "http://x"
    );
    assert_eq!(step_msg(ui.answer(Pending::AddFeed, "")), Some(UiMsg::Noop));
}

#[test]
fn help_window_takes_keys() {
    let config = config_with_defaults(ConfigFromToml::without_file(), Some("/tmp".to_string())).unwrap();
    let items = LockVec::new(vec![podcast(1, vec![episode(10, None, false)])]);
    let mut ui = UI::new(&config, &items, 30, 100);
    assert_eq!(step_msg(ui.getch(Some(KeyCode::Char('?')))), Some(UiMsg::Noop));
    assert_eq!(ui.popup_win.active, ActivePopup::HelpWin);
    assert_eq!(step_msg(ui.getch(Some(KeyCode::Char('q')))), Some(UiMsg::Noop));
    assert_eq!(ui.popup_win.active, ActivePopup::NoPopup);
    assert_eq!(step_msg(ui.getch(Some(KeyCode::Char('q')))), Some(UiMsg::Quit));
}

#[test]
fn welcome_window_when_empty() {
    let config = config_with_defaults(ConfigFromToml::without_file(), Some("/tmp".to_string())).unwrap();
    let items: LockVec<Podcast> = LockVec::new(Vec::new());
    let mut ui = UI::new(&config, &items, 30, 100);
    ui.init();
    assert_eq!(ui.popup_win.active, ActivePopup::WelcomeWin);
    assert_eq!(step_msg(ui.getch(Some(KeyCode::Char('s')))), Some(UiMsg::Noop));
}

#[test]
fn details_panel_shows_selected_episode() {
    let config = config_with_defaults(ConfigFromToml::without_file(), Some("/tmp".to_string())).unwrap();
    let items = LockVec::new(vec![podcast(1, vec![episode(10, None, false)])]);
    let mut ui = UI::new(&config, &items, 30, 150);
    ui.update_details_panel();
    let d = ui.details_panel.as_ref().unwrap().details.as_ref().unwrap();
    assert_eq!(d.pod_title, Some("Podcast 1".to_string()));
    assert_eq!(d.duration, Some("00:01:01".to_string()));
    assert_eq!(d.explicit, Some(true));
    assert_eq!(d.description, Some("Hello & welcome\nBye".to_string()));
    assert!(!ui.pending_draws.is_empty());
}

#[test]
fn legacy_input_window() {
    let mut w = InputWin::spawn_input_win(5);
    for c in "ab".chars() {
        match w.handle_key(KeyCode::Char(c)) {
            InputWinStep::Continue(ops) => assert_eq!(ops[0], WindowOp::InsertChar(c)),
            _ => panic!("typing goes on"),
        }
    }
    match w.handle_key(KeyCode::Backspace) {
        InputWinStep::Continue(ops) => assert_eq!(ops, vec![WindowOp::MoveTo(6), WindowOp::DeleteChar]),
        _ => panic!("typing goes on"),
    }
    assert_eq!(w.text, vec!['a']);
    match w.handle_key(KeyCode::Enter) {
        InputWinStep::Submit(t) => assert_eq!(t, "a"),
        _ => panic!("enter submits"),
    }
    match w.handle_key(KeyCode::Esc) {
        InputWinStep::Cancel => {}
        _ => panic!("escape cancels"),
    }
}

#[test]
fn typing_then_backspace_restores_text() {
    let w = NotifWin::new(AppColors::default(), 0, 1, 80);
    let (mut line, _) = w.input_notif("> ");
    line.handle_key(KeyCode::Char('a'));
    line.handle_key(KeyCode::Char('b'));
    line.handle_key(KeyCode::Left);
    let before = line.text.clone();
    line.handle_key(KeyCode::Char('z'));
    line.handle_key(KeyCode::Backspace);
    assert_eq!(line.text, before);
}

#[test]
fn legacy_welcome_text_names_the_keys() {
    let config = config_with_defaults(ConfigFromToml::without_file(), Some("/tmp".to_string())).unwrap();
    let text = UI::make_welcome_win(&config);
    assert_eq!(
        text,
        "Welcome to shellcaster!\n\nYour podcast list is currently empty. Press \"a\" to add a new podcast feed, or \"q\" to quit.\n\nOther keybindings can be found on the Github repo readme:\nhttps://github.com/jeff-hughes/shellcaster"
    );
}

#[test]
fn removing_a_podcast_asks_first() {
    let config = config_with_defaults(ConfigFromToml::without_file(), Some("/tmp".to_string())).unwrap();
    let items = LockVec::new(vec![podcast(1, vec![episode(10, None, false)])]);
    let ui = UI::new(&config, &items, 30, 100);
    match ui.remove_podcast(Some(1)) {
        UiStep::AskYesNo(prompt, Pending::ConfirmRemovePodcast(Some(1))) => {
            assert_eq!(prompt, "Are you sure you want to remove the podcast? (y/n) ")
        }
        _ => panic!("removing a podcast asks for confirmation"),
    }
    match ui.answer(Pending::ConfirmRemovePodcast(Some(1)), "y") {
        UiStep::Done(UiMsg::RemovePodcast(1, false)) => {}
        _ => panic!("a podcast without files is removed on a yes"),
    }
}

#[test]
fn unicode_whitespace_before_the_answer() {
    assert_eq!(yes_no_answer("\u{3000}\u{2003}\u{85}y"), Some(true));
    assert_eq!(yes_no_answer("\u{a0}\tN"), Some(false));
    // a zero-width space is not whitespace
    assert_eq!(yes_no_answer("\u{200b}y"), None);
}
