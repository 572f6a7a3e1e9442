use tray_shell::menu::{str_eq, tray_menu, CommandId};
use tray_shell::shell::{
    decide, on_close_requested, on_menu_event, on_tray_icon_event, Action, Event, ShellState,
    TrayIconEvent, WindowState, MAIN_WINDOW, QUIT_EXIT_CODE,
};

fn visible_focused() -> Option<WindowState> {
    Some(WindowState { visible: true, focused: true })
}

fn hidden() -> Option<WindowState> {
    Some(WindowState { visible: false, focused: false })
}

#[test]
fn menu_has_show_then_quit_with_labels() {
    let menu = tray_menu();
    assert_eq!(menu.len(), 2);
    assert_eq!(menu[0].id, CommandId::Show);
    assert_eq!(menu[0].label, "显示窗口");
    assert_eq!(menu[1].id, CommandId::Quit);
    assert_eq!(menu[1].label, "退出");
}

#[test]
fn menu_built_twice_gives_equal_independent_menus() {
    let a = tray_menu();
    let mut b = tray_menu();
    assert_eq!(a, b);
    b[0].label.push('!');
    assert_eq!(a[0].label, "显示窗口");
}

#[test]
fn command_ids_round_trip() {
    assert_eq!(CommandId::Show.id(), "show");
    assert_eq!(CommandId::Quit.id(), "quit");
    assert_eq!(CommandId::from_id(CommandId::Show.id()), Some(CommandId::Show));
    assert_eq!(CommandId::from_id(CommandId::Quit.id()), Some(CommandId::Quit));
    assert_eq!(CommandId::Show.label(), "显示窗口");
    assert_eq!(CommandId::Quit.label(), "退出");
}

#[test]
fn unknown_ids_decode_to_nothing() {
    assert_eq!(CommandId::from_id(""), None);
    assert_eq!(CommandId::from_id("Show"), None);
    assert_eq!(CommandId::from_id("show "), None);
    assert_eq!(CommandId::from_id("sho"), None);
    assert_eq!(CommandId::from_id("quits"), None);
    assert_eq!(CommandId::from_id("bogus"), None);
}

#[test]
fn str_eq_compares_characters() {
    assert!(str_eq("", ""));
    assert!(str_eq("main", "main"));
    assert!(str_eq("退出", "退出"));
    assert!(!str_eq("main", "maim"));
    assert!(!str_eq("main", "mai"));
    assert!(!str_eq("", "a"));
}

#[test]
fn decoding_of_each_event() {
    assert_eq!(on_menu_event("show"), Action::Reveal);
    assert_eq!(on_menu_event("quit"), Action::Exit(0));
    assert_eq!(on_menu_event("bogus"), Action::Ignore);
    assert_eq!(on_tray_icon_event(TrayIconEvent::Click), Action::Reveal);
    assert_eq!(on_tray_icon_event(TrayIconEvent::Other), Action::Ignore);
    assert_eq!(on_close_requested(), Action::HideAndPreventClose);
    assert_eq!(decide(&Event::CloseRequested), Action::HideAndPreventClose);
    assert_eq!(decide(&Event::Menu("quit".to_string())), Action::Exit(QUIT_EXIT_CODE));
    assert_eq!(MAIN_WINDOW, "main");
}

#[test]
fn scenario_close_then_click() {
    let mut s = ShellState::startup();
    assert_eq!(s.window, visible_focused());
    assert_eq!(s.exit_code, None);
    assert_eq!(s.handle(&Event::CloseRequested), Action::HideAndPreventClose);
    assert_eq!(s.window, hidden());
    assert_eq!(s.exit_code, None);
    assert_eq!(s.handle(&Event::TrayIcon(TrayIconEvent::Click)), Action::Reveal);
    assert_eq!(s.window, visible_focused());
    assert_eq!(s.exit_code, None);
}

#[test]
fn scenario_quit_exits_with_zero() {
    let mut s = ShellState::startup();
    assert_eq!(s.handle(&Event::Menu("quit".to_string())), Action::Exit(0));
    assert_eq!(s.exit_code, Some(0));

    let mut h = ShellState::startup();
    h.handle(&Event::CloseRequested);
    assert_eq!(h.handle(&Event::Menu("quit".to_string())), Action::Exit(0));
    assert_eq!(h.exit_code, Some(0));
    assert_eq!(h.window, hidden());
}

#[test]
fn scenario_bogus_command_changes_nothing() {
    let starts = [
        ShellState::startup(),
        ShellState { window: hidden(), exit_code: None },
        ShellState { window: None, exit_code: None },
    ];
    for start in starts {
        let mut s = start;
        assert_eq!(s.handle(&Event::Menu("bogus".to_string())), Action::Ignore);
        assert_eq!(s, start);
    }
}

#[test]
fn many_close_requests_never_exit() {
    let mut s = ShellState::startup();
    for _ in 0..5 {
        s.handle(&Event::CloseRequested);
        assert_eq!(s.window, hidden());
        assert_eq!(s.exit_code, None);
    }
}

#[test]
fn only_quit_terminates() {
    let events = vec![
        Event::CloseRequested,
        Event::TrayIcon(TrayIconEvent::Click),
        Event::TrayIcon(TrayIconEvent::Other),
        Event::Menu("show".to_string()),
        Event::Menu("bogus".to_string()),
        Event::CloseRequested,
    ];
    let mut s = ShellState::startup();
    let actions = s.handle_events(&events);
    assert_eq!(
        actions,
        vec![
            Action::HideAndPreventClose,
            Action::Reveal,
            Action::Ignore,
            Action::Reveal,
            Action::Ignore,
            Action::HideAndPreventClose,
        ]
    );
    assert_eq!(s.exit_code, None);
    assert_eq!(s.window, hidden());

    let rest = vec![Event::Menu("quit".to_string()), Event::TrayIcon(TrayIconEvent::Click)];
    s.handle_events(&rest);
    assert_eq!(s.exit_code, Some(0));
    assert_eq!(s.window, hidden());
}

#[test]
fn reveal_twice_is_idempotent() {
    let mut s = ShellState { window: hidden(), exit_code: None };
    s.apply(Action::Reveal);
    assert_eq!(s.window, visible_focused());
    let once = s;
    s.apply(Action::Reveal);
    assert_eq!(s, once);
}

#[test]
fn reveal_without_window_changes_nothing() {
    let start = ShellState { window: None, exit_code: None };
    let mut s = start;
    s.apply(Action::Reveal);
    assert_eq!(s, start);
    assert_eq!(s.handle(&Event::TrayIcon(TrayIconEvent::Click)), Action::Reveal);
    assert_eq!(s.handle(&Event::Menu("show".to_string())), Action::Reveal);
    assert_eq!(s, start);
}

#[test]
fn hide_without_window_changes_nothing() {
    let start = ShellState { window: None, exit_code: None };
    let mut s = start;
    s.handle(&Event::CloseRequested);
    assert_eq!(s, start);
}

#[test]
fn nothing_changes_after_exit() {
    let mut s = ShellState { window: visible_focused(), exit_code: Some(0) };
    let start = s;
    s.apply(Action::HideAndPreventClose);
    s.apply(Action::Exit(3));
    assert_eq!(s, start);
}
