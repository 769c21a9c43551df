//! Focus, dispatch and quit behavior of the coordinator.
use sidebyside::app::{App, AppState};
use sidebyside::filewidget::FileWidget;
use sidebyside::input::{Command, CursorMove, Key, KeyInput, NavCommand};

fn mk_lines(n: usize) -> Vec<String> {
    (0..n).map(|i| format!("line {i}")).collect()
}

fn two_pane_app(n0: usize, n1: usize) -> App {
    App::new(vec![
        FileWidget::new("left.txt", mk_lines(n0)),
        FileWidget::new("right.txt", mk_lines(n1)),
    ])
}

fn key(c: char) -> KeyInput {
    KeyInput { key: Key::Char(c), ctrl: false, alt: false, shift: false }
}

fn tab() -> KeyInput {
    KeyInput { key: Key::Tab, ctrl: false, alt: false, shift: false }
}

#[test]
fn new_app_runs_with_first_pane_active() {
    let app = two_pane_app(3, 3);
    assert!(app.is_running());
    assert_eq!(app.active_index(), 0);
    assert_eq!(app.widgets.len(), 2);
}

#[test]
fn switch_focus_cycles_through_the_panes() {
    let mut app = two_pane_app(3, 3);
    app.handle_command(Command::SwitchFocusNext);
    assert_eq!(app.active_index(), 1);
    app.handle_command(Command::SwitchFocusNext);
    assert_eq!(app.active_index(), 0);
}

#[test]
fn switching_once_per_pane_returns_focus_to_the_start() {
    let mut app = two_pane_app(3, 3);
    for _ in 0..app.widgets.len() {
        app.handle_command(Command::SwitchFocusNext);
    }
    assert_eq!(app.active_index(), 0);
}

#[test]
fn quit_stops_the_viewer_and_touches_no_pane() {
    let mut app = two_pane_app(3, 3);
    app.handle_key(key('q'));
    assert!(!app.is_running());
    assert!(matches!(app.state, AppState::Quit));
    assert_eq!(app.widgets[0].cursor_row, 0);
    assert_eq!(app.widgets[1].cursor_row, 0);
}

#[test]
fn esc_quits_too() {
    let mut app = two_pane_app(1, 1);
    app.handle_key(KeyInput { key: Key::Esc, ctrl: false, alt: false, shift: false });
    assert!(!app.is_running());
}

#[test]
fn navigation_reaches_only_the_active_pane() {
    let mut app = two_pane_app(100, 5);
    app.handle_key(key('G'));
    assert_eq!(app.widgets[0].cursor_row, 99);
    assert_eq!(app.widgets[1].cursor_row, 0);
    assert_eq!(app.widgets[1].scroll_row, 0);
}

#[test]
fn tab_then_quit_leaves_the_second_pane_untouched() {
    let mut app = two_pane_app(10, 10);
    app.handle_key(tab());
    assert_eq!(app.active_index(), 1);
    app.handle_key(key('q'));
    assert!(!app.is_running());
    assert_eq!(app.widgets[1].cursor_row, 0);
    assert_eq!(app.widgets[1].cursor_col, 0);
    assert_eq!(app.widgets[1].scroll_row, 0);
    assert_eq!(app.widgets[1].scroll_col, 0);
}

#[test]
fn after_switch_commands_go_to_the_second_pane() {
    let mut app = two_pane_app(10, 10);
    app.handle_key(tab());
    app.handle_key(key('j'));
    app.handle_key(key('j'));
    assert_eq!(app.widgets[0].cursor_row, 0);
    assert_eq!(app.widgets[1].cursor_row, 2);
}

#[test]
fn noop_commands_change_nothing() {
    let mut app = two_pane_app(4, 4);
    app.handle_command(Command::Noop);
    app.handle_key(key('z'));
    assert!(app.is_running());
    assert_eq!(app.active_index(), 0);
    assert_eq!(app.widgets[0].cursor_row, 0);
}

#[test]
fn commands_after_quit_still_act_on_state_only_through_dispatch() {
    let mut app = two_pane_app(4, 4);
    app.handle_key(key('q'));
    assert!(!app.is_running());
    app.handle_command(Command::Pane(NavCommand::Move(CursorMove::Down)));
    assert_eq!(app.widgets[0].cursor_row, 1);
    assert!(!app.is_running());
}
