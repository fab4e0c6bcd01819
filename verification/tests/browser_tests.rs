use termnote::{InputEvent, KeyCode, Link, MenuEvent, Request, TerminalUI, TerminalUrlUI, Topic};
use termnote::browser::{link_request, topic_request};

fn named(title: &str, command: &str) -> Topic {
    Topic {
        title: title.to_string(),
        description: String::new(),
        command: command.to_string(),
        category: "dev".to_string(),
    }
}

fn three() -> Vec<Topic> {
    vec![named("Build", "cargo build"), named("Test", "cargo test"), named("Run", "cargo run")]
}

fn links() -> Vec<Link> {
    vec![
        Link { title: "one".to_string(), url: "https://one.example".to_string() },
        Link { title: "two".to_string(), url: "https://two.example".to_string() },
    ]
}

fn press(code: KeyCode) -> InputEvent {
    InputEvent::Press(code)
}

#[test]
fn a_new_browser_is_running_without_outcome() {
    let ui = TerminalUI::new(three());
    assert!(!ui.exited());
    assert_eq!(ui.event(), &MenuEvent::Nothing);
    assert_eq!(ui.selected_cmd(), "");
    assert_eq!(ui.list().cursor(), None);
    assert_eq!(ui.list().len(), 3);
}

#[test]
fn down_down_up_from_unset_cursor_then_enter() {
    let mut ui = TerminalUI::new(three());
    ui.handle_events(press(KeyCode::Down));
    assert_eq!(ui.list().cursor(), Some(0));
    ui.handle_events(press(KeyCode::Down));
    ui.handle_events(press(KeyCode::Up));
    assert_eq!(ui.list().cursor(), Some(0));
    assert!(!ui.exited());
    ui.handle_events(press(KeyCode::Enter));
    assert!(ui.exited());
    assert_eq!(ui.event(), &MenuEvent::Display(Some(named("Build", "cargo build"))));
    assert_eq!(ui.selected_cmd(), "cargo build");
}

#[test]
fn down_down_up_from_first_topic_then_enter_displays_the_second() {
    let mut ui = TerminalUI::new(three());
    ui.select_next();
    assert_eq!(ui.list().cursor(), Some(0));
    ui.handle_events(press(KeyCode::Down));
    ui.handle_events(press(KeyCode::Down));
    ui.handle_events(press(KeyCode::Up));
    assert_eq!(ui.list().cursor(), Some(1));
    assert!(!ui.exited());
    ui.handle_events(press(KeyCode::Enter));
    assert!(ui.exited());
    assert_eq!(ui.event(), &MenuEvent::Display(Some(named("Test", "cargo test"))));
    assert_eq!(ui.selected_cmd(), "cargo test");
}

#[test]
fn the_execute_key_captures_the_selected_topic() {
    let mut ui = TerminalUI::new(three());
    ui.handle_events(press(KeyCode::Down));
    ui.handle_events(press(KeyCode::Char('e')));
    assert!(ui.exited());
    assert_eq!(ui.event(), &MenuEvent::Execute(Some(named("Build", "cargo build"))));
    assert_eq!(ui.selected_cmd(), "cargo build");
}

#[test]
fn quit_ends_without_outcome() {
    let mut ui = TerminalUI::new(three());
    ui.handle_events(press(KeyCode::Down));
    ui.handle_events(press(KeyCode::Char('q')));
    assert!(ui.exited());
    assert_eq!(ui.event(), &MenuEvent::Nothing);
    assert_eq!(ui.selected_cmd(), "");
}

#[test]
fn other_keys_and_other_events_change_nothing() {
    let mut ui = TerminalUI::new(three());
    ui.handle_events(press(KeyCode::Down));
    ui.handle_events(press(KeyCode::Char('x')));
    ui.handle_events(press(KeyCode::Char('Q')));
    ui.handle_events(press(KeyCode::Other));
    ui.handle_events(InputEvent::Other);
    assert!(!ui.exited());
    assert_eq!(ui.list().cursor(), Some(0));
    assert_eq!(ui.event(), &MenuEvent::Nothing);
}

#[test]
fn enter_without_selection_carries_no_record() {
    let mut ui = TerminalUI::new(Vec::new());
    ui.handle_events(press(KeyCode::Down));
    assert_eq!(ui.list().cursor(), None);
    ui.handle_events(press(KeyCode::Enter));
    assert!(ui.exited());
    assert_eq!(ui.event(), &MenuEvent::Display(None));
    assert_eq!(ui.selected_cmd(), "");
}

#[test]
fn execute_without_selection_carries_no_record() {
    let mut ui = TerminalUI::new(three());
    ui.handle_events(press(KeyCode::Char('e')));
    assert!(ui.exited());
    assert_eq!(ui.event(), &MenuEvent::Execute(None));
    assert_eq!(ui.selected_cmd(), "");
}

#[test]
fn an_ended_session_takes_no_more_events() {
    let mut ui = TerminalUI::new(three());
    ui.handle_events(press(KeyCode::Down));
    ui.handle_events(press(KeyCode::Enter));
    ui.handle_events(press(KeyCode::Down));
    ui.handle_events(press(KeyCode::Char('e')));
    assert_eq!(ui.list().cursor(), Some(0));
    assert_eq!(ui.event(), &MenuEvent::Display(Some(named("Build", "cargo build"))));
}

#[test]
fn menu_loop_stops_at_the_event_that_ends_the_session() {
    let mut ui = TerminalUI::new(three());
    let events = [
        press(KeyCode::Down),
        press(KeyCode::Down),
        InputEvent::Other,
        press(KeyCode::Up),
        press(KeyCode::Enter),
        press(KeyCode::Down),
        press(KeyCode::Char('q')),
    ];
    assert_eq!(ui.menu_loop(&events), 5);
    assert!(ui.exited());
    assert_eq!(ui.list().cursor(), Some(0));
    assert_eq!(ui.event(), &MenuEvent::Display(Some(named("Build", "cargo build"))));
    assert_eq!(ui.menu_loop(&events), 0);
}

#[test]
fn menu_loop_keeps_running_when_the_events_run_out() {
    let mut ui = TerminalUI::new(three());
    let events = [press(KeyCode::Up), press(KeyCode::Up)];
    assert_eq!(ui.menu_loop(&events), 2);
    assert!(!ui.exited());
    assert_eq!(ui.list().cursor(), Some(2));
    assert_eq!(ui.menu_loop(&[]), 0);
}

#[test]
fn footer_shows_the_selected_command() {
    let mut ui = TerminalUI::new(three());
    assert_eq!(ui.footer_selected_topic(), "--");
    ui.select_next();
    ui.select_next();
    assert_eq!(ui.footer_selected_topic(), "$ cargo test");
    ui.select_previous();
    assert_eq!(ui.footer_selected_topic(), "$ cargo build");
}

#[test]
fn handle_selected_copies_the_record() {
    let mut ui = TerminalUI::new(three());
    assert_eq!(ui.handle_selected(), None);
    assert_eq!(ui.selected_cmd(), "");
    ui.select_previous();
    ui.select_previous();
    assert_eq!(ui.handle_selected(), Some(named("Run", "cargo run")));
    assert_eq!(ui.selected_cmd(), "cargo run");
    assert!(!ui.exited());
}

#[test]
fn link_browser_captures_the_url_on_enter() {
    let mut ui = TerminalUrlUI::new(links());
    assert_eq!(ui.selected_url(), "");
    ui.handle_events(press(KeyCode::Down));
    ui.handle_events(press(KeyCode::Down));
    ui.handle_events(press(KeyCode::Enter));
    assert!(ui.exited());
    assert_eq!(ui.selected_url(), "https://two.example");
}

#[test]
fn link_browser_has_no_execute_key() {
    let mut ui = TerminalUrlUI::new(links());
    ui.handle_events(press(KeyCode::Down));
    ui.handle_events(press(KeyCode::Char('e')));
    assert!(!ui.exited());
    assert_eq!(ui.selected_url(), "");
    ui.handle_events(press(KeyCode::Char('q')));
    assert!(ui.exited());
    assert_eq!(ui.selected_url(), "");
}

#[test]
fn link_browser_wraps_and_runs_recorded_events() {
    let mut ui = TerminalUrlUI::new(links());
    let events = [press(KeyCode::Down), press(KeyCode::Up), press(KeyCode::Enter), press(KeyCode::Up)];
    assert_eq!(ui.menu_loop(&events), 3);
    assert_eq!(ui.list().cursor(), Some(1));
    assert_eq!(ui.selected_url(), "https://two.example");
}

#[test]
fn link_browser_enter_on_empty_list_captures_nothing() {
    let mut ui = TerminalUrlUI::new(Vec::new());
    ui.handle_events(press(KeyCode::Up));
    ui.handle_events(press(KeyCode::Enter));
    assert!(ui.exited());
    assert_eq!(ui.selected_url(), "");
}

#[test]
fn requests_read_from_events() {
    assert_eq!(topic_request(press(KeyCode::Char('q'))), Request::Quit);
    assert_eq!(topic_request(press(KeyCode::Char('e'))), Request::Execute);
    assert_eq!(topic_request(press(KeyCode::Up)), Request::Up);
    assert_eq!(topic_request(press(KeyCode::Down)), Request::Down);
    assert_eq!(topic_request(press(KeyCode::Enter)), Request::Display);
    assert_eq!(topic_request(press(KeyCode::Char('E'))), Request::Ignore);
    assert_eq!(topic_request(InputEvent::Other), Request::Ignore);
    assert_eq!(link_request(press(KeyCode::Char('e'))), Request::Ignore);
    assert_eq!(link_request(press(KeyCode::Char('q'))), Request::Quit);
    assert_eq!(link_request(press(KeyCode::Enter)), Request::Display);
}
