use chat_tui::app::App;
use chat_tui::main_loop::{accepts_input, main_loop, step_app, LoopEvent};
use chat_tui::protocol::{Event, RoomDetail, RoomParticipationStatus};
use chat_tui::state::MessageBoxItem;
use chat_tui::termination::Interrupted;

fn s(text: &str) -> String {
    text.to_string()
}

fn login() -> LoopEvent {
    LoopEvent::Server(Event::LoginSuccessful {
        username: s("alice"),
        rooms: vec![
            RoomDetail { name: s("general"), description: s("") },
            RoomDetail { name: s("random"), description: s("") },
        ],
    })
}

fn joined(room: &str, username: &str) -> LoopEvent {
    LoopEvent::Server(Event::RoomParticipation {
        room: s(room),
        username: s(username),
        status: RoomParticipationStatus::Joined,
    })
}

fn said(room: &str, username: &str, content: &str) -> LoopEvent {
    LoopEvent::Server(Event::UserMessage { room: s(room), username: s(username), content: s(content) })
}

#[test]
fn step_takes_in_a_server_event() {
    let mut app = App::new();
    assert_eq!(step_app(&mut app, &login()), None);
    assert_eq!(app.state().username(), "alice");
    assert_eq!(step_app(&mut app, &said("general", "bob", "hi")), None);
    assert_eq!(
        app.state().messages(&s("general")),
        Some(&vec![MessageBoxItem::Message { username: s("bob"), content: s("hi") }])
    );
    assert_eq!(app.state().timer(), 0);
}

#[test]
fn step_counts_a_tick() {
    let mut app = App::new();
    assert_eq!(step_app(&mut app, &LoopEvent::Tick), None);
    assert_eq!(app.state().timer(), 1);
    assert_eq!(app.state().username(), "");
}

#[test]
fn step_ends_on_the_shutdown_signal() {
    let mut app = App::new();
    assert_eq!(
        step_app(&mut app, &LoopEvent::Shutdown(Interrupted::UserInt)),
        Some(Interrupted::UserInt)
    );
    assert_eq!(
        step_app(&mut app, &LoopEvent::Shutdown(Interrupted::ServerClosed)),
        Some(Interrupted::ServerClosed)
    );
    assert_eq!(app.state().timer(), 0);
    assert!(app.state().rooms().is_empty());
}

#[test]
fn step_ends_when_the_source_fails_or_closes() {
    let mut app = App::new();
    assert_eq!(step_app(&mut app, &LoopEvent::SourceFailed), Some(Interrupted::ConnectionLost));
    assert_eq!(step_app(&mut app, &LoopEvent::SourceClosed), Some(Interrupted::ServerClosed));
    assert_eq!(app.state().timer(), 0);
}

#[test]
fn accepts_input_rejects_events_for_unknown_rooms() {
    let mut app = App::new();
    assert!(accepts_input(&app, &login()));
    assert!(accepts_input(&app, &LoopEvent::Tick));
    assert!(accepts_input(&app, &LoopEvent::Shutdown(Interrupted::UserInt)));
    assert!(accepts_input(&app, &LoopEvent::SourceFailed));
    assert!(accepts_input(&app, &LoopEvent::SourceClosed));
    assert!(!accepts_input(&app, &said("general", "bob", "hi")));
    assert!(!accepts_input(&app, &joined("general", "bob")));
    assert_eq!(step_app(&mut app, &login()), None);
    assert!(accepts_input(&app, &said("general", "bob", "hi")));
    assert!(accepts_input(&app, &joined("random", "bob")));
    assert!(!accepts_input(&app, &joined("nowhere", "bob")));
}

#[test]
fn events_and_ticks_are_applied_once_each_in_arrival_order() {
    let mut app = App::new();
    let inputs = vec![
        LoopEvent::Tick,
        login(),
        said("general", "bob", "one"),
        LoopEvent::Tick,
        joined("general", "alice"),
        said("random", "carol", "two"),
        LoopEvent::Tick,
        said("general", "bob", "three"),
        LoopEvent::Tick,
    ];
    assert_eq!(main_loop(&mut app, &inputs), None);
    assert_eq!(app.state().timer(), 4);
    assert_eq!(app.state().username(), "alice");
    assert!(app.state().rooms()[0].joined);
    assert!(!app.state().rooms()[1].joined);
    assert_eq!(
        app.state().messages(&s("general")),
        Some(&vec![
            MessageBoxItem::Message { username: s("bob"), content: s("one") },
            MessageBoxItem::Notification(s("alice has joined the room")),
            MessageBoxItem::Message { username: s("bob"), content: s("three") },
        ])
    );
    assert_eq!(
        app.state().messages(&s("random")),
        Some(&vec![MessageBoxItem::Message { username: s("carol"), content: s("two") }])
    );
}

#[test]
fn running_in_two_parts_is_running_the_whole() {
    let first = vec![login(), LoopEvent::Tick, said("general", "bob", "one")];
    let then = vec![LoopEvent::Tick, joined("random", "alice"), said("general", "bob", "two")];
    let mut whole = first.clone();
    whole.extend(then.clone());

    let mut in_parts = App::new();
    assert_eq!(main_loop(&mut in_parts, &first), None);
    assert_eq!(main_loop(&mut in_parts, &then), None);
    let mut at_once = App::new();
    assert_eq!(main_loop(&mut at_once, &whole), None);

    assert_eq!(in_parts.state().timer(), 2);
    assert_eq!(at_once.state().timer(), 2);
    assert_eq!(in_parts.state().rooms(), at_once.state().rooms());
    assert_eq!(
        in_parts.state().messages(&s("general")),
        at_once.state().messages(&s("general"))
    );
    assert_eq!(
        in_parts.state().messages(&s("random")),
        at_once.state().messages(&s("random"))
    );
}

#[test]
fn shutdown_ends_the_loop_with_its_reason_and_keeps_what_was_applied() {
    let mut app = App::new();
    let inputs = vec![
        login(),
        said("general", "bob", "before"),
        LoopEvent::Tick,
        LoopEvent::Shutdown(Interrupted::UserInt),
        said("general", "bob", "after"),
        LoopEvent::Tick,
    ];
    assert_eq!(main_loop(&mut app, &inputs), Some(Interrupted::UserInt));
    assert_eq!(app.state().timer(), 1);
    assert_eq!(
        app.state().messages(&s("general")),
        Some(&vec![MessageBoxItem::Message { username: s("bob"), content: s("before") }])
    );
}

#[test]
fn nothing_behind_the_end_of_the_loop_is_looked_at() {
    let mut app = App::new();
    let inputs = vec![
        LoopEvent::Shutdown(Interrupted::UserInt),
        said("nowhere", "bob", "never seen"),
        LoopEvent::Shutdown(Interrupted::ServerClosed),
    ];
    assert_eq!(main_loop(&mut app, &inputs), Some(Interrupted::UserInt));
    assert!(app.state().rooms().is_empty());
}

#[test]
fn a_failed_source_ends_the_loop_as_a_lost_connection() {
    let mut app = App::new();
    let inputs = vec![login(), LoopEvent::Tick, LoopEvent::SourceFailed, LoopEvent::Tick];
    assert_eq!(main_loop(&mut app, &inputs), Some(Interrupted::ConnectionLost));
    assert_eq!(app.state().timer(), 1);
    assert_eq!(app.state().username(), "alice");
}

#[test]
fn a_closed_source_ends_the_loop_as_a_closed_server() {
    let mut app = App::new();
    let inputs = vec![LoopEvent::Tick, LoopEvent::Tick, LoopEvent::SourceClosed];
    assert_eq!(main_loop(&mut app, &inputs), Some(Interrupted::ServerClosed));
    assert_eq!(app.state().timer(), 2);
}

#[test]
fn no_events_change_nothing() {
    let mut app = App::new();
    assert_eq!(main_loop(&mut app, &Vec::new()), None);
    assert_eq!(app.state().timer(), 0);
    assert!(app.state().rooms().is_empty());
}

#[test]
fn the_loop_leaves_the_line_under_composition() {
    let mut app = App::new();
    app.enter_char('h');
    app.enter_char('i');
    assert_eq!(main_loop(&mut app, &vec![login(), LoopEvent::Tick]), None);
    assert_eq!(app.input().text(), "hi");
    assert_eq!(app.input().cursor_position(), 2);
}
