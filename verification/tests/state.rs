use chat_tui::protocol::{RoomDetail, RoomParticipationStatus};
use chat_tui::state::{MessageBoxItem, RoomState, ServerConnectionStatus, State};

fn s(text: &str) -> String {
    text.to_string()
}

fn room(name: &str, description: &str) -> RoomDetail {
    RoomDetail { name: s(name), description: s(description) }
}

fn logged_in() -> State {
    let mut state = State::new();
    state.apply_login(&s("alice"), &vec![room("general", ""), room("random", "")]);
    state
}

#[test]
fn room_state_new_keeps_its_arguments() {
    let room = RoomState::new(s("general"), s("for all"), true);
    assert_eq!(room.name, "general");
    assert_eq!(room.description, "for all");
    assert!(room.joined);
    let other = RoomState::new(s("random"), s(""), false);
    assert_eq!(other.name, "random");
    assert_eq!(other.description, "");
    assert!(!other.joined);
}

#[test]
fn new_state_is_empty() {
    let state = State::new();
    assert_eq!(*state.server_connection_status(), ServerConnectionStatus::Disconnected);
    assert_eq!(state.username(), "");
    assert!(state.rooms().is_empty());
    assert_eq!(*state.active_room(), None);
    assert_eq!(state.timer(), 0);
    assert!(!state.has_room(&s("general")));
    assert_eq!(state.messages(&s("general")), None);
}

#[test]
fn login_yields_the_rooms_unjoined_with_empty_logs() {
    let state = logged_in();
    assert_eq!(state.username(), "alice");
    assert_eq!(
        *state.rooms(),
        vec![
            RoomState { name: s("general"), description: s(""), joined: false },
            RoomState { name: s("random"), description: s(""), joined: false },
        ]
    );
    assert_eq!(state.messages(&s("general")), Some(&Vec::new()));
    assert_eq!(state.messages(&s("random")), Some(&Vec::new()));
    assert_eq!(state.messages(&s("other")), None);
}

#[test]
fn login_keeps_descriptions_and_order() {
    let mut state = State::new();
    state.apply_login(&s("bob"), &vec![room("b", "second letter"), room("a", "first letter")]);
    assert_eq!(
        *state.rooms(),
        vec![
            RoomState { name: s("b"), description: s("second letter"), joined: false },
            RoomState { name: s("a"), description: s("first letter"), joined: false },
        ]
    );
    assert_eq!(state.find_room(&s("b")), Some(0));
    assert_eq!(state.find_room(&s("a")), Some(1));
    assert_eq!(state.find_room(&s("c")), None);
}

#[test]
fn login_leaves_status_timer_and_active_room() {
    let mut state = State::new();
    state.set_connection_status(ServerConnectionStatus::Connected { addr: s("localhost:8080") });
    state.set_active_room(Some(s("general")));
    state.advance_timer();
    state.apply_login(&s("alice"), &vec![room("general", "")]);
    assert_eq!(
        *state.server_connection_status(),
        ServerConnectionStatus::Connected { addr: s("localhost:8080") }
    );
    assert_eq!(*state.active_room(), Some(s("general")));
    assert_eq!(state.timer(), 1);
}

#[test]
fn login_with_no_rooms() {
    let mut state = State::new();
    state.apply_login(&s("alice"), &Vec::new());
    assert_eq!(state.username(), "alice");
    assert!(state.rooms().is_empty());
    assert!(!state.has_room(&s("general")));
}

#[test]
fn second_login_starts_rooms_and_logs_afresh() {
    let mut state = logged_in();
    state.apply_participation(&s("general"), &s("alice"), RoomParticipationStatus::Joined);
    state.apply_user_message(&s("general"), &s("bob"), &s("hi"));
    state.apply_login(&s("carol"), &vec![room("general", "again")]);
    assert_eq!(state.username(), "carol");
    assert_eq!(
        *state.rooms(),
        vec![RoomState { name: s("general"), description: s("again"), joined: false }]
    );
    assert_eq!(state.messages(&s("general")), Some(&Vec::new()));
    assert_eq!(state.messages(&s("random")), None);
}

#[test]
fn own_join_sets_joined_and_appends_notification() {
    let mut state = logged_in();
    state.apply_participation(&s("general"), &s("alice"), RoomParticipationStatus::Joined);
    assert!(state.rooms()[0].joined);
    assert!(!state.rooms()[1].joined);
    assert_eq!(
        state.messages(&s("general")),
        Some(&vec![MessageBoxItem::Notification(s("alice has joined the room"))])
    );
    assert_eq!(state.messages(&s("random")), Some(&Vec::new()));
}

#[test]
fn own_leave_clears_joined_and_appends_notification() {
    let mut state = logged_in();
    state.apply_participation(&s("random"), &s("alice"), RoomParticipationStatus::Joined);
    state.apply_participation(&s("random"), &s("alice"), RoomParticipationStatus::Left);
    assert!(!state.rooms()[0].joined);
    assert!(!state.rooms()[1].joined);
    assert_eq!(
        state.messages(&s("random")),
        Some(&vec![
            MessageBoxItem::Notification(s("alice has joined the room")),
            MessageBoxItem::Notification(s("alice has left the room")),
        ])
    );
    assert_eq!(state.messages(&s("general")), Some(&Vec::new()));
}

#[test]
fn participation_of_another_user_only_appends_notification() {
    let mut state = logged_in();
    state.apply_participation(&s("general"), &s("bob"), RoomParticipationStatus::Joined);
    assert!(!state.rooms()[0].joined);
    assert!(!state.rooms()[1].joined);
    assert_eq!(
        state.messages(&s("general")),
        Some(&vec![MessageBoxItem::Notification(s("bob has joined the room"))])
    );
    state.apply_participation(&s("general"), &s("alice"), RoomParticipationStatus::Joined);
    state.apply_participation(&s("general"), &s("bob"), RoomParticipationStatus::Left);
    assert!(state.rooms()[0].joined);
    assert_eq!(
        state.messages(&s("general")),
        Some(&vec![
            MessageBoxItem::Notification(s("bob has joined the room")),
            MessageBoxItem::Notification(s("alice has joined the room")),
            MessageBoxItem::Notification(s("bob has left the room")),
        ])
    );
}

#[test]
fn user_message_is_appended_without_changing_joined() {
    let mut state = logged_in();
    state.apply_user_message(&s("general"), &s("bob"), &s("hi"));
    assert_eq!(
        state.messages(&s("general")),
        Some(&vec![MessageBoxItem::Message { username: s("bob"), content: s("hi") }])
    );
    assert_eq!(state.messages(&s("random")), Some(&Vec::new()));
    assert!(!state.rooms()[0].joined);
    assert!(!state.rooms()[1].joined);
}

#[test]
fn user_message_keeps_a_joined_room_joined() {
    let mut state = logged_in();
    state.apply_participation(&s("general"), &s("alice"), RoomParticipationStatus::Joined);
    state.apply_user_message(&s("general"), &s("alice"), &s("hello"));
    state.apply_user_message(&s("random"), &s("bob"), &s("anyone?"));
    assert!(state.rooms()[0].joined);
    assert!(!state.rooms()[1].joined);
    assert_eq!(
        state.messages(&s("general")),
        Some(&vec![
            MessageBoxItem::Notification(s("alice has joined the room")),
            MessageBoxItem::Message { username: s("alice"), content: s("hello") },
        ])
    );
    assert_eq!(
        state.messages(&s("random")),
        Some(&vec![MessageBoxItem::Message { username: s("bob"), content: s("anyone?") }])
    );
}

#[test]
fn events_for_a_name_held_twice_go_to_the_first_room() {
    let mut state = State::new();
    state.apply_login(&s("alice"), &vec![room("twin", "one"), room("twin", "two")]);
    state.apply_participation(&s("twin"), &s("alice"), RoomParticipationStatus::Joined);
    assert_eq!(state.find_room(&s("twin")), Some(0));
    assert!(state.rooms()[0].joined);
    assert!(!state.rooms()[1].joined);
    assert_eq!(
        state.messages(&s("twin")),
        Some(&vec![MessageBoxItem::Notification(s("alice has joined the room"))])
    );
}

#[test]
fn has_room_tells_known_rooms_from_unknown() {
    let state = logged_in();
    assert!(state.has_room(&s("general")));
    assert!(state.has_room(&s("random")));
    assert!(!state.has_room(&s("General")));
    assert!(!state.has_room(&s("")));
}

#[test]
fn advance_timer_counts_one_tick() {
    let mut state = logged_in();
    state.advance_timer();
    assert_eq!(state.timer(), 1);
    state.advance_timer();
    state.advance_timer();
    assert_eq!(state.timer(), 3);
    assert_eq!(state.username(), "alice");
    assert_eq!(state.rooms().len(), 2);
    assert_eq!(state.messages(&s("general")), Some(&Vec::new()));
}

#[test]
fn set_connection_status_overwrites_the_status() {
    let mut state = logged_in();
    state.set_connection_status(ServerConnectionStatus::Connecting);
    assert_eq!(*state.server_connection_status(), ServerConnectionStatus::Connecting);
    state.set_connection_status(ServerConnectionStatus::Errored { err: s("refused") });
    assert_eq!(
        *state.server_connection_status(),
        ServerConnectionStatus::Errored { err: s("refused") }
    );
    state.set_connection_status(ServerConnectionStatus::Connected { addr: s("localhost:8080") });
    assert_eq!(
        *state.server_connection_status(),
        ServerConnectionStatus::Connected { addr: s("localhost:8080") }
    );
    state.set_connection_status(ServerConnectionStatus::Disconnected);
    assert_eq!(*state.server_connection_status(), ServerConnectionStatus::Disconnected);
    assert_eq!(state.username(), "alice");
    assert_eq!(state.rooms().len(), 2);
}

#[test]
fn set_active_room_selects_and_deselects() {
    let mut state = logged_in();
    state.set_active_room(Some(s("random")));
    assert_eq!(*state.active_room(), Some(s("random")));
    state.set_active_room(None);
    assert_eq!(*state.active_room(), None);
}
