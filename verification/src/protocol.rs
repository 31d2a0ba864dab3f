//! What the client receives from the server and what it sends, already
//! decoded. The wire format is somebody else's business.

use vstd::prelude::*;

verus! {

/// A room as the server announces it.
#[derive(Debug, PartialEq, Eq)]
pub struct RoomDetail {
    pub name: String,
    pub description: String,
}

/// A `RoomDetail` with its strings as sequences of characters.
pub struct RoomDetailView {
    pub name: Seq<char>,
    pub description: Seq<char>,
}

impl View for RoomDetail {
    type V = RoomDetailView;

    open spec fn view(&self) -> RoomDetailView {
        RoomDetailView { name: self.name@, description: self.description@ }
    }
}

impl Clone for RoomDetail {
    fn clone(&self) -> (copy: RoomDetail)
        ensures
            copy == *self,
    {
        RoomDetail { name: self.name.clone(), description: self.description.clone() }
    }
}

/// The views of a list of announced rooms, in order.
pub open spec fn room_detail_views(rooms: Seq<RoomDetail>) -> Seq<RoomDetailView> {
    rooms.map_values(|r: RoomDetail| r@)
}

/// Whether a user entered a room or left it.
#[derive(Clone, Copy, Debug, PartialEq, Eq, Structural)]
pub enum RoomParticipationStatus {
    Joined,
    Left,
}

/// An event pushed by the server.
#[derive(Debug, PartialEq, Eq)]
pub enum Event {
    /// The login went through: the name the user got, and the rooms there are.
    LoginSuccessful { username: String, rooms: Vec<RoomDetail> },
    /// A user entered or left a room.
    RoomParticipation { room: String, username: String, status: RoomParticipationStatus },
    /// A user wrote to a room.
    UserMessage { room: String, username: String, content: String },
}

/// An `Event` with its strings as sequences of characters.
pub enum EventView {
    LoginSuccessful { username: Seq<char>, rooms: Seq<RoomDetailView> },
    RoomParticipation { room: Seq<char>, username: Seq<char>, status: RoomParticipationStatus },
    UserMessage { room: Seq<char>, username: Seq<char>, content: Seq<char> },
}

impl View for Event {
    type V = EventView;

    open spec fn view(&self) -> EventView {
        match self {
            Event::LoginSuccessful { username, rooms } => EventView::LoginSuccessful {
                username: username@,
                rooms: room_detail_views(rooms@),
            },
            Event::RoomParticipation { room, username, status } => EventView::RoomParticipation {
                room: room@,
                username: username@,
                status: *status,
            },
            Event::UserMessage { room, username, content } => EventView::UserMessage {
                room: room@,
                username: username@,
                content: content@,
            },
        }
    }
}

impl Clone for Event {
    fn clone(&self) -> (copy: Event)
        ensures
            copy@ == self@,
    {
        match self {
            Event::LoginSuccessful { username, rooms } => {
                let copy = Event::LoginSuccessful {
                    username: username.clone(),
                    rooms: rooms.clone(),
                };
                assert(copy@ == self@);
                copy
            },
            Event::RoomParticipation { room, username, status } => Event::RoomParticipation {
                room: room.clone(),
                username: username.clone(),
                status: *status,
            },
            Event::UserMessage { room, username, content } => Event::UserMessage {
                room: room.clone(),
                username: username.clone(),
                content: content.clone(),
            },
        }
    }
}

/// A command that the client sends to the server.
#[derive(Debug, PartialEq, Eq)]
pub enum UserCommand {
    /// Write `content` to `room`.
    SendMessage { room: String, content: String },
}

impl Clone for UserCommand {
    fn clone(&self) -> (copy: UserCommand)
        ensures
            copy@ == self@,
    {
        match self {
            UserCommand::SendMessage { room, content } => UserCommand::SendMessage {
                room: room.clone(),
                content: content.clone(),
            },
        }
    }
}

/// A `UserCommand` with its strings as sequences of characters.
pub enum UserCommandView {
    SendMessage { room: Seq<char>, content: Seq<char> },
}

impl View for UserCommand {
    type V = UserCommandView;

    open spec fn view(&self) -> UserCommandView {
        match self {
            UserCommand::SendMessage { room, content } => UserCommandView::SendMessage {
                room: room@,
                content: content@,
            },
        }
    }
}

} // verus!
