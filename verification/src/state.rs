//! The canonical state of the application and the operations that change it.

use vstd::prelude::*;
use crate::protocol::{
    EventView, RoomDetail, RoomDetailView, RoomParticipationStatus, room_detail_views,
};

verus! {

/// A room and whether the user is in it.
#[derive(Debug, PartialEq, Eq)]
pub struct RoomState {
    pub name: String,
    pub description: String,
    pub joined: bool,
}

/// A `RoomState` with its strings as sequences of characters.
pub struct RoomStateView {
    pub name: Seq<char>,
    pub description: Seq<char>,
    pub joined: bool,
}

impl View for RoomState {
    type V = RoomStateView;

    open spec fn view(&self) -> RoomStateView {
        RoomStateView { name: self.name@, description: self.description@, joined: self.joined }
    }
}

impl Clone for RoomState {
    fn clone(&self) -> (copy: RoomState)
        ensures
            copy@ == self@,
    {
        RoomState {
            name: self.name.clone(),
            description: self.description.clone(),
            joined: self.joined,
        }
    }
}

impl RoomState {
    pub fn new(name: String, description: String, joined: bool) -> (room: RoomState)
        ensures
            room.name == name,
            room.description == description,
            room.joined == joined,
    {
        RoomState { name, description, joined }
    }
}

/// One entry of a room's message log.
#[derive(Debug, PartialEq, Eq)]
pub enum MessageBoxItem {
    /// What a user wrote.
    Message { username: String, content: String },
    /// A line from the application itself.
    Notification(String),
}

/// A `MessageBoxItem` with its strings as sequences of characters.
pub enum MessageBoxItemView {
    Message { username: Seq<char>, content: Seq<char> },
    Notification(Seq<char>),
}

impl View for MessageBoxItem {
    type V = MessageBoxItemView;

    open spec fn view(&self) -> MessageBoxItemView {
        match self {
            MessageBoxItem::Message { username, content } => MessageBoxItemView::Message {
                username: username@,
                content: content@,
            },
            MessageBoxItem::Notification(text) => MessageBoxItemView::Notification(text@),
        }
    }
}

impl Clone for MessageBoxItem {
    fn clone(&self) -> (copy: MessageBoxItem)
        ensures
            copy@ == self@,
    {
        match self {
            MessageBoxItem::Message { username, content } => MessageBoxItem::Message {
                username: username.clone(),
                content: content.clone(),
            },
            MessageBoxItem::Notification(text) => MessageBoxItem::Notification(text.clone()),
        }
    }
}

/// Where the connection to the server stands.
#[derive(Debug, PartialEq, Eq)]
pub enum ServerConnectionStatus {
    Disconnected,
    Connecting,
    Connected { addr: String },
    Errored { err: String },
}

/// A `ServerConnectionStatus` with its strings as sequences of characters.
pub enum ServerConnectionStatusView {
    Disconnected,
    Connecting,
    Connected { addr: Seq<char> },
    Errored { err: Seq<char> },
}

impl View for ServerConnectionStatus {
    type V = ServerConnectionStatusView;

    open spec fn view(&self) -> ServerConnectionStatusView {
        match self {
            ServerConnectionStatus::Disconnected => ServerConnectionStatusView::Disconnected,
            ServerConnectionStatus::Connecting => ServerConnectionStatusView::Connecting,
            ServerConnectionStatus::Connected { addr } => ServerConnectionStatusView::Connected {
                addr: addr@,
            },
            ServerConnectionStatus::Errored { err } => ServerConnectionStatusView::Errored {
                err: err@,
            },
        }
    }
}

impl Clone for ServerConnectionStatus {
    fn clone(&self) -> (copy: ServerConnectionStatus)
        ensures
            copy@ == self@,
    {
        match self {
            ServerConnectionStatus::Disconnected => ServerConnectionStatus::Disconnected,
            ServerConnectionStatus::Connecting => ServerConnectionStatus::Connecting,
            ServerConnectionStatus::Connected { addr } => ServerConnectionStatus::Connected {
                addr: addr.clone(),
            },
            ServerConnectionStatus::Errored { err } => ServerConnectionStatus::Errored {
                err: err.clone(),
            },
        }
    }
}

/// The views of a list of rooms, in order.
pub open spec fn room_views(rooms: Seq<RoomState>) -> Seq<RoomStateView> {
    rooms.map_values(|r: RoomState| r@)
}

/// The views of the entries of a log, in order.
pub open spec fn item_views(items: Seq<MessageBoxItem>) -> Seq<MessageBoxItemView> {
    items.map_values(|m: MessageBoxItem| m@)
}

/// The views of a list of logs, in order.
pub open spec fn log_views(logs: Seq<Vec<MessageBoxItem>>) -> Seq<Seq<MessageBoxItemView>> {
    logs.map_values(|l: Vec<MessageBoxItem>| item_views(l@))
}

/// The line that a log gets when `username` enters or leaves the room.
pub open spec fn participation_notice(
    username: Seq<char>,
    status: RoomParticipationStatus,
) -> Seq<char> {
    match status {
        RoomParticipationStatus::Joined => username + " has joined the room"@,
        RoomParticipationStatus::Left => username + " has left the room"@,
    }
}

/// The state as contracts see it.
pub struct StateView {
    pub server_connection_status: ServerConnectionStatusView,
    /// The name of the user; empty until the login went through.
    pub username: Seq<char>,
    /// The rooms, in the order in which the server announced them.
    pub rooms: Seq<RoomStateView>,
    /// The room that the user has selected.
    pub active_room: Option<Seq<char>>,
    /// The message logs: `messages[i]` is the log of `rooms[i]`.
    pub messages: Seq<Seq<MessageBoxItemView>>,
    /// The ticks counted since the start.
    pub timer: nat,
}

impl StateView {
    /// Every room has its log.
    pub open spec fn wf(self) -> bool {
        self.messages.len() == self.rooms.len()
    }

    /// The state at startup.
    pub open spec fn empty() -> StateView {
        StateView {
            server_connection_status: ServerConnectionStatusView::Disconnected,
            username: Seq::empty(),
            rooms: Seq::empty(),
            active_room: None,
            messages: Seq::empty(),
            timer: 0,
        }
    }

    /// `i` is the place of the first room called `name`.
    pub open spec fn is_room_index(self, name: Seq<char>, i: int) -> bool {
        &&& 0 <= i < self.rooms.len()
        &&& self.rooms[i].name == name
        &&& forall|j: int| 0 <= j < i ==> (#[trigger] self.rooms[j]).name != name
    }

    /// There is a room called `name`.
    pub open spec fn has_room(self, name: Seq<char>) -> bool {
        exists|i: int| self.is_room_index(name, i)
    }

    /// The place of the first room called `name`, where there is one. An
    /// event that names a room is about that room.
    pub open spec fn room_index(self, name: Seq<char>) -> int {
        choose|i: int| self.is_room_index(name, i)
    }

    /// The log of the room called `name`, where there is one.
    pub open spec fn log_of(self, name: Seq<char>) -> Seq<MessageBoxItemView> {
        self.messages[self.room_index(name)]
    }

    /// The state after a login: the user has the name `username`, the rooms
    /// are those of `rooms`, none of them joined, and each has an empty log.
    /// What the state held of rooms and logs before is gone.
    pub open spec fn login(self, username: Seq<char>, rooms: Seq<RoomDetailView>) -> StateView {
        StateView {
            username,
            rooms: Seq::new(
                rooms.len(),
                |i: int|
                    RoomStateView {
                        name: rooms[i].name,
                        description: rooms[i].description,
                        joined: false,
                    },
            ),
            messages: Seq::new(rooms.len(), |i: int| Seq::empty()),
            ..self
        }
    }

    /// The state after `item` was appended to the log of the room called
    /// `room`.
    pub open spec fn append(self, room: Seq<char>, item: MessageBoxItemView) -> StateView {
        let i = self.room_index(room);
        StateView { messages: self.messages.update(i, self.messages[i].push(item)), ..self }
    }

    /// The state after `username` entered or left the room called `room`:
    /// if that is the user, the room is joined or no longer joined; in any
    /// case the log of the room gets a notification.
    pub open spec fn participation(
        self,
        room: Seq<char>,
        username: Seq<char>,
        status: RoomParticipationStatus,
    ) -> StateView {
        let i = self.room_index(room);
        let joined = status == RoomParticipationStatus::Joined;
        let notice = MessageBoxItemView::Notification(participation_notice(username, status));
        StateView {
            rooms: if username == self.username {
                self.rooms.update(i, RoomStateView { joined, ..self.rooms[i] })
            } else {
                self.rooms
            },
            messages: self.messages.update(i, self.messages[i].push(notice)),
            ..self
        }
    }

    /// The state after `username` wrote `content` to the room called `room`.
    pub open spec fn user_message(
        self,
        room: Seq<char>,
        username: Seq<char>,
        content: Seq<char>,
    ) -> StateView {
        self.append(room, MessageBoxItemView::Message { username, content })
    }

    /// The state one tick later.
    pub open spec fn tick(self) -> StateView {
        StateView { timer: self.timer + 1, ..self }
    }

    /// Whether the state can take in `event`: an event that names a room is
    /// taken in only where a room of that name is there.
    pub open spec fn accepts_event(self, event: EventView) -> bool {
        match event {
            EventView::LoginSuccessful { .. } => true,
            EventView::RoomParticipation { room, .. } => self.has_room(room),
            EventView::UserMessage { room, .. } => self.has_room(room),
        }
    }

    /// The state after `event` was taken in.
    pub open spec fn server_event(self, event: EventView) -> StateView {
        match event {
            EventView::LoginSuccessful { username, rooms } => self.login(username, rooms),
            EventView::RoomParticipation { room, username, status } => self.participation(
                room,
                username,
                status,
            ),
            EventView::UserMessage { room, username, content } => self.user_message(
                room,
                username,
                content,
            ),
        }
    }
}

/// The state of the application: who the user is, which rooms there are,
/// what was said in each, and how the connection stands.
pub struct State {
    server_connection_status: ServerConnectionStatus,
    username: String,
    rooms: Vec<RoomState>,
    active_room: Option<String>,
    messages: Vec<Vec<MessageBoxItem>>,
    timer: usize,
}

impl View for State {
    type V = StateView;

    closed spec fn view(&self) -> StateView {
        StateView {
            server_connection_status: self.server_connection_status@,
            username: self.username@,
            rooms: room_views(self.rooms@),
            active_room: match self.active_room {
                Some(room) => Some(room@),
                None => None,
            },
            messages: log_views(self.messages@),
            timer: self.timer as nat,
        }
    }
}

impl State {
    /// The invariant of the state: every room has its log.
    pub open spec fn wf(&self) -> bool {
        self@.wf()
    }

    /// The state at startup: not connected, no user name, no room, no tick.
    pub fn new() -> (state: State)
        ensures
            state@ == StateView::empty(),
            state.wf(),
    {
        let state = State {
            server_connection_status: ServerConnectionStatus::Disconnected,
            username: String::new(),
            rooms: Vec::new(),
            active_room: None,
            messages: Vec::new(),
            timer: 0,
        };
        assert(state@.rooms =~= Seq::empty());
        assert(state@.messages =~= Seq::empty());
        state
    }

    /// The place of the first room called `name`, if there is one.
    pub fn find_room(&self, name: &String) -> (found: Option<usize>)
        ensures
            match found {
                Some(i) => self@.has_room(name@) && self@.room_index(name@) == i,
                None => !self@.has_room(name@),
            },
    {
        let mut i: usize = 0;
        while i < self.rooms.len()
            invariant
                i <= self.rooms.len(),
                forall|j: int| 0 <= j < i ==> (#[trigger] self@.rooms[j]).name != name@,
            decreases self.rooms.len() - i,
        {
            if self.rooms[i].name == *name {
                assert(self@.is_room_index(name@, i as int));
                return Some(i);
            }
            i = i + 1;
        }
        None
    }

    /// Whether there is a room called `name`.
    pub fn has_room(&self, name: &String) -> (found: bool)
        ensures
            found == self@.has_room(name@),
    {
        self.find_room(name).is_some()
    }

    /// Takes in a successful login: sets the user's name and replaces the
    /// rooms by those announced, none of them joined, each with an empty
    /// log. A second login starts the rooms and logs afresh.
    pub fn apply_login(&mut self, username: &String, rooms: &Vec<RoomDetail>)
        ensures
            final(self)@ == old(self)@.login(username@, room_detail_views(rooms@)),
            final(self).wf(),
    {
        let mut room_states: Vec<RoomState> = Vec::new();
        let mut logs: Vec<Vec<MessageBoxItem>> = Vec::new();
        let mut i: usize = 0;
        while i < rooms.len()
            invariant
                i <= rooms.len(),
                room_states.len() == i,
                logs.len() == i,
                forall|j: int|
                    0 <= j < i ==> (#[trigger] room_states@[j])@ == (RoomStateView {
                        name: rooms@[j].name@,
                        description: rooms@[j].description@,
                        joined: false,
                    }),
                forall|j: int| 0 <= j < i ==> (#[trigger] logs@[j])@.len() == 0,
            decreases rooms.len() - i,
        {
            let room = &rooms[i];
            room_states.push(RoomState::new(room.name.clone(), room.description.clone(), false));
            logs.push(Vec::new());
            i = i + 1;
        }
        self.username = username.clone();
        self.rooms = room_states;
        self.messages = logs;
        proof {
            let expected = old(self)@.login(username@, room_detail_views(rooms@));
            assert(self@.rooms =~= expected.rooms);
            assert forall|j: int| 0 <= j < self@.messages.len() implies self@.messages[j]
                == expected.messages[j] by {
                assert(self@.messages[j] =~= Seq::empty());
            }
            assert(self@.messages =~= expected.messages);
        }
    }

    /// Appends `item` to the log of the room at place `i`.
    fn push_item(&mut self, i: usize, item: MessageBoxItem)
        requires
            old(self).wf(),
            i < old(self)@.rooms.len(),
        ensures
            final(self)@ == (StateView {
                messages: old(self)@.messages.update(
                    i as int,
                    old(self)@.messages[i as int].push(item@),
                ),
                ..old(self)@
            }),
            final(self).wf(),
    {
        self.messages[i].push(item);
        proof {
            let expected = old(self)@.messages.update(
                i as int,
                old(self)@.messages[i as int].push(item@),
            );
            assert(self@.messages[i as int] =~= expected[i as int]);
            assert(self@.messages =~= expected);
        }
    }

    /// Takes in that `username` entered or left the room called `room`. If
    /// `username` is the user, the room is joined from now on, or no longer
    /// joined. In any case the log of the room gets the notification
    /// "`username` has joined the room" or "`username` has left the room".
    ///
    /// The server names no room that it has not announced: a room called
    /// `room` must be there.
    pub fn apply_participation(
        &mut self,
        room: &String,
        username: &String,
        status: RoomParticipationStatus,
    )
        requires
            old(self).wf(),
            old(self)@.has_room(room@),
        ensures
            final(self)@ == old(self)@.participation(room@, username@, status),
            final(self).wf(),
    {
        let found = self.find_room(room);
        let i = found.unwrap();
        if *username == self.username {
            let joined = match status {
                RoomParticipationStatus::Joined => true,
                RoomParticipationStatus::Left => false,
            };
            self.rooms[i].joined = joined;
            assert(self@.rooms =~= old(self)@.rooms.update(
                i as int,
                RoomStateView { joined, ..old(self)@.rooms[i as int] },
            ));
        }
        let mut text = username.clone();
        match status {
            RoomParticipationStatus::Joined => text.append(" has joined the room"),
            RoomParticipationStatus::Left => text.append(" has left the room"),
        }
        self.push_item(i, MessageBoxItem::Notification(text));
    }

    /// Takes in that `username` wrote `content` to the room called `room`:
    /// the log of the room gets the message. No room is joined or left by
    /// it.
    ///
    /// The server names no room that it has not announced: a room called
    /// `room` must be there.
    pub fn apply_user_message(&mut self, room: &String, username: &String, content: &String)
        requires
            old(self).wf(),
            old(self)@.has_room(room@),
        ensures
            final(self)@ == old(self)@.user_message(room@, username@, content@),
            final(self)@.rooms == old(self)@.rooms,
            final(self).wf(),
    {
        let found = self.find_room(room);
        let i = found.unwrap();
        self.push_item(
            i,
            MessageBoxItem::Message { username: username.clone(), content: content.clone() },
        );
    }

    /// Counts one tick. Nothing else changes.
    pub fn advance_timer(&mut self)
        requires
            old(self)@.timer < usize::MAX,
        ensures
            final(self)@ == old(self)@.tick(),
    {
        self.timer = self.timer + 1;
    }

    /// Overwrites the status of the connection.
    pub fn set_connection_status(&mut self, status: ServerConnectionStatus)
        ensures
            final(self)@ == (StateView { server_connection_status: status@, ..old(self)@ }),
    {
        self.server_connection_status = status;
    }

    /// Selects a room, or none.
    pub fn set_active_room(&mut self, room: Option<String>)
        ensures
            final(self)@ == (StateView {
                active_room: match room {
                    Some(name) => Some(name@),
                    None => None,
                },
                ..old(self)@
            }),
    {
        self.active_room = room;
    }

    /// How the connection stands.
    pub fn server_connection_status(&self) -> (status: &ServerConnectionStatus)
        ensures
            status@ == self@.server_connection_status,
    {
        &self.server_connection_status
    }

    /// The name of the user.
    pub fn username(&self) -> (name: &String)
        ensures
            name@ == self@.username,
    {
        &self.username
    }

    /// The rooms, in the order in which the server announced them.
    pub fn rooms(&self) -> (rooms: &Vec<RoomState>)
        ensures
            room_views(rooms@) == self@.rooms,
    {
        &self.rooms
    }

    /// The room that the user has selected, if any.
    pub fn active_room(&self) -> (room: &Option<String>)
        ensures
            match room {
                Some(name) => self@.active_room == Some(name@),
                None => self@.active_room is None,
            },
    {
        &self.active_room
    }

    /// The log of the room called `room`, if there is such a room.
    pub fn messages(&self, room: &String) -> (log: Option<&Vec<MessageBoxItem>>)
        requires
            self.wf(),
        ensures
            match log {
                Some(items) => self@.has_room(room@) && item_views(items@) == self@.log_of(room@),
                None => !self@.has_room(room@),
            },
    {
        match self.find_room(room) {
            Some(i) => Some(&self.messages[i]),
            None => None,
        }
    }

    /// The ticks counted since the start.
    pub fn timer(&self) -> (ticks: usize)
        ensures
            ticks == self@.timer,
    {
        self.timer
    }
}

} // verus!
