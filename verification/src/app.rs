//! The application as one value: the state, the line under composition and
//! the input mode, with what key presses and server events do to them.

use vstd::prelude::*;
use vstd::string::StringExecFns;
use crate::action::{Action, ActionView};
use crate::input_box::{InputBox, InputBoxView};
use crate::key::{KeyCode, KeyEvent, KeyEventKind};
use crate::protocol::{Event, EventView, UserCommand, UserCommandView};
use crate::state::{ServerConnectionStatus, ServerConnectionStatusView, State, StateView};
use crate::termination::Interrupted;

verus! {

/// The room that messages are sent to.
pub const DEFAULT_ROOM: &'static str = "general";

/// Whether keys are commands or text.
#[derive(Clone, Copy, Debug, PartialEq, Eq, Structural)]
pub enum InputMode {
    /// Keys are commands: `e` starts editing, `q` leaves.
    Normal,
    /// Keys go into the line under composition.
    Editing,
}

/// What is to be done outside the application value after a key press or an
/// action. The application value decides it; whoever owns the connection and
/// the shutdown signal carries it out.
#[derive(Debug, PartialEq, Eq)]
pub enum Effect {
    /// Nothing.
    Nothing,
    /// Connect to the server at this address, and report how it went with
    /// `App::set_connection_status`.
    Connect { addr: String },
    /// Broadcast the shutdown signal with this reason.
    Terminate(Interrupted),
    /// Send this command to the server.
    Send(UserCommand),
}

/// An `Effect` with its strings as sequences of characters.
pub enum EffectView {
    Nothing,
    Connect { addr: Seq<char> },
    Terminate(Interrupted),
    Send(UserCommandView),
}

impl View for Effect {
    type V = EffectView;

    open spec fn view(&self) -> EffectView {
        match self {
            Effect::Nothing => EffectView::Nothing,
            Effect::Connect { addr } => EffectView::Connect { addr: addr@ },
            Effect::Terminate(reason) => EffectView::Terminate(*reason),
            Effect::Send(command) => EffectView::Send(command@),
        }
    }
}

impl Clone for Effect {
    fn clone(&self) -> (copy: Effect)
        ensures
            copy@ == self@,
    {
        match self {
            Effect::Nothing => Effect::Nothing,
            Effect::Connect { addr } => Effect::Connect { addr: addr.clone() },
            Effect::Terminate(reason) => Effect::Terminate(*reason),
            Effect::Send(command) => Effect::Send(command.clone()),
        }
    }
}

/// The application as contracts see it.
pub struct AppView {
    pub state: StateView,
    pub input: InputBoxView,
    pub input_mode: InputMode,
}

impl AppView {
    /// Every room has its log, and the cursor of the line is within its
    /// text.
    pub open spec fn wf(self) -> bool {
        self.state.wf() && self.input.wf()
    }

    /// The application at startup: the empty state with the default room
    /// selected, an empty line, and keys taken as commands.
    pub open spec fn initial() -> AppView {
        AppView {
            state: StateView { active_room: Some(DEFAULT_ROOM@), ..StateView::empty() },
            input: InputBoxView::empty(),
            input_mode: InputMode::Normal,
        }
    }

    /// The command that submitting the line gives: the text of the line, to
    /// the default room. An empty line gives none.
    pub open spec fn submitted(self) -> Option<UserCommandView> {
        if self.input.text.len() == 0 {
            None
        } else {
            Some(UserCommandView::SendMessage { room: DEFAULT_ROOM@, content: self.input.text })
        }
    }

    /// The application after the line was submitted: the line is empty and
    /// the cursor at 0.
    pub open spec fn after_submit(self) -> AppView {
        AppView { input: InputBoxView::empty(), ..self }
    }

    /// The application after a key event.
    ///
    /// In normal mode `e` starts editing and nothing else changes anything.
    /// In editing mode only presses count: enter submits the line, a
    /// character is inserted, backspace deletes, the arrows move the cursor
    /// and escape goes back to normal mode.
    pub open spec fn after_key(self, key: KeyEvent) -> AppView {
        match self.input_mode {
            InputMode::Normal => {
                if key.code == KeyCode::Char('e') {
                    AppView { input_mode: InputMode::Editing, ..self }
                } else {
                    self
                }
            },
            InputMode::Editing => {
                if key.kind != KeyEventKind::Press {
                    self
                } else {
                    match key.code {
                        KeyCode::Enter => self.after_submit(),
                        KeyCode::Char(c) => AppView { input: self.input.insert(c), ..self },
                        KeyCode::Backspace => AppView {
                            input: self.input.delete_before(),
                            ..self
                        },
                        KeyCode::Left => AppView { input: self.input.move_by(-1), ..self },
                        KeyCode::Right => AppView { input: self.input.move_by(1), ..self },
                        KeyCode::Esc => AppView { input_mode: InputMode::Normal, ..self },
                        KeyCode::Other => self,
                    }
                }
            },
        }
    }

    /// What is to be done after a key event: in normal mode `q`, or `c` with
    /// the control key, ends the application at the user's request; in
    /// editing mode a press of enter sends the line, unless it is empty.
    pub open spec fn effect_of_key(self, key: KeyEvent) -> EffectView {
        match self.input_mode {
            InputMode::Normal => {
                if key.is_quit() {
                    EffectView::Terminate(Interrupted::UserInt)
                } else {
                    EffectView::Nothing
                }
            },
            InputMode::Editing => {
                if key.kind == KeyEventKind::Press && key.code == KeyCode::Enter {
                    match self.submitted() {
                        Some(command) => EffectView::Send(command),
                        None => EffectView::Nothing,
                    }
                } else {
                    EffectView::Nothing
                }
            },
        }
    }

    /// The application after an action of the user interface. A request to
    /// connect marks the connection as being made; the selection of a room
    /// that is there makes it the active room; nothing else changes
    /// anything.
    pub open spec fn after_action(self, action: ActionView) -> AppView {
        match action {
            ActionView::ConnectToServerRequest { .. } => AppView {
                state: StateView {
                    server_connection_status: ServerConnectionStatusView::Connecting,
                    ..self.state
                },
                ..self
            },
            ActionView::SelectRoom { room } => if self.state.has_room(room) {
                AppView { state: StateView { active_room: Some(room), ..self.state }, ..self }
            } else {
                self
            },
            _ => self,
        }
    }

    /// What is to be done about an action of the user interface: a request
    /// to connect is to be carried out, a message goes to the active room,
    /// if there is one, and leaving ends the application at the user's
    /// request.
    pub open spec fn effect_of_action(self, action: ActionView) -> EffectView {
        match action {
            ActionView::ConnectToServerRequest { addr } => EffectView::Connect { addr },
            ActionView::SendMessage { content } => match self.state.active_room {
                Some(room) => EffectView::Send(UserCommandView::SendMessage { room, content }),
                None => EffectView::Nothing,
            },
            ActionView::Exit => EffectView::Terminate(Interrupted::UserInt),
            _ => EffectView::Nothing,
        }
    }
}

/// App holds the state of the application.
pub struct App {
    state: State,
    /// The line under composition.
    input: InputBox,
    input_mode: InputMode,
}

impl View for App {
    type V = AppView;

    closed spec fn view(&self) -> AppView {
        AppView { state: self.state@, input: self.input@, input_mode: self.input_mode }
    }
}

impl App {
    /// The invariant of the application: that of its state and that of its
    /// line.
    pub open spec fn wf(&self) -> bool {
        self@.wf()
    }

    pub fn new() -> (app: App)
        ensures
            app@ == AppView::initial(),
            app.wf(),
    {
        let mut state = State::new();
        state.set_active_room(Some(String::from_str(DEFAULT_ROOM)));
        App { state, input: InputBox::new(), input_mode: InputMode::Normal }
    }

    /// The state of the application.
    pub fn state(&self) -> (state: &State)
        ensures
            state@ == self@.state,
    {
        &self.state
    }

    /// The line under composition.
    pub fn input(&self) -> (input: &InputBox)
        ensures
            input@ == self@.input,
    {
        &self.input
    }

    pub fn input_mode(&self) -> (mode: InputMode)
        ensures
            mode == self@.input_mode,
    {
        self.input_mode
    }

    /// Takes in a key event and says what is to be done about it.
    pub fn handle_key_event(&mut self, key: KeyEvent) -> (effect: Effect)
        requires
            old(self).wf(),
        ensures
            final(self)@ == old(self)@.after_key(key),
            effect@ == old(self)@.effect_of_key(key),
            final(self).wf(),
    {
        match self.input_mode {
            InputMode::Normal => match key.code {
                KeyCode::Char(c) => {
                    if c == 'e' {
                        self.input_mode = InputMode::Editing;
                        Effect::Nothing
                    } else if c == 'q' {
                        Effect::Terminate(Interrupted::UserInt)
                    } else if c == 'c' && key.control {
                        Effect::Terminate(Interrupted::UserInt)
                    } else {
                        Effect::Nothing
                    }
                },
                _ => Effect::Nothing,
            },
            InputMode::Editing => {
                if key.kind != KeyEventKind::Press {
                    return Effect::Nothing;
                }
                match key.code {
                    KeyCode::Enter => {
                        match self.submit_message() {
                            Some(command) => Effect::Send(command),
                            None => Effect::Nothing,
                        }
                    },
                    KeyCode::Char(to_insert) => {
                        self.enter_char(to_insert);
                        Effect::Nothing
                    },
                    KeyCode::Backspace => {
                        self.delete_char();
                        Effect::Nothing
                    },
                    KeyCode::Left => {
                        self.move_cursor_left();
                        Effect::Nothing
                    },
                    KeyCode::Right => {
                        self.move_cursor_right();
                        Effect::Nothing
                    },
                    KeyCode::Esc => {
                        self.input_mode = InputMode::Normal;
                        Effect::Nothing
                    },
                    KeyCode::Other => Effect::Nothing,
                }
            },
        }
    }

    /// Whether `event` can be taken in: an event that names a room can be
    /// only where a room of that name is there.
    pub fn accepts_event(&self, event: &Event) -> (accepted: bool)
        ensures
            accepted == self@.state.accepts_event(event@),
    {
        match event {
            Event::LoginSuccessful { .. } => true,
            Event::RoomParticipation { room, .. } => self.state.has_room(room),
            Event::UserMessage { room, .. } => self.state.has_room(room),
        }
    }

    /// Takes in an event of the server: a login, a user entering or leaving
    /// a room, or a message. The line under composition and the input mode
    /// stay as they are.
    ///
    /// The server names no room that it has not announced: the state must
    /// accept the event.
    pub fn handle_server_event(&mut self, event: &Event)
        requires
            old(self).wf(),
            old(self)@.state.accepts_event(event@),
        ensures
            final(self)@ == (AppView {
                state: old(self)@.state.server_event(event@),
                ..old(self)@
            }),
            final(self).wf(),
    {
        match event {
            Event::LoginSuccessful { username, rooms } => {
                self.state.apply_login(username, rooms);
            },
            Event::RoomParticipation { room, username, status } => {
                self.state.apply_participation(room, username, *status);
            },
            Event::UserMessage { room, username, content } => {
                self.state.apply_user_message(room, username, content);
            },
        }
    }

    /// Takes in an action of the user interface and says what is to be done
    /// about it outside the application value.
    pub fn dispatch(&mut self, action: Action) -> (effect: Effect)
        ensures
            final(self)@ == old(self)@.after_action(action@),
            effect@ == old(self)@.effect_of_action(action@),
            old(self).wf() ==> final(self).wf(),
    {
        match action {
            Action::Noop => Effect::Nothing,
            Action::ConnectToServerRequest { addr } => {
                self.state.set_connection_status(ServerConnectionStatus::Connecting);
                Effect::Connect { addr }
            },
            Action::SendMessage { content } => match self.state.active_room() {
                Some(room) => Effect::Send(UserCommand::SendMessage { room: room.clone(), content }),
                None => Effect::Nothing,
            },
            Action::SelectRoom { room } => {
                if self.state.has_room(&room) {
                    self.state.set_active_room(Some(room));
                }
                Effect::Nothing
            },
            Action::Exit => Effect::Terminate(Interrupted::UserInt),
        }
    }

    /// Overwrites the status of the connection: connected, or failed with a
    /// reason, once an attempt to connect has ended.
    pub fn set_connection_status(&mut self, status: ServerConnectionStatus)
        ensures
            final(self)@ == (AppView {
                state: StateView { server_connection_status: status@, ..old(self)@.state },
                ..old(self)@
            }),
            old(self).wf() ==> final(self).wf(),
    {
        self.state.set_connection_status(status);
    }

    /// Counts one tick.
    pub fn increment_timer(&mut self)
        requires
            old(self)@.state.timer < usize::MAX,
        ensures
            final(self)@ == (AppView { state: old(self)@.state.tick(), ..old(self)@ }),
    {
        self.state.advance_timer();
    }

    /// Moves the cursor of the line one character to the left.
    pub fn move_cursor_left(&mut self)
        requires
            old(self).wf(),
        ensures
            final(self)@ == (AppView { input: old(self)@.input.move_by(-1), ..old(self)@ }),
            final(self).wf(),
    {
        self.input.move_cursor_left();
    }

    /// Moves the cursor of the line one character to the right.
    pub fn move_cursor_right(&mut self)
        requires
            old(self).wf(),
        ensures
            final(self)@ == (AppView { input: old(self)@.input.move_by(1), ..old(self)@ }),
            final(self).wf(),
    {
        self.input.move_cursor_right();
    }

    /// Inserts `new_char` into the line at the cursor.
    pub fn enter_char(&mut self, new_char: char)
        requires
            old(self).wf(),
        ensures
            final(self)@ == (AppView { input: old(self)@.input.insert(new_char), ..old(self)@ }),
            final(self).wf(),
    {
        self.input.enter_char(new_char);
    }

    /// Deletes the character of the line before the cursor.
    pub fn delete_char(&mut self)
        requires
            old(self).wf(),
        ensures
            final(self)@ == (AppView { input: old(self)@.input.delete_before(), ..old(self)@ }),
            final(self).wf(),
    {
        self.input.delete_char();
    }

    /// `new_cursor_pos` brought into the range from 0 to the length of the
    /// line.
    pub fn clamp_cursor(&self, new_cursor_pos: usize) -> (c: usize)
        ensures
            c == self@.input.clamp(new_cursor_pos as int),
    {
        self.input.clamp_cursor(new_cursor_pos)
    }

    /// Puts the cursor of the line at 0.
    pub fn reset_cursor(&mut self)
        ensures
            final(self)@ == (AppView {
                input: InputBoxView { cursor: 0, ..old(self)@.input },
                ..old(self)@
            }),
    {
        self.input.reset_cursor();
    }

    /// Submits the line: gives the command that sends its text to the
    /// default room, and empties the line. An empty line gives no command.
    pub fn submit_message(&mut self) -> (command: Option<UserCommand>)
        requires
            old(self).wf(),
        ensures
            final(self)@ == old(self)@.after_submit(),
            match command {
                Some(c) => old(self)@.submitted() == Some(c@),
                None => old(self)@.submitted() is None,
            },
            final(self).wf(),
    {
        if self.input.is_empty() {
            assert(self@.input.text =~= Seq::empty());
            return None;
        }
        let command = UserCommand::SendMessage {
            room: String::from_str(DEFAULT_ROOM),
            content: self.input.text(),
        };
        self.input.reset();
        Some(command)
    }
}

} // verus!
