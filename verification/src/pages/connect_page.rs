//! The page on which the user enters the address of the server.

use vstd::prelude::*;
use vstd::string::StringExecFns;
use crate::action::{Action, ActionView};
use crate::component::Component;
use crate::input_box::{InputBox, InputBoxView};
use crate::key::{KeyCode, KeyEvent, KeyEventKind};
use crate::state::{ServerConnectionStatus, ServerConnectionStatusView, State, StateView};

verus! {

/// The address that the page proposes.
pub const DEFAULT_SERVER_ADDR: &'static str = "localhost:8080";

/// The error that the page shows for a status of the connection: the reason
/// of a failed connection, and nothing otherwise.
pub open spec fn error_of(status: ServerConnectionStatusView) -> Option<Seq<char>> {
    match status {
        ServerConnectionStatusView::Errored { err } => Some(err),
        _ => None,
    }
}

/// What the page takes from the state.
struct Props {
    error_message: Option<String>,
}

impl Props {
    fn from(state: &State) -> (props: Props)
        ensures
            match props.error_message {
                Some(err) => error_of(state@.server_connection_status) == Some(err@),
                None => error_of(state@.server_connection_status) is None,
            },
    {
        Props {
            error_message: match state.server_connection_status() {
                ServerConnectionStatus::Errored { err } => Some(err.clone()),
                _ => None,
            },
        }
    }
}

/// The page as contracts see it.
pub struct ConnectPageView {
    /// The error shown under the address, if any.
    pub error_message: Option<Seq<char>>,
    /// The line in which the address is typed.
    pub input_box: InputBoxView,
}

impl ConnectPageView {
    /// What asking to connect gives: a request for the address typed, or
    /// nothing where the line is empty.
    pub open spec fn connect_request(self) -> ActionView {
        if self.input_box.text.len() == 0 {
            ActionView::Noop
        } else {
            ActionView::ConnectToServerRequest { addr: self.input_box.text }
        }
    }

    /// The page after a key event: the event goes to the line.
    pub open spec fn after_key(self, key: KeyEvent) -> ConnectPageView {
        ConnectPageView { input_box: self.input_box.on_key(key), ..self }
    }

    /// What a key event asks of the application. Only presses count: enter
    /// asks to connect, `q`, or `c` with the control key, asks to leave.
    pub open spec fn action_of_key(self, key: KeyEvent) -> ActionView {
        if key.kind != KeyEventKind::Press {
            ActionView::Noop
        } else if key.code == KeyCode::Enter {
            self.connect_request()
        } else if key.is_quit() {
            ActionView::Exit
        } else {
            ActionView::Noop
        }
    }
}

/// ConnectPage handles the connection to the server.
pub struct ConnectPage {
    props: Props,
    input_box: InputBox,
}

impl View for ConnectPage {
    type V = ConnectPageView;

    closed spec fn view(&self) -> ConnectPageView {
        ConnectPageView {
            error_message: match self.props.error_message {
                Some(err) => Some(err@),
                None => None,
            },
            input_box: self.input_box@,
        }
    }
}

impl ConnectPage {
    /// The page as it is made for a state: the error of the state's
    /// connection, and the default address in the line with the cursor
    /// behind it.
    pub open spec fn new_view(state: StateView) -> ConnectPageView {
        ConnectPageView {
            error_message: error_of(state.server_connection_status),
            input_box: InputBoxView::with_text(DEFAULT_SERVER_ADDR@),
        }
    }

    /// The page for `state`, with the default address in its line.
    pub fn new(state: &State) -> (page: ConnectPage)
        ensures
            page@ == Self::new_view(state@),
            page.wf(),
    {
        let mut input_box = InputBox::new();
        input_box.set_text(DEFAULT_SERVER_ADDR);
        ConnectPage { props: Props::from(state), input_box }
    }

    /// The error to show, if any.
    pub fn error_message(&self) -> (message: &Option<String>)
        ensures
            match message {
                Some(err) => self@.error_message == Some(err@),
                None => self@.error_message is None,
            },
    {
        &self.props.error_message
    }

    /// The line in which the address is typed.
    pub fn input_box(&self) -> (input_box: &InputBox)
        ensures
            input_box@ == self@.input_box,
    {
        &self.input_box
    }

    fn connect_to_server(&mut self) -> (action: Action)
        ensures
            final(self)@ == old(self)@,
            action@ == old(self)@.connect_request(),
    {
        if self.input_box.is_empty() {
            return Action::Noop;
        }
        Action::ConnectToServerRequest { addr: self.input_box.text() }
    }
}

impl Component for ConnectPage {
    open spec fn wf(&self) -> bool {
        self@.input_box.wf()
    }

    /// Takes the error to show from `state`; the line stays as it is.
    fn update_from_state(&mut self, state: &State)
        ensures
            final(self)@ == (ConnectPageView {
                error_message: error_of(state@.server_connection_status),
                ..old(self)@
            }),
    {
        self.props = Props::from(state);
    }

    fn name(&self) -> (name: &str)
        ensures
            name@ == "Connect Page"@,
    {
        "Connect Page"
    }

    /// Hands the event to the line, then looks at it for itself.
    fn handle_key_event(&mut self, key: KeyEvent) -> (action: Action)
        ensures
            final(self)@ == old(self)@.after_key(key),
            action@ == old(self)@.action_of_key(key),
    {
        let _ = self.input_box.handle_key_event(key);
        if key.kind != KeyEventKind::Press {
            return Action::Noop;
        }
        match key.code {
            KeyCode::Enter => self.connect_to_server(),
            KeyCode::Char(c) => {
                if c == 'q' {
                    Action::Exit
                } else if c == 'c' && key.control {
                    Action::Exit
                } else {
                    Action::Noop
                }
            },
            _ => Action::Noop,
        }
    }
}

} // verus!
