//! What a page asks of the rest of the application.

use vstd::prelude::*;

verus! {

/// The intent that a key press resolved to.
///
/// `Noop` stands for "nothing to do". It is a variant of this enum, where an
/// `Option` around the enum would also do, so that the type can be
/// `must_use`: an action that a function returns is not to be dropped by
/// accident.
#[must_use]
#[derive(Debug, PartialEq)]
pub enum Action {
    Noop,
    ConnectToServerRequest { addr: String },
    SendMessage { content: String },
    SelectRoom { room: String },
    Exit,
}

/// An `Action` with its strings as sequences of characters.
pub enum ActionView {
    Noop,
    ConnectToServerRequest { addr: Seq<char> },
    SendMessage { content: Seq<char> },
    SelectRoom { room: Seq<char> },
    Exit,
}

impl View for Action {
    type V = ActionView;

    open spec fn view(&self) -> ActionView {
        match self {
            Action::Noop => ActionView::Noop,
            Action::ConnectToServerRequest { addr } => ActionView::ConnectToServerRequest {
                addr: addr@,
            },
            Action::SendMessage { content } => ActionView::SendMessage { content: content@ },
            Action::SelectRoom { room } => ActionView::SelectRoom { room: room@ },
            Action::Exit => ActionView::Exit,
        }
    }
}

impl Clone for Action {
    fn clone(&self) -> (copy: Action)
        ensures
            copy@ == self@,
    {
        match self {
            Action::Noop => Action::Noop,
            Action::ConnectToServerRequest { addr } => Action::ConnectToServerRequest {
                addr: addr.clone(),
            },
            Action::SendMessage { content } => Action::SendMessage { content: content.clone() },
            Action::SelectRoom { room } => Action::SelectRoom { room: room.clone() },
            Action::Exit => Action::Exit,
        }
    }
}

} // verus!
