//! The pages of the user interface and the router that picks one of them.

use vstd::prelude::*;
use crate::action::{Action, ActionView};
use crate::component::Component;
use crate::key::KeyEvent;
use crate::state::{ServerConnectionStatus, ServerConnectionStatusView, State, StateView};
use self::chat_page::{ChatPage, ChatPageView};
use self::connect_page::{ConnectPage, ConnectPageView, error_of};
use self::message_input_box::{MessageInputBox, MessageInputBoxView};

pub mod chat_page;
pub mod connect_page;
pub mod message_input_box;

verus! {

/// The page that is shown.
#[derive(Clone, Copy, Debug, PartialEq, Eq, Structural)]
pub enum ActivePage {
    ChatPage,
    ConnectPage,
}

/// The page for a status of the connection: the chat page once connected,
/// the connect page in every other case.
pub open spec fn active_page_of(status: ServerConnectionStatusView) -> ActivePage {
    match status {
        ServerConnectionStatusView::Connected { .. } => ActivePage::ChatPage,
        _ => ActivePage::ConnectPage,
    }
}

/// What the router takes from the state.
struct Props {
    active_page: ActivePage,
}

impl Props {
    fn from(state: &State) -> (props: Props)
        ensures
            props.active_page == active_page_of(state@.server_connection_status),
    {
        Props {
            active_page: match state.server_connection_status() {
                ServerConnectionStatus::Connected { .. } => ActivePage::ChatPage,
                _ => ActivePage::ConnectPage,
            },
        }
    }
}

/// The router as contracts see it.
pub struct AppRouterView {
    pub active_page: ActivePage,
    pub chat_page: ChatPageView,
    pub connect_page: ConnectPageView,
}

impl AppRouterView {
    /// The router as it is made for a state, and as it is again whenever
    /// the pages are made anew.
    pub open spec fn for_state(state: StateView) -> AppRouterView {
        AppRouterView {
            active_page: active_page_of(state.server_connection_status),
            chat_page: ChatPageView { message_input_box: MessageInputBox::new_view(state) },
            connect_page: ConnectPage::new_view(state),
        }
    }

    /// The router after it was brought up to date with `state`: the page
    /// shown, the room of the message box and the error of the connect page
    /// are those of the state; what was typed stays.
    pub open spec fn updated(self, state: StateView) -> AppRouterView {
        AppRouterView {
            active_page: active_page_of(state.server_connection_status),
            chat_page: ChatPageView {
                message_input_box: MessageInputBoxView {
                    active_room: state.active_room,
                    ..self.chat_page.message_input_box
                },
            },
            connect_page: ConnectPageView {
                error_message: error_of(state.server_connection_status),
                ..self.connect_page
            },
        }
    }

    /// The router after a key event: the event goes to the page shown, and
    /// the other page stays as it is.
    pub open spec fn after_key(self, key: KeyEvent) -> AppRouterView {
        match self.active_page {
            ActivePage::ChatPage => AppRouterView {
                chat_page: ChatPageView {
                    message_input_box: self.chat_page.message_input_box.after_key(key),
                },
                ..self
            },
            ActivePage::ConnectPage => AppRouterView {
                connect_page: self.connect_page.after_key(key),
                ..self
            },
        }
    }

    /// What a key event asks of the application: what the page shown makes
    /// of it.
    pub open spec fn action_of_key(self, key: KeyEvent) -> ActionView {
        match self.active_page {
            ActivePage::ChatPage => self.chat_page.message_input_box.action_of_key(key),
            ActivePage::ConnectPage => self.connect_page.action_of_key(key),
        }
    }

    /// The name of the page shown.
    pub open spec fn name(self) -> Seq<char> {
        match self.active_page {
            ActivePage::ChatPage => "Chat Page"@,
            ActivePage::ConnectPage => "Connect Page"@,
        }
    }
}

/// AppRouter holds both pages and hands everything to the one that the
/// status of the connection selects. It changes nothing of the state.
pub struct AppRouter {
    props: Props,
    chat_page: ChatPage,
    connect_page: ConnectPage,
}

impl View for AppRouter {
    type V = AppRouterView;

    closed spec fn view(&self) -> AppRouterView {
        AppRouterView {
            active_page: self.props.active_page,
            chat_page: self.chat_page@,
            connect_page: self.connect_page@,
        }
    }
}

impl AppRouter {
    /// The router for `state`, with both pages new.
    pub fn new(state: &State) -> (router: AppRouter)
        ensures
            router@ == AppRouterView::for_state(state@),
            router.wf(),
    {
        AppRouter {
            props: Props::from(state),
            chat_page: ChatPage::new(state),
            connect_page: ConnectPage::new(state),
        }
    }

    /// The page that is shown.
    pub fn active_page(&self) -> (page: ActivePage)
        ensures
            page == self@.active_page,
    {
        self.props.active_page
    }

    /// The chat page, shown or not.
    pub fn chat_page(&self) -> (page: &ChatPage)
        ensures
            page@ == self@.chat_page,
    {
        &self.chat_page
    }

    /// The connect page, shown or not.
    pub fn connect_page(&self) -> (page: &ConnectPage)
        ensures
            page@ == self@.connect_page,
    {
        &self.connect_page
    }
}

impl Component for AppRouter {
    open spec fn wf(&self) -> bool {
        self@.chat_page.message_input_box.input_box.wf() && self@.connect_page.input_box.wf()
    }

    fn update_from_state(&mut self, state: &State)
        ensures
            final(self)@ == old(self)@.updated(state@),
    {
        self.props = Props::from(state);
        self.chat_page.update_from_state(state);
        self.connect_page.update_from_state(state);
    }

    /// The name of the page shown.
    fn name(&self) -> (name: &str)
        ensures
            name@ == self@.name(),
    {
        match self.props.active_page {
            ActivePage::ChatPage => self.chat_page.name(),
            ActivePage::ConnectPage => self.connect_page.name(),
        }
    }

    /// Hands the event to the page shown.
    fn handle_key_event(&mut self, key: KeyEvent) -> (action: Action)
        ensures
            final(self)@ == old(self)@.after_key(key),
            action@ == old(self)@.action_of_key(key),
    {
        match self.props.active_page {
            ActivePage::ChatPage => self.chat_page.handle_key_event(key),
            ActivePage::ConnectPage => self.connect_page.handle_key_event(key),
        }
    }
}

} // verus!
