//! The page on which the user chats.

use vstd::prelude::*;
use crate::action::Action;
use crate::component::Component;
use crate::key::KeyEvent;
use crate::pages::message_input_box::{MessageInputBox, MessageInputBoxView};
use crate::state::State;

verus! {

/// The page as contracts see it.
pub struct ChatPageView {
    pub message_input_box: MessageInputBoxView,
}

/// ChatPage holds the box in which messages are typed.
pub struct ChatPage {
    message_input_box: MessageInputBox,
}

impl View for ChatPage {
    type V = ChatPageView;

    closed spec fn view(&self) -> ChatPageView {
        ChatPageView { message_input_box: self.message_input_box@ }
    }
}

impl ChatPage {
    /// The page for `state`, with an empty message box.
    pub fn new(state: &State) -> (page: ChatPage)
        ensures
            page@ == (ChatPageView { message_input_box: MessageInputBox::new_view(state@) }),
            page.wf(),
    {
        ChatPage { message_input_box: MessageInputBox::new(state) }
    }

    /// The box in which messages are typed.
    pub fn message_input_box(&self) -> (message_box: &MessageInputBox)
        ensures
            message_box@ == self@.message_input_box,
    {
        &self.message_input_box
    }
}

impl Component for ChatPage {
    open spec fn wf(&self) -> bool {
        self@.message_input_box.input_box.wf()
    }

    fn update_from_state(&mut self, state: &State)
        ensures
            final(self)@ == (ChatPageView {
                message_input_box: MessageInputBoxView {
                    active_room: state@.active_room,
                    ..old(self)@.message_input_box
                },
            }),
    {
        self.message_input_box.update_from_state(state);
    }

    fn name(&self) -> (name: &str)
        ensures
            name@ == "Chat Page"@,
    {
        "Chat Page"
    }

    /// Every key event goes to the message box.
    fn handle_key_event(&mut self, key: KeyEvent) -> (action: Action)
        ensures
            final(self)@ == (ChatPageView {
                message_input_box: old(self)@.message_input_box.after_key(key),
            }),
            action@ == old(self)@.message_input_box.action_of_key(key),
    {
        self.message_input_box.handle_key_event(key)
    }
}

} // verus!
