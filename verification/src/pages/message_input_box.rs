//! The box of the chat page in which a message is typed.

use vstd::prelude::*;
use vstd::string::StringExecFns;
use crate::action::{Action, ActionView};
use crate::component::Component;
use crate::input_box::{InputBox, InputBoxView};
use crate::key::{KeyCode, KeyEvent, KeyEventKind};
use crate::state::State;

verus! {

/// One line of help: the keys and what they do.
#[derive(Debug, PartialEq, Eq)]
pub struct UsageInfoLine {
    pub keys: Vec<String>,
    pub description: String,
}

/// A `UsageInfoLine` with its strings as sequences of characters.
pub struct UsageInfoLineView {
    pub keys: Seq<Seq<char>>,
    pub description: Seq<char>,
}

impl View for UsageInfoLine {
    type V = UsageInfoLineView;

    open spec fn view(&self) -> UsageInfoLineView {
        UsageInfoLineView {
            keys: self.keys@.map_values(|k: String| k@),
            description: self.description@,
        }
    }
}

impl Clone for UsageInfoLine {
    fn clone(&self) -> (copy: UsageInfoLine)
        ensures
            copy@ == self@,
    {
        let copy = UsageInfoLine { keys: self.keys.clone(), description: self.description.clone() };
        assert(copy@.keys =~= self@.keys);
        copy
    }
}

/// The help that a part of the chat page offers.
#[derive(Debug, PartialEq, Eq)]
pub struct UsageInfo {
    pub description: Option<String>,
    pub lines: Vec<UsageInfoLine>,
}

/// A `UsageInfo` with its strings as sequences of characters.
pub struct UsageInfoView {
    pub description: Option<Seq<char>>,
    pub lines: Seq<UsageInfoLineView>,
}

impl View for UsageInfo {
    type V = UsageInfoView;

    open spec fn view(&self) -> UsageInfoView {
        UsageInfoView {
            description: match self.description {
                Some(text) => Some(text@),
                None => None,
            },
            lines: self.lines@.map_values(|l: UsageInfoLine| l@),
        }
    }
}

impl Clone for UsageInfo {
    fn clone(&self) -> (copy: UsageInfo)
        ensures
            copy@ == self@,
    {
        let copy = UsageInfo {
            description: match &self.description {
                Some(text) => Some(text.clone()),
                None => None,
            },
            lines: self.lines.clone(),
        };
        assert(copy@.lines =~= self@.lines);
        copy
    }
}

/// The line of help for one key.
pub open spec fn usage_line(key: Seq<char>, description: Seq<char>) -> UsageInfoLineView {
    UsageInfoLineView { keys: seq![key], description }
}

/// The help of the message box. Without a room nothing can be sent, and the
/// help says so; with one it names the key that sends.
pub open spec fn message_input_usage(has_room: bool) -> UsageInfoView {
    if has_room {
        UsageInfoView {
            description: Some("Type your message to send a message to the active room"@),
            lines: seq![
                usage_line("Esc"@, "to cancel"@),
                usage_line("Enter"@, "to send your message"@),
            ],
        }
    } else {
        UsageInfoView {
            description: Some("You can not send a message until you enter a room."@),
            lines: seq![usage_line("Esc"@, "to cancel"@)],
        }
    }
}

fn make_usage_line(key: &str, description: &str) -> (line: UsageInfoLine)
    ensures
        line@ == usage_line(key@, description@),
{
    let mut keys: Vec<String> = Vec::new();
    keys.push(String::from_str(key));
    let line = UsageInfoLine { keys, description: String::from_str(description) };
    assert(line@.keys =~= seq![key@]);
    line
}

/// What the box takes from the state.
struct Props {
    /// Active room that the user is chatting in
    active_room: Option<String>,
}

impl Props {
    fn from(state: &State) -> (props: Props)
        ensures
            match props.active_room {
                Some(room) => state@.active_room == Some(room@),
                None => state@.active_room is None,
            },
    {
        Props {
            active_room: match state.active_room() {
                Some(room) => Some(room.clone()),
                None => None,
            },
        }
    }
}

/// The box as contracts see it.
pub struct MessageInputBoxView {
    /// The room that a message would go to, if one is selected.
    pub active_room: Option<Seq<char>>,
    /// The line in which the message is typed.
    pub input_box: InputBoxView,
}

impl MessageInputBoxView {
    /// What submitting the line asks of the application: to send its text,
    /// or nothing where the line is empty.
    pub open spec fn submit_action(self) -> ActionView {
        if self.input_box.text.len() == 0 {
            ActionView::Noop
        } else {
            ActionView::SendMessage { content: self.input_box.text }
        }
    }

    /// The box after its line was submitted: the line is empty.
    pub open spec fn after_submit(self) -> MessageInputBoxView {
        MessageInputBoxView { input_box: InputBoxView::empty(), ..self }
    }

    /// Whether the box listens to `key`: to presses, while a room is
    /// selected.
    pub open spec fn listens_to(self, key: KeyEvent) -> bool {
        key.kind == KeyEventKind::Press && self.active_room is Some
    }

    /// The box after a key event. An event that the box listens to goes to
    /// the line, and enter then submits the line.
    pub open spec fn after_key(self, key: KeyEvent) -> MessageInputBoxView {
        if !self.listens_to(key) {
            self
        } else if key.code == KeyCode::Enter {
            self.after_submit()
        } else {
            MessageInputBoxView { input_box: self.input_box.on_key(key), ..self }
        }
    }

    /// What a key event asks of the application: enter, where the box
    /// listens, submits the line; nothing else asks anything.
    pub open spec fn action_of_key(self, key: KeyEvent) -> ActionView {
        if self.listens_to(key) && key.code == KeyCode::Enter {
            self.submit_action()
        } else {
            ActionView::Noop
        }
    }
}

pub struct MessageInputBox {
    /// State Mapped MessageInputBox Props
    props: Props,
    // Internal State for the Component
    pub input_box: InputBox,
}

impl View for MessageInputBox {
    type V = MessageInputBoxView;

    closed spec fn view(&self) -> MessageInputBoxView {
        MessageInputBoxView {
            active_room: match self.props.active_room {
                Some(room) => Some(room@),
                None => None,
            },
            input_box: self.input_box@,
        }
    }
}

impl MessageInputBox {
    /// The box as it is made for a state: the selected room of the state,
    /// and an empty line.
    pub open spec fn new_view(state: crate::state::StateView) -> MessageInputBoxView {
        MessageInputBoxView { active_room: state.active_room, input_box: InputBoxView::empty() }
    }

    /// The box for `state`, with an empty line.
    pub fn new(state: &State) -> (message_box: MessageInputBox)
        ensures
            message_box@ == Self::new_view(state@),
            message_box.wf(),
    {
        Self { props: Props::from(state), input_box: InputBox::new() }
    }

    /// The room that a message would go to, if one is selected.
    pub fn active_room(&self) -> (room: &Option<String>)
        ensures
            match room {
                Some(name) => self@.active_room == Some(name@),
                None => self@.active_room is None,
            },
    {
        &self.props.active_room
    }

    fn submit_message(&mut self) -> (action: Action)
        requires
            old(self).wf(),
        ensures
            final(self)@ == old(self)@.after_submit(),
            action@ == old(self)@.submit_action(),
            final(self).wf(),
    {
        let mut ret = Action::Noop;
        if !self.input_box.is_empty() {
            ret = Action::SendMessage { content: self.input_box.text() };
            self.input_box.reset();
        } else {
            assert(self@.input_box.text =~= Seq::empty());
        }
        ret
    }

    /// The box becomes the active part of the page. Nothing changes.
    pub fn activate(&mut self)
        ensures
            final(self)@ == old(self)@,
    {
    }

    /// The box stops being the active part of the page: its line is emptied.
    pub fn deactivate(&mut self)
        ensures
            final(self)@ == (MessageInputBoxView {
                input_box: InputBoxView::empty(),
                ..old(self)@
            }),
            final(self).wf(),
    {
        self.input_box.reset();
    }

    /// The help for the box.
    pub fn usage_info(&self) -> (info: UsageInfo)
        ensures
            info@ == message_input_usage(self@.active_room is Some),
    {
        if self.props.active_room.is_none() {
            let mut lines: Vec<UsageInfoLine> = Vec::new();
            lines.push(make_usage_line("Esc", "to cancel"));
            let info = UsageInfo {
                description: Some(
                    String::from_str("You can not send a message until you enter a room."),
                ),
                lines,
            };
            assert(info@.lines =~= message_input_usage(false).lines);
            info
        } else {
            let mut lines: Vec<UsageInfoLine> = Vec::new();
            lines.push(make_usage_line("Esc", "to cancel"));
            lines.push(make_usage_line("Enter", "to send your message"));
            let info = UsageInfo {
                description: Some(
                    String::from_str("Type your message to send a message to the active room"),
                ),
                lines,
            };
            assert(info@.lines =~= message_input_usage(true).lines);
            info
        }
    }
}

impl Component for MessageInputBox {
    open spec fn wf(&self) -> bool {
        self@.input_box.wf()
    }

    /// Takes the selected room from `state`; the line stays as it is.
    fn update_from_state(&mut self, state: &State)
        ensures
            final(self)@ == (MessageInputBoxView {
                active_room: state@.active_room,
                ..old(self)@
            }),
    {
        self.props = Props::from(state);
    }

    fn name(&self) -> (name: &str)
        ensures
            name@ == "Message Input"@,
    {
        "Message Input"
    }

    fn handle_key_event(&mut self, key: KeyEvent) -> (action: Action)
        ensures
            final(self)@ == old(self)@.after_key(key),
            action@ == old(self)@.action_of_key(key),
    {
        if key.kind == KeyEventKind::Press && self.props.active_room.is_some() {
            let _ = self.input_box.handle_key_event(key);
            if key.code == KeyCode::Enter {
                return self.submit_message();
            }
        }
        Action::Noop
    }
}

} // verus!
