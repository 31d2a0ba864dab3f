//! The buffer in which a line of text is composed.

use vstd::prelude::*;
use crate::action::{Action, ActionView};
use crate::key::{KeyCode, KeyEvent, KeyEventKind};
use crate::text::{chars_of, string_from_chars};

verus! {

/// A buffer as contracts see it: its characters and the cursor, counted in
/// characters from the start.
pub struct InputBoxView {
    pub text: Seq<char>,
    pub cursor: nat,
}

/// One edit of a buffer.
pub enum Edit {
    /// Insert a character at the cursor.
    Insert(char),
    /// Delete the character before the cursor.
    DeleteBefore,
    /// Move the cursor by so many characters, to the right if positive.
    Move(int),
    /// Replace the text.
    SetText(Seq<char>),
    /// Empty the buffer.
    Reset,
}

impl InputBoxView {
    /// The cursor lies within the text or just behind it.
    pub open spec fn wf(self) -> bool {
        self.cursor <= self.text.len()
    }

    /// The buffer without a character, with the cursor at 0.
    pub open spec fn empty() -> InputBoxView {
        InputBoxView { text: Seq::empty(), cursor: 0 }
    }

    /// The buffer holding `text`, with the cursor behind its last character.
    pub open spec fn with_text(text: Seq<char>) -> InputBoxView {
        InputBoxView { text, cursor: text.len() }
    }

    /// The buffer after its text was replaced by `text`: it holds `text`,
    /// and the cursor is behind its last character.
    pub open spec fn set_text(self, text: Seq<char>) -> InputBoxView {
        InputBoxView::with_text(text)
    }

    /// The buffer after it was reset: it is empty, and the cursor is at 0.
    pub open spec fn reset(self) -> InputBoxView {
        InputBoxView::empty()
    }

    /// `c` goes in at the cursor, and the cursor moves behind it.
    pub open spec fn insert(self, c: char) -> InputBoxView {
        InputBoxView { text: self.text.insert(self.cursor as int, c), cursor: self.cursor + 1 }
    }

    /// The character before the cursor leaves, and the cursor moves one to
    /// the left; at the start of the text nothing changes.
    pub open spec fn delete_before(self) -> InputBoxView {
        if self.cursor == 0 {
            self
        } else {
            InputBoxView {
                text: self.text.remove(self.cursor - 1),
                cursor: (self.cursor - 1) as nat,
            }
        }
    }

    /// `position` brought into the range from 0 to the length of the text.
    pub open spec fn clamp(self, position: int) -> nat {
        if position < 0 {
            0
        } else if position > self.text.len() {
            self.text.len()
        } else {
            position as nat
        }
    }

    /// The cursor moves by `delta` characters, as far as the text reaches.
    pub open spec fn move_by(self, delta: int) -> InputBoxView {
        InputBoxView { text: self.text, cursor: self.clamp(self.cursor + delta) }
    }

    /// The buffer after one edit.
    pub open spec fn apply(self, edit: Edit) -> InputBoxView {
        match edit {
            Edit::Insert(c) => self.insert(c),
            Edit::DeleteBefore => self.delete_before(),
            Edit::Move(delta) => self.move_by(delta),
            Edit::SetText(text) => self.set_text(text),
            Edit::Reset => self.reset(),
        }
    }

    /// The buffer after the edits of `edits`, first to last.
    pub open spec fn apply_all(self, edits: Seq<Edit>) -> InputBoxView
        decreases edits.len(),
    {
        if edits.len() == 0 {
            self
        } else {
            self.apply_all(edits.drop_last()).apply(edits.last())
        }
    }

    /// What a key event does to the buffer: a press of a character inserts
    /// it, backspace deletes, the arrows move the cursor by one, and nothing
    /// else changes anything.
    pub open spec fn on_key(self, key: KeyEvent) -> InputBoxView {
        if key.kind != KeyEventKind::Press {
            self
        } else {
            match key.code {
                KeyCode::Char(c) => self.insert(c),
                KeyCode::Backspace => self.delete_before(),
                KeyCode::Left => self.move_by(-1),
                KeyCode::Right => self.move_by(1),
                _ => self,
            }
        }
    }
}

/// A line of text under composition and the position of its cursor.
///
/// The text is kept as characters, so that the cursor and every edit count
/// in characters whatever their encoded width.
pub struct InputBox {
    text: Vec<char>,
    cursor_position: usize,
}

impl View for InputBox {
    type V = InputBoxView;

    closed spec fn view(&self) -> InputBoxView {
        InputBoxView { text: self.text@, cursor: self.cursor_position as nat }
    }
}

impl InputBox {
    /// The invariant of the buffer: the cursor is at most the length of the
    /// text.
    pub open spec fn wf(&self) -> bool {
        self@.wf()
    }

    /// An empty buffer.
    pub fn new() -> (b: InputBox)
        ensures
            b@ == InputBoxView::empty(),
            b.wf(),
    {
        InputBox { text: Vec::new(), cursor_position: 0 }
    }

    /// The text of the buffer.
    pub fn text(&self) -> (s: String)
        ensures
            s@ == self@.text,
    {
        string_from_chars(&self.text)
    }

    /// The cursor, in characters from the start of the text.
    pub fn cursor_position(&self) -> (c: usize)
        ensures
            c == self@.cursor,
    {
        self.cursor_position
    }

    /// Replaces the text by `new_text` and puts the cursor behind its last
    /// character.
    pub fn set_text(&mut self, new_text: &str)
        ensures
            final(self)@ == old(self)@.set_text(new_text@),
            final(self).wf(),
    {
        self.text = chars_of(new_text);
        self.cursor_position = self.text.len();
    }

    /// Empties the buffer and puts the cursor at 0.
    pub fn reset(&mut self)
        ensures
            final(self)@ == old(self)@.reset(),
            final(self).wf(),
    {
        self.cursor_position = 0;
        self.text.clear();
    }

    /// Puts the cursor at 0 and leaves the text as it is.
    pub fn reset_cursor(&mut self)
        ensures
            final(self)@ == (InputBoxView { cursor: 0, ..old(self)@ }),
            final(self).wf(),
    {
        self.cursor_position = 0;
    }

    /// Whether the buffer holds no character.
    pub fn is_empty(&self) -> (e: bool)
        ensures
            e == (self@.text.len() == 0),
    {
        self.text.len() == 0
    }

    /// `new_cursor_pos` brought into the range from 0 to the length of the
    /// text.
    pub fn clamp_cursor(&self, new_cursor_pos: usize) -> (c: usize)
        ensures
            c == self@.clamp(new_cursor_pos as int),
    {
        if new_cursor_pos > self.text.len() {
            self.text.len()
        } else {
            new_cursor_pos
        }
    }

    /// Moves the cursor by `delta` characters, to the right if `delta` is
    /// positive, and stops at either end of the text.
    pub fn move_cursor(&mut self, delta: i64)
        requires
            old(self).wf(),
        ensures
            final(self)@ == old(self)@.move_by(delta as int),
            final(self).wf(),
    {
        let target: i128 = self.cursor_position as i128 + delta as i128;
        if target < 0 {
            self.cursor_position = 0;
        } else if target > self.text.len() as i128 {
            self.cursor_position = self.text.len();
        } else {
            self.cursor_position = target as usize;
        }
    }

    /// Moves the cursor one character to the left, unless it is at the start.
    pub fn move_cursor_left(&mut self)
        requires
            old(self).wf(),
        ensures
            final(self)@ == old(self)@.move_by(-1),
            final(self).wf(),
    {
        let cursor_moved_left = self.cursor_position.saturating_sub(1);
        self.cursor_position = self.clamp_cursor(cursor_moved_left);
    }

    /// Moves the cursor one character to the right, unless it is at the end.
    pub fn move_cursor_right(&mut self)
        requires
            old(self).wf(),
        ensures
            final(self)@ == old(self)@.move_by(1),
            final(self).wf(),
    {
        assert(self.text@.len() == self.text.len());
        let cursor_moved_right = self.cursor_position.saturating_add(1);
        self.cursor_position = self.clamp_cursor(cursor_moved_right);
    }

    /// Inserts `new_char` at the cursor and moves the cursor behind it.
    pub fn enter_char(&mut self, new_char: char)
        requires
            old(self).wf(),
        ensures
            final(self)@ == old(self)@.insert(new_char),
            final(self).wf(),
    {
        self.text.insert(self.cursor_position, new_char);
        self.move_cursor_right();
    }

    /// Deletes the character before the cursor and moves the cursor one to
    /// the left; does nothing when the cursor is at the start.
    pub fn delete_char(&mut self)
        requires
            old(self).wf(),
        ensures
            final(self)@ == old(self)@.delete_before(),
            final(self).wf(),
    {
        let is_not_cursor_leftmost = self.cursor_position != 0;
        if is_not_cursor_leftmost {
            let from_left_to_current_index = self.cursor_position - 1;
            self.text.remove(from_left_to_current_index);
            self.cursor_position = from_left_to_current_index;
        }
    }

    /// Applies a key event to the buffer. The buffer never asks anything of
    /// the application, so the action is always `Action::Noop`.
    pub fn handle_key_event(&mut self, key: KeyEvent) -> (action: Action)
        requires
            old(self).wf(),
        ensures
            final(self)@ == old(self)@.on_key(key),
            final(self).wf(),
            action@ == ActionView::Noop,
    {
        if key.kind != KeyEventKind::Press {
            return Action::Noop;
        }
        match key.code {
            KeyCode::Char(to_insert) => self.enter_char(to_insert),
            KeyCode::Backspace => self.delete_char(),
            KeyCode::Left => self.move_cursor_left(),
            KeyCode::Right => self.move_cursor_right(),
            _ => {},
        }
        Action::Noop
    }
}

/// Every edit keeps the cursor within the text: after each prefix of any
/// sequence of insertions, deletions, moves, replacements and resets,
/// applied to a buffer whose cursor is within its text, the cursor is at
/// most the length of the text.
pub proof fn lemma_edits_keep_cursor_in_text(start: InputBoxView, edits: Seq<Edit>)
    requires
        start.wf(),
    ensures
        forall|k: int| 0 <= k <= edits.len() ==> (#[trigger] start.apply_all(edits.take(k))).wf(),
{
    assert forall|k: int| 0 <= k <= edits.len() implies (#[trigger] start.apply_all(
        edits.take(k),
    )).wf() by {
        lemma_apply_all_wf(start, edits.take(k));
    }
}

/// The same of a buffer that starts empty: whatever is done to it, the
/// cursor stays within the text.
pub proof fn lemma_edits_of_empty_buffer(edits: Seq<Edit>)
    ensures
        InputBoxView::empty().wf(),
        forall|k: int|
            0 <= k <= edits.len() ==> (#[trigger] InputBoxView::empty().apply_all(
                edits.take(k),
            )).wf(),
{
    lemma_edits_keep_cursor_in_text(InputBoxView::empty(), edits);
}

/// A buffer whose cursor is within its text is so after any sequence of
/// edits.
pub proof fn lemma_apply_all_wf(start: InputBoxView, edits: Seq<Edit>)
    requires
        start.wf(),
    ensures
        start.apply_all(edits).wf(),
    decreases edits.len(),
{
    if edits.len() > 0 {
        lemma_apply_all_wf(start, edits.drop_last());
    }
}

/// Setting a text and reading it back gives that text, whatever the buffer
/// held before.
pub proof fn lemma_set_text_then_text(before: InputBoxView, text: Seq<char>)
    ensures
        before.set_text(text).text == text,
        before.set_text(text).wf(),
{
}

/// Resetting is idempotent: a reset buffer is empty with the cursor at 0,
/// and resetting an empty buffer, or any buffer a second time, changes
/// nothing.
pub proof fn lemma_reset_idempotent(before: InputBoxView)
    ensures
        before.reset().text.len() == 0,
        before.reset().cursor == 0,
        before.reset().reset() == before.reset(),
        InputBoxView::empty().reset() == InputBoxView::empty(),
{
}

} // verus!
