use vstd::prelude::*;
use vstd::string::StrSliceExecFns;

use crate::event::{Event, Key};
use crate::text::{chars_of, string_of};

verus! {

/// The text and cursor of an input widget, as mathematical values.
pub struct InputView {
    pub buffer: Seq<char>,
    pub cursor: int,
}

impl InputView {
    /// The cursor lies within the text, or just after its last character.
    pub open spec fn wf(self) -> bool {
        0 <= self.cursor <= self.buffer.len()
    }

    /// `p` limited to the length of the text.
    pub open spec fn clamp(self, p: int) -> int {
        if p <= self.buffer.len() {
            p
        } else {
            self.buffer.len() as int
        }
    }

    pub open spec fn move_left(self) -> InputView {
        InputView {
            cursor: self.clamp(if self.cursor > 0 { self.cursor - 1 } else { 0 }),
            ..self
        }
    }

    pub open spec fn move_right(self) -> InputView {
        InputView { cursor: self.clamp(self.cursor + 1), ..self }
    }

    /// `c` inserted at the cursor, which then stands after it.
    pub open spec fn insert(self, c: char) -> InputView {
        InputView { buffer: self.buffer.insert(self.cursor, c), cursor: self.cursor + 1 }
    }

    /// The character before the cursor removed, the cursor moved onto its place.
    /// Nothing changes at the start of the text; a cursor past the end only moves left.
    pub open spec fn delete_backward(self) -> InputView {
        if self.cursor == 0 {
            self
        } else if self.cursor <= self.buffer.len() {
            InputView { buffer: self.buffer.remove(self.cursor - 1), cursor: self.cursor - 1 }
        } else {
            self.move_left()
        }
    }

    /// What a key does to the widget.
    pub open spec fn on_key(self, key: Key) -> InputView {
        match key {
            Key::Left => self.move_left(),
            Key::Right => self.move_right(),
            Key::Backspace => self.delete_backward(),
            Key::Char(c) => self.insert(c),
            _ => self,
        }
    }

    /// The widget after each key of `keys`, in order.
    pub open spec fn on_keys(self, keys: Seq<Key>) -> InputView
        decreases keys.len(),
    {
        if keys.len() == 0 {
            self
        } else {
            self.on_key(keys[0]).on_keys(keys.drop_first())
        }
    }
}

/// Whatever keys are typed, the cursor never leaves the text.
pub proof fn lemma_cursor_stays_in_text(v: InputView, keys: Seq<Key>)
    requires
        v.wf(),
    ensures
        v.on_keys(keys).wf(),
    decreases keys.len(),
{
    if keys.len() > 0 {
        lemma_cursor_stays_in_text(v.on_key(keys[0]), keys.drop_first());
    }
}

/// A single-line text field with a cursor, counted in characters.
pub struct Input {
    pub input: String,
    pub cursor_position: usize,
}

impl View for Input {
    type V = InputView;

    open spec fn view(&self) -> InputView {
        InputView { buffer: self.input@, cursor: self.cursor_position as int }
    }
}

impl Input {
    /// An empty field.
    pub fn new() -> (r: Self)
        ensures
            r@ == (InputView { buffer: Seq::empty(), cursor: 0 }),
    {
        Input { input: String::new(), cursor_position: 0 }
    }

    /// Moves the cursor one character left, stopping at the start.
    pub fn move_cursor_left(&mut self)
        ensures
            final(self)@ == old(self)@.move_left(),
            final(self)@.wf(),
    {
        let cursor_moved_left = self.cursor_position.saturating_sub(1);
        self.cursor_position = self.clamp_cursor(cursor_moved_left);
    }

    /// Moves the cursor one character right, stopping at the end.
    pub fn move_cursor_right(&mut self)
        ensures
            final(self)@ == old(self)@.move_right(),
            final(self)@.wf(),
    {
        let cursor_moved_right = self.cursor_position.saturating_add(1);
        self.cursor_position = self.clamp_cursor(cursor_moved_right);
    }

    /// Inserts `new_char` at the cursor and moves the cursor past it.
    pub fn enter_char(&mut self, new_char: char)
        requires
            old(self)@.wf(),
        ensures
            final(self)@ == old(self)@.insert(new_char),
            final(self)@.wf(),
    {
        let mut chars = chars_of(self.input.as_str());
        chars.insert(self.cursor_position, new_char);
        self.input = string_of(&chars);
        self.move_cursor_right();
    }

    /// Removes the character before the cursor and moves the cursor onto
    /// its place; at the start of the text nothing changes.
    pub fn delete_char(&mut self)
        ensures
            final(self)@ == old(self)@.delete_backward(),
            old(self)@.wf() ==> final(self)@.wf(),
            old(self).cursor_position == 0 ==> final(self)@ == old(self)@,
            old(self)@.wf() && old(self)@.buffer.len() == 0 ==> final(self)@ == old(self)@,
    {
        let is_not_cursor_leftmost = self.cursor_position != 0;
        if is_not_cursor_leftmost {
            let mut chars = chars_of(self.input.as_str());
            if self.cursor_position <= chars.len() {
                chars.remove(self.cursor_position - 1);
                self.input = string_of(&chars);
            }
            self.move_cursor_left();
        }
    }

    /// `new_cursor_pos` limited to the length of the text.
    pub fn clamp_cursor(&self, new_cursor_pos: usize) -> (r: usize)
        ensures
            r == self@.clamp(new_cursor_pos as int),
            self@.buffer.len() <= usize::MAX,
    {
        let len = self.input.as_str().unicode_len();
        if new_cursor_pos <= len {
            new_cursor_pos
        } else {
            len
        }
    }

    /// Puts the cursor at the start of the text.
    pub fn reset_cursor(&mut self)
        ensures
            final(self)@ == (InputView { cursor: 0, ..old(self)@ }),
            final(self)@.wf(),
    {
        self.cursor_position = 0;
    }

    /// Empties the field.
    pub fn reset(&mut self)
        ensures
            final(self)@ == (InputView { buffer: Seq::empty(), cursor: 0 }),
    {
        self.input = String::new();
        self.cursor_position = 0;
    }

    /// The text as it stands.
    pub fn value(&self) -> (r: &str)
        ensures
            r@ == self@.buffer,
    {
        self.input.as_str()
    }

    /// Applies a key event: arrows move, backspace deletes, a character is
    /// inserted; every other event leaves the field as it is.
    pub fn handle_event(&mut self, event: &Event)
        requires
            old(self)@.wf(),
        ensures
            final(self)@ == match *event {
                Event::Key(key) => old(self)@.on_key(key),
                _ => old(self)@,
            },
            final(self)@.wf(),
    {
        if let Event::Key(key) = event {
            match key {
                Key::Left => self.move_cursor_left(),
                Key::Right => self.move_cursor_right(),
                Key::Backspace => self.delete_char(),
                Key::Char(c) => self.enter_char(*c),
                _ => {},
            }
        }
    }
}

} // verus!
