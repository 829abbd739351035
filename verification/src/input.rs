//! A single-line text input: the characters typed so far and a cursor.

use vstd::prelude::*;

verus! {

/// A key press, as far as the input box tells keys apart.
#[derive(Clone, Copy, Debug, PartialEq, Eq, Structural)]
pub enum Key {
    Backspace,
    Delete,
    Left,
    Right,
    Char(char),
    Other,
}

/// The widget that shows an [`InputBoxState`].
pub struct InputBox;

/// The text of an input box and the position of its cursor. A well-formed
/// state has its cursor inside the text or at its end.
#[derive(Debug)]
pub struct InputBoxState {
    text: Vec<char>,
    cursor: usize,
}

/// Collects characters into a `String` with `Iterator::collect`: the string
/// holds the same characters in the same order.
#[verifier::external_body]
fn collect_chars(chars: &Vec<char>) -> (s: String)
    ensures
        s@ == chars@,
{
    chars.iter().collect::<String>()
}

/// What a key press makes of a text and a cursor in it.
pub open spec fn key_effect(text: Seq<char>, cursor: nat, key: Key) -> (Seq<char>, nat) {
    match key {
        Key::Backspace => if cursor > 0 {
            (text.remove(cursor - 1), (cursor - 1) as nat)
        } else {
            (text, cursor)
        },
        Key::Delete => if cursor < text.len() {
            (text.remove(cursor as int), cursor)
        } else {
            (text, cursor)
        },
        Key::Left => if cursor > 0 {
            (text, (cursor - 1) as nat)
        } else {
            (text, cursor)
        },
        Key::Right => if cursor < text.len() {
            (text, cursor + 1)
        } else {
            (text, cursor)
        },
        Key::Char(c) => (text.insert(cursor as int, c), cursor + 1),
        Key::Other => (text, cursor),
    }
}

impl InputBoxState {
    /// The cursor does not lie behind the end of the text.
    pub closed spec fn wf(self) -> bool {
        self.cursor <= self.text.len()
    }

    /// The characters typed so far.
    pub closed spec fn spec_text(self) -> Seq<char> {
        self.text@
    }

    /// The index at which the next character is inserted.
    pub closed spec fn spec_cursor(self) -> nat {
        self.cursor as nat
    }

    /// An empty input box.
    pub fn new() -> (state: Self)
        ensures
            state.wf(),
            state.spec_text() == Seq::<char>::empty(),
            state.spec_cursor() == 0,
    {
        InputBoxState { text: Vec::new(), cursor: 0 }
    }

    /// The position of the cursor, which never lies behind the end of the
    /// text.
    pub fn cursor(&self) -> (at: usize)
        requires
            self.wf(),
        ensures
            at == self.spec_cursor(),
            at <= self.spec_text().len(),
    {
        self.cursor
    }

    /// Applies one key press. A text that already holds `usize::MAX`
    /// characters takes no further one.
    pub fn process_event(&mut self, code: Key)
        requires
            old(self).wf(),
        ensures
            final(self).wf(),
            old(self).spec_text().len() < usize::MAX || !(code is Char) ==> (
                final(self).spec_text(),
                final(self).spec_cursor(),
            ) == key_effect(old(self).spec_text(), old(self).spec_cursor(), code),
            old(self).spec_text().len() >= usize::MAX && code is Char ==> final(self).spec_text()
                == old(self).spec_text() && final(self).spec_cursor() == old(self).spec_cursor(),
    {
        match code {
            Key::Backspace => {
                if self.cursor > 0 {
                    let at: usize = self.cursor - 1;
                    self.text.remove(at);
                    self.cursor = at;
                }
            },
            Key::Delete => {
                if self.cursor < self.text.len() {
                    self.text.remove(self.cursor);
                }
            },
            Key::Left => {
                if self.cursor > 0 {
                    self.cursor = self.cursor - 1;
                }
            },
            Key::Right => {
                if self.cursor < self.text.len() {
                    self.cursor = self.cursor + 1;
                }
            },
            Key::Char(c) => {
                if self.text.len() < usize::MAX {
                    self.text.insert(self.cursor, c);
                    self.cursor = self.cursor + 1;
                }
            },
            Key::Other => {},
        }
    }

    /// Empties the text and puts the cursor at its start.
    pub fn clear(&mut self)
        ensures
            final(self).wf(),
            final(self).spec_text() == Seq::<char>::empty(),
            final(self).spec_cursor() == 0,
    {
        self.text.clear();
        self.cursor = 0;
    }

    /// The text as a string.
    pub fn text(&self) -> (s: String)
        ensures
            s@ == self.spec_text(),
    {
        collect_chars(&self.text)
    }
}

impl Default for InputBoxState {
    fn default() -> (state: Self)
        ensures
            state.wf(),
            state.spec_text() == Seq::<char>::empty(),
            state.spec_cursor() == 0,
    {
        InputBoxState::new()
    }
}

} // verus!
