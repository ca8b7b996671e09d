use vstd::prelude::*;
use crate::components::filter::{filter_after_key, pop_char, push_char};
use crate::input::Key;

verus! {

/// A line where the user types the name of a process to search for.
pub struct SearchBar {
    process_name: String,
}

impl SearchBar {
    /// The text typed so far.
    pub closed spec fn text(&self) -> Seq<char> {
        self.process_name@
    }

    /// An empty line.
    pub fn new() -> (r: Self)
        ensures
            r.text() == Seq::<char>::empty(),
    {
        Self { process_name: String::new() }
    }

    /// Clears the text.
    pub fn reset(&mut self)
        ensures
            final(self).text() == Seq::<char>::empty(),
    {
        self.process_name = String::new();
    }

    /// A copy of the text.
    pub fn get_process_name(&mut self) -> (r: String)
        ensures
            r@ == old(self).text(),
            final(self).text() == old(self).text(),
    {
        self.process_name.clone()
    }

    pub fn is_empty(&mut self) -> (r: bool)
        ensures
            r == (old(self).text().len() == 0),
            final(self).text() == old(self).text(),
    {
        self.process_name.as_str().unicode_len() == 0
    }

    /// A character key is appended to the text and backspace removes its last character;
    /// the result says whether the key was used.
    pub fn event(&mut self, key: Key) -> (r: bool)
        ensures
            final(self).text() == filter_after_key(old(self).text(), key),
            r == (key is Char || key is Backspace),
    {
        match key {
            Key::Char(c) => {
                push_char(&mut self.process_name, c);
                true
            },
            Key::Backspace => {
                let _ = pop_char(&mut self.process_name);
                true
            },
            _ => false,
        }
    }
}

} // verus!
