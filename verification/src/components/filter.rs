use vstd::prelude::*;
use crate::components::EventState;
use crate::config::Config;
use crate::input::{Key, Mouse};

verus! {

/// `String::push`, which appends the character `c` to the text.
#[verifier::external_body]
pub(crate) fn push_char(s: &mut String, c: char)
    ensures
        final(s)@ == old(s)@.push(c),
{
    s.push(c);
}

/// `String::pop`, which removes the last character of the text and returns it, or
/// returns `None` and leaves an empty text as it is.
#[verifier::external_body]
pub(crate) fn pop_char(s: &mut String) -> (r: Option<char>)
    ensures
        old(s)@.len() == 0 ==> r is None && final(s)@ == old(s)@,
        old(s)@.len() > 0 ==> r == Some(old(s)@.last()) && final(s)@ == old(s)@.drop_last(),
{
    s.pop()
}

/// The text after `key`: a character is appended, backspace removes the last one.
pub open spec fn filter_after_key(text: Seq<char>, key: Key) -> Seq<char> {
    match key {
        Key::Char(c) => text.push(c),
        Key::Backspace => if text.len() > 0 {
            text.drop_last()
        } else {
            text
        },
        _ => text,
    }
}

/// Typing a character and then backspace leaves the text as it was; backspace on an
/// empty text leaves it empty.
pub proof fn lemma_type_then_erase(text: Seq<char>, c: char)
    ensures
        filter_after_key(filter_after_key(text, Key::Char(c)), Key::Backspace) == text,
        filter_after_key(Seq::<char>::empty(), Key::Backspace) == Seq::<char>::empty(),
{
    assert(text.push(c).drop_last() =~= text);
}

/// The line where the user types a filter.
pub struct FilterComponent {
    input_str: String,
    config: Config,
}

impl Default for FilterComponent {
    /// An empty filter with the default settings.
    fn default() -> (r: Self)
        ensures
            r.text() == Seq::<char>::empty(),
            r.spec_config() == Config::default_spec(),
    {
        Self { input_str: String::new(), config: Config::default() }
    }
}

impl FilterComponent {
    /// The text typed so far.
    pub closed spec fn text(&self) -> Seq<char> {
        self.input_str@
    }

    pub closed spec fn spec_config(&self) -> Config {
        self.config
    }

    /// An empty filter.
    pub fn new(config: Config) -> (r: Self)
        ensures
            r.text() == Seq::<char>::empty(),
            r.spec_config() == config,
    {
        Self { input_str: String::new(), config }
    }

    /// Clears the text.
    pub fn reset(&mut self)
        ensures
            final(self).text() == Seq::<char>::empty(),
            final(self).spec_config() == old(self).spec_config(),
    {
        self.input_str = String::new();
    }

    pub fn input_str(&self) -> (r: &str)
        ensures
            r@ == self.text(),
    {
        self.input_str.as_str()
    }

    pub fn is_filter_empty(&self) -> (r: bool)
        ensures
            r == (self.text().len() == 0),
    {
        self.input_str.as_str().unicode_len() == 0
    }

    /// The text, or `None` when nothing is typed.
    pub fn filter_contents(&self) -> (r: Option<&str>)
        ensures
            r matches Some(s) ==> s@ == self.text() && self.text().len() > 0,
            r is None <==> self.text().len() == 0,
    {
        if self.is_filter_empty() {
            None
        } else {
            Some(self.input_str.as_str())
        }
    }

    /// A character key is appended to the text and backspace removes its last character;
    /// other keys are not used.
    pub fn key_event(&mut self, key: Key) -> (r: EventState)
        ensures
            final(self).text() == filter_after_key(old(self).text(), key),
            final(self).spec_config() == old(self).spec_config(),
            r == (match key {
                Key::Char(_) | Key::Backspace => EventState::Consumed,
                _ => EventState::NotConsumed,
            }),
    {
        match key {
            Key::Char(c) => {
                push_char(&mut self.input_str, c);
                EventState::Consumed
            },
            Key::Backspace => {
                let _ = pop_char(&mut self.input_str);
                EventState::Consumed
            },
            _ => EventState::NotConsumed,
        }
    }

    /// The filter uses no mouse event.
    pub fn mouse_event(&mut self, _mouse: Mouse) -> (r: EventState)
        ensures
            r == EventState::NotConsumed,
            final(self).text() == old(self).text(),
            final(self).spec_config() == old(self).spec_config(),
    {
        EventState::NotConsumed
    }
}

} // verus!
