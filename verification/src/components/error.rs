use vstd::prelude::*;
use crate::components::EventState;
use crate::components::area::{Area, centered_area, spec_centered_area};
use crate::config::Config;
use crate::input::{Key, Mouse};

verus! {

/// The size of the error window: columns and rows.
pub const ERROR_WIDTH: u16 = 60;
pub const ERROR_HEIGHT: u16 = 10;

/// A window that shows an error message until the user dismisses it.
pub struct ErrorComponent {
    error: String,
    visible: bool,
    config: Config,
}

impl ErrorComponent {
    /// The message shown.
    pub closed spec fn message(&self) -> Seq<char> {
        self.error@
    }

    pub closed spec fn spec_visible(&self) -> bool {
        self.visible
    }

    pub closed spec fn spec_config(&self) -> Config {
        self.config
    }

    /// What a key does (see `key_event`): while shown, the exit key clears the message and
    /// hides the window; any other key leaves the window as it is, unused.
    pub open spec fn key_step(self, next: Self, key: Key, r: EventState) -> bool {
        &&& next.spec_config() == self.spec_config()
        &&& r == (if self.spec_visible() && key == self.spec_config().key_config.exit {
            EventState::Consumed
        } else {
            EventState::NotConsumed
        })
        &&& r == EventState::Consumed ==> !next.spec_visible() && next.message() == Seq::<char>::empty()
        &&& r == EventState::NotConsumed ==> next.spec_visible() == self.spec_visible()
            && next.message() == self.message()
    }

    /// A hidden window with no message.
    pub fn new(config: Config) -> (r: Self)
        ensures
            r.message() == Seq::<char>::empty(),
            !r.spec_visible(),
            r.spec_config() == config,
    {
        Self { error: String::new(), visible: false, config }
    }

    /// Shows the window with the message `error`.
    pub fn set(&mut self, error: String)
        ensures
            final(self).message() == error@,
            final(self).spec_visible(),
            final(self).spec_config() == old(self).spec_config(),
    {
        self.error = error;
        self.show();
    }

    fn hide_popup(&mut self)
        ensures
            !final(self).visible,
            final(self).error == old(self).error,
            final(self).config == old(self).config,
    {
        self.visible = false;
    }

    fn show(&mut self)
        ensures
            final(self).visible,
            final(self).error == old(self).error,
            final(self).config == old(self).config,
    {
        self.visible = true;
    }

    /// While shown, the exit key clears the message and hides the window; every other key
    /// goes unused.
    pub fn key_event(&mut self, key: Key) -> (r: EventState)
        ensures
            old(self).key_step(*final(self), key, r),
    {
        if self.visible {
            if key == self.config.key_config.exit {
                self.error = String::new();
                self.hide_popup();
                return EventState::Consumed;
            }
            return EventState::NotConsumed;
        }
        EventState::NotConsumed
    }

    /// The error window uses no mouse event.
    pub fn mouse_event(&mut self, _mouse: Mouse) -> (r: EventState)
        ensures
            r == EventState::NotConsumed,
            *final(self) == *old(self),
    {
        EventState::NotConsumed
    }

    pub fn is_visible(&self) -> (r: bool)
        ensures
            r == self.spec_visible(),
    {
        self.visible
    }

    /// The message shown.
    pub fn error(&self) -> (r: &str)
        ensures
            r@ == self.message(),
    {
        self.error.as_str()
    }

    /// Where the window stands on a screen of the given size: centered, at most its own
    /// size.
    pub fn area(&self, screen_width: u16, screen_height: u16) -> (r: Area)
        ensures
            r == spec_centered_area(screen_width, screen_height, ERROR_WIDTH, ERROR_HEIGHT),
    {
        centered_area(screen_width, screen_height, ERROR_WIDTH, ERROR_HEIGHT)
    }
}

} // verus!
