use vstd::prelude::*;

verus! {

pub const HELP_GROUP: &'static str = "-- General --";

/// The line of the help screen that describes a command, and its group.
pub struct HelpText {
    pub name: String,
    pub group: &'static str,
}

impl HelpText {
    pub fn new(name: String, group: &'static str) -> (r: Self)
        ensures
            r.name@ == name@,
            r.group@ == group@,
    {
        Self { name, group }
    }
}

/// A command as the help screen lists it.
pub struct HelpInfo {
    pub text: HelpText,
}

impl HelpInfo {
    pub fn new(text: HelpText) -> (r: Self)
        ensures
            r.text == text,
    {
        Self { text }
    }
}

} // verus!
