use vstd::prelude::*;
use crate::config::KeyConfig;

verus! {

/// The confirmation popup for terminating a process, by value.
pub struct TerminateComponentView {
    pub visible: bool,
    pub key_config: KeyConfig,
    pub pid: u32,
    pub name: Seq<char>,
}

/// The confirmation popup for terminating a process: which process, and whether it shows.
pub struct TerminateComponent {
    visible: bool,
    key_config: KeyConfig,
    pid: u32,
    name: String,
}

impl View for TerminateComponent {
    type V = TerminateComponentView;

    closed spec fn view(&self) -> TerminateComponentView {
        TerminateComponentView {
            visible: self.visible,
            key_config: self.key_config,
            pid: self.pid,
            name: self.name@,
        }
    }
}

impl TerminateComponent {
    pub fn new(key_config: KeyConfig) -> (r: Self)
        ensures
            r@ == (TerminateComponentView {
                visible: false,
                key_config,
                pid: 0,
                name: Seq::empty(),
            }),
    {
        Self { visible: false, key_config, pid: 0, name: String::new() }
    }

    /// Takes the pid and name of the process to terminate; `None` keeps the previous one.
    pub fn set_info(&mut self, item: Option<(u32, String)>)
        ensures
            final(self)@ == (match item {
                Some(info) => TerminateComponentView { pid: info.0, name: info.1@, ..old(self)@ },
                None => old(self)@,
            }),
    {
        if let Some(item) = item {
            self.pid = item.0;
            self.name = item.1;
        }
    }

    fn hide_popup(&mut self)
        ensures
            final(self)@ == (TerminateComponentView { visible: false, ..old(self)@ }),
    {
        self.visible = false;
    }

    fn show(&mut self)
        ensures
            final(self)@ == (TerminateComponentView { visible: true, ..old(self)@ }),
    {
        self.visible = true;
    }
}

} // verus!
