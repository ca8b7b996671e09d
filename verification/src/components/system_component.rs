use vstd::prelude::*;
use crate::components::EventState;
use crate::config::Config;
use crate::input::Key;

verus! {

/// The number of system facts shown.
pub const FIELD_COUNT: usize = 6;

/// Facts about the system, as text: kernel version, host name, processor architecture,
/// physical core count, operating system version and uptime.
pub struct SystemComponentInner {
    kernel_version: String,
    host_name: String,
    cpu_architecture: String,
    physical_core_count: String,
    os_version: String,
    system_uptime: String,
}

impl View for SystemComponentInner {
    type V = Seq<Seq<char>>;

    /// The facts in the order of `FIELD_NAMES`.
    closed spec fn view(&self) -> Seq<Seq<char>> {
        seq![
            self.kernel_version@,
            self.host_name@,
            self.cpu_architecture@,
            self.physical_core_count@,
            self.os_version@,
            self.system_uptime@,
        ]
    }
}

/// Every fact is read as one text, and there are six of them.
pub proof fn lemma_six_facts(inner: &SystemComponentInner)
    ensures
        inner@.len() == FIELD_COUNT,
{
}

impl Default for SystemComponentInner {
    /// Six empty texts.
    fn default() -> (r: Self)
        ensures
            r@ == Seq::new(6, |i: int| Seq::<char>::empty()),
    {
        let r = Self {
            kernel_version: String::new(),
            host_name: String::new(),
            cpu_architecture: String::new(),
            physical_core_count: String::new(),
            os_version: String::new(),
            system_uptime: String::new(),
        };
        assert(r@ =~= Seq::new(6, |i: int| Seq::<char>::empty()));
        r
    }
}

impl SystemComponentInner {
    pub const FIELD_NAMES: [&'static str; 6] = [
        "Kernel Version",
        "Host Name",
        "CPU Architecture",
        "Physical Cores",
        "OS Version",
        "System Uptime",
    ];

    /// The facts, in the order of `FIELD_NAMES`.
    pub fn as_vec(&self) -> (r: Vec<&str>)
        ensures
            r@.len() == 6,
            self@.len() == 6,
            forall|i: int| 0 <= i < 6 ==> #[trigger] r@[i]@ == self@[i],
    {
        let vec: Vec<&str> = vec![
            self.kernel_version.as_str(),
            self.host_name.as_str(),
            self.cpu_architecture.as_str(),
            self.physical_core_count.as_str(),
            self.os_version.as_str(),
            self.system_uptime.as_str(),
        ];
        vec
    }

    /// Sets the uptime, the one fact that changes.
    pub fn update(&mut self, system_uptime: String)
        ensures
            final(self)@ == old(self)@.update(5, system_uptime@),
            final(self)@.len() == 6,
            final(self)@[5] == system_uptime@,
            forall|i: int| 0 <= i < 5 ==> #[trigger] final(self)@[i] == old(self)@[i],
    {
        self.system_uptime = system_uptime;
    }
}

/// The system facts, with a selected line.
pub struct SystemComponent {
    system_inner: SystemComponentInner,
    config: Config,
    selection_inner: Option<usize>,
}

impl Default for SystemComponent {
    /// Six empty facts, the default settings and no selected line.
    fn default() -> (r: Self)
        ensures
            r.facts() == Seq::new(6, |i: int| Seq::<char>::empty()),
            r.selection() == None::<usize>,
            r.spec_config() == Config::default_spec(),
    {
        Self { system_inner: SystemComponentInner::default(), config: Config::default(), selection_inner: None }
    }
}

impl SystemComponent {
    pub closed spec fn facts(&self) -> Seq<Seq<char>> {
        self.system_inner@
    }

    pub closed spec fn selection(&self) -> Option<usize> {
        self.selection_inner
    }

    pub closed spec fn spec_config(&self) -> Config {
        self.config
    }

    /// Takes the six facts, in the order of `FIELD_NAMES`, and selects the first line.
    pub fn init(&mut self, vec: Vec<String>)
        requires
            vec@.len() >= 6,
        ensures
            final(self).facts() == seq![
                vec@[0]@,
                vec@[1]@,
                vec@[2]@,
                vec@[3]@,
                vec@[4]@,
                vec@[5]@,
            ],
            final(self).selection() == Some(0usize),
            final(self).spec_config() == old(self).spec_config(),
    {
        self.system_inner.kernel_version = vec[0].clone();
        self.system_inner.host_name = vec[1].clone();
        self.system_inner.cpu_architecture = vec[2].clone();
        self.system_inner.physical_core_count = vec[3].clone();
        self.system_inner.os_version = vec[4].clone();
        self.system_inner.system_uptime = vec[5].clone();
        self.selection_inner = Some(0);
    }

    /// Sets the uptime.
    pub fn update(&mut self, system_uptime: String)
        ensures
            final(self).facts() == old(self).facts().update(5, system_uptime@),
            final(self).selection() == old(self).selection(),
            final(self).spec_config() == old(self).spec_config(),
    {
        self.system_inner.system_uptime = system_uptime;
    }

    /// Moves the selected line with the down and up keys, within the six lines. A key is
    /// used only while a line is selected.
    pub fn key_event(&mut self, key: Key) -> (r: EventState)
        ensures
            final(self).facts() == old(self).facts(),
            final(self).spec_config() == old(self).spec_config(),
            ({
                let keys = old(self).spec_config().key_config;
                match old(self).selection() {
                    None => r == EventState::NotConsumed && final(self).selection() == old(
                        self,
                    ).selection(),
                    Some(s) => if key == keys.move_down {
                        r == EventState::Consumed && final(self).selection() == Some(
                            if s < FIELD_COUNT - 1 { (s + 1) as usize } else { s },
                        )
                    } else if key == keys.move_up {
                        r == EventState::Consumed && final(self).selection() == Some(
                            if s > 0 { (s - 1) as usize } else { 0usize },
                        )
                    } else {
                        r == EventState::NotConsumed && final(self).selection() == old(
                            self,
                        ).selection()
                    },
                }
            }),
    {
        if key == self.config.key_config.move_down {
            if let Some(s) = self.selection_inner {
                if s < FIELD_COUNT - 1 {
                    self.selection_inner = Some(s.saturating_add(1));
                }
                return EventState::Consumed;
            }
        }
        if key == self.config.key_config.move_up {
            if let Some(s) = self.selection_inner {
                self.selection_inner = Some(s.saturating_sub(1));
                return EventState::Consumed;
            }
        }
        EventState::NotConsumed
    }
}

} // verus!
