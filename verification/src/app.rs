use vstd::prelude::*;
use crate::components::EventState;
use crate::components::area::Area;
use crate::components::command::{self, CommandInfo, one_key_text, two_keys_text};
use crate::components::cpu::CPUComponent;
use crate::components::error::ErrorComponent;
use crate::components::help::HelpComponent;
use crate::components::memory::MemoryComponent;
use crate::components::network::NetworkComponent;
use crate::components::process::{ProcessComponent, refreshed_selection};
use crate::config::{Config, KeyConfig, MouseConfig};
use crate::input::{Key, Mouse, MouseKind};
use crate::models::bounded_queue_model::bounded_push;
use crate::models::items::memory_item::MemoryItem;
use crate::models::items::network_item::NetworkItem;
use crate::models::process_table::ProcessRow;
use crate::components::cpu::add_cpu_items;

verus! {

/// The part of the screen that receives input.
#[derive(PartialEq, Eq, Structural, Hash, Clone, Copy, Debug)]
pub enum MainFocus {
    CPU,
    Process,
    Memory,
    Network,
    Help,
}

/// The part that the tab key moves the focus to: processor, memory, network, processes,
/// and round again. The help window keeps the focus.
pub open spec fn next_focus(f: MainFocus) -> MainFocus {
    match f {
        MainFocus::CPU => MainFocus::Memory,
        MainFocus::Memory => MainFocus::Network,
        MainFocus::Network => MainFocus::Process,
        MainFocus::Process => MainFocus::CPU,
        MainFocus::Help => MainFocus::Help,
    }
}

/// Four presses of the tab key bring the focus back to where it was.
pub proof fn lemma_focus_cycle(f: MainFocus)
    ensures
        next_focus(next_focus(next_focus(next_focus(f)))) == f,
{
}

/// The commands the help window lists, in order.
pub fn commands(key_config: &KeyConfig, mouse_config: &MouseConfig) -> (r: Vec<CommandInfo>)
    ensures
        r@.len() == 10,
        forall|i: int| 0 <= i < 10 ==> !(#[trigger] r@[i]).text.hide_help,
        r@[0].text.name@ == one_key_text("Help"@, key_config.help),
        r@[1].text.name@ == one_key_text("Exit current screen"@, key_config.exit),
        r@[2].text.name@ == two_keys_text("Move selection up/down"@, key_config.move_up, key_config.move_down),
        r@[3].text.name@ == two_keys_text(
            "Move selection to top/bottom"@,
            key_config.move_top,
            key_config.move_bottom,
        ),
        r@[4].text.name@ == one_key_text("Sort by name toggle"@, key_config.sort_name_toggle),
        r@[5].text.name@ == one_key_text("Sort by PID toggle"@, key_config.sort_pid_toggle),
        r@[6].text.name@ == one_key_text("Sort by cpu usage toggle"@, key_config.sort_cpu_toggle),
        r@[7].text.name@ == one_key_text("Sort by memory usage toggle"@, key_config.sort_memory_toggle),
        r@[8].text.name@ == two_keys_text("Filter/Submit filter"@, key_config.filter, key_config.enter),
        r@[9].text.name@ == one_key_text("Terminate selected process"@, key_config.terminate),
        forall|i: int| 0 <= i < 4 ==> (#[trigger] r@[i]).text.group@ == command::CMD_GROUP_GENERAL@,
        forall|i: int| 4 <= i < 8 ==> (#[trigger] r@[i]).text.group@ == command::CMD_GROUP_PROCESS@,
        forall|i: int| 8 <= i < 10 ==> (#[trigger] r@[i]).text.group@ == command::CMD_GROUP_GENERAL@,
{
    let mut res = Vec::new();
    res.push(CommandInfo::new(command::help(key_config)));
    res.push(CommandInfo::new(command::exit_popup(key_config)));
    res.push(CommandInfo::new(command::move_selection(key_config)));
    res.push(CommandInfo::new(command::selection_to_top_bottom(key_config)));
    res.push(CommandInfo::new(command::sort_list_by_name(key_config, mouse_config)));
    res.push(CommandInfo::new(command::sort_list_by_pid(key_config, mouse_config)));
    res.push(CommandInfo::new(command::sort_list_by_cpu_usage(key_config, mouse_config)));
    res.push(CommandInfo::new(command::sort_list_by_memory_usage(key_config, mouse_config)));
    res.push(CommandInfo::new(command::filter_submit(key_config)));
    res.push(CommandInfo::new(command::terminate_process(key_config)));
    res
}

/// The area recorded for the part `f`, if any.
pub open spec fn rect_of(rects: Seq<(MainFocus, Area)>, f: MainFocus) -> Option<Area> {
    if exists|i: int| 0 <= i < rects.len() && rects[i].0 == f {
        Some(rects[choose|i: int| 0 <= i < rects.len() && rects[i].0 == f].1)
    } else {
        None
    }
}

/// Whether each part has at most one recorded area.
pub open spec fn parts_unique(rects: Seq<(MainFocus, Area)>) -> bool {
    forall|i: int, j: int|
        0 <= i < rects.len() && 0 <= j < rects.len() && #[trigger] rects[i].0 == #[trigger] rects[j].0 ==> i == j
}

/// The first recorded area, in the order recorded, that holds the cell (`col`, `row`).
pub open spec fn first_hit(rects: Seq<(MainFocus, Area)>, col: u16, row: u16) -> Option<int> {
    if exists|i: int| 0 <= i < rects.len() && rects[i].1.spec_contains(col, row) {
        Some(
            choose|i: int|
                0 <= i < rects.len() && rects[i].1.spec_contains(col, row) && forall|j: int|
                    0 <= j < i ==> !rects[j].1.spec_contains(col, row),
        )
    } else {
        None
    }
}

/// The focus after a mouse event, and whether the event moved it: a left click inside
/// the help window's area keeps the focus (the help window lies over the process table),
/// and a left click inside another recorded area gives the focus to its part.
pub open spec fn focus_after_mouse(rects: Seq<(MainFocus, Area)>, focus: MainFocus, mouse: Mouse) -> (MainFocus, bool) {
    if mouse.kind != MouseKind::LeftClick {
        (focus, false)
    } else if rect_of(rects, MainFocus::Help) matches Some(a) && a.spec_contains(mouse.column, mouse.row) {
        (focus, true)
    } else {
        match first_hit(rects, mouse.column, mouse.row) {
            Some(i) => (rects[i].0, true),
            None => (focus, false),
        }
    }
}

/// Filtering a sequence whose items all pass leaves it as it is.
proof fn lemma_filter_keeps_all<A>(s: Seq<A>, pred: spec_fn(A) -> bool)
    requires
        forall|i: int| 0 <= i < s.len() ==> pred(#[trigger] s[i]),
    ensures
        s.filter(pred) == s,
    decreases s.len(),
{
    if s.len() == 0 {
        s.lemma_filter_len(pred);
        assert(s.filter(pred) =~= s);
    } else {
        lemma_filter_keeps_all(s.drop_last(), pred);
        s.drop_last().lemma_filter_push(s.last(), pred);
        assert(s.drop_last().push(s.last()) =~= s);
    }
}

/// Where the part `f` is recorded, if it is.
fn find_rect(rects: &Vec<(MainFocus, Area)>, f: MainFocus) -> (r: Option<usize>)
    ensures
        match r {
            Some(i) => i < rects@.len() && rects@[i as int].0 == f,
            None => forall|j: int| 0 <= j < rects@.len() ==> (#[trigger] rects@[j]).0 != f,
        },
{
    let mut i: usize = 0;
    while i < rects.len()
        invariant
            i <= rects@.len(),
            forall|j: int| 0 <= j < i ==> (#[trigger] rects@[j]).0 != f,
        decreases rects@.len() - i,
    {
        if rects[i].0 == f {
            return Some(i);
        }
        i = i + 1;
    }
    None
}

/// The first recorded area that holds the cell (`col`, `row`).
fn find_hit(rects: &Vec<(MainFocus, Area)>, col: u16, row: u16) -> (r: Option<usize>)
    ensures
        match r {
            Some(i) => i < rects@.len() && rects@[i as int].1.spec_contains(col, row) && forall|j: int|
                0 <= j < i ==> !(#[trigger] rects@[j]).1.spec_contains(col, row),
            None => forall|j: int| 0 <= j < rects@.len() ==> !(#[trigger] rects@[j]).1.spec_contains(col, row),
        },
{
    let mut i: usize = 0;
    while i < rects.len()
        invariant
            i <= rects@.len(),
            forall|j: int| 0 <= j < i ==> !(#[trigger] rects@[j]).1.spec_contains(col, row),
        decreases rects@.len() - i,
    {
        if rects[i].1.contains(col, row) {
            return Some(i);
        }
        i = i + 1;
    }
    None
}

proof fn lemma_rect_of_found(rects: Seq<(MainFocus, Area)>, f: MainFocus, i: int)
    requires
        parts_unique(rects),
        0 <= i < rects.len(),
        rects[i].0 == f,
    ensures
        rect_of(rects, f) == Some(rects[i].1),
{
    let c = choose|k: int| 0 <= k < rects.len() && rects[k].0 == f;
    assert(rects[c].0 == rects[i].0);
}

proof fn lemma_first_hit_found(rects: Seq<(MainFocus, Area)>, col: u16, row: u16, i: int)
    requires
        0 <= i < rects.len(),
        rects[i].1.spec_contains(col, row),
        forall|j: int| 0 <= j < i ==> !(#[trigger] rects[j]).1.spec_contains(col, row),
    ensures
        first_hit(rects, col, row) == Some(i),
{
    let c = choose|m: int|
        0 <= m < rects.len() && rects[m].1.spec_contains(col, row) && forall|j: int|
            0 <= j < m ==> !rects[j].1.spec_contains(col, row);
    if c < i {
        assert(!rects[c].1.spec_contains(col, row));
    } else if c > i {
        assert(!rects[i].1.spec_contains(col, row));
    }
}

proof fn lemma_replace_rect(rects: Seq<(MainFocus, Area)>, f: MainFocus, area: Area, i: int)
    requires
        parts_unique(rects),
        0 <= i < rects.len(),
        rects[i].0 == f,
    ensures
        parts_unique(rects.update(i, (f, area))),
        rect_of(rects.update(i, (f, area)), f) == Some(area),
        forall|g: MainFocus| g != f ==> rect_of(rects.update(i, (f, area)), g) == rect_of(rects, g),
{
    let nr = rects.update(i, (f, area));
    assert forall|a: int, b: int|
        0 <= a < nr.len() && 0 <= b < nr.len() && #[trigger] nr[a].0 == #[trigger] nr[b].0 implies a == b by {
        if a != i && b != i {
            assert(rects[a].0 == rects[b].0);
        } else if a == i && b != i {
            assert(rects[b].0 == rects[i].0);
        } else if b == i && a != i {
            assert(rects[a].0 == rects[i].0);
        }
    }
    lemma_rect_of_found(nr, f, i);
    assert forall|g: MainFocus| g != f implies rect_of(nr, g) == rect_of(rects, g) by {
        if exists|k: int| 0 <= k < rects.len() && rects[k].0 == g {
            let w = choose|k: int| 0 <= k < rects.len() && rects[k].0 == g;
            lemma_rect_of_found(rects, g, w);
            assert(nr[w] == rects[w]);
            lemma_rect_of_found(nr, g, w);
        } else {
            assert forall|k: int| 0 <= k < nr.len() implies nr[k].0 != g by {
                if k != i {
                    assert(nr[k] == rects[k]);
                }
            }
        }
    }
}

proof fn lemma_push_rect(rects: Seq<(MainFocus, Area)>, f: MainFocus, area: Area)
    requires
        parts_unique(rects),
        forall|j: int| 0 <= j < rects.len() ==> (#[trigger] rects[j]).0 != f,
    ensures
        parts_unique(rects.push((f, area))),
        rect_of(rects, f) is None,
        rect_of(rects.push((f, area)), f) == Some(area),
        forall|g: MainFocus| g != f ==> rect_of(rects.push((f, area)), g) == rect_of(rects, g),
{
    let nr = rects.push((f, area));
    assert forall|a: int, b: int|
        0 <= a < nr.len() && 0 <= b < nr.len() && #[trigger] nr[a].0 == #[trigger] nr[b].0 implies a == b by {
        if a < rects.len() && b < rects.len() {
            assert(rects[a].0 == rects[b].0);
        } else if a < rects.len() {
            assert(rects[a].0 == f);
        } else if b < rects.len() {
            assert(rects[b].0 == f);
        }
    }
    lemma_rect_of_found(nr, f, rects.len() as int);
    assert forall|g: MainFocus| g != f implies rect_of(nr, g) == rect_of(rects, g) by {
        if exists|k: int| 0 <= k < rects.len() && rects[k].0 == g {
            let w = choose|k: int| 0 <= k < rects.len() && rects[k].0 == g;
            lemma_rect_of_found(rects, g, w);
            assert(nr[w] == rects[w]);
            lemma_rect_of_found(nr, g, w);
        } else {
            assert forall|k: int| 0 <= k < nr.len() implies nr[k].0 != g by {
                if k < rects.len() {
                    assert(nr[k] == rects[k]);
                }
            }
        }
    }
}

/// The application's state: the views of the system, which of them has the focus,
/// whether the focused view fills the screen, and whether refreshing is frozen.
pub struct App<T> {
    pub focus: MainFocus,
    pub focus_rects: Vec<(MainFocus, Area)>,
    pub expand: bool,
    pub process: ProcessComponent,
    pub cpu: CPUComponent<T>,
    pub memory: MemoryComponent,
    pub network: NetworkComponent,
    pub help: HelpComponent,
    pub freeze_flag: bool,
    pub error: ErrorComponent,
    pub config: Config,
}

impl<T> App<T> {
    /// Every view is well formed and works with the application's settings, and each part
    /// has at most one recorded area.
    pub open spec fn wf(self) -> bool {
        &&& self.process.wf()
        &&& self.cpu.wf()
        &&& self.memory.wf()
        &&& self.network.wf()
        &&& self.process.spec_config() == self.config
        &&& self.cpu@.config == self.config
        &&& self.memory.spec_config() == self.config
        &&& self.network.spec_config() == self.config
        &&& self.help.spec_config() == self.config
        &&& self.error.spec_config() == self.config
        &&& parts_unique(self.focus_rects@)
    }

    /// What a key does to the focused view (see `key_component_event`): `rc` says whether
    /// the view used it; the process view also takes the terminate key.
    pub open spec fn focused_key_step(self, next: Self, key: Key, rc: EventState) -> bool {
        match self.focus {
            MainFocus::CPU => {
                &&& (next.cpu@, rc) == self.cpu@.after_key(key)
                &&& next.cpu.wf()
                &&& next == (App { cpu: next.cpu, error: next.error, ..self })
            },
            MainFocus::Memory => {
                &&& self.memory.key_step(next.memory, key, rc)
                &&& next.memory.wf()
                &&& next == (App { memory: next.memory, error: next.error, ..self })
            },
            MainFocus::Network => {
                &&& self.network.key_step(next.network, key, rc)
                &&& next.network.wf()
                &&& next == (App { network: next.network, error: next.error, ..self })
            },
            MainFocus::Process => {
                &&& exists|rp: EventState|
                    {
                        &&& #[trigger] self.process.key_step(next.process, key, rp)
                        &&& rc == (if rp == EventState::Consumed || key == self.config.key_config.terminate {
                            EventState::Consumed
                        } else {
                            EventState::NotConsumed
                        })
                    }
                &&& next.process.wf()
                &&& next == (App { process: next.process, error: next.error, ..self })
            },
            MainFocus::Help => {
                &&& self.help.key_step(next.help, key, rc)
                &&& next == (App { help: next.help, error: next.error, ..self })
            },
        }
    }

    /// What a key does to the application (see `key_event`).
    pub open spec fn key_step(self, next: Self, key: Key, r: EventState) -> bool {
        let kc = self.config.key_config;
        if self.help.spec_visible() {
            &&& exists|rh: EventState| #[trigger] self.help.key_step(next.help, key, rh)
            &&& r == EventState::Consumed
            &&& next == (App { help: next.help, ..self })
        } else if self.error.spec_visible() && key == kc.exit {
            &&& self.error.key_step(next.error, key, EventState::Consumed)
            &&& r == EventState::Consumed
            &&& next == (App { error: next.error, ..self })
        } else {
            &&& self.error.key_step(next.error, key, EventState::NotConsumed)
            &&& exists|rc: EventState, mid: Self|
                {
                    &&& #[trigger] self.focused_key_step(mid, key, rc)
                    &&& mid.error == next.error
                    &&& if rc == EventState::Consumed {
                        r == EventState::Consumed && next == mid
                    } else if key == kc.tab {
                        r == EventState::Consumed && next == (App { focus: next_focus(self.focus), ..mid })
                    } else if key == kc.expand {
                        r == EventState::Consumed && next == (App { expand: !self.expand, ..mid })
                    } else if key == kc.freeze {
                        r == EventState::Consumed && next == (App { freeze_flag: !self.freeze_flag, ..mid })
                    } else {
                        r == EventState::NotConsumed && next == mid
                    }
                }
        }
    }

    /// Whether the focused view has a use for `key`, by the view's own rules (the process
    /// view also takes the terminate key).
    pub open spec fn focused_view_uses(self, key: Key) -> bool {
        match self.focus {
            MainFocus::CPU => self.cpu@.after_key(key).1 == EventState::Consumed,
            MainFocus::Memory => exists|m: MemoryComponent| #[trigger] self.memory.key_step(m, key, EventState::Consumed),
            MainFocus::Network => exists|n: NetworkComponent|
                #[trigger] self.network.key_step(n, key, EventState::Consumed),
            MainFocus::Process => key == self.config.key_config.terminate || exists|p: ProcessComponent|
                #[trigger] self.process.key_step(p, key, EventState::Consumed),
            MainFocus::Help => exists|h: HelpComponent| #[trigger] self.help.key_step(h, key, EventState::Consumed),
        }
    }

    /// The focused view gets a key first. A key that it uses is answered as used and
    /// leaves the focus, expand and freeze as they were, even where it is also the tab,
    /// expand or freeze key; only a key that it does not use switches the focus (tab),
    /// expands (the expand key) or freezes (the freeze key). So expand or freeze change
    /// only on their own key, where the focused view has no use for it.
    pub proof fn lemma_focused_view_comes_first(self, next: Self, key: Key, r: EventState)
        requires
            self.key_step(next, key, r),
            !self.help.spec_visible(),
            !(self.error.spec_visible() && key == self.config.key_config.exit),
        ensures
            self.focused_view_uses(key) ==> r == EventState::Consumed && next.focus == self.focus
                && next.expand == self.expand && next.freeze_flag == self.freeze_flag,
            !self.focused_view_uses(key) && key == self.config.key_config.tab ==> next.focus == next_focus(
                self.focus,
            ) && next.expand == self.expand && next.freeze_flag == self.freeze_flag,
            !self.focused_view_uses(key) && key != self.config.key_config.tab && key
                == self.config.key_config.expand ==> next.expand == !self.expand && next.focus == self.focus
                && next.freeze_flag == self.freeze_flag && r == EventState::Consumed,
            next.expand != self.expand ==> key == self.config.key_config.expand && !self.focused_view_uses(key),
            next.freeze_flag != self.freeze_flag ==> key == self.config.key_config.freeze && !self.focused_view_uses(
                key,
            ),
    {
        let (rc, mid) = choose|rc: EventState, mid: Self|
            {
                &&& #[trigger] self.focused_key_step(mid, key, rc)
                &&& mid.error == next.error
                &&& if rc == EventState::Consumed {
                    r == EventState::Consumed && next == mid
                } else if key == self.config.key_config.tab {
                    r == EventState::Consumed && next == (App { focus: next_focus(self.focus), ..mid })
                } else if key == self.config.key_config.expand {
                    r == EventState::Consumed && next == (App { expand: !self.expand, ..mid })
                } else if key == self.config.key_config.freeze {
                    r == EventState::Consumed && next == (App { freeze_flag: !self.freeze_flag, ..mid })
                } else {
                    r == EventState::NotConsumed && next == mid
                }
            };
        assert(mid.focus == self.focus && mid.expand == self.expand && mid.freeze_flag == self.freeze_flag);
        assert((rc == EventState::Consumed) == self.focused_view_uses(key)) by {
            match self.focus {
                MainFocus::CPU => {},
                MainFocus::Memory => {
                    if rc == EventState::Consumed {
                        assert(self.memory.key_step(mid.memory, key, EventState::Consumed));
                    }
                },
                MainFocus::Network => {
                    if rc == EventState::Consumed {
                        assert(self.network.key_step(mid.network, key, EventState::Consumed));
                    }
                },
                MainFocus::Process => {
                    let rp = choose|rp: EventState|
                        {
                            &&& #[trigger] self.process.key_step(mid.process, key, rp)
                            &&& rc == (if rp == EventState::Consumed || key == self.config.key_config.terminate {
                                EventState::Consumed
                            } else {
                                EventState::NotConsumed
                            })
                        };
                    if rp == EventState::Consumed {
                        assert(self.process.key_step(mid.process, key, EventState::Consumed));
                    }
                },
                MainFocus::Help => {
                    if rc == EventState::Consumed {
                        assert(self.help.key_step(mid.help, key, EventState::Consumed));
                    }
                },
            }
        }
    }

    /// The application on the first data: `rows` for the process table, `cpus` (each
    /// with its processor's id), and one memory and one network sample. The process table
    /// has the focus, nothing fills the screen, refreshing runs, and the help window lists
    /// the commands.
    pub fn new(config: Config, rows: Vec<ProcessRow>, cpus: Vec<(usize, T)>, memory: MemoryItem, network: NetworkItem) -> (r: Self)
        requires
            config.valid_timing(),
            2 <= config.spec_default_window() <= config.spec_buffer_capacity(),
        ensures
            r.wf(),
            r.focus == MainFocus::Process,
            r.focus_rects@.len() == 0,
            !r.expand,
            !r.freeze_flag,
            r.config == config,
            r.process.rows() == rows@,
            r.process.sort_order() is None,
            r.process.filter_text() == Seq::<char>::empty(),
            r.cpu@.cpus == add_cpu_items(Map::empty(), config.spec_buffer_capacity() as nat, cpus@),
            r.memory.samples() == seq![memory],
            r.network.samples() == seq![network],
            !r.help.spec_visible(),
            r.help.commands().len() == 10,
            !r.error.spec_visible(),
    {
        let process = ProcessComponent::new(config, rows);
        let memory = MemoryComponent::new(config, memory);
        let cpu = CPUComponent::new(config, cpus);
        let network = NetworkComponent::new(config, network);
        let mut help = HelpComponent::new(config);
        let cmds = commands(&config.key_config, &config.mouse_config);
        let ghost all = cmds@;
        help.set_commands(cmds);
        proof {
            lemma_filter_keeps_all(all, |c: CommandInfo| !c.text.hide_help);
        }
        Self {
            focus: MainFocus::Process,
            focus_rects: Vec::new(),
            expand: false,
            process,
            cpu,
            memory,
            network,
            help,
            freeze_flag: false,
            error: ErrorComponent::new(config),
            config,
        }
    }

    /// Stops refreshing, or starts it again.
    pub fn toggle_freeze(&mut self)
        ensures
            *final(self) == (App { freeze_flag: !old(self).freeze_flag, ..*old(self) }),
    {
        self.freeze_flag = !self.freeze_flag;
    }

    /// Whether refreshing is frozen, in which case the new data need not be fetched.
    pub fn is_frozen(&self) -> (r: bool)
        ensures
            r == self.freeze_flag,
    {
        self.freeze_flag
    }

    /// Takes the new data unless refreshing is frozen: `rows` for the process table,
    /// `cpus` for the processor chart, and a memory and a network sample.
    pub fn refresh_event(&mut self, rows: Vec<ProcessRow>, cpus: Vec<(usize, T)>, memory: MemoryItem, network: NetworkItem) -> (r: EventState)
        requires
            old(self).wf(),
        ensures
            final(self).wf(),
            r == EventState::Consumed,
            old(self).freeze_flag ==> *final(self) == *old(self),
            !old(self).freeze_flag ==> {
                &&& final(self).process.rows() == rows@
                &&& final(self).process.selection() == refreshed_selection(
                    old(self).process.selection(),
                    final(self).process.shown().len(),
                )
                &&& final(self).process.sort_order() == old(self).process.sort_order()
                &&& final(self).process.filter_text() == old(self).process.filter_text()
                &&& final(self).cpu@.cpus == add_cpu_items(
                    old(self).cpu@.cpus,
                    old(self).config.spec_buffer_capacity() as nat,
                    cpus@,
                )
                &&& final(self).memory.samples() == bounded_push(
                    old(self).memory.samples(),
                    old(self).config.spec_buffer_capacity() as nat,
                    memory,
                )
                &&& final(self).network.samples() == bounded_push(
                    old(self).network.samples(),
                    old(self).config.spec_buffer_capacity() as nat,
                    network,
                )
                &&& final(self).focus == old(self).focus
                &&& final(self).expand == old(self).expand
                &&& final(self).freeze_flag == old(self).freeze_flag
                &&& final(self).help == old(self).help
                &&& final(self).error == old(self).error
                &&& final(self).focus_rects == old(self).focus_rects
                &&& final(self).config == old(self).config
            },
    {
        if self.freeze_flag {
            return EventState::Consumed;
        }
        self.process.refresh(rows);
        self.memory.refresh(memory);
        self.cpu.update(cpus);
        self.network.refresh(network);
        EventState::Consumed
    }

    fn toggle_expand(&mut self)
        ensures
            *final(self) == (App { expand: !old(self).expand, ..*old(self) }),
    {
        self.expand = !self.expand;
    }

    fn key_component_event(&mut self, key: Key) -> (r: EventState)
        requires
            old(self).wf(),
            !old(self).help.spec_visible(),
            !(old(self).error.spec_visible() && key == old(self).config.key_config.exit),
        ensures
            old(self).error.key_step(final(self).error, key, EventState::NotConsumed),
            old(self).focused_key_step(*final(self), key, r),
    {
        let consumed_by_error = self.error.key_event(key).is_consumed();
        if consumed_by_error {
            return EventState::Consumed;
        }
        match self.focus {
            MainFocus::CPU => {
                if self.cpu.key_event(key).is_consumed() {
                    return EventState::Consumed;
                }
            },
            MainFocus::Memory => {
                if self.memory.key_event(key).is_consumed() {
                    return EventState::Consumed;
                }
            },
            MainFocus::Network => {
                if self.network.key_event(key).is_consumed() {
                    return EventState::Consumed;
                }
            },
            MainFocus::Process => {
                if self.process.key_event(key).is_consumed() {
                    return EventState::Consumed;
                }
                if key == self.config.key_config.terminate {
                    return EventState::Consumed;
                }
            },
            MainFocus::Help => {
                if self.help.key_event(key).is_consumed() {
                    return EventState::Consumed;
                }
            },
        }
        EventState::NotConsumed
    }

    fn move_focus_key(&mut self, key: Key) -> (r: EventState)
        ensures
            key == old(self).config.key_config.tab ==> r == EventState::Consumed && *final(self) == (App {
                focus: next_focus(old(self).focus),
                ..*old(self)
            }),
            key != old(self).config.key_config.tab ==> r == EventState::NotConsumed && *final(self) == *old(self),
    {
        if key == self.config.key_config.tab {
            match self.focus {
                MainFocus::CPU => {
                    self.focus = MainFocus::Memory;
                },
                MainFocus::Memory => {
                    self.focus = MainFocus::Network;
                },
                MainFocus::Network => {
                    self.focus = MainFocus::Process;
                },
                MainFocus::Process => {
                    self.focus = MainFocus::CPU;
                },
                _ => {},
            }
            return EventState::Consumed;
        }
        EventState::NotConsumed
    }

    /// Handles a key: the help window takes every key while shown; otherwise the error
    /// window's exit key, then the focused view, then the tab key (moving the focus), the
    /// expand key and the freeze key (see `key_step`).
    pub fn key_event(&mut self, key: Key) -> (r: EventState)
        requires
            old(self).wf(),
        ensures
            final(self).wf(),
            old(self).key_step(*final(self), key, r),
    {
        if self.help.is_visible() {
            let _ = self.help.key_event(key).is_consumed();
            return EventState::Consumed;
        }
        let ghost before = *self;
        if self.error.is_visible() && key == self.config.key_config.exit {
            let _ = self.error.key_event(key);
            return EventState::Consumed;
        }
        let rc = self.key_component_event(key);
        let ghost mid = *self;
        if rc.is_consumed() {
            return EventState::Consumed;
        }
        if self.move_focus_key(key).is_consumed() {
            return EventState::Consumed;
        }
        if key == self.config.key_config.expand {
            self.toggle_expand();
            return EventState::Consumed;
        }
        if key == self.config.key_config.freeze {
            self.toggle_freeze();
            return EventState::Consumed;
        }
        EventState::NotConsumed
    }

    /// What a mouse event does to the focused view (see `mouse_event`).
    pub open spec fn focused_mouse_step(self, next: Self, mouse: Mouse, rc: EventState) -> bool {
        match self.focus {
            MainFocus::CPU => {
                &&& (next.cpu@, rc) == self.cpu@.after_mouse(mouse)
                &&& next.cpu.wf()
                &&& next == (App { cpu: next.cpu, ..self })
            },
            MainFocus::Memory => {
                &&& self.memory.mouse_step(next.memory, mouse, rc)
                &&& next.memory.wf()
                &&& next == (App { memory: next.memory, ..self })
            },
            MainFocus::Network => {
                &&& self.network.mouse_step(next.network, mouse, rc)
                &&& next.network.wf()
                &&& next == (App { network: next.network, ..self })
            },
            MainFocus::Process => {
                &&& self.process.mouse_step(next.process, mouse, rc)
                &&& next.process.wf()
                &&& next == (App { process: next.process, ..self })
            },
            MainFocus::Help => rc == EventState::NotConsumed && next == self,
        }
    }

    /// What a mouse event does to the application (see `mouse_event`): while the help
    /// window is shown it takes every event; otherwise a left click may first move the
    /// focus (see `focus_after_mouse`), and then the view with the focus gets the event.
    pub open spec fn mouse_step(self, next: Self, mouse: Mouse, r: EventState) -> bool {
        if self.help.spec_visible() {
            r == EventState::Consumed && next == self
        } else {
            let (f, moved) = focus_after_mouse(self.focus_rects@, self.focus, mouse);
            exists|rc: EventState|
                {
                    &&& #[trigger] (App { focus: f, ..self }).focused_mouse_step(next, mouse, rc)
                    &&& r == (if rc == EventState::Consumed || moved {
                        EventState::Consumed
                    } else {
                        EventState::NotConsumed
                    })
                }
        }
    }

    fn move_focus_mouse(&mut self, mouse: Mouse) -> (r: EventState)
        requires
            parts_unique(old(self).focus_rects@),
        ensures
            (final(self).focus, r == EventState::Consumed) == focus_after_mouse(
                old(self).focus_rects@,
                old(self).focus,
                mouse,
            ),
            *final(self) == (App { focus: final(self).focus, ..*old(self) }),
    {
        if mouse.kind != MouseKind::LeftClick {
            return EventState::NotConsumed;
        }
        let col = mouse.column;
        let row = mouse.row;
        if let Some(i) = find_rect(&self.focus_rects, MainFocus::Help) {
            proof {
                lemma_rect_of_found(self.focus_rects@, MainFocus::Help, i as int);
            }
            if self.focus_rects[i].1.contains(col, row) {
                return EventState::Consumed;
            }
        }
        if let Some(k) = find_hit(&self.focus_rects, col, row) {
            proof {
                lemma_first_hit_found(self.focus_rects@, col, row, k as int);
            }
            self.focus = self.focus_rects[k].0;
            return EventState::Consumed;
        }
        EventState::NotConsumed
    }

    /// Handles a mouse event (see `mouse_step`).
    pub fn mouse_event(&mut self, mouse: Mouse) -> (r: EventState)
        requires
            old(self).wf(),
        ensures
            final(self).wf(),
            old(self).mouse_step(*final(self), mouse, r),
    {
        if self.help.is_visible() {
            let _ = self.help.mouse_event(mouse).is_consumed();
            return EventState::Consumed;
        }
        let move_focus_res = self.move_focus_mouse(mouse).is_consumed();
        let ghost focused = *self;
        let rc = match self.focus {
            MainFocus::Process => self.process.mouse_event(mouse),
            MainFocus::CPU => self.cpu.mouse_event(mouse),
            MainFocus::Memory => self.memory.mouse_event(mouse),
            MainFocus::Network => self.network.mouse_event(mouse),
            MainFocus::Help => self.help.mouse_event(mouse),
        };
        assert(focused.focused_mouse_step(*self, mouse, rc));
        if rc.is_consumed() {
            return EventState::Consumed;
        }
        if move_focus_res {
            return EventState::Consumed;
        }
        EventState::NotConsumed
    }

    /// Forgets where the views were drawn.
    pub fn clear_focus_rects(&mut self)
        requires
            old(self).wf(),
        ensures
            final(self).wf(),
            *final(self) == (App { focus_rects: final(self).focus_rects, ..*old(self) }),
            final(self).focus_rects@ == Seq::<(MainFocus, Area)>::empty(),
    {
        self.focus_rects = Vec::new();
    }

    /// Records that the view `focus` was drawn in `area`, in place of any area recorded
    /// for it before.
    pub fn insert_focus_rect(&mut self, focus: MainFocus, area: Area)
        requires
            old(self).wf(),
        ensures
            final(self).wf(),
            *final(self) == (App { focus_rects: final(self).focus_rects, ..*old(self) }),
            rect_of(final(self).focus_rects@, focus) == Some(area),
            forall|g: MainFocus| g != focus ==> rect_of(final(self).focus_rects@, g) == rect_of(old(self).focus_rects@, g),
            rect_of(old(self).focus_rects@, focus) is Some ==> final(self).focus_rects@.len() == old(self).focus_rects@.len(),
            rect_of(old(self).focus_rects@, focus) is None ==> final(self).focus_rects@ == old(self).focus_rects@.push((focus, area)),
    {
        let ghost rects = self.focus_rects@;
        match find_rect(&self.focus_rects, focus) {
            Some(i) => {
                self.focus_rects.set(i, (focus, area));
                proof {
                    lemma_rect_of_found(rects, focus, i as int);
                    lemma_replace_rect(rects, focus, area, i as int);
                }
            },
            None => {
                self.focus_rects.push((focus, area));
                proof {
                    lemma_push_rect(rects, focus, area);
                }
            },
        }
    }

    /// The views drawn on the screen, in the order drawn: none while the help window is
    /// shown (it is drawn alone), the focused view alone when it fills the screen, and
    /// otherwise the process table, the help button, then the processor, memory and
    /// network charts.
    pub fn views_to_draw(&self) -> (r: Vec<MainFocus>)
        ensures
            r@ == (if self.help.spec_visible() {
                Seq::<MainFocus>::empty()
            } else if self.expand {
                if self.focus == MainFocus::Help {
                    Seq::<MainFocus>::empty()
                } else {
                    seq![self.focus]
                }
            } else {
                seq![MainFocus::Process, MainFocus::Help, MainFocus::CPU, MainFocus::Memory, MainFocus::Network]
            }),
    {
        let mut views = Vec::new();
        if self.help.is_visible() {
            return views;
        }
        if self.expand {
            if self.focus != MainFocus::Help {
                views.push(self.focus);
            }
            return views;
        }
        views.push(MainFocus::Process);
        views.push(MainFocus::Help);
        views.push(MainFocus::CPU);
        views.push(MainFocus::Memory);
        views.push(MainFocus::Network);
        views
    }

    /// The view with the focus.
    pub fn focus(&self) -> (r: MainFocus)
        ensures
            r == self.focus,
    {
        self.focus
    }

    /// Whether the focused view fills the screen.
    pub fn is_expanded(&self) -> (r: bool)
        ensures
            r == self.expand,
    {
        self.expand
    }
}

} // verus!
