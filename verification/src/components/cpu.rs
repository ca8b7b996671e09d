use std::collections::BTreeMap;
use vstd::std_specs::btree::spec_keys_iter;
use vstd::std_specs::iter::IteratorSpec;
use vstd::std_specs::cmp::OrdSpec;
use vstd::prelude::*;
use crate::components::area::Area;
use crate::components::utils::data_window::{DataWindow, DataWindowView, sat_add};
use crate::components::utils::selection::{SelectionState, moved_index};
use crate::components::{common_nav, spec_common_nav, list_move, spec_list_move, EventState, MoveSelection};
use crate::config::Config;
use crate::input::{Key, Mouse, MouseKind};
use crate::models::bounded_queue_model::{BoundedQueueModel, bounded_push};
use crate::components::utils::MoveSelection as ListMove;

verus! {

broadcast use {vstd::laws_cmp::group_laws_cmp, vstd::std_specs::btree::group_btree_axioms};

/// The colors given to the lines of the processor chart.
#[derive(PartialEq, Eq, Structural, Clone, Copy, Debug)]
pub enum ColorWheel {
    LightRed,
    Blue,
    Cyan,
    Green,
    LightGreen,
    LightYellow,
    LightMagenta,
}

/// The number of colors of the processor chart.
pub const CPU_COLORS: usize = 7;

/// The place of a color on the wheel.
pub open spec fn cpu_color_index(c: ColorWheel) -> int {
    match c {
        ColorWheel::LightRed => 0,
        ColorWheel::Blue => 1,
        ColorWheel::Cyan => 2,
        ColorWheel::Green => 3,
        ColorWheel::LightGreen => 4,
        ColorWheel::LightYellow => 5,
        ColorWheel::LightMagenta => 6,
    }
}

/// The color at place `i` of the wheel, counting round.
pub open spec fn cpu_color_at(i: int) -> ColorWheel {
    let k = i % (CPU_COLORS as int);
    if k == 0 {
        ColorWheel::LightRed
    } else if k == 1 {
        ColorWheel::Blue
    } else if k == 2 {
        ColorWheel::Cyan
    } else if k == 3 {
        ColorWheel::Green
    } else if k == 4 {
        ColorWheel::LightGreen
    } else if k == 5 {
        ColorWheel::LightYellow
    } else {
        ColorWheel::LightMagenta
    }
}

/// The name of a color as the terminal library parses it.
pub open spec fn cpu_color_name(c: ColorWheel) -> Seq<char> {
    match c {
        ColorWheel::LightRed => "lightred"@,
        ColorWheel::Blue => "blue"@,
        ColorWheel::Cyan => "cyan"@,
        ColorWheel::Green => "green"@,
        ColorWheel::LightGreen => "lightgreen"@,
        ColorWheel::LightYellow => "lightyellow"@,
        ColorWheel::LightMagenta => "lightmagenta"@,
    }
}

/// Each color is found again at its own place, and seven turns bring any color back.
pub proof fn lemma_cpu_wheel_turns_round(c: ColorWheel)
    ensures
        cpu_color_at(cpu_color_index(c)) == c,
        cpu_color_at(cpu_color_index(c) + CPU_COLORS as int) == c,
{
}

impl Default for ColorWheel {
    fn default() -> (r: Self)
        ensures
            r == ColorWheel::LightRed,
    {
        ColorWheel::LightRed
    }
}

impl ColorWheel {
    pub fn as_str(&self) -> (r: &'static str)
        ensures
            r@ == cpu_color_name(*self),
    {
        match self {
            ColorWheel::LightRed => "lightred",
            ColorWheel::Blue => "blue",
            ColorWheel::Cyan => "cyan",
            ColorWheel::Green => "green",
            ColorWheel::LightGreen => "lightgreen",
            ColorWheel::LightYellow => "lightyellow",
            ColorWheel::LightMagenta => "lightmagenta",
        }
    }

    fn position(&self) -> (r: usize)
        ensures
            r == cpu_color_index(*self),
    {
        match self {
            ColorWheel::LightRed => 0,
            ColorWheel::Blue => 1,
            ColorWheel::Cyan => 2,
            ColorWheel::Green => 3,
            ColorWheel::LightGreen => 4,
            ColorWheel::LightYellow => 5,
            ColorWheel::LightMagenta => 6,
        }
    }

    /// Moves to the next color, from the last back to the first.
    pub fn rotate(&mut self)
        ensures
            *final(self) == cpu_color_at(cpu_color_index(*old(self)) + 1),
    {
        let next_idx = (self.position() + 1) % CPU_COLORS;
        *self = Self::from_index(next_idx);
    }

    /// The color at place `index`, counting round the wheel.
    pub fn from_index(index: usize) -> (r: Self)
        ensures
            r == cpu_color_at(index as int),
    {
        let k = index % CPU_COLORS;
        if k == 0 {
            ColorWheel::LightRed
        } else if k == 1 {
            ColorWheel::Blue
        } else if k == 2 {
            ColorWheel::Cyan
        } else if k == 3 {
            ColorWheel::Green
        } else if k == 4 {
            ColorWheel::LightGreen
        } else if k == 5 {
            ColorWheel::LightYellow
        } else {
            ColorWheel::LightMagenta
        }
    }

    pub fn reset(&mut self)
        ensures
            *final(self) == ColorWheel::LightRed,
    {
        *self = Self::default();
    }
}

/// The part of the processor view that receives keys.
#[derive(PartialEq, Eq, Structural, Clone, Copy, Debug)]
pub enum Focus {
    Chart,
    CPUList,
}

/// The samples of each processor, oldest first.
pub open spec fn queues_view<T>(m: Map<usize, BoundedQueueModel<T>>) -> Map<usize, Seq<T>> {
    m.map_values(|q: BoundedQueueModel<T>| q@)
}

/// The samples kept for processor `id`, none where it is not listed.
pub open spec fn queue_or_empty<T>(m: Map<usize, Seq<T>>, id: usize) -> Seq<T> {
    if m.contains_key(id) {
        m[id]
    } else {
        Seq::empty()
    }
}

/// The samples after each `(id, sample)` of `items` has been added, in order, to the
/// queue of its processor (a new processor gets a new queue).
pub open spec fn add_cpu_items<T>(m: Map<usize, Seq<T>>, capacity: nat, items: Seq<(usize, T)>) -> Map<
    usize,
    Seq<T>,
>
    decreases items.len(),
{
    if items.len() == 0 {
        m
    } else {
        let before = add_cpu_items(m, capacity, items.drop_last());
        let id = items.last().0;
        before.insert(id, bounded_push(queue_or_empty(before, id), capacity, items.last().1))
    }
}

/// What the processor view holds: the samples of each processor, the selected line of
/// its list (line 0 shows every processor, line `k + 1` processor `k`), the visible part
/// of the chart, where chart and list were last drawn, the focus and the settings.
pub struct CpuView<T> {
    pub cpus: Map<usize, Seq<T>>,
    pub selection: Option<usize>,
    pub window: DataWindowView,
    pub chart_area: Option<Area>,
    pub list_area: Option<Area>,
    pub focus: Focus,
    pub config: Config,
}

impl<T> CpuView<T> {
    /// The number of lines of the processor list: one per processor and one for all.
    pub open spec fn list_len(self) -> int {
        sat_add(self.cpus.len() as int, 1)
    }

    /// The view after the list selection has moved in direction `dir`.
    pub open spec fn moved(self, dir: MoveSelection) -> CpuView<T> {
        CpuView {
            selection: match self.selection {
                Some(s) => Some(moved_index(s as int, spec_list_move(dir), self.list_len()) as usize),
                None => None,
            },
            ..self
        }
    }

    pub open spec fn with_window(self, window: DataWindowView) -> CpuView<T> {
        CpuView { window, ..self }
    }

    pub open spec fn with_focus(self, focus: Focus) -> CpuView<T> {
        CpuView { focus, ..self }
    }

    /// The number of samples by which the chart pans and zooms.
    pub open spec fn step(self) -> int {
        self.config.spec_index_step()
    }

    /// The view after `key`, and whether the key was used. With the list focused a
    /// navigation key moves the selection; with the chart focused down and up zoom out
    /// and in, left and right pan to older and newer samples. Otherwise the filter key
    /// moves the focus to the other part.
    pub open spec fn after_key(self, key: Key) -> (CpuView<T>, EventState) {
        let kc = self.config.key_config;
        let handled: Option<CpuView<T>> = match self.focus {
            Focus::CPUList => match spec_common_nav(key, kc) {
                Some(dir) => Some(self.moved(dir)),
                None => None,
            },
            Focus::Chart => if key == kc.move_down {
                Some(self.with_window(self.window.zoom_out(self.step())))
            } else if key == kc.move_up {
                Some(self.with_window(self.window.zoom_in(self.step())))
            } else if key == kc.move_left {
                Some(self.with_window(self.window.pan_positive(self.step())))
            } else if key == kc.move_right {
                Some(self.with_window(self.window.pan_negative(self.step())))
            } else {
                None
            },
        };
        match handled {
            Some(v) => (v, EventState::Consumed),
            None => if key == kc.filter {
                (
                    self.with_focus(
                        match self.focus {
                            Focus::CPUList => Focus::Chart,
                            Focus::Chart => Focus::CPUList,
                        },
                    ),
                    EventState::Consumed,
                )
            } else {
                (self, EventState::NotConsumed)
            },
        }
    }

    /// The view after a click at (`col`, `row`): a click on the chart focuses the chart,
    /// one on the list the list.
    pub open spec fn after_click(self, col: u16, row: u16) -> (CpuView<T>, EventState) {
        if self.chart_area matches Some(a) && a.spec_contains(col, row) {
            (self.with_focus(Focus::Chart), EventState::Consumed)
        } else if self.list_area matches Some(a) && a.spec_contains(col, row) {
            (self.with_focus(Focus::CPUList), EventState::Consumed)
        } else {
            (self, EventState::NotConsumed)
        }
    }

    /// The view after `mouse`. The wheel moves the list selection (without using the
    /// event) or zooms the chart (using it); a left click then moves the focus.
    pub open spec fn after_mouse(self, mouse: Mouse) -> (CpuView<T>, EventState) {
        let scrolled: (CpuView<T>, bool) = match self.focus {
            Focus::CPUList => match mouse.kind {
                MouseKind::ScrollDown => (self.moved(MoveSelection::Down), false),
                MouseKind::ScrollUp => (self.moved(MoveSelection::Up), false),
                _ => (self, false),
            },
            Focus::Chart => match mouse.kind {
                MouseKind::ScrollDown => (self.with_window(self.window.zoom_out(self.step())), true),
                MouseKind::ScrollUp => (self.with_window(self.window.zoom_in(self.step())), true),
                _ => (self, false),
            },
        };
        if scrolled.1 {
            (scrolled.0, EventState::Consumed)
        } else if mouse.kind == MouseKind::LeftClick {
            scrolled.0.after_click(mouse.column, mouse.row)
        } else {
            (scrolled.0, EventState::NotConsumed)
        }
    }

    /// The processor whose line is selected; none when the line for all is selected.
    pub open spec fn cpu_selection(self) -> Option<usize> {
        match self.selection {
            Some(s) => if s == 0 {
                None
            } else {
                Some((s - 1) as usize)
            },
            None => None,
        }
    }
}

/// A key or mouse event keeps the selected line inside the processor list.
pub proof fn lemma_events_keep_selection_in_list<T>(v: CpuView<T>, key: Key, mouse: Mouse)
    requires
        v.selection matches Some(s) && s < v.list_len(),
    ensures
        v.after_key(key).0.selection matches Some(s) && s < v.list_len(),
        v.after_mouse(mouse).0.selection matches Some(s) && s < v.list_len(),
        v.after_key(key).0.cpus == v.cpus,
        v.after_mouse(mouse).0.cpus == v.cpus,
{
    let s = v.selection->0;
    crate::components::utils::selection::lemma_move_stays_in_list(s as int, ListMove::Up, v.list_len());
    crate::components::utils::selection::lemma_move_stays_in_list(s as int, ListMove::Down, v.list_len());
    crate::components::utils::selection::lemma_move_stays_in_list(s as int, ListMove::Top, v.list_len());
    crate::components::utils::selection::lemma_move_stays_in_list(s as int, ListMove::Bottom, v.list_len());
}

/// The processor view: a chart of each processor's usage over time and a list to choose
/// which processors the chart shows.
pub struct CPUComponent<T> {
    cpus: BTreeMap<usize, BoundedQueueModel<T>>,
    selection_state: SelectionState,
    selection_offset: usize,
    data_window: DataWindow,
    chart_area: Option<Area>,
    list_area: Option<Area>,
    focus: Focus,
    config: Config,
}

impl<T> View for CPUComponent<T> {
    type V = CpuView<T>;

    closed spec fn view(&self) -> CpuView<T> {
        CpuView {
            cpus: queues_view(self.cpus@),
            selection: self.selection_state.selection,
            window: self.data_window@,
            chart_area: self.chart_area,
            list_area: self.list_area,
            focus: self.focus,
            config: self.config,
        }
    }
}

impl<T> CPUComponent<T> {
    /// The settings hold valid timing, the chart window lies inside the sample buffer,
    /// and every listed processor has at least one sample and at most a buffer's worth.
    pub closed spec fn wf(&self) -> bool {
        &&& self.config.valid_timing()
        &&& self.config.spec_buffer_capacity() > 0
        &&& self.selection_offset == 1
        &&& self.data_window@.wf()
        &&& self.data_window@.capacity == self.config.spec_buffer_capacity()
        &&& forall|id: usize| #[trigger]
            self.cpus@.contains_key(id) ==> {
                &&& self.cpus@[id].spec_capacity() == self.config.spec_buffer_capacity()
                &&& 0 < self.cpus@[id]@.len() <= self.config.spec_buffer_capacity()
            }
    }

    /// Adds each `(id, sample)` to the queue of its processor, creating the queue of a
    /// processor seen for the first time.
    fn add_items(&mut self, items: Vec<(usize, T)>)
        requires
            old(self).wf(),
        ensures
            final(self).wf(),
            final(self)@ == (CpuView {
                cpus: add_cpu_items(
                    old(self)@.cpus,
                    old(self).config.spec_buffer_capacity() as nat,
                    items@,
                ),
                ..old(self)@
            }),
    {
        let capacity = self.config.buffer_capacity();
        let ghost start = queues_view(self.cpus@);
        let ghost all = items@;
        let total = items.len();
        let mut rest = items;
        let mut k: usize = 0;
        while rest.len() > 0
            invariant
                self.wf(),
                capacity == self.config.spec_buffer_capacity(),
                self.config == old(self).config,
                self.selection_state == old(self).selection_state,
                self.data_window@ == old(self).data_window@,
                self.chart_area == old(self).chart_area,
                self.list_area == old(self).list_area,
                self.focus == old(self).focus,
                k + rest@.len() == all.len(),
                all.len() == total,
                rest@ == all.skip(k as int),
                start == queues_view(old(self).cpus@),
                queues_view(self.cpus@) == add_cpu_items(start, capacity as nat, all.take(k as int)),
            decreases rest@.len(),
        {
            let ghost before = queues_view(self.cpus@);
            let (id, item) = rest.remove(0);
            assert(all.take(k + 1).drop_last() == all.take(k as int));
            assert(all.take(k + 1).last() == all[k as int]);
            assert(all[k as int] == (id, item));
            match self.cpus.remove(&id) {
                Some(mut queue) => {
                    queue.add_item(item);
                    self.cpus.insert(id, queue);
                },
                None => {
                    let mut queue = BoundedQueueModel::new(capacity);
                    queue.add_item(item);
                    self.cpus.insert(id, queue);
                },
            }
            assert(queues_view(self.cpus@) =~= before.insert(
                id,
                bounded_push(queue_or_empty(before, id), capacity as nat, item),
            ));
            k = k + 1;
            assert(rest@ =~= all.skip(k as int));
        }
        assert(all.take(k as int) =~= all);
    }

    /// A processor view of the first samples `cpus`, each with its processor's id. The list
    /// selects its first line when there are processors; the chart shows the default
    /// time span from the newest sample, and the list has the focus.
    pub fn new(config: Config, cpus: Vec<(usize, T)>) -> (r: Self)
        requires
            config.valid_timing(),
            2 <= config.spec_default_window() <= config.spec_buffer_capacity(),
        ensures
            r.wf(),
            r@.cpus == add_cpu_items(Map::empty(), config.spec_buffer_capacity() as nat, cpus@),
            r@.selection == (if r@.cpus.len() > 0 { Some(0usize) } else { None }),
            r@.window == (DataWindowView {
                offset: 0,
                length: config.spec_default_window(),
                capacity: config.spec_buffer_capacity(),
            }),
            r@.chart_area is None,
            r@.list_area is None,
            r@.focus == Focus::CPUList,
            r@.config == config,
    {
        let capacity = config.buffer_capacity();
        let length = config.default_window();
        let data_window = DataWindow::new(0, length, capacity).unwrap();
        let mut component = Self {
            cpus: BTreeMap::new(),
            selection_state: SelectionState::new(None),
            selection_offset: 1,
            data_window,
            chart_area: None,
            list_area: None,
            focus: Focus::CPUList,
            config,
        };
        assert(queues_view(component.cpus@) =~= Map::empty());
        component.add_items(cpus);
        let selection = if component.cpus.len() > 0 {
            Some(0)
        } else {
            None
        };
        proof {
            assert(queues_view(component.cpus@).dom() =~= component.cpus@.dom());
        }
        component.selection_state.set_selection(selection);
        component
    }

    /// Adds the new samples `cpus`, each with its processor's id.
    pub fn update(&mut self, cpus: Vec<(usize, T)>)
        requires
            old(self).wf(),
        ensures
            final(self).wf(),
            final(self)@ == (CpuView {
                cpus: add_cpu_items(
                    old(self)@.cpus,
                    old(self)@.config.spec_buffer_capacity() as nat,
                    cpus@,
                ),
                ..old(self)@
            }),
    {
        self.add_items(cpus);
    }

    fn handle_move_selection(&mut self, dir: MoveSelection)
        requires
            old(self).wf(),
        ensures
            final(self).wf(),
            final(self)@ == old(self)@.moved(dir),
    {
        let len = self.cpus.len();
        let offset = self.selection_offset;
        proof {
            assert(queues_view(self.cpus@).dom() =~= self.cpus@.dom());
        }
        self.selection_state.move_selection(list_move(dir), len.saturating_add(offset));
    }

    fn handle_mouse_click_on_chart(&mut self, click_x: u16, click_y: u16) -> (r: bool)
        ensures
            r == (old(self).chart_area matches Some(a) && a.spec_contains(click_x, click_y)),
            *final(self) == (if r {
                CPUComponent { focus: Focus::Chart, ..*old(self) }
            } else {
                *old(self)
            }),
    {
        match self.chart_area {
            Some(area) => {
                if area.contains(click_x, click_y) {
                    self.focus = Focus::Chart;
                    return true;
                }
                false
            },
            None => false,
        }
    }

    fn handle_mouse_click_on_list(&mut self, click_x: u16, click_y: u16) -> (r: bool)
        ensures
            r == (old(self).list_area matches Some(a) && a.spec_contains(click_x, click_y)),
            *final(self) == (if r {
                CPUComponent { focus: Focus::CPUList, ..*old(self) }
            } else {
                *old(self)
            }),
    {
        match self.list_area {
            Some(area) => {
                if area.contains(click_x, click_y) {
                    self.focus = Focus::CPUList;
                    return true;
                }
                false
            },
            None => false,
        }
    }

    /// Handles a key press (see `CpuView::after_key`).
    pub fn key_event(&mut self, key: Key) -> (r: EventState)
        requires
            old(self).wf(),
        ensures
            final(self).wf(),
            (final(self)@, r) == old(self)@.after_key(key),
    {
        let key_config = self.config.key_config;
        let idx_step = self.config.index_step();
        match self.focus {
            Focus::CPUList => {
                if let Some(dir) = common_nav(key, &key_config) {
                    self.handle_move_selection(dir);
                    return EventState::Consumed;
                }
            },
            Focus::Chart => {
                if key == key_config.move_down {
                    self.data_window.zoom_out(idx_step);
                    return EventState::Consumed;
                }
                if key == key_config.move_up {
                    self.data_window.zoom_in(idx_step);
                    return EventState::Consumed;
                }
                if key == key_config.move_left {
                    self.data_window.pan_positive(idx_step);
                    return EventState::Consumed;
                }
                if key == key_config.move_right {
                    self.data_window.pan_negative(idx_step);
                    return EventState::Consumed;
                }
            },
        }
        if key == key_config.filter {
            match self.focus {
                Focus::CPUList => {
                    self.focus = Focus::Chart;
                },
                Focus::Chart => {
                    self.focus = Focus::CPUList;
                },
            }
            return EventState::Consumed;
        }
        EventState::NotConsumed
    }

    /// Handles a mouse event (see `CpuView::after_mouse`).
    pub fn mouse_event(&mut self, mouse: Mouse) -> (r: EventState)
        requires
            old(self).wf(),
        ensures
            final(self).wf(),
            (final(self)@, r) == old(self)@.after_mouse(mouse),
    {
        let idx_step = self.config.index_step();
        match self.focus {
            Focus::CPUList => {
                match mouse.kind {
                    MouseKind::ScrollDown => {
                        self.handle_move_selection(MoveSelection::Down);
                    },
                    MouseKind::ScrollUp => {
                        self.handle_move_selection(MoveSelection::Up);
                    },
                    _ => {},
                }
            },
            Focus::Chart => {
                match mouse.kind {
                    MouseKind::ScrollDown => {
                        self.data_window.zoom_out(idx_step);
                        return EventState::Consumed;
                    },
                    MouseKind::ScrollUp => {
                        self.data_window.zoom_in(idx_step);
                        return EventState::Consumed;
                    },
                    _ => {},
                }
            },
        }
        if mouse.kind == MouseKind::LeftClick {
            if self.handle_mouse_click_on_chart(mouse.column, mouse.row) {
                return EventState::Consumed;
            }
            if self.handle_mouse_click_on_list(mouse.column, mouse.row) {
                return EventState::Consumed;
            }
        }
        EventState::NotConsumed
    }

    /// Records where the chart and the list were drawn, for the clicks that follow.
    pub fn set_areas(&mut self, chart_area: Area, list_area: Area)
        requires
            old(self).wf(),
        ensures
            final(self).wf(),
            final(self)@ == (CpuView {
                chart_area: Some(chart_area),
                list_area: Some(list_area),
                ..old(self)@
            }),
    {
        self.chart_area = Some(chart_area);
        self.list_area = Some(list_area);
    }

    /// The processor whose line is selected; none when the line for all is selected or
    /// nothing is.
    pub fn cpu_selection(&self) -> (r: Option<usize>)
        requires
            self.wf(),
        ensures
            r == self@.cpu_selection(),
    {
        match self.selection_state.selection {
            Some(selection) => {
                if selection == 0 {
                    None
                } else {
                    Some(selection - self.selection_offset)
                }
            },
            None => None,
        }
    }

    /// The processors the chart shows: every listed one, by increasing id, when the line
    /// for all is selected; otherwise the selected processor if it is listed.
    pub fn chart_ids(&self) -> (r: Vec<usize>)
        requires
            self.wf(),
        ensures
            self@.selection == Some(0usize) ==> {
                &&& r@.to_set() == self@.cpus.dom()
                &&& forall|i: int, j: int| 0 <= i < j < r@.len() ==> r@[i] < r@[j]
            },
            self@.selection != Some(0usize) ==> r@ == (match self@.cpu_selection() {
                Some(id) => if self@.cpus.contains_key(id) {
                    seq![id]
                } else {
                    Seq::empty()
                },
                None => Seq::empty(),
            }),
    {
        proof {
            assert(queues_view(self.cpus@).dom() =~= self.cpus@.dom());
        }
        if self.selection_state.selection == Some(0) {
            let mut ids: Vec<usize> = Vec::new();
            for k in it: self.cpus.keys()
                invariant
                    ids@ == it.seq().take(it.index() as int).map_values(|x: &usize| *x),
            {
                ids.push(*k);
                proof {
                    assert(it.seq().take(it.index() + 1) =~= it.seq().take(it.index() as int).push(it.seq()[it.index() as int]));
                }
                assert(ids@ =~= it.seq().take(it.index() + 1).map_values(|x: &usize| *x));
            }
            proof {
                let keys = spec_keys_iter(&self.cpus).remaining();
                assert(ids@ =~= keys.unref());
                assert(keys.unref() =~= keys.map_values(|x: &usize| *x));
                vstd::std_specs::btree::axiom_spec_keys_iter(&self.cpus);
                assert(ids@.to_set() =~= self.cpus@.dom());
                lemma_keys_increase(&self.cpus);
            }
            ids
        } else {
            let mut ids: Vec<usize> = Vec::new();
            if let Some(id) = self.cpu_selection() {
                if self.cpus.contains_key(&id) {
                    ids.push(id);
                }
            }
            ids
        }
    }

    pub fn selection(&self) -> (r: Option<usize>)
        ensures
            r == self@.selection,
    {
        self.selection_state.selection
    }

    pub fn focus(&self) -> (r: Focus)
        ensures
            r == self@.focus,
    {
        self.focus
    }

    pub fn data_window(&self) -> (r: &DataWindow)
        ensures
            r@ == self@.window,
    {
        &self.data_window
    }

    /// The sample queues by processor id.
    pub fn cpus(&self) -> (r: &BTreeMap<usize, BoundedQueueModel<T>>)
        ensures
            queues_view(r@) == self@.cpus,
    {
        &self.cpus
    }
}

/// The keys of an ordered map come out in increasing order.
proof fn lemma_keys_increase<V>(m: &BTreeMap<usize, V>)
    ensures
        forall|i: int, j: int|
            0 <= i < j < spec_keys_iter(m).remaining().len() ==> *spec_keys_iter(m).remaining()[i]
                < *spec_keys_iter(m).remaining()[j],
{
    broadcast use vstd::laws_cmp::group_laws_cmp;

    let keys = spec_keys_iter(m).remaining();
    vstd::std_specs::btree::axiom_spec_keys_iter(m);
    assert(vstd::laws_cmp::obeys_cmp::<usize>());
    vstd::std_specs::btree::axiom_increasing_seq_meaning(keys);
    assert forall|i: int, j: int| 0 <= i < j < keys.len() implies *keys[i] < *keys[j] by {
        assert(OrdSpec::cmp_spec(&keys[i], &keys[j]) is Less);
    }
}

} // verus!
