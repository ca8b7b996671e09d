use vstd::prelude::*;
use crate::components::filter::{FilterComponent, filter_after_key};
use crate::components::utils::selection::{SelectionState, moved_index};
use crate::components::utils::vertical_scroll::{VerticalScroll, scroll_top};
use crate::components::{common_nav, spec_common_nav, list_move, spec_list_move, EventState, MoveSelection};
use crate::config::{Config, KeyConfig};
use crate::input::{Key, Mouse, MouseKind};
use crate::models::items::process_item::ProcessItemSortOrder;
use crate::models::process_table::{ProcessRow, is_table_view, row_passes, table_view};

verus! {

/// The part of the process view that receives keys.
#[derive(PartialEq, Eq, Structural, Clone, Copy, Debug)]
pub enum Focus {
    Filter,
    List,
}

/// How a row of the process table is styled.
#[derive(PartialEq, Eq, Structural, Clone, Copy, Debug)]
pub enum RowStyle {
    Selected,
    Focused,
    SelectedNotFocused,
    NotFocused,
}

/// The filter that a typed text stands for: none while nothing is typed.
pub open spec fn filter_of(text: Seq<char>) -> Option<Seq<char>> {
    if text.len() == 0 {
        None
    } else {
        Some(text)
    }
}

/// The sort order that `key` asks for, if any, checked in the order pid, processor use,
/// memory use, name, increasing before decreasing.
pub open spec fn spec_sort_order_for_key(key: Key, kc: KeyConfig) -> Option<ProcessItemSortOrder> {
    if key == kc.sort_pid_inc {
        Some(ProcessItemSortOrder::PidInc)
    } else if key == kc.sort_pid_dec {
        Some(ProcessItemSortOrder::PidDec)
    } else if key == kc.sort_cpu_usage_inc {
        Some(ProcessItemSortOrder::CpuUsageInc)
    } else if key == kc.sort_cpu_usage_dec {
        Some(ProcessItemSortOrder::CpuUsageDec)
    } else if key == kc.sort_memory_usage_inc {
        Some(ProcessItemSortOrder::MemoryUsageInc)
    } else if key == kc.sort_memory_usage_dec {
        Some(ProcessItemSortOrder::MemoryUsageDec)
    } else if key == kc.sort_name_inc {
        Some(ProcessItemSortOrder::NameInc)
    } else if key == kc.sort_name_dec {
        Some(ProcessItemSortOrder::NameDec)
    } else {
        None
    }
}

/// The key that the settings bind to the sort order `order`, by its name
/// (`sort_memory_usage_inc` for `MemoryUsageInc`, and so on); none for the orders that
/// no key selects.
pub open spec fn key_named_for(kc: KeyConfig, order: ProcessItemSortOrder) -> Option<Key> {
    match order {
        ProcessItemSortOrder::PidInc => Some(kc.sort_pid_inc),
        ProcessItemSortOrder::PidDec => Some(kc.sort_pid_dec),
        ProcessItemSortOrder::NameInc => Some(kc.sort_name_inc),
        ProcessItemSortOrder::NameDec => Some(kc.sort_name_dec),
        ProcessItemSortOrder::CpuUsageInc => Some(kc.sort_cpu_usage_inc),
        ProcessItemSortOrder::CpuUsageDec => Some(kc.sort_cpu_usage_dec),
        ProcessItemSortOrder::MemoryUsageInc => Some(kc.sort_memory_usage_inc),
        ProcessItemSortOrder::MemoryUsageDec => Some(kc.sort_memory_usage_dec),
        _ => None,
    }
}

/// No key is bound to two sort orders.
pub open spec fn sort_keys_distinct(kc: KeyConfig) -> bool {
    forall|a: ProcessItemSortOrder, b: ProcessItemSortOrder|
        #[trigger] key_named_for(kc, a) is Some && #[trigger] key_named_for(kc, b) == key_named_for(kc, a) ==> a == b
}

/// Each sort key selects the order it is named after: a key selects an order only if
/// the settings bind it to that order, a key bound to no order selects none, and where
/// no key is bound to two orders, each bound key selects its own order.
pub proof fn lemma_sort_keys_select_their_order(key: Key, kc: KeyConfig)
    ensures
        spec_sort_order_for_key(key, kc) matches Some(o) ==> key_named_for(kc, o) == Some(key),
        spec_sort_order_for_key(key, kc) is None <==> (forall|o: ProcessItemSortOrder|
            #[trigger] key_named_for(kc, o) != Some(key)),
        sort_keys_distinct(kc) ==> forall|o: ProcessItemSortOrder|
            #[trigger] key_named_for(kc, o) == Some(key) ==> spec_sort_order_for_key(key, kc) == Some(o),
{
    if spec_sort_order_for_key(key, kc) is None {
        assert forall|o: ProcessItemSortOrder| #[trigger] key_named_for(kc, o) != Some(key) by {
            match o {
                ProcessItemSortOrder::PidInc => {},
                _ => {},
            }
        }
    } else {
        let o = spec_sort_order_for_key(key, kc)->0;
        assert(key_named_for(kc, o) == Some(key));
    }
    if sort_keys_distinct(kc) {
        assert forall|o: ProcessItemSortOrder| #[trigger] key_named_for(kc, o) == Some(key) implies spec_sort_order_for_key(
            key,
            kc,
        ) == Some(o) by {
            let found = spec_sort_order_for_key(key, kc)->0;
            assert(key_named_for(kc, found) == Some(key));
        }
    }
}

/// The default settings bind a different key to each sort order.
pub proof fn lemma_default_sort_keys_distinct()
    ensures
        sort_keys_distinct(KeyConfig::spec_default()),
{
    let kc = KeyConfig::spec_default();
    assert forall|a: ProcessItemSortOrder, b: ProcessItemSortOrder|
        #[trigger] key_named_for(kc, a) is Some && #[trigger] key_named_for(kc, b) == key_named_for(kc, a)
            implies a == b by {
        match a {
            ProcessItemSortOrder::PidInc => {},
            _ => {},
        }
    }
}

/// The sort order that `key` asks for (see `spec_sort_order_for_key`).
pub fn match_sort_order_key(key: Key, key_config: &KeyConfig) -> (r: Option<ProcessItemSortOrder>)
    ensures
        r == spec_sort_order_for_key(key, *key_config),
        r matches Some(o) ==> key_named_for(*key_config, o) == Some(key),
{
    proof {
        lemma_sort_keys_select_their_order(key, *key_config);
    }
    if key == key_config.sort_pid_inc {
        return Some(ProcessItemSortOrder::PidInc);
    }
    if key == key_config.sort_pid_dec {
        return Some(ProcessItemSortOrder::PidDec);
    }
    if key == key_config.sort_cpu_usage_inc {
        return Some(ProcessItemSortOrder::CpuUsageInc);
    }
    if key == key_config.sort_cpu_usage_dec {
        return Some(ProcessItemSortOrder::CpuUsageDec);
    }
    if key == key_config.sort_memory_usage_inc {
        return Some(ProcessItemSortOrder::MemoryUsageInc);
    }
    if key == key_config.sort_memory_usage_dec {
        return Some(ProcessItemSortOrder::MemoryUsageDec);
    }
    if key == key_config.sort_name_inc {
        return Some(ProcessItemSortOrder::NameInc);
    }
    if key == key_config.sort_name_dec {
        return Some(ProcessItemSortOrder::NameDec);
    }
    None
}

/// The selection after the rows on show have changed to `len` rows: none for an empty
/// table, the first row where nothing was selected, and otherwise the same line, moved
/// up to the last one where it lies past it.
pub open spec fn refreshed_selection(selection: Option<usize>, len: nat) -> Option<usize> {
    if len == 0 {
        None
    } else {
        match selection {
            Some(s) => if s > len - 1 {
                Some((len - 1) as usize)
            } else {
                Some(s)
            },
            None => Some(0usize),
        }
    }
}

/// After the rows on show change to `len` rows, a selected line that is still in the
/// table stays where it is, one past the end moves to the last line, nothing is selected
/// in an empty table, and a table that had no selection gets its first line selected:
/// the selection is never moved when it need not be, and always lies inside the table.
pub proof fn lemma_refresh_keeps_or_clamps_selection(selection: Option<usize>, len: nat)
    requires
        len <= usize::MAX,
    ensures
        len == 0 ==> refreshed_selection(selection, len) is None,
        len > 0 ==> refreshed_selection(selection, len) is Some && refreshed_selection(selection, len)->0 < len,
        len > 0 && selection is None ==> refreshed_selection(selection, len) == Some(0usize),
        selection is Some && selection->0 < len ==> refreshed_selection(selection, len) == selection,
        selection is Some && selection->0 >= len && len > 0 ==> refreshed_selection(selection, len) is Some
            && refreshed_selection(selection, len)->0 + 1 == len,
{
}

/// The selection after the filter has changed: the first row, none for an empty table.
pub open spec fn filtered_selection(len: nat) -> Option<usize> {
    if len == 0 {
        None
    } else {
        Some(0usize)
    }
}

/// The selection after a move in direction `dir` in a table of `len` rows.
pub open spec fn moved_selection(selection: Option<usize>, dir: MoveSelection, len: nat) -> Option<usize> {
    match selection {
        Some(s) => Some(moved_index(s as int, spec_list_move(dir), len as int) as usize),
        None => None,
    }
}

/// The header of a column: with an arrow up when the table is sorted by it increasing,
/// and down when decreasing.
pub open spec fn spec_header_with_sort(
    current: Option<ProcessItemSortOrder>,
    inc: ProcessItemSortOrder,
    dec: ProcessItemSortOrder,
    base: Seq<char>,
) -> Seq<char> {
    if current == Some(inc) {
        base + " \u{25b2}"@
    } else if current == Some(dec) {
        base + " \u{25bc}"@
    } else {
        base
    }
}

/// The header of a column (see `spec_header_with_sort`).
pub fn header_with_sort(
    current: Option<ProcessItemSortOrder>,
    inc: ProcessItemSortOrder,
    dec: ProcessItemSortOrder,
    base: &str,
) -> (r: String)
    ensures
        r@ == spec_header_with_sort(current, inc, dec, base@),
{
    let mut label = String::from_str(base);
    if current == Some(inc) {
        label.append(" \u{25b2}");
    } else if current == Some(dec) {
        label.append(" \u{25bc}");
    }
    label
}

/// The style of a row: whether the table has the focus and the row is selected.
pub open spec fn spec_row_style(focus: bool, selected: bool) -> RowStyle {
    if focus && selected {
        RowStyle::Selected
    } else if focus {
        RowStyle::Focused
    } else if selected {
        RowStyle::SelectedNotFocused
    } else {
        RowStyle::NotFocused
    }
}

/// The style of a row (see `spec_row_style`).
pub fn compute_row_style(focus: bool, selected: bool) -> (r: RowStyle)
    ensures
        r == spec_row_style(focus, selected),
{
    match (focus, selected) {
        (true, true) => RowStyle::Selected,
        (true, _) => RowStyle::Focused,
        (false, true) => RowStyle::SelectedNotFocused,
        _ => RowStyle::NotFocused,
    }
}

/// The process view: a table of the processes, filtered by the text typed in the filter
/// line and sorted as the user asks, with a selected row.
pub struct ProcessComponent {
    rows: Vec<ProcessRow>,
    view: Vec<usize>,
    ui_selection: SelectionState,
    sort: Option<ProcessItemSortOrder>,
    scroll: VerticalScroll,
    filter_component: FilterComponent,
    focus: Focus,
    config: Config,
}

impl ProcessComponent {
    /// The processes, as the system listed them.
    pub closed spec fn rows(&self) -> Seq<ProcessRow> {
        self.rows@
    }

    /// The indices of the rows on show, in the order shown.
    pub closed spec fn shown(&self) -> Seq<usize> {
        self.view@
    }

    /// The selected line of the table.
    pub closed spec fn selection(&self) -> Option<usize> {
        self.ui_selection.selection
    }

    pub closed spec fn sort_order(&self) -> Option<ProcessItemSortOrder> {
        self.sort
    }

    /// The text typed in the filter line.
    pub closed spec fn filter_text(&self) -> Seq<char> {
        self.filter_component.text()
    }

    pub closed spec fn spec_focus(&self) -> Focus {
        self.focus
    }

    pub closed spec fn spec_config(&self) -> Config {
        self.config
    }

    /// The first visible line of the table.
    pub closed spec fn top(&self) -> int {
        self.scroll@.top
    }

    /// The rows on show are the rows that pass the filter, in the sort order, and a line
    /// is selected exactly when the table is not empty.
    pub closed spec fn wf(&self) -> bool {
        &&& is_table_view(self.view@, self.rows@, self.sort, filter_of(self.filter_component.text()))
        &&& (self.ui_selection.selection is Some <==> self.view@.len() > 0)
        &&& (self.ui_selection.selection matches Some(s) ==> s < self.view@.len())
    }

    /// What `wf` says of the table: the rows on show are the indices of exactly the rows
    /// that pass the filter, each once, in the sort order, and a line is selected exactly
    /// when some row is shown.
    pub proof fn lemma_shown_rows(&self)
        requires
            self.wf(),
        ensures
            is_table_view(self.shown(), self.rows(), self.sort_order(), filter_of(self.filter_text())),
            self.selection() is Some <==> self.shown().len() > 0,
            self.selection() matches Some(s) ==> s < self.shown().len(),
    {
    }

    /// With no filter text every row is on show.
    pub proof fn lemma_unfiltered_shows_all(&self)
        requires
            self.wf(),
            self.filter_text().len() == 0,
        ensures
            forall|j: usize| j < self.rows().len() ==> #[trigger] self.shown().contains(j),
    {
        assert forall|j: usize| j < self.rows().len() implies #[trigger] self.shown().contains(j) by {
            assert(row_passes(self.rows()[j as int], None));
        }
    }

    /// What a key does (see `key_event`).
    pub open spec fn key_step(self, next: Self, key: Key, r: EventState) -> bool {
        &&& next.rows() == self.rows()
        &&& next.spec_config() == self.spec_config()
        &&& next.top() == self.top()
        &&& ({
            let kc = self.spec_config().key_config;
            let unchanged_list = next.sort_order() == self.sort_order()
                && next.filter_text() == self.filter_text()
                && next.selection() == self.selection();
            if key == kc.filter && self.spec_focus() == Focus::List {
                r == EventState::Consumed && next.spec_focus() == Focus::Filter && unchanged_list
            } else if self.spec_focus() == Focus::Filter && (key is Char || key is Backspace) {
                &&& r == EventState::Consumed
                &&& next.spec_focus() == Focus::Filter
                &&& next.filter_text() == filter_after_key(self.filter_text(), key)
                &&& next.sort_order() == self.sort_order()
                &&& next.selection() == filtered_selection(next.shown().len())
            } else if self.spec_focus() == Focus::Filter && key == kc.enter {
                r == EventState::Consumed && next.spec_focus() == Focus::List && unchanged_list
            } else if self.spec_focus() == Focus::List && spec_common_nav(key, kc) is Some {
                &&& r == EventState::Consumed
                &&& next.spec_focus() == Focus::List
                &&& next.sort_order() == self.sort_order()
                &&& next.filter_text() == self.filter_text()
                &&& next.selection() == moved_selection(
                    self.selection(),
                    spec_common_nav(key, kc)->0,
                    self.shown().len(),
                )
            } else if self.spec_focus() == Focus::List && spec_sort_order_for_key(key, kc) is Some {
                &&& r == EventState::Consumed
                &&& next.spec_focus() == Focus::List
                &&& next.sort_order() == spec_sort_order_for_key(key, kc)
                &&& next.filter_text() == self.filter_text()
                &&& next.selection() == refreshed_selection(self.selection(), next.shown().len())
            } else {
                r == EventState::NotConsumed && next.spec_focus() == self.spec_focus()
                    && unchanged_list
            }
        })
    }

    /// What a mouse event does (see `mouse_event`).
    pub open spec fn mouse_step(self, next: Self, mouse: Mouse, r: EventState) -> bool {
        &&& next.rows() == self.rows()
        &&& next.sort_order() == self.sort_order()
        &&& next.filter_text() == self.filter_text()
        &&& next.spec_focus() == self.spec_focus()
        &&& next.spec_config() == self.spec_config()
        &&& next.top() == self.top()
        &&& next.selection() == (match mouse.kind {
            MouseKind::ScrollDown => moved_selection(self.selection(), MoveSelection::Down, self.shown().len()),
            MouseKind::ScrollUp => moved_selection(self.selection(), MoveSelection::Up, self.shown().len()),
            _ => self.selection(),
        })
        &&& r == (match mouse.kind {
            MouseKind::ScrollDown | MouseKind::ScrollUp => EventState::Consumed,
            _ => EventState::NotConsumed,
        })
    }

    fn update_view(&mut self)
        ensures
            is_table_view(final(self).view@, final(self).rows@, final(self).sort, filter_of(final(self).filter_component.text())),
            final(self).rows == old(self).rows,
            final(self).ui_selection == old(self).ui_selection,
            final(self).sort == old(self).sort,
            final(self).scroll == old(self).scroll,
            final(self).filter_component == old(self).filter_component,
            final(self).focus == old(self).focus,
            final(self).config == old(self).config,
    {
        let filter = self.filter_component.filter_contents();
        let view = table_view(&self.rows, self.sort, filter);
        proof {
            assert(filter_of(self.filter_component.text()) == match filter {
                Some(f) => Some(f@),
                None => None,
            });
        }
        self.view = view;
    }

    /// A table of the processes `rows`, unsorted and unfiltered, with its first row
    /// selected if there is one; the table has the focus.
    pub fn new(config: Config, rows: Vec<ProcessRow>) -> (r: Self)
        ensures
            r.wf(),
            r.rows() == rows@,
            r.sort_order() is None,
            r.filter_text() == Seq::<char>::empty(),
            r.selection() == filtered_selection(rows@.len()),
            r.spec_focus() == Focus::List,
            r.spec_config() == config,
            r.top() == 0,
    {
        let ui_selection = if rows.len() == 0 {
            SelectionState::new(None)
        } else {
            SelectionState::new(Some(0))
        };
        let filter_component = FilterComponent::new(config);
        let mut component = Self {
            rows,
            view: Vec::new(),
            ui_selection,
            sort: None,
            scroll: VerticalScroll::new(),
            filter_component,
            focus: Focus::List,
            config,
        };
        component.update_view();
        proof {
            assert(filter_of(component.filter_component.text()) is None);
            if component.rows@.len() > 0 {
                assert(row_passes(component.rows@[0], None));
                assert(component.view@.contains(0usize));
            } else if component.view@.len() > 0 {
                assert(component.view@[0] < component.rows@.len());
            }
        }
        component
    }

    fn handle_move_selection(&mut self, dir: MoveSelection)
        requires
            old(self).wf(),
        ensures
            final(self).wf(),
            final(self).selection() == moved_selection(old(self).selection(), dir, old(self).shown().len()),
            final(self).rows == old(self).rows,
            final(self).view == old(self).view,
            final(self).sort == old(self).sort,
            final(self).scroll == old(self).scroll,
            final(self).filter_component == old(self).filter_component,
            final(self).focus == old(self).focus,
            final(self).config == old(self).config,
    {
        let len = self.view.len();
        proof {
            if let Some(s) = self.ui_selection.selection {
                crate::components::utils::selection::lemma_move_stays_in_list(s as int, spec_list_move(dir), len as int);
            }
        }
        self.ui_selection.move_selection(list_move(dir), len);
    }

    fn handle_refresh_selection(&mut self)
        requires
            is_table_view(old(self).view@, old(self).rows@, old(self).sort, filter_of(old(self).filter_component.text())),
        ensures
            final(self).wf(),
            final(self).selection() == refreshed_selection(old(self).selection(), old(self).shown().len()),
            final(self).rows == old(self).rows,
            final(self).view == old(self).view,
            final(self).sort == old(self).sort,
            final(self).scroll == old(self).scroll,
            final(self).filter_component == old(self).filter_component,
            final(self).focus == old(self).focus,
            final(self).config == old(self).config,
    {
        let len = self.view.len();
        let max_idx = len.saturating_sub(1);
        let new_ui_selection = if len == 0 {
            None
        } else {
            match self.ui_selection.selection {
                Some(ui_selection) => {
                    if ui_selection > max_idx {
                        Some(max_idx)
                    } else {
                        Some(ui_selection)
                    }
                },
                None => Some(0),
            }
        };
        self.ui_selection.set_selection(new_ui_selection);
    }

    fn handle_filter_selection(&mut self)
        requires
            is_table_view(old(self).view@, old(self).rows@, old(self).sort, filter_of(old(self).filter_component.text())),
        ensures
            final(self).wf(),
            final(self).selection() == filtered_selection(old(self).shown().len()),
            final(self).rows == old(self).rows,
            final(self).view == old(self).view,
            final(self).sort == old(self).sort,
            final(self).scroll == old(self).scroll,
            final(self).filter_component == old(self).filter_component,
            final(self).focus == old(self).focus,
            final(self).config == old(self).config,
    {
        let len = self.view.len();
        let new_ui_selection = if len == 0 {
            None
        } else {
            Some(0)
        };
        self.ui_selection.set_selection(new_ui_selection);
    }

    /// The row the selected line shows.
    pub fn selected_row(&self) -> (r: Option<usize>)
        requires
            self.wf(),
        ensures
            r == (match self.selection() {
                Some(s) => Some(self.shown()[s as int]),
                None => None,
            }),
    {
        match self.ui_selection.selection {
            Some(ui_selection) => Some(self.view[ui_selection]),
            None => None,
        }
    }

    /// Replaces the processes with `rows`, listed again with the same filter and order;
    /// the selected line is kept where it still exists (see `refreshed_selection`).
    pub fn refresh(&mut self, rows: Vec<ProcessRow>)
        requires
            old(self).wf(),
        ensures
            final(self).wf(),
            final(self).rows() == rows@,
            final(self).selection() == refreshed_selection(old(self).selection(), final(self).shown().len()),
            final(self).sort_order() == old(self).sort_order(),
            final(self).filter_text() == old(self).filter_text(),
            final(self).spec_focus() == old(self).spec_focus(),
            final(self).spec_config() == old(self).spec_config(),
            final(self).top() == old(self).top(),
    {
        self.rows = rows;
        self.update_view();
        self.handle_refresh_selection();
    }

    /// Handles a key. With the table focused, the filter key moves the focus to the
    /// filter line, a navigation key moves the selection, and a sort key sorts the table
    /// (keeping the selected line where it can). With the filter line focused, a character
    /// or backspace edits the filter (and the first row is selected), and enter gives the
    /// focus back to the table. Other keys are not used.
    pub fn key_event(&mut self, key: Key) -> (r: EventState)
        requires
            old(self).wf(),
        ensures
            final(self).wf(),
            old(self).key_step(*final(self), key, r),
    {
        if key == self.config.key_config.filter && self.focus == Focus::List {
            self.focus = Focus::Filter;
            return EventState::Consumed;
        }
        if self.focus == Focus::Filter {
            if self.filter_component.key_event(key).is_consumed() {
                self.update_view();
                self.handle_filter_selection();
                return EventState::Consumed;
            }
            if key == self.config.key_config.enter {
                self.focus = Focus::List;
                return EventState::Consumed;
            }
        }
        if self.focus == Focus::List {
            let key_config = self.config.key_config;
            if let Some(move_dir) = common_nav(key, &key_config) {
                self.handle_move_selection(move_dir);
                return EventState::Consumed;
            }
            if let Some(sort_order) = match_sort_order_key(key, &key_config) {
                self.sort = Some(sort_order);
                self.update_view();
                self.handle_refresh_selection();
                return EventState::Consumed;
            }
        }
        EventState::NotConsumed
    }

    /// The wheel moves the selection one line; other mouse events are not used.
    pub fn mouse_event(&mut self, mouse: Mouse) -> (r: EventState)
        requires
            old(self).wf(),
        ensures
            final(self).wf(),
            old(self).mouse_step(*final(self), mouse, r),
    {
        match mouse.kind {
            MouseKind::ScrollDown => {
                self.handle_move_selection(MoveSelection::Down);
                EventState::Consumed
            },
            MouseKind::ScrollUp => {
                self.handle_move_selection(MoveSelection::Up);
                EventState::Consumed
            },
            _ => EventState::NotConsumed,
        }
    }

    /// Scrolls the table so the selected line shows among `visible_height` lines (back to
    /// the top when nothing is selected), and returns the visible rows: each row's index
    /// and whether its line is selected.
    pub fn visible_rows(&mut self, visible_height: usize) -> (r: Vec<(usize, bool)>)
        requires
            old(self).wf(),
        ensures
            final(self).wf(),
            final(self).rows() == old(self).rows(),
            final(self).shown() == old(self).shown(),
            final(self).selection() == old(self).selection(),
            final(self).sort_order() == old(self).sort_order(),
            final(self).filter_text() == old(self).filter_text(),
            final(self).spec_focus() == old(self).spec_focus(),
            final(self).spec_config() == old(self).spec_config(),
            old(self).selection() is None ==> final(self).top() == 0,
            old(self).selection() matches Some(s) ==> final(self).top() == scroll_top(
                if old(self).top() + visible_height <= usize::MAX { old(self).top() } else { 0 },
                visible_height as int,
                s as int,
            ),
            r@.len() == (if final(self).top() + visible_height <= final(self).shown().len() {
                visible_height as int
            } else if final(self).top() <= final(self).shown().len() {
                final(self).shown().len() - final(self).top()
            } else {
                0
            }),
            forall|k: int|
                0 <= k < r@.len() ==> #[trigger] r@[k] == (
                    final(self).shown()[final(self).top() + k],
                    final(self).selection() == Some((final(self).top() + k) as usize),
                ),
    {
        let len = self.view.len();
        match self.ui_selection.selection {
            None => {
                self.scroll.reset();
            },
            Some(idx) => {
                if self.scroll.get_top() > usize::MAX - visible_height {
                    self.scroll.reset();
                }
                self.scroll.update(idx, len, visible_height);
            },
        }
        let top = self.scroll.get_top();
        let mut visible: Vec<(usize, bool)> = Vec::new();
        let mut p = top;
        let end = if top <= len && visible_height <= len - top {
            top + visible_height
        } else if top <= len {
            len
        } else {
            top
        };
        while p < end
            invariant
                top <= p <= end,
                end <= len || end == top,
                len == self.view@.len(),
                visible@.len() == p - top,
                forall|k: int|
                    0 <= k < visible@.len() ==> #[trigger] visible@[k] == (
                        self.view@[top + k],
                        self.ui_selection.selection == Some((top + k) as usize),
                    ),
            decreases end - p,
        {
            let selected = self.ui_selection.selection == Some(p);
            visible.push((self.view[p], selected));
            p = p + 1;
        }
        visible
    }

    /// The selected line of the table.
    pub fn ui_selection(&self) -> (r: Option<usize>)
        ensures
            r == self.selection(),
    {
        self.ui_selection.selection
    }

    /// The first visible line of the table.
    pub fn first_visible(&self) -> (r: usize)
        ensures
            r == self.top(),
    {
        self.scroll.get_top()
    }

    /// The number of rows on show.
    pub fn shown_len(&self) -> (r: usize)
        ensures
            r == self.shown().len(),
    {
        self.view.len()
    }

    /// The rows on show, in the order shown.
    pub fn shown_rows(&self) -> (r: &[usize])
        ensures
            r@ == self.shown(),
    {
        self.view.as_slice()
    }

    /// The text typed in the filter line.
    pub fn filter_input(&self) -> (r: &str)
        ensures
            r@ == self.filter_text(),
    {
        self.filter_component.input_str()
    }

    pub fn focus(&self) -> (r: Focus)
        ensures
            r == self.spec_focus(),
    {
        self.focus
    }

    pub fn sort(&self) -> (r: Option<ProcessItemSortOrder>)
        ensures
            r == self.sort_order(),
    {
        self.sort
    }

    /// The processes, as the system listed them.
    pub fn process_rows(&self) -> (r: &[ProcessRow])
        ensures
            r@ == self.rows(),
    {
        self.rows.as_slice()
    }
}

} // verus!
