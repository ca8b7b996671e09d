use vstd::prelude::*;

verus! {

/// The first visible line of a list of `visual_height` lines that shows `selection`:
/// the view stays where it is while the selection is at least half a screen away from
/// either edge; otherwise it is moved so the selection sits half a screen from the top.
pub open spec fn scroll_top(current_top: int, visual_height: int, selection: int) -> int {
    if visual_height == 0 {
        0
    } else {
        let padding = visual_height / 2;
        let min_top = if selection >= padding { selection - padding } else { 0 };
        if selection < current_top + padding {
            min_top
        } else if selection >= current_top + visual_height - padding {
            min_top
        } else {
            current_top
        }
    }
}

/// The position of a vertical scroll bar: the first visible line and the number of lines.
pub struct VerticalScrollView {
    pub top: int,
    pub count: int,
}

pub struct VerticalScroll {
    top: usize,
    count: usize,
}

impl View for VerticalScroll {
    type V = VerticalScrollView;

    closed spec fn view(&self) -> VerticalScrollView {
        VerticalScrollView { top: self.top as int, count: self.count as int }
    }
}

fn calc_scroll_top(current_top: usize, visual_height: usize, selection: usize) -> (r: usize)
    requires
        current_top + visual_height <= usize::MAX,
    ensures
        r == scroll_top(current_top as int, visual_height as int, selection as int),
        visual_height > 0 ==> r <= selection < r + visual_height,
{
    if visual_height == 0 {
        return 0;
    }
    let padding = visual_height / 2;
    let min_top = selection.saturating_sub(padding);
    if selection < current_top + padding {
        min_top
    } else if selection >= current_top + visual_height - padding {
        min_top
    } else {
        current_top
    }
}

impl VerticalScroll {
    pub fn new() -> (r: Self)
        ensures
            r@ == (VerticalScrollView { top: 0, count: 0 }),
    {
        Self { top: 0, count: 0 }
    }

    pub fn get_top(&self) -> (r: usize)
        ensures
            r == self@.top,
    {
        self.top
    }

    pub fn reset(&mut self)
        ensures
            final(self)@ == (VerticalScrollView { top: 0, ..old(self)@ }),
    {
        self.top = 0;
    }

    /// Scrolls so that `selection` is visible in `visual_height` lines of a list of
    /// `selection_len` lines, and returns the new first visible line.
    pub fn update(&mut self, selection: usize, selection_len: usize, visual_height: usize) -> (r: usize)
        requires
            old(self)@.top + visual_height <= usize::MAX,
        ensures
            r == scroll_top(old(self)@.top, visual_height as int, selection as int),
            final(self)@ == (VerticalScrollView { top: r as int, count: selection_len as int }),
            visual_height > 0 ==> r <= selection < r + visual_height,
    {
        let new_top = calc_scroll_top(self.get_top(), visual_height, selection);
        self.count = selection_len;
        self.top = new_top;
        new_top
    }
}

} // verus!
