use vstd::prelude::*;

verus! {

/// Two points are needed to draw a line.
pub const MIN_WINDOW_LENGTH: usize = 2;

/// `a + b`, or `usize::MAX` where that overflows.
pub open spec fn sat_add(a: int, b: int) -> int {
    if a + b > usize::MAX { usize::MAX as int } else { a + b }
}

/// `a - b`, or zero where that would be negative.
pub open spec fn sat_sub(a: int, b: int) -> int {
    if a - b < 0 { 0 } else { a - b }
}

pub open spec fn min_int(a: int, b: int) -> int {
    if a <= b { a } else { b }
}

pub open spec fn max_int(a: int, b: int) -> int {
    if a >= b { a } else { b }
}

/// The visible part of a buffer of samples: `length` samples starting `offset` samples
/// back, inside a buffer that holds `capacity`.
pub struct DataWindowView {
    pub offset: int,
    pub length: int,
    pub capacity: int,
}

impl DataWindowView {
    /// The window shows at least two samples and lies inside the buffer.
    pub open spec fn wf(self) -> bool {
        &&& 0 <= self.offset
        &&& MIN_WINDOW_LENGTH <= self.length
        &&& self.offset + self.length <= self.capacity
    }

    /// Moving the window towards older samples stops where it touches the buffer's end.
    pub open spec fn pan_positive(self, amount: int) -> DataWindowView {
        DataWindowView {
            offset: min_int(sat_add(self.offset, amount), sat_sub(self.capacity, self.length)),
            ..self
        }
    }

    /// Moving the window towards newer samples stops at offset zero.
    pub open spec fn pan_negative(self, amount: int) -> DataWindowView {
        DataWindowView { offset: sat_sub(self.offset, amount), ..self }
    }

    /// Widening the window: where it would run past the buffer it is first moved towards
    /// newer samples, then it grows as far as the buffer allows.
    pub open spec fn zoom_out(self, amount: int) -> DataWindowView {
        let moved = if sat_add(self.length, amount) > sat_sub(self.capacity, self.offset) {
            self.pan_negative(amount)
        } else {
            self
        };
        DataWindowView {
            length: min_int(sat_add(moved.length, amount), sat_sub(moved.capacity, moved.offset)),
            ..moved
        }
    }

    /// Narrowing the window, never below two samples.
    pub open spec fn zoom_in(self, amount: int) -> DataWindowView {
        DataWindowView {
            length: max_int(sat_sub(self.length, amount), MIN_WINDOW_LENGTH as int),
            ..self
        }
    }
}

pub struct DataWindow {
    window_offset: usize,
    window_length: usize,
    buffer_capacity: usize,
}

impl View for DataWindow {
    type V = DataWindowView;

    closed spec fn view(&self) -> DataWindowView {
        DataWindowView {
            offset: self.window_offset as int,
            length: self.window_length as int,
            capacity: self.buffer_capacity as int,
        }
    }
}

/// Every operation keeps a well-formed window well-formed.
pub proof fn lemma_window_operations_keep_bounds(w: DataWindowView, amount: nat)
    requires
        w.wf(),
        amount <= usize::MAX,
        w.capacity <= usize::MAX,
    ensures
        w.pan_positive(amount as int).wf(),
        w.pan_negative(amount as int).wf(),
        w.zoom_out(amount as int).wf(),
        w.zoom_in(amount as int).wf(),
{
}

/// Panning back and then forward by the same amount returns to the same window, and
/// zooming out and then in by the same amount too, where the buffer has room for the
/// first move.
pub proof fn lemma_moves_undo(w: DataWindowView, amount: nat)
    requires
        w.wf(),
        w.capacity <= usize::MAX,
    ensures
        w.offset + amount + w.length <= w.capacity ==> w.pan_positive(amount as int).pan_negative(
            amount as int,
        ) == w,
        w.offset + w.length + amount <= w.capacity ==> w.zoom_out(amount as int).zoom_in(amount as int)
            == w,
{
}

/// A window's offset, length and buffer capacity are machine numbers.
pub proof fn lemma_window_fits(w: &DataWindow)
    ensures
        0 <= w@.offset <= usize::MAX,
        0 <= w@.length <= usize::MAX,
        0 <= w@.capacity <= usize::MAX,
{
}

/// On a window, panning back and then forward by the same amount returns to the same
/// window, and zooming out and then in by the same amount too, where the buffer has room
/// for the first move.
pub proof fn lemma_window_moves_undo(w: &DataWindow, amount: usize)
    requires
        w@.wf(),
    ensures
        w@.offset + amount + w@.length <= w@.capacity ==> w@.pan_positive(amount as int).pan_negative(
            amount as int,
        ) == w@,
        w@.offset + w@.length + amount <= w@.capacity ==> w@.zoom_out(amount as int).zoom_in(amount as int)
            == w@,
{
    lemma_window_fits(w);
    lemma_moves_undo(w@, amount as nat);
}

impl DataWindow {
    /// A window of `window_length` samples at `window_offset`, or `None` where it would
    /// show fewer than two samples or not fit in the buffer.
    pub fn new(window_offset: usize, window_length: usize, buffer_capacity: usize) -> (r: Option<Self>)
        ensures
            r is None <==> (window_length < MIN_WINDOW_LENGTH || sat_add(
                window_offset as int,
                window_length as int,
            ) > buffer_capacity),
            r matches Some(w) ==> w@ == (DataWindowView {
                offset: window_offset as int,
                length: window_length as int,
                capacity: buffer_capacity as int,
            }),
            r matches Some(w) ==> (w@.wf() <==> window_offset + window_length <= buffer_capacity),
    {
        if window_length < MIN_WINDOW_LENGTH {
            return None;
        }
        if window_offset.saturating_add(window_length) > buffer_capacity {
            return None;
        }
        Some(Self { window_offset, window_length, buffer_capacity })
    }

    pub fn window_offset(&self) -> (r: usize)
        ensures
            r == self@.offset,
    {
        self.window_offset
    }

    pub fn window_length(&self) -> (r: usize)
        ensures
            r == self@.length,
    {
        self.window_length
    }

    /// Moves the window `amount` samples back, clamped to the buffer.
    pub fn pan_positive(&mut self, amount: usize)
        ensures
            final(self)@ == old(self)@.pan_positive(amount as int),
            old(self)@.wf() ==> final(self)@.wf(),
    {
        let max_offset = self.buffer_capacity.saturating_sub(self.window_length);
        self.window_offset = self.window_offset.saturating_add(amount).min(max_offset);
    }

    /// Moves the window `amount` samples forward, clamped to zero.
    pub fn pan_negative(&mut self, amount: usize)
        ensures
            final(self)@ == old(self)@.pan_negative(amount as int),
            old(self)@.wf() ==> final(self)@.wf(),
    {
        self.window_offset = self.window_offset.saturating_sub(amount);
    }

    /// Widens the window by `amount`, moving it forward first where it would not fit.
    pub fn zoom_out(&mut self, amount: usize)
        ensures
            final(self)@ == old(self)@.zoom_out(amount as int),
            old(self)@.wf() ==> final(self)@.wf(),
    {
        let max_window_length = self.buffer_capacity.saturating_sub(self.window_offset);
        if self.window_length.saturating_add(amount) > max_window_length {
            self.pan_negative(amount);
        }
        let max_window_length = self.buffer_capacity.saturating_sub(self.window_offset);
        self.window_length = self.window_length.saturating_add(amount).min(max_window_length);
    }

    /// Narrows the window by `amount`, keeping at least two samples.
    pub fn zoom_in(&mut self, amount: usize)
        ensures
            final(self)@ == old(self)@.zoom_in(amount as int),
            old(self)@.wf() ==> final(self)@.wf(),
    {
        let min_window_length = MIN_WINDOW_LENGTH;
        self.window_length = self.window_length.saturating_sub(amount).max(min_window_length);
    }
}

/// How many samples of a buffer of `len` samples a window at `offset` of `length`
/// samples shows.
pub open spec fn visible_count(len: int, offset: int, length: int) -> int {
    min_int(length, sat_sub(len, offset))
}

/// The samples a window shows, as chart points: the `i`-th newest visible sample is drawn
/// at column `length - (i + 1)` (zero at the least) and is the sample at index
/// `len - 1 - offset - i` of the buffer, which holds the oldest sample first.
pub fn visible_points(len: usize, offset: usize, length: usize) -> (r: Vec<(usize, usize)>)
    ensures
        r@.len() == visible_count(len as int, offset as int, length as int),
        forall|i: int|
            0 <= i < r@.len() ==> #[trigger] r@[i] == (
                sat_sub(length as int, i + 1) as usize,
                (len - 1 - offset - i) as usize,
            ),
{
    let mut points: Vec<(usize, usize)> = Vec::new();
    let available = len.saturating_sub(offset);
    let count = if length < available { length } else { available };
    let mut i: usize = 0;
    while i < count
        invariant
            i <= count,
            count == visible_count(len as int, offset as int, length as int),
            points@.len() == i,
            forall|j: int|
                0 <= j < i ==> #[trigger] points@[j] == (
                    sat_sub(length as int, j + 1) as usize,
                    (len - 1 - offset - j) as usize,
                ),
        decreases count - i,
    {
        let x = length.saturating_sub(i + 1);
        let index = len - 1 - offset - i;
        points.push((x, index));
        i = i + 1;
    }
    points
}

} // verus!
