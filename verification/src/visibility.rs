use vstd::prelude::*;

use crate::cursors::{Cursor, CursorModel};

verus! {

/// Mathematical model of a [`VisibilityRange`]: a window of at most
/// `max_visible` items over a sequence of `total_items`, starting at `index`.
pub struct VisibilityRangeModel {
    pub max_visible: nat,
    pub total_items: nat,
    pub index: nat,
}

impl VisibilityRangeModel {
    /// The range that shows nothing of an empty sequence.
    pub open spec fn empty() -> Self {
        VisibilityRangeModel { max_visible: 0, total_items: 0, index: 0 }
    }

    /// The last index of the underlying sequence, or 0 when it is empty.
    pub open spec fn max_index(self) -> nat {
        if self.total_items > 0 {
            (self.total_items - 1) as nat
        } else {
            0
        }
    }

    /// The window starts on an item of the sequence (or at 0 when there is none).
    pub open spec fn is_anchored(self) -> bool {
        self.index <= self.max_index()
    }

    pub open spec fn with_index(self, index: nat) -> Self {
        VisibilityRangeModel {
            index: if index <= self.max_index() { index } else { self.max_index() },
            ..self
        }
    }

    pub open spec fn with_max_visible(self, max_visible: nat) -> Self {
        VisibilityRangeModel { max_visible, ..self }
    }

    pub open spec fn with_total_items(self, total_items: nat) -> Self {
        VisibilityRangeModel { total_items, ..self }
    }

    /// One past the last visible index.
    pub open spec fn end(self) -> nat {
        if self.index + self.max_visible <= self.total_items {
            self.index + self.max_visible
        } else {
            self.total_items
        }
    }

    pub open spec fn includes(self, index: nat) -> bool {
        self.index <= index < self.end()
    }

    pub open spec fn min_index_within(self) -> nat {
        self.index
    }

    pub open spec fn max_index_within(self) -> nat {
        if self.end() > 0 {
            (self.end() - 1) as nat
        } else {
            0
        }
    }

    pub open spec fn moved_forward(self, amount: nat) -> Self {
        VisibilityRangeModel {
            index: if self.index + amount <= self.max_index() {
                self.index + amount
            } else {
                self.max_index()
            },
            ..self
        }
    }

    pub open spec fn moved_backward(self, amount: nat) -> Self {
        VisibilityRangeModel {
            index: if self.index >= amount {
                (self.index - amount) as nat
            } else {
                0
            },
            ..self
        }
    }
}

/// A scrollable window over a sequence of items.
#[derive(Clone, Copy, Debug)]
pub struct VisibilityRange {
    max_visible: usize,
    total_items: usize,
    index: usize,
}

impl View for VisibilityRange {
    type V = VisibilityRangeModel;

    closed spec fn view(&self) -> VisibilityRangeModel {
        VisibilityRangeModel {
            max_visible: self.max_visible as nat,
            total_items: self.total_items as nat,
            index: self.index as nat,
        }
    }
}

impl VisibilityRange {
    pub fn new() -> (range: Self)
        ensures
            range@ == VisibilityRangeModel::empty(),
    {
        Self { max_visible: 0, total_items: 0, index: 0 }
    }

    /// Moves the start of the window to `index`, or to the last item when
    /// `index` lies beyond it.
    pub fn with_index(self, index: usize) -> (range: Self)
        ensures
            range@ == self@.with_index(index as nat),
    {
        let ceiling = self.max_index();
        let index = if index <= ceiling {
            index
        } else {
            ceiling
        };

        Self { index, ..self }
    }

    pub fn into_cursor_at(&self, index: usize) -> (cursor: Cursor)
        ensures
            cursor@ == CursorModel::new_within(self@, index as nat),
    {
        Cursor::new_within(self, index)
    }

    pub fn with_max_visible(self, max_visible: usize) -> (range: Self)
        ensures
            range@ == self@.with_max_visible(max_visible as nat),
    {
        Self { max_visible, ..self }
    }

    pub fn with_total_items(self, total_items: usize) -> (range: Self)
        ensures
            range@ == self@.with_total_items(total_items as nat),
    {
        Self { total_items, ..self }
    }

    pub fn includes(&self, index: usize) -> (included: bool)
        ensures
            included == self@.includes(index as nat),
    {
        let start = self.min_index_within();
        let end = self.max_within();

        start <= index && index < end
    }

    fn max_index(&self) -> (max: usize)
        ensures
            max == self@.max_index(),
    {
        if self.total_items > 0 {
            self.total_items - 1
        } else {
            0
        }
    }

    fn max_within(&self) -> (end: usize)
        ensures
            end == self@.end(),
    {
        if self.max_visible >= self.total_items {
            self.total_items
        } else if self.index >= self.total_items - self.max_visible {
            self.total_items
        } else {
            self.index + self.max_visible
        }
    }

    pub fn min_index_within(&self) -> (min: usize)
        ensures
            min == self@.min_index_within(),
    {
        self.index
    }

    pub fn max_index_within(&self) -> (max: usize)
        ensures
            max == self@.max_index_within(),
    {
        let end = self.max_within();

        if end > 0 {
            end - 1
        } else {
            0
        }
    }

    /// Scrolls the window towards the end of the sequence, stopping at the
    /// last item.
    pub fn moved_forward(self, amount: usize) -> (range: Self)
        ensures
            range@ == self@.moved_forward(amount as nat),
    {
        let ceiling = self.max_index();
        let index = if self.index <= ceiling && amount <= ceiling - self.index {
            self.index + amount
        } else {
            ceiling
        };

        Self { index, ..self }
    }

    /// Scrolls the window towards the start of the sequence, stopping at 0.
    pub fn moved_backward(self, amount: usize) -> (range: Self)
        ensures
            range@ == self@.moved_backward(amount as nat),
    {
        let index = if self.index >= amount {
            self.index - amount
        } else {
            0
        };

        Self { index, ..self }
    }
}

/// The visible bounds of a window are at most `max_visible` apart and both
/// name an item of the sequence (or are 0 when it is empty), provided the
/// window starts on an item and can show anything at all.
pub proof fn lemma_window_bounds(range: VisibilityRangeModel)
    requires
        range.is_anchored(),
        range.max_visible > 0 || range.index > 0,
    ensures
        range.max_index_within() - range.min_index_within() < range.max_visible,
        range.min_index_within() <= range.max_index(),
        range.max_index_within() <= range.max_index(),
        range.total_items == 0 ==> range.min_index_within() == 0 && range.max_index_within() == 0,
        range.total_items > 0 ==> range.min_index_within() < range.total_items
            && range.max_index_within() < range.total_items,
{
}

/// With a window that can show at least one item, the lower visible bound
/// does not exceed the upper one.
pub proof fn lemma_window_is_ordered(range: VisibilityRangeModel)
    requires
        range.is_anchored(),
        range.max_visible > 0,
    ensures
        range.min_index_within() <= range.max_index_within(),
        range.total_items > 0 ==> range.includes(range.min_index_within())
            && range.includes(range.max_index_within()),
{
}

/// Every way of moving or re-anchoring a window leaves it on an item.
pub proof fn lemma_moves_keep_anchor(range: VisibilityRangeModel, amount: nat)
    ensures
        range.with_index(amount).is_anchored(),
        range.moved_forward(amount).is_anchored(),
        range.is_anchored() ==> range.moved_backward(amount).is_anchored(),
        range.is_anchored() ==> range.with_max_visible(amount).is_anchored(),
{
}

} // verus!
