use vstd::prelude::*;

use crate::visibility::{VisibilityRange, VisibilityRangeModel};

verus! {

/// `target` brought into `[floor, ceiling]`; the floor wins over a ceiling
/// that lies below it only for targets under the floor.
pub open spec fn clamped(target: nat, floor: nat, ceiling: nat) -> nat {
    if target < floor {
        floor
    } else if target > ceiling {
        ceiling
    } else {
        target
    }
}

/// Mathematical model of a [`Cursor`]: one selected index.
pub struct CursorModel {
    pub index: nat,
}

impl CursorModel {
    pub open spec fn new_within(range: VisibilityRangeModel, target: nat) -> Self {
        CursorModel {
            index: clamped(target, range.min_index_within(), range.max_index_within()),
        }
    }

    pub open spec fn moved_forward_within(self, range: VisibilityRangeModel, amount: nat) -> Self {
        Self::new_within(range, self.index + amount)
    }

    pub open spec fn moved_backward_within(self, range: VisibilityRangeModel, amount: nat) -> Self {
        Self::new_within(
            range,
            if self.index >= amount {
                (self.index - amount) as nat
            } else {
                0
            },
        )
    }

    /// The cursor lies on a visible index of `range`.
    pub open spec fn is_within(self, range: VisibilityRangeModel) -> bool {
        range.min_index_within() <= self.index <= range.max_index_within()
    }
}

/// A selected index kept inside the visible bounds of a window.
#[derive(Clone, Copy, Debug)]
pub struct Cursor {
    index: usize,
}

impl View for Cursor {
    type V = CursorModel;

    closed spec fn view(&self) -> CursorModel {
        CursorModel { index: self.index as nat }
    }
}

impl Cursor {
    pub fn new_within(visibility: &VisibilityRange, target_index: usize) -> (cursor: Self)
        ensures
            cursor@ == CursorModel::new_within(visibility@, target_index as nat),
    {
        let floor = visibility.min_index_within();
        let ceiling = visibility.max_index_within();

        let index = if target_index < floor {
            floor
        } else if target_index > ceiling {
            ceiling
        } else {
            target_index
        };

        Self { index }
    }

    pub fn index(&self) -> (index: usize)
        ensures
            index == self@.index,
    {
        self.index
    }

    pub fn moved_forward_within(self, visibility: &VisibilityRange, amount: usize) -> (cursor: Self)
        ensures
            cursor@ == self@.moved_forward_within(visibility@, amount as nat),
    {
        if amount <= usize::MAX - self.index {
            Self::new_within(visibility, self.index + amount)
        } else {
            // The target lies beyond every representable index, the floor
            // included, so only the ceiling can hold it back.
            let _floor = visibility.min_index_within();

            Self { index: visibility.max_index_within() }
        }
    }

    pub fn moved_backward_within(self, visibility: &VisibilityRange, amount: usize) -> (cursor: Self)
        ensures
            cursor@ == self@.moved_backward_within(visibility@, amount as nat),
    {
        let index = if self.index >= amount {
            self.index - amount
        } else {
            0
        };

        Self::new_within(visibility, index)
    }
}

/// Mathematical model of a [`VisibleCursor`].
pub struct VisibleCursorModel {
    pub cursor: CursorModel,
    pub range: VisibilityRangeModel,
}

impl VisibleCursorModel {
    pub open spec fn new(range: VisibilityRangeModel, index: nat) -> Self {
        VisibleCursorModel { cursor: CursorModel::new_within(range, index), range }
    }

    pub open spec fn index(self) -> nat {
        self.cursor.index
    }

    pub open spec fn with_index(self, index: nat) -> Self {
        Self::new(self.range, index)
    }

    pub open spec fn with_cursor_index_moved_forward(self, amount: nat) -> Self {
        VisibleCursorModel { cursor: self.cursor.moved_forward_within(self.range, amount), ..self }
    }

    pub open spec fn with_cursor_index_moved_backward(self, amount: nat) -> Self {
        VisibleCursorModel {
            cursor: self.cursor.moved_backward_within(self.range, amount),
            ..self
        }
    }

    pub open spec fn with_range_index_moved_forward(self, amount: nat) -> Self {
        Self::new(self.range.moved_forward(amount), self.cursor.index)
    }

    pub open spec fn with_range_index_moved_backward(self, amount: nat) -> Self {
        Self::new(self.range.moved_backward(amount), self.cursor.index)
    }

    /// The window resized to `total_items`, its start pulled back onto the
    /// last item where it would otherwise hang past the end, and the cursor
    /// brought back inside it.
    pub open spec fn with_total_items(self, total_items: nat) -> Self {
        Self::new(
            self.range.with_total_items(total_items).with_index(self.range.index),
            self.cursor.index,
        )
    }

    pub open spec fn visible_range_includes(self, index: nat) -> bool {
        self.range.includes(index)
    }

    /// The window starts on an item, can show at least one, and holds the
    /// cursor.
    pub open spec fn wf(self) -> bool {
        &&& self.range.is_anchored()
        &&& self.range.max_visible > 0
        &&& self.cursor.is_within(self.range)
    }
}

/// A cursor together with the window that bounds it.
#[derive(Clone, Copy, Debug)]
pub struct VisibleCursor {
    cursor: Cursor,
    range: VisibilityRange,
}

impl View for VisibleCursor {
    type V = VisibleCursorModel;

    closed spec fn view(&self) -> VisibleCursorModel {
        VisibleCursorModel { cursor: self.cursor@, range: self.range@ }
    }
}

impl VisibleCursor {
    pub fn new(range: VisibilityRange, index: usize) -> (visible: Self)
        ensures
            visible@ == VisibleCursorModel::new(range@, index as nat),
    {
        let cursor = Cursor::new_within(&range, index);

        Self { cursor, range }
    }

    pub fn with_index(self, index: usize) -> (visible: Self)
        ensures
            visible@ == self@.with_index(index as nat),
    {
        let cursor = Cursor::new_within(&self.range, index);

        Self { cursor, ..self }
    }

    /// Selects the index that follows `index`.
    pub fn with_index_after(self, index: usize) -> (visible: Self)
        ensures
            visible@ == self@.with_index(index as nat + 1),
    {
        if index < usize::MAX {
            self.with_index(index + 1)
        } else {
            // Nothing representable follows: the target is above the floor
            // and above the ceiling, as `usize::MAX` is unless it is the
            // ceiling itself.
            let _floor = self.range.min_index_within();
            let _ceiling = self.range.max_index_within();

            self.with_index(index)
        }
    }

    fn with_visible_word_selected(self) -> (visible: Self)
        ensures
            visible@ == self@.with_index(self@.index()),
    {
        let cursor = Cursor::new_within(&self.range, self.cursor.index());

        Self { cursor, ..self }
    }

    pub fn with_cursor_index_moved_forward(self, amount: usize) -> (visible: Self)
        ensures
            visible@ == self@.with_cursor_index_moved_forward(amount as nat),
    {
        let cursor = self.cursor.moved_forward_within(&self.range, amount);

        Self { cursor, ..self }
    }

    pub fn with_cursor_index_moved_backward(self, amount: usize) -> (visible: Self)
        ensures
            visible@ == self@.with_cursor_index_moved_backward(amount as nat),
    {
        let cursor = self.cursor.moved_backward_within(&self.range, amount);

        Self { cursor, ..self }
    }

    /// Scrolls the window forward and pulls the cursor along where it would
    /// fall out of view.
    pub fn with_range_index_moved_forward(self, amount: usize) -> (visible: Self)
        ensures
            visible@ == self@.with_range_index_moved_forward(amount as nat),
    {
        let range = self.range.moved_forward(amount);

        Self { range, ..self }.with_visible_word_selected()
    }

    /// Scrolls the window backward and pulls the cursor along where it would
    /// fall out of view.
    pub fn with_range_index_moved_backward(self, amount: usize) -> (visible: Self)
        ensures
            visible@ == self@.with_range_index_moved_backward(amount as nat),
    {
        let range = self.range.moved_backward(amount);

        Self { range, ..self }.with_visible_word_selected()
    }

    /// Tells the window how many items there are now.
    pub fn with_total_items(self, total_items: usize) -> (visible: Self)
        ensures
            visible@ == self@.with_total_items(total_items as nat),
    {
        let start = self.range.min_index_within();
        let range = self.range.with_total_items(total_items).with_index(start);

        Self { range, ..self }.with_visible_word_selected()
    }

    pub fn index(&self) -> (index: usize)
        ensures
            index == self@.index(),
    {
        self.cursor.index()
    }

    pub fn visible_range_includes(&self, index: usize) -> (included: bool)
        ensures
            included == self@.visible_range_includes(index as nat),
    {
        self.range.includes(index)
    }
}

/// A target that already lies within the visible bounds is selected as it is.
pub proof fn lemma_new_within_keeps_visible_target(range: VisibilityRangeModel, target: nat)
    requires
        range.min_index_within() <= target <= range.max_index_within(),
    ensures
        CursorModel::new_within(range, target).index == target,
{
}

/// Clamping is idempotent: a cursor made within a window is left where it is
/// when it is made again within the same window. The window's bounds must be
/// in order.
pub proof fn lemma_new_within_is_idempotent(range: VisibilityRangeModel, target: nat)
    requires
        range.min_index_within() <= range.max_index_within(),
    ensures
        CursorModel::new_within(range, CursorModel::new_within(range, target).index)
            == CursorModel::new_within(range, target),
        CursorModel::new_within(range, target).is_within(range),
{
}

/// A visible cursor made from a window that starts on an item and can show
/// at least one is well formed.
pub proof fn lemma_new_visible_cursor_is_wf(range: VisibilityRangeModel, index: nat)
    requires
        range.is_anchored(),
        range.max_visible > 0,
    ensures
        VisibleCursorModel::new(range, index).wf(),
{
}

/// Every operation of a visible cursor keeps it well formed.
pub proof fn lemma_visible_cursor_stays_wf(visible: VisibleCursorModel, amount: nat)
    requires
        visible.wf(),
    ensures
        visible.with_index(amount).wf(),
        visible.with_cursor_index_moved_forward(amount).wf(),
        visible.with_cursor_index_moved_backward(amount).wf(),
        visible.with_range_index_moved_forward(amount).wf(),
        visible.with_range_index_moved_backward(amount).wf(),
        visible.with_total_items(amount).wf(),
{
}

} // verus!
