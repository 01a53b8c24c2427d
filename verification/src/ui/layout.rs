//! Screen geometry and list selection, as the panels keep them.
use vstd::prelude::*;

verus! {

/// A rectangle of terminal cells.
#[derive(Debug, Clone, Copy, PartialEq, Eq, Structural)]
pub struct Rect {
    pub x: u16,
    pub y: u16,
    pub width: u16,
    pub height: u16,
}

/// `a + b`, or `u16::MAX` when that does not fit.
pub open spec fn sat_add_u16(a: u16, b: u16) -> int {
    if a + b > u16::MAX {
        u16::MAX as int
    } else {
        a + b
    }
}

/// Whether cell `(col, row)` lies in `r`; the right and bottom edges are
/// computed with saturation.
pub open spec fn spec_contains(r: Rect, col: u16, row: u16) -> bool {
    &&& col >= r.x
    &&& col < sat_add_u16(r.x, r.width)
    &&& row >= r.y
    &&& row < sat_add_u16(r.y, r.height)
}

impl Rect {
    /// The rectangle at `(x, y)` of size `width` by `height`.
    pub fn new(x: u16, y: u16, width: u16, height: u16) -> (r: Self)
        ensures
            r == (Rect { x, y, width, height }),
    {
        Rect { x, y, width, height }
    }

    /// The empty rectangle at the origin.
    pub fn zero() -> (r: Self)
        ensures
            r == (Rect { x: 0, y: 0, width: 0, height: 0 }),
    {
        Rect { x: 0, y: 0, width: 0, height: 0 }
    }

    /// Whether cell `(col, row)` lies inside this rectangle.
    pub fn contains(&self, col: u16, row: u16) -> (b: bool)
        ensures
            b == spec_contains(*self, col, row),
    {
        let right = self.x.saturating_add(self.width);
        let bottom = self.y.saturating_add(self.height);
        col >= self.x && col < right && row >= self.y && row < bottom
    }
}

/// Whether cell `(col, row)` lies inside `rect`.
pub fn hit_test(col: u16, row: u16, rect: Rect) -> (b: bool)
    ensures
        b == spec_contains(rect, col, row),
{
    rect.contains(col, row)
}

/// Selection in a scrolling list: the selected item, and the first item
/// shown.
#[derive(Debug, Clone, Copy, PartialEq, Eq, Structural)]
pub struct ListState {
    pub selected: Option<usize>,
    pub offset: usize,
}

/// The list state after selecting `index`: clearing the selection also
/// scrolls back to the top.
pub open spec fn spec_select(l: ListState, index: Option<usize>) -> ListState {
    ListState { selected: index, offset: if index is None { 0 } else { l.offset } }
}

impl ListState {
    /// Nothing selected, scrolled to the top.
    pub fn new() -> (s: Self)
        ensures
            s.selected is None,
            s.offset == 0,
    {
        ListState { selected: None, offset: 0 }
    }

    /// The selected item.
    pub fn selected(&self) -> (r: Option<usize>)
        ensures
            r == self.selected,
    {
        self.selected
    }

    /// The first item shown.
    pub fn offset(&self) -> (r: usize)
        ensures
            r == self.offset,
    {
        self.offset
    }

    /// Selects `index`; clearing the selection also scrolls back to the top.
    pub fn select(&mut self, index: Option<usize>)
        ensures
            *final(self) == spec_select(*old(self), index),
    {
        self.selected = index;
        if index.is_none() {
            self.offset = 0;
        }
    }
}

/// Index selected by moving down in a list of `len` items from `selected`:
/// the next item, the last one at the end, the first one when nothing was
/// selected.
pub open spec fn spec_next_index(selected: Option<usize>, len: usize) -> usize {
    match selected {
        Some(i) => if i + 1 < len { (i + 1) as usize } else { (len - 1) as usize },
        None => 0,
    }
}

/// Index that stays selected after the item at `i` of a list of `len`
/// items was removed, if any item is left.
pub open spec fn spec_index_after_removal(i: usize, len: usize) -> Option<usize> {
    if len <= 1 {
        None
    } else if i < len - 1 {
        Some(i)
    } else {
        Some((len - 2) as usize)
    }
}

impl ListState {
    /// Moves the selection one item down in a list of `len` items; an empty
    /// list keeps its state.
    pub fn select_next(&mut self, len: usize)
        ensures
            len == 0 ==> *final(self) == *old(self),
            len > 0 ==> *final(self) == spec_select(*old(self), Some(spec_next_index(old(self).selected, len))),
    {
        if len > 0 {
            let next: usize = match self.selected {
                Some(i) => if i < len - 1 { i + 1 } else { len - 1 },
                None => 0,
            };
            self.select(Some(next));
        }
    }

    /// Moves the selection one item up; the first item, or no selection,
    /// stays as it is.
    pub fn select_prev(&mut self)
        ensures
            old(self).selected matches Some(i) ==> *final(self) == (if i > 0 {
                spec_select(*old(self), Some((i - 1) as usize))
            } else {
                *old(self)
            }),
            old(self).selected is None ==> *final(self) == *old(self),
    {
        match self.selected {
            Some(i) => {
                if i > 0 {
                    self.select(Some(i - 1));
                }
            },
            None => {},
        }
    }

    /// Keeps the selection on a valid item after the item at `i` of a list
    /// of `len` items was removed.
    pub fn select_after_removal(&mut self, i: usize, len: usize)
        ensures
            *final(self) == spec_select(*old(self), spec_index_after_removal(i, len)),
    {
        let new_len = len.saturating_sub(1);
        if new_len == 0 {
            self.select(None);
        } else if i < new_len - 1 {
            self.select(Some(i));
        } else {
            self.select(Some(new_len - 1));
        }
    }
}

/// After a removal the selection stays on an item that is still there:
/// the same position, or the new last item; an emptied list selects
/// nothing.
pub proof fn lemma_removal_keeps_selection_valid(i: usize, len: usize)
    requires
        i < len,
    ensures
        match spec_index_after_removal(i, len) {
            Some(j) => j < len - 1 && (j == i || j == len - 2),
            None => len == 1,
        },
{
}

/// Moving down selects an item of the list, whatever was selected before.
pub proof fn lemma_next_index_in_list(selected: Option<usize>, len: usize)
    requires
        len > 0,
    ensures
        spec_next_index(selected, len) < len,
{
}

} // verus!
