//! A list with a selected row and a window of rows that follows it.

use vstd::prelude::*;

verus! {

/// Number of rows that one page step moves at most.
pub const PAGE_STEP: usize = 10;

/// Where a list cursor stands, as a mathematical value.
pub struct CursorView {
    /// Number of items.
    pub len: nat,
    /// Index of the selected item.
    pub selected: nat,
    /// Index of the first row of the window.
    pub scroll_offset: nat,
}

/// One navigation step, as a value, for statements about runs of steps.
pub enum CursorMove {
    Next,
    Previous,
    First,
    Last,
    PageDown,
    PageUp,
}

/// Height that the window is taken to have when it follows the selection:
/// a window of no rows follows it as a window of one row does, so that the
/// window never starts below the selection.
pub open spec fn window_rows(visible_rows: nat) -> nat {
    if visible_rows == 0 {
        1
    } else {
        visible_rows
    }
}

/// Rows that one page step moves: the height of the window, ten at most.
pub open spec fn page_step(visible_rows: nat) -> nat {
    if visible_rows < PAGE_STEP as nat {
        visible_rows
    } else {
        PAGE_STEP as nat
    }
}

impl CursorView {
    /// The selection is an item, or 0 in an empty list, and the window does
    /// not start below it.
    pub open spec fn wf(self) -> bool {
        &&& self.scroll_offset <= self.selected
        &&& if self.len == 0 {
            self.selected == 0
        } else {
            self.selected < self.len
        }
    }

    /// The selection is an item inside a window of `visible_rows` rows.
    pub open spec fn selection_visible(self, visible_rows: nat) -> bool {
        &&& self.selected < self.len
        &&& self.scroll_offset <= self.selected < self.scroll_offset + visible_rows
    }

    /// The cursor on row `selected`, which is not above the old selection:
    /// where the row lies below the window, the window ends with it.
    pub open spec fn select_below(self, selected: nat, visible_rows: nat) -> CursorView {
        CursorView {
            len: self.len,
            selected,
            scroll_offset: if selected >= self.scroll_offset + window_rows(visible_rows) {
                (selected + 1 - window_rows(visible_rows)) as nat
            } else {
                self.scroll_offset
            },
        }
    }

    /// The cursor on row `selected`, which is not below the old selection,
    /// where the height of the window is not known: where the row lies
    /// above the window, the window starts with it.
    pub open spec fn select_above(self, selected: nat) -> CursorView {
        CursorView {
            len: self.len,
            selected,
            scroll_offset: if selected < self.scroll_offset {
                selected
            } else {
                self.scroll_offset
            },
        }
    }

    /// The cursor on row `selected`, with the window moved only as far as it
    /// takes to hold that row: where the row lies above the window, the
    /// window starts with it; where it lies below, the window ends with it.
    pub open spec fn select(self, selected: nat, visible_rows: nat) -> CursorView {
        if selected < self.scroll_offset {
            self.select_above(selected)
        } else {
            self.select_below(selected, visible_rows)
        }
    }

    /// One row down, staying on the last row. Where the selection then lies
    /// below the window, the window ends with it.
    pub open spec fn next(self, visible_rows: nat) -> CursorView {
        if self.len > 0 {
            self.select_below(
                if self.selected + 1 < self.len {
                    self.selected + 1
                } else {
                    self.selected
                },
                visible_rows,
            )
        } else {
            self
        }
    }

    /// One row up, staying on the first row. The step is not told the height
    /// of the window, so the window moves only where the new selection lies
    /// above it.
    pub open spec fn previous(self) -> CursorView {
        if self.len > 0 && self.selected > 0 {
            self.select_above((self.selected - 1) as nat)
        } else {
            self
        }
    }

    /// To the first row.
    pub open spec fn first(self) -> CursorView {
        if self.len > 0 {
            CursorView { len: self.len, selected: 0, scroll_offset: 0 }
        } else {
            self
        }
    }

    /// To the last row, with the window as far down as the list allows.
    pub open spec fn last(self, visible_rows: nat) -> CursorView {
        if self.len > 0 {
            CursorView {
                len: self.len,
                selected: (self.len - 1) as nat,
                scroll_offset: if self.len >= window_rows(visible_rows) {
                    (self.len - window_rows(visible_rows)) as nat
                } else {
                    0
                },
            }
        } else {
            self
        }
    }

    /// One page down, staying on the last row.
    pub open spec fn page_down(self, visible_rows: nat) -> CursorView {
        if self.len > 0 {
            let target = self.selected + page_step(visible_rows);
            self.select_below(
                if target < self.len {
                    target
                } else {
                    (self.len - 1) as nat
                },
                visible_rows,
            )
        } else {
            self
        }
    }

    /// One page up, staying on the first row.
    pub open spec fn page_up(self, visible_rows: nat) -> CursorView {
        if self.len > 0 {
            self.select(
                if self.selected >= page_step(visible_rows) {
                    (self.selected - page_step(visible_rows)) as nat
                } else {
                    0
                },
                visible_rows,
            )
        } else {
            self
        }
    }

    /// The cursor after one step.
    pub open spec fn step(self, m: CursorMove, visible_rows: nat) -> CursorView {
        match m {
            CursorMove::Next => self.next(visible_rows),
            CursorMove::Previous => self.previous(),
            CursorMove::First => self.first(),
            CursorMove::Last => self.last(visible_rows),
            CursorMove::PageDown => self.page_down(visible_rows),
            CursorMove::PageUp => self.page_up(visible_rows),
        }
    }

    /// The cursor after the steps of `moves`, in order.
    pub open spec fn run(self, moves: Seq<CursorMove>, visible_rows: nat) -> CursorView
        decreases moves.len(),
    {
        if moves.len() == 0 {
            self
        } else {
            self.run(moves.drop_last(), visible_rows).step(moves.last(), visible_rows)
        }
    }

    /// End of the window: `visible_rows` rows after its start, or the end of
    /// the list if that comes first.
    pub open spec fn window_end(self, visible_rows: nat) -> nat {
        if self.scroll_offset + visible_rows < self.len {
            self.scroll_offset + visible_rows
        } else {
            self.len
        }
    }
}

/// A list of items with a selected row and a scroll position.
#[derive(Clone)]
pub struct ScrollableList<T> {
    /// The items, in display order.
    pub items: Vec<T>,
    /// Index of the selected item; 0 in an empty list.
    pub selected: usize,
    /// Index of the first visible row.
    pub scroll_offset: usize,
}

impl<T> ScrollableList<T> {
    /// Where the cursor stands.
    pub open spec fn cursor(&self) -> CursorView {
        CursorView {
            len: self.items@.len(),
            selected: self.selected as nat,
            scroll_offset: self.scroll_offset as nat,
        }
    }

    /// The validity of a list: that of its cursor.
    pub open spec fn wf(&self) -> bool {
        self.cursor().wf()
    }

    /// A list of `items` with the first row selected.
    pub fn new(items: Vec<T>) -> (list: Self)
        ensures
            list.items == items,
            list.selected == 0,
            list.scroll_offset == 0,
            list.wf(),
    {
        ScrollableList { items, selected: 0, scroll_offset: 0 }
    }

    /// The same as [`ScrollableList::new`].
    pub fn with_items(items: Vec<T>) -> (list: Self)
        ensures
            list.items == items,
            list.selected == 0,
            list.scroll_offset == 0,
            list.wf(),
    {
        ScrollableList::new(items)
    }

    /// Number of items.
    pub fn len(&self) -> (n: usize)
        ensures
            n == self.items@.len(),
    {
        self.items.len()
    }

    /// Whether the list has no items.
    pub fn is_empty(&self) -> (empty: bool)
        ensures
            empty == (self.items@.len() == 0),
    {
        self.items.len() == 0
    }

    /// Selects the next item, if there is one; where the selection then
    /// lies below the window, the window moves down until it ends with it.
    pub fn next(&mut self, visible_rows: usize)
        requires
            old(self).wf(),
        ensures
            final(self).items == old(self).items,
            final(self).cursor() == old(self).cursor().next(visible_rows as nat),
            final(self).wf(),
    {
        if self.items.len() == 0 {
            return ;
        }
        let rows: usize = if visible_rows == 0 {
            1
        } else {
            visible_rows
        };
        if self.selected < self.items.len() - 1 {
            self.selected += 1;
        }
        if self.selected - self.scroll_offset >= rows {
            self.scroll_offset = self.selected - (rows - 1);
        }
    }

    /// Selects the previous item, if there is one; the window moves up with
    /// the selection when the selection leaves it at the top.
    pub fn previous(&mut self)
        requires
            old(self).wf(),
        ensures
            final(self).items == old(self).items,
            final(self).cursor() == old(self).cursor().previous(),
            final(self).wf(),
    {
        if self.items.len() == 0 {
            return ;
        }
        if self.selected > 0 {
            self.selected -= 1;
            if self.selected < self.scroll_offset {
                self.scroll_offset = self.selected;
            }
        }
    }

    /// Selects the first item and scrolls to the top.
    pub fn first(&mut self)
        ensures
            final(self).items == old(self).items,
            final(self).cursor() == old(self).cursor().first(),
            old(self).wf() ==> final(self).wf(),
    {
        if self.items.len() != 0 {
            self.selected = 0;
            self.scroll_offset = 0;
        }
    }

    /// Selects the last item and scrolls as far down as the list allows.
    pub fn last(&mut self, visible_rows: usize)
        ensures
            final(self).items == old(self).items,
            final(self).cursor() == old(self).cursor().last(visible_rows as nat),
            old(self).wf() ==> final(self).wf(),
    {
        let len = self.items.len();
        if len != 0 {
            let rows: usize = if visible_rows == 0 {
                1
            } else {
                visible_rows
            };
            self.selected = len - 1;
            self.scroll_offset = if len >= rows {
                len - rows
            } else {
                0
            };
        }
    }

    /// Moves the selection one page down: by the height of the window, by
    /// ten rows at most, and not past the last item.
    pub fn page_down(&mut self, visible_rows: usize)
        requires
            old(self).wf(),
        ensures
            final(self).items == old(self).items,
            final(self).cursor() == old(self).cursor().page_down(visible_rows as nat),
            final(self).wf(),
    {
        let len = self.items.len();
        if len == 0 {
            return ;
        }
        let step: usize = if visible_rows < PAGE_STEP {
            visible_rows
        } else {
            PAGE_STEP
        };
        let rows: usize = if visible_rows == 0 {
            1
        } else {
            visible_rows
        };
        self.selected = if step < len - self.selected {
            self.selected + step
        } else {
            len - 1
        };
        if self.selected - self.scroll_offset >= rows {
            self.scroll_offset = self.selected - (rows - 1);
        }
    }

    /// Moves the selection one page up: by the height of the window, by ten
    /// rows at most, and not past the first item. The window moves only as
    /// far as it takes to hold the selection.
    pub fn page_up(&mut self, visible_rows: usize)
        requires
            old(self).wf(),
        ensures
            final(self).items == old(self).items,
            final(self).cursor() == old(self).cursor().page_up(visible_rows as nat),
            final(self).wf(),
    {
        if self.items.len() == 0 {
            return ;
        }
        let step: usize = if visible_rows < PAGE_STEP {
            visible_rows
        } else {
            PAGE_STEP
        };
        let rows: usize = if visible_rows == 0 {
            1
        } else {
            visible_rows
        };
        self.selected = if self.selected >= step {
            self.selected - step
        } else {
            0
        };
        if self.selected < self.scroll_offset {
            self.scroll_offset = self.selected;
        } else if self.selected - self.scroll_offset >= rows {
            self.scroll_offset = self.selected - (rows - 1);
        }
    }

    /// The selected item; `None` where the selection is no item.
    pub fn selected_item(&self) -> (item: Option<&T>)
        ensures
            self.selected < self.items@.len() ==> item == Some(&self.items@[self.selected as int]),
            self.selected >= self.items@.len() ==> item.is_none(),
    {
        if self.selected < self.items.len() {
            Some(&self.items[self.selected])
        } else {
            None
        }
    }

    /// The selected item, for changing it in place; `None` where the
    /// selection is no item. The cursor stays, and so do the other items.
    pub fn selected_item_mut(&mut self) -> (item: Option<&mut T>)
        ensures
            final(self).selected == old(self).selected,
            final(self).scroll_offset == old(self).scroll_offset,
            match item {
                Some(item) => {
                    &&& old(self).selected < old(self).items@.len()
                    &&& *item == old(self).items@[old(self).selected as int]
                    &&& final(self).items@ == old(self).items@.update(
                        old(self).selected as int,
                        *final(item),
                    )
                },
                None => {
                    &&& old(self).selected >= old(self).items@.len()
                    &&& final(self).items@ == old(self).items@
                },
            },
    {
        if self.selected < self.items.len() {
            Some(&mut self.items[self.selected])
        } else {
            None
        }
    }

    /// The items of the window: from the scroll position, `visible_rows` of
    /// them or as many as are left.
    pub fn visible_items(&self, visible_rows: usize) -> (rows: &[T])
        requires
            self.scroll_offset <= self.items@.len(),
        ensures
            rows@ == self.items@.subrange(
                self.scroll_offset as int,
                self.cursor().window_end(visible_rows as nat) as int,
            ),
    {
        let start = self.scroll_offset;
        let len = self.items.len();
        let end: usize = if visible_rows < len - start {
            start + visible_rows
        } else {
            len
        };
        vstd::slice::slice_subrange(self.items.as_slice(), start, end)
    }

    /// Replaces the items and puts the cursor on the first row.
    pub fn set_items(&mut self, items: Vec<T>)
        ensures
            final(self).items == items,
            final(self).selected == 0,
            final(self).scroll_offset == 0,
            final(self).wf(),
    {
        self.items = items;
        self.selected = 0;
        self.scroll_offset = 0;
    }

    /// Removes all items and puts the cursor on row 0.
    pub fn clear(&mut self)
        ensures
            final(self).items@ == Seq::<T>::empty(),
            final(self).selected == 0,
            final(self).scroll_offset == 0,
            final(self).wf(),
    {
        self.items.clear();
        self.selected = 0;
        self.scroll_offset = 0;
    }

    /// Row of the selection counted from the top of the window; 0 where the
    /// window starts below the selection.
    pub fn selected_in_view(&self) -> (row: usize)
        ensures
            row == if self.selected >= self.scroll_offset {
                self.selected - self.scroll_offset
            } else {
                0
            },
    {
        if self.selected >= self.scroll_offset {
            self.selected - self.scroll_offset
        } else {
            0
        }
    }

    /// Whether rows are hidden above the window.
    pub fn can_scroll_up(&self) -> (yes: bool)
        ensures
            yes == (self.scroll_offset > 0),
    {
        self.scroll_offset > 0
    }

    /// Whether rows are hidden below a window of `visible_rows` rows.
    pub fn can_scroll_down(&self, visible_rows: usize) -> (yes: bool)
        ensures
            yes == (self.scroll_offset + visible_rows < self.items@.len()),
    {
        let len = self.items.len();
        self.scroll_offset < len && visible_rows < len - self.scroll_offset
    }
}

impl<T> Default for ScrollableList<T> {
    /// The empty list.
    fn default() -> (list: Self)
        ensures
            list.items@ == Seq::<T>::empty(),
            list.selected == 0,
            list.scroll_offset == 0,
            list.wf(),
    {
        ScrollableList { items: Vec::new(), selected: 0, scroll_offset: 0 }
    }
}

/// Every step keeps a valid cursor valid and the number of items unchanged,
/// whatever the height of the window.
pub proof fn lemma_step_keeps_wf(c: CursorView, m: CursorMove, visible_rows: nat)
    requires
        c.wf(),
    ensures
        c.step(m, visible_rows).wf(),
        c.step(m, visible_rows).len == c.len,
{
}

/// On an empty list every step changes nothing.
pub proof fn lemma_step_on_empty(c: CursorView, m: CursorMove, visible_rows: nat)
    requires
        c.len == 0,
    ensures
        c.step(m, visible_rows) == c,
{
}

/// The window moves only when it has to: a step whose new selection lies
/// inside the old window leaves the scroll position alone.
pub proof fn lemma_scroll_is_reactive(c: CursorView, m: CursorMove, visible_rows: nat)
    requires
        c.wf(),
        visible_rows >= 1,
        !(m is First),
        !(m is Last),
        c.scroll_offset <= c.step(m, visible_rows).selected < c.scroll_offset + visible_rows,
    ensures
        c.step(m, visible_rows).scroll_offset == c.scroll_offset,
{
}

/// In a list with items, every step that is told the height of the window,
/// one row at least, leaves the selection on an item and inside the window,
/// wherever the window stood before: also after the window became lower.
pub proof fn lemma_step_makes_selection_visible(c: CursorView, m: CursorMove, visible_rows: nat)
    requires
        c.wf(),
        c.len > 0,
        visible_rows >= 1,
        !(m is Previous),
    ensures
        c.step(m, visible_rows).selection_visible(visible_rows),
        c.step(m, visible_rows).len == c.len,
{
}

/// In a list with items, each step with a window of at least one row keeps
/// the selection on an item and inside the window. This holds of the step up
/// by one row too, which is not told the height of the window.
pub proof fn lemma_step_keeps_selection_visible(c: CursorView, m: CursorMove, visible_rows: nat)
    requires
        visible_rows >= 1,
        c.selection_visible(visible_rows),
    ensures
        c.step(m, visible_rows).selection_visible(visible_rows),
        c.step(m, visible_rows).len == c.len,
{
}

/// Every run of steps keeps a valid cursor valid and the number of items
/// unchanged.
pub proof fn lemma_run_keeps_wf(c: CursorView, moves: Seq<CursorMove>, visible_rows: nat)
    requires
        c.wf(),
    ensures
        c.run(moves, visible_rows).wf(),
        c.run(moves, visible_rows).len == c.len,
    decreases moves.len(),
{
    if moves.len() > 0 {
        lemma_run_keeps_wf(c, moves.drop_last(), visible_rows);
        lemma_step_keeps_wf(c.run(moves.drop_last(), visible_rows), moves.last(), visible_rows);
    }
}

/// In a list with items, after any run of steps with a window of at least
/// one row, the selection is an item and lies inside the window.
pub proof fn lemma_run_keeps_selection_visible(
    c: CursorView,
    moves: Seq<CursorMove>,
    visible_rows: nat,
)
    requires
        visible_rows >= 1,
        c.selection_visible(visible_rows),
    ensures
        c.run(moves, visible_rows).selection_visible(visible_rows),
        c.run(moves, visible_rows).len == c.len,
        0 <= c.run(moves, visible_rows).selected <= c.len - 1,
    decreases moves.len(),
{
    if moves.len() > 0 {
        lemma_run_keeps_selection_visible(c, moves.drop_last(), visible_rows);
        lemma_step_keeps_selection_visible(
            c.run(moves.drop_last(), visible_rows),
            moves.last(),
            visible_rows,
        );
    }
}

/// In a list with items, a run of steps from any valid cursor, whose window
/// may have had another height before, ends with the selection on an item
/// and inside the window, unless its last step is the step up by one row.
pub proof fn lemma_run_makes_selection_visible(
    c: CursorView,
    moves: Seq<CursorMove>,
    visible_rows: nat,
)
    requires
        c.wf(),
        c.len > 0,
        visible_rows >= 1,
        moves.len() > 0,
        !(moves.last() is Previous),
    ensures
        c.run(moves, visible_rows).selection_visible(visible_rows),
        0 <= c.run(moves, visible_rows).selected <= c.len - 1,
{
    lemma_run_keeps_wf(c, moves.drop_last(), visible_rows);
    lemma_step_makes_selection_visible(
        c.run(moves.drop_last(), visible_rows),
        moves.last(),
        visible_rows,
    );
}

/// A cursor on the first row of a list with items, as a new list has it, has
/// its selection inside every window of at least one row.
pub proof fn lemma_fresh_selection_visible(len: nat, visible_rows: nat)
    requires
        len > 0,
        visible_rows >= 1,
    ensures
        (CursorView { len, selected: 0, scroll_offset: 0 }).selection_visible(visible_rows),
{
}

} // verus!
