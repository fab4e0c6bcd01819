//! A cursor over a sequence: the navigation core of the list browser.
//!
//! The cursor is unset until the first navigation input. Moving past either
//! end wraps around. On an empty sequence every move leaves the cursor as it
//! is. The scroll position shown beside the list is derived from the cursor
//! and is not kept as state of its own.

use vstd::prelude::*;

verus! {

/// The cursor is unset, or points into a sequence of `count` items.
pub open spec fn cursor_valid(cursor: Option<int>, count: nat) -> bool {
    cursor matches Some(c) ==> 0 <= c < count
}

/// The cursor after one step down a sequence of `count` items.
pub open spec fn next_cursor(cursor: Option<int>, count: nat) -> Option<int> {
    if count == 0 {
        cursor
    } else {
        match cursor {
            None => Some(0),
            Some(c) => if c >= count - 1 {
                Some(0)
            } else {
                Some(c + 1)
            },
        }
    }
}

/// The cursor after one step up a sequence of `count` items.
pub open spec fn previous_cursor(cursor: Option<int>, count: nat) -> Option<int> {
    if count == 0 {
        cursor
    } else {
        match cursor {
            None => Some(0),
            Some(c) => if c == 0 {
                Some(count - 1)
            } else {
                Some(c - 1)
            },
        }
    }
}

/// The cursor after `steps` steps down.
pub open spec fn next_times(cursor: Option<int>, count: nat, steps: nat) -> Option<int>
    decreases steps,
{
    if steps == 0 {
        cursor
    } else {
        next_cursor(next_times(cursor, count, (steps - 1) as nat), count)
    }
}

/// The cursor after `steps` steps up.
pub open spec fn previous_times(cursor: Option<int>, count: nat, steps: nat) -> Option<int>
    decreases steps,
{
    if steps == 0 {
        cursor
    } else {
        previous_cursor(previous_times(cursor, count, (steps - 1) as nat), count)
    }
}

/// The scroll position that belongs to a cursor: the rows above the
/// selected item, and zero while nothing is selected.
pub open spec fn scroll_position_of(cursor: Option<int>, item_height: nat) -> int {
    match cursor {
        Some(c) => c * item_height,
        None => 0,
    }
}

/// The length of the scrolled content: the rows above the last item.
pub open spec fn scroll_extent_of(count: nat, item_height: nat) -> int {
    if count > 1 {
        (count - 1) * item_height
    } else {
        0
    }
}

/// A position of the executable code as a position of the model.
pub open spec fn position_of(cursor: Option<usize>) -> Option<int> {
    match cursor {
        Some(c) => Some(c as int),
        None => None,
    }
}

/// What a [`SelectableList`] holds.
pub ghost struct Selection<T> {
    pub items: Seq<T>,
    pub cursor: Option<int>,
    pub item_height: nat,
}

impl<T> Selection<T> {
    /// The cursor is unset or points at one of the items.
    pub open spec fn wf(self) -> bool {
        cursor_valid(self.cursor, self.items.len())
    }

    /// The item under the cursor, if the cursor is set.
    pub open spec fn selected(self) -> Option<T> {
        match self.cursor {
            Some(c) => Some(self.items[c]),
            None => None,
        }
    }

    /// The selection after one step down.
    pub open spec fn next(self) -> Selection<T> {
        Selection { cursor: next_cursor(self.cursor, self.items.len()), ..self }
    }

    /// The selection after one step up.
    pub open spec fn previous(self) -> Selection<T> {
        Selection { cursor: previous_cursor(self.cursor, self.items.len()), ..self }
    }
}

/// A step in either direction keeps the cursor valid, and on a sequence that
/// is not empty it leaves the cursor set.
pub proof fn lemma_step_keeps_valid(cursor: Option<int>, count: nat)
    requires
        cursor_valid(cursor, count),
    ensures
        cursor_valid(next_cursor(cursor, count), count),
        cursor_valid(previous_cursor(cursor, count), count),
        count > 0 ==> next_cursor(cursor, count) is Some && previous_cursor(cursor, count) is Some,
{
}

/// On an empty sequence no number of steps, in either direction, sets the
/// cursor.
pub proof fn lemma_empty_is_noop(steps: nat)
    ensures
        next_times(None, 0, steps) is None,
        previous_times(None, 0, steps) is None,
    decreases steps,
{
    if steps > 0 {
        lemma_empty_is_noop((steps - 1) as nat);
    }
}

/// Starting with an unset cursor, the first step down selects the first
/// item and each further step selects the one behind it, up to the last.
pub proof fn lemma_next_from_unset(count: nat, steps: nat)
    requires
        1 <= steps <= count,
    ensures
        next_times(None, count, steps) == Some(steps - 1),
    decreases steps,
{
    if steps > 1 {
        lemma_next_from_unset(count, (steps - 1) as nat);
    } else {
        assert(next_times(None, count, 0) == None::<int>);
    }
}

/// Steps down can be taken in two runs.
pub proof fn lemma_next_times_split(cursor: Option<int>, count: nat, first: nat, then: nat)
    ensures
        next_times(cursor, count, first + then) == next_times(
            next_times(cursor, count, first),
            count,
            then,
        ),
    decreases then,
{
    if then > 0 {
        lemma_next_times_split(cursor, count, first, (then - 1) as nat);
        assert((first + then - 1) as nat == first + (then - 1) as nat);
    }
}

/// Steps down that stay below the end of the sequence add to the cursor.
pub proof fn lemma_next_without_wrap(at: int, count: nat, steps: nat)
    requires
        0 <= at,
        at + steps < count,
    ensures
        next_times(Some(at), count, steps) == Some(at + steps),
    decreases steps,
{
    if steps > 0 {
        lemma_next_without_wrap(at, count, (steps - 1) as nat);
    }
}

/// Wraparound downwards: from any selected item, as many steps down as
/// there are items lead back to that item. In particular, from the first
/// item they lead back to the first item.
pub proof fn lemma_next_full_cycle(at: int, count: nat)
    requires
        0 <= at < count,
    ensures
        next_times(Some(at), count, count) == Some(at),
{
    let to_end = (count - 1 - at) as nat;
    lemma_next_without_wrap(at, count, to_end);
    assert(next_times(Some(at), count, to_end) == Some(count - 1));
    assert(next_times(Some(at), count, to_end + 1) == Some(0int)) by {
        assert((to_end + 1 - 1) as nat == to_end);
    }
    lemma_next_without_wrap(0, count, at as nat);
    lemma_next_times_split(Some(at), count, to_end + 1, at as nat);
    assert(to_end + 1 + at as nat == count);
}

/// Starting with an unset cursor on a sequence that is not empty, the first
/// step down selects the first item, and as many further steps as there are
/// items lead back to it.
pub proof fn lemma_next_returns_to_first(count: nat)
    requires
        count > 0,
    ensures
        next_times(None, count, 1) == Some(0int),
        next_times(None, count, 1 + count) == Some(0int),
{
    lemma_next_from_unset(count, 1);
    lemma_next_full_cycle(0, count);
    lemma_next_times_split(None, count, 1, count);
}

/// Wraparound upwards: one step up from the first item selects the last.
pub proof fn lemma_previous_from_first(count: nat)
    requires
        count > 0,
    ensures
        previous_cursor(Some(0), count) == Some(count - 1),
{
}

/// A step up undoes a step down, and a step down undoes a step up, once an
/// item is selected.
pub proof fn lemma_steps_undo_each_other(at: int, count: nat)
    requires
        0 <= at < count,
    ensures
        previous_cursor(next_cursor(Some(at), count), count) == Some(at),
        next_cursor(previous_cursor(Some(at), count), count) == Some(at),
{
}

/// A sequence of items with a cursor that wraps around at both ends.
pub struct SelectableList<T> {
    items: Vec<T>,
    cursor: Option<usize>,
    item_height: usize,
}

impl<T> View for SelectableList<T> {
    type V = Selection<T>;

    closed spec fn view(&self) -> Selection<T> {
        Selection {
            items: self.items@,
            cursor: position_of(self.cursor),
            item_height: self.item_height as nat,
        }
    }
}

impl<T> SelectableList<T> {
    #[verifier::type_invariant]
    spec fn inv(self) -> bool {
        &&& cursor_valid(position_of(self.cursor), self.items@.len())
        &&& self.items@.len() * self.item_height <= usize::MAX
    }

    /// A list over `items` with rows of height one and no selection yet.
    pub fn new(items: Vec<T>) -> (r: SelectableList<T>)
        ensures
            r@.items == items@,
            r@.cursor is None,
            r@.item_height == 1,
            r@.wf(),
    {
        proof {
            vstd::std_specs::vec::axiom_spec_len(&items);
        }
        SelectableList { items, cursor: None, item_height: 1 }
    }

    /// A list over `items` with rows of the given height and no selection
    /// yet; none where the rows of all items together are more than the
    /// machine can count.
    pub fn with_item_height(items: Vec<T>, item_height: usize) -> (r: Option<SelectableList<T>>)
        ensures
            r is Some <==> items@.len() * item_height <= usize::MAX,
            r matches Some(list) ==> {
                &&& list@.items == items@
                &&& list@.cursor is None
                &&& list@.item_height == item_height
                &&& list@.wf()
            },
    {
        match items.len().checked_mul(item_height) {
            Some(_) => Some(SelectableList { items, cursor: None, item_height }),
            None => None,
        }
    }

    /// The number of items.
    pub fn len(&self) -> (n: usize)
        ensures
            n == self@.items.len(),
    {
        self.items.len()
    }

    /// The items, in their order.
    pub fn items(&self) -> (r: &Vec<T>)
        ensures
            r@ == self@.items,
    {
        &self.items
    }

    /// The height of one row.
    pub fn item_height(&self) -> (h: usize)
        ensures
            h == self@.item_height,
    {
        self.item_height
    }

    /// The position of the cursor, if it is set.
    pub fn cursor(&self) -> (r: Option<usize>)
        ensures
            position_of(r) == self@.cursor,
            self@.wf(),
    {
        proof {
            use_type_invariant(self);
        }
        self.cursor
    }

    /// The item under the cursor, if the cursor is set.
    pub fn selected(&self) -> (r: Option<&T>)
        ensures
            match r {
                Some(item) => self@.selected() == Some(*item),
                None => self@.selected() is None,
            },
    {
        proof {
            use_type_invariant(self);
        }
        match self.cursor {
            Some(index) => Some(&self.items[index]),
            None => None,
        }
    }

    /// Moves the cursor one item down; from the last item it goes to the
    /// first. The first move on a list sets the cursor on the first item.
    pub fn select_next(&mut self)
        ensures
            final(self)@ == old(self)@.next(),
            final(self)@.wf(),
    {
        proof {
            use_type_invariant(&*self);
        }
        let count = self.items.len();
        if count == 0 {
            return ;
        }
        let index: usize = match self.cursor {
            Some(idx) => if idx >= count - 1 {
                0
            } else {
                idx + 1
            },
            None => 0,
        };
        self.cursor = Some(index);
    }

    /// Moves the cursor one item up; from the first item it goes to the
    /// last. The first move on a list sets the cursor on the first item.
    pub fn select_previous(&mut self)
        ensures
            final(self)@ == old(self)@.previous(),
            final(self)@.wf(),
    {
        proof {
            use_type_invariant(&*self);
        }
        let count = self.items.len();
        if count == 0 {
            return ;
        }
        let index: usize = match self.cursor {
            Some(idx) => if idx == 0 {
                count - 1
            } else {
                idx - 1
            },
            None => 0,
        };
        self.cursor = Some(index);
    }

    /// The scroll position that belongs to the cursor.
    pub fn scroll_position(&self) -> (r: usize)
        ensures
            r == scroll_position_of(self@.cursor, self@.item_height),
    {
        proof {
            use_type_invariant(self);
        }
        match self.cursor {
            Some(index) => {
                assert(index * self.item_height <= self.items@.len() * self.item_height)
                    by (nonlinear_arith)
                    requires
                        index <= self.items@.len(),
                ;
                index * self.item_height
            },
            None => 0,
        }
    }

    /// The length of the scrolled content.
    pub fn scroll_extent(&self) -> (r: usize)
        ensures
            r == scroll_extent_of(self@.items.len(), self@.item_height),
    {
        proof {
            use_type_invariant(self);
        }
        let count = self.items.len();
        if count > 1 {
            assert((count - 1) * self.item_height <= count * self.item_height)
                by (nonlinear_arith);
            (count - 1) * self.item_height
        } else {
            0
        }
    }
}

} // verus!
