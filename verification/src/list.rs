//! A list of items with a cursor that moves through it in a ring.

use vstd::arithmetic::div_mod::{
    lemma_add_mod_noop_right, lemma_mod_add_multiples_vanish, lemma_mod_sub_multiples_vanish,
    lemma_small_mod,
};
use vstd::prelude::*;

verus! {

/// The mathematical content of a [`StatefulList`]: its items in order and the
/// position of its cursor, if one is set.
pub struct ListView<T> {
    pub items: Seq<T>,
    pub cursor: Option<nat>,
}

impl<T> ListView<T> {
    /// A cursor, where set, points at one of the items.
    pub open spec fn wf(self) -> bool {
        self.cursor matches Some(i) ==> i < self.items.len()
    }

    /// The list with its cursor one step forward.
    pub open spec fn forward(self) -> ListView<T> {
        ListView { items: self.items, cursor: next_cursor(self.cursor, self.items.len()) }
    }

    /// The list with its cursor one step backward.
    pub open spec fn backward(self) -> ListView<T> {
        ListView { items: self.items, cursor: previous_cursor(self.cursor, self.items.len()) }
    }
}

/// Where the cursor stands after one step forward in a ring of `len` items.
///
/// An unset cursor lands on the first item; the last item is followed by the
/// first. Without items there is nothing to point at.
pub open spec fn next_cursor(cursor: Option<nat>, len: nat) -> Option<nat> {
    if len == 0 {
        None
    } else {
        match cursor {
            None => Some(0nat),
            Some(i) => Some((i + 1) % len),
        }
    }
}

/// Where the cursor stands after one step backward in a ring of `len` items.
///
/// An unset cursor lands on the first item; the first item is preceded by the
/// last. Without items there is nothing to point at.
pub open spec fn previous_cursor(cursor: Option<nat>, len: nat) -> Option<nat> {
    if len == 0 {
        None
    } else {
        match cursor {
            None => Some(0nat),
            Some(i) => Some(((i + len - 1) % (len as int)) as nat),
        }
    }
}

/// The cursor after `steps` steps forward.
pub open spec fn next_cursor_n(cursor: Option<nat>, len: nat, steps: nat) -> Option<nat>
    decreases steps,
{
    if steps == 0 {
        cursor
    } else {
        next_cursor(next_cursor_n(cursor, len, (steps - 1) as nat), len)
    }
}

/// The cursor after `steps` steps backward.
pub open spec fn previous_cursor_n(cursor: Option<nat>, len: nat, steps: nat) -> Option<nat>
    decreases steps,
{
    if steps == 0 {
        cursor
    } else {
        previous_cursor(previous_cursor_n(cursor, len, (steps - 1) as nat), len)
    }
}

/// An ordered list of items together with an optional cursor into it.
///
/// The cursor is either unset or the index of one of the items; a list
/// without items never has a cursor.
pub struct StatefulList<T> {
    items: Vec<T>,
    cursor: Option<usize>,
}

impl<T> View for StatefulList<T> {
    type V = ListView<T>;

    closed spec fn view(&self) -> ListView<T> {
        ListView {
            items: self.items@,
            cursor: match self.cursor {
                Some(i) => Some(i as nat),
                None => None,
            },
        }
    }
}

impl<T> StatefulList<T> {
    /// The invariant of the type: a cursor, where set, is the index of one
    /// of the items.
    #[verifier::type_invariant]
    spec fn cursor_in_range(&self) -> bool {
        self.cursor matches Some(i) ==> i < self.items@.len()
    }

    /// A list over `items` with no cursor set.
    pub fn with_items(items: Vec<T>) -> (list: Self)
        ensures
            list@ == (ListView { items: items@, cursor: None }),
    {
        StatefulList { items, cursor: None }
    }

    /// The items, in order.
    pub fn items(&self) -> (items: &Vec<T>)
        ensures
            items@ == self@.items,
    {
        &self.items
    }

    /// The number of items.
    pub fn len(&self) -> (n: usize)
        ensures
            n == self@.items.len(),
    {
        self.items.len()
    }

    /// The index under the cursor, or `None` while no cursor is set.
    pub fn selected(&self) -> (index: Option<usize>)
        ensures
            self@.wf(),
            match index {
                Some(i) => self@.cursor == Some(i as nat),
                None => self@.cursor is None,
            },
    {
        proof {
            use_type_invariant(self);
        }
        self.cursor
    }

    /// Moves the cursor one item forward, wrapping from the last item to the
    /// first. A list without items is left as it is.
    pub fn next(&mut self)
        ensures
            final(self)@ == old(self)@.forward(),
            old(self)@.items.len() == 0 ==> final(self)@.cursor is None,
            final(self)@.wf(),
        no_unwind
    {
        proof {
            use_type_invariant(&*self);
        }
        let len = self.items.len();
        if len == 0 {
            return ;
        }
        let i: usize = match self.cursor {
            Some(i) => if i >= len - 1 {
                0
            } else {
                i + 1
            },
            None => 0,
        };
        proof {
            lemma_step_forward(old(self)@.cursor, len as nat);
        }
        self.cursor = Some(i);
    }

    /// Moves the cursor one item backward, wrapping from the first item to the
    /// last. A list without items is left as it is.
    pub fn previous(&mut self)
        ensures
            final(self)@ == old(self)@.backward(),
            old(self)@.items.len() == 0 ==> final(self)@.cursor is None,
            final(self)@.wf(),
        no_unwind
    {
        proof {
            use_type_invariant(&*self);
        }
        let len = self.items.len();
        if len == 0 {
            return ;
        }
        let i: usize = match self.cursor {
            Some(i) => if i == 0 {
                len - 1
            } else {
                i - 1
            },
            None => 0,
        };
        proof {
            lemma_step_backward(old(self)@.cursor, len as nat);
        }
        self.cursor = Some(i);
    }
}

/// One step forward without modular arithmetic: the last position is
/// followed by the first, any other by its successor.
pub proof fn lemma_step_forward(cursor: Option<nat>, len: nat)
    requires
        len > 0,
        cursor matches Some(i) ==> i < len,
    ensures
        next_cursor(cursor, len) == match cursor {
            None => Some(0nat),
            Some(i) => if i + 1 == len {
                Some(0nat)
            } else {
                Some(i + 1)
            },
        },
{
    if let Some(i) = cursor {
        if i + 1 == len {
            assert((i + 1) % len == 0) by (nonlinear_arith)
                requires
                    i + 1 == len,
                    len > 0,
            ;
        } else {
            assert((i + 1) % len == i + 1) by (nonlinear_arith)
                requires
                    i + 1 < len,
            ;
        }
    }
}

/// One step backward without modular arithmetic: the first position is
/// preceded by the last, any other by its predecessor.
pub proof fn lemma_step_backward(cursor: Option<nat>, len: nat)
    requires
        len > 0,
        cursor matches Some(i) ==> i < len,
    ensures
        previous_cursor(cursor, len) == match cursor {
            None => Some(0nat),
            Some(i) => if i == 0 {
                Some((len - 1) as nat)
            } else {
                Some((i - 1) as nat)
            },
        },
{
    if let Some(i) = cursor {
        if i == 0 {
            assert((i + len - 1) % (len as int) == len - 1) by (nonlinear_arith)
                requires
                    i == 0,
                    len > 0,
            ;
        } else {
            assert((i + len - 1) % (len as int) == i - 1) by (nonlinear_arith)
                requires
                    0 < i < len,
            ;
        }
    }
}

/// From position `start`, `steps` steps forward lead to the position
/// `start + steps`, counted around the ring.
pub proof fn lemma_next_cursor_n(start: nat, len: nat, steps: nat)
    requires
        start < len,
    ensures
        next_cursor_n(Some(start), len, steps) == Some((start + steps) % len),
    decreases steps,
{
    if steps == 0 {
        lemma_small_mod(start, len);
    } else {
        lemma_next_cursor_n(start, len, (steps - 1) as nat);
        lemma_add_mod_noop_right(1, start + steps - 1, len as int);
    }
}

/// From position `start`, `steps` steps backward lead to the position
/// `start - steps`, counted around the ring.
pub proof fn lemma_previous_cursor_n(start: nat, len: nat, steps: nat)
    requires
        start < len,
    ensures
        previous_cursor_n(Some(start), len, steps) == Some(
            ((start - steps) % (len as int)) as nat,
        ),
    decreases steps,
{
    if steps == 0 {
        lemma_small_mod(start, len);
    } else {
        lemma_previous_cursor_n(start, len, (steps - 1) as nat);
        lemma_add_mod_noop_right(len - 1, start - steps + 1, len as int);
        lemma_mod_add_multiples_vanish(start - steps, len as int);
    }
}

/// In a list that is not empty, as many steps forward as the list has items
/// bring a set cursor back to where it started.
pub proof fn lemma_next_cycle<T>(list: ListView<T>)
    requires
        list.wf(),
        list.cursor is Some,
    ensures
        next_cursor_n(list.cursor, list.items.len(), list.items.len()) == list.cursor,
{
    let start = list.cursor->0;
    let len = list.items.len();
    lemma_next_cursor_n(start, len, len);
    lemma_mod_add_multiples_vanish(start as int, len as int);
    lemma_small_mod(start, len);
}

/// In a list that is not empty, as many steps backward as the list has items
/// bring a set cursor back to where it started.
pub proof fn lemma_previous_cycle<T>(list: ListView<T>)
    requires
        list.wf(),
        list.cursor is Some,
    ensures
        previous_cursor_n(list.cursor, list.items.len(), list.items.len()) == list.cursor,
{
    let start = list.cursor->0;
    let len = list.items.len();
    lemma_previous_cursor_n(start, len, len);
    lemma_mod_sub_multiples_vanish(start as int, len as int);
    lemma_small_mod(start, len);
}

/// Steps in either direction keep the cursor of an empty list unset, and
/// keep a cursor that points at an item pointing at an item.
pub proof fn lemma_steps_keep_cursor_in_range(cursor: Option<nat>, len: nat)
    requires
        cursor matches Some(i) ==> i < len,
    ensures
        next_cursor(cursor, len) matches Some(i) ==> i < len,
        previous_cursor(cursor, len) matches Some(i) ==> i < len,
        len == 0 ==> next_cursor(cursor, len) is None && previous_cursor(cursor, len) is None,
        len > 0 ==> next_cursor(cursor, len) is Some && previous_cursor(cursor, len) is Some,
{
    if len > 0 {
        lemma_step_forward(cursor, len);
        lemma_step_backward(cursor, len);
    }
}

} // verus!
