//! An ordered list with at most one selected position.

use vstd::prelude::*;

verus! {

/// Items in a fixed order, and a cursor that is either nowhere or on one of
/// them. The cursor never points past the end.
pub struct StatefulList<T> {
    items: Vec<T>,
    selected: Option<usize>,
}

/// Where the cursor stands after a step forward in a list of `len` items:
/// on the first item when it stood nowhere or on the last, one further
/// otherwise. In an empty list it stays where it was.
pub open spec fn index_after_next(len: nat, selected: Option<usize>) -> Option<usize> {
    if len == 0 {
        selected
    } else {
        match selected {
            None => Some(0usize),
            Some(i) => if i + 1 >= len {
                Some(0usize)
            } else {
                Some((i + 1) as usize)
            },
        }
    }
}

/// Where the cursor stands after a step back in a list of `len` items: on
/// the last item when it stood on the first, one back otherwise, and on the
/// first when it stood nowhere. In an empty list it stays where it was.
pub open spec fn index_after_previous(len: nat, selected: Option<usize>) -> Option<usize> {
    if len == 0 {
        selected
    } else {
        match selected {
            None => Some(0usize),
            Some(i) => if i == 0 {
                Some((len - 1) as usize)
            } else {
                Some((i - 1) as usize)
            },
        }
    }
}

/// The cursor after `steps` steps forward.
pub open spec fn index_after_nexts(len: nat, selected: Option<usize>, steps: nat) -> Option<usize>
    decreases steps,
{
    if steps == 0 {
        selected
    } else {
        index_after_next(len, index_after_nexts(len, selected, (steps - 1) as nat))
    }
}

impl<T> StatefulList<T> {
    #[verifier::type_invariant]
    spec fn cursor_in_range(self) -> bool {
        self.selected matches Some(i) ==> i < self.items@.len()
    }

    /// Whether the cursor stands on an item or nowhere. It does in every
    /// list that there is.
    pub open spec fn cursor_on_list(self) -> bool {
        self.selection() matches Some(i) ==> i < self.items_view().len()
    }

    /// The items, in order.
    pub closed spec fn items_view(self) -> Seq<T> {
        self.items@
    }

    /// The position of the cursor, if it stands on an item.
    pub closed spec fn selection(self) -> Option<usize> {
        self.selected
    }

    /// A list of `items` with nothing selected.
    pub fn with_items(items: Vec<T>) -> (list: Self)
        ensures
            list.items_view() == items@,
            list.selection() is None,
            list.cursor_on_list(),
    {
        StatefulList { items, selected: None }
    }

    /// The items, in order.
    pub fn items(&self) -> (items: &Vec<T>)
        ensures
            items@ == self.items_view(),
    {
        &self.items
    }

    /// The position of the cursor, if it stands on an item.
    pub fn selected_index(&self) -> (index: Option<usize>)
        ensures
            index == self.selection(),
            self.cursor_on_list(),
    {
        proof {
            use_type_invariant(self);
        }
        self.selected
    }

    /// Moves the cursor one item forward, from the last item round to the
    /// first. With nothing selected the first item is taken.
    pub fn next(&mut self)
        ensures
            final(self).items_view() == old(self).items_view(),
            final(self).selection() == index_after_next(
                old(self).items_view().len(),
                old(self).selection(),
            ),
            old(self).cursor_on_list(),
            final(self).cursor_on_list(),
    {
        proof {
            use_type_invariant(&*self);
        }
        let len = self.items.len();
        if len == 0 {
            return ;
        }
        let index: usize = match self.selected {
            Some(i) => if i >= len - 1 {
                0
            } else {
                i + 1
            },
            None => 0,
        };
        self.selected = Some(index);
    }

    /// Moves the cursor one item back, from the first item round to the
    /// last. With nothing selected the first item is taken.
    pub fn previous(&mut self)
        ensures
            final(self).items_view() == old(self).items_view(),
            final(self).selection() == index_after_previous(
                old(self).items_view().len(),
                old(self).selection(),
            ),
            old(self).cursor_on_list(),
            final(self).cursor_on_list(),
    {
        proof {
            use_type_invariant(&*self);
        }
        let len = self.items.len();
        if len == 0 {
            return ;
        }
        let index: usize = match self.selected {
            Some(i) => if i == 0 {
                len - 1
            } else {
                i - 1
            },
            None => 0,
        };
        self.selected = Some(index);
    }

    /// Takes the cursor off the list.
    pub fn unselect(&mut self)
        ensures
            final(self).items_view() == old(self).items_view(),
            final(self).selection() is None,
            final(self).cursor_on_list(),
    {
        self.selected = None;
    }

    /// The item under the cursor.
    pub fn grab_selected(&self) -> (item: Option<&T>)
        ensures
            self.cursor_on_list(),
            match self.selection() {
                Some(i) => item == Some(&self.items_view()[i as int]),
                None => item is None,
            },
    {
        proof {
            use_type_invariant(self);
        }
        match self.selected {
            Some(i) => Some(&self.items[i]),
            None => None,
        }
    }
}

/// The place that `count` places on from the first item come to, counted
/// round a list of `len` items.
pub open spec fn place_round(len: nat, count: nat) -> usize {
    ((count as int) % (len as int)) as usize
}

/// From any item, `steps` steps forward lead to the item that many places
/// further on, counted round the list.
pub proof fn lemma_nexts_from_item(len: nat, start: usize, steps: nat)
    requires
        start < len,
        len <= usize::MAX,
    ensures
        index_after_nexts(len, Some(start), steps) == Some(place_round(len, start as nat + steps)),
    decreases steps,
{
    let n = len as int;
    if steps == 0 {
        assert((start as int) % n == start as int) by (nonlinear_arith)
            requires
                0 <= start < n,
        ;
    } else {
        let before = (steps - 1) as nat;
        lemma_nexts_from_item(len, start, before);
        let count = start as int + before as int;
        lemma_one_place_on(n, count);
    }
}

/// One place on from a place counted round the list is the next place, or
/// the first one after the last.
proof fn lemma_one_place_on(n: int, count: int)
    requires
        0 < n,
        0 <= count,
    ensures
        0 <= count % n < n,
        (count % n) + 1 >= n ==> (count + 1) % n == 0,
        (count % n) + 1 < n ==> (count + 1) % n == (count % n) + 1,
{
    vstd::arithmetic::div_mod::lemma_fundamental_div_mod(count, n);
    vstd::arithmetic::div_mod::lemma_mod_bound(count, n);
    let q = count / n;
    let r = count % n;
    if r + 1 >= n {
        assert(count + 1 == (q + 1) * n + 0) by (nonlinear_arith)
            requires
                count == n * q + r,
                r + 1 == n,
        ;
        vstd::arithmetic::div_mod::lemma_fundamental_div_mod_converse(count + 1, n, q + 1, 0);
    } else {
        assert(count + 1 == q * n + (r + 1)) by (nonlinear_arith)
            requires
                count == n * q + r,
        ;
        vstd::arithmetic::div_mod::lemma_fundamental_div_mod_converse(count + 1, n, q, r + 1);
    }
}

/// In a list of `len` items, `len` steps forward from the first item lead
/// back to the first item, and so they do from any other item to itself.
pub proof fn lemma_full_turn(len: nat, start: usize)
    requires
        start < len,
        len <= usize::MAX,
    ensures
        index_after_nexts(len, Some(start), len) == Some(start),
        index_after_nexts(len, Some(0usize), len) == Some(0usize),
{
    let n = len as int;
    lemma_nexts_from_item(len, start, len);
    lemma_nexts_from_item(len, 0, len);
    assert(start as int + n == 1 * n + start as int && n == 1 * n + 0) by (nonlinear_arith);
    vstd::arithmetic::div_mod::lemma_fundamental_div_mod_converse(
        start as int + n,
        n,
        1,
        start as int,
    );
    vstd::arithmetic::div_mod::lemma_fundamental_div_mod_converse(n, n, 1, 0);
}

/// With nothing selected, the first step forward takes the first item, so
/// `steps` steps lead to the item at `steps - 1`, counted round the list.
pub proof fn lemma_nexts_from_nowhere(len: nat, steps: nat)
    requires
        0 < len <= usize::MAX,
        0 < steps,
    ensures
        index_after_nexts(len, None, steps) == Some(place_round(len, (steps - 1) as nat)),
    decreases steps,
{
    let n = len as int;
    if steps == 1 {
        assert(index_after_nexts(len, None, 0) == None::<usize>);
        assert(0 == 0 * n + 0) by (nonlinear_arith);
        vstd::arithmetic::div_mod::lemma_fundamental_div_mod_converse(0, n, 0, 0);
    } else {
        let before = (steps - 1) as nat;
        lemma_nexts_from_nowhere(len, before);
        lemma_one_place_on(n, before - 1);
    }
}

/// A step back from the first item leads to the last one, and a step
/// forward from the last one leads to the first.
pub proof fn lemma_wraps_at_the_ends(len: nat)
    requires
        0 < len <= usize::MAX,
    ensures
        index_after_previous(len, Some(0usize)) == Some((len - 1) as usize),
        index_after_next(len, Some((len - 1) as usize)) == Some(0usize),
{
}

/// A step forward and a step back undo each other, wherever the cursor
/// stands on the list.
pub proof fn lemma_next_previous_cancel(len: nat, at: usize)
    requires
        at < len,
        len <= usize::MAX,
    ensures
        index_after_previous(len, index_after_next(len, Some(at))) == Some(at),
        index_after_next(len, index_after_previous(len, Some(at))) == Some(at),
{
}

/// In an empty list no step selects anything.
pub proof fn lemma_empty_list_keeps_nothing(steps: nat)
    ensures
        index_after_nexts(0, None, steps) is None,
        index_after_next(0, None) is None,
        index_after_previous(0, None) is None,
    decreases steps,
{
    if steps > 0 {
        lemma_empty_list_keeps_nothing((steps - 1) as nat);
    }
}

/// A step never takes the cursor off the list: it lands on an item, or, in
/// an empty list, stays nowhere.
pub proof fn lemma_steps_stay_in_range(len: nat, selected: Option<usize>)
    requires
        len <= usize::MAX,
        selected matches Some(i) ==> i < len,
    ensures
        index_after_next(len, selected) matches Some(i) ==> i < len,
        index_after_previous(len, selected) matches Some(i) ==> i < len,
        len > 0 ==> index_after_next(len, selected) is Some,
        len > 0 ==> index_after_previous(len, selected) is Some,
{
}

} // verus!
