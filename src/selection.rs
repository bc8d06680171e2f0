use vstd::prelude::*;

verus! {

/// Where `next` moves a cursor over a list of `len` items: one step forward,
/// wrapping from the last item to the first; an unset cursor lands on the first.
pub open spec fn next_cursor(cursor: Option<nat>, len: nat) -> nat {
    match cursor {
        Some(i) => if i + 1 >= len { 0 } else { (i + 1) as nat },
        None => 0,
    }
}

/// Where `previous` moves a cursor over a list of `len` items: one step back,
/// wrapping from the first item to the last; an unset cursor lands on the first.
pub open spec fn previous_cursor(cursor: Option<nat>, len: nat) -> nat {
    match cursor {
        Some(i) => if i == 0 { (len - 1) as nat } else { (i - 1) as nat },
        None => 0,
    }
}

/// The item under `cursor`, if the cursor is set.
pub open spec fn selected_of<T>(items: Seq<T>, cursor: Option<nat>) -> Option<T> {
    match cursor {
        Some(i) => Some(items[i as int]),
        None => None,
    }
}

/// The cursor after `k` calls of `next` on a list of `len` items, starting from `cursor`.
pub open spec fn next_cursor_after(cursor: Option<nat>, len: nat, k: nat) -> Option<nat>
    decreases k,
{
    if k == 0 {
        cursor
    } else {
        Some(next_cursor(next_cursor_after(cursor, len, (k - 1) as nat), len))
    }
}

proof fn lemma_steps_from_unset(len: nat, k: nat)
    requires
        1 <= k <= len,
    ensures
        next_cursor_after(None, len, k) == Some((k - 1) as nat),
    decreases k,
{
    if k > 1 {
        lemma_steps_from_unset(len, (k - 1) as nat);
    } else {
        assert(next_cursor_after(None, len, 0) == None::<nat>);
    }
}

proof fn lemma_steps_from_first(len: nat, k: nat)
    requires
        1 <= len,
        k < len,
    ensures
        next_cursor_after(Some(0), len, k) == Some(k),
    decreases k,
{
    if k > 0 {
        lemma_steps_from_first(len, (k - 1) as nat);
    } else {
        assert(next_cursor_after(Some(0), len, 0) == Some(0nat));
    }
}

/// Moving the cursor wraps around in both directions. On a list of `len >= 1`
/// items, `len` calls of `next` from an unset cursor visit every item once, in
/// order, and end on the last item (on a one-item list, that is the first);
/// one call more comes back to the first. From the first item, `len` calls of
/// `next` return to it, and one call of `previous` lands on the last item.
pub proof fn lemma_cursor_wraps(len: nat)
    requires
        len >= 1,
    ensures
        forall|k: nat| 1 <= k <= len ==> #[trigger] next_cursor_after(None, len, k) == Some((k - 1) as nat),
        next_cursor_after(None, len, len + 1) == Some(0nat),
        len == 1 ==> next_cursor_after(None, len, len) == Some(0nat),
        next_cursor_after(Some(0nat), len, len) == Some(0nat),
        previous_cursor(Some(0nat), len) == len - 1,
{
    assert forall|k: nat| 1 <= k <= len implies #[trigger] next_cursor_after(None, len, k) == Some((k - 1) as nat) by {
        lemma_steps_from_unset(len, k);
    }
    lemma_steps_from_unset(len, len);
    lemma_steps_from_first(len, (len - 1) as nat);
}

/// After `unselect`, `get_selected` finds nothing, wherever the cursor stood before.
pub proof fn lemma_unselect_then_confirm<T>(items: Seq<T>, cursor: Option<nat>)
    ensures
        selected_of(items, None).is_none(),
        cursor.is_some() ==> selected_of(items, cursor).is_some(),
{
}

/// An ordered, non-empty list of items with an optional highlighted position.
pub struct Listener<T> {
    items: Vec<T>,
    cursor: Option<usize>,
}

impl<T> Listener<T> {
    #[verifier::type_invariant]
    spec fn well_formed(&self) -> bool {
        &&& self.items.len() > 0
        &&& match self.cursor {
            Some(i) => i < self.items.len(),
            None => true,
        }
    }

    /// The items, in order.
    pub closed spec fn items_view(&self) -> Seq<T> {
        self.items@
    }

    /// The highlighted position, if any.
    pub closed spec fn cursor_view(&self) -> Option<nat> {
        match self.cursor {
            Some(i) => Some(i as nat),
            None => None,
        }
    }

    /// A list of `items` with nothing highlighted.
    pub fn new(items: Vec<T>) -> (r: Listener<T>)
        requires
            items.len() > 0,
        ensures
            r.items_view() == items@,
            r.cursor_view() == None::<nat>,
    {
        Listener { items, cursor: None }
    }

    /// Replaces the items and clears the highlight.
    pub fn set_items(&mut self, items: Vec<T>)
        requires
            items.len() > 0,
        ensures
            final(self).items_view() == items@,
            final(self).cursor_view() == None::<nat>,
    {
        *self = Listener { items, cursor: None };
    }

    /// The highlighted item, or `None` when nothing is highlighted.
    pub fn get_selected(&self) -> (r: Option<&T>)
        ensures
            r.is_some() == self.cursor_view().is_some(),
            match r {
                Some(x) => Some(*x) == selected_of(self.items_view(), self.cursor_view()),
                None => true,
            },
    {
        proof {
            use_type_invariant(self);
        }
        match self.cursor {
            Some(i) => Some(&self.items[i]),
            None => None,
        }
    }

    /// Highlights the next item, wrapping around after the last.
    pub fn next(&mut self)
        ensures
            final(self).items_view() == old(self).items_view(),
            final(self).cursor_view() == Some(
                next_cursor(old(self).cursor_view(), old(self).items_view().len()),
            ),
    {
        proof {
            use_type_invariant(&*self);
        }
        let i: usize = match self.cursor {
            Some(i) => if i >= self.items.len() - 1 {
                0
            } else {
                i + 1
            },
            None => 0,
        };
        self.cursor = Some(i);
    }

    /// Highlights the previous item, wrapping around before the first.
    pub fn previous(&mut self)
        ensures
            final(self).items_view() == old(self).items_view(),
            final(self).cursor_view() == Some(
                previous_cursor(old(self).cursor_view(), old(self).items_view().len()),
            ),
    {
        proof {
            use_type_invariant(&*self);
        }
        let i: usize = match self.cursor {
            Some(i) => if i == 0 {
                self.items.len() - 1
            } else {
                i - 1
            },
            None => 0,
        };
        self.cursor = Some(i);
    }

    /// Clears the highlight.
    pub fn unselect(&mut self)
        ensures
            final(self).items_view() == old(self).items_view(),
            final(self).cursor_view() == None::<nat>,
    {
        proof {
            use_type_invariant(&*self);
        }
        self.cursor = None;
    }

    /// The item at `index`.
    pub fn get_item(&self, index: usize) -> (r: &T)
        requires
            index < self.items_view().len(),
        ensures
            *r == self.items_view()[index as int],
    {
        &self.items[index]
    }

    /// The items, in order.
    pub fn items(&self) -> (r: &Vec<T>)
        ensures
            r@ == self.items_view(),
    {
        &self.items
    }

    /// The highlighted position, if any.
    pub fn selected_index(&self) -> (r: Option<usize>)
        ensures
            match r {
                Some(i) => self.cursor_view() == Some(i as nat),
                None => self.cursor_view() == None::<nat>,
            },
    {
        self.cursor
    }
}

} // verus!
