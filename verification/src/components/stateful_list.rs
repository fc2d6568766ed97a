//! A list with a single selection that wraps around at both ends.

use vstd::prelude::*;

verus! {

/// The mathematical content of a [`StatefulList`]: its items in order and
/// the position of the selected one.
pub struct ListModel<T> {
    pub items: Seq<T>,
    pub selected: Option<nat>,
}

impl<T> ListModel<T> {
    /// A selection exists exactly when there is something to select, and it
    /// then points at an item.
    pub open spec fn wf(self) -> bool {
        match self.selected {
            Some(i) => i < self.items.len(),
            None => self.items.len() == 0,
        }
    }

    /// The list made from `items`: the first item is selected if there is one.
    pub open spec fn with_items(items: Seq<T>) -> Self {
        ListModel { items, selected: if items.len() == 0 { None } else { Some(0) } }
    }

    /// The position after `i` in a ring of `len` places.
    pub open spec fn succ(len: nat, i: nat) -> nat {
        if i + 1 >= len { 0 } else { i + 1 }
    }

    /// The position before `i` in a ring of `len` places.
    pub open spec fn pred(len: nat, i: nat) -> nat {
        if i == 0 { (len - 1) as nat } else { (i - 1) as nat }
    }

    /// The selection moved one item forward, past the last item back to the
    /// first. An empty list stays as it is.
    pub open spec fn next(self) -> Self {
        if self.items.len() == 0 {
            self
        } else {
            ListModel {
                items: self.items,
                selected: Some(
                    match self.selected {
                        Some(i) => Self::succ(self.items.len(), i),
                        None => 0,
                    },
                ),
            }
        }
    }

    /// The selection moved one item back, before the first item on to the
    /// last. An empty list stays as it is.
    pub open spec fn previous(self) -> Self {
        if self.items.len() == 0 {
            self
        } else {
            ListModel {
                items: self.items,
                selected: Some(
                    match self.selected {
                        Some(i) => Self::pred(self.items.len(), i),
                        None => 0,
                    },
                ),
            }
        }
    }

    /// `next` applied `n` times.
    pub open spec fn next_n(self, n: nat) -> Self
        decreases n,
    {
        if n == 0 {
            self
        } else {
            self.next_n((n - 1) as nat).next()
        }
    }

    /// The selected item, if any.
    pub open spec fn selected_item(self) -> Option<T> {
        match self.selected {
            Some(i) => if i < self.items.len() { Some(self.items[i as int]) } else { None },
            None => None,
        }
    }
}

/// An ordered list of items of which at most one is selected.
///
/// A non-empty list always has a selection and an empty one never has: the
/// list is built by [`StatefulList::with_items`] and only `next` and
/// `previous` move the selection.
pub struct StatefulList<T> {
    selected: Option<usize>,
    items: Vec<T>,
}

impl<T> View for StatefulList<T> {
    type V = ListModel<T>;

    closed spec fn view(&self) -> ListModel<T> {
        ListModel {
            items: self.items@,
            selected: match self.selected {
                Some(i) => Some(i as nat),
                None => None,
            },
        }
    }
}

impl<T> StatefulList<T> {
    #[verifier::type_invariant]
    spec fn inv(self) -> bool {
        self@.wf()
    }

    /// Builds a list from `items` and selects the first of them.
    pub fn with_items(items: Vec<T>) -> (list: Self)
        ensures
            list@ == ListModel::with_items(items@),
            list@.wf(),
    {
        let selected = if items.len() == 0 { None } else { Some(0) };
        StatefulList { selected, items }
    }

    /// Selects the item after the selected one, or the first item when the
    /// last one is selected. Does nothing on an empty list.
    pub fn next(&mut self)
        ensures
            final(self)@ == old(self)@.next(),
            final(self)@.wf(),
    {
        proof {
            use_type_invariant(&*self);
        }
        if self.items.len() == 0 {
            return ;
        }
        let i: usize = match self.selected {
            Some(i) => if i >= self.items.len() - 1 { 0 } else { i + 1 },
            None => 0,
        };
        self.selected = Some(i);
    }

    /// Selects the item before the selected one, or the last item when the
    /// first one is selected. Does nothing on an empty list.
    pub fn previous(&mut self)
        ensures
            final(self)@ == old(self)@.previous(),
            final(self)@.wf(),
    {
        proof {
            use_type_invariant(&*self);
        }
        if self.items.len() == 0 {
            return ;
        }
        let i: usize = match self.selected {
            Some(i) => if i == 0 { self.items.len() - 1 } else { i - 1 },
            None => 0,
        };
        self.selected = Some(i);
    }

    /// The selected item, or `None` on an empty list.
    pub fn selected_item(&self) -> (item: Option<&T>)
        ensures
            self@.wf(),
            match item {
                Some(found) => self@.selected_item() == Some(*found),
                None => self@.selected_item() is None,
            },
    {
        proof {
            use_type_invariant(self);
        }
        match self.selected {
            Some(i) => Some(&self.items[i]),
            None => None,
        }
    }

    /// The position of the selected item, or `None` on an empty list.
    pub fn selected(&self) -> (index: Option<usize>)
        ensures
            self@.wf(),
            match index {
                Some(i) => self@.selected == Some(i as nat),
                None => self@.selected is None,
            },
    {
        proof {
            use_type_invariant(self);
        }
        self.selected
    }

    /// The items in order.
    pub fn items(&self) -> (items: &Vec<T>)
        ensures
            self@.wf(),
            items@ == self@.items,
    {
        proof {
            use_type_invariant(self);
        }
        &self.items
    }
}

/// Moving forward once for every item of a non-empty list brings the
/// selection back to where it started.
pub proof fn lemma_next_cycles<T>(list: ListModel<T>)
    requires
        list.wf(),
        list.items.len() > 0,
    ensures
        list.next_n(list.items.len()) == list,
{
    lemma_next_n(list, list.items.len());
}

/// After `n` steps forward, with `n` at most the number of items, the
/// selection stands `n` places further along the ring.
proof fn lemma_next_n<T>(list: ListModel<T>, n: nat)
    requires
        list.wf(),
        list.items.len() > 0,
        n <= list.items.len(),
    ensures
        list.next_n(n).items == list.items,
        list.next_n(n).selected == Some(
            if list.selected->0 + n < list.items.len() {
                list.selected->0 + n
            } else {
                (list.selected->0 + n - list.items.len()) as nat
            },
        ),
    decreases n,
{
    if n > 0 {
        lemma_next_n(list, (n - 1) as nat);
    }
}

/// Moving back undoes moving forward, and moving forward undoes moving
/// back.
pub proof fn lemma_previous_inverts_next<T>(list: ListModel<T>)
    requires
        list.wf(),
    ensures
        list.next().previous() == list,
        list.previous().next() == list,
        list.next().wf(),
        list.previous().wf(),
{
}

/// A list built from no items has no selection, and on a list without
/// items moving in either direction changes nothing.
pub proof fn lemma_empty_is_fixed<T>(list: ListModel<T>)
    requires
        list.items.len() == 0,
    ensures
        ListModel::<T>::with_items(Seq::empty()).selected is None,
        ListModel::<T>::with_items(Seq::empty()).wf(),
        list.next() == list,
        list.previous() == list,
{
}

} // verus!
