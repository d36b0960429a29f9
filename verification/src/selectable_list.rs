//! An ordered list with at most one selected position and wraparound moves.

use vstd::prelude::*;

verus! {

/// A selection is valid for a list of `len` items when it is unset or names
/// one of them. On an empty list it can only be unset.
pub open spec fn selection_in_range(len: nat, selected: Option<nat>) -> bool {
    match selected {
        None => true,
        Some(i) => i < len,
    }
}

/// The selection after one step forward: the first item when nothing was
/// selected, the first item again after the last one, the following item
/// otherwise. An empty list has no selection.
pub open spec fn selection_after_next(len: nat, selected: Option<nat>) -> Option<nat> {
    if len == 0 {
        None
    } else {
        match selected {
            None => Some(0),
            Some(i) => if i + 1 >= len {
                Some(0)
            } else {
                Some(i + 1)
            },
        }
    }
}

/// The selection after one step back: the first item when nothing was
/// selected, the last item before the first one, the preceding item
/// otherwise. An empty list has no selection.
pub open spec fn selection_after_previous(len: nat, selected: Option<nat>) -> Option<nat> {
    if len == 0 {
        None
    } else {
        match selected {
            None => Some(0),
            Some(i) => if i == 0 {
                Some((len - 1) as nat)
            } else {
                Some((i - 1) as nat)
            },
        }
    }
}

/// The selection once the list has shrunk to `len` items: the index stays
/// where it was unless it would point past the end, in which case it falls
/// back to the last item, or to nothing when no item is left.
pub open spec fn selection_clamped(len: nat, selected: Option<nat>) -> Option<nat> {
    match selected {
        None => None,
        Some(i) => if len == 0 {
            None
        } else if i >= len {
            Some((len - 1) as nat)
        } else {
            Some(i)
        },
    }
}

/// One step of the selection.
pub enum Move {
    Next,
    Previous,
}

/// The selection after the given moves, made in order.
pub open spec fn selection_after_moves(len: nat, selected: Option<nat>, moves: Seq<Move>) -> Option<
    nat,
>
    decreases moves.len(),
{
    if moves.len() == 0 {
        selected
    } else {
        let before = selection_after_moves(len, selected, moves.drop_last());
        match moves.last() {
            Move::Next => selection_after_next(len, before),
            Move::Previous => selection_after_previous(len, before),
        }
    }
}

/// The selection after `count` steps forward.
pub open spec fn selection_after_next_times(len: nat, selected: Option<nat>, count: nat) -> Option<
    nat,
>
    decreases count,
{
    if count == 0 {
        selected
    } else {
        selection_after_next(len, selection_after_next_times(len, selected, (count - 1) as nat))
    }
}

/// Whatever moves are made on a list that is not empty, the selection names
/// an item of the list; and after the first move something is selected.
pub proof fn law_moves_keep_selection_in_range(len: nat, selected: Option<nat>, moves: Seq<Move>)
    requires
        len > 0,
        selection_in_range(len, selected),
    ensures
        selection_in_range(len, selection_after_moves(len, selected, moves)),
        moves.len() > 0 ==> selection_after_moves(len, selected, moves) is Some,
    decreases moves.len(),
{
    if moves.len() > 0 {
        law_moves_keep_selection_in_range(len, selected, moves.drop_last());
    }
}

/// Stepping forward `count` times, at most once round the list, adds
/// `count` to the selected index and takes the length off where the end was
/// passed.
proof fn lemma_next_times(len: nat, start: nat, count: nat)
    requires
        start < len,
        count <= len,
    ensures
        selection_after_next_times(len, Some(start), count) == Some(
            if start + count < len {
                start + count
            } else {
                (start + count - len) as nat
            },
        ),
    decreases count,
{
    if count > 0 {
        lemma_next_times(len, start, (count - 1) as nat);
    }
}

/// Wrapping is exact: as many steps forward as the list has items lead back
/// to the item where they began.
pub proof fn law_next_wraps_exactly(len: nat, start: nat)
    requires
        len > 0,
        start < len,
    ensures
        selection_after_next_times(len, Some(start), len) == Some(start),
{
    lemma_next_times(len, start, len);
}

/// A step back undoes a step forward, and a step forward undoes a step
/// back, wherever an item is selected.
pub proof fn law_next_and_previous_are_inverse(len: nat, start: nat)
    requires
        start < len,
    ensures
        selection_after_previous(len, selection_after_next(len, Some(start))) == Some(start),
        selection_after_next(len, selection_after_previous(len, Some(start))) == Some(start),
{
}

/// The mathematical content of a [`SelectableList`].
pub struct ListView<T> {
    pub items: Seq<T>,
    pub selected: Option<nat>,
}

impl<T> ListView<T> {
    /// The selection, if set, names an item of the list.
    pub open spec fn wf(self) -> bool {
        selection_in_range(self.items.len(), self.selected)
    }

    /// The list as a session first shows it: the first item selected, or
    /// nothing where there is no item.
    pub open spec fn starting(items: Seq<T>) -> ListView<T> {
        ListView { items, selected: if items.len() == 0 { None } else { Some(0nat) } }
    }

    /// The list after one step forward.
    pub open spec fn select_next(self) -> ListView<T> {
        ListView { items: self.items, selected: selection_after_next(self.items.len(), self.selected) }
    }

    /// The list after one step back.
    pub open spec fn select_previous(self) -> ListView<T> {
        ListView {
            items: self.items,
            selected: selection_after_previous(self.items.len(), self.selected),
        }
    }

    /// The list without the item at `index`; the selection keeps its index as
    /// far as the shorter list allows. An index past the end changes nothing.
    pub open spec fn remove_at(self, index: nat) -> ListView<T> {
        if index < self.items.len() {
            ListView {
                items: self.items.remove(index as int),
                selected: selection_clamped((self.items.len() - 1) as nat, self.selected),
            }
        } else {
            self
        }
    }

    /// The list without its selected item, or unchanged when nothing is
    /// selected.
    pub open spec fn remove_selected(self) -> ListView<T> {
        match self.selected {
            None => self,
            Some(i) => self.remove_at(i),
        }
    }

    /// The list with `item` appended; the selection does not move.
    pub open spec fn push(self, item: T) -> ListView<T> {
        ListView { items: self.items.push(item), selected: self.selected }
    }
}

/// An ordered collection together with an optional selected index.
pub struct SelectableList<T> {
    items: Vec<T>,
    selected: Option<usize>,
}

impl<T> View for SelectableList<T> {
    type V = ListView<T>;

    closed spec fn view(&self) -> ListView<T> {
        ListView {
            items: self.items@,
            selected: match self.selected {
                None => None,
                Some(i) => Some(i as nat),
            },
        }
    }
}

impl<T> SelectableList<T> {
    /// The selection, if set, names an item of the list.
    pub open spec fn wf(&self) -> bool {
        self@.wf()
    }

    /// An empty list with nothing selected.
    pub fn new() -> (list: SelectableList<T>)
        ensures
            list.wf(),
            list@.items == Seq::<T>::empty(),
            list@.selected is None,
    {
        SelectableList { items: Vec::new(), selected: None }
    }

    /// A list of the given items with the first one selected, if there is
    /// one.
    pub fn from_vec(items: Vec<T>) -> (list: SelectableList<T>)
        ensures
            list.wf(),
            list@.items == items@,
            list@.selected == if items@.len() == 0 { None::<nat> } else { Some(0nat) },
    {
        let selected = if items.len() == 0 { None } else { Some(0) };
        SelectableList { items, selected }
    }

    /// Moves the selection one item forward, wrapping from the last item to
    /// the first.
    pub fn select_next(&mut self)
        requires
            old(self).wf(),
        ensures
            final(self).wf(),
            final(self)@ == old(self)@.select_next(),
    {
        if self.items.len() == 0 {
            self.selected = None;
        } else {
            self.selected = match self.selected {
                None => Some(0),
                Some(i) => if i >= self.items.len() - 1 {
                    Some(0)
                } else {
                    Some(i + 1)
                },
            };
        }
    }

    /// Moves the selection one item back, wrapping from the first item to the
    /// last.
    pub fn select_previous(&mut self)
        requires
            old(self).wf(),
        ensures
            final(self).wf(),
            final(self)@ == old(self)@.select_previous(),
    {
        if self.items.len() == 0 {
            self.selected = None;
        } else {
            self.selected = match self.selected {
                None => Some(0),
                Some(i) => if i == 0 {
                    Some(self.items.len() - 1)
                } else {
                    Some(i - 1)
                },
            };
        }
    }

    /// The number of items.
    pub fn len(&self) -> (n: usize)
        ensures
            n == self@.items.len(),
    {
        self.items.len()
    }

    /// The selected index, if any.
    pub fn selected(&self) -> (index: Option<usize>)
        ensures
            index is Some == self@.selected is Some,
            index matches Some(i) ==> self@.selected == Some(i as nat),
    {
        self.selected
    }

    /// The items in order.
    pub fn items(&self) -> (items: &Vec<T>)
        ensures
            items@ == self@.items,
    {
        &self.items
    }

    /// Appends `item`; the selection does not move.
    pub fn push(&mut self, item: T)
        requires
            old(self).wf(),
        ensures
            final(self).wf(),
            final(self)@ == old(self)@.push(item),
    {
        self.items.push(item);
    }

    /// Mutable access to the item at `index`. Whatever the caller writes
    /// there takes that place in the list; the selection does not move.
    pub fn item_mut(&mut self, index: usize) -> (item: &mut T)
        requires
            old(self).wf(),
            index < old(self)@.items.len(),
        ensures
            *item == old(self)@.items[index as int],
            final(self).wf(),
            final(self)@ == (ListView {
                items: old(self)@.items.update(index as int, *final(item)),
                selected: old(self)@.selected,
            }),
    {
        &mut self.items[index]
    }

    /// Removes the item at `index` and hands it out. An index past the end
    /// removes nothing.
    pub fn remove_at(&mut self, index: usize) -> (removed: Option<T>)
        requires
            old(self).wf(),
        ensures
            final(self).wf(),
            final(self)@ == old(self)@.remove_at(index as nat),
            removed == if index < old(self)@.items.len() {
                Some(old(self)@.items[index as int])
            } else {
                None
            },
    {
        if index < self.items.len() {
            let item = self.items.remove(index);
            let len: usize = self.items.len();
            self.selected = match self.selected {
                None => None,
                Some(i) => if len == 0 {
                    None
                } else if i >= len {
                    Some(len - 1)
                } else {
                    Some(i)
                },
            };
            Some(item)
        } else {
            None
        }
    }

    /// Removes the selected item and hands it out; with nothing selected the
    /// list stays as it is.
    pub fn remove_selected(&mut self) -> (removed: Option<T>)
        requires
            old(self).wf(),
        ensures
            final(self).wf(),
            final(self)@ == old(self)@.remove_selected(),
            removed == match old(self)@.selected {
                None => None,
                Some(i) => Some(old(self)@.items[i as int]),
            },
    {
        match self.selected {
            None => None,
            Some(i) => self.remove_at(i),
        }
    }
}

} // verus!
