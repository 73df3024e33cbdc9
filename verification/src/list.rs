//! A list with one selectable row, as the tab controllers use it.
//!
//! The stored selection may go stale when a metadata refresh shrinks the
//! list; every reader treats an out-of-range index as "nothing selected".
//! Movement saturates at the ends of the list and never panics.

use crate::keys::{Key, is_down_key, is_first_key, is_last_key, is_left_key, is_up_key};
use vstd::prelude::*;

verus! {

/// A list of items plus the selection cursor of its widget.
#[derive(Debug, Clone)]
pub struct SelectList<T> {
    pub items: Vec<T>,
    pub selected: Option<usize>,
}

/// Where `select_next` moves the selection: onto the first item when nothing
/// was selected, else one step down, saturating at the last item.
pub open spec fn spec_select_next(sel: Option<usize>, len: int) -> Option<usize> {
    if len == 0 {
        None
    } else {
        match sel {
            None => Some(0usize),
            Some(i) => if i + 1 < len {
                Some((i + 1) as usize)
            } else {
                Some((len - 1) as usize)
            },
        }
    }
}

/// Where `select_previous` moves the selection: onto the last item when
/// nothing was selected, else one step up, saturating at the first item.
pub open spec fn spec_select_previous(sel: Option<usize>, len: int) -> Option<usize> {
    if len == 0 {
        None
    } else {
        match sel {
            None => Some((len - 1) as usize),
            Some(i) => if i == 0 {
                Some(0usize)
            } else if i - 1 < len {
                Some((i - 1) as usize)
            } else {
                Some((len - 1) as usize)
            },
        }
    }
}

/// The selection a reader acts on: the stored index, unless it is out of
/// range, which counts as "nothing selected".
pub open spec fn spec_effective_selection(sel: Option<usize>, len: int) -> Option<usize> {
    match sel {
        Some(i) => if i < len {
            Some(i)
        } else {
            None
        },
        None => None,
    }
}

impl<T> SelectList<T> {
    /// An empty list with nothing selected.
    pub fn new() -> (l: Self)
        ensures
            l.items@.len() == 0,
            l.selected is None,
    {
        SelectList { items: Vec::new(), selected: None }
    }

    /// The number of items.
    pub fn len(&self) -> (n: usize)
        ensures
            n == self.items@.len(),
    {
        self.items.len()
    }

    /// The selection a reader acts on; an out-of-range stored index counts
    /// as "nothing selected".
    pub fn selected_index(&self) -> (r: Option<usize>)
        ensures
            r == spec_effective_selection(self.selected, self.items@.len() as int),
    {
        match self.selected {
            Some(i) => if i < self.items.len() {
                Some(i)
            } else {
                None
            },
            None => None,
        }
    }

    /// Deselects.
    pub fn select_none(&mut self)
        ensures
            final(self).items == old(self).items,
            final(self).selected is None,
    {
        self.selected = None;
    }

    /// Moves the selection one step down, saturating at the last item.
    pub fn select_next(&mut self)
        ensures
            final(self).items == old(self).items,
            final(self).selected == spec_select_next(
                old(self).selected,
                old(self).items@.len() as int,
            ),
    {
        let len = self.items.len();
        if len == 0 {
            self.selected = None;
        } else {
            self.selected = Some(
                match self.selected {
                    None => 0,
                    Some(i) => if i < len - 1 {
                        i + 1
                    } else {
                        len - 1
                    },
                },
            );
        }
    }

    /// Moves the selection one step up, saturating at the first item.
    pub fn select_previous(&mut self)
        ensures
            final(self).items == old(self).items,
            final(self).selected == spec_select_previous(
                old(self).selected,
                old(self).items@.len() as int,
            ),
    {
        let len = self.items.len();
        if len == 0 {
            self.selected = None;
        } else {
            self.selected = Some(
                match self.selected {
                    None => len - 1,
                    Some(i) => {
                        let up = if i == 0 {
                            0
                        } else {
                            i - 1
                        };
                        if up < len {
                            up
                        } else {
                            len - 1
                        }
                    },
                },
            );
        }
    }

    /// Selects the first item, if there is one.
    pub fn select_first(&mut self)
        ensures
            final(self).items == old(self).items,
            final(self).selected == (if old(self).items@.len() == 0 {
                Option::<usize>::None
            } else {
                Some(0usize)
            }),
    {
        if self.items.len() == 0 {
            self.selected = None;
        } else {
            self.selected = Some(0);
        }
    }

    /// Selects the last item, if there is one.
    pub fn select_last(&mut self)
        ensures
            final(self).items == old(self).items,
            final(self).selected == (if old(self).items@.len() == 0 {
                Option::<usize>::None
            } else {
                Some((old(self).items@.len() - 1) as usize)
            }),
    {
        let len = self.items.len();
        if len == 0 {
            self.selected = None;
        } else {
            self.selected = Some(len - 1);
        }
    }

    /// Replaces the whole list, as a metadata refresh does.  The old items
    /// are gone; the stored selection is kept and may now be out of range,
    /// in which case readers treat it as "nothing selected".
    pub fn replace_items(&mut self, items: Vec<T>)
        ensures
            final(self).items == items,
            final(self).selected == old(self).selected,
    {
        self.items = items;
    }
}

/// Where the base-page selection keys move the selection of a list of
/// `len` items; any other key leaves it alone.
pub open spec fn spec_list_nav(sel: Option<usize>, len: int, key: Key) -> Option<usize> {
    if is_first_key(key) {
        if len == 0 {
            None
        } else {
            Some(0usize)
        }
    } else if is_last_key(key) {
        if len == 0 {
            None
        } else {
            Some((len - 1) as usize)
        }
    } else if is_left_key(key) {
        None
    } else if is_down_key(key) {
        spec_select_next(sel, len)
    } else if is_up_key(key) {
        spec_select_previous(sel, len)
    } else {
        sel
    }
}

/// Movement saturates: from the first item `select_previous` stays on the
/// first item, and from the last item `select_next` stays on the last item.
pub proof fn law_selection_saturates(len: int)
    requires
        len > 0,
    ensures
        spec_select_previous(Some(0usize), len) == Some(0usize),
        len - 1 <= usize::MAX ==> spec_select_next(
            Some((len - 1) as usize),
            len,
        ) == Some((len - 1) as usize),
{
}

/// A replaced list shows no stale selection: whatever index was stored, the
/// effective selection after a replacement is within the new list or none.
pub proof fn law_effective_selection_in_range(sel: Option<usize>, len: int)
    ensures
        spec_effective_selection(sel, len) matches Some(i) ==> i < len,
{
}

} // verus!
