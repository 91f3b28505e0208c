use vstd::prelude::*;

verus! {

/// An ordered list of items with at most one selected position.
pub struct StatefulList<T> {
    pub items: Vec<T>,
    pub selected: Option<usize>,
}

/// The selection that follows `sel` when moving forward in a list of `len` items.
pub open spec fn next_selection(sel: Option<usize>, len: nat) -> Option<usize> {
    if len == 0 {
        sel
    } else {
        match sel {
            None => Some(0usize),
            Some(i) => if i + 1 >= len { Some(0usize) } else { Some((i + 1) as usize) },
        }
    }
}

/// The selection that follows `sel` when moving backward in a list of `len` items.
pub open spec fn previous_selection(sel: Option<usize>, len: nat) -> Option<usize> {
    if len == 0 {
        sel
    } else {
        match sel {
            None => Some(0usize),
            Some(i) => if i == 0 { Some((len - 1) as usize) } else { Some((i - 1) as usize) },
        }
    }
}

impl<T> StatefulList<T> {
    /// The selection, if any, points at an item.
    pub open spec fn wf(&self) -> bool {
        match self.selected {
            Some(i) => i < self.items@.len(),
            None => true,
        }
    }

    /// A list over `items` with nothing selected.
    pub fn with_items(items: Vec<T>) -> (r: StatefulList<T>)
        ensures
            r.items@ == items@,
            r.selected is None,
            r.wf(),
    {
        StatefulList { items, selected: None }
    }

    /// Moves the selection one item forward, wrapping from the last item to the first.
    /// With nothing selected the first item is selected; an empty list stays unselected.
    pub fn next(&mut self)
        requires
            old(self).wf(),
        ensures
            final(self).wf(),
            final(self).items@ == old(self).items@,
            final(self).selected == next_selection(old(self).selected, old(self).items@.len()),
            old(self).items@.len() == 0 ==> final(self).selected is None,
            old(self).items@.len() > 0 ==> final(self).selected is Some,
    {
        let len = self.items.len();
        if len == 0 {
            return;
        }
        let i: usize = match self.selected {
            Some(i) => if i >= len - 1 { 0 } else { i + 1 },
            None => 0,
        };
        self.selected = Some(i);
    }

    /// Moves the selection one item backward, wrapping from the first item to the last.
    /// With nothing selected the first item is selected; an empty list stays unselected.
    pub fn previous(&mut self)
        requires
            old(self).wf(),
        ensures
            final(self).wf(),
            final(self).items@ == old(self).items@,
            final(self).selected == previous_selection(old(self).selected, old(self).items@.len()),
            old(self).items@.len() == 0 ==> final(self).selected is None,
            old(self).items@.len() > 0 ==> final(self).selected is Some,
    {
        let len = self.items.len();
        if len == 0 {
            return;
        }
        let i: usize = match self.selected {
            Some(i) => if i == 0 { len - 1 } else { i - 1 },
            None => 0,
        };
        self.selected = Some(i);
    }

    /// Clears the selection.
    pub fn unselect(&mut self)
        ensures
            final(self).wf(),
            final(self).items@ == old(self).items@,
            final(self).selected is None,
    {
        self.selected = None;
    }
}

} // verus!
