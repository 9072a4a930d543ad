use vstd::prelude::*;
use vstd::std_specs::cmp::PartialEqSpec;

verus! {

/// Why a menu could not change its selection.
#[derive(Clone, Copy, Debug, PartialEq, Eq, Structural)]
pub enum MenuError {
    /// The item is not in the menu.
    NotFound,
    /// Moving the selection needs a selection to start from.
    NoSelection,
}

/// A fixed list of choices, at most one of them selected, and whether the
/// menu is open.
#[derive(Debug)]
pub struct MenuState<T> {
    pub active: bool,
    pub items: Vec<T>,
    pub selected: Option<usize>,
}

impl<T: Clone + PartialEq> MenuState<T> {
    /// The selection, if any, points into the list.
    pub open spec fn wf(&self) -> bool {
        self.selected matches Some(i) ==> i < self.items@.len()
    }

    /// Whether item `j` is equal to `item` and no earlier one is.
    pub open spec fn first_equal(&self, j: int, item: T) -> bool {
        &&& 0 <= j < self.items@.len()
        &&& self.items@[j].eq_spec(&item)
        &&& forall|k: int| 0 <= k < j ==> !self.items@[k].eq_spec(&item)
    }

    /// A closed menu over `items` with nothing selected.
    pub fn new(items: Vec<T>) -> (r: MenuState<T>)
        ensures
            r.items@ == items@,
            r.selected is None,
            !r.active,
            r.wf(),
    {
        MenuState { active: false, items, selected: None }
    }

    /// A copy of the selected item.
    pub fn selected(&self) -> (r: Option<T>)
        requires
            self.wf(),
        ensures
            r is None <==> self.selected is None,
            r matches Some(v) ==> cloned(self.items@[self.selected->Some_0 as int], v),
    {
        match self.selected {
            Some(i) => Some(self.items[i].clone()),
            None => None,
        }
    }

    /// Selects the first item equal to `item`.
    pub fn select(&mut self, item: T) -> (r: Result<(), MenuError>)
        ensures
            final(self).items@ == old(self).items@,
            final(self).active == old(self).active,
            r matches Err(e) ==> e == MenuError::NotFound && final(self).selected
                == old(self).selected,
            r is Ok ==> (final(self).selected matches Some(i) && i < old(self).items@.len()),
            T::obeys_eq_spec() ==> (r is Ok <==> exists|j: int|
                0 <= j < old(self).items@.len() && #[trigger] old(self).items@[j].eq_spec(
                    &item,
                )),
            T::obeys_eq_spec() && r is Ok ==> old(self).first_equal(
                final(self).selected->Some_0 as int,
                item,
            ),
    {
        let n = self.items.len();
        let mut i: usize = 0;
        while i < n
            invariant
                n == self.items@.len(),
                i <= n,
                *self == *old(self),
                T::obeys_eq_spec() ==> forall|k: int| 0 <= k < i ==> !self.items@[k].eq_spec(&item),
            decreases n - i,
        {
            if self.items[i] == item {
                self.selected = Some(i);
                return Ok(());
            }
            i = i + 1;
        }
        Err(MenuError::NotFound)
    }

    /// Moves the selection one item up, staying on the first item.
    pub fn select_prev(&mut self) -> (r: Result<(), MenuError>)
        requires
            old(self).wf(),
        ensures
            final(self).items@ == old(self).items@,
            final(self).active == old(self).active,
            final(self).wf(),
            match old(self).selected {
                None => r == Err::<(), MenuError>(MenuError::NoSelection) && final(self).selected
                    is None,
                Some(i) => r is Ok && final(self).selected == Some(
                    if i > 0 {
                        (i - 1) as usize
                    } else {
                        i
                    },
                ),
            },
    {
        match self.selected {
            None => Err(MenuError::NoSelection),
            Some(i) => {
                if i > 0 {
                    self.select_nth(i - 1);
                }
                Ok(())
            },
        }
    }

    /// Moves the selection one item down, staying on the last item.
    pub fn select_next(&mut self) -> (r: Result<(), MenuError>)
        requires
            old(self).wf(),
        ensures
            final(self).items@ == old(self).items@,
            final(self).active == old(self).active,
            final(self).wf(),
            match old(self).selected {
                None => r == Err::<(), MenuError>(MenuError::NoSelection) && final(self).selected
                    is None,
                Some(i) => r is Ok && final(self).selected == Some(
                    if i + 1 < old(self).items@.len() {
                        (i + 1) as usize
                    } else {
                        i
                    },
                ),
            },
    {
        match self.selected {
            None => Err(MenuError::NoSelection),
            Some(i) => {
                if i < self.items.len() - 1 {
                    self.select_nth(i + 1);
                }
                Ok(())
            },
        }
    }

    /// Selects item `n`.
    pub fn select_nth(&mut self, n: usize)
        requires
            n < old(self).items@.len(),
        ensures
            final(self).items@ == old(self).items@,
            final(self).active == old(self).active,
            final(self).selected == Some(n),
            final(self).wf(),
    {
        self.selected = Some(n);
    }

    /// Leaves nothing selected.
    pub fn clear_selection(&mut self)
        ensures
            final(self).items@ == old(self).items@,
            final(self).active == old(self).active,
            final(self).selected is None,
            final(self).wf(),
    {
        self.selected = None;
    }
}

} // verus!
