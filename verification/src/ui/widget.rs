//! Lists with a cursor: the items of a block, which of them is selected, and
//! the key of the item that was last chosen.

use vstd::prelude::*;

verus! {

/// An item of a list that stands for a value of type `T`: the value by which
/// the item is known once it is chosen.
pub trait WidgetItem<T> {
    /// The value that the item stands for.
    spec fn val(&self) -> T;

    /// The value that the item stands for.
    fn to_val(&self) -> (r: T)
        ensures
            r == self.val(),
    ;
}

/// The cursor of a list: the index that is selected, if one is.
pub trait WidgetState: Default {
    /// The index that is selected.
    spec fn selection(&self) -> Option<usize>;

    /// A cursor as `default` makes it has nothing selected.
    proof fn lemma_default_selects_nothing(state: Self)
        requires
            call_ensures(Self::default, (), state),
        ensures
            state.selection() is None,
    ;

    /// Moves the cursor to `index`, or off the list.
    fn select(&mut self, index: Option<usize>)
        ensures
            final(self).selection() == index,
    ;

    /// The index that is selected.
    fn selected(&self) -> (r: Option<usize>)
        ensures
            r == self.selection(),
    ;
}

/// A cursor that is nothing but the selected index.
#[derive(Clone, Copy, Debug, PartialEq, Eq, Structural)]
pub struct Cursor {
    pub index: Option<usize>,
}

impl Default for Cursor {
    fn default() -> (r: Cursor)
        ensures
            r.index is None,
    {
        Cursor { index: None }
    }
}

impl WidgetState for Cursor {
    open spec fn selection(&self) -> Option<usize> {
        self.index
    }

    proof fn lemma_default_selects_nothing(state: Cursor) {
    }

    fn select(&mut self, index: Option<usize>) {
        self.index = index;
    }

    fn selected(&self) -> (r: Option<usize>) {
        self.index
    }
}

/// The data of a list block: its items, its cursor, the key of the item that
/// was last chosen, and whether that key has changed since it was last
/// looked at.
pub struct WidgetData<T, K, S> where T: WidgetItem<K>, S: WidgetState {
    pub state: S,
    pub items: Vec<T>,
    pub changed: bool,
    pub key: K,
}

impl<T, K, S> WidgetData<T, K, S> where T: WidgetItem<K>, S: WidgetState {
    /// The item under the cursor, if the cursor is on the list.
    pub open spec fn selected_item(&self) -> Option<T> {
        match self.state.selection() {
            Some(i) => if i < self.items@.len() {
                Some(self.items@[i as int])
            } else {
                None
            },
            None => None,
        }
    }

    /// Whether the cursor can be moved by a step: it is off the list, or the
    /// list has an item.
    pub open spec fn can_step(&self) -> bool {
        self.state.selection() is Some ==> self.items@.len() > 0
    }

    /// Where the cursor stands after a step down: behind the last item it
    /// starts again at the first.
    pub open spec fn next_index(&self) -> usize {
        match self.state.selection() {
            Some(i) => if i < self.items@.len() - 1 {
                (i + 1) as usize
            } else {
                0
            },
            None => 0,
        }
    }

    /// Where the cursor stands after a step up: before the first item it
    /// starts again at the last.
    pub open spec fn prev_index(&self) -> usize {
        match self.state.selection() {
            Some(i) => if i == 0 {
                (self.items@.len() - 1) as usize
            } else {
                (i - 1) as usize
            },
            None => 0,
        }
    }

    /// On a list with an item, a step from a cursor that is off the list or
    /// on one of its items leads to one of its items.
    pub proof fn law_step_stays_on_the_list(&self)
        requires
            self.items@.len() > 0,
            self.state.selection() matches Some(i) ==> i < self.items@.len(),
        ensures
            self.next_index() < self.items@.len(),
            self.prev_index() < self.items@.len(),
    {
    }

    /// Whether the cursor can be moved by a step.
    pub fn is_steppable(&self) -> (r: bool)
        ensures
            r == self.can_step(),
    {
        match self.state.selected() {
            Some(_) => self.items.len() > 0,
            None => true,
        }
    }

    /// A list without items, with the cursor off the list and `key` as the
    /// key; the key counts as changed.
    pub fn new(key: K) -> (r: Self)
        ensures
            r.state.selection() is None,
            r.items@.len() == 0,
            r.changed,
            r.key == key,
    {
        let state = S::default();
        proof {
            S::lemma_default_selects_nothing(state);
        }
        Self { state, items: Vec::new(), changed: true, key }
    }

    /// Replaces the items and takes the cursor off the list.
    pub fn set_items(&mut self, items: Vec<T>)
        ensures
            final(self).items == items,
            final(self).state.selection() is None,
            final(self).changed == old(self).changed,
            final(self).key == old(self).key,
    {
        self.items = items;
        let state = S::default();
        proof {
            S::lemma_default_selects_nothing(state);
        }
        self.state = state;
    }

    /// Moves the cursor one item down; from the last item, and from any
    /// index behind it, the cursor goes to the first. A cursor that is off
    /// the list goes to the first item.
    pub fn next(&mut self)
        requires
            old(self).can_step(),
        ensures
            final(self).state.selection() == Some(old(self).next_index()),
            final(self).items == old(self).items,
            final(self).changed == old(self).changed,
            final(self).key == old(self).key,
    {
        let target: usize = match self.state.selected() {
            Some(i) => {
                if i < self.items.len() - 1 {
                    i + 1
                } else {
                    0
                }
            },
            None => 0,
        };
        self.state.select(Some(target));
    }

    /// Moves the cursor one item up; from the first item the cursor goes to
    /// the last. A cursor that is off the list goes to the first item.
    pub fn prev(&mut self)
        requires
            old(self).can_step(),
        ensures
            final(self).state.selection() == Some(old(self).prev_index()),
            final(self).items == old(self).items,
            final(self).changed == old(self).changed,
            final(self).key == old(self).key,
    {
        let target: usize = match self.state.selected() {
            Some(i) => {
                if i == 0 {
                    self.items.len() - 1
                } else {
                    i - 1
                }
            },
            None => 0,
        };
        self.state.select(Some(target));
    }

    /// Moves the cursor to the first item.
    pub fn start(&mut self)
        ensures
            final(self).state.selection() == Some(0usize),
            final(self).items == old(self).items,
            final(self).changed == old(self).changed,
            final(self).key == old(self).key,
    {
        self.state.select(Some(0));
    }

    /// Moves the cursor to the last item of a list that has one.
    pub fn end(&mut self)
        requires
            old(self).items@.len() > 0,
        ensures
            final(self).state.selection() == Some((old(self).items@.len() - 1) as usize),
            final(self).items == old(self).items,
            final(self).changed == old(self).changed,
            final(self).key == old(self).key,
    {
        self.state.select(Some(self.items.len() - 1));
    }

    /// The item under the cursor, if the cursor is on the list.
    pub fn get_selected_item(&self) -> (r: Option<&T>)
        ensures
            match r {
                Some(item) => self.selected_item() == Some(*item),
                None => self.selected_item() is None,
            },
    {
        match self.state.selected() {
            Some(i) => {
                if i < self.items.len() {
                    Some(&self.items[i])
                } else {
                    None
                }
            },
            None => None,
        }
    }

    /// Takes the value of the item under the cursor as the key and marks the
    /// key as changed. Where the cursor is off the list nothing changes.
    pub fn update(&mut self)
        ensures
            match old(self).selected_item() {
                Some(item) => final(self).key == item.val() && final(self).changed,
                None => final(self).key == old(self).key
                    && final(self).changed == old(self).changed,
            },
            final(self).items == old(self).items,
            final(self).state == old(self).state,
    {
        let chosen: Option<K> = match self.get_selected_item() {
            Some(item) => Some(item.to_val()),
            None => None,
        };
        match chosen {
            Some(key) => {
                self.key = key;
                self.changed = true;
            },
            None => {},
        }
    }
}

} // verus!
