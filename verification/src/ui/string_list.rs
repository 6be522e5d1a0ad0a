//! A list of texts of which at most one is selected.

use crate::page::texts;
use vstd::prelude::*;

verus! {

/// A list of texts with a selection. A list that holds items always has
/// one of them selected; an empty list has none.
#[derive(Debug)]
pub struct StringList {
    selected: Option<usize>,
    items: Vec<String>,
}

/// What a [`StringList`] stands for.
#[verifier::ext_equal]
pub struct ListModel {
    pub items: Seq<Seq<char>>,
    pub selected: Option<int>,
}

impl ListModel {
    /// The selection points at an item, and is missing only where there is
    /// no item to point at.
    pub open spec fn wf(self) -> bool {
        match self.selected {
            Some(i) => 0 <= i < self.items.len(),
            None => self.items.len() == 0,
        }
    }

    /// The list of `items` as it is after loading: the first item selected,
    /// if there is one.
    pub open spec fn loaded(items: Seq<Seq<char>>) -> ListModel {
        ListModel {
            items,
            selected: if items.len() > 0 {
                Some(0)
            } else {
                None
            },
        }
    }

    /// The selected item, if there is one.
    pub open spec fn selected_item(self) -> Option<Seq<char>> {
        match self.selected {
            Some(i) => if 0 <= i < self.items.len() {
                Some(self.items[i])
            } else {
                None
            },
            None => None,
        }
    }

    /// The selection after a step towards the end of the list. At the last
    /// item it stays where it is.
    pub open spec fn next_index(self) -> Option<int> {
        match self.selected {
            Some(i) => if i + 1 < self.items.len() {
                Some(i + 1)
            } else {
                Some(i)
            },
            None => None,
        }
    }

    /// The selection after a step towards the start of the list. At the
    /// first item it stays where it is.
    pub open spec fn previous_index(self) -> Option<int> {
        match self.selected {
            Some(i) => if i > 0 {
                Some(i - 1)
            } else {
                Some(i)
            },
            None => None,
        }
    }

    /// The selection after a request for the item at `index`. A request
    /// for an item that the list does not have changes nothing.
    pub open spec fn chosen_index(self, index: int) -> Option<int> {
        if 0 <= index < self.items.len() {
            Some(index)
        } else {
            self.selected
        }
    }

    /// The same list with another selection.
    pub open spec fn with_selected(self, selected: Option<int>) -> ListModel {
        ListModel { items: self.items, selected }
    }

    /// Steps and requests keep the selection inside the list.
    pub proof fn lemma_moves_wf(self, index: int)
        requires
            self.wf(),
        ensures
            self.with_selected(self.next_index()).wf(),
            self.with_selected(self.previous_index()).wf(),
            self.with_selected(self.chosen_index(index)).wf(),
    {
    }
}

/// A number that may be missing, as the models hold it.
pub open spec fn number_model(i: Option<usize>) -> Option<int> {
    match i {
        Some(i) => Some(i as int),
        None => None,
    }
}

impl View for StringList {
    type V = ListModel;

    closed spec fn view(&self) -> ListModel {
        ListModel { items: texts(self.items@), selected: number_model(self.selected) }
    }
}

impl StringList {
    /// The selection points at an item, and is missing only where there is
    /// no item to point at.
    pub open spec fn wf(&self) -> bool {
        self@.wf()
    }

    /// The empty list.
    pub fn new() -> (res: StringList)
        ensures
            res.wf(),
            res@ == ListModel::loaded(Seq::empty()),
    {
        StringList { selected: None, items: Vec::new() }
    }

    /// Replaces the items of the list and selects the first of them.
    pub fn load_items(&mut self, items: Vec<String>)
        ensures
            final(self).wf(),
            final(self)@ == ListModel::loaded(texts(items@)),
    {
        self.selected = if items.len() > 0 {
            Some(0)
        } else {
            None
        };
        self.items = items;
    }

    /// The selected item, if there is one.
    pub fn get_selected(&self) -> (res: Option<&String>)
        ensures
            match res {
                Some(item) => self@.selected_item() == Some(item@),
                None => self@.selected_item() is None,
            },
    {
        match self.selected {
            Some(i) => {
                if i < self.items.len() {
                    Some(&self.items[i])
                } else {
                    None
                }
            },
            None => None,
        }
    }

    /// The position of the selected item, if there is one.
    pub fn selected(&self) -> (res: Option<usize>)
        ensures
            number_model(res) == self@.selected,
    {
        self.selected
    }

    /// The items of the list, in order.
    pub fn items(&self) -> (res: &Vec<String>)
        ensures
            texts(res@) == self@.items,
    {
        &self.items
    }

    /// How many items the list holds.
    pub fn len(&self) -> (res: usize)
        ensures
            res == self@.items.len(),
    {
        self.items.len()
    }

    /// The selection after a step towards the end of the list.
    pub fn next_index(&self) -> (res: Option<usize>)
        ensures
            number_model(res) == self@.next_index(),
    {
        match self.selected {
            Some(i) => {
                if i < self.items.len() && i + 1 < self.items.len() {
                    Some(i + 1)
                } else {
                    Some(i)
                }
            },
            None => None,
        }
    }

    /// The selection after a step towards the start of the list.
    pub fn previous_index(&self) -> (res: Option<usize>)
        ensures
            number_model(res) == self@.previous_index(),
    {
        match self.selected {
            Some(i) => {
                if i > 0 {
                    Some(i - 1)
                } else {
                    Some(i)
                }
            },
            None => None,
        }
    }

    /// The selection after a request for the item at `index`.
    pub fn chosen_index(&self, index: usize) -> (res: Option<usize>)
        ensures
            number_model(res) == self@.chosen_index(index as int),
    {
        if index < self.items.len() {
            Some(index)
        } else {
            self.selected
        }
    }

    /// Puts the selection where the caller found it to belong.
    pub fn set_selected(&mut self, selected: Option<usize>)
        requires
            old(self)@.with_selected(number_model(selected)).wf(),
        ensures
            final(self).wf(),
            final(self)@ == old(self)@.with_selected(number_model(selected)),
    {
        self.selected = selected;
    }

    /// Moves the selection one item towards the end of the list. At the
    /// last item, and in an empty list, nothing changes.
    pub fn select_next(&mut self)
        requires
            old(self).wf(),
        ensures
            final(self).wf(),
            final(self)@ == old(self)@.with_selected(old(self)@.next_index()),
    {
        self.selected = self.next_index();
    }

    /// Moves the selection one item towards the start of the list. At the
    /// first item, and in an empty list, nothing changes.
    pub fn select_previous(&mut self)
        requires
            old(self).wf(),
        ensures
            final(self).wf(),
            final(self)@ == old(self)@.with_selected(old(self)@.previous_index()),
    {
        self.selected = self.previous_index();
    }

    /// Selects the item at `index`. Where the list has no such item,
    /// nothing changes.
    pub fn select(&mut self, index: usize)
        requires
            old(self).wf(),
        ensures
            final(self).wf(),
            final(self)@ == old(self)@.with_selected(old(self)@.chosen_index(index as int)),
    {
        self.selected = self.chosen_index(index);
    }
}

impl Default for StringList {
    fn default() -> (res: StringList)
        ensures
            res.wf(),
            res@ == ListModel::loaded(Seq::empty()),
    {
        StringList::new()
    }
}

} // verus!
