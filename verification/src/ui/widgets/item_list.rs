//! The item list: which items are shown under the filters and the search,
//! and which one is selected.
use vstd::prelude::*;

use crate::app::state::FilterState;
use crate::domain::item::Item;
use crate::domain::vault::contains_id;
use crate::text::{contains_str, lowercase_of, occurs_in, to_lowercase};

verus! {

/// The selection of a list: an index, or none.
#[derive(Debug, Clone, Copy, PartialEq, Eq, Structural)]
pub struct ListState {
    pub selection: Option<usize>,
}

impl Default for ListState {
    fn default() -> (r: ListState)
        ensures
            r.selection is None,
    {
        ListState { selection: None }
    }
}

impl ListState {
    /// The selected index.
    pub fn selected(&self) -> (r: Option<usize>)
        ensures
            r == self.selection,
    {
        self.selection
    }

    /// Selects an index, or nothing.
    pub fn select(&mut self, index: Option<usize>)
        ensures
            final(self).selection == index,
    {
        self.selection = index;
    }
}

/// Whether an item passes the filters: its kind, at least one of the tags,
/// being a favorite.
pub open spec fn passes_filter(item: Item, filter: FilterState) -> bool {
    &&& (filter.kind matches Some(k) ==> item.kind == k)
    &&& (filter.tags@.len() > 0 ==> exists|t: u128| filter.tags@.contains(t) && item.tags@.contains(t))
    &&& (filter.favorites_only ==> item.favorite)
}

/// Whether an item matches a search: the lowercase query occurs in the
/// lowercase title or the lowercase notes; an empty query matches all.
pub open spec fn matches_query(item: Item, query: Seq<char>) -> bool {
    query.len() == 0 || occurs_in(lowercase_of(query), lowercase_of(item.title@)) || (item.notes matches Some(
        n,
    ) && occurs_in(lowercase_of(query), lowercase_of(n@)))
}

/// The identifiers of the items shown, in order.
pub open spec fn shown_ids(items: Seq<Item>, filter: FilterState, query: Seq<char>) -> Seq<u128>
    decreases items.len(),
{
    if items.len() == 0 {
        Seq::empty()
    } else {
        let rest = shown_ids(items.drop_last(), filter, query);
        if passes_filter(items.last(), filter) && matches_query(items.last(), query) {
            rest.push(items.last().id)
        } else {
            rest
        }
    }
}

/// State of the item list.
#[derive(Debug)]
pub struct ItemListState {
    /// The selection among the shown items.
    pub list_state: ListState,
    /// The identifiers of the shown items, in order.
    pub visible_items: Vec<u128>,
}

impl Default for ItemListState {
    fn default() -> (r: ItemListState)
        ensures
            r.list_state.selection is None,
            r.visible_items@.len() == 0,
    {
        ItemListState { list_state: ListState::default(), visible_items: Vec::new() }
    }
}

/// Whether some of `wanted` is among `tags`.
fn shares_tag(wanted: &Vec<u128>, tags: &Vec<u128>) -> (r: bool)
    ensures
        r == exists|t: u128| wanted@.contains(t) && tags@.contains(t),
{
    let mut i: usize = 0;
    while i < wanted.len()
        invariant
            i <= wanted@.len(),
            forall|j: int| 0 <= j < i ==> !tags@.contains(#[trigger] wanted@[j]),
        decreases wanted@.len() - i,
    {
        if contains_id(tags, wanted[i]) {
            assert(wanted@.contains(wanted@[i as int]));
            return true;
        }
        i = i + 1;
    }
    proof {
        assert forall|t: u128| wanted@.contains(t) implies !tags@.contains(t) by {
            let j = choose|j: int| 0 <= j < wanted@.len() && wanted@[j] == t;
            assert(!tags@.contains(wanted@[j]));
        }
    }
    false
}

/// Whether the item passes the filters.
pub fn item_passes_filter(item: &Item, filter: &FilterState) -> (r: bool)
    ensures
        r == passes_filter(*item, *filter),
{
    match filter.kind {
        Some(k) => {
            if item.kind != k {
                return false;
            }
        },
        None => {},
    }
    if filter.tags.len() > 0 && !shares_tag(&filter.tags, &item.tags) {
        return false;
    }
    if filter.favorites_only && !item.favorite {
        return false;
    }
    true
}

/// Whether the item matches the search.
fn item_matches(item: &Item, query: &str) -> (r: bool)
    ensures
        r == matches_query(*item, query@),
{
    if query.unicode_len() == 0 {
        return true;
    }
    let q = to_lowercase(query);
    let title = to_lowercase(item.title.as_str());
    if contains_str(title.as_str(), q.as_str()) {
        return true;
    }
    match &item.notes {
        Some(n) => {
            let notes = to_lowercase(n.as_str());
            contains_str(notes.as_str(), q.as_str())
        },
        None => false,
    }
}

impl ItemListState {
    /// Nothing shown, nothing selected.
    pub fn new() -> (r: ItemListState)
        ensures
            r.list_state.selection is None,
            r.visible_items@.len() == 0,
    {
        ItemListState::default()
    }

    /// Shows the items that pass the filters and match the search, in
    /// order; the selection is kept as it is.
    pub fn update_visible(&mut self, items: &[Item], filter: &FilterState, search_query: &str)
        ensures
            final(self).visible_items@ == shown_ids(items@, *filter, search_query@),
            final(self).list_state == old(self).list_state,
    {
        let mut shown: Vec<u128> = Vec::new();
        let mut i: usize = 0;
        assert(items@.take(0) =~= Seq::<Item>::empty());
        while i < items.len()
            invariant
                i <= items@.len(),
                shown@ == shown_ids(items@.take(i as int), *filter, search_query@),
            decreases items@.len() - i,
        {
            let item = &items[i];
            assert(items@.take(i + 1).drop_last() =~= items@.take(i as int));
            assert(items@.take(i + 1).last() == items@[i as int]);
            if item_passes_filter(item, filter) && item_matches(item, search_query) {
                shown.push(item.id);
            }
            i = i + 1;
        }
        assert(items@.take(i as int) =~= items@);
        self.visible_items = shown;
    }

    /// Selects the shown item `id`, if it is shown.
    pub fn select(&mut self, id: u128)
        ensures
            final(self).visible_items == old(self).visible_items,
            old(self).visible_items@.contains(id) ==> (final(self).list_state.selection matches Some(i)
                && i < old(self).visible_items@.len() && old(self).visible_items@[i as int] == id
                && forall|j: int| 0 <= j < i ==> old(self).visible_items@[j] != id),
            !old(self).visible_items@.contains(id) ==> final(self).list_state == old(self).list_state,
    {
        let mut i: usize = 0;
        while i < self.visible_items.len()
            invariant
                self.visible_items == old(self).visible_items,
                self.list_state == old(self).list_state,
                i <= self.visible_items@.len(),
                forall|j: int| 0 <= j < i ==> self.visible_items@[j] != id,
            decreases self.visible_items@.len() - i,
        {
            if self.visible_items[i] == id {
                self.list_state.select(Some(i));
                return;
            }
            i = i + 1;
        }
    }

    /// The identifier of the selected item, if the selection is on a shown
    /// item.
    pub fn selected(&self) -> (r: Option<u128>)
        ensures
            r == (match self.list_state.selection {
                Some(i) => if i < self.visible_items@.len() { Some(self.visible_items@[i as int]) } else { None },
                None => None,
            }),
    {
        match self.list_state.selected() {
            Some(i) => {
                if i < self.visible_items.len() {
                    Some(self.visible_items[i])
                } else {
                    None
                }
            },
            None => None,
        }
    }

    /// Selects the next shown item, stopping at the last; from no selection
    /// it goes to the second item.
    pub fn select_next(&mut self)
        ensures
            final(self).visible_items == old(self).visible_items,
            old(self).visible_items@.len() == 0 ==> final(self).list_state == old(self).list_state,
            old(self).visible_items@.len() > 0 ==> ({
                let cur: int = match old(self).list_state.selection {
                    Some(i) => i as int,
                    None => 0,
                };
                let last: int = old(self).visible_items@.len() - 1;
                final(self).list_state.selection == Some((if cur + 1 < last { cur + 1 } else { last }) as usize)
            }),
    {
        if self.visible_items.len() == 0 {
            return;
        }
        let current = match self.list_state.selected() {
            Some(i) => i,
            None => 0,
        };
        let last = self.visible_items.len() - 1;
        let next = if current < last { current + 1 } else { last };
        self.list_state.select(Some(next));
    }

    /// Selects the previous shown item, stopping at the first.
    pub fn select_prev(&mut self)
        ensures
            final(self).visible_items == old(self).visible_items,
            old(self).visible_items@.len() == 0 ==> final(self).list_state == old(self).list_state,
            old(self).visible_items@.len() > 0 ==> ({
                let cur: int = match old(self).list_state.selection {
                    Some(i) => i as int,
                    None => 0,
                };
                final(self).list_state.selection == Some((if cur > 0 { cur - 1 } else { 0 }) as usize)
            }),
    {
        if self.visible_items.len() == 0 {
            return;
        }
        let current = match self.list_state.selected() {
            Some(i) => i,
            None => 0,
        };
        let prev = if current > 0 { current - 1 } else { 0 };
        self.list_state.select(Some(prev));
    }

    /// Selects the first shown item, if any.
    pub fn select_first(&mut self)
        ensures
            final(self).visible_items == old(self).visible_items,
            final(self).list_state.selection == (if old(self).visible_items@.len() > 0 { Some(0usize) } else {
                old(self).list_state.selection
            }),
    {
        if self.visible_items.len() > 0 {
            self.list_state.select(Some(0));
        }
    }

    /// Selects the last shown item, if any.
    pub fn select_last(&mut self)
        ensures
            final(self).visible_items == old(self).visible_items,
            final(self).list_state.selection == (if old(self).visible_items@.len() > 0 {
                Some((old(self).visible_items@.len() - 1) as usize)
            } else {
                old(self).list_state.selection
            }),
    {
        if self.visible_items.len() > 0 {
            self.list_state.select(Some(self.visible_items.len() - 1));
        }
    }
}

} // verus!
