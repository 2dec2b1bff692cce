//! The main screen: the item list beside the detail of the selected item.
use vstd::prelude::*;

use crate::ui::widgets::item_list::ItemListState;

verus! {

/// State of the main screen.
#[derive(Debug)]
pub struct MainScreen {
    /// The item list.
    pub list_state: ItemListState,
}

impl Default for MainScreen {
    fn default() -> (r: MainScreen)
        ensures
            r.list_state.visible_items@.len() == 0,
            r.list_state.list_state.selection is None,
    {
        MainScreen { list_state: ItemListState::new() }
    }
}

impl MainScreen {
    /// An empty list with nothing selected.
    pub fn new() -> (r: MainScreen)
        ensures
            r.list_state.visible_items@.len() == 0,
            r.list_state.list_state.selection is None,
    {
        MainScreen::default()
    }
}

} // verus!
