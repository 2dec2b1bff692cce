//! The bar of item categories above the list.
use vstd::prelude::*;

use crate::domain::item::ItemKind;
use crate::input::mouse::ClickRegion;

verus! {

/// Where the options of the category bar were drawn: a kind, or `None` for
/// all items.
pub struct CategoryBarClickRegions {
    pub option_regions: Vec<(Option<ItemKind>, ClickRegion)>,
}

} // verus!
