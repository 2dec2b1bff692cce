//! The popup that chooses the kind of a new item.
use vstd::prelude::*;

use crate::domain::item::{ItemKind, kind_icon_of};
use crate::input::mouse::ClickRegion;

verus! {

/// The kinds offered when creating an item, in menu order.
pub open spec fn offered_kinds() -> Seq<ItemKind> {
    seq![
        ItemKind::Password,
        ItemKind::CryptoSeed,
        ItemKind::ApiKey,
        ItemKind::SecureNote,
        ItemKind::Custom,
        ItemKind::Generic,
    ]
}

/// State of the kind selector.
#[derive(Debug, Clone)]
pub struct KindSelectorState {
    /// The kinds offered.
    pub kinds: Vec<ItemKind>,
    /// Index of the highlighted kind.
    pub selected: usize,
}

impl Default for KindSelectorState {
    fn default() -> (r: KindSelectorState)
        ensures
            r.kinds@ == offered_kinds(),
            r.selected == 0,
            r.wf(),
    {
        let kinds = vec![
            ItemKind::Password,
            ItemKind::CryptoSeed,
            ItemKind::ApiKey,
            ItemKind::SecureNote,
            ItemKind::Custom,
            ItemKind::Generic,
        ];
        assert(kinds@ =~= offered_kinds());
        KindSelectorState { kinds, selected: 0 }
    }
}

impl KindSelectorState {
    /// Some kind is offered and the highlighted one is one of them.
    pub open spec fn wf(&self) -> bool {
        self.kinds@.len() > 0 && self.selected < self.kinds@.len()
    }

    /// Highlights the kind above, if any.
    pub fn prev(&mut self)
        ensures
            final(self).kinds == old(self).kinds,
            final(self).selected == (if old(self).selected > 0 { old(self).selected - 1 } else { 0 }),
    {
        if self.selected > 0 {
            self.selected = self.selected - 1;
        }
    }

    /// Highlights the kind below, if any.
    pub fn next(&mut self)
        requires
            old(self).kinds@.len() > 0,
        ensures
            final(self).kinds == old(self).kinds,
            final(self).selected == (if old(self).selected + 1 < old(self).kinds@.len() {
                old(self).selected + 1
            } else {
                old(self).selected as int
            }),
    {
        if self.selected < self.kinds.len() - 1 {
            self.selected = self.selected + 1;
        }
    }

    /// Highlights the kind at `index`, if there is one.
    pub fn select(&mut self, index: usize)
        ensures
            final(self).kinds == old(self).kinds,
            final(self).selected == (if index < old(self).kinds@.len() { index } else { old(self).selected }),
    {
        if index < self.kinds.len() {
            self.selected = index;
        }
    }

    /// The highlighted kind.
    pub fn selected_kind(&self) -> (r: ItemKind)
        requires
            self.wf(),
        ensures
            r == self.kinds@[self.selected as int],
    {
        self.kinds[self.selected]
    }
}

/// Where the options of the kind selector (by index) and the popup were
/// drawn.
#[derive(Debug, Clone)]
pub struct KindSelectorClickRegions {
    pub option_regions: Vec<(usize, ClickRegion)>,
    pub popup_area: ClickRegion,
}

/// The Nerd Font icon of a kind.
pub fn kind_icon(kind: ItemKind) -> (r: &'static str)
    ensures
        r@ == kind_icon_of(kind),
{
    kind.icon()
}

} // verus!
