//! Mouse input: screen regions, clickable elements, and telling a double
//! click from two clicks.
use vstd::prelude::*;

use crate::clock::{instant_now, millis_since};
use crate::domain::item::ItemKind;

verus! {

/// A rectangle of terminal cells.
#[derive(Debug, Clone, Copy, PartialEq, Eq, Structural)]
pub struct ClickRegion {
    pub x: u16,
    pub y: u16,
    pub width: u16,
    pub height: u16,
}

/// Whether the cell `(x, y)` lies in the rectangle: from its left column up
/// to but excluding `x + width`, and likewise for rows.
pub open spec fn region_contains(r: ClickRegion, x: u16, y: u16) -> bool {
    r.x <= x && (x as int) < r.x + r.width && r.y <= y && (y as int) < r.y + r.height
}

impl ClickRegion {
    /// The rectangle with top-left cell `(x, y)` and the given size.
    pub fn new(x: u16, y: u16, width: u16, height: u16) -> (r: ClickRegion)
        ensures
            r == (ClickRegion { x, y, width, height }),
    {
        ClickRegion { x, y, width, height }
    }

    /// Whether the cell `(x, y)` lies in the rectangle.
    pub fn contains(&self, x: u16, y: u16) -> (r: bool)
        ensures
            r == region_contains(*self, x, y),
    {
        x >= self.x && (x as u32) < (self.x as u32) + (self.width as u32) && y >= self.y && (y as u32)
            < (self.y as u32) + (self.height as u32)
    }
}

/// A mouse button.
#[derive(Debug, Clone, Copy, PartialEq, Eq, Structural)]
pub enum MouseButton {
    Left,
    Right,
    Middle,
}

/// What happened with the mouse.
#[derive(Debug, Clone, Copy, PartialEq, Eq, Structural)]
pub enum MouseEventKind {
    Down(MouseButton),
    Up(MouseButton),
    Drag(MouseButton),
    Moved,
    ScrollDown,
    ScrollUp,
    ScrollLeft,
    ScrollRight,
}

/// A mouse event at a cell.
#[derive(Debug, Clone, Copy, PartialEq, Eq, Structural)]
pub struct MouseEvent {
    pub kind: MouseEventKind,
    pub column: u16,
    pub row: u16,
}

/// A mouse action the interface reacts to.
#[derive(Debug, Clone, Copy, PartialEq, Eq, Structural)]
pub enum MouseAction {
    Click { x: u16, y: u16, button: MouseButton },
    DoubleClick { x: u16, y: u16 },
    ScrollUp { x: u16, y: u16 },
    ScrollDown { x: u16, y: u16 },
    Drag { x: u16, y: u16 },
}

/// The cell of a mouse action.
pub open spec fn action_position(a: MouseAction) -> (u16, u16) {
    match a {
        MouseAction::Click { x, y, .. } => (x, y),
        MouseAction::DoubleClick { x, y } => (x, y),
        MouseAction::ScrollUp { x, y } => (x, y),
        MouseAction::ScrollDown { x, y } => (x, y),
        MouseAction::Drag { x, y } => (x, y),
    }
}

impl MouseAction {
    /// The cell of the action.
    pub fn position(&self) -> (r: (u16, u16))
        ensures
            r == action_position(*self),
    {
        match self {
            MouseAction::Click { x, y, .. } => (*x, *y),
            MouseAction::DoubleClick { x, y } => (*x, *y),
            MouseAction::ScrollUp { x, y } => (*x, *y),
            MouseAction::ScrollDown { x, y } => (*x, *y),
            MouseAction::Drag { x, y } => (*x, *y),
        }
    }

    /// Whether the action happened in `region`.
    pub fn is_in_region(&self, region: &ClickRegion) -> (r: bool)
        ensures
            r == region_contains(*region, action_position(*self).0, action_position(*self).1),
    {
        let (x, y) = self.position();
        region.contains(x, y)
    }
}

/// The action of a mouse event: a press is a click, scrolling up or down
/// and dragging are kept, anything else is ignored.
pub open spec fn action_of(event: MouseEvent) -> Option<MouseAction> {
    match event.kind {
        MouseEventKind::Down(button) => Some(MouseAction::Click { x: event.column, y: event.row, button }),
        MouseEventKind::ScrollUp => Some(MouseAction::ScrollUp { x: event.column, y: event.row }),
        MouseEventKind::ScrollDown => Some(MouseAction::ScrollDown { x: event.column, y: event.row }),
        MouseEventKind::Drag(_) => Some(MouseAction::Drag { x: event.column, y: event.row }),
        _ => None,
    }
}

/// The action of a mouse event, if the interface reacts to it.
pub fn parse_mouse_event(event: MouseEvent) -> (r: Option<MouseAction>)
    ensures
        r == action_of(event),
{
    match event.kind {
        MouseEventKind::Down(button) => Some(MouseAction::Click { x: event.column, y: event.row, button }),
        MouseEventKind::ScrollUp => Some(MouseAction::ScrollUp { x: event.column, y: event.row }),
        MouseEventKind::ScrollDown => Some(MouseAction::ScrollDown { x: event.column, y: event.row }),
        MouseEventKind::Drag(_) => Some(MouseAction::Drag { x: event.column, y: event.row }),
        _ => None,
    }
}

/// Named areas of the layout.
#[derive(Debug, Clone, Copy, PartialEq, Eq, Structural, Hash)]
pub enum UiRegion {
    List,
    Detail,
    StatusBar,
    SearchBox,
    FloatingWindow,
}

/// What a click can land on.
#[derive(Debug, Clone, PartialEq, Eq)]
pub enum ClickableElement {
    /// A vault of the login list (index).
    VaultEntry(usize),
    /// An item of the main list (identifier).
    ListItem(u128),
    /// A form field (index).
    FormField(usize),
    /// A kind of the kind selector (index).
    KindOption(usize),
    /// A search result (index).
    SearchResult(usize),
    /// A category (a kind, or `None` for all).
    CategoryOption(Option<ItemKind>),
    /// The button scrolling the categories left.
    CategoryScrollLeft,
    /// The button scrolling the categories right.
    CategoryScrollRight,
    /// A button, by action name.
    Button(String),
    /// Outside a floating window, closing it.
    CloseArea,
}

/// A clickable element and where it is.
#[derive(Debug, Clone)]
pub struct ClickableRegion {
    pub region: ClickRegion,
    pub element: ClickableElement,
}

impl ClickableRegion {
    /// The element at the region.
    pub fn new(region: ClickRegion, element: ClickableElement) -> (r: ClickableRegion)
        ensures
            r.region == region,
            r.element == element,
    {
        ClickableRegion { region, element }
    }

    /// Whether the cell lies in the element's region.
    pub fn contains(&self, x: u16, y: u16) -> (r: bool)
        ensures
            r == region_contains(self.region, x, y),
    {
        self.region.contains(x, y)
    }
}

/// Longest pause between the two clicks of a double click, in milliseconds.
pub const DOUBLE_CLICK_MS: u128 = 400;

/// Largest distance, in cells along each axis, between the two clicks of a
/// double click.
pub const DOUBLE_CLICK_TOLERANCE: u16 = 2;

/// The distance between two coordinates.
pub open spec fn distance(a: u16, b: u16) -> int {
    if a >= b { a - b } else { b - a }
}

/// Whether a click at `(x, y)`, `elapsed_ms` after a click at
/// `(last_x, last_y)`, completes a double click.
pub open spec fn is_double_click(elapsed_ms: u128, last_x: u16, last_y: u16, x: u16, y: u16) -> bool {
    elapsed_ms < DOUBLE_CLICK_MS && distance(x, last_x) <= DOUBLE_CLICK_TOLERANCE && distance(y, last_y)
        <= DOUBLE_CLICK_TOLERANCE
}

/// The regions of the layout drawn last, the clickable elements on them,
/// and the last click.
#[derive(Debug)]
pub struct LayoutRegions {
    /// Named areas, in the order they were set.
    pub regions: Vec<(UiRegion, ClickRegion)>,
    /// Clickable elements, in the order they were registered.
    pub clickable_elements: Vec<ClickableRegion>,
    /// When and where the last click that may start a double click was.
    pub last_click: Option<(std::time::Instant, u16, u16)>,
}

/// Whether a named area has a name other than `name`.
pub open spec fn other_region(name: UiRegion) -> spec_fn((UiRegion, ClickRegion)) -> bool {
    |e: (UiRegion, ClickRegion)| e.0 != name
}

/// The last position of `s` before `end` whose region holds the cell.
pub open spec fn last_hit(s: Seq<ClickRegion>, x: u16, y: u16) -> Option<int>
    decreases s.len(),
{
    if s.len() == 0 {
        None
    } else if region_contains(s.last(), x, y) {
        Some(s.len() - 1)
    } else {
        last_hit(s.drop_last(), x, y)
    }
}

/// The rectangles of named areas.
pub open spec fn area_rects(s: Seq<(UiRegion, ClickRegion)>) -> Seq<ClickRegion> {
    s.map_values(|e: (UiRegion, ClickRegion)| e.1)
}

/// The rectangles of clickable elements.
pub open spec fn element_rects(s: Seq<ClickableRegion>) -> Seq<ClickRegion> {
    s.map_values(|e: ClickableRegion| e.region)
}

impl Default for LayoutRegions {
    fn default() -> (r: LayoutRegions)
        ensures
            r.regions@.len() == 0,
            r.clickable_elements@.len() == 0,
            r.last_click is None,
    {
        LayoutRegions::new()
    }
}

impl LayoutRegions {
    /// No region, no element, no click.
    pub fn new() -> (r: LayoutRegions)
        ensures
            r.regions@.len() == 0,
            r.clickable_elements@.len() == 0,
            r.last_click is None,
    {
        LayoutRegions { regions: Vec::new(), clickable_elements: Vec::new(), last_click: None }
    }

    /// Sets the area `name`, replacing an earlier one of that name; it is
    /// now the last one set.
    pub fn set(&mut self, name: UiRegion, region: ClickRegion)
        ensures
            final(self).regions@ == old(self).regions@.filter(other_region(name)).push((name, region)),
            final(self).clickable_elements@ == old(self).clickable_elements@,
    {
        let ghost p = other_region(name);
        let ghost old_regions = self.regions@;
        let mut i: usize = 0;
        let ghost mut j: int = 0;
        proof {
            crate::seqs::lemma_filter_empty(old_regions, p);
            assert(old_regions.skip(0) =~= old_regions);
        }
        while i < self.regions.len()
            invariant
                p == other_region(name),
                0 <= j <= old_regions.len(),
                i == old_regions.take(j).filter(p).len(),
                self.regions@ == old_regions.take(j).filter(p) + old_regions.skip(j),
                self.clickable_elements@ == old(self).clickable_elements@,
            decreases old_regions.len() - j,
        {
            proof {
                crate::seqs::lemma_filter_take_step(old_regions, j, p);
                assert(self.regions@[i as int] == old_regions[j]);
                assert(old_regions.skip(j + 1) =~= old_regions.skip(j).drop_first());
            }
            if self.regions[i].0 == name {
                self.regions.remove(i);
                assert(self.regions@ =~= old_regions.take(j + 1).filter(p) + old_regions.skip(j + 1));
            } else {
                assert(self.regions@ =~= old_regions.take(j + 1).filter(p) + old_regions.skip(j + 1));
                i = i + 1;
            }
            proof {
                j = j + 1;
            }
        }
        proof {
            assert(old_regions.skip(j).len() == 0);
            crate::seqs::lemma_take_full(old_regions);
            assert(self.regions@ =~= old_regions.filter(p));
        }
        self.regions.push((name, region));
    }

    /// The area holding the cell, the one set last winning (floating
    /// windows are set after what they cover).
    pub fn find_region(&self, x: u16, y: u16) -> (r: Option<UiRegion>)
        ensures
            match last_hit(area_rects(self.regions@), x, y) {
                Some(i) => r == Some(self.regions@[i].0),
                None => r is None,
            },
    {
        let mut i: usize = self.regions.len();
        assert(area_rects(self.regions@).take(i as int) =~= area_rects(self.regions@));
        while i > 0
            invariant
                i <= self.regions@.len(),
                last_hit(area_rects(self.regions@), x, y) == last_hit(area_rects(self.regions@).take(i as int), x, y),
            decreases i,
        {
            let ghost s = area_rects(self.regions@).take(i as int);
            assert(s.drop_last() =~= area_rects(self.regions@).take(i - 1));
            assert(s.last() == self.regions@[i - 1].1);
            if self.regions[i - 1].1.contains(x, y) {
                return Some(self.regions[i - 1].0);
            }
            i = i - 1;
        }
        None
    }

    /// Forgets every area and every element.
    pub fn clear(&mut self)
        ensures
            final(self).regions@.len() == 0,
            final(self).clickable_elements@.len() == 0,
            final(self).last_click == old(self).last_click,
    {
        self.regions.clear();
        self.clickable_elements.clear();
    }

    /// Registers a clickable element; it now lies above those registered
    /// before.
    pub fn register_clickable(&mut self, region: ClickRegion, element: ClickableElement)
        ensures
            final(self).clickable_elements@ == old(self).clickable_elements@.push(
                ClickableRegion { region, element },
            ),
            final(self).regions@ == old(self).regions@,
    {
        self.clickable_elements.push(ClickableRegion::new(region, element));
    }

    /// The element at the cell, the one registered last winning.
    pub fn find_clickable(&self, x: u16, y: u16) -> (r: Option<&ClickableElement>)
        ensures
            match last_hit(element_rects(self.clickable_elements@), x, y) {
                Some(i) => r == Some(&self.clickable_elements@[i].element),
                None => r is None,
            },
    {
        let mut i: usize = self.clickable_elements.len();
        assert(element_rects(self.clickable_elements@).take(i as int) =~= element_rects(self.clickable_elements@));
        while i > 0
            invariant
                i <= self.clickable_elements@.len(),
                last_hit(element_rects(self.clickable_elements@), x, y) == last_hit(
                    element_rects(self.clickable_elements@).take(i as int),
                    x,
                    y,
                ),
            decreases i,
        {
            let ghost s = element_rects(self.clickable_elements@).take(i as int);
            assert(s.drop_last() =~= element_rects(self.clickable_elements@).take(i - 1));
            assert(s.last() == self.clickable_elements@[i - 1].region);
            if self.clickable_elements[i - 1].contains(x, y) {
                return Some(&self.clickable_elements[i - 1].element);
            }
            i = i - 1;
        }
        None
    }

    /// Records a click at `(x, y)` and tells whether it completes a double
    /// click with the last one: close enough in time and place. A double
    /// click is not the start of another one.
    pub fn register_click(&mut self, x: u16, y: u16) -> (r: bool)
        ensures
            old(self).last_click is None ==> !r,
            r ==> final(self).last_click is None,
            !r ==> (final(self).last_click matches Some((_, lx, ly)) && lx == x && ly == y),
            r ==> (old(self).last_click matches Some((_, lx, ly)) && distance(x, lx) <= DOUBLE_CLICK_TOLERANCE
                && distance(y, ly) <= DOUBLE_CLICK_TOLERANCE),
            final(self).regions@ == old(self).regions@,
            final(self).clickable_elements@ == old(self).clickable_elements@,
    {
        if let Some((last_time, last_x, last_y)) = &self.last_click {
            let elapsed = millis_since(last_time);
            let dx: u16 = if x >= *last_x { x - *last_x } else { *last_x - x };
            let dy: u16 = if y >= *last_y { y - *last_y } else { *last_y - y };
            if elapsed < DOUBLE_CLICK_MS && dx <= DOUBLE_CLICK_TOLERANCE && dy <= DOUBLE_CLICK_TOLERANCE {
                self.last_click = None;
                return true;
            }
        }
        self.last_click = Some((instant_now(), x, y));
        false
    }
}

} // verus!
