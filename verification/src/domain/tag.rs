//! Tags for grouping items.
use vstd::prelude::*;

use crate::clock::new_id;

verus! {

/// A tag.
#[derive(Debug, Clone)]
pub struct Tag {
    /// Unique identifier.
    pub id: u128,
    /// Name, such as "crypto" or "work".
    pub name: String,
    /// Optional hex color, such as "#ff5733".
    pub color: Option<String>,
    /// Optional Nerd Font icon.
    pub icon: Option<String>,
}

impl Tag {
    /// A tag with a fresh identifier and no color or icon.
    pub fn new(name: &str) -> (r: Tag)
        ensures
            r.name@ == name@,
            r.color is None,
            r.icon is None,
    {
        Tag { id: new_id(), name: String::from_str(name), color: None, icon: None }
    }

    /// The tag with a color.
    pub fn with_color(self, color: &str) -> (r: Tag)
        ensures
            r.id == self.id && r.name == self.name && r.icon == self.icon,
            r.color matches Some(c) && c@ == color@,
    {
        let mut t = self;
        t.color = Some(String::from_str(color));
        t
    }

    /// The tag with an icon.
    pub fn with_icon(self, icon: &str) -> (r: Tag)
        ensures
            r.id == self.id && r.name == self.name && r.color == self.color,
            r.icon matches Some(i) && i@ == icon@,
    {
        let mut t = self;
        t.icon = Some(String::from_str(icon));
        t
    }
}

impl Default for Tag {
    fn default() -> (r: Tag)
        ensures
            r.name@ == "default"@,
            r.color is None,
            r.icon is None,
    {
        Tag::new("default")
    }
}

} // verus!
