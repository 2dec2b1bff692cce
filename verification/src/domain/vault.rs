//! The vault: the root container of items and tags.
use vstd::prelude::*;

use crate::clock::{new_id, now_millis};
use crate::domain::item::{Item, ItemKind};
use crate::domain::security_question::SecurityQuestion;
use crate::domain::tag::Tag;
use crate::seqs::{lemma_filter_empty, lemma_filter_take_step, lemma_take_full};

verus! {

/// Most security questions a vault keeps.
pub const MAX_SECURITY_QUESTIONS: usize = 3;

/// Vault-level settings.
#[derive(Debug, Clone, Copy, PartialEq, Eq, Structural)]
pub struct VaultSettings {
    /// Auto-lock timeout in seconds (`None` disables it).
    pub auto_lock_timeout_secs: Option<u64>,
    /// Clipboard clear timeout in seconds.
    pub clipboard_clear_secs: u64,
    /// Kind proposed for new items.
    pub default_item_kind: ItemKind,
}

impl Default for VaultSettings {
    fn default() -> (r: VaultSettings)
        ensures
            r == (VaultSettings {
                auto_lock_timeout_secs: Some(300),
                clipboard_clear_secs: 60,
                default_item_kind: ItemKind::Generic,
            }),
    {
        VaultSettings { auto_lock_timeout_secs: Some(300), clipboard_clear_secs: 60, default_item_kind: ItemKind::Generic }
    }
}

/// The root container of a user's secrets.
#[derive(Debug, Clone)]
pub struct Vault {
    /// Unique identifier.
    pub id: u128,
    /// Name.
    pub name: String,
    /// Optional description.
    pub description: Option<String>,
    /// Creation time, in milliseconds since the Unix epoch.
    pub created_at: i64,
    /// Last modification time, in milliseconds since the Unix epoch.
    pub updated_at: i64,
    /// Items, in insertion order.
    pub items: Vec<Item>,
    /// Tags, in insertion order.
    pub tags: Vec<Tag>,
    /// Settings.
    pub settings: VaultSettings,
    /// Security questions (at most three).
    pub security_questions: Vec<SecurityQuestion>,
}

/// Position of the first item with identifier `id`.
pub open spec fn item_position(items: Seq<Item>, id: u128) -> Option<int> {
    if exists|i: int| 0 <= i < items.len() && items[i].id == id {
        Some(choose|i: int| 0 <= i < items.len() && items[i].id == id && forall|j: int| 0 <= j < i ==> items[j].id != id)
    } else {
        None
    }
}

/// Position of the first tag with identifier `id`.
pub open spec fn tag_position(tags: Seq<Tag>, id: u128) -> Option<int> {
    if exists|i: int| 0 <= i < tags.len() && tags[i].id == id {
        Some(choose|i: int| 0 <= i < tags.len() && tags[i].id == id && forall|j: int| 0 <= j < i ==> tags[j].id != id)
    } else {
        None
    }
}

/// `items` without the item at `i`.
pub open spec fn without(items: Seq<Item>, i: int) -> Seq<Item> {
    items.remove(i)
}

/// Whether an item carries a tag.
pub open spec fn has_tag(tag_id: u128) -> spec_fn(Item) -> bool {
    |i: Item| i.tags@.contains(tag_id)
}

/// Whether an identifier differs from `id`.
pub open spec fn not_id(id: u128) -> spec_fn(u128) -> bool {
    |t: u128| t != id
}

/// Whether an item is a favorite.
pub open spec fn is_favorite() -> spec_fn(Item) -> bool {
    |i: Item| i.favorite
}

/// Whether an item has a kind.
pub open spec fn is_of_kind(kind: ItemKind) -> spec_fn(Item) -> bool {
    |i: Item| i.kind == kind
}

/// The items of `refs` (references, read as the items they point at).
pub open spec fn deref_items(refs: Seq<&Item>) -> Seq<Item> {
    refs.map_values(|r: &Item| *r)
}

/// Finds the first item with identifier `id`.
fn find_item(items: &Vec<Item>, id: u128) -> (r: Option<usize>)
    ensures
        match r {
            Some(i) => item_position(items@, id) == Some(i as int) && i < items@.len() && items@[i as int].id == id,
            None => item_position(items@, id) is None,
        },
{
    let mut i: usize = 0;
    while i < items.len()
        invariant
            i <= items.len(),
            forall|j: int| 0 <= j < i ==> items@[j].id != id,
        decreases items.len() - i,
    {
        if items[i].id == id {
            let ghost k = choose|k: int| 0 <= k < items@.len() && items@[k].id == id
                && forall|j: int| 0 <= j < k ==> items@[j].id != id;
            assert(k == i) by {
                if k < i {
                } else if k > i {
                    assert(items@[i as int].id == id);
                }
            }
            return Some(i);
        }
        i = i + 1;
    }
    None
}

/// Finds the first tag with identifier `id`.
fn find_tag(tags: &Vec<Tag>, id: u128) -> (r: Option<usize>)
    ensures
        match r {
            Some(i) => tag_position(tags@, id) == Some(i as int) && i < tags@.len() && tags@[i as int].id == id,
            None => tag_position(tags@, id) is None,
        },
{
    let mut i: usize = 0;
    while i < tags.len()
        invariant
            i <= tags.len(),
            forall|j: int| 0 <= j < i ==> tags@[j].id != id,
        decreases tags.len() - i,
    {
        if tags[i].id == id {
            let ghost k = choose|k: int| 0 <= k < tags@.len() && tags@[k].id == id
                && forall|j: int| 0 <= j < k ==> tags@[j].id != id;
            assert(k == i) by {
                if k < i {
                } else if k > i {
                    assert(tags@[i as int].id == id);
                }
            }
            return Some(i);
        }
        i = i + 1;
    }
    None
}

/// `tags` without any occurrence of `id`.
pub fn tags_without(tags: &Vec<u128>, id: u128) -> (r: Vec<u128>)
    ensures
        r@ == tags@.filter(not_id(id)),
{
    let mut r: Vec<u128> = Vec::new();
    let mut i: usize = 0;
    proof {
        lemma_filter_empty(tags@, not_id(id));
    }
    while i < tags.len()
        invariant
            i <= tags.len(),
            r@ == tags@.take(i as int).filter(not_id(id)),
        decreases tags.len() - i,
    {
        let ghost p = not_id(id);
        proof {
            lemma_filter_take_step(tags@, i as int, p);
        }
        let t = tags[i];
        assert(p(t) == (t != id));
        if t != id {
            r.push(t);
        }
        assert(r@ =~= tags@.take(i + 1).filter(p));
        i = i + 1;
    }
    proof {
        lemma_take_full(tags@);
    }
    r
}

impl Vault {
    /// An empty vault with a fresh identifier and default settings.
    pub fn new(name: &str) -> (r: Vault)
        ensures
            r.name@ == name@,
            r.description is None,
            r.items@.len() == 0,
            r.tags@.len() == 0,
            r.security_questions@.len() == 0,
            r.created_at == r.updated_at,
            r.settings == (VaultSettings {
                auto_lock_timeout_secs: Some(300),
                clipboard_clear_secs: 60,
                default_item_kind: ItemKind::Generic,
            }),
    {
        let now = now_millis();
        Vault {
            id: new_id(),
            name: String::from_str(name),
            description: None,
            created_at: now,
            updated_at: now,
            items: Vec::new(),
            tags: Vec::new(),
            settings: VaultSettings::default(),
            security_questions: Vec::new(),
        }
    }

    /// The vault with a description.
    pub fn with_description(self, description: &str) -> (r: Vault)
        ensures
            r == (Vault { description: r.description, ..self }),
            r.description matches Some(d) && d@ == description@,
    {
        let mut v = self;
        v.description = Some(String::from_str(description));
        v
    }

    /// Appends an item.
    pub fn add_item(&mut self, item: Item)
        ensures
            final(self).items@ == old(self).items@.push(item),
            *final(self) == (Vault { items: final(self).items, updated_at: final(self).updated_at, ..*old(self) }),
    {
        self.items.push(item);
        self.touch();
    }

    /// Removes the first item with identifier `id` and returns it.
    pub fn remove_item(&mut self, id: u128) -> (r: Option<Item>)
        ensures
            match item_position(old(self).items@, id) {
                Some(p) => r == Some(old(self).items@[p]) && final(self).items@ == without(old(self).items@, p)
                    && *final(self) == (Vault { items: final(self).items, updated_at: final(self).updated_at, ..*old(self) }),
                None => r is None && *final(self) == *old(self),
            },
    {
        match find_item(&self.items, id) {
            Some(pos) => {
                self.touch();
                Some(self.items.remove(pos))
            },
            None => None,
        }
    }

    /// The first item with identifier `id`.
    pub fn get_item(&self, id: u128) -> (r: Option<&Item>)
        ensures
            match item_position(self.items@, id) {
                Some(p) => r == Some(&self.items@[p]),
                None => r is None,
            },
    {
        match find_item(&self.items, id) {
            Some(pos) => Some(&self.items[pos]),
            None => None,
        }
    }

    /// The first item with identifier `id`, to change in place: what is
    /// written through the reference becomes that item of the vault, and
    /// nothing else changes.
    pub fn get_item_mut(&mut self, id: u128) -> (r: Option<&mut Item>)
        ensures
            match item_position(old(self).items@, id) {
                Some(p) => r matches Some(it) && *it == old(self).items@[p]
                    && final(self).items@ == old(self).items@.update(p, *final(it))
                    && *final(self) == (Vault { items: final(self).items, ..*old(self) }),
                None => r is None && *final(self) == *old(self),
            },
    {
        match find_item(&self.items, id) {
            Some(pos) => Some(&mut self.items[pos]),
            None => None,
        }
    }

    /// Position of the first item with identifier `id`.
    pub fn item_index(&self, id: u128) -> (r: Option<usize>)
        ensures
            match r {
                Some(i) => item_position(self.items@, id) == Some(i as int) && i < self.items@.len()
                    && self.items@[i as int].id == id,
                None => item_position(self.items@, id) is None,
            },
    {
        find_item(&self.items, id)
    }

    /// Appends a tag.
    pub fn add_tag(&mut self, tag: Tag)
        ensures
            final(self).tags@ == old(self).tags@.push(tag),
            *final(self) == (Vault { tags: final(self).tags, updated_at: final(self).updated_at, ..*old(self) }),
    {
        self.tags.push(tag);
        self.touch();
    }

    /// Removes tag `id` from every item, then removes the first tag with that
    /// identifier and returns it.
    pub fn remove_tag(&mut self, id: u128) -> (r: Option<Tag>)
        ensures
            final(self).items@.len() == old(self).items@.len(),
            forall|i: int| 0 <= i < old(self).items@.len() ==> {
                &&& #[trigger] final(self).items@[i] == (Item { tags: final(self).items@[i].tags, ..old(self).items@[i] })
                &&& final(self).items@[i].tags@ == old(self).items@[i].tags@.filter(not_id(id))
            },
            match tag_position(old(self).tags@, id) {
                Some(p) => r == Some(old(self).tags@[p]) && final(self).tags@ == old(self).tags@.remove(p),
                None => r is None && final(self).tags@ == old(self).tags@,
            },
            final(self).id == old(self).id && final(self).name == old(self).name
                && final(self).description == old(self).description
                && final(self).created_at == old(self).created_at
                && final(self).settings == old(self).settings
                && final(self).security_questions == old(self).security_questions,
    {
        let ghost old_items = self.items@;
        let mut i: usize = 0;
        while i < self.items.len()
            invariant
                i <= self.items@.len(),
                self.items@.len() == old_items.len(),
                self.id == old(self).id && self.name == old(self).name
                    && self.description == old(self).description
                    && self.created_at == old(self).created_at
                    && self.updated_at == old(self).updated_at
                    && self.settings == old(self).settings
                    && self.security_questions == old(self).security_questions
                    && self.tags == old(self).tags,
                forall|j: int| i <= j < old_items.len() ==> #[trigger] self.items@[j] == old_items[j],
                forall|j: int| 0 <= j < i ==> {
                    &&& #[trigger] self.items@[j] == (Item { tags: self.items@[j].tags, ..old_items[j] })
                    &&& self.items@[j].tags@ == old_items[j].tags@.filter(not_id(id))
                },
            decreases self.items@.len() - i,
        {
            let mut item = self.items.remove(i);
            item.tags = tags_without(&item.tags, id);
            self.items.insert(i, item);
            i = i + 1;
        }
        match find_tag(&self.tags, id) {
            Some(pos) => {
                self.touch();
                Some(self.tags.remove(pos))
            },
            None => None,
        }
    }

    /// The first tag with identifier `id`.
    pub fn get_tag(&self, id: u128) -> (r: Option<&Tag>)
        ensures
            match tag_position(self.tags@, id) {
                Some(p) => r == Some(&self.tags@[p]),
                None => r is None,
            },
    {
        match find_tag(&self.tags, id) {
            Some(pos) => Some(&self.tags[pos]),
            None => None,
        }
    }

    /// The items carrying tag `tag_id`, in order.
    pub fn items_with_tag(&self, tag_id: u128) -> (r: Vec<&Item>)
        ensures
            deref_items(r@) == self.items@.filter(has_tag(tag_id)),
    {
        let mut r: Vec<&Item> = Vec::new();
        let mut i: usize = 0;
        proof {
            lemma_filter_empty(self.items@, has_tag(tag_id));
        }
        while i < self.items.len()
            invariant
                i <= self.items@.len(),
                deref_items(r@) == self.items@.take(i as int).filter(has_tag(tag_id)),
            decreases self.items@.len() - i,
        {
            let ghost p = has_tag(tag_id);
            proof {
                lemma_filter_take_step(self.items@, i as int, p);
            }
            let item = &self.items[i];
            assert(p(*item) == item.tags@.contains(tag_id));
            if contains_id(&item.tags, tag_id) {
                r.push(item);
                assert(deref_items(r@) =~= self.items@.take(i as int).filter(p).push(*item));
            }
            i = i + 1;
        }
        proof {
            lemma_take_full(self.items@);
        }
        r
    }

    /// The favorite items, in order.
    pub fn favorite_items(&self) -> (r: Vec<&Item>)
        ensures
            deref_items(r@) == self.items@.filter(is_favorite()),
    {
        let mut r: Vec<&Item> = Vec::new();
        let mut i: usize = 0;
        proof {
            lemma_filter_empty(self.items@, is_favorite());
        }
        while i < self.items.len()
            invariant
                i <= self.items@.len(),
                deref_items(r@) == self.items@.take(i as int).filter(is_favorite()),
            decreases self.items@.len() - i,
        {
            let ghost p = is_favorite();
            proof {
                lemma_filter_take_step(self.items@, i as int, p);
            }
            let item = &self.items[i];
            assert(p(*item) == item.favorite);
            if item.favorite {
                r.push(item);
                assert(deref_items(r@) =~= self.items@.take(i as int).filter(p).push(*item));
            }
            i = i + 1;
        }
        proof {
            lemma_take_full(self.items@);
        }
        r
    }

    /// The items of kind `kind`, in order.
    pub fn items_of_kind(&self, kind: ItemKind) -> (r: Vec<&Item>)
        ensures
            deref_items(r@) == self.items@.filter(is_of_kind(kind)),
    {
        let mut r: Vec<&Item> = Vec::new();
        let mut i: usize = 0;
        proof {
            lemma_filter_empty(self.items@, is_of_kind(kind));
        }
        while i < self.items.len()
            invariant
                i <= self.items@.len(),
                deref_items(r@) == self.items@.take(i as int).filter(is_of_kind(kind)),
            decreases self.items@.len() - i,
        {
            let ghost p = is_of_kind(kind);
            proof {
                lemma_filter_take_step(self.items@, i as int, p);
            }
            let item = &self.items[i];
            assert(p(*item) == (item.kind == kind));
            if item.kind == kind {
                r.push(item);
                assert(deref_items(r@) =~= self.items@.take(i as int).filter(p).push(*item));
            }
            i = i + 1;
        }
        proof {
            lemma_take_full(self.items@);
        }
        r
    }

    /// Records a modification now.
    pub fn touch(&mut self)
        ensures
            *final(self) == (Vault { updated_at: final(self).updated_at, ..*old(self) }),
    {
        self.updated_at = now_millis();
    }

    /// Number of items.
    pub fn item_count(&self) -> (r: usize)
        ensures
            r == self.items@.len(),
    {
        self.items.len()
    }

    /// Whether recovery questions are set up.
    pub fn has_security_questions(&self) -> (r: bool)
        ensures
            r == (self.security_questions@.len() > 0),
    {
        self.security_questions.len() > 0
    }

    /// Adds a security question unless three are already set; says whether it
    /// was added.
    pub fn add_security_question(&mut self, question: SecurityQuestion) -> (r: bool)
        ensures
            r == (old(self).security_questions@.len() < MAX_SECURITY_QUESTIONS),
            r ==> final(self).security_questions@ == old(self).security_questions@.push(question),
            !r ==> final(self).security_questions@ == old(self).security_questions@,
            *final(self) == (Vault { security_questions: final(self).security_questions, ..*old(self) }),
    {
        if self.security_questions.len() < MAX_SECURITY_QUESTIONS {
            self.security_questions.push(question);
            true
        } else {
            false
        }
    }
}

/// Whether `ids` contains `id`.
pub fn contains_id(ids: &Vec<u128>, id: u128) -> (r: bool)
    ensures
        r == ids@.contains(id),
{
    let mut i: usize = 0;
    while i < ids.len()
        invariant
            i <= ids.len(),
            forall|j: int| 0 <= j < i ==> ids@[j] != id,
        decreases ids.len() - i,
    {
        if ids[i] == id {
            assert(ids@[i as int] == id);
            return true;
        }
        i = i + 1;
    }
    false
}

/// After a tag is removed, no item carries it any longer.
pub proof fn lemma_removed_tag_gone(tags: Seq<u128>, id: u128)
    ensures
        !tags.filter(not_id(id)).contains(id),
{
    broadcast use vstd::seq_lib::group_filter_ensures;
    let f = tags.filter(not_id(id));
    if f.contains(id) {
        let k = choose|k: int| 0 <= k < f.len() && f[k] == id;
        assert((|t: u128| t != id)(f[k]));
    }
}

/// What the position of the first item with an identifier tells.
pub proof fn lemma_position_facts(items: Seq<Item>, id: u128)
    ensures
        match item_position(items, id) {
            Some(p) => 0 <= p < items.len() && items[p].id == id && forall|j: int| 0 <= j < p ==> items[j].id != id,
            None => forall|j: int| 0 <= j < items.len() ==> items[j].id != id,
        },
{
    if exists|i: int| 0 <= i < items.len() && items[i].id == id {
        let k = lemma_first_with_id(items, id);
    }
}

/// When some item has identifier `id`, a first one does.
proof fn lemma_first_with_id(items: Seq<Item>, id: u128) -> (k: int)
    requires
        exists|i: int| 0 <= i < items.len() && items[i].id == id,
    ensures
        0 <= k < items.len() && items[k].id == id && forall|j: int| 0 <= j < k ==> items[j].id != id,
    decreases items.len(),
{
    if items[0].id == id {
        0
    } else {
        let i = choose|i: int| 0 <= i < items.len() && items[i].id == id;
        assert(items.drop_first()[i - 1].id == id);
        let k = lemma_first_with_id(items.drop_first(), id);
        assert forall|j: int| 0 <= j < k + 1 implies items[j].id != id by {
            if j > 0 {
                assert(items[j] == items.drop_first()[j - 1]);
            }
        }
        k + 1
    }
}

/// The first item with an identifier stays the first when the identifiers
/// before it do not change and it keeps its own.
pub proof fn lemma_position_kept(a: Seq<Item>, b: Seq<Item>, id: u128, p: int)
    requires
        item_position(a, id) == Some(p),
        a.len() == b.len(),
        0 <= p < b.len(),
        b[p].id == id,
        forall|j: int| 0 <= j < p ==> b[j].id == a[j].id,
    ensures
        item_position(b, id) == Some(p),
{
    lemma_position_facts(a, id);
    lemma_position_facts(b, id);
    let q = item_position(b, id)->0;
    if q < p {
        assert(b[q].id == a[q].id);
    } else if p < q {
        assert(b[p].id == id);
    }
}

} // verus!
