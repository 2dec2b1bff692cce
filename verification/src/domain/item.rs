//! Items: the entries a vault stores.
use vstd::prelude::*;

use crate::clock::{new_id, now_millis};
use crate::domain::history::HistoryEntry;

verus! {

/// Kinds of items.
#[derive(Debug, Clone, Copy, PartialEq, Eq, Structural, Hash)]
pub enum ItemKind {
    /// Generic value.
    Generic,
    /// Cryptocurrency seed phrase.
    CryptoSeed,
    /// Login credentials.
    Password,
    /// Text note.
    SecureNote,
    /// API key or token.
    ApiKey,
    /// One-time password secret.
    Totp,
    /// Free-form typed fields.
    Custom,
}

impl Default for ItemKind {
    fn default() -> (r: ItemKind)
        ensures
            r == ItemKind::Generic,
    {
        ItemKind::Generic
    }
}

/// Display name of a kind.
pub open spec fn kind_name(k: ItemKind) -> Seq<char> {
    match k {
        ItemKind::Generic => "Generic"@,
        ItemKind::CryptoSeed => "Crypto Seed"@,
        ItemKind::Password => "Password"@,
        ItemKind::SecureNote => "Secure Note"@,
        ItemKind::ApiKey => "API Key"@,
        ItemKind::Totp => "TOTP"@,
        ItemKind::Custom => "Custom"@,
    }
}

/// Icon of a kind (Nerd Font glyph).
pub open spec fn kind_icon_of(k: ItemKind) -> Seq<char> {
    match k {
        ItemKind::Generic => "\u{f0214}"@,
        ItemKind::CryptoSeed => "\u{f0783}"@,
        ItemKind::Password => "\u{f030b}"@,
        ItemKind::SecureNote => "\u{f1782}"@,
        ItemKind::ApiKey => "\u{f0bc4}"@,
        ItemKind::Totp => "\u{f051f}"@,
        ItemKind::Custom => "\u{f0626}"@,
    }
}

/// All kinds, in menu order.
pub open spec fn all_kinds() -> Seq<ItemKind> {
    seq![
        ItemKind::Generic,
        ItemKind::CryptoSeed,
        ItemKind::Password,
        ItemKind::SecureNote,
        ItemKind::ApiKey,
        ItemKind::Totp,
        ItemKind::Custom,
    ]
}

impl ItemKind {
    /// Display name.
    pub fn display_name(&self) -> (r: &'static str)
        ensures
            r@ == kind_name(*self),
    {
        match self {
            ItemKind::Generic => "Generic",
            ItemKind::CryptoSeed => "Crypto Seed",
            ItemKind::Password => "Password",
            ItemKind::SecureNote => "Secure Note",
            ItemKind::ApiKey => "API Key",
            ItemKind::Totp => "TOTP",
            ItemKind::Custom => "Custom",
        }
    }

    /// Icon (Nerd Font glyph).
    pub fn icon(&self) -> (r: &'static str)
        ensures
            r@ == kind_icon_of(*self),
    {
        match self {
            ItemKind::Generic => "\u{f0214}",
            ItemKind::CryptoSeed => "\u{f0783}",
            ItemKind::Password => "\u{f030b}",
            ItemKind::SecureNote => "\u{f1782}",
            ItemKind::ApiKey => "\u{f0bc4}",
            ItemKind::Totp => "\u{f051f}",
            ItemKind::Custom => "\u{f0626}",
        }
    }

    /// All kinds.
    pub fn all() -> (r: &'static [ItemKind])
        ensures
            r@ == all_kinds(),
    {
        let r: &'static [ItemKind] = &[
            ItemKind::Generic,
            ItemKind::CryptoSeed,
            ItemKind::Password,
            ItemKind::SecureNote,
            ItemKind::ApiKey,
            ItemKind::Totp,
            ItemKind::Custom,
        ];
        assert(r@ =~= all_kinds());
        r
    }

    /// Empty content of this kind.
    pub fn default_content(&self) -> (r: ItemContent)
        ensures
            r.kind() == *self,
            r.is_blank(),
    {
        match self {
            ItemKind::Generic => ItemContent::Generic { value: String::new() },
            ItemKind::CryptoSeed => ItemContent::CryptoSeed {
                seed_phrase: String::new(),
                derivation_path: None,
                network: None,
            },
            ItemKind::Password => ItemContent::Password {
                username: None,
                password: String::new(),
                url: None,
                totp_secret: None,
            },
            ItemKind::SecureNote => ItemContent::SecureNote { content: String::new() },
            ItemKind::ApiKey => ItemContent::ApiKey { key: String::new(), service: None, expires_at: None },
            ItemKind::Totp => ItemContent::Totp {
                issuer: None,
                account_name: String::new(),
                secret: String::new(),
            },
            ItemKind::Custom => ItemContent::Custom { fields: Vec::new() },
        }
    }
}

/// Types of custom fields.
#[derive(Debug, Clone, Copy, PartialEq, Eq, Structural, Hash)]
pub enum CustomFieldType {
    Text,
    Secret,
    Url,
    Number,
}

/// Name of a custom field type as written in forms.
pub open spec fn field_type_name(t: CustomFieldType) -> Seq<char> {
    match t {
        CustomFieldType::Text => "text"@,
        CustomFieldType::Secret => "secret"@,
        CustomFieldType::Url => "url"@,
        CustomFieldType::Number => "number"@,
    }
}

impl CustomFieldType {
    /// Name as written in forms.
    pub fn as_str(&self) -> (r: &'static str)
        ensures
            r@ == field_type_name(*self),
    {
        match self {
            CustomFieldType::Text => "text",
            CustomFieldType::Secret => "secret",
            CustomFieldType::Url => "url",
            CustomFieldType::Number => "number",
        }
    }
}

/// A typed key/value field of a custom item.
#[derive(Debug, Clone)]
pub struct CustomField {
    pub key: String,
    pub value: String,
    pub field_type: CustomFieldType,
}

/// Type-specific content of an item.
#[derive(Debug, Clone)]
pub enum ItemContent {
    Generic { value: String },
    CryptoSeed { seed_phrase: String, derivation_path: Option<String>, network: Option<String> },
    Password { username: Option<String>, password: String, url: Option<String>, totp_secret: Option<String> },
    SecureNote { content: String },
    ApiKey { key: String, service: Option<String>, expires_at: Option<i64> },
    Totp { issuer: Option<String>, account_name: String, secret: String },
    Custom { fields: Vec<CustomField> },
}

/// The view of an optional string.
pub open spec fn opt_view(s: Option<String>) -> Option<Seq<char>> {
    match s {
        Some(x) => Some(x@),
        None => None,
    }
}

impl ItemContent {
    /// The kind this content belongs to.
    pub open spec fn kind(&self) -> ItemKind {
        match self {
            ItemContent::Generic { .. } => ItemKind::Generic,
            ItemContent::CryptoSeed { .. } => ItemKind::CryptoSeed,
            ItemContent::Password { .. } => ItemKind::Password,
            ItemContent::SecureNote { .. } => ItemKind::SecureNote,
            ItemContent::ApiKey { .. } => ItemKind::ApiKey,
            ItemContent::Totp { .. } => ItemKind::Totp,
            ItemContent::Custom { .. } => ItemKind::Custom,
        }
    }

    /// Whether every text of the content is empty and every option unset.
    pub open spec fn is_blank(&self) -> bool {
        match self {
            ItemContent::Generic { value } => value@.len() == 0,
            ItemContent::CryptoSeed { seed_phrase, derivation_path, network } =>
                seed_phrase@.len() == 0 && derivation_path is None && network is None,
            ItemContent::Password { username, password, url, totp_secret } =>
                username is None && password@.len() == 0 && url is None && totp_secret is None,
            ItemContent::SecureNote { content } => content@.len() == 0,
            ItemContent::ApiKey { key, service, expires_at } =>
                key@.len() == 0 && service is None && expires_at is None,
            ItemContent::Totp { issuer, account_name, secret } =>
                issuer is None && account_name@.len() == 0 && secret@.len() == 0,
            ItemContent::Custom { fields } => fields@.len() == 0,
        }
    }

    /// The main secret of the content, the one that is copied.
    pub open spec fn primary_secret(&self) -> Option<Seq<char>> {
        match self {
            ItemContent::Generic { value } => Some(value@),
            ItemContent::CryptoSeed { seed_phrase, .. } => Some(seed_phrase@),
            ItemContent::Password { password, .. } => Some(password@),
            ItemContent::SecureNote { content } => Some(content@),
            ItemContent::ApiKey { key, .. } => Some(key@),
            ItemContent::Totp { secret, .. } => Some(secret@),
            ItemContent::Custom { fields } => if fields@.len() > 0 { Some(fields@[0].value@) } else { None },
        }
    }
}

impl Default for ItemContent {
    fn default() -> (r: ItemContent)
        ensures
            r.kind() == ItemKind::Generic,
            r.is_blank(),
    {
        ItemContent::Generic { value: String::new() }
    }
}

/// A single entry of a vault.
#[derive(Debug, Clone)]
pub struct Item {
    /// Unique identifier.
    pub id: u128,
    /// Display title.
    pub title: String,
    /// Kind of item.
    pub kind: ItemKind,
    /// Kind-specific content.
    pub content: ItemContent,
    /// Optional notes.
    pub notes: Option<String>,
    /// Identifiers of the item's tags.
    pub tags: Vec<u128>,
    /// Marked as favorite.
    pub favorite: bool,
    /// Creation time, in milliseconds since the Unix epoch.
    pub created_at: i64,
    /// Last modification time, in milliseconds since the Unix epoch.
    pub updated_at: i64,
    /// Edit history.
    pub history: Vec<HistoryEntry>,
}

impl Item {
    /// A new item with a fresh identifier, no notes, tags or history, not a
    /// favorite, created and updated now.
    pub fn new(title: &str, kind: ItemKind, content: ItemContent) -> (r: Item)
        ensures
            r.title@ == title@,
            r.kind == kind,
            r.content == content,
            r.notes is None,
            r.tags@.len() == 0,
            !r.favorite,
            r.created_at == r.updated_at,
            r.history@.len() == 0,
    {
        let now = now_millis();
        Item {
            id: new_id(),
            title: String::from_str(title),
            kind,
            content,
            notes: None,
            tags: Vec::new(),
            favorite: false,
            created_at: now,
            updated_at: now,
            history: Vec::new(),
        }
    }

    /// A generic item.
    pub fn generic(title: &str, value: &str) -> (r: Item)
        ensures
            r.title@ == title@,
            r.kind == ItemKind::Generic,
            r.content matches ItemContent::Generic { value: v } && v@ == value@,
            r.notes is None && r.tags@.len() == 0 && !r.favorite,
    {
        Item::new(title, ItemKind::Generic, ItemContent::Generic { value: String::from_str(value) })
    }

    /// A crypto seed item.
    pub fn crypto_seed(title: &str, seed_phrase: &str) -> (r: Item)
        ensures
            r.title@ == title@,
            r.kind == ItemKind::CryptoSeed,
            r.content matches ItemContent::CryptoSeed { seed_phrase: s, derivation_path: d, network: n }
                && s@ == seed_phrase@ && d is None && n is None,
            r.notes is None && r.tags@.len() == 0 && !r.favorite,
    {
        Item::new(
            title,
            ItemKind::CryptoSeed,
            ItemContent::CryptoSeed { seed_phrase: String::from_str(seed_phrase), derivation_path: None, network: None },
        )
    }

    /// A password item.
    pub fn password(title: &str, password: &str) -> (r: Item)
        ensures
            r.title@ == title@,
            r.kind == ItemKind::Password,
            r.content matches ItemContent::Password { username: u, password: p, url: l, totp_secret: t }
                && p@ == password@ && u is None && l is None && t is None,
            r.notes is None && r.tags@.len() == 0 && !r.favorite,
    {
        Item::new(
            title,
            ItemKind::Password,
            ItemContent::Password { username: None, password: String::from_str(password), url: None, totp_secret: None },
        )
    }

    /// A secure note.
    pub fn secure_note(title: &str, content: &str) -> (r: Item)
        ensures
            r.title@ == title@,
            r.kind == ItemKind::SecureNote,
            r.content matches ItemContent::SecureNote { content: c } && c@ == content@,
            r.notes is None && r.tags@.len() == 0 && !r.favorite,
    {
        Item::new(title, ItemKind::SecureNote, ItemContent::SecureNote { content: String::from_str(content) })
    }

    /// An API key item.
    pub fn api_key(title: &str, key: &str) -> (r: Item)
        ensures
            r.title@ == title@,
            r.kind == ItemKind::ApiKey,
            r.content matches ItemContent::ApiKey { key: k, service: s, expires_at: e }
                && k@ == key@ && s is None && e is None,
            r.notes is None && r.tags@.len() == 0 && !r.favorite,
    {
        Item::new(
            title,
            ItemKind::ApiKey,
            ItemContent::ApiKey { key: String::from_str(key), service: None, expires_at: None },
        )
    }

    /// The item with the given notes.
    pub fn with_notes(self, notes: &str) -> (r: Item)
        ensures
            r == (Item { notes: r.notes, ..self }),
            r.notes matches Some(n) && n@ == notes@,
    {
        let mut s = self;
        s.notes = Some(String::from_str(notes));
        s
    }

    /// The item with one more tag.
    pub fn with_tag(self, tag_id: u128) -> (r: Item)
        ensures
            r == (Item { tags: r.tags, ..self }),
            r.tags@ == self.tags@.push(tag_id),
    {
        let mut s = self;
        s.tags.push(tag_id);
        s
    }

    /// The item marked (or not) as favorite.
    pub fn with_favorite(self, favorite: bool) -> (r: Item)
        ensures
            r == (Item { favorite, ..self }),
    {
        let mut s = self;
        s.favorite = favorite;
        s
    }

    /// Records a modification now.
    pub fn touch(&mut self)
        ensures
            *final(self) == (Item { updated_at: final(self).updated_at, ..*old(self) }),
    {
        self.updated_at = now_millis();
    }

    /// The main secret of the item, the one that is copied.
    pub fn get_copyable_content(&self) -> (r: Option<&str>)
        ensures
            match r {
                Some(s) => self.content.primary_secret() == Some(s@),
                None => self.content.primary_secret() is None,
            },
            self.content matches ItemContent::Password { password, .. } ==> (r matches Some(s) && s@ == password@),
            self.content matches ItemContent::Generic { value } ==> (r matches Some(s) && s@ == value@),
            self.content matches ItemContent::CryptoSeed { seed_phrase, .. } ==> (r matches Some(s) && s@
                == seed_phrase@),
            self.content matches ItemContent::SecureNote { content } ==> (r matches Some(s) && s@ == content@),
            self.content matches ItemContent::ApiKey { key, .. } ==> (r matches Some(s) && s@ == key@),
            self.content matches ItemContent::Totp { secret, .. } ==> (r matches Some(s) && s@ == secret@),
    {
        match &self.content {
            ItemContent::Generic { value } => Some(value.as_str()),
            ItemContent::CryptoSeed { seed_phrase, .. } => Some(seed_phrase.as_str()),
            ItemContent::Password { password, .. } => Some(password.as_str()),
            ItemContent::SecureNote { content } => Some(content.as_str()),
            ItemContent::ApiKey { key, .. } => Some(key.as_str()),
            ItemContent::Totp { secret, .. } => Some(secret.as_str()),
            ItemContent::Custom { fields } => {
                if fields.len() > 0 {
                    Some(fields[0].value.as_str())
                } else {
                    None
                }
            },
        }
    }
}

/// The secret copied from an item is its password for a login, its seed
/// phrase, its note, its API key or its value, and never one of the other
/// fields: two logins with the same password copy the same text whatever
/// their user names, addresses and one-time secrets.
pub proof fn lemma_copied_secret(c: ItemContent, d: ItemContent)
    ensures
        c matches ItemContent::Password { password, .. } ==> c.primary_secret() == Some(password@),
        c matches ItemContent::CryptoSeed { seed_phrase, .. } ==> c.primary_secret() == Some(seed_phrase@),
        c matches ItemContent::SecureNote { content } ==> c.primary_secret() == Some(content@),
        c matches ItemContent::ApiKey { key, .. } ==> c.primary_secret() == Some(key@),
        c matches ItemContent::Generic { value } ==> c.primary_secret() == Some(value@),
        c matches ItemContent::Totp { secret, .. } ==> c.primary_secret() == Some(secret@),
        (c matches ItemContent::Password { password: p, .. } && d matches ItemContent::Password { password: q, .. }
            && p@ == q@) ==> c.primary_secret() == d.primary_secret(),
{
}

/// The custom fields as key, value and type.
pub open spec fn field_views(fields: Seq<CustomField>) -> Seq<(Seq<char>, Seq<char>, CustomFieldType)> {
    fields.map_values(|f: CustomField| (f.key@, f.value@, f.field_type))
}

/// Whether two contents hold the same texts and settings.
pub open spec fn content_same(a: ItemContent, b: ItemContent) -> bool {
    match (a, b) {
        (ItemContent::Generic { value: x }, ItemContent::Generic { value: y }) => x@ == y@,
        (
            ItemContent::CryptoSeed { seed_phrase: s1, derivation_path: d1, network: n1 },
            ItemContent::CryptoSeed { seed_phrase: s2, derivation_path: d2, network: n2 },
        ) => s1@ == s2@ && opt_view(d1) == opt_view(d2) && opt_view(n1) == opt_view(n2),
        (
            ItemContent::Password { username: u1, password: p1, url: l1, totp_secret: t1 },
            ItemContent::Password { username: u2, password: p2, url: l2, totp_secret: t2 },
        ) => opt_view(u1) == opt_view(u2) && p1@ == p2@ && opt_view(l1) == opt_view(l2) && opt_view(t1)
            == opt_view(t2),
        (ItemContent::SecureNote { content: x }, ItemContent::SecureNote { content: y }) => x@ == y@,
        (
            ItemContent::ApiKey { key: k1, service: s1, expires_at: e1 },
            ItemContent::ApiKey { key: k2, service: s2, expires_at: e2 },
        ) => k1@ == k2@ && opt_view(s1) == opt_view(s2) && e1 == e2,
        (
            ItemContent::Totp { issuer: i1, account_name: a1, secret: s1 },
            ItemContent::Totp { issuer: i2, account_name: a2, secret: s2 },
        ) => opt_view(i1) == opt_view(i2) && a1@ == a2@ && s1@ == s2@,
        (ItemContent::Custom { fields: f1 }, ItemContent::Custom { fields: f2 }) => field_views(f1@) == field_views(
            f2@,
        ),
        _ => false,
    }
}

/// A copy of an optional string.
pub fn copy_opt(s: &Option<String>) -> (r: Option<String>)
    ensures
        opt_view(r) == opt_view(*s),
{
    match s {
        Some(x) => Some(x.clone()),
        None => None,
    }
}

/// A copy of custom fields.
fn copy_fields(fields: &Vec<CustomField>) -> (r: Vec<CustomField>)
    ensures
        field_views(r@) == field_views(fields@),
{
    let mut r: Vec<CustomField> = Vec::new();
    let mut i: usize = 0;
    while i < fields.len()
        invariant
            i <= fields@.len(),
            r@.len() == i,
            forall|k: int| 0 <= k < i ==> (#[trigger] r@[k]).key@ == fields@[k].key@ && r@[k].value@ == fields@[k].value@
                && r@[k].field_type == fields@[k].field_type,
        decreases fields@.len() - i,
    {
        let f = &fields[i];
        r.push(CustomField { key: f.key.clone(), value: f.value.clone(), field_type: f.field_type });
        i = i + 1;
    }
    assert(field_views(r@) =~= field_views(fields@));
    r
}

impl ItemContent {
    /// A copy of the content.
    pub fn duplicate(&self) -> (r: ItemContent)
        ensures
            content_same(r, *self),
            r.kind() == self.kind(),
    {
        match self {
            ItemContent::Generic { value } => ItemContent::Generic { value: value.clone() },
            ItemContent::CryptoSeed { seed_phrase, derivation_path, network } => ItemContent::CryptoSeed {
                seed_phrase: seed_phrase.clone(),
                derivation_path: copy_opt(derivation_path),
                network: copy_opt(network),
            },
            ItemContent::Password { username, password, url, totp_secret } => ItemContent::Password {
                username: copy_opt(username),
                password: password.clone(),
                url: copy_opt(url),
                totp_secret: copy_opt(totp_secret),
            },
            ItemContent::SecureNote { content } => ItemContent::SecureNote { content: content.clone() },
            ItemContent::ApiKey { key, service, expires_at } => ItemContent::ApiKey {
                key: key.clone(),
                service: copy_opt(service),
                expires_at: *expires_at,
            },
            ItemContent::Totp { issuer, account_name, secret } => ItemContent::Totp {
                issuer: copy_opt(issuer),
                account_name: account_name.clone(),
                secret: secret.clone(),
            },
            ItemContent::Custom { fields } => ItemContent::Custom { fields: copy_fields(fields) },
        }
    }
}

impl Item {
    /// Whether `other` holds the same data as this item (its history is
    /// compared by length).
    pub open spec fn same_as(&self, other: Item) -> bool {
        &&& self.id == other.id
        &&& self.title@ == other.title@
        &&& self.kind == other.kind
        &&& content_same(self.content, other.content)
        &&& opt_view(self.notes) == opt_view(other.notes)
        &&& self.tags@ == other.tags@
        &&& self.favorite == other.favorite
        &&& self.created_at == other.created_at
        &&& self.updated_at == other.updated_at
        &&& self.history@.len() == other.history@.len()
    }

    /// A copy of the item.
    pub fn duplicate(&self) -> (r: Item)
        ensures
            r.same_as(*self),
    {
        Item {
            id: self.id,
            title: self.title.clone(),
            kind: self.kind,
            content: self.content.duplicate(),
            notes: copy_opt(&self.notes),
            tags: self.tags.clone(),
            favorite: self.favorite,
            created_at: self.created_at,
            updated_at: self.updated_at,
            history: self.history.clone(),
        }
    }
}

} // verus!
