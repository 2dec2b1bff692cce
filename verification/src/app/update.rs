//! The update function: how each message changes the application state and
//! which outside work it asks for; and the form handling it relies on.
use vstd::prelude::*;

use crate::app::message::{ConfigUpdate, ItemUpdates, Message};
use crate::app::effect::{Effect, flattened};
use crate::app::message::ScrollDirection;
use crate::app::state::{AppMode, AppState, FilterState, InputBuffer, ItemSnapshot, NotificationLevel, Pane, Screen, UIState, UndoEntry, VaultState, window_ok};
use crate::crypto::secure_string::{SecureString, decimal, decimal_string};
use crate::ui::screens::login::{CreateVaultField, CreateVaultFormState, CreateVaultStep, SecurityQuestionDraft};
use crate::cursor::{byte_len, utf8_len};

use crate::ui::screens::settings::option_count;
use crate::ui::widgets::item_list::passes_filter;
use crate::domain::vault::deref_items;
use crate::app::state::FloatingWindow;
use crate::ui::screens::settings::{ChangePasswordAction, ChangePasswordStep, RecoveryQuestionDraft, RecoverySetupAction, RecoverySetupStep, SecurityActionState, SettingKind};
use crate::domain::vault::{Vault, item_position, lemma_position_kept};
use crate::crypto::secure_string::string_push;
use crate::domain::item::{CustomField, CustomFieldType, Item, ItemContent, ItemKind, opt_view};
use crate::storage::config::AppConfig;
use crate::crypto::kdf::Argon2Params;
use crate::text::{ascii_lower_seq, first_index_of, lowercase_of, split_once, to_ascii_lowercase, trim, trim_str};
use crate::ui::widgets::edit_form::{EditFormState, FormField, field_position};

verus! {

/// The pieces of `s` before the last separator `c` and the piece after it.
pub open spec fn pieces(s: Seq<char>, c: char) -> (Seq<Seq<char>>, Seq<char>)
    decreases s.len(),
{
    if s.len() == 0 {
        (Seq::empty(), Seq::empty())
    } else {
        let (done, cur) = pieces(s.drop_last(), c);
        if s.last() == c {
            (done.push(cur), Seq::empty())
        } else {
            (done, cur.push(s.last()))
        }
    }
}

/// `s` split at each `c`: the pieces between separators, in order.
pub open spec fn split_on(s: Seq<char>, c: char) -> Seq<Seq<char>> {
    pieces(s, c).0.push(pieces(s, c).1)
}

/// The custom field type a name stands for, ignoring ASCII case.
pub open spec fn field_type_named(raw: Seq<char>) -> Option<CustomFieldType> {
    let l = ascii_lower_seq(raw);
    if l == "text"@ {
        Some(CustomFieldType::Text)
    } else if l == "secret"@ {
        Some(CustomFieldType::Secret)
    } else if l == "url"@ {
        Some(CustomFieldType::Url)
    } else if l == "number"@ {
        Some(CustomFieldType::Number)
    } else {
        None
    }
}

/// The error for an entry that is not `type:key=value`.
pub open spec fn bad_format_message(entry: Seq<char>) -> Seq<char> {
    "Invalid custom field format '"@ + entry + "'. Use type:key=value"@
}

/// The error for an unknown type name.
pub open spec fn bad_type_message(raw: Seq<char>) -> Seq<char> {
    "Unsupported custom field type '"@ + raw + "'. Use text, secret, url, or number"@
}

/// The field an entry `type:key=value` describes (key, value, type; key and
/// value trimmed), or the error message: the type comes before the first
/// `:`, the key before the first `=` after it.
pub open spec fn entry_field(e: Seq<char>) -> Result<(Seq<char>, Seq<char>, CustomFieldType), Seq<char>> {
    match first_index_of(e, ':') {
        None => Err(bad_format_message(e)),
        Some(i) => {
            let raw_type = trim(e.take(i));
            let kv = e.skip(i + 1);
            match field_type_named(raw_type) {
                None => Err(bad_type_message(raw_type)),
                Some(t) => match first_index_of(kv, '=') {
                    None => Err(bad_format_message(e)),
                    Some(j) => if trim(kv.take(j)).len() == 0 {
                        Err("Custom field key cannot be empty"@)
                    } else {
                        Ok((trim(kv.take(j)), trim(kv.skip(j + 1)), t))
                    },
                },
            }
        },
    }
}

/// The fields the entries describe, or the error of the first bad one.
pub open spec fn entries_fields(entries: Seq<Seq<char>>) -> Result<Seq<(Seq<char>, Seq<char>, CustomFieldType)>, Seq<char>>
    decreases entries.len(),
{
    if entries.len() == 0 {
        Ok(Seq::empty())
    } else {
        match entries_fields(entries.drop_last()) {
            Err(m) => Err(m),
            Ok(fs) => match entry_field(entries.last()) {
                Err(m) => Err(m),
                Ok(f) => Ok(fs.push(f)),
            },
        }
    }
}

/// The entries of a custom fields text: its `;`-separated pieces, trimmed,
/// the empty ones dropped.
pub open spec fn field_entries(input: Seq<char>) -> Seq<Seq<char>> {
    split_on(trim(input), ';').map_values(|p: Seq<char>| trim(p)).filter(|p: Seq<char>| p.len() > 0)
}

/// The key, value and type of a field.
pub open spec fn field_view(f: CustomField) -> (Seq<char>, Seq<char>, CustomFieldType) {
    (f.key@, f.value@, f.field_type)
}

/// Whether two strings are equal.
fn same_text(a: &str, b: &str) -> (r: bool)
    ensures
        r == (a@ == b@),
{
    let x = String::from_str(a);
    let y = String::from_str(b);
    x == y
}

/// The custom field type a name stands for, ignoring ASCII case.
pub fn parse_custom_field_type(raw: &str) -> (r: core::result::Result<CustomFieldType, String>)
    ensures
        match field_type_named(raw@) {
            Some(t) => r == Ok::<CustomFieldType, String>(t),
            None => r matches Err(m) && m@ == bad_type_message(raw@),
        },
{
    proof {
        reveal_strlit("text");
        reveal_strlit("secret");
        reveal_strlit("url");
        reveal_strlit("number");
        reveal_strlit("Unsupported custom field type '");
        reveal_strlit("'. Use text, secret, url, or number");
    }
    let lower = to_ascii_lowercase(raw);
    if same_text(lower.as_str(), "text") {
        Ok(CustomFieldType::Text)
    } else if same_text(lower.as_str(), "secret") {
        Ok(CustomFieldType::Secret)
    } else if same_text(lower.as_str(), "url") {
        Ok(CustomFieldType::Url)
    } else if same_text(lower.as_str(), "number") {
        Ok(CustomFieldType::Number)
    } else {
        let mut m = String::from_str("Unsupported custom field type '");
        m.append(raw);
        m.append("'. Use text, secret, url, or number");
        Err(m)
    }
}

/// The error for an entry that is not `type:key=value`.
fn bad_format(input: &str) -> (r: String)
    ensures
        r@ == bad_format_message(input@),
{
    proof {
        reveal_strlit("Invalid custom field format '");
        reveal_strlit("'. Use type:key=value");
    }
    let mut m = String::from_str("Invalid custom field format '");
    m.append(input);
    m.append("'. Use type:key=value");
    m
}

/// Parses one entry `type:key=value`.
pub fn parse_single_custom_field(input: &str) -> (r: core::result::Result<CustomField, String>)
    ensures
        match entry_field(input@) {
            Ok(f) => r matches Ok(cf) && field_view(cf) == f,
            Err(m) => r matches Err(e) && e@ == m,
        },
{
    proof {
        reveal_strlit("Custom field key cannot be empty");
    }
    let (raw_type, key_value) = match split_once(input, ':') {
        Some(p) => p,
        None => {
            return Err(bad_format(input));
        },
    };
    let t = trim_str(raw_type.as_str());
    let field_type = parse_custom_field_type(t.as_str())?;
    let (raw_key, raw_value) = match split_once(key_value.as_str(), '=') {
        Some(p) => p,
        None => {
            return Err(bad_format(input));
        },
    };
    let key = trim_str(raw_key.as_str());
    if key.as_str().unicode_len() == 0 {
        return Err(String::from_str("Custom field key cannot be empty"));
    }
    Ok(CustomField { key, value: trim_str(raw_value.as_str()), field_type })
}

/// The views of custom fields.
pub open spec fn fields_view(fs: Seq<CustomField>) -> Seq<(Seq<char>, Seq<char>, CustomFieldType)> {
    fs.map_values(|f: CustomField| field_view(f))
}

/// Splits `s` at each `c`.
fn split_text(s: &str, c: char) -> (r: Vec<String>)
    ensures
        r@.map_values(|x: String| x@) == split_on(s@, c),
{
    let n = s.unicode_len();
    let mut done: Vec<String> = Vec::new();
    let mut cur = String::new();
    let mut i: usize = 0;
    assert(s@.take(0) =~= Seq::<char>::empty());
    while i < n
        invariant
            n == s@.len(),
            i <= n,
            done@.map_values(|x: String| x@) == pieces(s@.take(i as int), c).0,
            cur@ == pieces(s@.take(i as int), c).1,
        decreases n - i,
    {
        let ch = s.get_char(i);
        assert(s@.take(i + 1).drop_last() =~= s@.take(i as int));
        assert(s@.take(i + 1).last() == ch);
        if ch == c {
            let ghost before = done@;
            let piece = cur;
            done.push(piece);
            assert(done@.map_values(|x: String| x@) =~= before.map_values(|x: String| x@).push(piece@));
            cur = String::new();
        } else {
            string_push(&mut cur, ch);
        }
        i = i + 1;
    }
    assert(s@.take(n as int) =~= s@);
    let ghost before = done@;
    let last = cur;
    done.push(last);
    assert(done@.map_values(|x: String| x@) =~= before.map_values(|x: String| x@).push(last@));
    done
}

/// Parses `type:key=value` entries separated by `;`; blank entries are
/// skipped and the first bad entry is reported.
#[verifier::rlimit(80)]
pub fn parse_custom_fields(input: &str) -> (r: core::result::Result<Vec<CustomField>, String>)
    ensures
        match entries_fields(field_entries(input@)) {
            Ok(fs) => r matches Ok(v) && fields_view(v@) == fs,
            Err(m) => r matches Err(e) && e@ == m,
        },
{
    let trimmed = trim_str(input);
    let parts = split_text(trimmed.as_str(), ';');
    let ghost views = parts@.map_values(|x: String| x@);
    let ghost tp = |p: Seq<char>| trim(p);
    let ghost ne = |p: Seq<char>| p.len() > 0;
    let mut out: Vec<CustomField> = Vec::new();
    let mut i: usize = 0;
    assert(views.take(0).map_values(tp).filter(ne) =~= Seq::<Seq<char>>::empty()) by {
        reveal(Seq::filter);
    }
    assert(fields_view(out@) =~= Seq::<(Seq<char>, Seq<char>, CustomFieldType)>::empty());
    while i < parts.len()
        invariant
            views == parts@.map_values(|x: String| x@),
            views == split_on(trim(input@), ';'),
            tp == (|p: Seq<char>| trim(p)),
            ne == (|p: Seq<char>| p.len() > 0),
            i <= parts@.len(),
            entries_fields(views.take(i as int).map_values(tp).filter(ne)) == Ok::<
                Seq<(Seq<char>, Seq<char>, CustomFieldType)>,
                Seq<char>,
            >(fields_view(out@)),
        decreases parts@.len() - i,
    {
        let entry = trim_str(parts[i].as_str());
        let ghost prev = views.take(i as int).map_values(tp).filter(ne);
        proof {
            assert(views.take(i + 1).map_values(tp) =~= views.take(i as int).map_values(tp).push(entry@));
            crate::seqs::lemma_filter_take_step(views.map_values(tp), i as int, ne);
            assert(views.map_values(tp).take(i + 1) =~= views.take(i + 1).map_values(tp));
            assert(views.map_values(tp).take(i as int) =~= views.take(i as int).map_values(tp));
            assert(views.map_values(tp)[i as int] == entry@);
        }
        if entry.as_str().unicode_len() > 0 {
            assert(views.take(i + 1).map_values(tp).filter(ne) == prev.push(entry@));
            assert(prev.push(entry@).drop_last() =~= prev);
            match parse_single_custom_field(entry.as_str()) {
                Ok(f) => {
                    let ghost before = out@;
                    out.push(f);
                    assert(fields_view(out@) =~= fields_view(before).push(field_view(f)));
                },
                Err(e) => {
                    proof {
                        lemma_entries_error_persists(views.map_values(tp), ne, i as int + 1);
                        assert(views.map_values(tp).take(i + 1).filter(ne) == views.take(i + 1).map_values(tp).filter(ne));
                        assert(views.map_values(tp) =~= views.map_values(tp).take(views.len() as int));
                    }
                    return Err(e);
                },
            }
        } else {
            assert(views.take(i + 1).map_values(tp).filter(ne) == prev);
        }
        i = i + 1;
    }
    proof {
        assert(views.take(i as int) =~= views);
    }
    Ok(out)
}

/// Once the entries of a prefix hold an error, so do the entries of the
/// whole.
proof fn lemma_entries_error_persists(s: Seq<Seq<char>>, ne: spec_fn(Seq<char>) -> bool, k: int)
    requires
        0 <= k <= s.len(),
        entries_fields(s.take(k).filter(ne)) is Err,
    ensures
        entries_fields(s.filter(ne)) == entries_fields(s.take(k).filter(ne)),
    decreases s.len() - k,
{
    if k < s.len() {
        crate::seqs::lemma_filter_take_step(s, k, ne);
        let a = s.take(k).filter(ne);
        if ne(s[k]) {
            assert(a.push(s[k]).drop_last() =~= a);
        }
        lemma_entries_error_persists(s, ne, k + 1);
    } else {
        assert(s.take(k) =~= s);
    }
}

/// The value of the first field `f` of a form, if the form has one.
pub open spec fn form_value(form: EditFormState, f: FormField) -> Option<Seq<char>> {
    match field_position(form.fields@, f) {
        Some(i) => if i < form.values@.len() { Some(form.values@[i]@) } else { None },
        None => None,
    }
}

/// The value of a field, or the empty text.
pub open spec fn value_or_empty(form: EditFormState, f: FormField) -> Seq<char> {
    match form_value(form, f) {
        Some(v) => v,
        None => Seq::empty(),
    }
}

/// The value of a field when it is not empty.
pub open spec fn optional_value(form: EditFormState, f: FormField) -> Option<Seq<char>> {
    match form_value(form, f) {
        Some(v) => if v.len() > 0 { Some(v) } else { None },
        None => None,
    }
}

/// The custom fields a form's text describes, or the error of its first bad
/// entry.
pub open spec fn form_custom_fields(form: EditFormState) -> Result<Seq<(Seq<char>, Seq<char>, CustomFieldType)>, Seq<char>> {
    entries_fields(field_entries(value_or_empty(form, FormField::CustomFields)))
}

/// Whether `c` is the content a form of its kind describes: required texts
/// as typed (empty when missing), optional ones only when not empty.
pub open spec fn content_from_form(c: ItemContent, form: EditFormState) -> bool {
    match form.kind {
        ItemKind::Generic => c matches ItemContent::Generic { value } && value@ == value_or_empty(form, FormField::Content),
        ItemKind::SecureNote => c matches ItemContent::SecureNote { content } && content@ == value_or_empty(
            form,
            FormField::Content,
        ),
        ItemKind::CryptoSeed => c matches ItemContent::CryptoSeed { seed_phrase, derivation_path, network }
            && seed_phrase@ == value_or_empty(form, FormField::SeedPhrase) && opt_view(derivation_path)
            == optional_value(form, FormField::DerivationPath) && opt_view(network) == optional_value(
            form,
            FormField::Network,
        ),
        ItemKind::Password => c matches ItemContent::Password { username, password, url, totp_secret }
            && opt_view(username) == optional_value(form, FormField::Username) && password@ == value_or_empty(
            form,
            FormField::Password,
        ) && opt_view(url) == optional_value(form, FormField::Url) && opt_view(totp_secret) == optional_value(
            form,
            FormField::TotpSecret,
        ),
        ItemKind::ApiKey => c matches ItemContent::ApiKey { key, service, expires_at } && key@ == value_or_empty(
            form,
            FormField::ApiKey,
        ) && opt_view(service) == optional_value(form, FormField::Service) && expires_at is None,
        ItemKind::Custom => c matches ItemContent::Custom { fields } && form_custom_fields(form) == Ok::<
            Seq<(Seq<char>, Seq<char>, CustomFieldType)>,
            Seq<char>,
        >(fields_view(fields@)),
        ItemKind::Totp => c matches ItemContent::Totp { issuer, account_name, secret } && opt_view(issuer)
            == optional_value(form, FormField::Issuer) && account_name@ == value_or_empty(form, FormField::AccountName)
            && secret@ == value_or_empty(form, FormField::TotpSecret),
    }
}

/// Whether the form's custom fields fail to parse (only forms of custom
/// items have them).
pub open spec fn form_error(form: EditFormState) -> Option<Seq<char>> {
    if form.kind == ItemKind::Custom {
        match form_custom_fields(form) {
            Err(m) => Some(m),
            Ok(_) => None,
        }
    } else {
        None
    }
}

/// The value of a field as an owned string, or the empty string.
fn owned_value(form: &EditFormState, f: FormField) -> (r: String)
    ensures
        r@ == value_or_empty(*form, f),
{
    match form.get_value(&f) {
        Some(v) => String::from_str(v),
        None => String::new(),
    }
}

/// The value of a field when it is not empty.
fn owned_optional(form: &EditFormState, f: FormField) -> (r: Option<String>)
    ensures
        opt_view(r) == optional_value(*form, f),
{
    match form.get_value(&f) {
        Some(v) => {
            if v.unicode_len() > 0 {
                Some(String::from_str(v))
            } else {
                None
            }
        },
        None => None,
    }
}

/// The content a form describes.
fn content_of_form(form: &EditFormState) -> (r: core::result::Result<ItemContent, String>)
    ensures
        match form_error(*form) {
            Some(m) => r matches Err(e) && e@ == m,
            None => r matches Ok(c) && content_from_form(c, *form),
        },
{
    match form.kind {
        ItemKind::Generic => Ok(ItemContent::Generic { value: owned_value(form, FormField::Content) }),
        ItemKind::SecureNote => Ok(ItemContent::SecureNote { content: owned_value(form, FormField::Content) }),
        ItemKind::CryptoSeed => Ok(
            ItemContent::CryptoSeed {
                seed_phrase: owned_value(form, FormField::SeedPhrase),
                derivation_path: owned_optional(form, FormField::DerivationPath),
                network: owned_optional(form, FormField::Network),
            },
        ),
        ItemKind::Password => Ok(
            ItemContent::Password {
                username: owned_optional(form, FormField::Username),
                password: owned_value(form, FormField::Password),
                url: owned_optional(form, FormField::Url),
                totp_secret: owned_optional(form, FormField::TotpSecret),
            },
        ),
        ItemKind::ApiKey => Ok(
            ItemContent::ApiKey {
                key: owned_value(form, FormField::ApiKey),
                service: owned_optional(form, FormField::Service),
                expires_at: None,
            },
        ),
        ItemKind::Custom => {
            let text = owned_value(form, FormField::CustomFields);
            let fields = parse_custom_fields(text.as_str())?;
            Ok(ItemContent::Custom { fields })
        },
        ItemKind::Totp => Ok(
            ItemContent::Totp {
                issuer: owned_optional(form, FormField::Issuer),
                account_name: owned_value(form, FormField::AccountName),
                secret: owned_value(form, FormField::TotpSecret),
            },
        ),
    }
}

/// A new item from a filled form: its title (or "Untitled"), its content,
/// and its notes when not empty (secure notes keep none).
pub fn create_item_from_form(form: &EditFormState) -> (r: core::result::Result<Item, String>)
    ensures
        match form_error(*form) {
            Some(m) => r matches Err(e) && e@ == m,
            None => r matches Ok(item) && {
                &&& item.title@ == (match form_value(*form, FormField::Title) {
                    Some(t) => t,
                    None => "Untitled"@,
                })
                &&& item.kind == form.kind
                &&& content_from_form(item.content, *form)
                &&& opt_view(item.notes) == (if form.kind == ItemKind::SecureNote {
                    None
                } else {
                    optional_value(*form, FormField::Notes)
                })
                &&& item.tags@.len() == 0
                &&& !item.favorite
            },
        },
{
    proof {
        reveal_strlit("Untitled");
    }
    let title = match form.get_value(&FormField::Title) {
        Some(t) => String::from_str(t),
        None => String::from_str("Untitled"),
    };
    let notes = if form.kind == ItemKind::SecureNote {
        None
    } else {
        owned_optional(form, FormField::Notes)
    };
    let content = content_of_form(form)?;
    let mut item = Item::new(title.as_str(), form.kind, content);
    item.notes = notes;
    Ok(item)
}

/// The changes a filled edit form makes: title, content and notes (notes
/// are cleared for secure notes and when empty); tags and favorite stay.
pub fn create_updates_from_form(form: &EditFormState) -> (r: core::result::Result<ItemUpdates, String>)
    ensures
        match form_error(*form) {
            Some(m) => r matches Err(e) && e@ == m,
            None => r matches Ok(u) && {
                &&& opt_view(u.title) == form_value(*form, FormField::Title)
                &&& u.content matches Some(c) && content_from_form(c, *form)
                &&& u.notes matches Some(n) && opt_view(n) == (if form.kind == ItemKind::SecureNote {
                    None
                } else {
                    optional_value(*form, FormField::Notes)
                })
                &&& u.tags is None
                &&& u.favorite is None
            },
        },
{
    let title = match form.get_value(&FormField::Title) {
        Some(t) => Some(String::from_str(t)),
        None => None,
    };
    let notes = if form.kind == ItemKind::SecureNote {
        None
    } else {
        owned_optional(form, FormField::Notes)
    };
    let content = content_of_form(form)?;
    Ok(ItemUpdates { title, content: Some(content), notes: Some(notes), tags: None, favorite: None })
}

/// The item with the given changes applied, before it is stamped.
pub open spec fn updated_item(item: Item, u: ItemUpdates) -> Item {
    Item {
        title: match u.title {
            Some(t) => t,
            None => item.title,
        },
        content: match u.content {
            Some(c) => c,
            None => item.content,
        },
        notes: match u.notes {
            Some(n) => n,
            None => item.notes,
        },
        tags: match u.tags {
            Some(t) => t,
            None => item.tags,
        },
        favorite: match u.favorite {
            Some(f) => f,
            None => item.favorite,
        },
        ..item
    }
}

/// Applies changes to an item and stamps it as modified now.
pub fn apply_item_updates(item: &mut Item, updates: ItemUpdates)
    ensures
        *final(item) == (Item { updated_at: final(item).updated_at, ..updated_item(*old(item), updates) }),
{
    if let Some(title) = updates.title {
        item.title = title;
    }
    if let Some(content) = updates.content {
        item.content = content;
    }
    if let Some(notes) = updates.notes {
        item.notes = notes;
    }
    if let Some(tags) = updates.tags {
        item.tags = tags;
    }
    if let Some(favorite) = updates.favorite {
        item.favorite = favorite;
    }
    item.touch();
}

/// The configuration after a change.
pub open spec fn config_updated(c: AppConfig, u: ConfigUpdate) -> AppConfig {
    match u {
        ConfigUpdate::SetTheme(t) => AppConfig { theme: t, ..c },
        ConfigUpdate::SetAutoLock(b) => AppConfig { auto_lock_enabled: b, ..c },
        ConfigUpdate::SetAutoLockTimeout(s) => AppConfig { auto_lock_timeout_secs: s, ..c },
        ConfigUpdate::SetClipboardTimeout(s) => AppConfig { clipboard_timeout_secs: s, ..c },
        ConfigUpdate::SetShowIcons(b) => AppConfig { show_icons: b, ..c },
    }
}

/// Applies a change to the configuration.
pub fn apply_config_update(config: &mut AppConfig, update: ConfigUpdate)
    ensures
        *final(config) == config_updated(*old(config), update),
{
    match update {
        ConfigUpdate::SetTheme(theme) => config.theme = theme,
        ConfigUpdate::SetAutoLock(enabled) => config.auto_lock_enabled = enabled,
        ConfigUpdate::SetAutoLockTimeout(secs) => config.auto_lock_timeout_secs = secs,
        ConfigUpdate::SetClipboardTimeout(secs) => config.clipboard_timeout_secs = secs,
        ConfigUpdate::SetShowIcons(show) => config.show_icons = show,
    }
}

/// Whether `after` is `before` with the item at `p` changed by `updates`
/// (and stamped), the change recorded for undo with a copy of the item as it
/// was, the redo stack emptied and the vault marked dirty.
pub open spec fn item_changed(before: VaultState, after: VaultState, p: int, updates: ItemUpdates) -> bool {
    let old_item = before.vault.items@[p];
    &&& after.vault.items@.len() == before.vault.items@.len()
    &&& after.vault.items@[p] == (Item {
        updated_at: after.vault.items@[p].updated_at,
        ..updated_item(old_item, updates)
    })
    &&& forall|j: int| 0 <= j < before.vault.items@.len() && j != p ==> after.vault.items@[j] == before.vault.items@[j]
    &&& after.undo_stack@.len() == before.undo_stack@.len() + 1
    &&& after.undo_stack@.drop_last() == before.undo_stack@
    &&& after.undo_stack@.last().item_id == old_item.id
    &&& after.undo_stack@.last().description@ == "Edit "@ + old_item.title@
    &&& after.undo_stack@.last().previous_state.item.same_as(old_item)
    &&& after.redo_stack@.len() == 0
    &&& after.is_dirty
    &&& after.selected_item_id == before.selected_item_id
}

/// Whether `after` is `before` with the last change undone: the item it
/// changed gets back the copy kept (and the item as it is goes on the redo
/// stack), or, if the item is gone, the copy is added back at the end.
pub open spec fn change_undone(before: VaultState, after: VaultState) -> bool {
    let e = before.undo_stack@.last();
    &&& before.undo_stack@.len() > 0
    &&& after.undo_stack@ == before.undo_stack@.drop_last()
    &&& after.is_dirty
    &&& after.selected_item_id == before.selected_item_id
    &&& match item_position(before.vault.items@, e.item_id) {
        Some(p) => {
            &&& after.vault.items@ == before.vault.items@.update(p, e.previous_state.item)
            &&& after.redo_stack@.len() == before.redo_stack@.len() + 1
            &&& after.redo_stack@.drop_last() == before.redo_stack@
            &&& after.redo_stack@.last().item_id == e.item_id
            &&& after.redo_stack@.last().description@ == e.description@
            &&& after.redo_stack@.last().previous_state.item.same_as(before.vault.items@[p])
        },
        None => {
            &&& after.vault.items@ == before.vault.items@.push(e.previous_state.item)
            &&& after.redo_stack@ == before.redo_stack@
        },
    }
}

/// Whether `after` is `before` with the last undone change redone: the item
/// gets back the state kept on the redo stack (and the item as it is goes on
/// the undo stack); if the item is gone nothing but the stacks change.
pub open spec fn change_redone(before: VaultState, after: VaultState) -> bool {
    let e = before.redo_stack@.last();
    &&& before.redo_stack@.len() > 0
    &&& after.redo_stack@ == before.redo_stack@.drop_last()
    &&& after.is_dirty
    &&& after.selected_item_id == before.selected_item_id
    &&& match item_position(before.vault.items@, e.item_id) {
        Some(p) => {
            &&& after.vault.items@ == before.vault.items@.update(p, e.previous_state.item)
            &&& after.undo_stack@.len() == before.undo_stack@.len() + 1
            &&& after.undo_stack@.drop_last() == before.undo_stack@
            &&& after.undo_stack@.last().item_id == e.item_id
            &&& after.undo_stack@.last().description@ == e.description@
            &&& after.undo_stack@.last().previous_state.item.same_as(before.vault.items@[p])
        },
        None => {
            &&& after.vault.items@ == before.vault.items@
            &&& after.undo_stack@ == before.undo_stack@
        },
    }
}

/// "Edit " followed by a title.
fn edit_description(title: &String) -> (r: String)
    ensures
        r@ == "Edit "@ + title@,
{
    proof {
        reveal_strlit("Edit ");
    }
    let mut d = String::from_str("Edit ");
    d.append(title.as_str());
    d
}

/// Replaces the item at `p`.
fn replace_item(vault: &mut Vault, p: usize, item: Item)
    requires
        p < old(vault).items@.len(),
    ensures
        final(vault).items@ == old(vault).items@.update(p as int, item),
        *final(vault) == (Vault { items: final(vault).items, ..*old(vault) }),
{
    vault.items.set(p, item);
}

/// Takes the item at `p` out, changes it, and puts it back.
fn change_item_at(vault: &mut Vault, p: usize, updates: ItemUpdates)
    requires
        p < old(vault).items@.len(),
    ensures
        final(vault).items@.len() == old(vault).items@.len(),
        final(vault).items@[p as int] == (Item {
            updated_at: final(vault).items@[p as int].updated_at,
            ..updated_item(old(vault).items@[p as int], updates)
        }),
        forall|j: int| 0 <= j < old(vault).items@.len() && j != p ==> final(vault).items@[j] == old(vault).items@[j],
        *final(vault) == (Vault { items: final(vault).items, ..*old(vault) }),
{
    let mut item = vault.items.remove(p);
    apply_item_updates(&mut item, updates);
    vault.items.insert(p, item);
}

impl VaultState {
    /// Changes the item `id` and records the change for undo; tells whether
    /// the item was found (nothing changes otherwise).
    pub fn change_item(&mut self, id: u128, updates: ItemUpdates) -> (r: bool)
        ensures
            match item_position(old(self).vault.items@, id) {
                Some(p) => r && item_changed(*old(self), *final(self), p, updates),
                None => !r && *final(self) == *old(self),
            },
    {
        match self.vault.item_index(id) {
            Some(p) => {
                let snapshot = ItemSnapshot::from_item(&self.vault.items[p]);
                let description = edit_description(&self.vault.items[p].title);
                let entry = UndoEntry { description, item_id: id, previous_state: snapshot };
                change_item_at(&mut self.vault, p, updates);
                self.push_undo(entry);
                self.mark_dirty();
                assert(self.undo_stack@.drop_last() =~= old(self).undo_stack@);
                true
            },
            None => false,
        }
    }

    /// Undoes the last change, if there is one; tells whether there was.
    pub fn undo(&mut self) -> (r: bool)
        ensures
            r == (old(self).undo_stack@.len() > 0),
            r ==> change_undone(*old(self), *final(self)),
            !r ==> *final(self) == *old(self),
    {
        if self.undo_stack.len() == 0 {
            return false;
        }
        match self.undo_stack.pop() {
            Some(entry) => {
                match self.vault.item_index(entry.item_id) {
                    Some(p) => {
                        let current = ItemSnapshot::from_item(&self.vault.items[p]);
                        let redo_entry = UndoEntry {
                            description: entry.description.clone(),
                            item_id: entry.item_id,
                            previous_state: current,
                        };
                        let ghost before_redo = self.redo_stack@;
                        self.redo_stack.push(redo_entry);
                        assert(self.redo_stack@.drop_last() =~= before_redo);
                        replace_item(&mut self.vault, p, entry.previous_state.item);
                    },
                    None => {
                        self.vault.items.push(entry.previous_state.item);
                    },
                }
                self.mark_dirty();
                true
            },
            None => false,
        }
    }

    /// Redoes the last undone change, if there is one; tells whether there
    /// was.
    pub fn redo(&mut self) -> (r: bool)
        ensures
            r == (old(self).redo_stack@.len() > 0),
            r ==> change_redone(*old(self), *final(self)),
            !r ==> *final(self) == *old(self),
    {
        if self.redo_stack.len() == 0 {
            return false;
        }
        match self.redo_stack.pop() {
            Some(entry) => {
                match self.vault.item_index(entry.item_id) {
                    Some(p) => {
                        let current = ItemSnapshot::from_item(&self.vault.items[p]);
                        let undo_entry = UndoEntry {
                            description: entry.description.clone(),
                            item_id: entry.item_id,
                            previous_state: current,
                        };
                        let ghost before_undo = self.undo_stack@;
                        self.undo_stack.push(undo_entry);
                        assert(self.undo_stack@.drop_last() =~= before_undo);
                        replace_item(&mut self.vault, p, entry.previous_state.item);
                    },
                    None => {},
                }
                self.mark_dirty();
                true
            },
            None => false,
        }
    }
}

/// A copy of an item under a fresh identifier, titled "<title> (Copy)".
fn copy_of(item: &Item) -> (r: Item)
    ensures
        r.title@ == item.title@ + " (Copy)"@,
        r.kind == item.kind,
        crate::domain::item::content_same(r.content, item.content),
{
    proof {
        reveal_strlit(" (Copy)");
    }
    let mut copy = item.duplicate();
    copy.id = crate::clock::new_id();
    let mut title = item.title.clone();
    title.append(" (Copy)");
    copy.title = title;
    copy
}

impl VaultState {
    /// Deletes the item `id`, recording it for undo; if it was selected, the
    /// first item is selected instead.
    pub fn delete_item(&mut self, id: u128)
        ensures
            match item_position(old(self).vault.items@, id) {
                Some(p) => {
                    &&& final(self).vault.items@ == old(self).vault.items@.remove(p)
                    &&& final(self).undo_stack@.drop_last() == old(self).undo_stack@
                    &&& final(self).undo_stack@.last().item_id == id
                    &&& final(self).undo_stack@.last().previous_state.item.same_as(old(self).vault.items@[p])
                    &&& final(self).redo_stack@.len() == 0
                    &&& final(self).is_dirty
                    &&& final(self).selected_item_id == (if old(self).selected_item_id == Some(id) {
                        if final(self).vault.items@.len() > 0 { Some(final(self).vault.items@[0].id) } else { None }
                    } else {
                        old(self).selected_item_id
                    })
                },
                None => *final(self) == *old(self),
            },
    {
        proof {
            reveal_strlit("Delete ");
        }
        match self.vault.item_index(id) {
            Some(p) => {
                let snapshot = ItemSnapshot::from_item(&self.vault.items[p]);
                let mut description = String::from_str("Delete ");
                description.append(self.vault.items[p].title.as_str());
                let entry = UndoEntry { description, item_id: id, previous_state: snapshot };
                self.vault.remove_item(id);
                let ghost before = self.undo_stack@;
                self.push_undo(entry);
                assert(self.undo_stack@.drop_last() =~= before);
                self.mark_dirty();
                if self.selected_item_id == Some(id) {
                    self.selected_item_id = if self.vault.items.len() > 0 {
                        Some(self.vault.items[0].id)
                    } else {
                        None
                    };
                }
            },
            None => {},
        }
    }

    /// Copies the item `id` under a fresh identifier, titled "<title> (Copy)",
    /// and selects the copy.
    #[verifier::rlimit(60)]
    pub fn duplicate_item(&mut self, id: u128)
        ensures
            match item_position(old(self).vault.items@, id) {
                Some(p) => {
                    let copy = final(self).vault.items@.last();
                    &&& final(self).vault.items@.drop_last() == old(self).vault.items@
                    &&& copy.title@ == old(self).vault.items@[p].title@ + " (Copy)"@
                    &&& copy.kind == old(self).vault.items@[p].kind
                    &&& crate::domain::item::content_same(copy.content, old(self).vault.items@[p].content)
                    &&& final(self).selected_item_id == Some(copy.id)
                    &&& final(self).is_dirty
                },
                None => *final(self) == *old(self),
            },
    {
        proof {
            reveal_strlit(" (Copy)");
        }
        match self.vault.item_index(id) {
            Some(p) => {
                let copy = copy_of(&self.vault.items[p]);
                let new_id = copy.id;
                let ghost before = self.vault.items@;
                self.vault.add_item(copy);
                assert(self.vault.items@.drop_last() =~= before);
                self.selected_item_id = Some(new_id);
                self.mark_dirty();
            },
            None => {},
        }
    }
}

/// Undoing a change to an item gives the item back as it was before the
/// change (a copy of it, with the same data) at the same place, and leaves
/// the other items as they were.
#[verifier::spinoff_prover]
#[verifier::rlimit(40)]
pub proof fn lemma_undo_restores_item(
    v0: VaultState,
    v1: VaultState,
    v2: VaultState,
    id: u128,
    updates: ItemUpdates,
)
    requires
        item_position(v0.vault.items@, id) is Some,
        item_changed(v0, v1, item_position(v0.vault.items@, id)->0, updates),
        change_undone(v1, v2),
    ensures
        ({
            let p = item_position(v0.vault.items@, id)->0;
            &&& v2.vault.items@.len() == v0.vault.items@.len()
            &&& v2.vault.items@[p].same_as(v0.vault.items@[p])
            &&& forall|j: int| 0 <= j < v0.vault.items@.len() && j != p ==> v2.vault.items@[j] == v0.vault.items@[j]
            &&& v2.undo_stack@ == v0.undo_stack@
        }),
{
    let p = item_position(v0.vault.items@, id)->0;
    let items0 = v0.vault.items@;
    let items1 = v1.vault.items@;
    crate::domain::vault::lemma_position_facts(items0, id);
    assert(items1[p].id == id);
    assert forall|j: int| 0 <= j < p implies items1[j].id == items0[j].id by {
        assert(items1[j] == items0[j]);
    }
    lemma_position_kept(items0, items1, id, p);
    let e = v1.undo_stack@.last();
    assert(e.item_id == id);
    assert(v2.vault.items@ == items1.update(p, e.previous_state.item));
}

/// Redoing a change right after undoing it puts the changed item back (as it
/// was before the undo) and the undo history as it was, for an undo entry
/// whose snapshot is of the item it names.
pub proof fn lemma_redo_reapplies_undone(v1: VaultState, v2: VaultState, v3: VaultState)
    requires
        change_undone(v1, v2),
        change_redone(v2, v3),
        item_position(v1.vault.items@, v1.undo_stack@.last().item_id) is Some,
        v1.undo_stack@.last().previous_state.item.id == v1.undo_stack@.last().item_id,
    ensures
        ({
            let id = v1.undo_stack@.last().item_id;
            let p = item_position(v1.vault.items@, id)->0;
            &&& v3.vault.items@.len() == v1.vault.items@.len()
            &&& v3.vault.items@[p].same_as(v1.vault.items@[p])
            &&& forall|j: int| 0 <= j < v1.vault.items@.len() && j != p ==> v3.vault.items@[j] == v1.vault.items@[j]
            &&& v3.undo_stack@.drop_last() == v1.undo_stack@.drop_last()
            &&& v3.undo_stack@.last().item_id == id
            &&& v3.redo_stack@ == v1.redo_stack@
        }),
{
    let e = v1.undo_stack@.last();
    let id = e.item_id;
    let items1 = v1.vault.items@;
    let p = item_position(items1, id)->0;
    crate::domain::vault::lemma_position_facts(items1, id);
    let items2 = v2.vault.items@;
    assert(items2 == items1.update(p, e.previous_state.item));
    assert forall|j: int| 0 <= j < p implies items2[j].id == items1[j].id by {
        assert(items2[j] == items1[j]);
    }
    lemma_position_kept(items1, items2, id, p);
    let e2 = v2.redo_stack@.last();
    assert(e2.item_id == id);
    assert(item_position(items2, e2.item_id) == Some(p));
    assert(v3.vault.items@ == items2.update(p, e2.previous_state.item));
}

/// Locks: forgets the vault, goes back to the login screen with a fresh
/// interface (password input masked), and drops every workflow under way.
pub fn transition_to_locked_state(state: &mut AppState)
    requires
        old(state).wf(),
    ensures
        final(state).wf(),
        final(state).vault_state is None,
        !final(state).pending_lock,
        final(state).mode == AppMode::Locked,
        final(state).screen == Screen::Login,
        final(state).ui_state.floating_window is None,
        final(state).ui_state.input_buffer.masked,
        final(state).ui_state.input_buffer.text@.len() == 0,
        !final(state).ui_state.content_revealed,
        !final(state).clipboard_state.has_secure_content,
        !final(state).login_screen.entering_password,
        !final(state).login_screen.entering_keyfile_path,
        !final(state).login_screen.creating_vault,
        final(state).login_screen.password_recovery is None,
        final(state).login_screen.pending_unlock_password is None,
        final(state).login_screen.error_message is None,
        final(state).login_screen.selected_vault == old(state).login_screen.selected_vault,
        final(state).settings_state.security_action is None,
        !final(state).settings_state.editing,
        final(state).config == old(state).config,
        final(state).registry.entries == old(state).registry.entries,
        final(state).should_quit == old(state).should_quit,
{
    state.vault_state = None;
    state.pending_lock = false;
    state.mode = AppMode::Locked;
    state.screen = Screen::Login;
    state.ui_state = UIState::default();
    state.ui_state.input_buffer.masked = true;
    state.clipboard_state.clear();
    state.login_screen.entering_password = false;
    state.login_screen.entering_keyfile_path = false;
    state.login_screen.reset_create_form();
    state.login_screen.password_recovery = None;
    state.login_screen.pending_unlock_password = None;
    state.login_screen.error_message = None;
    state.settings_state.security_action = None;
    state.settings_state.cancel_edit();
}

/// Whether an item passes the filters when moving the selection: as the item
/// list filters, except that the TOTP category also takes password items
/// with a TOTP secret.
pub open spec fn passes_for_navigation(item: Item, filter: FilterState) -> bool {
    &&& (filter.kind matches Some(k) ==> (item.kind == k || (k == ItemKind::Totp && item.kind == ItemKind::Password
        && item.content matches ItemContent::Password { totp_secret: Some(_), .. })))
    &&& (filter.tags@.len() > 0 ==> exists|t: u128| filter.tags@.contains(t) && item.tags@.contains(t))
    &&& (filter.favorites_only ==> item.favorite)
}

/// The identifiers of the items the selection moves among, in order.
pub open spec fn navigable_ids(items: Seq<Item>, filter: FilterState) -> Seq<u128>
    decreases items.len(),
{
    if items.len() == 0 {
        Seq::empty()
    } else {
        let rest = navigable_ids(items.drop_last(), filter);
        if passes_for_navigation(items.last(), filter) {
            rest.push(items.last().id)
        } else {
            rest
        }
    }
}

/// Whether some of `wanted` is among `tags`.
fn any_tag(wanted: &Vec<u128>, tags: &Vec<u128>) -> (r: bool)
    ensures
        r == exists|t: u128| wanted@.contains(t) && tags@.contains(t),
{
    let mut i: usize = 0;
    while i < wanted.len()
        invariant
            i <= wanted@.len(),
            forall|j: int| 0 <= j < i ==> !tags@.contains(#[trigger] wanted@[j]),
        decreases wanted@.len() - i,
    {
        if crate::domain::vault::contains_id(tags, wanted[i]) {
            assert(wanted@.contains(wanted@[i as int]));
            return true;
        }
        i = i + 1;
    }
    proof {
        assert forall|t: u128| wanted@.contains(t) implies !tags@.contains(t) by {
            let j = choose|j: int| 0 <= j < wanted@.len() && wanted@[j] == t;
            assert(!tags@.contains(wanted@[j]));
        }
    }
    false
}

/// Whether an item passes the filters when moving the selection.
fn navigable(item: &Item, filter: &FilterState) -> (r: bool)
    ensures
        r == passes_for_navigation(*item, *filter),
{
    match filter.kind {
        Some(k) => {
            let mut matches_kind = item.kind == k;
            if !matches_kind && k == ItemKind::Totp && item.kind == ItemKind::Password {
                match &item.content {
                    ItemContent::Password { totp_secret: Some(_), .. } => {
                        matches_kind = true;
                    },
                    _ => {},
                }
            }
            if !matches_kind {
                return false;
            }
        },
        None => {},
    }
    if filter.tags.len() > 0 && !any_tag(&filter.tags, &item.tags) {
        return false;
    }
    if filter.favorites_only && !item.favorite {
        return false;
    }
    true
}

/// The identifiers of the items the selection moves among.
fn navigable_items(items: &Vec<Item>, filter: &FilterState) -> (r: Vec<u128>)
    ensures
        r@ == navigable_ids(items@, *filter),
{
    let mut r: Vec<u128> = Vec::new();
    let mut i: usize = 0;
    assert(items@.take(0) =~= Seq::<Item>::empty());
    while i < items.len()
        invariant
            i <= items@.len(),
            r@ == navigable_ids(items@.take(i as int), *filter),
        decreases items@.len() - i,
    {
        assert(items@.take(i + 1).drop_last() =~= items@.take(i as int));
        assert(items@.take(i + 1).last() == items@[i as int]);
        if navigable(&items[i], filter) {
            r.push(items[i].id);
        }
        i = i + 1;
    }
    assert(items@.take(i as int) =~= items@);
    r
}

/// The position of the first occurrence of `id` in `ids`.
pub open spec fn id_position(ids: Seq<u128>, id: u128) -> Option<int> {
    if ids.contains(id) {
        Some(choose|i: int| 0 <= i < ids.len() && ids[i] == id && forall|j: int| 0 <= j < i ==> ids[j] != id)
    } else {
        None
    }
}

/// Finds `id` in `ids`.
fn find_id(ids: &Vec<u128>, id: u128) -> (r: Option<usize>)
    ensures
        match r {
            Some(i) => id_position(ids@, id) == Some(i as int) && i < ids@.len(),
            None => id_position(ids@, id) is None,
        },
{
    let mut i: usize = 0;
    while i < ids.len()
        invariant
            i <= ids@.len(),
            forall|j: int| 0 <= j < i ==> ids@[j] != id,
        decreases ids@.len() - i,
    {
        if ids[i] == id {
            proof {
                assert(ids@.contains(id));
                let k = id_position(ids@, id)->0;
                assert(k == i) by {
                    if k > i {
                        assert(ids@[i as int] == id);
                    }
                }
            }
            return Some(i);
        }
        i = i + 1;
    }
    None
}

/// The position the selection moves to: `delta` places from the current one
/// (the first when the selected item is not shown), kept within the list.
pub open spec fn moved_position(current: int, delta: int, len: int) -> int {
    if delta > 0 {
        if current + delta < len - 1 { current + delta } else { len - 1 }
    } else {
        if current + delta > 0 { current + delta } else { 0 }
    }
}

/// Moves the selection `delta` items down (or up, when negative) among the
/// items that pass the filters.
pub fn select_adjacent_item(state: &mut AppState, delta: i32)
    requires
        delta != i32::MIN,
    ensures
        match old(state).vault_state {
            None => *final(state) == *old(state),
            Some(vs) => {
                let ids = navigable_ids(vs.vault.items@, old(state).ui_state.filter);
                let current: int = match vs.selected_item_id {
                    Some(id) => match id_position(ids, id) {
                        Some(i) => i,
                        None => 0,
                    },
                    None => 0,
                };
                if ids.len() == 0 {
                    *final(state) == *old(state)
                } else {
                    &&& final(state).vault_state matches Some(fvs) && fvs == (VaultState {
                        selected_item_id: Some(ids[moved_position(current, delta as int, ids.len() as int)]),
                        ..vs
                    })
                    &&& *final(state) == (AppState { vault_state: final(state).vault_state, ..*old(state) })
                }
            },
        },
{
    let ids = match &state.vault_state {
        Some(vs) => navigable_items(&vs.vault.items, &state.ui_state.filter),
        None => {
            return;
        },
    };
    if ids.len() == 0 {
        return;
    }
    let current: usize = match &state.vault_state {
        Some(vs) => match vs.selected_item_id {
            Some(id) => match find_id(&ids, id) {
                Some(i) => i,
                None => 0,
            },
            None => 0,
        },
        None => 0,
    };
    let last = ids.len() - 1;
    let new_idx: usize = if delta > 0 {
        let d = delta as usize;
        if current < last && d < last - current { current + d } else { last }
    } else {
        let d = (-delta) as usize;
        if current > d { current - d } else { 0 }
    };
    let id = ids[new_idx];
    match &mut state.vault_state {
        Some(vs) => {
            vs.selected_item_id = Some(id);
        },
        None => {},
    }
}

/// The items that pass the filters of the item list, in order.
pub fn get_filtered_items(state: &AppState) -> (r: Vec<&Item>)
    ensures
        match state.vault_state {
            Some(vs) => deref_items(r@) == vs.vault.items@.filter(|i: Item| passes_filter(i, state.ui_state.filter)),
            None => r@.len() == 0,
        },
{
    let mut r: Vec<&Item> = Vec::new();
    match &state.vault_state {
        Some(vs) => {
            let ghost p = |i: Item| passes_filter(i, state.ui_state.filter);
            let items = &vs.vault.items;
            let mut i: usize = 0;
            proof {
                crate::seqs::lemma_filter_empty(items@, p);
            }
            while i < items.len()
                invariant
                    p == (|i: Item| passes_filter(i, state.ui_state.filter)),
                    i <= items@.len(),
                    deref_items(r@) == items@.take(i as int).filter(p),
                decreases items@.len() - i,
            {
                proof {
                    crate::seqs::lemma_filter_take_step(items@, i as int, p);
                }
                let item = &items[i];
                if crate::ui::widgets::item_list::item_passes_filter(item, &state.ui_state.filter) {
                    r.push(item);
                    assert(deref_items(r@) =~= items@.take(i as int).filter(p).push(*item));
                }
                i = i + 1;
            }
            proof {
                crate::seqs::lemma_take_full(items@);
            }
        },
        None => {},
    }
    r
}

/// The scroll offset after scrolling `direction` with offsets up to `max`:
/// one line, ten lines, or to an end.
pub open spec fn scrolled(offset: usize, max: usize, direction: ScrollDirection) -> usize {
    match direction {
        ScrollDirection::Up => if offset > 0 { (offset - 1) as usize } else { 0 },
        ScrollDirection::Down => if offset < max { (offset + 1) as usize } else { max },
        ScrollDirection::PageUp => if offset > 10 { (offset - 10) as usize } else { 0 },
        ScrollDirection::PageDown => if offset + 10 < max { (offset + 10) as usize } else { max },
        ScrollDirection::Top => 0,
        ScrollDirection::Bottom => max,
    }
}

/// What scrolling guarantees.
pub open spec fn scroll_done(s0: AppState, s1: AppState, direction: ScrollDirection) -> bool {
    &&& (s0.ui_state.focused_pane == Pane::List ==> { let max: usize = match s0.vault_state { Some(vs) => if
        vs.vault.items@.len() > 0 { (vs.vault.items@.len() - 1) as usize } else { 0 }, None => 0, }; &&&
        s1.ui_state.list_scroll_offset == scrolled(s0.ui_state.list_scroll_offset, max, direction) &&& s1 ==
        (AppState { ui_state: UIState { list_scroll_offset: s1.ui_state.list_scroll_offset, ..s0.ui_state },
        ..s0 }) })
    &&& (s0.ui_state.focused_pane != Pane::List ==> s1 == s0)
}

/// Scrolls the item list; the other panes do not scroll here.
pub fn handle_scroll(state: &mut AppState, direction: ScrollDirection)
    ensures
        scroll_done(*old(state), *final(state), direction),
{
    if state.ui_state.focused_pane != Pane::List {
        return;
    }
    let max: usize = match &state.vault_state {
        Some(vs) => if vs.vault.items.len() > 0 { vs.vault.items.len() - 1 } else { 0 },
        None => 0,
    };
    let offset = state.ui_state.list_scroll_offset;
    state.ui_state.list_scroll_offset = match direction {
        ScrollDirection::Up => if offset > 0 { offset - 1 } else { 0 },
        ScrollDirection::Down => if offset < max { offset + 1 } else { max },
        ScrollDirection::PageUp => if offset > 10 { offset - 10 } else { 0 },
        ScrollDirection::PageDown => if offset < max && max - offset > 10 { offset + 10 } else { max },
        ScrollDirection::Top => 0,
        ScrollDirection::Bottom => max,
    };
}

/// The index, among `total` items, of the `collect_idx`-th item that is not
/// the one at `del_idx`; 0 when there is none.
pub open spec fn actual_index(collect_idx: nat, del_idx: nat, total: nat) -> nat {
    if collect_idx < del_idx {
        if collect_idx < total { collect_idx } else { 0 }
    } else {
        if collect_idx + 1 < total { collect_idx + 1 } else { 0 }
    }
}

/// Maps an index among the items left after removing the one at `del_idx`
/// back to an index among all `total` items.
pub fn collect_idx_to_actual(collect_idx: usize, del_idx: usize, total: usize) -> (r: usize)
    ensures
        r == actual_index(collect_idx as nat, del_idx as nat, total as nat),
{
    let mut actual: usize = 0;
    let mut remaining_seen: usize = 0;
    let mut i: usize = 0;
    while i < total
        invariant_except_break
            actual == 0,
            remaining_seen <= collect_idx,
        invariant
            i <= total,
            remaining_seen == (if del_idx < i { i - 1 } else { i as int }),
        ensures
            actual == actual_index(collect_idx as nat, del_idx as nat, total as nat),
        decreases total - i,
    {
        if i == del_idx {
            i = i + 1;
            continue;
        }
        if remaining_seen == collect_idx {
            actual = i;
            break;
        }
        remaining_seen = remaining_seen + 1;
        i = i + 1;
    }
    actual
}

/// The number of values offered for the setting at `setting_index`.
pub fn settings_option_count(state: &AppState, setting_index: usize) -> (r: usize)
    ensures
        r == option_count(setting_index as nat),
{
    let settings = crate::ui::screens::settings::SettingKind::all();
    if setting_index >= settings.len() {
        return 0;
    }
    match settings[setting_index] {
        crate::ui::screens::settings::SettingKind::Theme => crate::storage::config::ThemeChoice::all().len(),
        crate::ui::screens::settings::SettingKind::IconColor => crate::storage::config::IconColorChoice::all().len(),
        crate::ui::screens::settings::SettingKind::AutoLock
        | crate::ui::screens::settings::SettingKind::ShowIcons
        | crate::ui::screens::settings::SettingKind::MouseEnabled => 2,
        crate::ui::screens::settings::SettingKind::AutoLockTimeout
        | crate::ui::screens::settings::SettingKind::ClipboardTimeout => 5,
        _ => 0,
    }
}

/// Whether a typed answer means yes: `y` or `yes` in any ASCII case, around
/// white space.
pub open spec fn says_yes(s: Seq<char>) -> bool {
    ascii_lower_seq(trim(s)) == "y"@ || ascii_lower_seq(trim(s)) == "yes"@
}

/// Whether a typed answer means yes.
fn is_yes(s: &str) -> (r: bool)
    ensures
        r == says_yes(s@),
{
    proof {
        reveal_strlit("y");
        reveal_strlit("yes");
    }
    let t = trim_str(s);
    let l = to_ascii_lowercase(t.as_str());
    same_text(l.as_str(), "y") || same_text(l.as_str(), "yes")
}

/// The question and answer typed for question `n` (1 to 3) of the form.
pub open spec fn typed_question(f: CreateVaultFormState, n: int) -> (Seq<char>, Seq<char>) {
    if n == 1 {
        (trim(f.question1.text@), trim(f.answer1.text@))
    } else if n == 2 {
        (trim(f.question2.text@), trim(f.answer2.text@))
    } else {
        (trim(f.question3.text@), trim(f.answer3.text@))
    }
}

/// What is wrong with a filled create-vault form, in the order checked, and
/// whether the loading indicator is stopped for it.
pub open spec fn create_form_problem(f: CreateVaultFormState) -> Option<(Seq<char>, bool)> {
    let q = f.recovery_questions_count;
    if trim(f.name.text@).len() == 0 {
        Some(("Vault name cannot be empty"@, false))
    } else if utf8_len(f.password.text@) < 4 {
        Some(("Password must be at least 4 characters"@, false))
    } else if f.password.text@ != f.confirm_password.text@ {
        Some(("Passwords do not match"@, false))
    } else if says_yes(f.use_keyfile.text@) && trim(f.keyfile_path.text@).len() == 0 {
        Some(("Keyfile path cannot be empty if using keyfile"@, false))
    } else if q > 3 {
        Some(("Maximum 3 security questions allowed"@, true))
    } else if q > 0 && (typed_question(f, 1).0.len() == 0 || typed_question(f, 1).1.len() == 0) {
        Some(("Question 1 and its answer cannot be empty"@, true))
    } else if q > 1 && (typed_question(f, 2).0.len() == 0 || typed_question(f, 2).1.len() == 0) {
        Some(("Question 2 and its answer cannot be empty"@, true))
    } else if q > 2 && (typed_question(f, 3).0.len() == 0 || typed_question(f, 3).1.len() == 0) {
        Some(("Question 3 and its answer cannot be empty"@, true))
    } else {
        None
    }
}

/// A security question draft from the typed text.
fn draft(q: &InputBuffer, a: &InputBuffer) -> (r: SecurityQuestionDraft)
    ensures
        r.question@ == trim(q.text@),
        r.answer@ == trim(a.text@),
{
    SecurityQuestionDraft { question: trim_str(q.text.as_str()), answer: trim_str(a.text.as_str()) }
}

/// Submits the create-vault form: checks it and asks for the vault to be
/// created, or shows what is wrong.
pub fn handle_create_vault_submit(state: &mut AppState) -> (r: Effect)
    requires
        old(state).wf(),
    ensures
        final(state).wf(),
        final(state).login_screen.create_vault_form == old(state).login_screen.create_vault_form,
        final(state).vault_state == old(state).vault_state,
        final(state).screen == old(state).screen,
        ({
            let f = old(state).login_screen.create_vault_form;
            match create_form_problem(f) {
                Some((m, stop)) => {
                    &&& r is Nothing
                    &&& final(state).login_screen.error_message matches Some(e) && e@ == m
                    &&& (trim(f.name.text@).len() > 0 ==> (final(state).ui_state.loading_message is Some <==> !stop))
                },
                None => {
                    &&& final(state).login_screen.error_message is None
                    &&& final(state).ui_state.loading_message is Some
                    &&& r matches Effect::CreateVault { vault_name, password, use_keyfile, keyfile_path, encryption_method, draft_qs }
                        && vault_name@ == trim(f.name.text@) && password@ == f.password.text@
                        && use_keyfile == says_yes(f.use_keyfile.text@) && keyfile_path@ == trim(f.keyfile_path.text@)
                        && encryption_method == f.encryption_method
                        && draft_qs@.len() == f.recovery_questions_count
                        && forall|k: int| 0 <= k < draft_qs@.len() ==> (#[trigger] draft_qs@[k]).question@ == typed_question(f, k + 1).0
                            && draft_qs@[k].answer@ == typed_question(f, k + 1).1
                },
            }
        }),
{
    proof {
        reveal_strlit("Vault name cannot be empty");
        reveal_strlit("Password must be at least 4 characters");
        reveal_strlit("Passwords do not match");
        reveal_strlit("Keyfile path cannot be empty if using keyfile");
        reveal_strlit("Maximum 3 security questions allowed");
        reveal_strlit("Question 1 and its answer cannot be empty");
        reveal_strlit("Question 2 and its answer cannot be empty");
        reveal_strlit("Question 3 and its answer cannot be empty");
    }
    let vault_name = trim_str(state.login_screen.create_vault_form.name.text.as_str());
    if vault_name.as_str().unicode_len() == 0 {
        state.login_screen.error_message = Some(String::from_str("Vault name cannot be empty"));
        return Effect::none();
    }
    state.ui_state.start_loading("Creating vault...");
    let password = state.login_screen.create_vault_form.password.text.clone();
    if byte_len(password.as_str()) < 4 {
        state.login_screen.error_message = Some(String::from_str("Password must be at least 4 characters"));
        return Effect::none();
    }
    if password != state.login_screen.create_vault_form.confirm_password.text {
        state.login_screen.error_message = Some(String::from_str("Passwords do not match"));
        return Effect::none();
    }
    let use_keyfile = is_yes(state.login_screen.create_vault_form.use_keyfile.text.as_str());
    let keyfile_path = trim_str(state.login_screen.create_vault_form.keyfile_path.text.as_str());
    if use_keyfile && keyfile_path.as_str().unicode_len() == 0 {
        state.login_screen.error_message = Some(String::from_str("Keyfile path cannot be empty if using keyfile"));
        return Effect::none();
    }
    let q_count = state.login_screen.create_vault_form.recovery_questions_count;
    if q_count > 3 {
        state.login_screen.error_message = Some(String::from_str("Maximum 3 security questions allowed"));
        state.ui_state.stop_loading();
        return Effect::none();
    }
    let mut draft_qs: Vec<SecurityQuestionDraft> = Vec::new();
    if q_count > 0 {
        let d = draft(&state.login_screen.create_vault_form.question1, &state.login_screen.create_vault_form.answer1);
        if d.question.as_str().unicode_len() == 0 || d.answer.as_str().unicode_len() == 0 {
            state.login_screen.error_message = Some(String::from_str("Question 1 and its answer cannot be empty"));
            state.ui_state.stop_loading();
            return Effect::none();
        }
        draft_qs.push(d);
    }
    if q_count > 1 {
        let d = draft(&state.login_screen.create_vault_form.question2, &state.login_screen.create_vault_form.answer2);
        if d.question.as_str().unicode_len() == 0 || d.answer.as_str().unicode_len() == 0 {
            state.login_screen.error_message = Some(String::from_str("Question 2 and its answer cannot be empty"));
            state.ui_state.stop_loading();
            return Effect::none();
        }
        draft_qs.push(d);
    }
    if q_count > 2 {
        let d = draft(&state.login_screen.create_vault_form.question3, &state.login_screen.create_vault_form.answer3);
        if d.question.as_str().unicode_len() == 0 || d.answer.as_str().unicode_len() == 0 {
            state.login_screen.error_message = Some(String::from_str("Question 3 and its answer cannot be empty"));
            state.ui_state.stop_loading();
            return Effect::none();
        }
        draft_qs.push(d);
    }
    state.login_screen.error_message = None;
    Effect::CreateVault {
        vault_name,
        password: SecureString::new(password),
        use_keyfile,
        keyfile_path,
        encryption_method: state.login_screen.create_vault_form.encryption_method,
        draft_qs,
    }
}

/// The feedback for a wrong answer: locked out, or the attempts left.
pub open spec fn wrong_answer_message(failed: u32, max: u32) -> Seq<char> {
    if failed >= max {
        "Incorrect answer. Recovery locked after maximum failed attempts."@
    } else {
        "Incorrect answer. "@ + decimal((max - failed) as nat) + " attempts remaining."@
    }
}

/// What submitting a recovery answer guarantees.
pub open spec fn password_recovery_submit_done(s0: AppState, s1: AppState, r: Effect) -> bool {
    &&& (r is Nothing)
    &&& (s1.vault_state == s0.vault_state)
    &&& (s1.screen == s0.screen)
    &&& (trim(s0.ui_state.input_buffer.text@).len() == 0 ==> (s1.login_screen.error_message matches Some(m) &&
        m@ == "Answer cannot be empty"@ && s1.login_screen.password_recovery ==
        s0.login_screen.password_recovery))
    &&& (trim(s0.ui_state.input_buffer.text@).len() > 0 ==> match s0.login_screen.password_recovery { None =>
        s1.login_screen.error_message == s0.login_screen.error_message, Some(rs0) => if rs0.failed_attempts >=
        rs0.metadata.max_attempts { &&& s1.login_screen.error_message matches Some(m) &&& m@ ==
        "Recovery is locked due to too many failed attempts"@ &&& s1.login_screen.password_recovery == Some(rs0)
        } else { &&& s1.ui_state.input_buffer.text@.len() == 0 &&& s1.ui_state.input_buffer.masked &&&
        s1.login_screen.password_recovery matches Some(rs1) && rs1.metadata == rs0.metadata && ({ let msg =
        s1.login_screen.error_message; &&& msg is Some &&& (rs1.failed_attempts == rs0.failed_attempts + 1 ==>
        (msg matches Some(m) && m@ == wrong_answer_message(rs1.failed_attempts, rs1.metadata.max_attempts))) &&&
        (rs1.current_question == rs0.current_question + 1 && rs1.current_question >=
        rs1.metadata.questions@.len() ==> (msg matches Some(m) && m@ ==
        "Recovery complete. Master password revealed below."@)) }) }, })
}

/// Submits an answer of the forgot-password flow.
///
/// A blank answer is refused; without a session nothing happens; a session
/// locked out refuses more answers. Otherwise the answer goes to the session,
/// the input is emptied (and stays masked) and the outcome is shown: the
/// password once recovered, how many attempts are left after a wrong answer.
pub fn handle_password_recovery_submit(state: &mut AppState) -> (r: Effect)
    requires
        old(state).wf(),
    ensures
        final(state).wf(),
        password_recovery_submit_done(*old(state), *final(state), r),
{
    proof {
        reveal_strlit("Answer cannot be empty");
        reveal_strlit("Recovery is locked due to too many failed attempts");
        reveal_strlit("Recovery complete. Master password revealed below.");
        reveal_strlit("Correct answer. More characters are now revealed.");
        reveal_strlit("Incorrect answer. Recovery locked after maximum failed attempts.");
        reveal_strlit("Incorrect answer. ");
        reveal_strlit(" attempts remaining.");
        reveal_strlit("Recovery state is inconsistent for this vault");
        reveal_strlit("Recovery progress updated");
        reveal_strlit("Recovery failed: ");
    }
    let answer_text = state.ui_state.input_buffer.text.clone();
    if crate::text::is_blank(answer_text.as_str()) {
        state.login_screen.error_message = Some(String::from_str("Answer cannot be empty"));
        return Effect::none();
    }
    let outcome = match &mut state.login_screen.password_recovery {
        None => {
            return Effect::none();
        },
        Some(session) => {
            if session.is_locked_out() {
                state.login_screen.error_message = Some(
                    String::from_str("Recovery is locked due to too many failed attempts"),
                );
                return Effect::none();
            }
            match session.submit_answer(SecureString::new(answer_text)) {
                Ok(is_correct) => Ok((
                    is_correct,
                    session.is_complete(),
                    session.is_locked_out(),
                    session.remaining_attempts(),
                    session.latest_hint.is_some(),
                    session.recovered_password.clone(),
                )),
                Err(e) => Err(e.describe()),
            }
        },
    };
    state.ui_state.input_buffer.clear();
    state.ui_state.input_buffer.masked = true;
    let message = match outcome {
        Ok((true, true, _, _, _, Some(password))) => {
            state.ui_state.notify("Recovery complete: password fully revealed", NotificationLevel::Success);
            let mut shown = String::from_str("Recovered password: ");
            shown.append(password.as_str());
            state.ui_state.notify(shown.as_str(), NotificationLevel::Info);
            String::from_str("Recovery complete. Master password revealed below.")
        },
        Ok((true, false, _, _, true, _)) => String::from_str("Correct answer. More characters are now revealed."),
        Ok((false, _, true, _, _, _)) => String::from_str(
            "Incorrect answer. Recovery locked after maximum failed attempts.",
        ),
        Ok((false, _, false, remaining, _, _)) => {
            let mut m = String::from_str("Incorrect answer. ");
            let d = decimal_string(remaining as u64);
            m.append(d.as_str());
            m.append(" attempts remaining.");
            m
        },
        Ok((_, _, _, _, _, None)) => String::from_str("Recovery state is inconsistent for this vault"),
        Ok(_) => String::from_str("Recovery progress updated"),
        Err(e) => {
            let mut m = String::from_str("Recovery failed: ");
            m.append(e.as_str());
            m
        },
    };
    state.login_screen.error_message = Some(message);
    Effect::none()
}

/// Asks for the vault to be written with the key already derived.
pub(crate) fn write_effect(vs: &VaultState) -> (r: Effect)
    ensures
        r matches Effect::WriteVaultFile { path, key, salt, has_keyfile, encryption_method, .. } && path
            == vs.vault_path && key == vs.encryption_key && salt == vs.salt && has_keyfile == vs.has_keyfile
            && encryption_method == vs.encryption_method,
{
    Effect::WriteVaultFile {
        path: vs.vault_path.clone(),
        vault: vs.vault.clone(),
        key: vs.encryption_key,
        salt: vs.salt,
        has_keyfile: vs.has_keyfile,
        encryption_method: vs.encryption_method,
        recovery_metadata: vs.recovery_metadata.clone(),
    }
}

/// Shows a screen; leaving the settings cancels what was under way there.
pub fn handle_navigate(state: &mut AppState, screen: Screen)
    requires
        old(state).wf(),
    ensures
        final(state).wf(),
        final(state).screen == screen,
        old(state).screen == Screen::Settings && screen != Screen::Settings ==> {
            &&& !final(state).settings_state.editing
            &&& final(state).settings_state.security_action is None
            &&& final(state).ui_state.input_buffer.text@.len() == 0
            &&& !final(state).ui_state.input_buffer.masked
        },
        final(state).vault_state == old(state).vault_state,
{
    if state.screen == Screen::Settings && screen != Screen::Settings {
        state.settings_state.cancel_edit();
        state.settings_state.security_action = None;
        state.ui_state.input_buffer.clear();
        state.ui_state.input_buffer.masked = false;
    }
    state.screen = screen;
}

/// Asks for the selected vault to be unlocked.
pub fn handle_unlock_vault(state: &mut AppState, password: SecureString, keyfile: Option<String>) -> (r: Effect)
    requires
        old(state).wf(),
    ensures
        final(state).wf(),
        old(state).login_screen.selected_vault >= old(state).registry.entries@.len() ==> (r is Nothing
            && (final(state).login_screen.error_message matches Some(m) && m@ == "No vault selected"@)),
        old(state).login_screen.selected_vault < old(state).registry.entries@.len() ==> (r matches Effect::ReadVaultFile {
            path,
            password: p,
            keyfile_path,
        } && path == old(state).registry.entries@[old(state).login_screen.selected_vault as int].path && p == password
            && keyfile_path == keyfile && final(state).ui_state.loading_message is Some),
        final(state).vault_state == old(state).vault_state,
{
    proof {
        reveal_strlit("No vault selected");
    }
    let selected = state.login_screen.selected_vault;
    if selected >= state.registry.entries.len() {
        state.login_screen.error_message = Some(String::from_str("No vault selected"));
        return Effect::none();
    }
    let path = state.registry.entries[selected].path.clone();
    state.ui_state.start_loading("Unlocking vault...");
    Effect::ReadVaultFile { path, password, keyfile_path: keyfile }
}

/// Locks the vault: at once when it has no unsaved changes, else after
/// saving it (the lock waits for the save to succeed).
pub fn handle_lock_vault(state: &mut AppState) -> (r: Effect)
    requires
        old(state).wf(),
    ensures
        final(state).wf(),
        match old(state).vault_state {
            None => r is Nothing && !final(state).pending_lock && final(state).vault_state is None,
            Some(vs) => if vs.is_dirty {
                &&& final(state).pending_lock
                &&& final(state).vault_state == old(state).vault_state
                &&& crate::app::security::saves(r, vs)
                &&& final(state).mode == old(state).mode
                &&& final(state).screen == old(state).screen
            } else {
                &&& r is Nothing
                &&& final(state).vault_state is None
                &&& final(state).mode == AppMode::Locked
                &&& final(state).screen == Screen::Login
            },
        },
{
    let dirty = match &state.vault_state {
        None => {
            state.pending_lock = false;
            return Effect::none();
        },
        Some(vs) => vs.is_dirty,
    };
    if dirty {
        state.pending_lock = true;
        match &state.vault_state {
            Some(vs) => write_effect(vs),
            None => Effect::none(),
        }
    } else {
        transition_to_locked_state(state);
        Effect::none()
    }
}

/// Asks for the vault to be saved.
pub fn handle_save_vault(state: &AppState) -> (r: Effect)
    ensures
        state.vault_state is Some <==> r is WriteVaultFile,
        state.vault_state is None ==> r is Nothing,
{
    match &state.vault_state {
        Some(vs) => write_effect(vs),
        None => Effect::none(),
    }
}

/// What closing the vault guarantees.
pub open spec fn close_vault_done(s0: AppState, s1: AppState) -> bool {
    &&& (s0.is_dirty_spec() ==> (s1.ui_state.floating_window matches
        Some(crate::app::state::FloatingWindow::ConfirmDelete { item_id }) && item_id == 0 && s1.vault_state ==
        s0.vault_state))
    &&& (!s0.is_dirty_spec() ==> s1.vault_state is None && s1.mode == AppMode::Locked)
}

/// Closes the vault: asks for confirmation when there are unsaved changes,
/// else locks at once.
pub fn handle_close_vault(state: &mut AppState)
    requires
        old(state).wf(),
    ensures
        final(state).wf(),
        close_vault_done(*old(state), *final(state)),
{
    if state.is_dirty() {
        state.ui_state.floating_window = Some(crate::app::state::FloatingWindow::ConfirmDelete { item_id: 0 });
    } else {
        transition_to_locked_state(state);
    }
}

/// What starting to create a vault guarantees.
pub open spec fn start_create_vault_done(s0: AppState, s1: AppState) -> bool {
    &&& (s1.login_screen.creating_vault)
    &&& (crate::ui::screens::login::fresh_form(s1.login_screen.create_vault_form))
    &&& (!s1.login_screen.entering_password)
    &&& (!s1.login_screen.entering_keyfile_path)
    &&& (s1.login_screen.password_recovery is None)
    &&& (s1.login_screen.pending_unlock_password is None)
    &&& (s1.login_screen.error_message is None)
    &&& (s1.ui_state.input_buffer.text@.len() == 0)
    &&& (!s1.ui_state.input_buffer.masked)
}

/// Opens a blank create-vault form.
pub fn handle_start_create_vault(state: &mut AppState)
    requires
        old(state).wf(),
    ensures
        final(state).wf(),
        start_create_vault_done(*old(state), *final(state)),
{
    state.login_screen.reset_create_form();
    state.login_screen.creating_vault = true;
    state.login_screen.entering_password = false;
    state.login_screen.entering_keyfile_path = false;
    state.login_screen.password_recovery = None;
    state.login_screen.pending_unlock_password = None;
    state.login_screen.error_message = None;
    state.ui_state.input_buffer.clear();
    state.ui_state.input_buffer.masked = false;
}

/// What asking for the password guarantees.
pub open spec fn enter_password_mode_done(s0: AppState, s1: AppState) -> bool {
    &&& (s1.login_screen.entering_password)
    &&& (s1.ui_state.input_buffer.text@.len() == 0)
    &&& (s1.ui_state.input_buffer.masked)
}

/// Starts entering the password of the selected vault, masked.
pub fn handle_enter_password_mode(state: &mut AppState)
    requires
        old(state).wf(),
    ensures
        final(state).wf(),
        enter_password_mode_done(*old(state), *final(state)),
{
    state.login_screen.enter_password_mode();
    state.ui_state.input_buffer.clear();
    state.ui_state.input_buffer.masked = true;
}

/// Starts the forgot-password flow for the selected vault, while its
/// password is being entered: the recovery setup is read from its header.
pub fn handle_start_password_recovery(state: &mut AppState) -> (r: Effect)
    requires
        old(state).wf(),
    ensures
        final(state).wf(),
        !old(state).login_screen.entering_password ==> r is Nothing,
        old(state).login_screen.entering_password && old(state).login_screen.selected_vault
            >= old(state).registry.entries@.len() ==> (r is Nothing && (final(state).login_screen.error_message matches Some(m)
            && m@ == "No vault selected"@)),
        old(state).login_screen.entering_password && old(state).login_screen.selected_vault
            < old(state).registry.entries@.len() ==> (r matches Effect::LoadRecoveryMetadata { vault_name, path }
            && vault_name == old(state).registry.entries@[old(state).login_screen.selected_vault as int].name
            && path == old(state).registry.entries@[old(state).login_screen.selected_vault as int].path),
{
    proof {
        reveal_strlit("No vault selected");
    }
    if !state.login_screen.entering_password {
        return Effect::none();
    }
    let selected = state.login_screen.selected_vault;
    if selected >= state.registry.entries.len() {
        state.login_screen.error_message = Some(String::from_str("No vault selected"));
        return Effect::none();
    }
    Effect::LoadRecoveryMetadata {
        vault_name: state.registry.entries[selected].name.clone(),
        path: state.registry.entries[selected].path.clone(),
    }
}

/// Continues the forgot-password flow with what the vault header held: the
/// header could not be read, holds no recovery setup, holds an incomplete
/// one, or the flow starts on the recovery screen with a masked input.
pub fn begin_password_recovery(
    state: &mut AppState,
    vault_name: String,
    path: String,
    header: core::result::Result<Option<crate::domain::security_question::RecoveryMetadata>, String>,
)
    requires
        old(state).wf(),
    ensures
        final(state).wf(),
        match header {
            Err(e) => final(state).login_screen.error_message matches Some(m) && m@ == "Failed to read vault header: "@ + e@,
            Ok(None) => final(state).login_screen.error_message matches Some(m) && m@ == "Recovery is not configured for this vault"@,
            Ok(Some(md)) => if md.questions@.len() > 0 && md.stages@.len() > 0 {
                &&& final(state).screen == Screen::PasswordRecovery
                &&& final(state).login_screen.error_message is None
                &&& final(state).login_screen.password_recovery matches Some(s) && s.metadata == md && s.current_question == 0
                    && s.failed_attempts == 0 && s.vault_name == vault_name && s.vault_path == path
                &&& final(state).ui_state.input_buffer.text@.len() == 0
                &&& final(state).ui_state.input_buffer.masked
            } else {
                final(state).login_screen.error_message matches Some(m) && m@ == "Recovery metadata is incomplete for this vault"@
            },
        },
{
    proof {
        reveal_strlit("Failed to read vault header: ");
        reveal_strlit("Recovery is not configured for this vault");
        reveal_strlit("Recovery metadata is incomplete for this vault");
    }
    match header {
        Err(e) => {
            let mut m = String::from_str("Failed to read vault header: ");
            m.append(e.as_str());
            state.login_screen.error_message = Some(m);
        },
        Ok(None) => {
            state.login_screen.error_message = Some(String::from_str("Recovery is not configured for this vault"));
        },
        Ok(Some(md)) => {
            if !md.is_configured() {
                state.login_screen.error_message = Some(
                    String::from_str("Recovery metadata is incomplete for this vault"),
                );
                return;
            }
            state.login_screen.password_recovery = Some(
                crate::ui::screens::login::PasswordRecoverySession::new(vault_name, path, md),
            );
            state.login_screen.error_message = None;
            state.screen = Screen::PasswordRecovery;
            state.ui_state.input_buffer.clear();
            state.ui_state.input_buffer.masked = true;
        },
    }
}

/// What going back a login step guarantees.
pub open spec fn login_prev_step_done(s0: AppState, s1: AppState) -> bool {
    &&& (s0.screen == Screen::Login && s0.login_screen.creating_vault ==> ({ let f =
        s0.login_screen.create_vault_form; let g = s1.login_screen.create_vault_form; if f.step ==
        CreateVaultStep::Step2 { g.step == CreateVaultStep::Step1 && g.focused_field == CreateVaultField::Name }
        else if f.step == CreateVaultStep::Step3 { g.step == CreateVaultStep::Step2 && g.focused_field ==
        CreateVaultField::Password } else { g == f } }))
}

/// Goes back a step in the create-vault form, to its first field.
pub fn handle_login_prev_step(state: &mut AppState)
    requires
        old(state).wf(),
    ensures
        final(state).wf(),
        login_prev_step_done(*old(state), *final(state)),
{
    if state.screen == Screen::Login && state.login_screen.creating_vault {
        if state.login_screen.create_vault_form.step == CreateVaultStep::Step2 {
            state.login_screen.create_vault_form.step = CreateVaultStep::Step1;
            state.login_screen.create_vault_form.focused_field = CreateVaultField::Name;
            state.login_screen.error_message = None;
        } else if state.login_screen.create_vault_form.step == CreateVaultStep::Step3 {
            state.login_screen.create_vault_form.step = CreateVaultStep::Step2;
            state.login_screen.create_vault_form.focused_field = CreateVaultField::Password;
            state.login_screen.error_message = None;
        }
    }
}

/// What cancelling on the login screen guarantees.
pub open spec fn cancel_input_done(s0: AppState, s1: AppState) -> bool {
    &&& (s1.ui_state.input_buffer.text@.len() == 0)
    &&& (s1.login_screen.error_message is None)
    &&& (s0.screen == Screen::PasswordRecovery ==> { &&& s1.screen == Screen::Login &&&
        s1.login_screen.password_recovery is None &&& s1.login_screen.entering_password &&&
        s1.ui_state.input_buffer.masked })
    &&& (s0.screen != Screen::PasswordRecovery && !(s0.screen == Screen::Settings &&
        s0.settings_state.security_action is Some) && s0.login_screen.entering_keyfile_path ==> { &&&
        s1.login_screen.entering_password &&& !s1.login_screen.entering_keyfile_path &&&
        s1.login_screen.pending_unlock_password is None &&& s1.ui_state.input_buffer.masked })
}

/// Cancels the input under way: the forgot-password flow goes back to the
/// password, a security workflow of the settings is dropped, entering a key
/// file path goes back to the password; otherwise every login input stops.
pub fn handle_cancel_input(state: &mut AppState)
    requires
        old(state).wf(),
    ensures
        final(state).wf(),
        cancel_input_done(*old(state), *final(state)),
{
    if state.screen == Screen::PasswordRecovery {
        state.screen = Screen::Login;
        state.login_screen.password_recovery = None;
        state.login_screen.entering_password = true;
        state.login_screen.entering_keyfile_path = false;
        state.login_screen.error_message = None;
        state.ui_state.input_buffer.clear();
        state.ui_state.input_buffer.masked = true;
        return;
    }
    if state.screen == Screen::Settings && state.settings_state.security_action.is_some() {
        state.settings_state.security_action = None;
        state.login_screen.error_message = None;
        state.ui_state.input_buffer.clear();
        state.ui_state.input_buffer.masked = false;
        return;
    }
    if state.login_screen.entering_keyfile_path {
        state.login_screen.entering_keyfile_path = false;
        state.login_screen.entering_password = true;
        state.login_screen.pending_unlock_password = None;
        state.login_screen.error_message = None;
        state.ui_state.input_buffer.clear();
        state.ui_state.input_buffer.masked = true;
        return;
    }
    state.login_screen.entering_password = false;
    state.login_screen.entering_keyfile_path = false;
    state.login_screen.reset_create_form();
    state.login_screen.pending_unlock_password = None;
    state.login_screen.password_recovery = None;
    state.login_screen.error_message = None;
    state.ui_state.input_buffer.clear();
    state.ui_state.input_buffer.masked = false;
    state.ui_state.floating_window = None;
}

/// What asking to remove the selected vault guarantees.
pub open spec fn delete_selected_vault_done(s0: AppState, s1: AppState) -> bool {
    &&& (s0.login_screen.selected_vault < s0.registry.entries@.len() ==> (s1.ui_state.floating_window matches
        Some(FloatingWindow::ConfirmDeleteVault { vault_name, index }) && index ==
        s0.login_screen.selected_vault && vault_name == s0.registry.entries@[index as int].name))
    &&& (s0.login_screen.selected_vault >= s0.registry.entries@.len() ==> s1.ui_state.floating_window ==
        s0.ui_state.floating_window)
    &&& (s1.registry.entries == s0.registry.entries)
}

/// Asks to confirm removing the selected vault from the list.
pub fn handle_delete_selected_vault(state: &mut AppState)
    requires
        old(state).wf(),
    ensures
        final(state).wf(),
        delete_selected_vault_done(*old(state), *final(state)),
{
    let selected = state.login_screen.selected_vault;
    if selected < state.registry.entries.len() {
        let vault_name = state.registry.entries[selected].name.clone();
        state.ui_state.floating_window = Some(FloatingWindow::ConfirmDeleteVault { vault_name, index: selected });
    }
}

/// What removing a vault from the list guarantees.
pub open spec fn confirm_delete_vault_done(s0: AppState, s1: AppState, index: usize, r: Effect) -> bool {
    &&& (s1.ui_state.floating_window is None)
    &&& (index >= s0.registry.entries@.len() ==> r is Nothing && s1.registry.entries == s0.registry.entries)
    &&& (index < s0.registry.entries@.len() ==> { &&& r is UpdateRegistry &&& s1.registry.entries@ ==
        s0.registry.entries@.remove(index as int) &&& s1.registry.entries@.len() > 0 ==>
        s1.login_screen.selected_vault < s1.registry.entries@.len() })
}

/// Removes the vault at `index` from the list (the file stays), keeps the
/// selection within the list and asks for the list to be written.
pub fn handle_confirm_delete_vault(state: &mut AppState, index: usize) -> (r: Effect)
    requires
        old(state).wf(),
    ensures
        final(state).wf(),
        confirm_delete_vault_done(*old(state), *final(state), index, r),
{
    state.ui_state.close_floating_window();
    if index >= state.registry.entries.len() {
        return Effect::none();
    }
    let removed = state.registry.entries.remove(index);
    let mut note = String::from_str("Deleted vault: ");
    note.append(removed.name.as_str());
    state.ui_state.notify(note.as_str(), NotificationLevel::Info);
    let n = state.registry.entries.len();
    if state.login_screen.selected_vault >= n && n > 0 {
        state.login_screen.selected_vault = n - 1;
    }
    Effect::UpdateRegistry
}

/// What selecting the next vault guarantees.
pub open spec fn login_select_next_done(s0: AppState, s1: AppState) -> bool {
    &&& (s1.login_screen.selected_vault ==
        crate::ui::screens::login::selection_after(s0.login_screen.selected_vault as nat,
        s0.registry.entries@.len()))
}

/// Selects the next vault of the list, wrapping.
pub fn handle_login_select_next(state: &mut AppState)
    requires
        old(state).wf(),
        old(state).login_screen.selected_vault < usize::MAX,
    ensures
        final(state).wf(),
        login_select_next_done(*old(state), *final(state)),
{
    let n = state.registry.entries.len();
    state.login_screen.select_next(n);
}

/// Selects the item `id`, if the vault has it.
pub fn handle_select_item(state: &mut AppState, id: u128)
    requires
        old(state).wf(),
    ensures
        final(state).wf(),
        match old(state).vault_state {
            Some(vs) => if item_position(vs.vault.items@, id) is Some {
                &&& final(state).vault_state matches Some(f) && f == (VaultState { selected_item_id: Some(id), ..vs })
                &&& final(state).ui_state.detail_scroll_offset == 0
            } else {
                *final(state) == *old(state)
            },
            None => *final(state) == *old(state),
        },
{
    let found = match &state.vault_state {
        Some(vs) => vs.vault.item_index(id).is_some(),
        None => false,
    };
    if found {
        match &mut state.vault_state {
            Some(vs) => {
                vs.selected_item_id = Some(id);
            },
            None => {},
        }
        state.ui_state.detail_scroll_offset = 0;
    }
}

/// Whether the list of recovery questions is showing.
fn in_question_list(state: &AppState) -> (r: bool)
    ensures
        r == (state.settings_state.security_action matches Some(SecurityActionState::ManageRecovery(a))
            && a.step == crate::ui::screens::settings::ManageRecoveryStep::QuestionList),
{
    match &state.settings_state.security_action {
        Some(SecurityActionState::ManageRecovery(a)) => a.step == crate::ui::screens::settings::ManageRecoveryStep::QuestionList,
        _ => false,
    }
}

/// What selecting the next item guarantees.
pub open spec fn select_next_item_done(s0: AppState, s1: AppState) -> bool {
    &&& (s0.screen != Screen::Settings ==> s1.ui_state == s0.ui_state)
}

/// Moves down: in the settings, the selection (or the value chosen), or the
/// question in the list of recovery questions; else the item selection.
pub fn handle_select_next_item(state: &mut AppState)
    requires
        old(state).wf(),
    ensures
        final(state).wf(),
        select_next_item_done(*old(state), *final(state)),
{
    if state.screen == Screen::Settings {
        if in_question_list(state) {
            crate::app::security::manage_move_selection(state, true);
            return;
        }
        let max_items = SettingKind::all().len();
        let max_sub = settings_option_count(state, state.settings_state.selected);
        state.settings_state.move_down(max_items, max_sub);
        return;
    }
    select_adjacent_item(state, 1);
}

/// What selecting the previous item guarantees.
pub open spec fn select_prev_item_done(s0: AppState, s1: AppState) -> bool {
    &&& (s0.screen != Screen::Settings ==> s1.ui_state == s0.ui_state)
}

/// Moves up: in the settings, the selection (or the value chosen); else the
/// item selection.
pub fn handle_select_prev_item(state: &mut AppState)
    requires
        old(state).wf(),
    ensures
        final(state).wf(),
        select_prev_item_done(*old(state), *final(state)),
{
    if state.screen == Screen::Settings {
        if in_question_list(state) {
            crate::app::security::manage_move_selection(state, false);
            return;
        }
        state.settings_state.move_up();
        return;
    }
    select_adjacent_item(state, -1);
}

/// Creates an item of `kind` titled "New Item", selects it and opens its
/// edit form.
pub fn handle_create_item(state: &mut AppState, kind: ItemKind)
    requires
        old(state).wf(),
    ensures
        final(state).wf(),
        match old(state).vault_state {
            Some(vs) => {
                &&& final(state).vault_state matches Some(f) && f.vault.items@.len() == vs.vault.items@.len() + 1
                    && f.vault.items@.drop_last() == vs.vault.items@ && f.vault.items@.last().title@ == "New Item"@
                    && f.vault.items@.last().kind == kind && f.selected_item_id == Some(f.vault.items@.last().id)
                    && f.is_dirty
                &&& final(state).ui_state.floating_window matches Some(FloatingWindow::EditItem { item_id, .. })
                    && final(state).vault_state matches Some(f2) && item_id == f2.vault.items@.last().id
            },
            None => *final(state) == *old(state),
        },
{
    proof {
        reveal_strlit("New Item");
    }
    if state.vault_state.is_none() {
        return;
    }
    let item = Item::new("New Item", kind, kind.default_content());
    let id = item.id;
    let window = FloatingWindow::edit_item_form(&item);
    state.ui_state.floating_window = Some(window);
    match &mut state.vault_state {
        Some(vs) => {
            let ghost before = vs.vault.items@;
            vs.vault.add_item(item);
            assert(vs.vault.items@.drop_last() =~= before);
            vs.selected_item_id = Some(id);
            vs.mark_dirty();
        },
        None => {},
    }
}

/// Changes the item `id` and records the change for undo.
pub fn handle_update_item(state: &mut AppState, id: u128, updates: ItemUpdates)
    requires
        old(state).wf(),
    ensures
        final(state).wf(),
        final(state).ui_state == old(state).ui_state,
        match old(state).vault_state {
            Some(vs) => match item_position(vs.vault.items@, id) {
                Some(p) => final(state).vault_state matches Some(f) && item_changed(vs, f, p, updates),
                None => final(state).vault_state == old(state).vault_state,
            },
            None => final(state).vault_state is None,
        },
{
    match &mut state.vault_state {
        Some(vs) => {
            vs.change_item(id, updates);
        },
        None => {},
    }
}

/// Deletes the item `id`, recording it for undo; if it was selected, the
/// first item is selected instead.
pub fn handle_confirm_delete_item(state: &mut AppState, id: u128)
    requires
        old(state).wf(),
    ensures
        final(state).wf(),
        final(state).ui_state.floating_window is None,
        match old(state).vault_state {
            Some(vs) => match item_position(vs.vault.items@, id) {
                Some(p) => final(state).vault_state matches Some(f) && {
                    &&& f.vault.items@ == vs.vault.items@.remove(p)
                    &&& f.undo_stack@.drop_last() == vs.undo_stack@
                    &&& f.undo_stack@.last().item_id == id
                    &&& f.undo_stack@.last().previous_state.item.same_as(vs.vault.items@[p])
                    &&& f.redo_stack@.len() == 0
                    &&& f.is_dirty
                    &&& f.selected_item_id == (if vs.selected_item_id == Some(id) {
                        if f.vault.items@.len() > 0 { Some(f.vault.items@[0].id) } else { None }
                    } else {
                        vs.selected_item_id
                    })
                },
                None => final(state).vault_state == old(state).vault_state,
            },
            None => final(state).vault_state is None,
        },
{
    state.ui_state.close_floating_window();
    match &mut state.vault_state {
        Some(vs) => {
            vs.delete_item(id);
        },
        None => {},
    }
}

/// Flips the favorite flag of the item `id` and stamps it.
pub fn handle_toggle_favorite(state: &mut AppState, id: u128)
    requires
        old(state).wf(),
    ensures
        final(state).wf(),
        match old(state).vault_state {
            Some(vs) => match item_position(vs.vault.items@, id) {
                Some(p) => final(state).vault_state matches Some(f) && {
                    &&& f.vault.items@.len() == vs.vault.items@.len()
                    &&& f.vault.items@[p] == (Item {
                        favorite: !vs.vault.items@[p].favorite,
                        updated_at: f.vault.items@[p].updated_at,
                        ..vs.vault.items@[p]
                    })
                    &&& forall|j: int| 0 <= j < vs.vault.items@.len() && j != p ==> f.vault.items@[j] == vs.vault.items@[j]
                    &&& f.is_dirty
                },
                None => final(state).vault_state == old(state).vault_state,
            },
            None => final(state).vault_state is None,
        },
{
    match &mut state.vault_state {
        Some(vs) => {
            match vs.vault.item_index(id) {
                Some(p) => {
                    let flag = vs.vault.items[p].favorite;
                    change_item_at(
                        &mut vs.vault,
                        p,
                        ItemUpdates { title: None, content: None, notes: None, tags: None, favorite: Some(!flag) },
                    );
                    vs.mark_dirty();
                },
                None => {},
            }
        },
        None => {},
    }
}

/// Copies the item `id` under a fresh identifier, titled "<title> (Copy)",
/// and selects the copy.
pub fn handle_duplicate_item(state: &mut AppState, id: u128)
    requires
        old(state).wf(),
    ensures
        final(state).wf(),
        match old(state).vault_state {
            Some(vs) => match item_position(vs.vault.items@, id) {
                Some(p) => final(state).vault_state matches Some(f) && {
                    let copy = f.vault.items@.last();
                    &&& f.vault.items@.drop_last() == vs.vault.items@
                    &&& copy.title@ == vs.vault.items@[p].title@ + " (Copy)"@
                    &&& copy.kind == vs.vault.items@[p].kind
                    &&& crate::domain::item::content_same(copy.content, vs.vault.items@[p].content)
                    &&& f.selected_item_id == Some(copy.id)
                    &&& f.is_dirty
                },
                None => final(state).vault_state == old(state).vault_state,
            },
            None => final(state).vault_state is None,
        },
{
    match &mut state.vault_state {
        Some(vs) => {
            vs.duplicate_item(id);
        },
        None => {},
    }
}

/// Undoes the last change and says so.
pub fn handle_undo(state: &mut AppState)
    requires
        old(state).wf(),
    ensures
        final(state).wf(),
        match old(state).vault_state {
            Some(vs) => if vs.undo_stack@.len() > 0 {
                final(state).vault_state matches Some(f) && change_undone(vs, f)
            } else {
                final(state).vault_state == old(state).vault_state
            },
            None => final(state).vault_state is None,
        },
{
    let done = match &mut state.vault_state {
        Some(vs) => vs.undo(),
        None => false,
    };
    if done {
        state.ui_state.notify("Undone", NotificationLevel::Info);
    }
}

/// Redoes the last undone change and says so.
pub fn handle_redo(state: &mut AppState)
    requires
        old(state).wf(),
    ensures
        final(state).wf(),
        match old(state).vault_state {
            Some(vs) => if vs.redo_stack@.len() > 0 {
                final(state).vault_state matches Some(f) && change_redone(vs, f)
            } else {
                final(state).vault_state == old(state).vault_state
            },
            None => final(state).vault_state is None,
        },
{
    let done = match &mut state.vault_state {
        Some(vs) => vs.redo(),
        None => false,
    };
    if done {
        state.ui_state.notify("Redone", NotificationLevel::Info);
    }
}

/// Whether the text has room for one more char of any width.
fn has_room(s: &String) -> (r: bool)
    ensures
        r == (utf8_len(s@) + 4 <= usize::MAX),
{
    crate::cursor::utf8_fits(s.as_str());
    byte_len(s.as_str()) <= usize::MAX - 4
}

/// Opens an empty search dialog with the focus on it.
pub fn handle_open_search(state: &mut AppState)
    requires
        old(state).wf(),
    ensures
        final(state).wf(),
        final(state).ui_state.floating_window matches Some(FloatingWindow::Search { state: ss }) && ss.query@.len() == 0,
        final(state).ui_state.focused_pane == Pane::Search,
{
    state.ui_state.floating_window = Some(FloatingWindow::new_search());
    state.ui_state.focused_pane = Pane::Search;
}

/// Closes the search dialog and focuses the list.
pub fn handle_close_search(state: &mut AppState)
    requires
        old(state).wf(),
    ensures
        final(state).wf(),
        final(state).ui_state.floating_window is None,
        final(state).ui_state.focused_pane == Pane::List,
{
    state.ui_state.close_floating_window();
    state.ui_state.focused_pane = Pane::List;
}

/// Replaces the search query (the cursor goes to its end) and searches again.
pub fn handle_update_search_query(state: &mut AppState, query: String)
    requires
        old(state).wf(),
    ensures
        final(state).wf(),
        old(state).ui_state.floating_window matches Some(FloatingWindow::Search { .. }) ==> (
        final(state).ui_state.floating_window matches Some(FloatingWindow::Search { state: ss }) && ss.query@ == query@),
{
    crate::cursor::utf8_fits(query.as_str());
    let end = byte_len(query.as_str());
    proof {
        crate::cursor::lemma_end_is_boundary(query@);
    }
    match &mut state.ui_state.floating_window {
        Some(FloatingWindow::Search { state: ss }) => {
            ss.query = query;
            ss.cursor = end;
            match &state.vault_state {
                Some(vs) => ss.update_results(vs.vault.items.as_slice()),
                None => {},
            }
        },
        _ => {},
    }
}

/// What running the search guarantees.
pub open spec fn execute_search_done(s0: AppState, s1: AppState) -> bool {
    &&& (match (s0.ui_state.floating_window, s0.vault_state) { (Some(FloatingWindow::Search { state: ss0 }),
        Some(vs)) => { &&& s1.ui_state.floating_window matches Some(FloatingWindow::Search { state: ss }) &&
        ss.query == ss0.query && ss.selected == 0 && (ss0.query@.len() == 0 ==> ss.results@.len() == 0) &&
        (ss0.query@.len() > 0 ==> crate::ui::widgets::search_dialog::result_ids(ss.results@) ==
        crate::ui::widgets::search_dialog::ranked(vs.vault.items@, ss0.query@).take(if
        crate::ui::widgets::search_dialog::ranked(vs.vault.items@, ss0.query@).len() <=
        crate::ui::widgets::search_dialog::MAX_RESULTS {
        crate::ui::widgets::search_dialog::ranked(vs.vault.items@, ss0.query@).len() as int } else {
        crate::ui::widgets::search_dialog::MAX_RESULTS as int })) &&& s1.vault_state == s0.vault_state }, _ =>
        s1 == s0, })
}

/// Searches again with the current query.
pub fn handle_execute_search(state: &mut AppState)
    requires
        old(state).wf(),
    ensures
        final(state).wf(),
        execute_search_done(*old(state), *final(state)),
{
    match &mut state.ui_state.floating_window {
        Some(FloatingWindow::Search { state: ss }) => {
            match &state.vault_state {
                Some(vs) => ss.update_results(vs.vault.items.as_slice()),
                None => {},
            }
        },
        _ => {},
    }
}

/// Picks a search result: selects its item, closes the dialog and focuses
/// the detail.
fn pick_search_result(state: &mut AppState, id: Option<u128>)
    requires
        old(state).wf(),
    ensures
        final(state).wf(),
        match id {
            Some(i) => {
                &&& final(state).ui_state.floating_window is None
                &&& final(state).ui_state.focused_pane == Pane::Detail
                &&& (old(state).vault_state is Some ==> (final(state).vault_state matches Some(vs) && vs.selected_item_id == Some(i)))
            },
            None => *final(state) == *old(state),
        },
{
    match id {
        Some(i) => {
            match &mut state.vault_state {
                Some(vs) => {
                    vs.selected_item_id = Some(i);
                },
                None => {},
            }
            state.ui_state.close_floating_window();
            state.ui_state.focused_pane = Pane::Detail;
        },
        None => {},
    }
}

/// What highlighting a search result guarantees.
pub open spec fn select_search_result_done(s0: AppState, s1: AppState, index: usize) -> bool {
    &&& ((s0.ui_state.floating_window matches Some(FloatingWindow::Search { state: ss }) && index <
        ss.results@.len()) ==> s1.ui_state.floating_window is None && s1.ui_state.focused_pane == Pane::Detail)
}

/// Picks the search result at `index`, if there is one.
pub fn handle_select_search_result(state: &mut AppState, index: usize)
    requires
        old(state).wf(),
    ensures
        final(state).wf(),
        select_search_result_done(*old(state), *final(state), index),
{
    let id = match &state.ui_state.floating_window {
        Some(FloatingWindow::Search { state: ss }) => {
            if index < ss.results.len() {
                Some(ss.results[index].item_id)
            } else {
                None
            }
        },
        _ => None,
    };
    pick_search_result(state, id);
}

/// What confirming the highlighted search result guarantees.
pub open spec fn search_confirm_done(s0: AppState, s1: AppState) -> bool {
    &&& (match s0.ui_state.floating_window { Some(FloatingWindow::Search { state: ss }) => if ss.selected <
        ss.results@.len() { &&& s1.ui_state.floating_window is None &&& s1.ui_state.focused_pane == Pane::Detail
        &&& (s0.vault_state is Some ==> (s1.vault_state matches Some(vs) && vs.selected_item_id ==
        Some(ss.results@[ss.selected as int].item_id))) } else { s1 == s0 }, _ => s1 == s0, })
}

/// Picks the highlighted search result, if there is one.
pub fn handle_search_confirm(state: &mut AppState)
    requires
        old(state).wf(),
    ensures
        final(state).wf(),
        search_confirm_done(*old(state), *final(state)),
{
    let id = match &state.ui_state.floating_window {
        Some(FloatingWindow::Search { state: ss }) => ss.selected_item_id(),
        _ => None,
    };
    pick_search_result(state, id);
}

/// Copies text to the clipboard; sensitive text is cleared after the
/// configured timeout, and never where the timeout is 0 ("Never").
pub fn handle_copy_to_clipboard(state: &mut AppState, content: String, is_sensitive: bool) -> (r: Effect)
    requires
        old(state).wf(),
    ensures
        final(state).wf(),
        is_sensitive && old(state).config.clipboard_timeout_secs > 0 ==> final(state).clipboard_state.has_secure_content
            && (r matches Effect::Batch(v) && v@.len() == 2
            && (v@[0] matches Effect::SetClipboard { content: c, is_sensitive: s } && c == content && s)
            && (v@[1] matches Effect::ScheduleClipboardClear { delay_secs } && delay_secs
            == old(state).config.clipboard_timeout_secs)),
        is_sensitive && old(state).config.clipboard_timeout_secs == 0 ==> final(state).clipboard_state.has_secure_content
            && final(state).clipboard_state.clear_at is None
            && (r matches Effect::SetClipboard { content: c, is_sensitive: s } && c == content && s),
        !is_sensitive ==> (r matches Effect::SetClipboard { content: c, is_sensitive: s } && c == content && !s),
{
    let schedule_clear = is_sensitive && state.config.clipboard_timeout_secs > 0;
    if schedule_clear {
        state.clipboard_state.set_secure(state.config.clipboard_timeout_secs);
    } else if is_sensitive {
        state.clipboard_state.has_secure_content = true;
        state.clipboard_state.clear_at = None;
    }
    state.ui_state.notify("Copied to clipboard", NotificationLevel::Success);
    let mut effects: Vec<Effect> = Vec::new();
    effects.push(Effect::SetClipboard { content, is_sensitive });
    if schedule_clear {
        effects.push(Effect::ScheduleClipboardClear { delay_secs: state.config.clipboard_timeout_secs });
    }
    proof {
        let e = effects@;
        assert(e.drop_last().len() == e.len() - 1);
        reveal_with_fuel(flattened, 3);
        if schedule_clear {
            assert(e.drop_last().drop_last() =~= Seq::<Effect>::empty());
            assert(flattened(e.drop_last()) =~= e.drop_last());
            assert(flattened(e) =~= e);
        } else {
            assert(e.drop_last() =~= Seq::<Effect>::empty());
            assert(flattened(e) =~= e);
        }
    }
    Effect::batch(effects)
}

/// Copies the main secret of the selected item, as sensitive.
pub fn handle_copy_current_item(state: &mut AppState) -> (r: Effect)
    requires
        old(state).wf(),
    ensures
        final(state).wf(),
        match old(state).selected_item_spec() {
            Some(item) => match item.content.primary_secret() {
                Some(secret) => {
                    &&& final(state).clipboard_state.has_secure_content
                    &&& if old(state).config.clipboard_timeout_secs > 0 {
                        r matches Effect::Batch(v) && v@.len() == 2
                            && (v@[0] matches Effect::SetClipboard { content: c, is_sensitive: s } && c@ == secret && s)
                            && (v@[1] matches Effect::ScheduleClipboardClear { delay_secs } && delay_secs
                            == old(state).config.clipboard_timeout_secs)
                    } else {
                        &&& final(state).clipboard_state.clear_at is None
                        &&& r matches Effect::SetClipboard { content: c, is_sensitive: s } && c@ == secret && s
                    }
                },
                None => r is Nothing && *final(state) == *old(state),
            },
            None => r is Nothing && *final(state) == *old(state),
        },
{
    let content = match state.selected_item() {
        Some(item) => match item.get_copyable_content() {
            Some(c) => Some(String::from_str(c)),
            None => None,
        },
        None => None,
    };
    match content {
        Some(c) => handle_copy_to_clipboard(state, c, true),
        None => Effect::none(),
    }
}

/// What typing a char guarantees.
pub open spec fn input_char_done(s0: AppState, s1: AppState, c: char) -> bool {
    &&& (s1.login_screen.error_message is None)
    &&& (s1.vault_state == s0.vault_state)
    &&& (!(s0.screen == Screen::Login && s0.login_screen.creating_vault) && s0.ui_state.floating_window is None
        && utf8_len(s0.ui_state.input_buffer.text@) + 4 <= usize::MAX ==> (s1.ui_state.input_buffer.text@,
        s1.ui_state.input_buffer.cursor as int) == crate::cursor::inserted(s0.ui_state.input_buffer.text@,
        s0.ui_state.input_buffer.cursor as int, c))
}

/// Types a char into the input that has the focus: a field of the
/// create-vault form, the item form, the search (which searches again), or
/// the input buffer. A text already as long as memory allows takes no more.
#[verifier::spinoff_prover]
#[verifier::rlimit(40)]
pub fn handle_input_char(state: &mut AppState, c: char)
    requires
        old(state).wf(),
    ensures
        final(state).wf(),
        input_char_done(*old(state), *final(state), c),
{
    state.login_screen.error_message = None;
    if state.screen == Screen::Login && state.login_screen.creating_vault {
        match state.login_screen.create_vault_form.active_input_mut() {
            Some(buf) => {
                if has_room(&buf.text) {
                    buf.insert(c);
                }
            },
            None => {},
        }
        return;
    }
    match &mut state.ui_state.floating_window {
        Some(FloatingWindow::NewItem { form }) => {
            if has_room(&form.values[form.focused_field]) {
                form.insert(c);
            }
        },
        Some(FloatingWindow::EditItem { form, .. }) => {
            if has_room(&form.values[form.focused_field]) {
                form.insert(c);
            }
        },
        Some(FloatingWindow::Search { state: ss }) => {
            if has_room(&ss.query) {
                ss.insert(c);
            }
            match &state.vault_state {
                Some(vs) => ss.update_results(vs.vault.items.as_slice()),
                None => {},
            }
        },
        _ => {
            if has_room(&state.ui_state.input_buffer.text) {
                state.ui_state.input_buffer.insert(c);
            }
        },
    }
}

/// What Backspace in the focused input guarantees.
pub open spec fn input_backspace_done(s0: AppState, s1: AppState) -> bool {
    &&& (s1.login_screen.error_message is None)
    &&& (s1.vault_state == s0.vault_state)
    &&& (!(s0.screen == Screen::Login && s0.login_screen.creating_vault) && s0.ui_state.floating_window is None
        ==> (s1.ui_state.input_buffer.text@, s1.ui_state.input_buffer.cursor as int) ==
        crate::cursor::backspaced(s0.ui_state.input_buffer.text@, s0.ui_state.input_buffer.cursor as int))
}

/// Deletes the char before the cursor of the input that has the focus.
#[verifier::rlimit(80)]
pub fn handle_input_backspace(state: &mut AppState)
    requires
        old(state).wf(),
    ensures
        final(state).wf(),
        input_backspace_done(*old(state), *final(state)),
{
    state.login_screen.error_message = None;
    if state.screen == Screen::Login && state.login_screen.creating_vault {
        match state.login_screen.create_vault_form.active_input_mut() {
            Some(buf) => buf.backspace(),
            None => {},
        }
        return;
    }
    match &mut state.ui_state.floating_window {
        Some(FloatingWindow::NewItem { form }) => form.backspace(),
        Some(FloatingWindow::EditItem { form, .. }) => form.backspace(),
        Some(FloatingWindow::Search { state: ss }) => {
            ss.backspace();
            match &state.vault_state {
                Some(vs) => ss.update_results(vs.vault.items.as_slice()),
                None => {},
            }
        },
        _ => state.ui_state.input_buffer.backspace(),
    }
}

/// What Delete in the focused input guarantees.
pub open spec fn input_delete_done(s0: AppState, s1: AppState) -> bool {
    &&& (s1.vault_state == s0.vault_state)
}

/// Deletes the char at the cursor of the create-vault field or the input
/// buffer.
pub fn handle_input_delete(state: &mut AppState)
    requires
        old(state).wf(),
    ensures
        final(state).wf(),
        input_delete_done(*old(state), *final(state)),
{
    if state.screen == Screen::Login && state.login_screen.creating_vault {
        match state.login_screen.create_vault_form.active_input_mut() {
            Some(buf) => buf.delete(),
            None => {},
        }
    } else {
        state.ui_state.input_buffer.delete();
    }
}

/// The cipher before or after `m` in the menu, wrapping.
fn cycle_method(m: crate::crypto::cipher::EncryptionMethod) -> (r: crate::crypto::cipher::EncryptionMethod)
    ensures
        r != m,
{
    match m {
        crate::crypto::cipher::EncryptionMethod::Aes256Gcm => crate::crypto::cipher::EncryptionMethod::ChaCha20Poly1305,
        crate::crypto::cipher::EncryptionMethod::ChaCha20Poly1305 => crate::crypto::cipher::EncryptionMethod::Aes256Gcm,
    }
}

/// What moving the cursor left guarantees.
pub open spec fn input_left_done(s0: AppState, s1: AppState) -> bool {
    &&& (s1.vault_state == s0.vault_state)
    &&& (s0.screen == Screen::Login && s0.login_screen.creating_vault &&
        s0.login_screen.create_vault_form.focused_field == CreateVaultField::RecoveryQuestionsCount ==>
        s1.login_screen.create_vault_form.recovery_questions_count == (if
        s0.login_screen.create_vault_form.recovery_questions_count == 0 { 3 } else {
        s0.login_screen.create_vault_form.recovery_questions_count - 1 }))
}

/// Moves left: on the cipher or the question count of the create-vault
/// form, chooses the previous value (wrapping); elsewhere moves the cursor.
pub fn handle_input_left(state: &mut AppState)
    requires
        old(state).wf(),
    ensures
        final(state).wf(),
        input_left_done(*old(state), *final(state)),
{
    if state.screen == Screen::Login && state.login_screen.creating_vault {
        let focused = state.login_screen.create_vault_form.focused_field;
        if focused == CreateVaultField::EncryptionMethod {
            state.login_screen.create_vault_form.encryption_method = cycle_method(
                state.login_screen.create_vault_form.encryption_method,
            );
        } else if focused == CreateVaultField::RecoveryQuestionsCount {
            let current = state.login_screen.create_vault_form.recovery_questions_count;
            state.login_screen.create_vault_form.recovery_questions_count = if current == 0 { 3 } else { current - 1 };
        } else {
            match state.login_screen.create_vault_form.active_input_mut() {
                Some(buf) => buf.move_left(),
                None => {},
            }
        }
        return;
    }
    match &mut state.ui_state.floating_window {
        Some(FloatingWindow::NewItem { form }) => form.move_left(),
        Some(FloatingWindow::EditItem { form, .. }) => form.move_left(),
        Some(FloatingWindow::Search { state: ss }) => ss.move_left(),
        _ => state.ui_state.input_buffer.move_left(),
    }
}

/// What moving the cursor right guarantees.
pub open spec fn input_right_done(s0: AppState, s1: AppState) -> bool {
    &&& (s1.vault_state == s0.vault_state)
    &&& (s0.screen == Screen::Login && s0.login_screen.creating_vault &&
        s0.login_screen.create_vault_form.focused_field == CreateVaultField::RecoveryQuestionsCount ==>
        s1.login_screen.create_vault_form.recovery_questions_count ==
        (s0.login_screen.create_vault_form.recovery_questions_count + 1) % 4)
}

/// Moves right: on the cipher or the question count of the create-vault
/// form, chooses the next value (wrapping); elsewhere moves the cursor.
pub fn handle_input_right(state: &mut AppState)
    requires
        old(state).wf(),
    ensures
        final(state).wf(),
        input_right_done(*old(state), *final(state)),
{
    if state.screen == Screen::Login && state.login_screen.creating_vault {
        let focused = state.login_screen.create_vault_form.focused_field;
        if focused == CreateVaultField::EncryptionMethod {
            state.login_screen.create_vault_form.encryption_method = cycle_method(
                state.login_screen.create_vault_form.encryption_method,
            );
        } else if focused == CreateVaultField::RecoveryQuestionsCount {
            let current = state.login_screen.create_vault_form.recovery_questions_count;
            state.login_screen.create_vault_form.recovery_questions_count = (current + 1) % 4;
        } else {
            match state.login_screen.create_vault_form.active_input_mut() {
                Some(buf) => buf.move_right(),
                None => {},
            }
        }
        return;
    }
    match &mut state.ui_state.floating_window {
        Some(FloatingWindow::NewItem { form }) => form.move_right(),
        Some(FloatingWindow::EditItem { form, .. }) => form.move_right(),
        Some(FloatingWindow::Search { state: ss }) => ss.move_right(),
        _ => state.ui_state.input_buffer.move_right(),
    }
}

/// What moving the cursor to the start guarantees.
pub open spec fn input_home_done(s0: AppState, s1: AppState) -> bool {
    &&& (s1.vault_state == s0.vault_state)
}

/// Moves the cursor of the input buffer to the start (not in the
/// create-vault form).
pub fn handle_input_home(state: &mut AppState)
    requires
        old(state).wf(),
    ensures
        final(state).wf(),
        input_home_done(*old(state), *final(state)),
{
    if !(state.screen == Screen::Login && state.login_screen.creating_vault) {
        state.ui_state.input_buffer.home();
    }
}

/// What moving the cursor to the end guarantees.
pub open spec fn input_end_done(s0: AppState, s1: AppState) -> bool {
    &&& (s1.vault_state == s0.vault_state)
}

/// Moves the cursor of the input buffer to the end (not in the create-vault
/// form).
pub fn handle_input_end(state: &mut AppState)
    requires
        old(state).wf(),
    ensures
        final(state).wf(),
        input_end_done(*old(state), *final(state)),
{
    if !(state.screen == Screen::Login && state.login_screen.creating_vault) {
        state.ui_state.input_buffer.end();
    }
}

/// Whether the key-file answer of the create-vault form means yes, as the
/// field navigation reads it: `y` or `yes` in lowercase, around white space.
pub open spec fn navigation_says_yes(s: Seq<char>) -> bool {
    lowercase_of(trim(s)) == "yes"@ || lowercase_of(trim(s)) == "y"@
}

/// Whether the key-file answer means yes, as the field navigation reads it.
pub(crate) fn navigation_yes(s: &str) -> (r: bool)
    ensures
        r == navigation_says_yes(s@),
{
    proof {
        reveal_strlit("y");
        reveal_strlit("yes");
    }
    let t = trim_str(s);
    let l = crate::text::to_lowercase(t.as_str());
    same_text(l.as_str(), "yes") || same_text(l.as_str(), "y")
}

/// Focuses the next field: of the create-vault form (on the current step),
/// or of the item form.
pub fn handle_form_next_field(state: &mut AppState)
    requires
        old(state).wf(),
    ensures
        final(state).wf(),
        final(state).vault_state == old(state).vault_state,
        old(state).screen == Screen::Login && old(state).login_screen.creating_vault ==> ({
            let f = old(state).login_screen.create_vault_form;
            final(state).login_screen.create_vault_form == (CreateVaultFormState {
                focused_field: crate::ui::screens::login::field_after(
                    f.focused_field,
                    f.step,
                    f.recovery_questions_count as nat,
                    navigation_says_yes(f.use_keyfile.text@),
                ),
                ..f
            })
        }),
{
    if state.screen == Screen::Login && state.login_screen.creating_vault {
        let q_count = state.login_screen.create_vault_form.recovery_questions_count;
        let use_keyfile = navigation_yes(state.login_screen.create_vault_form.use_keyfile.text.as_str());
        let step = state.login_screen.create_vault_form.step;
        state.login_screen.create_vault_form.focused_field = state.login_screen.create_vault_form.focused_field.next(
            step,
            q_count,
            use_keyfile,
        );
        return;
    }
    match &mut state.ui_state.floating_window {
        Some(FloatingWindow::NewItem { form }) => {
            form.next_field()
        },
        Some(FloatingWindow::EditItem { form, .. }) => {
            form.next_field()
        },
        _ => {},
    }
}

/// Focuses the previous field: of the create-vault form (on the current
/// step), or of the item form.
pub fn handle_form_prev_field(state: &mut AppState)
    requires
        old(state).wf(),
    ensures
        final(state).wf(),
        final(state).vault_state == old(state).vault_state,
        old(state).screen == Screen::Login && old(state).login_screen.creating_vault ==> ({
            let f = old(state).login_screen.create_vault_form;
            final(state).login_screen.create_vault_form == (CreateVaultFormState {
                focused_field: crate::ui::screens::login::field_before(
                    f.focused_field,
                    f.step,
                    f.recovery_questions_count as nat,
                    navigation_says_yes(f.use_keyfile.text@),
                ),
                ..f
            })
        }),
{
    if state.screen == Screen::Login && state.login_screen.creating_vault {
        let q_count = state.login_screen.create_vault_form.recovery_questions_count;
        let use_keyfile = navigation_yes(state.login_screen.create_vault_form.use_keyfile.text.as_str());
        let step = state.login_screen.create_vault_form.step;
        state.login_screen.create_vault_form.focused_field = state.login_screen.create_vault_form.focused_field.prev(
            step,
            q_count,
            use_keyfile,
        );
        return;
    }
    match &mut state.ui_state.floating_window {
        Some(FloatingWindow::NewItem { form }) => {
            form.prev_field()
        },
        Some(FloatingWindow::EditItem { form, .. }) => {
            form.prev_field()
        },
        _ => {},
    }
}

/// The create-vault field the mouse reaches at position `index`.
pub open spec fn create_field_at(index: nat) -> CreateVaultField {
    if index == 0 { CreateVaultField::Name }
    else if index == 1 { CreateVaultField::Password }
    else if index == 2 { CreateVaultField::ConfirmPassword }
    else if index == 3 { CreateVaultField::UseKeyfile }
    else if index == 4 { CreateVaultField::KeyfilePath }
    else if index == 5 { CreateVaultField::RecoveryQuestionsCount }
    else if index == 6 { CreateVaultField::RecoveryQuestion1 }
    else if index == 7 { CreateVaultField::RecoveryAnswer1 }
    else if index == 8 { CreateVaultField::RecoveryQuestion2 }
    else if index == 9 { CreateVaultField::RecoveryAnswer2 }
    else if index == 10 { CreateVaultField::RecoveryQuestion3 }
    else if index == 11 { CreateVaultField::RecoveryAnswer3 }
    else { CreateVaultField::Name }
}

/// Focuses the field at `index` (after a click): of the create-vault form,
/// or of the item form with the cursor at the end of its value.
pub fn handle_form_focus_field(state: &mut AppState, index: usize)
    requires
        old(state).wf(),
    ensures
        final(state).wf(),
        final(state).vault_state == old(state).vault_state,
        old(state).screen == Screen::Login && old(state).login_screen.creating_vault
            ==> final(state).login_screen.create_vault_form.focused_field == create_field_at(index as nat),
{
    if state.screen == Screen::Login && state.login_screen.creating_vault {
        let focused = if index == 0 { CreateVaultField::Name }
        else if index == 1 { CreateVaultField::Password }
        else if index == 2 { CreateVaultField::ConfirmPassword }
        else if index == 3 { CreateVaultField::UseKeyfile }
        else if index == 4 { CreateVaultField::KeyfilePath }
        else if index == 5 { CreateVaultField::RecoveryQuestionsCount }
        else if index == 6 { CreateVaultField::RecoveryQuestion1 }
        else if index == 7 { CreateVaultField::RecoveryAnswer1 }
        else if index == 8 { CreateVaultField::RecoveryQuestion2 }
        else if index == 9 { CreateVaultField::RecoveryAnswer2 }
        else if index == 10 { CreateVaultField::RecoveryQuestion3 }
        else if index == 11 { CreateVaultField::RecoveryAnswer3 }
        else { CreateVaultField::Name };
        state.login_screen.create_vault_form.focused_field = focused;
        return;
    }
    match &mut state.ui_state.floating_window {
        Some(FloatingWindow::NewItem { form }) => focus_form_field(form, index),
        Some(FloatingWindow::EditItem { form, .. }) => focus_form_field(form, index),
        _ => {},
    }
}

/// Focuses the field at `index` of the item form, if there is one, with the
/// cursor at the end of its value.
fn focus_form_field(form: &mut EditFormState, index: usize)
    requires
        old(form).wf(),
    ensures
        final(form).wf(),
        final(form).fields == old(form).fields,
        final(form).values == old(form).values,
        index < old(form).fields@.len() ==> final(form).focused_field == index && final(form).cursor
            == utf8_len(old(form).values@[index as int]@),
        index >= old(form).fields@.len() ==> *final(form) == *old(form),
{
    if index < form.fields.len() {
        form.focused_field = index;
        form.cursor = byte_len(form.values[index].as_str());
        proof {
            crate::cursor::lemma_end_is_boundary(form.values@[index as int]@);
        }
    }
}

/// Forgets any kept password, empties the input and reads the vault with
/// the password alone.
fn unlock_without_keyfile(state: &mut AppState, password: String) -> (r: Effect)
    requires
        old(state).wf(),
    ensures
        final(state).wf(),
        final(state).login_screen.pending_unlock_password is None,
        final(state).ui_state.input_buffer.text@.len() == 0,
{
    proof {
        reveal_strlit("No vault selected");
    }
    state.login_screen.pending_unlock_password = None;
    state.ui_state.input_buffer.clear();
    let selected = state.login_screen.selected_vault;
    if selected >= state.registry.entries.len() {
        state.login_screen.error_message = Some(String::from_str("No vault selected"));
        return Effect::none();
    }
    let path = state.registry.entries[selected].path.clone();
    state.ui_state.start_loading("Unlocking vault...");
    Effect::ReadVaultFile { path, password: SecureString::new(password), keyfile_path: None }
}

/// Keeps the password and asks for the key file path.
fn ask_for_keyfile(state: &mut AppState, password: String)
    requires
        old(state).wf(),
    ensures
        final(state).wf(),
        final(state).login_screen.pending_unlock_password matches Some(p) && p@ == password@,
        !final(state).login_screen.entering_password,
        final(state).login_screen.entering_keyfile_path,
        final(state).login_screen.error_message matches Some(m) && m@ == "Vault requires a keyfile. Enter keyfile path."@,
        final(state).ui_state.input_buffer.text@.len() == 0,
        !final(state).ui_state.input_buffer.masked,
{
    proof {
        reveal_strlit("Vault requires a keyfile. Enter keyfile path.");
    }
    state.login_screen.pending_unlock_password = Some(SecureString::new(password));
    state.login_screen.entering_password = false;
    state.login_screen.entering_keyfile_path = true;
    state.login_screen.error_message = Some(String::from_str("Vault requires a keyfile. Enter keyfile path."));
    state.ui_state.input_buffer.clear();
    state.ui_state.input_buffer.masked = false;
}

/// Continues unlocking once the vault header was read: a vault that needs
/// a key file asks for its path (keeping the password); otherwise the vault
/// is read with the password alone.
pub fn continue_unlock(state: &mut AppState, password: String, header: core::result::Result<bool, String>) -> (r: Effect)
    requires
        old(state).wf(),
    ensures
        final(state).wf(),
        match header {
            Err(e) => r is Nothing && (final(state).login_screen.error_message matches Some(m) && m@
                == "Failed to read vault header: "@ + e@),
            Ok(true) => {
                &&& r is Nothing
                &&& final(state).login_screen.pending_unlock_password matches Some(p) && p@ == password@
                &&& !final(state).login_screen.entering_password
                &&& final(state).login_screen.entering_keyfile_path
                &&& final(state).login_screen.error_message matches Some(m) && m@
                    == "Vault requires a keyfile. Enter keyfile path."@
                &&& final(state).ui_state.input_buffer.text@.len() == 0
                &&& !final(state).ui_state.input_buffer.masked
            },
            Ok(false) => {
                &&& final(state).login_screen.pending_unlock_password is None
                &&& final(state).ui_state.input_buffer.text@.len() == 0
            },
        },
{
    proof {
        reveal_strlit("Failed to read vault header: ");
        reveal_strlit("Vault requires a keyfile. Enter keyfile path.");
    }
    match header {
        Err(e) => {
            let mut m = String::from_str("Failed to read vault header: ");
            m.append(e.as_str());
            state.login_screen.error_message = Some(m);
            Effect::none()
        },
        Ok(true) => {
            ask_for_keyfile(state, password);
            Effect::none()
        },
        Ok(false) => unlock_without_keyfile(state, password),
    }
}

/// What submitting on the login screen guarantees.
pub open spec fn submit_login_done(s0: AppState, s1: AppState, r: Effect) -> bool {
    &&& (s1.vault_state == s0.vault_state)
    &&& (({ let ls = s0.login_screen; let typed = trim(s0.ui_state.input_buffer.text@); let sel =
        ls.selected_vault; let entries = s0.registry.entries@; if ls.creating_vault { true } else if
        ls.entering_password { if typed.len() == 0 { r is Nothing && (s1.login_screen.error_message matches
        Some(m) && m@ == "Password cannot be empty"@) } else if sel < entries.len() { r matches
        Effect::CheckKeyfileRequired { path, password } && path@ == entries[sel as int].path@ && password@ ==
        typed } else { r is Nothing && (s1.login_screen.error_message matches Some(m) && m@ ==
        "No vault selected"@) } } else if ls.entering_keyfile_path { if typed.len() == 0 { r is Nothing &&
        (s1.login_screen.error_message matches Some(m) && m@ == "Keyfile path cannot be empty"@) } else { match
        ls.pending_unlock_password { None => { &&& r is Nothing &&& s1.login_screen.error_message matches
        Some(m) && m@ == "Password session expired. Re-enter password."@ &&& s1.login_screen.entering_password
        &&& !s1.login_screen.entering_keyfile_path &&& s1.ui_state.input_buffer.masked }, Some(p) => { &&& sel <
        entries.len() ==> (r matches Effect::ReadVaultFile { path, password, keyfile_path } && path ==
        entries[sel as int].path && password == p && keyfile_path is Some && keyfile_path->0@ == typed) &&& sel
        >= entries.len() ==> r is Nothing }, } } } else { r is Nothing && s1 == s0 } }))
}

/// Submits on the login screen: the create-vault form, the password (whose
/// vault header is then read), or the key file path.
pub fn submit_login(state: &mut AppState) -> (r: Effect)
    requires
        old(state).wf(),
        old(state).screen == Screen::Login,
    ensures
        final(state).wf(),
        submit_login_done(*old(state), *final(state), r),
{
    proof {
        reveal_strlit("Password cannot be empty");
        reveal_strlit("No vault selected");
        reveal_strlit("Keyfile path cannot be empty");
        reveal_strlit("Password session expired. Re-enter password.");
    }
    if state.login_screen.creating_vault {
        return handle_create_vault_submit(state);
    }
    if state.login_screen.entering_password {
        let password = trim_str(state.ui_state.input_buffer.text.as_str());
        if password.as_str().unicode_len() == 0 {
            state.login_screen.error_message = Some(String::from_str("Password cannot be empty"));
            return Effect::none();
        }
        let selected = state.login_screen.selected_vault;
        if selected < state.registry.entries.len() {
            return Effect::CheckKeyfileRequired {
                path: state.registry.entries[selected].path.clone(),
                password: SecureString::new(password),
            };
        }
        state.login_screen.error_message = Some(String::from_str("No vault selected"));
        return Effect::none();
    }
    if state.login_screen.entering_keyfile_path {
        let keyfile_path = trim_str(state.ui_state.input_buffer.text.as_str());
        if keyfile_path.as_str().unicode_len() == 0 {
            state.login_screen.error_message = Some(String::from_str("Keyfile path cannot be empty"));
            return Effect::none();
        }
        let password = match state.login_screen.pending_unlock_password.take() {
            Some(p) => p,
            None => {
                state.login_screen.error_message = Some(
                    String::from_str("Password session expired. Re-enter password."),
                );
                state.login_screen.entering_keyfile_path = false;
                state.login_screen.entering_password = true;
                state.ui_state.input_buffer.clear();
                state.ui_state.input_buffer.masked = true;
                return Effect::none();
            },
        };
        state.login_screen.pending_unlock_password = Some(password.duplicate());
        state.login_screen.error_message = None;
        state.ui_state.input_buffer.clear();
        return handle_unlock_vault(state, password, Some(keyfile_path));
    }
    Effect::none()
}

/// What submitting the create-vault form guarantees.
pub open spec fn submit_create_form_done(s0: AppState, s1: AppState, r: Effect) -> bool {
    &&& (s1.vault_state == s0.vault_state)
    &&& (({ let f = s0.login_screen.create_vault_form; let f1 = s1.login_screen.create_vault_form; let next =
        crate::ui::screens::login::field_after(f.focused_field, f.step, f.recovery_questions_count as nat,
        navigation_says_yes(f.use_keyfile.text@)); &&& f.step == CreateVaultStep::Step1 && f.focused_field !=
        CreateVaultField::EncryptionMethod ==> r is Nothing && f1 == (CreateVaultFormState { focused_field:
        next, ..f }) &&& f.step == CreateVaultStep::Step1 && f.focused_field ==
        CreateVaultField::EncryptionMethod ==> r is Nothing && if trim(f.name.text@).len() == 0 {
        s1.login_screen.error_message matches Some(m) && m@ == "Vault name cannot be empty"@ } else { f1.step ==
        CreateVaultStep::Step2 && f1.focused_field == CreateVaultField::Password } &&& f.step ==
        CreateVaultStep::Step2 ==> r is Nothing }))
}

/// Submits on the create-vault form: moves to the next field, to the next
/// step once the step's last field is reached and its values are valid, or,
/// on the last field of the last step, submits the form.
pub fn submit_create_form(state: &mut AppState) -> (r: Effect)
    requires
        old(state).wf(),
        old(state).screen == Screen::Login,
        old(state).login_screen.creating_vault,
    ensures
        final(state).wf(),
        submit_create_form_done(*old(state), *final(state), r),
{
    proof {
        reveal_strlit("Vault name cannot be empty");
        reveal_strlit("Password must be at least 4 characters");
        reveal_strlit("Passwords do not match");
        reveal_strlit("Keyfile path cannot be empty if using keyfile");
    }
    let step = state.login_screen.create_vault_form.step;
    let field = state.login_screen.create_vault_form.focused_field;
    if step == CreateVaultStep::Step1 {
        if field != CreateVaultField::EncryptionMethod {
            handle_form_next_field(state);
            return Effect::none();
        }
        let name = trim_str(state.login_screen.create_vault_form.name.text.as_str());
        if name.as_str().unicode_len() == 0 {
            state.login_screen.error_message = Some(String::from_str("Vault name cannot be empty"));
            return Effect::none();
        }
        state.login_screen.create_vault_form.step = CreateVaultStep::Step2;
        state.login_screen.create_vault_form.focused_field = CreateVaultField::Password;
        state.login_screen.error_message = None;
        return Effect::none();
    }
    if step == CreateVaultStep::Step2 {
        let use_keyfile = is_yes(state.login_screen.create_vault_form.use_keyfile.text.as_str());
        if !((!use_keyfile && field == CreateVaultField::UseKeyfile) || (use_keyfile && field
            == CreateVaultField::KeyfilePath)) {
            handle_form_next_field(state);
            return Effect::none();
        }
        let password = state.login_screen.create_vault_form.password.text.clone();
        if byte_len(password.as_str()) < 4 {
            state.login_screen.error_message = Some(String::from_str("Password must be at least 4 characters"));
            return Effect::none();
        }
        if password != state.login_screen.create_vault_form.confirm_password.text {
            state.login_screen.error_message = Some(String::from_str("Passwords do not match"));
            return Effect::none();
        }
        let keyfile_path = trim_str(state.login_screen.create_vault_form.keyfile_path.text.as_str());
        if use_keyfile && keyfile_path.as_str().unicode_len() == 0 {
            state.login_screen.error_message = Some(
                String::from_str("Keyfile path cannot be empty if using keyfile"),
            );
            return Effect::none();
        }
        state.login_screen.create_vault_form.step = CreateVaultStep::Step3;
        state.login_screen.create_vault_form.focused_field = CreateVaultField::RecoveryQuestionsCount;
        state.login_screen.error_message = None;
        return Effect::none();
    }
    let q = state.login_screen.create_vault_form.recovery_questions_count;
    let is_last = (q == 0 && field == CreateVaultField::RecoveryQuestionsCount) || (q == 1 && field
        == CreateVaultField::RecoveryAnswer1) || (q == 2 && field == CreateVaultField::RecoveryAnswer2) || field
        == CreateVaultField::RecoveryAnswer3;
    if is_last {
        handle_create_vault_submit(state)
    } else {
        handle_form_next_field(state);
        Effect::none()
    }
}

/// The value of a decimal count, as `str::parse::<u8>` reads it: an
/// optional `+` and one or more ASCII digits worth at most 255.
pub open spec fn digits_value(d: Seq<char>) -> nat
    decreases d.len(),
{
    if d.len() == 0 {
        0
    } else {
        digits_value(d.drop_last()) * 10 + ((d.last() as u32) - ('0' as u32)) as nat
    }
}

/// Whether every char of `d` is an ASCII digit.
pub open spec fn all_digits(d: Seq<char>) -> bool {
    forall|i: int| 0 <= i < d.len() ==> '0' <= #[trigger] d[i] && d[i] <= '9'
}

/// The count a typed text stands for, if it is a `u8`.
pub open spec fn parsed_u8(t: Seq<char>) -> Option<nat> {
    let d = if t.len() > 0 && t[0] == '+' { t.drop_first() } else { t };
    if d.len() > 0 && all_digits(d) && digits_value(d) <= 255 {
        Some(digits_value(d))
    } else {
        None
    }
}

/// Reads a `u8` as `str::parse` does.
fn parse_u8(t: &str) -> (r: Option<u8>)
    ensures
        match parsed_u8(t@) {
            Some(v) => r == Some(v as u8),
            None => r is None,
        },
{
    let n = t.unicode_len();
    let mut i: usize = 0;
    if n > 0 && t.get_char(0) == '+' {
        i = 1;
    }
    let ghost d = if t@.len() > 0 && t@[0] == '+' { t@.drop_first() } else { t@ };
    let start = i;
    assert(d =~= t@.skip(start as int));
    if start == n {
        return None;
    }
    let mut value: u32 = 0;
    while i < n
        invariant
            start <= i <= n,
            n == t@.len(),
            d == t@.skip(start as int),
            d == (if t@.len() > 0 && t@[0] == '+' { t@.drop_first() } else { t@ }),
            start == 0 || start == 1,
            all_digits(d.take(i - start)),
            value == digits_value(d.take(i - start)),
            value <= 255,
        decreases n - i,
    {
        let c = t.get_char(i);
        assert(d[i - start] == c);
        if c < '0' || c > '9' {
            proof {
                let k = (i - start) as int;
                assert(!('0' <= d[k] && d[k] <= '9'));
                assert(!all_digits(d));
            }
            return None;
        }
        let digit = (c as u32) - ('0' as u32);
        assert(d.take(i - start + 1).drop_last() =~= d.take(i - start));
        let next = value * 10 + digit;
        if next > 255 {
            proof {
                let k = (i - start + 1) as int;
                assert(all_digits(d.take(k)));
                assert(digits_value(d.take(k)) > 255);
                if all_digits(d) {
                    lemma_digits_grow(d, k);
                }
            }
            return None;
        }
        value = next;
        i = i + 1;
    }
    assert(d.take(i - start) =~= d);
    assert(d =~= (if t@.len() > 0 && t@[0] == '+' { t@.drop_first() } else { t@ }));
    Some(value as u8)
}

/// Longer runs of digits are worth at least as much as their prefixes.
proof fn lemma_digits_grow(d: Seq<char>, k: int)
    requires
        0 <= k <= d.len(),
        all_digits(d),
    ensures
        digits_value(d.take(k)) <= digits_value(d),
    decreases d.len() - k,
{
    if k < d.len() {
        lemma_digits_grow(d, k + 1);
        assert(d.take(k + 1).drop_last() =~= d.take(k));
    } else {
        assert(d.take(k) =~= d);
    }
}

/// Checks the current credentials of the unlocked vault: the password (and
/// the key file, when the vault needs one) must derive the vault's key.
/// Returns the key file content used.
pub fn verify_master_credentials(
    vault_state: &VaultState,
    current_password: &str,
    keyfile_data: Option<&[u8]>,
) -> (r: core::result::Result<Option<Vec<u8>>, String>)
    ensures
        trim(current_password@).len() == 0 ==> (r matches Err(m) && m@ == "Current password cannot be empty"@),
        trim(current_password@).len() > 0 && vault_state.has_keyfile && keyfile_data is None ==> (r matches Err(m) && m@
            == "This vault requires a keyfile path"@),
        trim(current_password@).len() > 0 && vault_state.has_keyfile && keyfile_data is Some
            && crate::crypto::keyfile::keyfile_rejection(keyfile_data->0@) is Some ==> (r matches Err(m) && m@
            == "Failed to read keyfile: "@ + "Invalid keyfile: "@ + crate::crypto::keyfile::keyfile_rejection(
            keyfile_data->0@,
        )->0),
        trim(current_password@).len() > 0 && (!vault_state.has_keyfile || (keyfile_data is Some
            && crate::crypto::keyfile::keyfile_rejection(keyfile_data->0@) is None)) ==> ({
            let kf = if vault_state.has_keyfile { crate::crypto::kdf::opt_bytes(keyfile_data) } else { None };
            &&& r is Ok <==> crate::crypto::kdf::derived_key(current_password@, kf, vault_state.salt@,
                (Argon2Params { memory_kib: 65536, iterations: 3, parallelism: 4 })) == Some(vault_state.encryption_key@)
            &&& r matches Err(m) ==> m@ == "Current password or keyfile is incorrect"@
        }),
        r matches Ok(k) ==> ({
            let kf = if vault_state.has_keyfile { crate::crypto::kdf::opt_bytes(keyfile_data) } else { None };
            &&& crate::crypto::kdf::opt_view_bytes(k) == kf
            &&& crate::crypto::kdf::derived_key(current_password@, kf, vault_state.salt@, (Argon2Params { memory_kib: 65536, iterations: 3, parallelism: 4 }))
                == Some(vault_state.encryption_key@)
        }),
{
    proof {
        reveal_strlit("Current password cannot be empty");
        reveal_strlit("This vault requires a keyfile path");
        reveal_strlit("Failed to verify credentials: ");
        reveal_strlit("Current password or keyfile is incorrect");
    }
    if crate::text::is_blank(current_password) {
        return Err(String::from_str("Current password cannot be empty"));
    }
    let keyfile: Option<Vec<u8>> = if vault_state.has_keyfile {
        match keyfile_data {
            Some(d) => match crate::crypto::keyfile::KeyFile::from_bytes(vstd::slice::slice_to_vec(d)) {
                Ok(k) => Some(vstd::slice::slice_to_vec(k.as_bytes())),
                Err(e) => {
                    let described = e.describe();
                    let mut m = String::from_str("Failed to read keyfile: ");
                    m.append(described.as_str());
                    proof {
                        reveal_strlit("Failed to read keyfile: ");
                        reveal_strlit("Invalid keyfile: ");
                        assert(m@ =~= "Failed to read keyfile: "@ + "Invalid keyfile: "@
                            + crate::crypto::keyfile::keyfile_rejection(d@)->0);
                    }
                    return Err(m);
                },
            },
            None => {
                return Err(String::from_str("This vault requires a keyfile path"));
            },
        }
    } else {
        None
    };
    let secret = SecureString::from_str(current_password);
    let params = Argon2Params::default();
    let derived = match &keyfile {
        Some(k) => crate::crypto::kdf::derive_key(&secret, Some(k.as_slice()), &vault_state.salt, &params),
        None => crate::crypto::kdf::derive_key(&secret, None, &vault_state.salt, &params),
    };
    let key = match derived {
        Ok(k) => k,
        Err(e) => {
            let mut m = String::from_str("Failed to verify credentials: ");
            let d = e.describe();
            m.append(d.as_str());
            return Err(m);
        },
    };
    if !crate::crypto::kdf::constant_time_compare(&key, &vault_state.encryption_key) {
        return Err(String::from_str("Current password or keyfile is incorrect"));
    }
    Ok(keyfile)
}

/// Sets the error shown on the login and settings screens.
pub(crate) fn show_error(state: &mut AppState, msg: &str)
    requires
        old(state).wf(),
    ensures
        final(state).wf(),
        final(state).login_screen.error_message matches Some(m) && m@ == msg@,
        final(state).vault_state == old(state).vault_state,
        final(state).settings_state.security_action == old(state).settings_state.security_action,
{
    state.login_screen.error_message = Some(String::from_str(msg));
}

/// Empties the input buffer and sets whether it is masked.
pub(crate) fn reset_input(state: &mut AppState, masked: bool)
    requires
        old(state).wf(),
    ensures
        final(state).wf(),
        final(state).ui_state.input_buffer.text@.len() == 0,
        final(state).ui_state.input_buffer.masked == masked,
        final(state).vault_state == old(state).vault_state,
        final(state).settings_state == old(state).settings_state,
        final(state).login_screen.error_message == old(state).login_screen.error_message,
{
    state.ui_state.input_buffer.clear();
    state.ui_state.input_buffer.masked = masked;
}

/// The key file used with a vault's password: the one read, for a vault
/// that has one.
pub open spec fn used_keyfile(vs: VaultState, keyfile_data: Option<Vec<u8>>) -> Option<Seq<u8>> {
    if vs.has_keyfile {
        crate::crypto::kdf::opt_view_bytes(keyfile_data)
    } else {
        None
    }
}

/// Whether `current` (with the key file content, for a vault that needs one)
/// is the password of `vs`: it is not blank, the key file content is usable
/// (see `keyfile_rejection`) and the two derive the vault's key.
pub open spec fn credentials_match(vs: VaultState, current: Seq<char>, keyfile_data: Option<Vec<u8>>) -> bool {
    &&& trim(current).len() > 0
    &&& (!vs.has_keyfile || keyfile_data is Some)
    &&& (vs.has_keyfile ==> crate::crypto::keyfile::keyfile_rejection(keyfile_data->0@) is None)
    &&& crate::crypto::kdf::derived_key(current, used_keyfile(vs, keyfile_data), vs.salt@,
        Argon2Params { memory_kib: 65536, iterations: 3, parallelism: 4 }) == Some(vs.encryption_key@)
}

/// Whether `vs` is `vs0` after a password change from `current` to `new`:
/// the current credentials derive the old key, the new key is derived from
/// the new password (same key file and salt), recovery is reset, and `r`
/// saves the vault.
pub open spec fn password_changed(
    vs0: VaultState,
    vs: VaultState,
    current: Seq<char>,
    new: Seq<char>,
    keyfile_data: Option<Vec<u8>>,
    r: Effect,
) -> bool {
    let kf = used_keyfile(vs0, keyfile_data);
    let params = Argon2Params { memory_kib: 65536, iterations: 3, parallelism: 4 };
    &&& crate::crypto::kdf::derived_key(current, kf, vs0.salt@, params) == Some(vs0.encryption_key@)
    &&& crate::crypto::kdf::derived_key(new, kf, vs0.salt@, params) == Some(vs.encryption_key@)
    &&& vs.salt == vs0.salt
    &&& vs.has_keyfile == vs0.has_keyfile
    &&& vs.recovery_metadata is None
    &&& vs.vault.security_questions@.len() == 0
    &&& vs.is_dirty
    &&& crate::app::security::saves(r, vs)
}

/// What a step of the password change guarantees.
pub open spec fn change_password_done(s0: AppState, s1: AppState, action: ChangePasswordAction, r: Effect) -> bool {
    let input = s0.ui_state.input_buffer.text@;
    let vs0 = s0.vault_state->0;
    let vs = s1.vault_state->0;
    &&& s1.vault_state is Some
    &&& match action.step {
        ChangePasswordStep::CurrentPassword => r is Nothing && vs == vs0 && if trim(input).len() == 0 {
            s1.login_screen.error_message matches Some(m) && m@ == "Current password cannot be empty"@
        } else {
            s1.settings_state.security_action matches Some(SecurityActionState::ChangePassword(a)) && a.current_password
                is Some && a.current_password->0@ == input && a.step == (if vs0.has_keyfile {
                ChangePasswordStep::KeyfilePath
            } else {
                ChangePasswordStep::NewPassword
            })
        },
        ChangePasswordStep::KeyfilePath => vs == vs0 && if trim(input).len() == 0 {
            r is Nothing && (s1.login_screen.error_message matches Some(m) && m@ == "Keyfile path cannot be empty"@)
        } else {
            r matches Effect::ReadKeyfile { path } && path@ == trim(input)
        },
        ChangePasswordStep::NewPassword => r is Nothing && vs == vs0 && if utf8_len(input) < 4 {
            s1.login_screen.error_message matches Some(m) && m@ == "New password must be at least 4 characters"@
        } else {
            s1.settings_state.security_action matches Some(SecurityActionState::ChangePassword(a)) && a.new_password
                is Some && a.new_password->0@ == input && a.step == ChangePasswordStep::ConfirmPassword
        },
        ChangePasswordStep::ConfirmPassword => match (action.current_password, action.new_password) {
            (Some(c), Some(n)) => if input != n@ {
                &&& r is Nothing
                &&& vs == vs0
                &&& s1.login_screen.error_message matches Some(m) && m@ == "New password confirmation does not match"@
            } else if credentials_match(vs0, c@, action.keyfile_data) {
                password_changed(vs0, vs, c@, n@, action.keyfile_data, r) && s1.settings_state.security_action is None
            } else {
                r is Nothing && vs == vs0 && s1.login_screen.error_message is Some
            },
            _ => r is Nothing && vs == vs0 && s1.login_screen.error_message is Some,
        },
    }
}

/// One step of the password change: the current password, the key file
/// path (for vaults with a key file, whose content is then read), the new
/// password (at least four bytes) and its confirmation, which checks the
/// current credentials, derives the new key, resets recovery and saves.
fn change_password_submit(state: &mut AppState, action: ChangePasswordAction) -> (r: Effect)
    requires
        old(state).wf(),
        old(state).vault_state is Some,
    ensures
        final(state).wf(),
        change_password_done(*old(state), *final(state), action, r),
{
    proof {
        reveal_strlit("Current password cannot be empty");
        reveal_strlit("Keyfile path cannot be empty");
        reveal_strlit("New password must be at least 4 characters");
        reveal_strlit("Current password is missing");
        reveal_strlit("New password is missing");
        reveal_strlit("New password confirmation does not match");
    }
    let mut action = action;
    let input = state.ui_state.input_buffer.text.clone();
    let has_keyfile = match &state.vault_state {
        Some(vs) => vs.has_keyfile,
        None => false,
    };
    match action.step {
        ChangePasswordStep::CurrentPassword => {
            if crate::text::is_blank(input.as_str()) {
                show_error(state, "Current password cannot be empty");
                return Effect::none();
            }
            action.current_password = Some(input);
            action.step = if has_keyfile { ChangePasswordStep::KeyfilePath } else { ChangePasswordStep::NewPassword };
            reset_input(state, !has_keyfile);
            state.login_screen.error_message = None;
            state.settings_state.security_action = Some(SecurityActionState::ChangePassword(action));
            Effect::none()
        },
        ChangePasswordStep::KeyfilePath => {
            if crate::text::is_blank(input.as_str()) {
                show_error(state, "Keyfile path cannot be empty");
                return Effect::none();
            }
            let path = trim_str(input.as_str());
            action.keyfile_path = path.clone();
            action.step = ChangePasswordStep::NewPassword;
            reset_input(state, true);
            state.login_screen.error_message = None;
            state.settings_state.security_action = Some(SecurityActionState::ChangePassword(action));
            Effect::ReadKeyfile { path }
        },
        ChangePasswordStep::NewPassword => {
            crate::cursor::utf8_fits(input.as_str());
            if byte_len(input.as_str()) < 4 {
                show_error(state, "New password must be at least 4 characters");
                return Effect::none();
            }
            action.new_password = Some(input);
            action.step = ChangePasswordStep::ConfirmPassword;
            reset_input(state, true);
            state.login_screen.error_message = None;
            state.settings_state.security_action = Some(SecurityActionState::ChangePassword(action));
            Effect::none()
        },
        ChangePasswordStep::ConfirmPassword => {
            let current = match &action.current_password {
                Some(p) => p.clone(),
                None => {
                    show_error(state, "Current password is missing");
                    return Effect::none();
                },
            };
            let new_password = match &action.new_password {
                Some(p) => p.clone(),
                None => {
                    show_error(state, "New password is missing");
                    return Effect::none();
                },
            };
            if input != new_password {
                show_error(state, "New password confirmation does not match");
                state.ui_state.input_buffer.clear();
                return Effect::none();
            }
            finish_password_change(state, current, new_password, action.keyfile_data)
        },
    }
}

/// Checks the current credentials, derives the new key, resets recovery and
/// asks for the vault to be saved.
fn finish_password_change(state: &mut AppState, current: String, new_password: String, keyfile_data: Option<Vec<u8>>) -> (r: Effect)
    requires
        old(state).wf(),
        old(state).vault_state is Some,
    ensures
        final(state).wf(),
        final(state).vault_state is Some,
        if credentials_match(old(state).vault_state->0, current@, keyfile_data) {
            password_changed(
                old(state).vault_state->0,
                final(state).vault_state->0,
                current@,
                new_password@,
                keyfile_data,
                r,
            ) && final(state).settings_state.security_action is None
        } else {
            r is Nothing && final(state).vault_state == old(state).vault_state
                && final(state).login_screen.error_message is Some
        },
{
    proof {
        reveal_strlit("Failed to derive new key: ");
    }
    let checked = match &state.vault_state {
        Some(vs) => match &keyfile_data {
            Some(d) => verify_master_credentials(vs, current.as_str(), Some(d.as_slice())),
            None => verify_master_credentials(vs, current.as_str(), None),
        },
        None => {
            return Effect::none();
        },
    };
    let keyfile = match checked {
        Ok(k) => k,
        Err(msg) => {
            state.login_screen.error_message = Some(msg);
            return Effect::none();
        },
    };
    let secret = SecureString::new(new_password);
    let params = Argon2Params::default();
    let salt = match &state.vault_state {
        Some(vs) => vs.salt,
        None => [0u8; 32],
    };
    let derived = match &keyfile {
        Some(k) => crate::crypto::kdf::derive_key(&secret, Some(k.as_slice()), &salt, &params),
        None => crate::crypto::kdf::derive_key(&secret, None, &salt, &params),
    };
    let new_key = match derived {
        Ok(k) => k,
        Err(e) => {
            let mut m = String::from_str("Failed to derive new key: ");
            let d = e.describe();
            m.append(d.as_str());
            state.login_screen.error_message = Some(m);
            return Effect::none();
        },
    };
    match &mut state.vault_state {
        Some(vs) => {
            vs.encryption_key = new_key;
            vs.recovery_metadata = None;
            vs.vault.security_questions = Vec::new();
            vs.mark_dirty();
        },
        None => {},
    }
    state.settings_state.security_action = None;
    reset_input(state, false);
    state.login_screen.error_message = Some(String::from_str("Master password updated. Recovery has been reset."));
    state.ui_state.notify("Master password updated. Reconfigure recovery questions.", NotificationLevel::Success);
    match &state.vault_state {
        Some(vs) => write_effect(vs),
        None => Effect::none(),
    }
}

/// The question/answer pairs typed in the recovery setup.
pub open spec fn draft_pairs(drafts: Seq<RecoveryQuestionDraft>) -> Seq<(Seq<char>, Seq<char>)> {
    drafts.map_values(|d: RecoveryQuestionDraft| (d.question@, d.answer@))
}

/// Whether `vs` is `vs0` with recovery set up from the pairs typed and the
/// password, and `r` saves it.
pub open spec fn recovery_saved(
    vs0: VaultState,
    vs: VaultState,
    current: Seq<char>,
    drafts: Seq<RecoveryQuestionDraft>,
    r: Effect,
) -> bool {
    &&& vs.recovery_metadata matches Some(m) && crate::domain::security_question::built_from(
        m,
        draft_pairs(drafts),
        current,
        vs0.encryption_method,
    )
    &&& vs.encryption_key == vs0.encryption_key
    &&& vs.is_dirty
    &&& crate::app::security::saves(r, vs)
}

/// Whether `vs` is `vs0` with recovery turned off, and `r` saves it.
pub open spec fn recovery_disabled(vs0: VaultState, vs: VaultState, r: Effect) -> bool {
    &&& vs.recovery_metadata is None
    &&& vs.vault.security_questions@.len() == 0
    &&& vs.encryption_key == vs0.encryption_key
    &&& vs.is_dirty
    &&& crate::app::security::saves(r, vs)
}

/// What a step of the recovery setup guarantees.
pub open spec fn recovery_setup_done(s0: AppState, s1: AppState, action: RecoverySetupAction, r: Effect) -> bool {
    let input = s0.ui_state.input_buffer.text@;
    let vs0 = s0.vault_state->0;
    let vs = s1.vault_state->0;
    &&& s1.vault_state is Some
    &&& match action.step {
        RecoverySetupStep::CurrentPassword => r is Nothing && vs == vs0 && if trim(input).len() == 0 {
            s1.login_screen.error_message matches Some(m) && m@ == "Current password cannot be empty"@
        } else {
            s1.settings_state.security_action matches Some(SecurityActionState::ConfigureRecovery(a))
                && a.current_password is Some && a.current_password->0@ == input && a.step == (if vs0.has_keyfile {
                RecoverySetupStep::KeyfilePath
            } else {
                RecoverySetupStep::QuestionCount
            })
        },
        RecoverySetupStep::KeyfilePath => vs == vs0 && if trim(input).len() == 0 {
            r is Nothing && (s1.login_screen.error_message matches Some(m) && m@ == "Keyfile path cannot be empty"@)
        } else {
            r matches Effect::ReadKeyfile { path } && path@ == trim(input)
        },
        RecoverySetupStep::QuestionCount => match parsed_u8(trim(input)) {
            Some(n) => if n > 3 {
                &&& r is Nothing
                &&& vs == vs0
                &&& s1.login_screen.error_message matches Some(m) && m@ == "Enter recovery question count from 0 to 3"@
            } else {
                match action.current_password {
                    None => {
                        &&& r is Nothing
                        &&& vs == vs0
                        &&& s1.login_screen.error_message matches Some(m) && m@ == "Current password is missing"@
                    },
                    Some(c) => if !credentials_match(vs0, c@, action.keyfile_data) {
                        r is Nothing && vs == vs0 && s1.login_screen.error_message is Some
                    } else if n == 0 {
                        recovery_disabled(vs0, vs, r) && s1.settings_state.security_action is None
                    } else {
                        &&& r is Nothing
                        &&& vs == vs0
                        &&& s1.settings_state.security_action matches Some(SecurityActionState::ConfigureRecovery(a))
                            && a.step == RecoverySetupStep::QuestionText && a.question_count == n && a.questions@.len()
                            == 0
                    },
                }
            },
            None => {
                &&& r is Nothing
                &&& vs == vs0
                &&& s1.login_screen.error_message matches Some(m) && m@ == "Enter recovery question count from 0 to 3"@
            },
        },
        RecoverySetupStep::QuestionText => r is Nothing && vs == vs0 && if trim(input).len() == 0 {
            s1.login_screen.error_message matches Some(m) && m@ == "Security question cannot be empty"@
        } else {
            s1.settings_state.security_action matches Some(SecurityActionState::ConfigureRecovery(a))
                && a.pending_question is Some && a.pending_question->0@ == trim(input) && a.step
                == RecoverySetupStep::AnswerText
        },
        RecoverySetupStep::AnswerText => if trim(input).len() == 0 {
            &&& r is Nothing
            &&& vs == vs0
            &&& s1.login_screen.error_message matches Some(m) && m@ == "Security answer cannot be empty"@
        } else {
            match action.pending_question {
                None => r is Nothing && vs == vs0 && s1.login_screen.error_message is Some,
                Some(q) => {
                    let drafts = action.questions@.push(RecoveryQuestionDraft { question: q, answer: s0.ui_state.input_buffer.text });
                    if drafts.len() < action.question_count {
                        &&& r is Nothing
                        &&& vs == vs0
                        &&& s1.settings_state.security_action matches Some(SecurityActionState::ConfigureRecovery(a))
                            && a.step == RecoverySetupStep::QuestionText && draft_pairs(a.questions@)
                            == draft_pairs(drafts)
                    } else {
                        match action.current_password {
                            Some(c) => {
                                let saved = recovery_saved(vs0, vs, c@, drafts, r)
                                    && s1.settings_state.security_action is None;
                                let failed = r is Nothing && vs == vs0 && s1.login_screen.error_message is Some;
                                if crate::app::security::build_problem(draft_pairs(drafts)) is Some {
                                    failed
                                } else if c@.len() <= 0x4_0000_0000 {
                                    saved
                                } else {
                                    saved || failed
                                }
                            },
                            None => r is Nothing && vs == vs0 && s1.login_screen.error_message is Some,
                        }
                    }
                },
            }
        },
    }
}

/// One step of the recovery setup: the current password, the key file path
/// (for vaults with a key file), the number of questions (0 to 3; 0 turns
/// recovery off), then each question and its answer; after the last answer
/// the recovery metadata is built and the vault saved.
fn recovery_setup_submit(state: &mut AppState, action: RecoverySetupAction) -> (r: Effect)
    requires
        old(state).wf(),
        old(state).vault_state is Some,
    ensures
        final(state).wf(),
        recovery_setup_done(*old(state), *final(state), action, r),
{
    proof {
        reveal_strlit("Current password cannot be empty");
        reveal_strlit("Keyfile path cannot be empty");
        reveal_strlit("Enter recovery question count from 0 to 3");
        reveal_strlit("Current password is missing");
        reveal_strlit("Security question cannot be empty");
        reveal_strlit("Security answer cannot be empty");
        reveal_strlit("Question state missing, please try again");
    }
    let mut action = action;
    let input = state.ui_state.input_buffer.text.clone();
    let has_keyfile = match &state.vault_state {
        Some(vs) => vs.has_keyfile,
        None => false,
    };
    match action.step {
        RecoverySetupStep::CurrentPassword => {
            if crate::text::is_blank(input.as_str()) {
                show_error(state, "Current password cannot be empty");
                return Effect::none();
            }
            action.current_password = Some(input);
            action.step = if has_keyfile { RecoverySetupStep::KeyfilePath } else { RecoverySetupStep::QuestionCount };
            reset_input(state, false);
            state.login_screen.error_message = None;
            state.settings_state.security_action = Some(SecurityActionState::ConfigureRecovery(action));
            Effect::none()
        },
        RecoverySetupStep::KeyfilePath => {
            if crate::text::is_blank(input.as_str()) {
                show_error(state, "Keyfile path cannot be empty");
                return Effect::none();
            }
            let path = trim_str(input.as_str());
            action.keyfile_path = path.clone();
            action.step = RecoverySetupStep::QuestionCount;
            reset_input(state, false);
            state.login_screen.error_message = None;
            state.settings_state.security_action = Some(SecurityActionState::ConfigureRecovery(action));
            Effect::ReadKeyfile { path }
        },
        RecoverySetupStep::QuestionCount => {
            let t = trim_str(input.as_str());
            let count = match parse_u8(t.as_str()) {
                Some(n) => {
                    if n <= 3 {
                        n
                    } else {
                        show_error(state, "Enter recovery question count from 0 to 3");
                        return Effect::none();
                    }
                },
                None => {
                    show_error(state, "Enter recovery question count from 0 to 3");
                    return Effect::none();
                },
            };
            let current = match &action.current_password {
                Some(p) => p.clone(),
                None => {
                    show_error(state, "Current password is missing");
                    return Effect::none();
                },
            };
            let checked = match &state.vault_state {
                Some(vs) => match &action.keyfile_data {
                    Some(d) => verify_master_credentials(vs, current.as_str(), Some(d.as_slice())),
                    None => verify_master_credentials(vs, current.as_str(), None),
                },
                None => {
                    return Effect::none();
                },
            };
            let keyfile = match checked {
                Ok(k) => k,
                Err(msg) => {
                    state.login_screen.error_message = Some(msg);
                    return Effect::none();
                },
            };
            action.keyfile_data = keyfile;
            action.question_count = count;
            action.questions = Vec::new();
            action.pending_question = None;
            if count == 0 {
                return disable_recovery(state);
            }
            action.step = RecoverySetupStep::QuestionText;
            reset_input(state, false);
            state.login_screen.error_message = None;
            state.settings_state.security_action = Some(SecurityActionState::ConfigureRecovery(action));
            Effect::none()
        },
        RecoverySetupStep::QuestionText => {
            let question = trim_str(input.as_str());
            if question.as_str().unicode_len() == 0 {
                show_error(state, "Security question cannot be empty");
                return Effect::none();
            }
            action.pending_question = Some(question);
            action.step = RecoverySetupStep::AnswerText;
            reset_input(state, true);
            state.login_screen.error_message = None;
            state.settings_state.security_action = Some(SecurityActionState::ConfigureRecovery(action));
            Effect::none()
        },
        RecoverySetupStep::AnswerText => {
            if crate::text::is_blank(input.as_str()) {
                show_error(state, "Security answer cannot be empty");
                return Effect::none();
            }
            let question = match action.pending_question.take() {
                Some(q) => q,
                None => {
                    show_error(state, "Question state missing, please try again");
                    action.step = RecoverySetupStep::QuestionText;
                    state.settings_state.security_action = Some(SecurityActionState::ConfigureRecovery(action));
                    return Effect::none();
                },
            };
            action.questions.push(RecoveryQuestionDraft { question, answer: input });
            if action.questions.len() < action.question_count as usize {
                action.step = RecoverySetupStep::QuestionText;
                reset_input(state, false);
                state.login_screen.error_message = None;
                state.settings_state.security_action = Some(SecurityActionState::ConfigureRecovery(action));
                return Effect::none();
            }
            let current = match &action.current_password {
                Some(p) => p.clone(),
                None => {
                    show_error(state, "Current password is missing");
                    return Effect::none();
                },
            };
            save_recovery(state, current, &action.questions)
        },
    }
}

/// Turns recovery off and asks for the vault to be saved.
fn disable_recovery(state: &mut AppState) -> (r: Effect)
    requires
        old(state).wf(),
        old(state).vault_state is Some,
    ensures
        final(state).wf(),
        final(state).vault_state is Some,
        recovery_disabled(old(state).vault_state->0, final(state).vault_state->0, r),
        final(state).settings_state.security_action is None,
{
    match &mut state.vault_state {
        Some(vs) => {
            vs.recovery_metadata = None;
            vs.vault.security_questions = Vec::new();
            vs.mark_dirty();
        },
        None => {},
    }
    state.settings_state.security_action = None;
    reset_input(state, false);
    state.login_screen.error_message = Some(String::from_str("Recovery disabled for this vault"));
    state.ui_state.notify("Recovery disabled for this vault", NotificationLevel::Success);
    match &state.vault_state {
        Some(vs) => write_effect(vs),
        None => Effect::none(),
    }
}

/// Builds the recovery metadata from the questions and answers typed, keeps
/// its questions in the vault and asks for the vault to be saved.
fn save_recovery(state: &mut AppState, current: String, questions: &Vec<RecoveryQuestionDraft>) -> (r: Effect)
    requires
        old(state).wf(),
        old(state).vault_state is Some,
    ensures
        final(state).wf(),
        final(state).vault_state is Some,
        ({
            let saved = recovery_saved(old(state).vault_state->0, final(state).vault_state->0, current@, questions@, r)
                && final(state).settings_state.security_action is None;
            let failed = r is Nothing && final(state).vault_state == old(state).vault_state
                && final(state).login_screen.error_message is Some;
            if crate::app::security::build_problem(draft_pairs(questions@)) is Some {
                failed
            } else if current@.len() <= 0x4_0000_0000 {
                saved
            } else {
                saved || failed
            }
        }),
{
    proof {
        reveal_strlit("Failed to configure recovery: ");
    }
    let mut pairs: Vec<(String, SecureString)> = Vec::new();
    let mut i: usize = 0;
    while i < questions.len()
        invariant
            i <= questions@.len(),
            pairs@.len() == i,
            crate::domain::security_question::pair_views(pairs@) == draft_pairs(questions@.take(i as int)),
        decreases questions@.len() - i,
    {
        let q = questions[i].question.clone();
        let a = SecureString::new(questions[i].answer.clone());
        let ghost prev = pairs@;
        let ghost entry = (q, a);
        pairs.push((q, a));
        proof {
            assert(crate::domain::security_question::pair_views(pairs@) =~= draft_pairs(questions@.take(i + 1))) by {
                assert(questions@.take(i + 1) =~= questions@.take(i as int).push(questions@[i as int]));
                assert(pairs@ == prev.push(entry));
                assert forall|j: int| 0 <= j < pairs@.len() implies #[trigger] crate::domain::security_question::pair_views(pairs@)[j]
                    == draft_pairs(questions@.take(i + 1))[j] by {
                    if j < i {
                        assert(pairs@[j] == prev[j]);
                        assert(crate::domain::security_question::pair_views(prev)[j] == draft_pairs(questions@.take(i as int))[j]);
                    }
                }
            }
        }
        i = i + 1;
    }
    assert(questions@.take(questions@.len() as int) =~= questions@);
    let method = match &state.vault_state {
        Some(vs) => vs.encryption_method,
        None => {
            return Effect::none();
        },
    };
    let password = SecureString::new(current);
    let metadata = match crate::domain::security_question::RecoveryMetadata::build(pairs, &password, method) {
        Ok(m) => m,
        Err(e) => {
            let mut m = String::from_str("Failed to configure recovery: ");
            let d = e.describe();
            m.append(d.as_str());
            state.login_screen.error_message = Some(m);
            return Effect::none();
        },
    };
    match &mut state.vault_state {
        Some(vs) => {
            vs.vault.security_questions = metadata.questions.clone();
            vs.recovery_metadata = Some(metadata);
            vs.mark_dirty();
        },
        None => {},
    }
    state.settings_state.security_action = None;
    reset_input(state, false);
    state.login_screen.error_message = Some(String::from_str("Recovery questions saved successfully"));
    state.ui_state.notify("Recovery questions saved", NotificationLevel::Success);
    match &state.vault_state {
        Some(vs) => write_effect(vs),
        None => Effect::none(),
    }
}

/// What a step of the security workflow under way guarantees.
pub open spec fn security_action_submit_done(s0: AppState, s1: AppState, r: Effect) -> bool {
    &&& (s0.settings_state.security_action is None ==> r is Nothing)
    &&& (s0.settings_state.security_action is Some && s0.vault_state is None ==> { &&&
        s1.settings_state.security_action is None &&& s1.login_screen.error_message matches Some(m) && m@ ==
        "No vault is open"@ })
    &&& (s0.vault_state is Some ==> match s0.settings_state.security_action {
        Some(SecurityActionState::ChangePassword(a)) => change_password_done(s0, s1, a, r),
        Some(SecurityActionState::ConfigureRecovery(a)) => recovery_setup_done(s0, s1, a, r),
        Some(SecurityActionState::AddKeyfile(a)) => crate::app::security::add_keyfile_step_done(s0, s1, a, r),
        Some(SecurityActionState::ManageRecovery(a)) => crate::app::security::manage_recovery_done(s0, s1, a,
        r), None => r is Nothing, })
}

/// Submits the security workflow of the settings: without a vault it is
/// dropped with an error; otherwise its current step is submitted.
#[verifier::spinoff_prover]
#[verifier::rlimit(60)]
pub fn handle_settings_security_action_submit(state: &mut AppState) -> (r: Effect)
    requires
        old(state).wf(),
    ensures
        final(state).wf(),
        security_action_submit_done(*old(state), *final(state), r),
{
    proof {
        reveal_strlit("No vault is open");
    }
    let action = match state.settings_state.security_action.take() {
        Some(a) => a,
        None => {
            return Effect::none();
        },
    };
    if state.vault_state.is_none() {
        state.login_screen.error_message = Some(String::from_str("No vault is open"));
        return Effect::none();
    }
    match action {
        SecurityActionState::AddKeyfile(a) => crate::app::security::handle_add_keyfile_submit(state, a),
        SecurityActionState::ManageRecovery(a) => crate::app::security::handle_manage_recovery_submit(state, a),
        SecurityActionState::ChangePassword(a) => {
            state.settings_state.security_action = Some(SecurityActionState::ChangePassword(a.clone()));
            change_password_submit(state, a)
        },
        SecurityActionState::ConfigureRecovery(a) => {
            state.settings_state.security_action = Some(SecurityActionState::ConfigureRecovery(a.clone()));
            recovery_setup_submit(state, a)
        },
    }
}

/// Stores a key file that was read for the security workflow whose path it
/// was read from.
pub fn keyfile_loaded(state: &mut AppState, path: String, data: Vec<u8>) -> (r: Effect)
    requires
        old(state).wf(),
    ensures
        final(state).wf(),
        match old(state).settings_state.security_action {
            Some(SecurityActionState::ChangePassword(a0)) => {
                &&& r is Nothing
                &&& final(state).vault_state == old(state).vault_state
                &&& final(state).settings_state.security_action matches Some(SecurityActionState::ChangePassword(a))
                    && a.step == a0.step && (a0.keyfile_path == path ==> (a.keyfile_data is Some
                    && a.keyfile_data->0@ == data@))
            },
            Some(SecurityActionState::ConfigureRecovery(a0)) => {
                &&& r is Nothing
                &&& final(state).vault_state == old(state).vault_state
                &&& final(state).settings_state.security_action matches Some(SecurityActionState::ConfigureRecovery(a))
                    && a.step == a0.step && (a0.keyfile_path == path ==> (a.keyfile_data is Some
                    && a.keyfile_data->0@ == data@))
            },
            Some(SecurityActionState::ManageRecovery(_)) => r is Nothing && final(state).vault_state
                == old(state).vault_state,
            Some(SecurityActionState::AddKeyfile(_)) => final(state).vault_state is Some <==> old(
                state,
            ).vault_state is Some,
            None => r is Nothing && *final(state) == *old(state),
        },
{
    let action = state.settings_state.security_action.take();
    match action {
        Some(SecurityActionState::ChangePassword(a)) => {
            let mut a = a;
            if a.keyfile_path == path {
                a.keyfile_data = Some(data);
            }
            state.settings_state.security_action = Some(SecurityActionState::ChangePassword(a));
            Effect::none()
        },
        Some(SecurityActionState::ConfigureRecovery(a)) => {
            let mut a = a;
            if a.keyfile_path == path {
                a.keyfile_data = Some(data);
            }
            state.settings_state.security_action = Some(SecurityActionState::ConfigureRecovery(a));
            Effect::none()
        },
        Some(SecurityActionState::AddKeyfile(a)) => {
            if state.vault_state.is_some() {
                crate::app::security::add_keyfile_loaded(state, a, path, data)
            } else {
                state.settings_state.security_action = Some(SecurityActionState::AddKeyfile(a));
                Effect::none()
            }
        },
        Some(SecurityActionState::ManageRecovery(a)) => {
            crate::app::security::manage_keyfile_loaded(state, a, path, data);
            Effect::none()
        },
        None => Effect::none(),
    }
}

/// What submitting on the settings screen guarantees.
pub open spec fn submit_settings_done(s0: AppState, s1: AppState, r: Effect) -> bool {
    &&& (s0.settings_state.security_action is Some ==> security_action_submit_done(s0, s1, r))
    &&& (s0.settings_state.security_action is None && s0.settings_state.editing ==> { &&& r is WriteConfig &&&
        !s1.settings_state.editing &&& s1.config == crate::ui::screens::settings::applied(s0.config,
        s0.settings_state.selected as nat, s0.settings_state.sub_selection as nat) })
}

/// Submits on the settings screen: the step of the security workflow under
/// way, or confirms the value being chosen (and saves the configuration),
/// starts a security workflow, or starts choosing a value for the selected
/// setting.
pub fn submit_settings(state: &mut AppState) -> (r: Effect)
    requires
        old(state).wf(),
    ensures
        final(state).wf(),
        submit_settings_done(*old(state), *final(state), r),
{
    if state.settings_state.security_action.is_some() {
        return handle_settings_security_action_submit(state);
    }
    if state.settings_state.editing {
        let selected = state.settings_state.selected;
        let chosen = state.settings_state.confirm_edit();
        crate::ui::screens::settings::apply_setting(state, selected, chosen);
        return Effect::WriteConfig;
    }
    let settings = SettingKind::all();
    let selected = state.settings_state.selected;
    if selected < settings.len() {
        match settings[selected] {
            SettingKind::ChangeMasterPassword => {
                state.settings_state.security_action = Some(
                    crate::ui::screens::settings::SecurityActionState::ChangePassword(
                        crate::ui::screens::settings::ChangePasswordAction::default(),
                    ),
                );
                state.ui_state.input_buffer.clear();
                state.ui_state.input_buffer.masked = true;
                state.login_screen.error_message = None;
                return Effect::none();
            },
            SettingKind::AddKeyfile => {
                state.settings_state.security_action = Some(
                    crate::ui::screens::settings::SecurityActionState::AddKeyfile(
                        crate::ui::screens::settings::AddKeyfileAction::default(),
                    ),
                );
                state.ui_state.input_buffer.clear();
                state.ui_state.input_buffer.masked = true;
                state.login_screen.error_message = None;
                return Effect::none();
            },
            SettingKind::ManageRecovery => {
                state.settings_state.security_action = Some(
                    crate::ui::screens::settings::SecurityActionState::ManageRecovery(
                        crate::ui::screens::settings::ManageRecoveryAction::default(),
                    ),
                );
                state.ui_state.input_buffer.clear();
                state.ui_state.input_buffer.masked = true;
                state.login_screen.error_message = None;
                return Effect::none();
            },
            SettingKind::ConfigureRecovery => {
                state.settings_state.security_action = Some(
                    crate::ui::screens::settings::SecurityActionState::ConfigureRecovery(
                        crate::ui::screens::settings::RecoverySetupAction::default(),
                    ),
                );
                state.ui_state.input_buffer.clear();
                state.ui_state.input_buffer.masked = true;
                state.login_screen.error_message = None;
                return Effect::none();
            },
            _ => {},
        }
    }
    let current = crate::ui::screens::settings::get_current_sub_index(state, selected);
    state.settings_state.start_edit(current);
    Effect::none()
}

/// What submitting the input guarantees.
pub open spec fn input_submit_done(s0: AppState, s1: AppState, r: Effect) -> bool {
    if s0.screen == Screen::PasswordRecovery {
        password_recovery_submit_done(s0, s1, r)
    } else if s0.screen == Screen::Login && s0.login_screen.creating_vault {
        submit_create_form_done(s0, s1, r)
    } else if s0.screen == Screen::Settings {
        submit_settings_done(s0, s1, r)
    } else if s0.screen == Screen::Login {
        submit_login_done(s0, s1, r)
    } else {
        r is Nothing && s1 == s0
    }
}

/// Submits the input that has the focus, depending on the screen.
#[verifier::rlimit(40)]
pub fn handle_input_submit(state: &mut AppState) -> (r: Effect)
    requires
        old(state).wf(),
    ensures
        final(state).wf(),
        input_submit_done(*old(state), *final(state), r),
{
    if state.screen == Screen::PasswordRecovery {
        return handle_password_recovery_submit(state);
    }
    if state.screen == Screen::Login && state.login_screen.creating_vault {
        return submit_create_form(state);
    }
    if state.screen == Screen::Settings {
        return submit_settings(state);
    }
    if state.screen == Screen::Login {
        return submit_login(state);
    }
    Effect::none()
}

/// What cancelling the input guarantees.
pub open spec fn input_cancel_done(s0: AppState, s1: AppState) -> bool {
    &&& (s1.ui_state.floating_window is None)
}

/// Cancels the input: closes the item form (its changes are dropped), or
/// empties the input buffer and closes any other window.
pub fn handle_input_cancel(state: &mut AppState)
    requires
        old(state).wf(),
    ensures
        final(state).wf(),
        input_cancel_done(*old(state), *final(state)),
{
    match &state.ui_state.floating_window {
        Some(FloatingWindow::NewItem { .. }) | Some(FloatingWindow::EditItem { .. }) => {
            state.ui_state.close_floating_window();
        },
        _ => {
            state.ui_state.input_buffer.clear();
            state.ui_state.close_floating_window();
        },
    }
}

/// Adds a new item made from a valid form, selects it and asks for the
/// vault to be saved; an invalid form stays open with the error shown.
fn submit_new_item(state: &mut AppState, form: EditFormState) -> (r: Effect)
    requires
        old(state).wf(),
        old(state).ui_state.floating_window is None,
        form.wf(),
    ensures
        final(state).wf(),
        match old(state).vault_state {
            Some(vs) => form_error(form) is None && trim(value_or_empty(form, FormField::Title)).len() > 0 ==> {
                &&& final(state).ui_state.floating_window is None
                &&& final(state).vault_state matches Some(f) && f.vault.items@.len() == vs.vault.items@.len() + 1
                    && f.vault.items@.drop_last() == vs.vault.items@ && content_from_form(f.vault.items@.last().content, form)
                    && f.selected_item_id == Some(f.vault.items@.last().id) && f.is_dirty
                &&& r is WriteVaultFile
            },
            None => final(state).vault_state is None,
        },
{
    match form.validate() {
        Err(msg) => {
            state.ui_state.notify(msg, NotificationLevel::Error);
            state.ui_state.floating_window = Some(FloatingWindow::NewItem { form });
            return Effect::none();
        },
        Ok(()) => {},
    }
    if state.vault_state.is_none() {
        return Effect::none();
    }
    let item = match create_item_from_form(&form) {
        Ok(item) => item,
        Err(msg) => {
            state.ui_state.notify(msg.as_str(), NotificationLevel::Error);
            state.ui_state.floating_window = Some(FloatingWindow::NewItem { form });
            return Effect::none();
        },
    };
    let id = item.id;
    state.ui_state.notify("Item created and saved", NotificationLevel::Success);
    match &mut state.vault_state {
        Some(vs) => {
            let ghost before = vs.vault.items@;
            vs.vault.add_item(item);
            assert(vs.vault.items@.drop_last() =~= before);
            vs.selected_item_id = Some(id);
            vs.mark_dirty();
            write_effect(vs)
        },
        None => Effect::none(),
    }
}

/// Applies a valid edit form to its item, records the change for undo and
/// asks for the vault to be saved; an invalid form stays open with the
/// error shown.
fn submit_edit_item(state: &mut AppState, item_id: u128, form: EditFormState) -> (r: Effect)
    requires
        old(state).wf(),
        old(state).ui_state.floating_window is None,
        form.wf(),
    ensures
        final(state).wf(),
        match old(state).vault_state {
            Some(vs) => form_error(form) is None && trim(value_or_empty(form, FormField::Title)).len() > 0
                && item_position(vs.vault.items@, item_id) is Some ==> {
                &&& final(state).ui_state.floating_window is None
                &&& final(state).vault_state matches Some(f) && exists|u: ItemUpdates| item_changed(
                    vs,
                    f,
                    item_position(vs.vault.items@, item_id)->0,
                    u,
                )
                &&& r is WriteVaultFile
            },
            None => final(state).vault_state is None,
        },
{
    match form.validate() {
        Err(msg) => {
            state.ui_state.notify(msg, NotificationLevel::Error);
            state.ui_state.floating_window = Some(FloatingWindow::EditItem { item_id, form });
            return Effect::none();
        },
        Ok(()) => {},
    }
    let found = match &state.vault_state {
        Some(vs) => vs.vault.item_index(item_id).is_some(),
        None => false,
    };
    if !found {
        return Effect::none();
    }
    let updates = match create_updates_from_form(&form) {
        Ok(u) => u,
        Err(msg) => {
            state.ui_state.notify(msg.as_str(), NotificationLevel::Error);
            state.ui_state.floating_window = Some(FloatingWindow::EditItem { item_id, form });
            return Effect::none();
        },
    };
    state.ui_state.notify("Item updated and saved", NotificationLevel::Success);
    match &mut state.vault_state {
        Some(vs) => {
            let ghost u = updates;
            vs.change_item(item_id, updates);
            write_effect(vs)
        },
        None => Effect::none(),
    }
}

/// What submitting the open form guarantees.
pub open spec fn form_submit_done(s0: AppState, s1: AppState, r: Effect) -> bool {
    &&& (!(s0.screen == Screen::Login && s0.login_screen.creating_vault) ==> match s0.ui_state.floating_window {
        Some(FloatingWindow::NewItem { form }) => match s0.vault_state { Some(vs) => form_error(form) is None &&
        trim(value_or_empty(form, FormField::Title)).len() > 0 ==> { &&& s1.ui_state.floating_window is None &&&
        s1.vault_state matches Some(f) && f.vault.items@.len() == vs.vault.items@.len() + 1 &&
        f.vault.items@.drop_last() == vs.vault.items@ && content_from_form(f.vault.items@.last().content, form)
        && f.selected_item_id == Some(f.vault.items@.last().id) && f.is_dirty &&& r is WriteVaultFile }, None =>
        s1.vault_state is None, }, Some(FloatingWindow::EditItem { item_id, form }) => match s0.vault_state {
        Some(vs) => form_error(form) is None && trim(value_or_empty(form, FormField::Title)).len() > 0 &&
        item_position(vs.vault.items@, item_id) is Some ==> { &&& s1.ui_state.floating_window is None &&&
        s1.vault_state matches Some(f) && exists|u: ItemUpdates| item_changed(vs, f,
        item_position(vs.vault.items@, item_id)->0, u) &&& r is WriteVaultFile }, None => s1.vault_state is
        None, }, _ => r is Nothing && s1 == s0, })
}

/// Submits the form that is open: the create-vault form, or the item form
/// (new or edited).
pub fn handle_form_submit(state: &mut AppState) -> (r: Effect)
    requires
        old(state).wf(),
    ensures
        final(state).wf(),
        form_submit_done(*old(state), *final(state), r),
{
    if state.screen == Screen::Login && state.login_screen.creating_vault {
        return handle_create_vault_submit(state);
    }
    match state.ui_state.floating_window.take() {
        Some(FloatingWindow::NewItem { form }) => submit_new_item(state, form),
        Some(FloatingWindow::EditItem { item_id, form }) => submit_edit_item(state, item_id, form),
        other => {
            state.ui_state.floating_window = other;
            Effect::none()
        },
    }
}

/// What moving down the kind selector guarantees.
pub open spec fn kind_selector_next_done(s0: AppState, s1: AppState) -> bool {
    &&& (match s0.ui_state.floating_window { Some(FloatingWindow::KindSelector { state: sel0 }) =>
        s1.ui_state.floating_window matches Some(FloatingWindow::KindSelector { state: sel }) && sel.kinds ==
        sel0.kinds && sel.selected == (if sel0.selected + 1 < sel0.kinds@.len() { sel0.selected + 1 } else {
        sel0.selected as int }), _ => s1 == s0, })
}

/// Highlights the next kind of the kind selector.
pub fn handle_kind_selector_next(state: &mut AppState)
    requires
        old(state).wf(),
    ensures
        final(state).wf(),
        kind_selector_next_done(*old(state), *final(state)),
{
    match &mut state.ui_state.floating_window {
        Some(FloatingWindow::KindSelector { state: sel }) => sel.next(),
        _ => {},
    }
}

/// What moving up the kind selector guarantees.
pub open spec fn kind_selector_prev_done(s0: AppState, s1: AppState) -> bool {
    &&& (match s0.ui_state.floating_window { Some(FloatingWindow::KindSelector { state: sel0 }) =>
        s1.ui_state.floating_window matches Some(FloatingWindow::KindSelector { state: sel }) && sel.kinds ==
        sel0.kinds && sel.selected == (if sel0.selected > 0 { sel0.selected - 1 } else { 0 }), _ => s1 == s0, })
}

/// Highlights the previous kind of the kind selector.
pub fn handle_kind_selector_prev(state: &mut AppState)
    requires
        old(state).wf(),
    ensures
        final(state).wf(),
        kind_selector_prev_done(*old(state), *final(state)),
{
    match &mut state.ui_state.floating_window {
        Some(FloatingWindow::KindSelector { state: sel }) => sel.prev(),
        _ => {},
    }
}

/// What picking a kind by index guarantees.
pub open spec fn kind_selector_select_done(s0: AppState, s1: AppState, index: usize) -> bool {
    &&& (match s0.ui_state.floating_window { Some(FloatingWindow::KindSelector { state: sel0 }) =>
        s1.ui_state.floating_window matches Some(FloatingWindow::KindSelector { state: sel }) && sel.kinds ==
        sel0.kinds && sel.selected == (if index < sel0.kinds@.len() { index } else { sel0.selected }), _ => s1
        == s0, })
}

/// Highlights the kind at `index` of the kind selector.
pub fn handle_kind_selector_select(state: &mut AppState, index: usize)
    requires
        old(state).wf(),
    ensures
        final(state).wf(),
        kind_selector_select_done(*old(state), *final(state), index),
{
    match &mut state.ui_state.floating_window {
        Some(FloatingWindow::KindSelector { state: sel }) => sel.select(index),
        _ => {},
    }
}

/// What confirming the kind guarantees.
pub open spec fn kind_selector_confirm_done(s0: AppState, s1: AppState) -> bool {
    &&& (s0.ui_state.floating_window matches Some(FloatingWindow::KindSelector { state: sel }) ==>
        (s1.ui_state.floating_window matches Some(FloatingWindow::NewItem { form }) && form.kind ==
        sel.kinds@[sel.selected as int] && form.is_new))
}

/// Picks the highlighted kind: the selector gives way to a blank form for a
/// new item of that kind.
pub fn handle_kind_selector_confirm(state: &mut AppState)
    requires
        old(state).wf(),
    ensures
        final(state).wf(),
        kind_selector_confirm_done(*old(state), *final(state)),
{
    match state.ui_state.floating_window.take() {
        Some(FloatingWindow::KindSelector { state: sel }) => {
            let kind = sel.selected_kind();
            state.ui_state.floating_window = Some(FloatingWindow::new_item_form(kind));
        },
        other => {
            state.ui_state.floating_window = other;
        },
    }
}

/// Adds a tag to the vault.
pub fn handle_create_tag(state: &mut AppState, tag: crate::domain::tag::Tag)
    requires
        old(state).wf(),
    ensures
        final(state).wf(),
        match old(state).vault_state {
            Some(vs) => final(state).vault_state matches Some(f) && f.vault.tags@ == vs.vault.tags@.push(tag)
                && f.is_dirty,
            None => final(state).vault_state is None,
        },
{
    match &mut state.vault_state {
        Some(vs) => {
            vs.vault.add_tag(tag);
            vs.mark_dirty();
        },
        None => {},
    }
}

/// Deletes a tag from the vault and from every item.
pub fn handle_delete_tag(state: &mut AppState, id: u128)
    requires
        old(state).wf(),
    ensures
        final(state).wf(),
        match old(state).vault_state {
            Some(vs) => final(state).vault_state matches Some(f) && f.is_dirty && f.vault.items@.len()
                == vs.vault.items@.len() && forall|i: int| 0 <= i < f.vault.items@.len() ==> !(
            #[trigger] f.vault.items@[i]).tags@.contains(id),
            None => final(state).vault_state is None,
        },
{
    match &mut state.vault_state {
        Some(vs) => {
            let ghost before = vs.vault;
            vs.vault.remove_tag(id);
            proof {
                assert forall|i: int| 0 <= i < vs.vault.items@.len() implies !(
                #[trigger] vs.vault.items@[i]).tags@.contains(id) by {
                    crate::domain::vault::lemma_removed_tag_gone(before.items@[i].tags@, id);
                }
            }
            vs.mark_dirty();
        },
        None => {},
    }
}

/// The tags with `tag_id` removed when present, else added at the end.
fn toggled_tags(tags: &Vec<u128>, tag_id: u128) -> (r: Vec<u128>)
    ensures
        r@ == (if tags@.contains(tag_id) {
            tags@.filter(crate::domain::vault::not_id(tag_id))
        } else {
            tags@.push(tag_id)
        }),
{
    if crate::domain::vault::contains_id(tags, tag_id) {
        crate::domain::vault::tags_without(tags, tag_id)
    } else {
        let mut t: Vec<u128> = Vec::new();
        let mut i: usize = 0;
        while i < tags.len()
            invariant
                i <= tags@.len(),
                t@ == tags@.take(i as int),
            decreases tags@.len() - i,
        {
            t.push(tags[i]);
            assert(tags@.take(i + 1) =~= tags@.take(i as int).push(tags@[i as int]));
            i = i + 1;
        }
        assert(tags@.take(i as int) =~= tags@);
        t.push(tag_id);
        t
    }
}

/// Adds the tag to the item, or removes it when the item has it, and stamps
/// the item.
pub fn handle_toggle_item_tag(state: &mut AppState, item_id: u128, tag_id: u128)
    requires
        old(state).wf(),
    ensures
        final(state).wf(),
        match old(state).vault_state {
            Some(vs) => match item_position(vs.vault.items@, item_id) {
                Some(p) => final(state).vault_state matches Some(f) && f.is_dirty && f.vault.items@.len()
                    == vs.vault.items@.len() && f.vault.items@[p].tags@ == (if vs.vault.items@[p].tags@.contains(tag_id) {
                    vs.vault.items@[p].tags@.filter(crate::domain::vault::not_id(tag_id))
                } else {
                    vs.vault.items@[p].tags@.push(tag_id)
                }),
                None => final(state).vault_state == old(state).vault_state,
            },
            None => final(state).vault_state is None,
        },
{
    match &mut state.vault_state {
        Some(vs) => {
            match vs.vault.item_index(item_id) {
                Some(p) => {
                    let tags = toggled_tags(&vs.vault.items[p].tags, tag_id);
                    change_item_at(
                        &mut vs.vault,
                        p,
                        ItemUpdates { title: None, content: None, notes: None, tags: Some(tags), favorite: None },
                    );
                    vs.mark_dirty();
                },
                None => {},
            }
        },
        None => {},
    }
}

/// The categories of the category bar: all items, then each kind.
pub open spec fn categories() -> Seq<Option<ItemKind>> {
    seq![None].add(crate::domain::item::all_kinds().map_values(|k: ItemKind| Some(k)))
}

/// The position of a category in the bar; 0 (all items) when absent.
fn category_index(kind: Option<ItemKind>) -> (r: usize)
    ensures
        r < categories().len(),
        categories()[r as int] == kind,
{
    let r: usize = match kind {
        None => 0,
        Some(ItemKind::Generic) => 1,
        Some(ItemKind::CryptoSeed) => 2,
        Some(ItemKind::Password) => 3,
        Some(ItemKind::SecureNote) => 4,
        Some(ItemKind::ApiKey) => 5,
        Some(ItemKind::Totp) => 6,
        Some(ItemKind::Custom) => 7,
    };
    assert(categories().len() == 8);
    r
}

/// The category at a position of the bar.
fn category_at(i: usize) -> (r: Option<ItemKind>)
    requires
        i < 8,
    ensures
        r == categories()[i as int],
{
    assert(categories().len() == 8);
    if i == 0 { None }
    else if i == 1 { Some(ItemKind::Generic) }
    else if i == 2 { Some(ItemKind::CryptoSeed) }
    else if i == 3 { Some(ItemKind::Password) }
    else if i == 4 { Some(ItemKind::SecureNote) }
    else if i == 5 { Some(ItemKind::ApiKey) }
    else if i == 6 { Some(ItemKind::Totp) }
    else { Some(ItemKind::Custom) }
}

/// What moving to the next category guarantees.
pub open spec fn next_category_done(s0: AppState, s1: AppState) -> bool {
    &&& (({ let c = categories(); let i = c.index_of(s0.ui_state.filter.kind); s1.ui_state.filter.kind == c[(i +
        1) % c.len() as int] }))
}

/// Filters by the next category of the bar, wrapping.
pub fn handle_next_category(state: &mut AppState)
    requires
        old(state).wf(),
    ensures
        final(state).wf(),
        next_category_done(*old(state), *final(state)),
{
    let i = category_index(state.ui_state.filter.kind);
    proof {
        assert(categories().no_duplicates());
        let k = categories().index_of(state.ui_state.filter.kind);
        assert(categories()[k] == state.ui_state.filter.kind);
        assert(k == i);
    }
    state.ui_state.filter.kind = category_at((i + 1) % 8);
}

/// What moving to the previous category guarantees.
pub open spec fn prev_category_done(s0: AppState, s1: AppState) -> bool {
    &&& (({ let c = categories(); let i = c.index_of(s0.ui_state.filter.kind); s1.ui_state.filter.kind == c[if i
        == 0 { c.len() - 1 } else { i - 1 }] }))
}

/// Filters by the previous category of the bar, wrapping.
pub fn handle_prev_category(state: &mut AppState)
    requires
        old(state).wf(),
    ensures
        final(state).wf(),
        prev_category_done(*old(state), *final(state)),
{
    let i = category_index(state.ui_state.filter.kind);
    proof {
        assert(categories().no_duplicates());
        let k = categories().index_of(state.ui_state.filter.kind);
        assert(categories()[k] == state.ui_state.filter.kind);
        assert(k == i);
    }
    let prev = if i == 0 { 7 } else { i - 1 };
    state.ui_state.filter.kind = category_at(prev);
}

/// Adds the tag to the tag filter, or removes it when it is there.
pub fn handle_toggle_tag_filter(state: &mut AppState, tag_id: u128)
    requires
        old(state).wf(),
    ensures
        final(state).wf(),
        final(state).ui_state.filter.tags@ == (if old(state).ui_state.filter.tags@.contains(tag_id) {
            old(state).ui_state.filter.tags@.filter(crate::domain::vault::not_id(tag_id))
        } else {
            old(state).ui_state.filter.tags@.push(tag_id)
        }),
{
    if crate::domain::vault::contains_id(&state.ui_state.filter.tags, tag_id) {
        state.ui_state.filter.tags = crate::domain::vault::tags_without(&state.ui_state.filter.tags, tag_id);
    } else {
        state.ui_state.filter.tags.push(tag_id);
    }
}

/// Removes the notification `id`.
pub fn handle_dismiss_notification(state: &mut AppState, id: u128)
    requires
        old(state).wf(),
    ensures
        final(state).wf(),
        forall|i: int| 0 <= i < final(state).ui_state.notifications@.len() ==> (
        #[trigger] final(state).ui_state.notifications@[i]).id != id,
        final(state).ui_state.notifications@.len() <= old(state).ui_state.notifications@.len(),
{
    let mut i: usize = 0;
    while i < state.ui_state.notifications.len()
        invariant
            old(state).wf(),
            state.wf(),
            i <= state.ui_state.notifications@.len(),
            state.ui_state.notifications@.len() <= old(state).ui_state.notifications@.len(),
            forall|k: int| 0 <= k < i ==> (#[trigger] state.ui_state.notifications@[k]).id != id,
        decreases state.ui_state.notifications@.len() - i,
    {
        if state.ui_state.notifications[i].id == id {
            state.ui_state.notifications.remove(i);
        } else {
            i = i + 1;
        }
    }
}

/// Exports the vault: in the clear (with a warning) or encrypted with the
/// vault's key.
pub fn handle_export_vault(state: &mut AppState, format: crate::app::message::ExportFormat, path: String) -> (r: Effect)
    requires
        old(state).wf(),
    ensures
        final(state).wf(),
        final(state).vault_state == old(state).vault_state,
        match old(state).vault_state {
            Some(vs) => r matches Effect::ExportVault { path: p, encrypted, key, salt, has_keyfile, .. } && p == path
                && encrypted == (format == crate::app::message::ExportFormat::EncryptedJson) && key == (if encrypted {
                Some(vs.encryption_key)
            } else {
                None
            }) && salt == (if encrypted { Some(vs.salt) } else { None }) && has_keyfile == vs.has_keyfile,
            None => r is Nothing,
        },
{
    let encrypted = format == crate::app::message::ExportFormat::EncryptedJson;
    if state.vault_state.is_none() {
        state.ui_state.notify("No vault open to export", NotificationLevel::Warning);
        return Effect::none();
    }
    if !encrypted {
        state.ui_state.notify("Warning: JSON export is unencrypted plaintext", NotificationLevel::Warning);
    }
    match &state.vault_state {
        Some(vs) => Effect::ExportVault {
            path,
            vault: vs.vault.clone(),
            encrypted,
            key: if encrypted { Some(vs.encryption_key) } else { None },
            salt: if encrypted { Some(vs.salt) } else { None },
            has_keyfile: vs.has_keyfile,
        },
        None => Effect::none(),
    }
}

/// The clock ticked: expired notifications go, the clipboard is cleared
/// when its time has come, and an idle vault locks when auto-lock is on.
pub fn handle_tick(state: &mut AppState) -> (r: Effect)
    requires
        old(state).wf(),
    ensures
        final(state).wf(),
        old(state).clipboard_state.clear_at is None && !old(state).config.auto_lock_enabled ==> r is Nothing
            && final(state).vault_state == old(state).vault_state,
        r is ClearClipboard ==> !final(state).clipboard_state.has_secure_content,
        final(state).vault_state is None || final(state).vault_state == old(state).vault_state,
{
    state.ui_state.cleanup_notifications();
    let clipboard_due = state.clipboard_state.should_clear();
    let idle_secs = match &state.vault_state {
        Some(vs) => Some(crate::clock::secs_since(&vs.last_activity)),
        None => None,
    };
    tick_with(state, clipboard_due, idle_secs)
}

/// What a tick does once the clock was read: a clipboard clear that is due
/// happens first; otherwise, with auto-lock on, an open vault idle for the
/// timeout or longer is locked (after saving, if it has changes).
pub fn tick_with(state: &mut AppState, clipboard_due: bool, idle_secs: Option<u64>) -> (r: Effect)
    requires
        old(state).wf(),
    ensures
        final(state).wf(),
        if clipboard_due {
            &&& r is ClearClipboard
            &&& !final(state).clipboard_state.has_secure_content
            &&& final(state).clipboard_state.clear_at is None
            &&& final(state).vault_state == old(state).vault_state
        } else if old(state).config.auto_lock_enabled && old(state).vault_state is Some && idle_secs is Some
            && idle_secs->0 >= old(state).config.auto_lock_timeout_secs {
            let vs = old(state).vault_state->0;
            if vs.is_dirty {
                &&& final(state).pending_lock
                &&& final(state).vault_state == old(state).vault_state
                &&& r is WriteVaultFile
            } else {
                &&& r is Nothing
                &&& final(state).vault_state is None
                &&& final(state).mode == AppMode::Locked
                &&& final(state).screen == Screen::Login
            }
        } else {
            r is Nothing && *final(state) == *old(state)
        },
{
    if clipboard_due {
        state.clipboard_state.clear();
        return Effect::ClearClipboard;
    }
    if state.config.auto_lock_enabled && state.vault_state.is_some() {
        match idle_secs {
            Some(s) => {
                if s >= state.config.auto_lock_timeout_secs {
                    return handle_lock_vault(state);
                }
            },
            None => {},
        }
    }
    Effect::none()
}

/// Quits, unless the vault has unsaved changes (then warns).
pub fn handle_quit(state: &mut AppState) -> (r: Effect)
    requires
        old(state).wf(),
    ensures
        final(state).wf(),
        old(state).is_dirty_spec() ==> r is Nothing && final(state).should_quit == old(state).should_quit,
        !old(state).is_dirty_spec() ==> r is Exit && final(state).should_quit,
{
    if state.is_dirty() {
        state.ui_state.notify("Unsaved changes! Press Ctrl+Q again to force quit", NotificationLevel::Warning);
        Effect::none()
    } else {
        state.should_quit = true;
        Effect::Exit
    }
}

/// Opens the edit form of the selected item with the focus on its notes.
pub fn handle_edit_notes(state: &mut AppState)
    requires
        old(state).wf(),
    ensures
        final(state).wf(),
        final(state).vault_state == old(state).vault_state,
{
    let window = match state.selected_item() {
        Some(item) => FloatingWindow::edit_item_form(item),
        None => {
            return;
        },
    };
    match window {
        FloatingWindow::EditItem { item_id, mut form } => {
            match crate::ui::widgets::edit_form::find_field(&form.fields, FormField::Notes) {
                Some(pos) => focus_form_field(&mut form, pos),
                None => {},
            }
            state.ui_state.floating_window = Some(FloatingWindow::EditItem { item_id, form });
        },
        other => {},
    }
}

/// Whether a message can be handled in any well-formed state: a window it
/// opens is itself well formed.
pub open spec fn message_ok(message: &Message) -> bool {
    match message {
        Message::OpenFloatingWindow(w) => window_ok(Some(*w)),
        _ => true,
    }
}

/// What handling `message` in state `s0` guarantees of the next state `s1`
/// and of the outside work `r` asked for.
pub open spec fn updated(s0: AppState, s1: AppState, message: Message, r: Effect) -> bool {
    &&& message matches Message::Navigate(s) ==> s1.screen == s
    &&& message matches Message::FocusPane(p) ==> s1.ui_state.focused_pane == p
    &&& message is ToggleContentReveal ==> s1.ui_state.content_revealed == !s0.ui_state.content_revealed
    &&& message is ForceQuit ==> s1.should_quit && r is Exit
    &&& message matches Message::UpdateConfig(u) ==> s1.config == config_updated(s0.config, u) && r is WriteConfig
    &&& message is ClearFilters ==> !s1.ui_state.filter.active()
    &&& message matches Message::SetKindFilter(k) ==> s1.ui_state.filter.kind == k
    &&& message is ToggleFavoritesFilter ==> s1.ui_state.filter.favorites_only == !s0.ui_state.filter.favorites_only
    &&& message is CloseFloatingWindow ==> s1.ui_state.floating_window is None
    &&& message is ClearClipboard ==> !s1.clipboard_state.has_secure_content && r is ClearClipboard
    &&& message is Noop ==> r is Nothing && s1 == s0
    &&& message is LockVault ==> match s0.vault_state {
        None => r is Nothing && s1.vault_state is None,
        Some(vs) => if vs.is_dirty {
            &&& s1.pending_lock
            &&& s1.vault_state matches Some(f) && f.vault == vs.vault && f.is_dirty && f.vault_path == vs.vault_path
                && f.encryption_key == vs.encryption_key && f.salt == vs.salt && f.has_keyfile == vs.has_keyfile
            &&& crate::app::security::saves(r, vs)
            &&& s1.mode == s0.mode
            &&& s1.screen == s0.screen
        } else {
            r is Nothing && s1.vault_state is None && s1.mode == AppMode::Locked && s1.screen == Screen::Login
        },
    }
    &&& message is SaveVault ==> (s0.vault_state is Some <==> r is WriteVaultFile)
    &&& message is Tick ==> (s0.clipboard_state.clear_at is None && !s0.config.auto_lock_enabled ==> r is Nothing
        && s1.vault_state == s0.vault_state)
    &&& message matches Message::DeleteItem(id) ==> r is Nothing && s1.ui_state.floating_window == Some(
        FloatingWindow::ConfirmDelete { item_id: id },
    )
    &&& message matches Message::ConfirmDeleteItem(id) ==> r is Nothing && s1.ui_state.floating_window is None && (
    s0.vault_state matches Some(vs) ==> (item_position(vs.vault.items@, id) matches Some(p) ==> (
    s1.vault_state matches Some(f) && f.vault.items@ == vs.vault.items@.remove(p) && f.is_dirty)))
    &&& message matches Message::ToggleFavorite(id) ==> r is Nothing && (s0.vault_state matches Some(vs) ==> (
    item_position(vs.vault.items@, id) matches Some(p) ==> (s1.vault_state matches Some(f)
        && f.vault.items@[p].favorite == !vs.vault.items@[p].favorite && f.is_dirty)))
    &&& message is Undo ==> r is Nothing && (s0.vault_state matches Some(vs) ==> (vs.undo_stack@.len() > 0 ==> (
    s1.vault_state matches Some(f) && change_undone(vs, f))))
    &&& message is Redo ==> r is Nothing && (s0.vault_state matches Some(vs) ==> (vs.redo_stack@.len() > 0 ==> (
    s1.vault_state matches Some(f) && change_redone(vs, f))))
    &&& message matches Message::SelectItem(id) ==> r is Nothing && (s0.vault_state matches Some(vs) ==> (
    item_position(vs.vault.items@, id) is Some ==> (s1.vault_state matches Some(f) && f.selected_item_id == Some(id))))
    &&& message matches Message::OpenFloatingWindow(w) ==> r is Nothing && s1.ui_state.floating_window == Some(w)
    &&& message matches Message::CreateItem { kind } ==> r is Nothing && match s0.vault_state {
        Some(vs) => {
            &&& s1.vault_state matches Some(f) && f.vault.items@.len() == vs.vault.items@.len() + 1
                && f.vault.items@.drop_last() == vs.vault.items@ && f.vault.items@.last().title@ == "New Item"@
                && f.vault.items@.last().kind == kind && f.selected_item_id == Some(f.vault.items@.last().id)
                && f.is_dirty
            &&& s1.ui_state.floating_window matches Some(FloatingWindow::EditItem { item_id, .. })
                && s1.vault_state matches Some(f2) && item_id == f2.vault.items@.last().id
        },
        None => s1 == s0,
    }
    &&& message matches Message::UpdateItem { id, updates } ==> r is Nothing && match s0.vault_state {
        Some(vs) => match item_position(vs.vault.items@, id) {
            Some(p) => s1.vault_state matches Some(f) && item_changed(vs, f, p, updates),
            None => s1.vault_state matches Some(f) && f.vault == vs.vault,
        },
        None => s1.vault_state is None,
    }
    &&& message matches Message::DuplicateItem(id) ==> r is Nothing && match s0.vault_state {
        Some(vs) => match item_position(vs.vault.items@, id) {
            Some(p) => s1.vault_state matches Some(f) && {
                let copy = f.vault.items@.last();
                &&& f.vault.items@.drop_last() == vs.vault.items@
                &&& copy.title@ == vs.vault.items@[p].title@ + " (Copy)"@
                &&& copy.kind == vs.vault.items@[p].kind
                &&& crate::domain::item::content_same(copy.content, vs.vault.items@[p].content)
                &&& f.selected_item_id == Some(copy.id)
                &&& f.is_dirty
            },
            None => s1.vault_state matches Some(f) && f.vault == vs.vault,
        },
        None => s1.vault_state is None,
    }
    &&& message is Quit ==> if s0.is_dirty_spec() {
        r is Nothing && s1.should_quit == s0.should_quit
    } else {
        r is Exit && s1.should_quit
    }
    &&& message matches Message::ExportVault { path, format } ==> match s0.vault_state {
        Some(vs) => r matches Effect::ExportVault { path: p, encrypted, key, salt, has_keyfile, .. } && p == path
            && encrypted == (format == crate::app::message::ExportFormat::EncryptedJson) && key == (if encrypted {
            Some(vs.encryption_key)
        } else {
            None
        }) && salt == (if encrypted { Some(vs.salt) } else { None }) && has_keyfile == vs.has_keyfile,
        None => r is Nothing,
    }
    &&& message matches Message::CreateTag(tag) ==> r is Nothing && match s0.vault_state {
        Some(vs) => s1.vault_state matches Some(f) && f.vault.tags@ == vs.vault.tags@.push(tag) && f.is_dirty,
        None => s1.vault_state is None,
    }
    &&& message matches Message::DeleteTag(id) ==> r is Nothing && match s0.vault_state {
        Some(vs) => s1.vault_state matches Some(f) && f.is_dirty && f.vault.items@.len() == vs.vault.items@.len()
            && forall|i: int| 0 <= i < f.vault.items@.len() ==> !(#[trigger] f.vault.items@[i]).tags@.contains(id),
        None => s1.vault_state is None,
    }
    &&& message matches Message::ToggleItemTag { item_id, tag_id } ==> r is Nothing && match s0.vault_state {
        Some(vs) => match item_position(vs.vault.items@, item_id) {
            Some(p) => s1.vault_state matches Some(f) && f.is_dirty && f.vault.items@.len() == vs.vault.items@.len()
                && f.vault.items@[p].tags@ == (if vs.vault.items@[p].tags@.contains(tag_id) {
                vs.vault.items@[p].tags@.filter(crate::domain::vault::not_id(tag_id))
            } else {
                vs.vault.items@[p].tags@.push(tag_id)
            }),
            None => s1.vault_state matches Some(f) && f.vault == vs.vault,
        },
        None => s1.vault_state is None,
    }
    &&& message matches Message::ToggleTagFilter(tag_id) ==> r is Nothing && s1.ui_state.filter.tags@ == (
    if s0.ui_state.filter.tags@.contains(tag_id) {
        s0.ui_state.filter.tags@.filter(crate::domain::vault::not_id(tag_id))
    } else {
        s0.ui_state.filter.tags@.push(tag_id)
    })
    &&& message is OpenSearch ==> (s1.ui_state.floating_window matches Some(FloatingWindow::Search { state: ss })
        && ss.query@.len() == 0) && s1.ui_state.focused_pane == Pane::Search
    &&& message is CloseSearch ==> s1.ui_state.floating_window is None && s1.ui_state.focused_pane == Pane::List
    &&& message matches Message::UpdateSearchQuery(query) ==> (s0.ui_state.floating_window matches Some(
        FloatingWindow::Search { .. },
    ) ==> (s1.ui_state.floating_window matches Some(FloatingWindow::Search { state: ss }) && ss.query@ == query@))
    &&& message matches Message::CopyToClipboard { content, is_sensitive } ==> (is_sensitive ==> (
    s1.clipboard_state.has_secure_content && if s0.config.clipboard_timeout_secs > 0 {
        r matches Effect::Batch(v) && v@.len() == 2 && (v@[0] matches Effect::SetClipboard { content: c, is_sensitive: s }
            && c == content && s) && (v@[1] matches Effect::ScheduleClipboardClear { delay_secs } && delay_secs
            == s0.config.clipboard_timeout_secs)
    } else {
        s1.clipboard_state.clear_at is None && (r matches Effect::SetClipboard { content: c, is_sensitive: s }
            && c == content && s)
    })) && (!is_sensitive ==> (r matches Effect::SetClipboard { content: c, is_sensitive: s } && c == content
        && !s))
    &&& message matches Message::InputChar(c) ==> r is Nothing && exists|t: std::time::Instant| #[trigger]
        input_char_done(touched(s0, t), s1, c)
    &&& message is InputBackspace ==> r is Nothing && exists|t: std::time::Instant| #[trigger]
        input_backspace_done(touched(s0, t), s1)
    &&& message is InputDelete ==> r is Nothing && exists|t: std::time::Instant| #[trigger]
        input_delete_done(touched(s0, t), s1)
    &&& message is InputLeft ==> r is Nothing && exists|t: std::time::Instant| #[trigger]
        input_left_done(touched(s0, t), s1)
    &&& message is InputRight ==> r is Nothing && exists|t: std::time::Instant| #[trigger]
        input_right_done(touched(s0, t), s1)
    &&& message is InputHome ==> r is Nothing && exists|t: std::time::Instant| #[trigger]
        input_home_done(touched(s0, t), s1)
    &&& message is InputEnd ==> r is Nothing && exists|t: std::time::Instant| #[trigger]
        input_end_done(touched(s0, t), s1)
    &&& message is InputCancel ==> r is Nothing && exists|t: std::time::Instant| #[trigger]
        input_cancel_done(touched(s0, t), s1)
    &&& message is InputSubmit ==> exists|t: std::time::Instant| #[trigger] input_submit_done(touched(s0, t), s1, r)
    &&& message is FormSubmit ==> exists|t: std::time::Instant| #[trigger] form_submit_done(touched(s0, t), s1, r)
    &&& message is SelectNextItem ==> r is Nothing && exists|t: std::time::Instant| #[trigger]
        select_next_item_done(touched(s0, t), s1)
    &&& message is SelectPrevItem ==> r is Nothing && exists|t: std::time::Instant| #[trigger]
        select_prev_item_done(touched(s0, t), s1)
    &&& message is ExecuteSearch ==> r is Nothing && exists|t: std::time::Instant| #[trigger]
        execute_search_done(touched(s0, t), s1)
    &&& message matches Message::SelectSearchResult(index) ==> r is Nothing && exists|t: std::time::Instant|
        #[trigger] select_search_result_done(touched(s0, t), s1, index)
    &&& message is SearchConfirm ==> r is Nothing && exists|t: std::time::Instant| #[trigger]
        search_confirm_done(touched(s0, t), s1)
    &&& message is KindSelectorNext ==> r is Nothing && exists|t: std::time::Instant| #[trigger]
        kind_selector_next_done(touched(s0, t), s1)
    &&& message is KindSelectorPrev ==> r is Nothing && exists|t: std::time::Instant| #[trigger]
        kind_selector_prev_done(touched(s0, t), s1)
    &&& message matches Message::KindSelectorSelect(index) ==> r is Nothing && exists|t: std::time::Instant|
        #[trigger] kind_selector_select_done(touched(s0, t), s1, index)
    &&& message is KindSelectorConfirm ==> r is Nothing && exists|t: std::time::Instant| #[trigger]
        kind_selector_confirm_done(touched(s0, t), s1)
    &&& message matches Message::Scroll(direction) ==> r is Nothing && exists|t: std::time::Instant| #[trigger]
        scroll_done(touched(s0, t), s1, direction)
    &&& message is NextCategory ==> r is Nothing && exists|t: std::time::Instant| #[trigger]
        next_category_done(touched(s0, t), s1)
    &&& message is PrevCategory ==> r is Nothing && exists|t: std::time::Instant| #[trigger]
        prev_category_done(touched(s0, t), s1)
    &&& message is CloseVault ==> r is Nothing && exists|t: std::time::Instant| #[trigger]
        close_vault_done(touched(s0, t), s1)
    &&& message is StartCreateVault ==> r is Nothing && exists|t: std::time::Instant| #[trigger]
        start_create_vault_done(touched(s0, t), s1)
    &&& message is EnterPasswordMode ==> r is Nothing && exists|t: std::time::Instant| #[trigger]
        enter_password_mode_done(touched(s0, t), s1)
    &&& message is LoginPrevStep ==> r is Nothing && exists|t: std::time::Instant| #[trigger]
        login_prev_step_done(touched(s0, t), s1)
    &&& message is CancelInput ==> r is Nothing && exists|t: std::time::Instant| #[trigger]
        cancel_input_done(touched(s0, t), s1)
    &&& message is DeleteSelectedVault ==> r is Nothing && exists|t: std::time::Instant| #[trigger]
        delete_selected_vault_done(touched(s0, t), s1)
    &&& message matches Message::ConfirmDeleteVault(index) ==> exists|t: std::time::Instant| #[trigger]
        confirm_delete_vault_done(touched(s0, t), s1, index, r)
    &&& message is LoginSelectNext ==> r is Nothing && exists|t: std::time::Instant| #[trigger]
        login_select_next_done(touched(s0, t), s1)
    &&& message matches Message::UnlockVault { password, keyfile } ==> (s0.login_screen.selected_vault
        < s0.registry.entries@.len() ==> (r matches Effect::ReadVaultFile { path, password: p, keyfile_path } && path
        == s0.registry.entries@[s0.login_screen.selected_vault as int].path && p == password && keyfile_path
        == keyfile))
}

/// `s` with the open vault's last activity at `t`.
pub open spec fn touched(s: AppState, t: std::time::Instant) -> AppState {
    match s.vault_state {
        Some(vs) => AppState { vault_state: Some(VaultState { last_activity: t, ..vs }), ..s },
        None => s,
    }
}

/// The last activity of the open vault of `s` (any instant when none is open).
pub open spec fn activity_of(s: AppState) -> std::time::Instant {
    match s.vault_state {
        Some(vs) => vs.last_activity,
        None => vstd::pervasive::arbitrary(),
    }
}

/// Records activity of the user on the open vault, if any.
fn record_activity(state: &mut AppState)
    requires
        old(state).wf(),
    ensures
        final(state).wf(),
        *final(state) == touched(*old(state), activity_of(*final(state))),
{
    match &mut state.vault_state {
        Some(vs) => vs.touch(),
        None => {},
    }
}

/// Handles the messages on editing and submitting the input that has the focus (the user's activity is recorded
/// first).
#[verifier::spinoff_prover]
#[verifier::rlimit(80)]
fn update_input(state: &mut AppState, message: Message) -> (r: Effect)
    requires
        old(state).wf(),
        message is InputChar || message is InputBackspace || message is InputDelete || message is InputLeft
        || message is InputRight || message is InputHome || message is InputEnd || message is InputCancel
        || message is InputSubmit || message is FormSubmit,
    ensures
        final(state).wf(),
        updated(*old(state), *final(state), message, r),
{
    let ghost s0 = *state;
    record_activity(state);
    let ghost mid = *state;
    let ghost t = activity_of(mid);
    assert(mid == touched(s0, t));
    match message {
        Message::InputChar(c) => {
            handle_input_char(state, c);
            assert(input_char_done(mid, *state, c));
            Effect::none()
        },
        Message::InputBackspace => {
            handle_input_backspace(state);
            assert(input_backspace_done(mid, *state));
            Effect::none()
        },
        Message::InputDelete => {
            handle_input_delete(state);
            assert(input_delete_done(mid, *state));
            Effect::none()
        },
        Message::InputLeft => {
            handle_input_left(state);
            assert(input_left_done(mid, *state));
            Effect::none()
        },
        Message::InputRight => {
            handle_input_right(state);
            assert(input_right_done(mid, *state));
            Effect::none()
        },
        Message::InputHome => {
            handle_input_home(state);
            assert(input_home_done(mid, *state));
            Effect::none()
        },
        Message::InputEnd => {
            handle_input_end(state);
            assert(input_end_done(mid, *state));
            Effect::none()
        },
        Message::InputCancel => {
            handle_input_cancel(state);
            assert(input_cancel_done(mid, *state));
            Effect::none()
        },
        Message::InputSubmit => {
            let r = handle_input_submit(state);
            assert(input_submit_done(mid, *state, r));
            r
        },
        Message::FormSubmit => {
            let r = handle_form_submit(state);
            assert(form_submit_done(mid, *state, r));
            r
        },
        _ => Effect::none(),
    }
}

/// Handles the messages on moving through the list, the search results, the kind selector and the categories (the user's activity is recorded
/// first).
#[verifier::spinoff_prover]
#[verifier::rlimit(80)]
fn update_navigation(state: &mut AppState, message: Message) -> (r: Effect)
    requires
        old(state).wf(),
        message is SelectNextItem || message is SelectPrevItem || message is ExecuteSearch
        || message is SelectSearchResult || message is SearchConfirm || message is KindSelectorNext
        || message is KindSelectorPrev || message is KindSelectorSelect || message is KindSelectorConfirm
        || message is Scroll || message is NextCategory || message is PrevCategory,
    ensures
        final(state).wf(),
        updated(*old(state), *final(state), message, r),
{
    let ghost s0 = *state;
    record_activity(state);
    let ghost mid = *state;
    let ghost t = activity_of(mid);
    assert(mid == touched(s0, t));
    match message {
        Message::SelectNextItem => {
            handle_select_next_item(state);
            assert(select_next_item_done(mid, *state));
            Effect::none()
        },
        Message::SelectPrevItem => {
            handle_select_prev_item(state);
            assert(select_prev_item_done(mid, *state));
            Effect::none()
        },
        Message::ExecuteSearch => {
            handle_execute_search(state);
            assert(execute_search_done(mid, *state));
            Effect::none()
        },
        Message::SelectSearchResult(index) => {
            handle_select_search_result(state, index);
            assert(select_search_result_done(mid, *state, index));
            Effect::none()
        },
        Message::SearchConfirm => {
            handle_search_confirm(state);
            assert(search_confirm_done(mid, *state));
            Effect::none()
        },
        Message::KindSelectorNext => {
            handle_kind_selector_next(state);
            assert(kind_selector_next_done(mid, *state));
            Effect::none()
        },
        Message::KindSelectorPrev => {
            handle_kind_selector_prev(state);
            assert(kind_selector_prev_done(mid, *state));
            Effect::none()
        },
        Message::KindSelectorSelect(index) => {
            handle_kind_selector_select(state, index);
            assert(kind_selector_select_done(mid, *state, index));
            Effect::none()
        },
        Message::KindSelectorConfirm => {
            handle_kind_selector_confirm(state);
            assert(kind_selector_confirm_done(mid, *state));
            Effect::none()
        },
        Message::Scroll(direction) => {
            handle_scroll(state, direction);
            assert(scroll_done(mid, *state, direction));
            Effect::none()
        },
        Message::NextCategory => {
            handle_next_category(state);
            assert(next_category_done(mid, *state));
            Effect::none()
        },
        Message::PrevCategory => {
            handle_prev_category(state);
            assert(prev_category_done(mid, *state));
            Effect::none()
        },
        _ => Effect::none(),
    }
}

/// Handles the messages on the login screen and closing the vault (the user's activity is recorded
/// first).
#[verifier::spinoff_prover]
#[verifier::rlimit(80)]
fn update_login(state: &mut AppState, message: Message) -> (r: Effect)
    requires
        old(state).wf(),
        message is CloseVault || message is StartCreateVault || message is EnterPasswordMode
        || message is LoginPrevStep || message is CancelInput || message is DeleteSelectedVault
        || message is ConfirmDeleteVault || message is LoginSelectNext,
    ensures
        final(state).wf(),
        updated(*old(state), *final(state), message, r),
{
    let ghost s0 = *state;
    record_activity(state);
    let ghost mid = *state;
    let ghost t = activity_of(mid);
    assert(mid == touched(s0, t));
    match message {
        Message::CloseVault => {
            handle_close_vault(state);
            assert(close_vault_done(mid, *state));
            Effect::none()
        },
        Message::StartCreateVault => {
            handle_start_create_vault(state);
            assert(start_create_vault_done(mid, *state));
            Effect::none()
        },
        Message::EnterPasswordMode => {
            handle_enter_password_mode(state);
            assert(enter_password_mode_done(mid, *state));
            Effect::none()
        },
        Message::LoginPrevStep => {
            handle_login_prev_step(state);
            assert(login_prev_step_done(mid, *state));
            Effect::none()
        },
        Message::CancelInput => {
            handle_cancel_input(state);
            assert(cancel_input_done(mid, *state));
            Effect::none()
        },
        Message::DeleteSelectedVault => {
            handle_delete_selected_vault(state);
            assert(delete_selected_vault_done(mid, *state));
            Effect::none()
        },
        Message::ConfirmDeleteVault(index) => {
            let r = handle_confirm_delete_vault(state, index);
            assert(confirm_delete_vault_done(mid, *state, index, r));
            r
        },
        Message::LoginSelectNext => {
            handle_login_select_next(state);
            assert(login_select_next_done(mid, *state));
            Effect::none()
        },
        _ => Effect::none(),
    }
}

/// Whether a message creates, changes or copies items, or works on tags.
pub open spec fn item_or_tag_message(message: Message) -> bool {
    ||| message is CreateItem
    ||| message is UpdateItem
    ||| message is DuplicateItem
    ||| message is CreateTag
    ||| message is DeleteTag
    ||| message is ToggleItemTag
    ||| message is ToggleTagFilter
}

/// Whether a message creates, changes or copies items, or works on tags.
fn is_item_or_tag_message(message: &Message) -> (r: bool)
    ensures
        r == item_or_tag_message(*message),
{
    match message {
        Message::CreateItem { .. } | Message::UpdateItem { .. } | Message::DuplicateItem(_) | Message::CreateTag(_)
        | Message::DeleteTag(_) | Message::ToggleItemTag { .. } | Message::ToggleTagFilter(_) => true,
        _ => false,
    }
}

/// Handles the messages on items and tags (the user's activity is recorded
/// first).
#[verifier::rlimit(60)]
fn update_items_and_tags(state: &mut AppState, message: Message) -> (r: Effect)
    requires
        old(state).wf(),
        item_or_tag_message(message),
    ensures
        final(state).wf(),
        updated(*old(state), *final(state), message, r),
{
    match &mut state.vault_state {
        Some(vs) => vs.touch(),
        None => {},
    }
    match message {
        Message::CreateItem { kind } => handle_create_item(state, kind),
        Message::UpdateItem { id, updates } => handle_update_item(state, id, updates),
        Message::DuplicateItem(id) => handle_duplicate_item(state, id),
        Message::CreateTag(tag) => handle_create_tag(state, tag),
        Message::DeleteTag(id) => handle_delete_tag(state, id),
        Message::ToggleItemTag { item_id, tag_id } => handle_toggle_item_tag(state, item_id, tag_id),
        Message::ToggleTagFilter(tag_id) => handle_toggle_tag_filter(state, tag_id),
        _ => {},
    }
    Effect::none()
}

/// Whether a message is about the session (unlocking, locking, saving), the
/// selection, the item list or the search window.
pub open spec fn session_message(message: Message) -> bool {
    message is Navigate
    || message is FocusPane
    || message is UnlockVault
    || message is LockVault
    || message is SaveVault
    || message is StartPasswordRecovery
    || message is LoginSelectPrev
    || message is LoginSelectVault
    || message is SelectItem
    || message is DeleteItem
    || message is ConfirmDeleteItem
    || message is ToggleFavorite
    || message is Undo
    || message is Redo
    || message is OpenSearch
    || message is CloseSearch
    || message is UpdateSearchQuery
    || message is SearchNextResult
    || message is SearchPrevResult
}

/// Whether a message is about the session, the selection, the item list or
/// the search window.
fn is_session_message(message: &Message) -> (r: bool)
    ensures
        r == session_message(*message),
{
    match message {
        Message::Navigate(_) | Message::FocusPane(_) | Message::UnlockVault { .. } | Message::LockVault
        | Message::SaveVault | Message::StartPasswordRecovery | Message::LoginSelectPrev
        | Message::LoginSelectVault(_) | Message::SelectItem(_) | Message::DeleteItem(_)
        | Message::ConfirmDeleteItem(_) | Message::ToggleFavorite(_) | Message::Undo | Message::Redo
        | Message::OpenSearch | Message::CloseSearch | Message::UpdateSearchQuery(_)
        | Message::SearchNextResult | Message::SearchPrevResult => true,
        _ => false,
    }
}

/// Handles the messages on the session (unlocking, locking, saving), the
/// selection, the item list and the search window.
#[verifier::spinoff_prover]
#[verifier::rlimit(100)]
fn update_session(state: &mut AppState, message: Message) -> (r: Effect)
    requires
        old(state).wf(),
        message_ok(&message),
        session_message(message),
        !item_or_tag_message(message),
        !(message is InputChar || message is InputBackspace || message is InputDelete || message is InputLeft || message is InputRight || message is InputHome || message is InputEnd || message is InputCancel || message is InputSubmit || message is FormSubmit || message is SelectNextItem || message is SelectPrevItem || message is ExecuteSearch || message is SelectSearchResult || message is SearchConfirm || message is KindSelectorNext || message is KindSelectorPrev || message is KindSelectorSelect || message is KindSelectorConfirm || message is Scroll || message is NextCategory || message is PrevCategory || message is CloseVault || message is StartCreateVault || message is EnterPasswordMode || message is LoginPrevStep || message is CancelInput || message is DeleteSelectedVault || message is ConfirmDeleteVault || message is LoginSelectNext),
    ensures
        final(state).wf(),
        updated(*old(state), *final(state), message, r),
{
    match message {
        Message::Tick | Message::Noop => {},
        _ => {
            match &mut state.vault_state {
                Some(vs) => vs.touch(),
                None => {},
            }
        },
    }
    match message {
        Message::InputChar(_) | Message::InputBackspace | Message::InputDelete | Message::InputLeft
        | Message::InputRight
        | Message::InputHome | Message::InputEnd | Message::InputCancel | Message::InputSubmit | Message::FormSubmit
        | Message::SelectNextItem | Message::SelectPrevItem | Message::ExecuteSearch | Message::SelectSearchResult(_)
        | Message::SearchConfirm | Message::KindSelectorNext | Message::KindSelectorPrev | Message::KindSelectorSelect(_)
        | Message::KindSelectorConfirm | Message::Scroll(_) | Message::NextCategory | Message::PrevCategory
        | Message::CloseVault | Message::StartCreateVault | Message::EnterPasswordMode | Message::LoginPrevStep
        | Message::CancelInput | Message::DeleteSelectedVault | Message::ConfirmDeleteVault(_) | Message::LoginSelectNext
        | Message::CreateItem { .. } | Message::UpdateItem { .. } | Message::DuplicateItem(_) | Message::CreateTag(_)
        | Message::DeleteTag(_) | Message::ToggleItemTag { .. } | Message::ToggleTagFilter(_) => Effect::none(),
        Message::Navigate(screen) => {
            handle_navigate(state, screen);
            Effect::none()
        },
        Message::FocusPane(pane) => {
            state.ui_state.focused_pane = pane;
            if pane == Pane::Detail {
                state.ui_state.detail_scroll_offset = 0;
            }
            Effect::none()
        },
        Message::UnlockVault { password, keyfile } => handle_unlock_vault(state, password, keyfile),
        Message::LockVault => handle_lock_vault(state),
        Message::SaveVault => handle_save_vault(state),
        Message::StartPasswordRecovery => handle_start_password_recovery(state),
        Message::LoginSelectPrev => {
            let n = state.registry.entries.len();
            state.login_screen.select_prev(n);
            Effect::none()
        },
        Message::LoginSelectVault(index) => {
            if index < state.registry.entries.len() {
                state.login_screen.selected_vault = index;
                state.login_screen.error_message = None;
            }
            Effect::none()
        },
        Message::SelectItem(id) => {
            handle_select_item(state, id);
            Effect::none()
        },
        Message::DeleteItem(id) => {
            state.ui_state.floating_window = Some(FloatingWindow::ConfirmDelete { item_id: id });
            Effect::none()
        },
        Message::ConfirmDeleteItem(id) => {
            handle_confirm_delete_item(state, id);
            Effect::none()
        },
        Message::ToggleFavorite(id) => {
            handle_toggle_favorite(state, id);
            Effect::none()
        },
        Message::Undo => {
            handle_undo(state);
            Effect::none()
        },
        Message::Redo => {
            handle_redo(state);
            Effect::none()
        },
        Message::OpenSearch => {
            handle_open_search(state);
            Effect::none()
        },
        Message::CloseSearch => {
            handle_close_search(state);
            Effect::none()
        },
        Message::UpdateSearchQuery(query) => {
            handle_update_search_query(state, query);
            Effect::none()
        },
        Message::SearchNextResult => {
            match &mut state.ui_state.floating_window {
                Some(FloatingWindow::Search { state: ss }) => ss.next_result(),
                _ => {},
            }
            Effect::none()
        },
        Message::SearchPrevResult => {
            match &mut state.ui_state.floating_window {
                Some(FloatingWindow::Search { state: ss }) => ss.prev_result(),
                _ => {},
            }
            Effect::none()
        },
        Message::CopyToClipboard { content, is_sensitive } => handle_copy_to_clipboard(state, content, is_sensitive),
        Message::CopyCurrentItem => handle_copy_current_item(state),
        Message::CopyField(_) | Message::EditField(_) | Message::FocusDetailNotes => Effect::none(),
        Message::ClearClipboard => {
            state.clipboard_state.clear();
            Effect::ClearClipboard
        },
        Message::ToggleContentReveal => {
            state.ui_state.content_revealed = !state.ui_state.content_revealed;
            Effect::none()
        },
        Message::OpenFloatingWindow(window) => {
            state.ui_state.floating_window = Some(window);
            Effect::none()
        },
        Message::CloseFloatingWindow => {
            state.ui_state.close_floating_window();
            Effect::none()
        },
        Message::ShowNotification { message, level } => {
            state.ui_state.notify(message.as_str(), level);
            Effect::none()
        },
        Message::DismissNotification(id) => {
            handle_dismiss_notification(state, id);
            Effect::none()
        },
        Message::InputUp | Message::InputDown => Effect::none(),
        Message::FormNextField => {
            handle_form_next_field(state);
            Effect::none()
        },
        Message::FormPrevField => {
            handle_form_prev_field(state);
            Effect::none()
        },
        Message::FormFocusField(index) => {
            handle_form_focus_field(state, index);
            Effect::none()
        },
        Message::EditNotes => {
            handle_edit_notes(state);
            Effect::none()
        },
        Message::SetKindFilter(kind) => {
            state.ui_state.filter.kind = kind;
            Effect::none()
        },
        Message::ToggleFavoritesFilter => {
            state.ui_state.filter.favorites_only = !state.ui_state.filter.favorites_only;
            Effect::none()
        },
        Message::ClearFilters => {
            state.ui_state.filter.clear();
            Effect::none()
        },
        Message::UpdateConfig(config_update) => {
            apply_config_update(&mut state.config, config_update);
            Effect::WriteConfig
        },
        Message::SetupSecurityQuestions(_) | Message::AttemptRecovery { .. } => Effect::none(),
        Message::ExportVault { format, path } => handle_export_vault(state, format, path),
        Message::Tick => handle_tick(state),
        Message::Quit => handle_quit(state),
        Message::ForceQuit => {
            state.should_quit = true;
            Effect::Exit
        },
        Message::Noop => Effect::none(),
        Message::AsyncEffectCompleted(_) => Effect::none(),
    }
}
/// Handles the messages that `update` does not hand to a group of its own.
#[verifier::spinoff_prover]
#[verifier::rlimit(100)]
fn update_others(state: &mut AppState, message: Message) -> (r: Effect)
    requires
        old(state).wf(),
        message_ok(&message),
        !session_message(message),
        !item_or_tag_message(message),
        !(message is InputChar || message is InputBackspace || message is InputDelete || message is InputLeft || message is InputRight || message is InputHome || message is InputEnd || message is InputCancel || message is InputSubmit || message is FormSubmit || message is SelectNextItem || message is SelectPrevItem || message is ExecuteSearch || message is SelectSearchResult || message is SearchConfirm || message is KindSelectorNext || message is KindSelectorPrev || message is KindSelectorSelect || message is KindSelectorConfirm || message is Scroll || message is NextCategory || message is PrevCategory || message is CloseVault || message is StartCreateVault || message is EnterPasswordMode || message is LoginPrevStep || message is CancelInput || message is DeleteSelectedVault || message is ConfirmDeleteVault || message is LoginSelectNext),
    ensures
        final(state).wf(),
        updated(*old(state), *final(state), message, r),
{
    match message {
        Message::Tick | Message::Noop => {},
        _ => {
            match &mut state.vault_state {
                Some(vs) => vs.touch(),
                None => {},
            }
        },
    }
    match message {
        Message::InputChar(_) | Message::InputBackspace | Message::InputDelete | Message::InputLeft
        | Message::InputRight
        | Message::InputHome | Message::InputEnd | Message::InputCancel | Message::InputSubmit | Message::FormSubmit
        | Message::SelectNextItem | Message::SelectPrevItem | Message::ExecuteSearch | Message::SelectSearchResult(_)
        | Message::SearchConfirm | Message::KindSelectorNext | Message::KindSelectorPrev | Message::KindSelectorSelect(_)
        | Message::KindSelectorConfirm | Message::Scroll(_) | Message::NextCategory | Message::PrevCategory
        | Message::CloseVault | Message::StartCreateVault | Message::EnterPasswordMode | Message::LoginPrevStep
        | Message::CancelInput | Message::DeleteSelectedVault | Message::ConfirmDeleteVault(_) | Message::LoginSelectNext
        | Message::CreateItem { .. } | Message::UpdateItem { .. } | Message::DuplicateItem(_) | Message::CreateTag(_)
        | Message::DeleteTag(_) | Message::ToggleItemTag { .. } | Message::ToggleTagFilter(_) => Effect::none(),
        Message::Navigate(screen) => {
            handle_navigate(state, screen);
            Effect::none()
        },
        Message::FocusPane(pane) => {
            state.ui_state.focused_pane = pane;
            if pane == Pane::Detail {
                state.ui_state.detail_scroll_offset = 0;
            }
            Effect::none()
        },
        Message::UnlockVault { password, keyfile } => handle_unlock_vault(state, password, keyfile),
        Message::LockVault => handle_lock_vault(state),
        Message::SaveVault => handle_save_vault(state),
        Message::StartPasswordRecovery => handle_start_password_recovery(state),
        Message::LoginSelectPrev => {
            let n = state.registry.entries.len();
            state.login_screen.select_prev(n);
            Effect::none()
        },
        Message::LoginSelectVault(index) => {
            if index < state.registry.entries.len() {
                state.login_screen.selected_vault = index;
                state.login_screen.error_message = None;
            }
            Effect::none()
        },
        Message::SelectItem(id) => {
            handle_select_item(state, id);
            Effect::none()
        },
        Message::DeleteItem(id) => {
            state.ui_state.floating_window = Some(FloatingWindow::ConfirmDelete { item_id: id });
            Effect::none()
        },
        Message::ConfirmDeleteItem(id) => {
            handle_confirm_delete_item(state, id);
            Effect::none()
        },
        Message::ToggleFavorite(id) => {
            handle_toggle_favorite(state, id);
            Effect::none()
        },
        Message::Undo => {
            handle_undo(state);
            Effect::none()
        },
        Message::Redo => {
            handle_redo(state);
            Effect::none()
        },
        Message::OpenSearch => {
            handle_open_search(state);
            Effect::none()
        },
        Message::CloseSearch => {
            handle_close_search(state);
            Effect::none()
        },
        Message::UpdateSearchQuery(query) => {
            handle_update_search_query(state, query);
            Effect::none()
        },
        Message::SearchNextResult => {
            match &mut state.ui_state.floating_window {
                Some(FloatingWindow::Search { state: ss }) => ss.next_result(),
                _ => {},
            }
            Effect::none()
        },
        Message::SearchPrevResult => {
            match &mut state.ui_state.floating_window {
                Some(FloatingWindow::Search { state: ss }) => ss.prev_result(),
                _ => {},
            }
            Effect::none()
        },
        Message::CopyToClipboard { content, is_sensitive } => handle_copy_to_clipboard(state, content, is_sensitive),
        Message::CopyCurrentItem => handle_copy_current_item(state),
        Message::CopyField(_) | Message::EditField(_) | Message::FocusDetailNotes => Effect::none(),
        Message::ClearClipboard => {
            state.clipboard_state.clear();
            Effect::ClearClipboard
        },
        Message::ToggleContentReveal => {
            state.ui_state.content_revealed = !state.ui_state.content_revealed;
            Effect::none()
        },
        Message::OpenFloatingWindow(window) => {
            state.ui_state.floating_window = Some(window);
            Effect::none()
        },
        Message::CloseFloatingWindow => {
            state.ui_state.close_floating_window();
            Effect::none()
        },
        Message::ShowNotification { message, level } => {
            state.ui_state.notify(message.as_str(), level);
            Effect::none()
        },
        Message::DismissNotification(id) => {
            handle_dismiss_notification(state, id);
            Effect::none()
        },
        Message::InputUp | Message::InputDown => Effect::none(),
        Message::FormNextField => {
            handle_form_next_field(state);
            Effect::none()
        },
        Message::FormPrevField => {
            handle_form_prev_field(state);
            Effect::none()
        },
        Message::FormFocusField(index) => {
            handle_form_focus_field(state, index);
            Effect::none()
        },
        Message::EditNotes => {
            handle_edit_notes(state);
            Effect::none()
        },
        Message::SetKindFilter(kind) => {
            state.ui_state.filter.kind = kind;
            Effect::none()
        },
        Message::ToggleFavoritesFilter => {
            state.ui_state.filter.favorites_only = !state.ui_state.filter.favorites_only;
            Effect::none()
        },
        Message::ClearFilters => {
            state.ui_state.filter.clear();
            Effect::none()
        },
        Message::UpdateConfig(config_update) => {
            apply_config_update(&mut state.config, config_update);
            Effect::WriteConfig
        },
        Message::SetupSecurityQuestions(_) | Message::AttemptRecovery { .. } => Effect::none(),
        Message::ExportVault { format, path } => handle_export_vault(state, format, path),
        Message::Tick => handle_tick(state),
        Message::Quit => handle_quit(state),
        Message::ForceQuit => {
            state.should_quit = true;
            Effect::Exit
        },
        Message::Noop => Effect::none(),
        Message::AsyncEffectCompleted(_) => Effect::none(),
    }
}

/// Handles a message: changes the state and returns the outside work to
/// carry out. Every message but a tick (or nothing) counts as activity of
/// the user.
#[verifier::rlimit(100)]
pub fn update(state: &mut AppState, message: Message) -> (r: Effect)
    requires
        old(state).wf(),
        message_ok(&message),
    ensures
        final(state).wf(),
        updated(*old(state), *final(state), message, r),
{
    if is_item_or_tag_message(&message) {
        return update_items_and_tags(state, message);
    }
    match message {
        Message::InputChar(_) | Message::InputBackspace | Message::InputDelete | Message::InputLeft
        | Message::InputRight | Message::InputHome | Message::InputEnd | Message::InputCancel
        | Message::InputSubmit | Message::FormSubmit => {
            return update_input(state, message);
        },
        _ => {},
    }
    match message {
        Message::SelectNextItem | Message::SelectPrevItem | Message::ExecuteSearch
        | Message::SelectSearchResult(_) | Message::SearchConfirm | Message::KindSelectorNext
        | Message::KindSelectorPrev | Message::KindSelectorSelect(_) | Message::KindSelectorConfirm
        | Message::Scroll(_) | Message::NextCategory | Message::PrevCategory => {
            return update_navigation(state, message);
        },
        _ => {},
    }
    match message {
        Message::CloseVault | Message::StartCreateVault | Message::EnterPasswordMode | Message::LoginPrevStep
        | Message::CancelInput | Message::DeleteSelectedVault | Message::ConfirmDeleteVault(_)
        | Message::LoginSelectNext => {
            return update_login(state, message);
        },
        _ => {},
    }
    if is_session_message(&message) {
        return update_session(state, message);
    }
    update_others(state, message)
}

} // verus!
