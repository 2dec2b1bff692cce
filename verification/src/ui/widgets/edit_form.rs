//! The form that creates or edits an item: one text field per part of the
//! item's content, with the title first and the notes last.
use vstd::prelude::*;

use crate::cursor::{
    backspace_at_cursor, backspaced, byte_len, cursor_left, cursor_right, insert_at_cursor, inserted,
    is_boundary, left_of, lemma_end_is_boundary, right_of, utf8_len,
};
use crate::domain::item::ItemKind;
use crate::input::mouse::ClickRegion;
use crate::text::{is_blank, trim};
use crate::ui::widgets::button::ButtonRegion;

verus! {

/// A field of the item form.
#[derive(Debug, Clone, Copy, PartialEq, Eq, Structural)]
pub enum FormField {
    Title,
    Username,
    Password,
    Url,
    SeedPhrase,
    DerivationPath,
    Network,
    ApiKey,
    Service,
    Content,
    Issuer,
    AccountName,
    TotpSecret,
    CustomFields,
    Notes,
}

/// Label of a field.
pub open spec fn field_label(f: FormField) -> Seq<char> {
    match f {
        FormField::Title => "Title"@,
        FormField::Username => "Username"@,
        FormField::Password => "Password"@,
        FormField::Url => "URL"@,
        FormField::SeedPhrase => "Seed Phrase"@,
        FormField::DerivationPath => "Derivation Path"@,
        FormField::Network => "Network"@,
        FormField::ApiKey => "API Key"@,
        FormField::Service => "Service"@,
        FormField::Content => "Content"@,
        FormField::Issuer => "Issuer"@,
        FormField::AccountName => "Account Name"@,
        FormField::TotpSecret => "TOTP Secret"@,
        FormField::CustomFields => "Fields (type:key=value; ...)"@,
        FormField::Notes => "Notes"@,
    }
}

/// Whether a field holds a secret and is shown masked.
pub open spec fn field_sensitive(f: FormField) -> bool {
    f == FormField::Password || f == FormField::SeedPhrase || f == FormField::ApiKey || f
        == FormField::Content || f == FormField::TotpSecret
}

impl FormField {
    /// Label.
    pub fn label(&self) -> (r: &'static str)
        ensures
            r@ == field_label(*self),
    {
        match self {
            FormField::Title => "Title",
            FormField::Username => "Username",
            FormField::Password => "Password",
            FormField::Url => "URL",
            FormField::SeedPhrase => "Seed Phrase",
            FormField::DerivationPath => "Derivation Path",
            FormField::Network => "Network",
            FormField::ApiKey => "API Key",
            FormField::Service => "Service",
            FormField::Content => "Content",
            FormField::Issuer => "Issuer",
            FormField::AccountName => "Account Name",
            FormField::TotpSecret => "TOTP Secret",
            FormField::CustomFields => "Fields (type:key=value; ...)",
            FormField::Notes => "Notes",
        }
    }

    /// Whether the field is shown masked.
    pub fn is_sensitive(&self) -> (r: bool)
        ensures
            r == field_sensitive(*self),
    {
        match self {
            FormField::Password | FormField::SeedPhrase | FormField::ApiKey | FormField::Content
            | FormField::TotpSecret => true,
            _ => false,
        }
    }
}

/// The fields between the title and the notes for a kind.
pub open spec fn kind_fields(kind: ItemKind) -> Seq<FormField> {
    match kind {
        ItemKind::Generic => seq![FormField::Content],
        ItemKind::CryptoSeed => seq![FormField::SeedPhrase, FormField::DerivationPath, FormField::Network],
        ItemKind::Password => seq![FormField::Username, FormField::Password, FormField::Url, FormField::TotpSecret],
        ItemKind::SecureNote => seq![FormField::Content],
        ItemKind::ApiKey => seq![FormField::Service, FormField::ApiKey],
        ItemKind::Totp => seq![FormField::Issuer, FormField::AccountName, FormField::TotpSecret],
        ItemKind::Custom => seq![FormField::CustomFields],
    }
}

/// The fields of the form for a kind: the title, the kind's fields, the
/// notes.
pub open spec fn fields_for(kind: ItemKind) -> Seq<FormField> {
    seq![FormField::Title] + kind_fields(kind) + seq![FormField::Notes]
}

/// The fields of the form for a kind.
fn get_fields_for_kind(kind: ItemKind) -> (r: Vec<FormField>)
    ensures
        r@ == fields_for(kind),
{
    let mut fields = vec![FormField::Title];
    match kind {
        ItemKind::Generic => {
            fields.push(FormField::Content);
        },
        ItemKind::CryptoSeed => {
            fields.push(FormField::SeedPhrase);
            fields.push(FormField::DerivationPath);
            fields.push(FormField::Network);
        },
        ItemKind::Password => {
            fields.push(FormField::Username);
            fields.push(FormField::Password);
            fields.push(FormField::Url);
            fields.push(FormField::TotpSecret);
        },
        ItemKind::SecureNote => {
            fields.push(FormField::Content);
        },
        ItemKind::ApiKey => {
            fields.push(FormField::Service);
            fields.push(FormField::ApiKey);
        },
        ItemKind::Totp => {
            fields.push(FormField::Issuer);
            fields.push(FormField::AccountName);
            fields.push(FormField::TotpSecret);
        },
        ItemKind::Custom => {
            fields.push(FormField::CustomFields);
        },
    }
    fields.push(FormField::Notes);
    assert(fields@ =~= fields_for(kind));
    fields
}

/// State of the item form.
#[derive(Debug, Clone)]
pub struct EditFormState {
    /// Kind of the item.
    pub kind: ItemKind,
    /// The fields, in order.
    pub fields: Vec<FormField>,
    /// The value of each field.
    pub values: Vec<String>,
    /// Index of the focused field.
    pub focused_field: usize,
    /// Cursor in the focused field's value, in bytes.
    pub cursor: usize,
    /// Whether the item is new (or being edited).
    pub is_new: bool,
}

/// Position of the first occurrence of `f` in `fields`.
pub open spec fn field_position(fields: Seq<FormField>, f: FormField) -> Option<int> {
    if fields.contains(f) {
        Some(choose|i: int| 0 <= i < fields.len() && fields[i] == f && forall|j: int| 0 <= j < i ==> fields[j] != f)
    } else {
        None
    }
}

/// Finds the first occurrence of `f` in `fields`.
pub fn find_field(fields: &Vec<FormField>, f: FormField) -> (r: Option<usize>)
    ensures
        match r {
            Some(i) => field_position(fields@, f) == Some(i as int) && i < fields@.len(),
            None => field_position(fields@, f) is None,
        },
{
    let mut i: usize = 0;
    while i < fields.len()
        invariant
            i <= fields@.len(),
            forall|j: int| 0 <= j < i ==> fields@[j] != f,
        decreases fields@.len() - i,
    {
        if fields[i] == f {
            proof {
                assert(fields@.contains(f) && fields@[i as int] == f);
                let k = field_position(fields@, f)->0;
                assert(k == i);
            }
            return Some(i);
        }
        i = i + 1;
    }
    None
}

impl EditFormState {
    /// Each field has a value, the focus is on one of them, and the cursor
    /// falls between two chars of its value.
    pub open spec fn wf(&self) -> bool {
        &&& self.fields@.len() > 0
        &&& self.values@.len() == self.fields@.len()
        &&& self.focused_field < self.fields@.len()
        &&& is_boundary(self.current_text(), self.cursor as int)
        &&& utf8_len(self.current_text()) <= usize::MAX
        &&& forall|i: int| 0 <= i < self.values@.len() ==> utf8_len((#[trigger] self.values@[i])@) <= usize::MAX
    }

    /// The value of the focused field; empty when the focus is on no field.
    pub open spec fn current_text(&self) -> Seq<char> {
        if self.focused_field < self.values@.len() {
            self.values@[self.focused_field as int]@
        } else {
            Seq::empty()
        }
    }

    /// The values of the fields, as char sequences.
    pub open spec fn value_views(&self) -> Seq<Seq<char>> {
        self.values@.map_values(|v: String| v@)
    }

    /// A blank form for `kind` with the focus on the title.
    pub fn new(kind: ItemKind, is_new: bool) -> (r: EditFormState)
        ensures
            r.wf(),
            r.kind == kind,
            r.fields@ == fields_for(kind),
            r.values@.len() == r.fields@.len(),
            forall|i: int| 0 <= i < r.values@.len() ==> (#[trigger] r.values@[i])@ == Seq::<char>::empty(),
            r.focused_field == 0,
            r.cursor == 0,
            r.is_new == is_new,
    {
        let fields = get_fields_for_kind(kind);
        let mut values: Vec<String> = Vec::new();
        let mut i: usize = 0;
        while i < fields.len()
            invariant
                i <= fields@.len(),
                values@.len() == i,
                forall|j: int| 0 <= j < i ==> (#[trigger] values@[j])@ == Seq::<char>::empty(),
            decreases fields@.len() - i,
        {
            values.push(String::new());
            i = i + 1;
        }
        let r = EditFormState { kind, fields, values, focused_field: 0, cursor: 0, is_new };
        proof {
            lemma_end_is_boundary(r.current_text());
        }
        r
    }

    /// Sets the value of the title field, if the form has one.
    pub fn set_title(&mut self, title: &str)
        ensures
            final(self).fields == old(self).fields,
            final(self).focused_field == old(self).focused_field,
            final(self).cursor == old(self).cursor,
            final(self).kind == old(self).kind,
            final(self).is_new == old(self).is_new,
            final(self).values@.len() == old(self).values@.len(),
            match field_position(old(self).fields@, FormField::Title) {
                Some(i) if i < old(self).values@.len() => final(self).value_views() == old(self).value_views().update(i, title@),
                _ => final(self).values == old(self).values,
            },
    {
        match find_field(&self.fields, FormField::Title) {
            Some(i) => {
                if i < self.values.len() {
                    let ghost before = self.value_views();
                    self.values.set(i, String::from_str(title));
                    assert(self.value_views() =~= before.update(i as int, title@));
                }
            },
            None => {},
        }
    }

    /// The focused field, if the focus is on one.
    pub fn current_field(&self) -> (r: Option<&FormField>)
        ensures
            self.focused_field < self.fields@.len() ==> r == Some(&self.fields@[self.focused_field as int]),
            self.focused_field >= self.fields@.len() ==> r is None,
    {
        if self.focused_field < self.fields.len() {
            Some(&self.fields[self.focused_field])
        } else {
            None
        }
    }

    /// The value of the focused field, or the empty string.
    pub fn current_value(&self) -> (r: &str)
        ensures
            r@ == self.current_text(),
    {
        if self.focused_field < self.values.len() {
            self.values[self.focused_field].as_str()
        } else {
            proof {
                reveal_strlit("");
            }
            ""
        }
    }

    /// Moves the focus to the next field, if any, with the cursor at the end
    /// of its value.
    pub fn next_field(&mut self)
        requires
            old(self).fields@.len() > 0,
            old(self).values@.len() == old(self).fields@.len(),
            forall|i: int| 0 <= i < old(self).values@.len() ==> utf8_len((#[trigger] old(self).values@[i])@) <= usize::MAX,
        ensures
            final(self).fields == old(self).fields,
            final(self).values == old(self).values,
            final(self).kind == old(self).kind,
            final(self).is_new == old(self).is_new,
            if old(self).focused_field + 1 < old(self).fields@.len() {
                &&& final(self).focused_field == old(self).focused_field + 1
                &&& final(self).cursor == utf8_len(final(self).current_text())
                &&& final(self).wf()
            } else {
                final(self).focused_field == old(self).focused_field && final(self).cursor == old(self).cursor
            },
    {
        if self.focused_field < self.fields.len() - 1 {
            self.focused_field = self.focused_field + 1;
            self.cursor = byte_len(self.values[self.focused_field].as_str());
            proof {
                lemma_end_is_boundary(self.current_text());
            }
        }
    }

    /// Moves the focus to the previous field, if any, with the cursor at
    /// the end of its value.
    pub fn prev_field(&mut self)
        requires
            old(self).values@.len() == old(self).fields@.len(),
            old(self).focused_field <= old(self).fields@.len(),
            forall|i: int| 0 <= i < old(self).values@.len() ==> utf8_len((#[trigger] old(self).values@[i])@) <= usize::MAX,
        ensures
            final(self).fields == old(self).fields,
            final(self).values == old(self).values,
            final(self).kind == old(self).kind,
            final(self).is_new == old(self).is_new,
            if old(self).focused_field > 0 {
                &&& final(self).focused_field == old(self).focused_field - 1
                &&& final(self).cursor == utf8_len(final(self).current_text())
                &&& final(self).wf()
            } else {
                final(self).focused_field == old(self).focused_field && final(self).cursor == old(self).cursor
            },
    {
        if self.focused_field > 0 {
            self.focused_field = self.focused_field - 1;
            self.cursor = byte_len(self.values[self.focused_field].as_str());
            proof {
                lemma_end_is_boundary(self.current_text());
            }
        }
    }

    /// Inserts `c` at the cursor of the focused field and moves the cursor
    /// past it.
    pub fn insert(&mut self, c: char)
        requires
            old(self).wf(),
            utf8_len(old(self).current_text()) + 4 <= usize::MAX,
        ensures
            final(self).wf(),
            final(self).fields == old(self).fields,
            final(self).focused_field == old(self).focused_field,
            final(self).values@.len() == old(self).values@.len(),
            forall|i: int| 0 <= i < old(self).values@.len() && i != old(self).focused_field ==> final(self).values@[i] == old(self).values@[i],
            (final(self).current_text(), final(self).cursor as int) == inserted(old(self).current_text(), old(self).cursor as int, c),
    {
        let i = self.focused_field;
        let mut value = self.values[i].clone();
        let nb = insert_at_cursor(&mut value, self.cursor, c);
        self.values.set(i, value);
        self.cursor = nb;
    }

    /// Deletes the char before the cursor of the focused field, if any.
    pub fn backspace(&mut self)
        requires
            old(self).wf(),
        ensures
            final(self).wf(),
            final(self).fields == old(self).fields,
            final(self).focused_field == old(self).focused_field,
            final(self).values@.len() == old(self).values@.len(),
            forall|i: int| 0 <= i < old(self).values@.len() && i != old(self).focused_field ==> final(self).values@[i] == old(self).values@[i],
            (final(self).current_text(), final(self).cursor as int) == backspaced(old(self).current_text(), old(self).cursor as int),
    {
        let i = self.focused_field;
        let mut value = self.values[i].clone();
        let nb = backspace_at_cursor(&mut value, self.cursor);
        self.values.set(i, value);
        self.cursor = nb;
    }

    /// Moves the cursor one char to the left, if it can.
    pub fn move_left(&mut self)
        requires
            is_boundary(old(self).current_text(), old(self).cursor as int),
        ensures
            final(self).fields == old(self).fields,
            final(self).values == old(self).values,
            final(self).focused_field == old(self).focused_field,
            final(self).cursor == cursor_left(old(self).current_text(), old(self).cursor as int),
            is_boundary(final(self).current_text(), final(self).cursor as int),
    {
        self.cursor = left_of(self.current_value(), self.cursor);
    }

    /// Moves the cursor one char to the right, if it can.
    pub fn move_right(&mut self)
        requires
            is_boundary(old(self).current_text(), old(self).cursor as int),
            utf8_len(old(self).current_text()) <= usize::MAX,
        ensures
            final(self).fields == old(self).fields,
            final(self).values == old(self).values,
            final(self).focused_field == old(self).focused_field,
            final(self).cursor == cursor_right(old(self).current_text(), old(self).cursor as int),
            is_boundary(final(self).current_text(), final(self).cursor as int),
    {
        self.cursor = right_of(self.current_value(), self.cursor);
    }

    /// The value of the first occurrence of `field`, if the form has it.
    pub fn get_value(&self, field: &FormField) -> (r: Option<&str>)
        ensures
            match field_position(self.fields@, *field) {
                Some(i) if i < self.values@.len() => r matches Some(v) && v@ == self.values@[i]@,
                _ => r is None,
            },
    {
        match find_field(&self.fields, *field) {
            Some(i) => {
                if i < self.values.len() {
                    Some(self.values[i].as_str())
                } else {
                    None
                }
            },
            None => None,
        }
    }

    /// Refuses a form whose title is missing or blank.
    pub fn validate(&self) -> (r: core::result::Result<(), &'static str>)
        ensures
            ({
                let title = match field_position(self.fields@, FormField::Title) {
                    Some(i) if i < self.values@.len() => self.values@[i]@,
                    _ => Seq::<char>::empty(),
                };
                &&& r is Ok <==> trim(title).len() > 0
                &&& r matches Err(m) ==> m@ == "Title is required"@
            }),
    {
        let title = match self.get_value(&FormField::Title) {
            Some(t) => t,
            None => {
                proof {
                    reveal_strlit("");
                }
                ""
            },
        };
        if is_blank(title) {
            proof {
                reveal_strlit("Title is required");
            }
            return Err("Title is required");
        }
        Ok(())
    }

    /// The value of the focused field, to edit, if the focus is on one.
    pub fn current_value_mut(&mut self) -> (r: Option<&mut String>)
        ensures
            old(self).focused_field < old(self).values@.len() ==> (r matches Some(v) && *v
                == old(self).values@[old(self).focused_field as int] && final(self).values@
                == old(self).values@.update(old(self).focused_field as int, *final(v))
                && final(self).fields == old(self).fields && final(self).focused_field
                == old(self).focused_field && final(self).cursor == old(self).cursor),
            old(self).focused_field >= old(self).values@.len() ==> (r is None && *final(self) == *old(self)),
    {
        if self.focused_field < self.values.len() {
            Some(&mut self.values[self.focused_field])
        } else {
            None
        }
    }
}

/// Where the fields (by index), the buttons and the form were drawn.
#[derive(Debug, Clone)]
pub struct FormClickRegions {
    pub field_regions: Vec<(usize, ClickRegion)>,
    pub button_regions: Vec<ButtonRegion>,
    pub form_area: ClickRegion,
}

} // verus!
