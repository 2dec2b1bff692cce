//! Reading back the custom fields the item form is pre-filled with.
use vstd::prelude::*;

use crate::app::state::{custom_field_text, custom_fields_text};
use crate::app::update::{entries_fields, entry_field, field_entries, field_type_named, field_view, fields_view, pieces, split_on};
use crate::domain::item::{CustomField, CustomFieldType, field_type_name};
use crate::text::{ascii_lower_seq, first_index_of, is_white_space, leading_ws, trailing_ws, trim};

verus! {

/// `s` has no white space at either end.
pub open spec fn is_trimmed(s: Seq<char>) -> bool {
    s.len() == 0 || (!is_white_space(s[0]) && !is_white_space(s.last()))
}

/// A field the form text reads back: its key is not empty, neither key nor
/// value has white space at its ends, the key holds no `=` or `;` and the
/// value no `;`.
pub open spec fn writable_field(f: CustomField) -> bool {
    &&& f.key@.len() > 0
    &&& is_trimmed(f.key@)
    &&& is_trimmed(f.value@)
    &&& !f.key@.contains('=')
    &&& !f.key@.contains(';')
    &&& !f.value@.contains(';')
}

/// Trimming leaves a string with no white space at its ends as it is.
proof fn lemma_trim_trimmed(s: Seq<char>)
    requires
        is_trimmed(s),
    ensures
        trim(s) == s,
{
    if s.len() > 0 {
        assert(leading_ws(s) == 0);
        assert(s.skip(0) =~= s);
        assert(trailing_ws(s) == 0);
        assert(s.take(s.len() as int) =~= s);
    } else {
        assert(leading_ws(s) == 0);
        assert(trailing_ws(s) == 0);
        assert(s.skip(0) =~= s);
        assert(s.take(0) =~= s);
    }
}

/// The name of a type: lowercase letters, not empty.
proof fn lemma_type_name(t: CustomFieldType)
    ensures
        field_type_name(t).len() > 0,
        forall|i: int| 0 <= i < field_type_name(t).len() ==> 'a' <= #[trigger] field_type_name(t)[i] <= 'z',
        ascii_lower_seq(field_type_name(t)) == field_type_name(t),
        field_type_named(field_type_name(t)) == Some(t),
{
    reveal_strlit("text");
    reveal_strlit("secret");
    reveal_strlit("url");
    reveal_strlit("number");
    let n = field_type_name(t);
    assert(ascii_lower_seq(n) =~= n);
    assert("text"@.len() == 4 && "secret"@.len() == 6 && "url"@.len() == 3 && "number"@.len() == 6);
    assert("secret"@[0] == 's' && "number"@[0] == 'n');
    match t {
        CustomFieldType::Text => {},
        CustomFieldType::Secret => {
            assert(n != "text"@);
        },
        CustomFieldType::Url => {
            assert(n != "text"@);
            assert(n != "secret"@);
        },
        CustomFieldType::Number => {
            assert(n != "text"@);
            assert(n != "url"@);
            assert(n[0] != "secret"@[0]);
            assert(n != "secret"@);
        },
    }
}

/// The first `c` in `a + [c] + b`, when `a` holds none, is at `a.len()`.
proof fn lemma_first_index_after(a: Seq<char>, c: char, b: Seq<char>)
    requires
        !a.contains(c),
    ensures
        first_index_of(a + seq![c] + b, c) == Some(a.len() as int),
{
    let s = a + seq![c] + b;
    assert(s[a.len() as int] == c);
    assert(forall|j: int| 0 <= j < a.len() ==> s[j] == a[j]);
    let i = choose|i: int| 0 <= i < s.len() && s[i] == c && forall|j: int| 0 <= j < i ==> s[j] != c;
    if i < a.len() {
        assert(a[i] == c);
        assert(a.contains(c));
    }
    if i > a.len() {
        assert(s[a.len() as int] != c);
    }
}

/// Where the separators of a field's text are, and what lies between them.
#[verifier::spinoff_prover]
#[verifier::rlimit(60)]
proof fn lemma_entry_parts(f: CustomField)
    requires
        writable_field(f),
    ensures
        ({
            let t = field_type_name(f.field_type);
            let kv = f.key@ + seq!['='] + f.value@;
            let e = custom_field_text(f);
            &&& first_index_of(e, ':') == Some(t.len() as int)
            &&& trim(e.take(t.len() as int)) == t
            &&& field_type_named(t) == Some(f.field_type)
            &&& e.skip(t.len() as int + 1) == kv
            &&& first_index_of(kv, '=') == Some(f.key@.len() as int)
            &&& trim(kv.take(f.key@.len() as int)) == f.key@
            &&& trim(kv.skip(f.key@.len() as int + 1)) == f.value@
        }),
{
    let t = field_type_name(f.field_type);
    let k = f.key@;
    let v = f.value@;
    let e = custom_field_text(f);
    let kv = k + seq!['='] + v;
    assert(e == t + seq![':'] + kv) by {
        reveal_strlit(":");
        reveal_strlit("=");
        assert(e =~= t + seq![':'] + kv);
    }
    assert(first_index_of(e, ':') == Some(t.len() as int) && trim(e.take(t.len() as int)) == t
        && field_type_named(t) == Some(f.field_type)) by {
        lemma_type_name(f.field_type);
        assert(!t.contains(':')) by {
            if t.contains(':') {
                let i = choose|i: int| 0 <= i < t.len() && t[i] == ':';
                assert('a' <= t[i] <= 'z');
            }
        }
        lemma_first_index_after(t, ':', kv);
        assert(e.take(t.len() as int) =~= t);
        assert(is_trimmed(t)) by {
            assert('a' <= t[0] <= 'z');
            assert('a' <= t[t.len() - 1] <= 'z');
        }
        lemma_trim_trimmed(t);
    }
    assert(e.skip(t.len() as int + 1) == kv) by {
        assert(e.skip(t.len() as int + 1) =~= kv);
    }
    assert(first_index_of(kv, '=') == Some(k.len() as int) && trim(kv.take(k.len() as int)) == k
        && trim(kv.skip(k.len() as int + 1)) == v) by {
        lemma_first_index_after(k, '=', v);
        assert(kv.take(k.len() as int) =~= k);
        assert(kv.skip(k.len() as int + 1) =~= v);
        lemma_trim_trimmed(k);
        lemma_trim_trimmed(v);
    }
}

/// A field written as text reads back as the field.
#[verifier::spinoff_prover]
#[verifier::rlimit(100)]
proof fn lemma_entry_of_field(f: CustomField)
    requires
        writable_field(f),
    ensures
        entry_field(custom_field_text(f)) == Ok::<(Seq<char>, Seq<char>, CustomFieldType), Seq<char>>(field_view(f)),
{
    lemma_entry_parts(f);
    let e = custom_field_text(f);
    let t = field_type_name(f.field_type);
    let kv = f.key@ + seq!['='] + f.value@;
    let i = t.len() as int;
    let j = f.key@.len() as int;
    assert(entry_field(e) == (match first_index_of(e, ':') {
        None => Err(crate::app::update::bad_format_message(e)),
        Some(i) => {
            let raw_type = trim(e.take(i));
            let kv = e.skip(i + 1);
            match field_type_named(raw_type) {
                None => Err(crate::app::update::bad_type_message(raw_type)),
                Some(t) => match first_index_of(kv, '=') {
                    None => Err(crate::app::update::bad_format_message(e)),
                    Some(j) => if trim(kv.take(j)).len() == 0 {
                        Err("Custom field key cannot be empty"@)
                    } else {
                        Ok((trim(kv.take(j)), trim(kv.skip(j + 1)), t))
                    },
                },
            }
        },
    }));
}

/// Splitting `a` followed by text without the separator adds that text to
/// the last piece.
proof fn lemma_pieces_append(a: Seq<char>, b: Seq<char>, c: char)
    requires
        !b.contains(c),
    ensures
        pieces(a + b, c) == (pieces(a, c).0, pieces(a, c).1 + b),
    decreases b.len(),
{
    if b.len() == 0 {
        assert(a + b =~= a);
        assert(pieces(a, c).1 + b =~= pieces(a, c).1);
    } else {
        let b0 = b.drop_last();
        assert(!b0.contains(c)) by {
            if b0.contains(c) {
                let i = choose|i: int| 0 <= i < b0.len() && b0[i] == c;
                assert(b[i] == c);
            }
        }
        lemma_pieces_append(a, b0, c);
        assert((a + b).drop_last() =~= a + b0);
        assert((a + b).last() == b.last());
        assert(b.last() != c) by {
            assert(b[b.len() - 1] == b.last());
        }
        assert(pieces(a, c).1 + b =~= (pieces(a, c).1 + b0).push(b.last()));
    }
}

/// The texts of fields, one after the other.
pub open spec fn field_texts(fs: Seq<CustomField>) -> Seq<Seq<char>> {
    fs.map_values(|f: CustomField| custom_field_text(f))
}

/// A field's text holds no `;`, starts with a letter and does not end in
/// white space.
proof fn lemma_field_text_shape(f: CustomField)
    requires
        writable_field(f),
    ensures
        !custom_field_text(f).contains(';'),
        custom_field_text(f).len() > 0,
        is_trimmed(custom_field_text(f)),
{
    reveal_strlit(":");
    reveal_strlit("=");
    let t = field_type_name(f.field_type);
    let k = f.key@;
    let v = f.value@;
    lemma_type_name(f.field_type);
    let e = custom_field_text(f);
    assert(e =~= t + seq![':'] + k + seq!['='] + v);
    assert(!e.contains(';')) by {
        if e.contains(';') {
            let i = choose|i: int| 0 <= i < e.len() && e[i] == ';';
            if i < t.len() {
                assert('a' <= t[i] <= 'z');
            } else if i == t.len() {
            } else if i < t.len() + 1 + k.len() {
                assert(k[i - t.len() - 1] == ';');
                assert(k.contains(';'));
            } else if i == t.len() + 1 + k.len() {
            } else {
                assert(v[i - t.len() - 2 - k.len()] == ';');
                assert(v.contains(';'));
            }
        }
    }
    assert(e[0] == t[0]);
    assert('a' <= t[0] <= 'z');
    if v.len() > 0 {
        assert(e.last() == v.last());
    } else {
        assert(e.last() == '=');
    }
}

/// The text of several fields splits at `;` into the fields' texts.
proof fn lemma_split_field_texts(fs: Seq<CustomField>)
    requires
        fs.len() > 0,
        forall|i: int| 0 <= i < fs.len() ==> writable_field(#[trigger] fs[i]),
    ensures
        split_on(custom_fields_text(fs), ';') == field_texts(fs),
    decreases fs.len(),
{
    reveal_strlit(";");
    let last = fs.last();
    lemma_field_text_shape(last);
    let tl = custom_field_text(last);
    if fs.len() == 1 {
        lemma_pieces_append(Seq::empty(), tl, ';');
        assert(Seq::<char>::empty() + tl =~= tl);
        assert(pieces(Seq::<char>::empty(), ';').0 =~= Seq::<Seq<char>>::empty());
        assert(field_texts(fs) =~= seq![tl]);
    } else {
        let rest = fs.drop_last();
        assert forall|i: int| 0 <= i < rest.len() implies writable_field(#[trigger] rest[i]) by {
            assert(rest[i] == fs[i]);
        }
        lemma_split_field_texts(rest);
        let a = custom_fields_text(rest);
        let a1 = a + seq![';'];
        assert(custom_fields_text(fs) =~= a1 + tl);
        lemma_pieces_append(a1, tl, ';');
        assert(a1.drop_last() =~= a);
        assert(field_texts(fs) =~= field_texts(rest).push(tl));
    }
}

/// Keeping the non-empty strings of strings that are all non-empty keeps
/// them all.
proof fn lemma_filter_nonempty(s: Seq<Seq<char>>)
    requires
        forall|i: int| 0 <= i < s.len() ==> (#[trigger] s[i]).len() > 0,
    ensures
        s.filter(|p: Seq<char>| p.len() > 0) == s,
    decreases s.len(),
{
    reveal(Seq::filter);
    if s.len() > 0 {
        lemma_filter_nonempty(s.drop_last());
        assert(s.drop_last().push(s.last()) =~= s);
    }
}

/// Reading the texts of fields gives the fields.
#[verifier::spinoff_prover]
#[verifier::rlimit(40)]
proof fn lemma_entries_of_fields(fs: Seq<CustomField>)
    requires
        forall|i: int| 0 <= i < fs.len() ==> writable_field(#[trigger] fs[i]),
    ensures
        entries_fields(field_texts(fs)) == Ok::<Seq<(Seq<char>, Seq<char>, CustomFieldType)>, Seq<char>>(fields_view(fs)),
    decreases fs.len(),
{
    if fs.len() > 0 {
        let rest = fs.drop_last();
        assert forall|i: int| 0 <= i < rest.len() implies writable_field(#[trigger] rest[i]) by {
            assert(rest[i] == fs[i]);
        }
        lemma_entries_of_fields(rest);
        assert(field_texts(fs).drop_last() =~= field_texts(rest));
        assert(field_texts(fs).last() == custom_field_text(fs.last()));
        lemma_entry_of_field(fs.last());
        assert(fields_view(fs) =~= fields_view(rest).push(field_view(fs.last())));
    } else {
        assert(field_texts(fs) =~= Seq::<Seq<char>>::empty());
        assert(fields_view(fs) =~= Seq::<(Seq<char>, Seq<char>, CustomFieldType)>::empty());
    }
}

/// Parsing the custom-field text the item form is pre-filled with gives
/// back the fields, in order, when each field can be written that way (see
/// `writable_field`); no fields give the empty text, which parses to none.
pub proof fn lemma_parse_inverts_form_text(fs: Seq<CustomField>)
    requires
        forall|i: int| 0 <= i < fs.len() ==> writable_field(#[trigger] fs[i]),
    ensures
        entries_fields(field_entries(custom_fields_text(fs)))
            == Ok::<Seq<(Seq<char>, Seq<char>, CustomFieldType)>, Seq<char>>(fields_view(fs)),
{
    let text = custom_fields_text(fs);
    if fs.len() == 0 {
        assert(text =~= Seq::<char>::empty());
        lemma_trim_trimmed(text);
        lemma_pieces_append(Seq::empty(), Seq::empty(), ';');
        let parts = split_on(trim(text), ';');
        assert(parts =~= seq![Seq::<char>::empty()]);
        let trimmed = parts.map_values(|p: Seq<char>| trim(p));
        lemma_trim_trimmed(Seq::<char>::empty());
        assert(trimmed =~= seq![Seq::<char>::empty()]);
        reveal_with_fuel(Seq::filter, 2);
        assert(trimmed.drop_last() =~= Seq::<Seq<char>>::empty());
        assert(field_entries(text) =~= Seq::<Seq<char>>::empty());
        assert(fields_view(fs) =~= Seq::<(Seq<char>, Seq<char>, CustomFieldType)>::empty());
    } else {
        lemma_split_field_texts(fs);
        assert(is_trimmed(text)) by {
            lemma_field_text_shape(fs[0]);
            lemma_field_text_shape(fs.last());
            lemma_text_ends(fs);
        }
        lemma_trim_trimmed(text);
        let texts = field_texts(fs);
        assert forall|i: int| 0 <= i < texts.len() implies trim(#[trigger] texts[i]) == texts[i] && texts[i].len() > 0 by {
            lemma_field_text_shape(fs[i]);
            lemma_trim_trimmed(texts[i]);
        }
        assert(texts.map_values(|p: Seq<char>| trim(p)) =~= texts);
        lemma_filter_nonempty(texts);
        lemma_entries_of_fields(fs);
    }
}

/// The text of several fields starts as the first field's text and ends as
/// the last one's.
proof fn lemma_text_ends(fs: Seq<CustomField>)
    requires
        fs.len() > 0,
        forall|i: int| 0 <= i < fs.len() ==> writable_field(#[trigger] fs[i]),
    ensures
        custom_fields_text(fs).len() > 0,
        custom_fields_text(fs)[0] == custom_field_text(fs[0])[0],
        custom_fields_text(fs).last() == custom_field_text(fs.last()).last(),
    decreases fs.len(),
{
    reveal_strlit(";");
    lemma_field_text_shape(fs[0]);
    lemma_field_text_shape(fs.last());
    if fs.len() > 1 {
        let rest = fs.drop_last();
        assert forall|i: int| 0 <= i < rest.len() implies writable_field(#[trigger] rest[i]) by {
            assert(rest[i] == fs[i]);
        }
        lemma_text_ends(rest);
        assert(rest[0] == fs[0]);
    }
}

} // verus!
