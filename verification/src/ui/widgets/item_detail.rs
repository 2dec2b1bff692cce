//! Values shown by the detail view of an item: tag colors and dates.
use vstd::prelude::*;

use crate::cursor::{is_boundary, utf8_len};
use crate::ui::theme::palette::Color;

verus! {

/// `s` without its leading `#` characters.
pub open spec fn strip_hashes(s: Seq<char>) -> Seq<char>
    decreases s.len(),
{
    if s.len() > 0 && s[0] == '#' {
        strip_hashes(s.skip(1))
    } else {
        s
    }
}

/// The value of a hexadecimal digit, either case.
pub open spec fn hex_digit(c: char) -> Option<u8> {
    if '0' <= c && c <= '9' {
        Some((c as u32 - '0' as u32) as u8)
    } else if 'a' <= c && c <= 'f' {
        Some((c as u32 - 'a' as u32 + 10) as u8)
    } else if 'A' <= c && c <= 'F' {
        Some((c as u32 - 'A' as u32 + 10) as u8)
    } else {
        None
    }
}

/// The byte that two characters spell in base 16, as `u8::from_str_radix`
/// reads them: two digits, or a `+` sign and one digit.
pub open spec fn pair_value(a: char, b: char) -> Option<u8> {
    if a == '+' {
        hex_digit(b)
    } else {
        match (hex_digit(a), hex_digit(b)) {
            (Some(x), Some(y)) => Some((16 * x + y) as u8),
            _ => None,
        }
    }
}

/// The color a `#rrggbb` text names: after the leading `#` signs, exactly
/// three bytes in base 16.
pub open spec fn hex_color(s: Seq<char>) -> Option<Color> {
    let t = strip_hashes(s);
    if t.len() == 6 {
        match (pair_value(t[0], t[1]), pair_value(t[2], t[3]), pair_value(t[4], t[5])) {
            (Some(r), Some(g), Some(b)) => Some(Color::Rgb(r, g, b)),
            _ => None,
        }
    } else {
        None
    }
}

fn hex_digit_of(c: char) -> (r: Option<u8>)
    ensures
        r == hex_digit(c),
{
    if '0' <= c && c <= '9' {
        Some((c as u32 - '0' as u32) as u8)
    } else if 'a' <= c && c <= 'f' {
        Some((c as u32 - 'a' as u32 + 10) as u8)
    } else if 'A' <= c && c <= 'F' {
        Some((c as u32 - 'A' as u32 + 10) as u8)
    } else {
        None
    }
}

fn pair_value_of(a: char, b: char) -> (r: Option<u8>)
    ensures
        r == pair_value(a, b),
{
    if a == '+' {
        hex_digit_of(b)
    } else {
        match (hex_digit_of(a), hex_digit_of(b)) {
            (Some(x), Some(y)) => Some(16 * x + y),
            _ => None,
        }
    }
}

/// Reads a tag color written `#rrggbb` (any number of leading `#`, or
/// none). Text that is not six base-16 bytes gives `None`.
///
/// The text after the `#` signs is cut at byte offsets 2 and 4; when it is
/// six bytes long those offsets fall between characters.
pub fn parse_hex_color(hex: &str) -> (r: Option<Color>)
    requires
        utf8_len(strip_hashes(hex@)) == 6 ==> is_boundary(strip_hashes(hex@), 2) && is_boundary(
            strip_hashes(hex@),
            4,
        ),
    ensures
        r == hex_color(hex@),
{
    let len = hex.unicode_len();
    let mut i: usize = 0;
    assert(hex@.skip(0) =~= hex@);
    while i < len && hex.get_char(i) == '#'
        invariant
            len == hex@.len(),
            i <= len,
            strip_hashes(hex@.skip(i as int)) == strip_hashes(hex@),
        decreases len - i,
    {
        assert(hex@.skip(i as int).skip(1) =~= hex@.skip(i + 1));
        i = i + 1;
    }
    let ghost t = hex@.skip(i as int);
    assert(strip_hashes(t) == t);
    if len - i != 6 {
        return None;
    }
    assert(t[0] == hex@[i as int] && t[1] == hex@[i + 1] && t[2] == hex@[i + 2]);
    assert(t[3] == hex@[i + 3] && t[4] == hex@[i + 4] && t[5] == hex@[i + 5]);
    let r = pair_value_of(hex.get_char(i), hex.get_char(i + 1));
    let g = pair_value_of(hex.get_char(i + 2), hex.get_char(i + 3));
    let b = pair_value_of(hex.get_char(i + 4), hex.get_char(i + 5));
    match (r, g, b) {
        (Some(r), Some(g), Some(b)) => Some(Color::Rgb(r, g, b)),
        _ => None,
    }
}

/// How a moment is shown: `%Y-%m-%d %H:%M` in UTC, as chrono formats it, or
/// `None` for a number of milliseconds no date can hold.
pub uninterp spec fn formatted_datetime(millis: i64) -> Option<Seq<char>>;

/// Formats milliseconds since the Unix epoch as `%Y-%m-%d %H:%M` in UTC.
///
/// Trusted: `DateTime::<Utc>::from_timestamp_millis` and `DateTime::format`
/// of the chrono crate. The first gives `None` out of the range of dates; the
/// text is named, a function of the milliseconds alone.
#[verifier::external_body]
fn chrono_format_millis(millis: i64) -> (r: Option<String>)
    ensures
        match r {
            Some(t) => formatted_datetime(millis) == Some(t@),
            None => formatted_datetime(millis) is None,
        },
{
    match chrono::DateTime::<chrono::Utc>::from_timestamp_millis(millis) {
        Some(dt) => Some(dt.format("%Y-%m-%d %H:%M").to_string()),
        None => None,
    }
}

/// The date and time shown for a moment given in milliseconds since the Unix
/// epoch, or `None` when no date is that far away.
pub fn format_datetime(millis: i64) -> (r: Option<String>)
    ensures
        match r {
            Some(t) => formatted_datetime(millis) == Some(t@),
            None => formatted_datetime(millis) is None,
        },
{
    chrono_format_millis(millis)
}

} // verus!
