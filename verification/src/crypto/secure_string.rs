//! Strings and byte buffers for secrets, wiped when cleared.
use vstd::prelude::*;
use vstd::utf8::encode_utf8;
use zeroize::Zeroize;

verus! {

/// Appends `c` to `s`.
///
/// Trusted: `String::push` of std, which the documentation describes as
/// appending the given char to the end of the string.
#[verifier::external_body]
pub(crate) fn string_push(s: &mut String, c: char)
    ensures
        final(s)@ == old(s)@.push(c),
{
    s.push(c)
}

/// Removes the last char of `s` and returns it.
///
/// Trusted: `String::pop` of std, documented to remove the last character and
/// return it, or return `None` when the string is empty.
#[verifier::external_body]
pub(crate) fn string_pop(s: &mut String) -> (r: Option<char>)
    ensures
        old(s)@.len() == 0 ==> r is None && final(s)@ == old(s)@,
        old(s)@.len() > 0 ==> r == Some(old(s)@.last()) && final(s)@ == old(s)@.drop_last(),
{
    s.pop()
}

/// Overwrites the bytes of `s` with zeros and empties it.
///
/// Trusted: `Zeroize::zeroize` of the zeroize crate for `String`, whose source
/// zeroes the buffer and then clears the string, leaving it empty.
#[verifier::external_body]
pub(crate) fn zeroize_string(s: &mut String)
    ensures
        final(s)@ == Seq::<char>::empty(),
{
    s.zeroize()
}

/// Overwrites the bytes of `v` with zeros and empties it.
///
/// Trusted: `Zeroize::zeroize` of the zeroize crate for `Vec<u8>`, whose source
/// zeroes the elements and then clears the vector.
#[verifier::external_body]
pub(crate) fn zeroize_bytes(v: &mut Vec<u8>)
    ensures
        final(v)@ == Seq::<u8>::empty(),
{
    v.zeroize()
}

/// The decimal digits of `n`, most significant first.
pub open spec fn decimal(n: nat) -> Seq<char>
    decreases n,
{
    if n < 10 {
        seq![digit_char(n)]
    } else {
        decimal(n / 10).push(digit_char(n % 10))
    }
}

/// The ASCII digit for a value below ten.
pub open spec fn digit_char(d: nat) -> char {
    if d == 0 { '0' } else if d == 1 { '1' } else if d == 2 { '2' } else if d == 3 { '3' }
    else if d == 4 { '4' } else if d == 5 { '5' } else if d == 6 { '6' } else if d == 7 { '7' }
    else if d == 8 { '8' } else { '9' }
}

fn digit(d: u64) -> (c: char)
    requires
        d < 10,
    ensures
        c == digit_char(d as nat),
{
    if d == 0 { '0' } else if d == 1 { '1' } else if d == 2 { '2' } else if d == 3 { '3' }
    else if d == 4 { '4' } else if d == 5 { '5' } else if d == 6 { '6' } else if d == 7 { '7' }
    else if d == 8 { '8' } else { '9' }
}

/// Writes `n` in decimal.
pub fn decimal_string(n: u64) -> (s: String)
    ensures
        s@ == decimal(n as nat),
    decreases n,
{
    if n < 10 {
        let mut s = String::new();
        string_push(&mut s, digit(n));
        s
    } else {
        let mut s = decimal_string(n / 10);
        string_push(&mut s, digit(n % 10));
        s
    }
}

/// A string for secrets: it never prints its content and is wiped when cleared.
#[derive(Clone)]
pub struct SecureString {
    inner: String,
}

impl View for SecureString {
    type V = Seq<char>;

    closed spec fn view(&self) -> Seq<char> {
        self.inner@
    }
}

impl SecureString {
    /// Wraps an owned string.
    pub fn new(s: String) -> (r: SecureString)
        ensures
            r@ == s@,
    {
        SecureString { inner: s }
    }

    /// Copies a string slice.
    pub fn from_str(s: &str) -> (r: SecureString)
        ensures
            r@ == s@,
    {
        SecureString { inner: s.to_owned() }
    }

    /// The empty secret.
    pub fn empty() -> (r: SecureString)
        ensures
            r@ == Seq::<char>::empty(),
    {
        SecureString { inner: String::new() }
    }

    /// The content.
    pub fn as_str(&self) -> (r: &str)
        ensures
            r@ == self@,
    {
        self.inner.as_str()
    }

    /// The UTF-8 bytes of the content.
    pub fn as_bytes(&self) -> (r: &[u8])
        ensures
            r@ == encode_utf8(self@),
    {
        self.inner.as_str().as_bytes()
    }

    /// Length of the content in UTF-8 bytes.
    pub fn len(&self) -> (r: usize)
        ensures
            r == encode_utf8(self@).len(),
    {
        self.inner.as_str().as_bytes().len()
    }

    /// Whether the content is empty.
    pub fn is_empty(&self) -> (r: bool)
        ensures
            r == (self@.len() == 0),
    {
        self.inner.as_str().is_empty()
    }

    /// Appends a char.
    pub fn push(&mut self, c: char)
        ensures
            final(self)@ == old(self)@.push(c),
    {
        string_push(&mut self.inner, c)
    }

    /// Removes and returns the last char, if any.
    pub fn pop(&mut self) -> (r: Option<char>)
        ensures
            old(self)@.len() == 0 ==> r is None && final(self)@ == old(self)@,
            old(self)@.len() > 0 ==> r == Some(old(self)@.last()) && final(self)@
                == old(self)@.drop_last(),
    {
        string_pop(&mut self.inner)
    }

    /// Wipes the content, leaving the empty secret.
    pub fn clear(&mut self)
        ensures
            final(self)@ == Seq::<char>::empty(),
    {
        zeroize_string(&mut self.inner)
    }

    /// A copy of this secret.
    pub fn duplicate(&self) -> (r: SecureString)
        ensures
            r@ == self@,
    {
        SecureString { inner: self.inner.clone() }
    }

    /// Debug rendering that shows only the length: `SecureString { len: N }`.
    pub fn debug_string(&self) -> (r: String)
        ensures
            r@ == "SecureString { len: "@ + decimal(encode_utf8(self@).len()) + " }"@,
    {
        let n = self.len();
        let mut s = String::from_str("SecureString { len: ");
        let d = decimal_string(n as u64);
        s.append(d.as_str());
        s.append(" }");
        s
    }

    /// Display rendering that hides the content: `[REDACTED N chars]`.
    pub fn redacted_string(&self) -> (r: String)
        ensures
            r@ == "[REDACTED "@ + decimal(encode_utf8(self@).len()) + " chars]"@,
    {
        let n = self.len();
        let mut s = String::from_str("[REDACTED ");
        let d = decimal_string(n as u64);
        s.append(d.as_str());
        s.append(" chars]");
        s
    }
}

impl PartialEq for SecureString {
    fn eq(&self, other: &Self) -> (r: bool) {
        self.inner == other.inner
    }
}

impl vstd::std_specs::cmp::PartialEqSpecImpl for SecureString {
    open spec fn obeys_eq_spec() -> bool {
        true
    }

    open spec fn eq_spec(&self, other: &Self) -> bool {
        self@ == other@
    }
}

impl Eq for SecureString {}

/// Bytes for secrets, wiped when dropped by the holder.
#[derive(Clone)]
pub struct SecureBytes {
    inner: Vec<u8>,
}

impl View for SecureBytes {
    type V = Seq<u8>;

    closed spec fn view(&self) -> Seq<u8> {
        self.inner@
    }
}

impl SecureBytes {
    /// Wraps a byte vector.
    pub fn new(bytes: Vec<u8>) -> (r: SecureBytes)
        ensures
            r@ == bytes@,
    {
        SecureBytes { inner: bytes }
    }

    /// Copies a byte slice.
    pub fn from_slice(bytes: &[u8]) -> (r: SecureBytes)
        ensures
            r@ == bytes@,
    {
        SecureBytes { inner: vstd::slice::slice_to_vec(bytes) }
    }

    /// The bytes.
    pub fn as_slice(&self) -> (r: &[u8])
        ensures
            r@ == self@,
    {
        self.inner.as_slice()
    }

    /// Number of bytes.
    pub fn len(&self) -> (r: usize)
        ensures
            r == self@.len(),
    {
        self.inner.len()
    }

    /// Whether there are no bytes.
    pub fn is_empty(&self) -> (r: bool)
        ensures
            r == (self@.len() == 0),
    {
        self.inner.len() == 0
    }

    /// Wipes the bytes.
    pub fn clear(&mut self)
        ensures
            final(self)@ == Seq::<u8>::empty(),
    {
        zeroize_bytes(&mut self.inner)
    }
}

} // verus!
