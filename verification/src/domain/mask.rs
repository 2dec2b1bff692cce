//! Partial reveal of a secret: some of its characters are shown and the
//! others are replaced by bullets.
use vstd::prelude::*;

use crate::crypto::secure_string::string_push;

verus! {

/// The bullet that hides a character.
pub open spec fn bullet() -> char {
    '\u{2022}'
}

/// How many of `n` characters a reveal of `percent` percent shows: none for
/// 0%, otherwise at least one and at most all.
pub open spec fn reveal_count(n: nat, percent: u32) -> nat {
    if percent == 0 || n == 0 {
        0
    } else if n * percent / 100 == 0 {
        1
    } else if n * percent / 100 > n {
        n
    } else {
        (n * percent / 100) as nat
    }
}

/// Whether position `i` of `n` is shown when `k` positions are shown: the
/// shown positions are `k` consecutive ones (cyclically) starting at a place
/// chosen by `seed`.
pub open spec fn is_revealed(i: int, n: nat, k: nat, seed: u64) -> bool {
    n > 0 && (i + (seed as int) % (n as int)) % (n as int) < k
}

/// `secret` with `percent` percent of its characters shown and the rest
/// replaced by bullets.
pub open spec fn masked(secret: Seq<char>, percent: u32, seed: u64) -> Seq<char> {
    Seq::new(secret.len(), |i: int|
        if is_revealed(i, secret.len(), reveal_count(secret.len(), percent), seed) { secret[i] } else { bullet() })
}

/// Shows `percent` percent of the characters of `secret` (at least one when
/// `percent` is not zero), at positions chosen by `seed`, and hides the rest.
pub fn partial_reveal(secret: &str, percent: u32, seed: u64) -> (r: String)
    ensures
        r@ == masked(secret@, percent, seed),
{
    let n = secret.unicode_len();
    let k: u128 = if percent == 0 || n == 0 {
        0
    } else {
        assert((n as u128) * (percent as u128) <= 0xffff_ffff_ffff_ffff * 0xffff_ffff) by (nonlinear_arith)
            requires n <= 0xffff_ffff_ffff_ffff, percent <= 0xffff_ffff;
        let p = (n as u128) * (percent as u128) / 100;
        if p == 0 { 1 } else if p > n as u128 { n as u128 } else { p }
    };
    assert(k == reveal_count(n as nat, percent));
    let shift: u128 = if n == 0 { 0 } else { (seed as u128) % (n as u128) };
    let mut r = String::new();
    let mut i: usize = 0;
    while i < n
        invariant
            n == secret@.len(),
            i <= n,
            k == reveal_count(n as nat, percent),
            n > 0 ==> shift == (seed as int) % (n as int),
            r@ =~= masked(secret@, percent, seed).take(i as int),
        decreases n - i,
    {
        let shown = ((i as u128) + shift) % (n as u128) < k;
        let c = if shown { secret.get_char(i) } else { '\u{2022}' };
        string_push(&mut r, c);
        assert(masked(secret@, percent, seed).take(i + 1) =~= masked(secret@, percent, seed).take(i as int).push(c));
        i = i + 1;
    }
    r
}

/// A reveal keeps the length, shows only characters of the secret at their
/// own places, and shows at least one of them when `percent` is not zero.
pub proof fn lemma_masked_shape(secret: Seq<char>, percent: u32, seed: u64)
    ensures
        masked(secret, percent, seed).len() == secret.len(),
        forall|i: int| 0 <= i < secret.len() ==> #[trigger] masked(secret, percent, seed)[i] == secret[i]
            || masked(secret, percent, seed)[i] == bullet(),
        percent > 0 && secret.len() > 0 ==> exists|i: int| 0 <= i < secret.len()
            && is_revealed(i, secret.len(), reveal_count(secret.len(), percent), seed)
            && #[trigger] masked(secret, percent, seed)[i] == secret[i],
{
    let n = secret.len();
    if percent > 0 && n > 0 {
        let s = (seed as int) % (n as int);
        let i0: int = if s == 0 { 0 } else { n - s };
        assert((i0 + s) % (n as int) == 0) by (nonlinear_arith)
            requires
                0 <= s < n,
                i0 == (if s == 0 { 0 } else { n - s }),
        {
            if s == 0 {
            } else {
                assert(i0 + s == n);
            }
        }
        assert(is_revealed(i0, n, reveal_count(n, percent), seed));
        assert(masked(secret, percent, seed)[i0] == secret[i0]);
    }
}

} // verus!
