//! Key derivation: SHA-256 pre-hashing followed by Argon2id.
use vstd::prelude::*;
use vstd::utf8::encode_utf8;
use rand::RngCore;
use sha2::Digest;
use unicode_normalization::UnicodeNormalization;

use crate::crypto::secure_string::{SecureString, zeroize_bytes};
use crate::error::{Error, Result};
use crate::text::{trim, trim_str};
use crate::clock::{instant_now, millis_since};

verus! {

/// Argon2 parameters for key derivation.
#[derive(Debug, Clone, Copy, PartialEq, Eq, Structural)]
pub struct Argon2Params {
    /// Memory cost in KiB.
    pub memory_kib: u32,
    /// Number of iterations.
    pub iterations: u32,
    /// Degree of parallelism.
    pub parallelism: u32,
}

impl Default for Argon2Params {
    fn default() -> (r: Argon2Params)
        ensures
            r == (Argon2Params { memory_kib: 65536, iterations: 3, parallelism: 4 }),
    {
        Argon2Params { memory_kib: 65536, iterations: 3, parallelism: 4 }
    }
}

impl Argon2Params {
    /// Cheap parameters for tests.
    pub fn fast_for_testing() -> (r: Argon2Params)
        ensures
            r == (Argon2Params { memory_kib: 1024, iterations: 1, parallelism: 1 }),
    {
        Argon2Params { memory_kib: 1024, iterations: 1, parallelism: 1 }
    }

    /// Calibrates parameters so that one derivation takes about `target_ms`
    /// on this machine, using `parallelism` lanes.
    pub fn calibrate(target_ms: u128, parallelism: u32) -> (r: Argon2Params)
        ensures
            calibrated(r, parallelism),
    {
        calibrate_argon2_params(target_ms, parallelism)
    }
}

/// Largest memory cost the calibration tries, in KiB.
pub const MAX_CALIBRATION_MEMORY_KIB: u32 = 524288;
/// Largest iteration count the calibration tries.
pub const MAX_CALIBRATION_ITERATIONS: u32 = 10;
/// Time budget of a whole calibration, in milliseconds.
pub const CALIBRATION_TIMEOUT_MS: u128 = 5000;

/// What every calibration result satisfies.
pub open spec fn calibrated(p: Argon2Params, parallelism: u32) -> bool {
    &&& 16384 <= p.memory_kib <= MAX_CALIBRATION_MEMORY_KIB
    &&& 1 <= p.iterations <= MAX_CALIBRATION_ITERATIONS
    &&& p.parallelism == parallelism
}

/// The next parameters to try after a trial took `elapsed` milliseconds
/// (`total` since the calibration began), or `None` to stop with the current
/// ones.
pub open spec fn next_calibration(p: Argon2Params, elapsed: u128, total: u128, target: u128) -> Option<Argon2Params> {
    if elapsed >= target || total >= CALIBRATION_TIMEOUT_MS
        || (p.memory_kib >= MAX_CALIBRATION_MEMORY_KIB && p.iterations >= MAX_CALIBRATION_ITERATIONS) {
        None
    } else if p.memory_kib < MAX_CALIBRATION_MEMORY_KIB && elapsed < target / 2 {
        Some(Argon2Params {
            memory_kib: if 2 * p.memory_kib < MAX_CALIBRATION_MEMORY_KIB { (2 * p.memory_kib) as u32 } else { MAX_CALIBRATION_MEMORY_KIB },
            ..p
        })
    } else if p.iterations < MAX_CALIBRATION_ITERATIONS {
        Some(Argon2Params { iterations: (p.iterations + 1) as u32, ..p })
    } else if p.memory_kib < MAX_CALIBRATION_MEMORY_KIB {
        Some(Argon2Params {
            memory_kib: if p.memory_kib * 5 / 4 > MAX_CALIBRATION_MEMORY_KIB { MAX_CALIBRATION_MEMORY_KIB } else { (p.memory_kib * 5 / 4) as u32 },
            ..p
        })
    } else {
        None
    }
}

/// One decision of the calibration: given the parameters just tried and the
/// time taken, the parameters to try next, or `None` to stop.
pub fn calibration_step(p: Argon2Params, elapsed: u128, total: u128, target: u128) -> (r: Option<Argon2Params>)
    requires
        p.memory_kib <= MAX_CALIBRATION_MEMORY_KIB,
        p.iterations <= MAX_CALIBRATION_ITERATIONS,
    ensures
        r == next_calibration(p, elapsed, total, target),
{
    if elapsed >= target || total >= CALIBRATION_TIMEOUT_MS
        || (p.memory_kib >= MAX_CALIBRATION_MEMORY_KIB && p.iterations >= MAX_CALIBRATION_ITERATIONS) {
        None
    } else if p.memory_kib < MAX_CALIBRATION_MEMORY_KIB && elapsed < target / 2 {
        let doubled = p.memory_kib * 2;
        let m = if doubled < MAX_CALIBRATION_MEMORY_KIB { doubled } else { MAX_CALIBRATION_MEMORY_KIB };
        Some(Argon2Params { memory_kib: m, ..p })
    } else if p.iterations < MAX_CALIBRATION_ITERATIONS {
        Some(Argon2Params { iterations: p.iterations + 1, ..p })
    } else if p.memory_kib < MAX_CALIBRATION_MEMORY_KIB {
        let grown = p.memory_kib * 5 / 4;
        let m = if grown > MAX_CALIBRATION_MEMORY_KIB { MAX_CALIBRATION_MEMORY_KIB } else { grown };
        Some(Argon2Params { memory_kib: m, ..p })
    } else {
        None
    }
}

/// Calibrates Argon2 costs on this machine: starts at 16 MiB and one
/// iteration, and grows the costs until a derivation takes `target_ms`, the
/// limits are reached, or five seconds have gone by.
pub fn calibrate_argon2_params(target_ms: u128, parallelism: u32) -> (r: Argon2Params)
    ensures
        calibrated(r, parallelism),
{
    let mut params = Argon2Params { memory_kib: 16384, iterations: 1, parallelism };
    let start = instant_now();
    loop
        invariant
            calibrated(params, parallelism),
        decreases (MAX_CALIBRATION_ITERATIONS - params.iterations) as int * 1_000_000 + (MAX_CALIBRATION_MEMORY_KIB - params.memory_kib) as int,
    {
        let elapsed = time_argon2_trial(params.memory_kib, params.iterations, params.parallelism);
        let total = millis_since(&start);
        match calibration_step(params, elapsed, total, target_ms) {
            Some(next) => {
                params = next;
            },
            None => {
                return params;
            },
        }
    }
}

/// The SHA-256 digest of some bytes.
pub uninterp spec fn sha256_of(data: Seq<u8>) -> Seq<u8>;

/// The 32-byte Argon2id (version 0x13) output for a password, a salt and the
/// memory, time and parallelism costs.
pub uninterp spec fn argon2id_output(password: Seq<u8>, salt: Seq<u8>, memory_kib: u32, iterations: u32, parallelism: u32) -> Seq<u8>;

/// NFKC normalization of a string.
pub uninterp spec fn nfkc_of(s: Seq<char>) -> Seq<char>;

/// Unicode default case folding of a string.
pub uninterp spec fn case_folded(s: Seq<char>) -> Seq<char>;

/// Whether Argon2 accepts the costs (with 32-byte passwords, salts and
/// outputs).
pub open spec fn argon2_params_valid(p: Argon2Params) -> bool {
    &&& p.memory_kib >= 8
    &&& p.memory_kib >= 8 * p.parallelism
    &&& p.iterations >= 1
    &&& 1 <= p.parallelism <= 0xFFFFFF
}

/// The message the argon2 crate gives for rejected costs: that of the first
/// cost it checks and finds wrong.
pub open spec fn argon2_params_message(p: Argon2Params) -> Seq<char> {
    if p.memory_kib < 8 {
        "memory cost is too small"@
    } else if p.parallelism < 1 {
        "not enough threads"@
    } else if p.parallelism > 0xFFFFFF {
        "too many threads"@
    } else if p.memory_kib < 8 * p.parallelism {
        "memory cost is too small"@
    } else {
        "time cost is too small"@
    }
}

/// The SHA-256 digest of `data`.
///
/// Trusted: `Sha256::digest` of the sha2 crate; the result is the named
/// digest of the input, 32 bytes long.
#[verifier::external_body]
fn sha256(data: &[u8]) -> (r: [u8; 32])
    ensures
        r@ == sha256_of(data@),
{
    sha2::Sha256::digest(data).into()
}

/// Runs Argon2id (version 0x13) with 32 bytes of output.
///
/// Trusted: `Params::new`, `Argon2::new` and
/// `Argon2::hash_password_into_with_memory` of the argon2 crate. Its source
/// accepts the costs exactly when `argon2_params_valid` holds (passwords and
/// salts of 32 bytes are within its limits) and then fills the output; the
/// output is named. A refusal comes with the crate's message for the first
/// cost it checks and finds wrong (`argon2_params_message`). The working
/// memory (`Params::block_count` blocks) is handed over as a `Vec`, so a
/// failed allocation aborts as a `Vec` does and never shows as an error; how
/// much memory large costs take is not modelled.
#[verifier::external_body]
fn argon2id_hash(password: &[u8; 32], salt: &[u8; 32], memory_kib: u32, iterations: u32, parallelism: u32) -> (r: core::result::Result<[u8; 32], String>)
    ensures
        r is Ok <==> argon2_params_valid(Argon2Params { memory_kib, iterations, parallelism }),
        r matches Ok(k) ==> k@ == argon2id_output(password@, salt@, memory_kib, iterations, parallelism),
        r matches Err(m) ==> m@ == argon2_params_message(Argon2Params { memory_kib, iterations, parallelism }),
{
    let params = match argon2::Params::new(memory_kib, iterations, parallelism, Some(32)) {
        Ok(p) => p,
        Err(e) => return Err(e.to_string()),
    };
    let mut blocks = vec![argon2::Block::new(); params.block_count()];
    let hasher = argon2::Argon2::new(argon2::Algorithm::Argon2id, argon2::Version::V0x13, params);
    let mut out = [0u8; 32];
    match hasher.hash_password_into_with_memory(password, salt, &mut out, &mut blocks) {
        Ok(()) => Ok(out),
        Err(e) => Err(e.to_string()),
    }
}

/// NFKC normalization.
///
/// Trusted: `UnicodeNormalization::nfkc` of the unicode-normalization crate,
/// collected into a string; the result is named.
#[verifier::external_body]
fn nfkc(s: &str) -> (r: String)
    ensures
        r@ == nfkc_of(s@),
{
    s.nfkc().collect::<String>()
}

/// Default case folding.
///
/// Trusted: `caseless::default_case_fold_str`; the result is named.
#[verifier::external_body]
fn default_case_fold(s: &str) -> (r: String)
    ensures
        r@ == case_folded(s@),
{
    caseless::default_case_fold_str(s)
}

/// Hashes a fixed benchmark password once with the given costs and returns the
/// milliseconds it took.
///
/// Trusted: `Params::new` (falling back to `Params::default` on rejection),
/// `Argon2::new` and `Argon2::hash_password_into` of the argon2 crate, timed
/// with `std::time::Instant`; nothing is claimed of the duration.
#[verifier::external_body]
fn time_argon2_trial(memory_kib: u32, iterations: u32, parallelism: u32) -> (r: u128) {
    let params = argon2::Params::new(memory_kib, iterations, parallelism, Some(32)).unwrap_or_default();
    let hasher = argon2::Argon2::new(argon2::Algorithm::Argon2id, argon2::Version::V0x13, params);
    let mut out = [0u8; 32];
    let started = std::time::Instant::now();
    let _ = hasher.hash_password_into(b"benchmark_password", &[0u8; 32], &mut out);
    started.elapsed().as_millis()
}

/// `N` random bytes from the operating system.
///
/// Trusted: `RngCore::fill_bytes` of `rand::rngs::OsRng`; nothing is claimed
/// of the bytes.
#[verifier::external_body]
pub(crate) fn random_array<const N: usize>() -> (r: [u8; N]) {
    let mut bytes = [0u8; N];
    rand::rngs::OsRng.fill_bytes(&mut bytes);
    bytes
}

/// A fresh random 32-byte salt.
pub fn generate_salt() -> (r: [u8; 32]) {
    random_array::<32>()
}

/// The bytes that Argon2 receives: SHA-256 over the password bytes followed,
/// when a key file is given, by the SHA-256 of the key file.
pub open spec fn key_material(password: Seq<char>, keyfile: Option<Seq<u8>>) -> Seq<u8> {
    match keyfile {
        Some(k) => sha256_of(encode_utf8(password) + sha256_of(k)),
        None => sha256_of(encode_utf8(password)),
    }
}

/// The key derived from a password, an optional key file, a salt and costs,
/// or `None` when Argon2 rejects the costs.
pub open spec fn derived_key(password: Seq<char>, keyfile: Option<Seq<u8>>, salt: Seq<u8>, p: Argon2Params) -> Option<Seq<u8>> {
    if argon2_params_valid(p) {
        Some(argon2id_output(key_material(password, keyfile), salt, p.memory_kib, p.iterations, p.parallelism))
    } else {
        None
    }
}

/// The view of an optional byte vector.
pub open spec fn opt_view_bytes(k: Option<Vec<u8>>) -> Option<Seq<u8>> {
    match k {
        Some(b) => Some(b@),
        None => None,
    }
}

/// The view of an optional byte slice.
pub open spec fn opt_bytes(k: Option<&[u8]>) -> Option<Seq<u8>> {
    match k {
        Some(b) => Some(b@),
        None => None,
    }
}

/// Derives a 256-bit key from a password, an optional key file and a salt.
///
/// Fails with `Error::KeyDerivation` carrying Argon2's message exactly when the
/// costs are rejected.
pub fn derive_key(password: &SecureString, keyfile: Option<&[u8]>, salt: &[u8; 32], params: &Argon2Params) -> (r: Result<[u8; 32]>)
    ensures
        match r {
            Ok(k) => derived_key(password@, opt_bytes(keyfile), salt@, *params) == Some(k@),
            Err(e) => {
                &&& derived_key(password@, opt_bytes(keyfile), salt@, *params) is None
                &&& e matches Error::KeyDerivation(m) && m@ == argon2_params_message(*params)
            },
        },
{
    let mut input: Vec<u8> = vstd::slice::slice_to_vec(password.as_bytes());
    match keyfile {
        Some(kf) => {
            let kf_hash = sha256(kf);
            let mut i: usize = 0;
            let ghost start = input@;
            while i < 32
                invariant
                    i <= 32,
                    input@ == start + kf_hash@.take(i as int),
                decreases 32 - i,
            {
                input.push(kf_hash[i]);
                assert(kf_hash@.take(i + 1) =~= kf_hash@.take(i as int).push(kf_hash@[i as int]));
                i = i + 1;
            }
            assert(kf_hash@.take(32) =~= kf_hash@);
        },
        None => {},
    }
    let mut combined = sha256(input.as_slice());
    zeroize_bytes(&mut input);
    let out = argon2id_hash(&combined, salt, params.memory_kib, params.iterations, params.parallelism);
    combined = [0u8; 32];
    match out {
        Ok(k) => Ok(k),
        Err(msg) => Err(Error::KeyDerivation(msg)),
    }
}

/// Derives a key under a fresh random salt; returns the key and the salt.
pub fn derive_key_with_new_salt(password: &SecureString, keyfile: Option<&[u8]>, params: &Argon2Params) -> (r: Result<([u8; 32], [u8; 32])>)
    ensures
        match r {
            Ok((k, s)) => derived_key(password@, opt_bytes(keyfile), s@, *params) == Some(k@),
            Err(e) => {
                &&& !argon2_params_valid(*params)
                &&& e matches Error::KeyDerivation(m) && m@ == argon2_params_message(*params)
            },
        },
{
    let salt = generate_salt();
    let key = derive_key(password, keyfile, &salt, params)?;
    Ok((key, salt))
}

/// The costs used to hash security answers.
pub open spec fn answer_params() -> Argon2Params {
    Argon2Params { memory_kib: 65536, iterations: 3, parallelism: 2 }
}

fn security_answer_params() -> (r: Argon2Params)
    ensures
        r == answer_params(),
{
    Argon2Params { memory_kib: 65536, iterations: 3, parallelism: 2 }
}

/// A security answer in the form that is hashed: trimmed, then NFKC, case
/// folding and NFKC again.
pub open spec fn normalized_answer(answer: Seq<char>) -> Seq<char> {
    nfkc_of(case_folded(nfkc_of(trim(answer))))
}

/// Normalizes a security answer so that case, width and surrounding white
/// space do not matter.
pub fn normalize_security_answer(answer: &str) -> (r: String)
    ensures
        r@ == normalized_answer(answer@),
{
    let trimmed = trim_str(answer);
    let first = nfkc(trimmed.as_str());
    let folded = default_case_fold(first.as_str());
    nfkc(folded.as_str())
}

/// Hashes a security answer under a fresh salt; returns the hash and the salt.
pub fn hash_security_answer(answer: &SecureString) -> (r: Result<(Vec<u8>, [u8; 32])>)
    ensures
        r matches Ok((h, s)) && h@.len() == 32 && derived_key(normalized_answer(answer@), None, s@, answer_params()) == Some(h@),
{
    let salt = generate_salt();
    let params = security_answer_params();
    let normalized = SecureString::new(normalize_security_answer(answer.as_str()));
    let key = derive_key(&normalized, None, &salt, &params)?;
    let hash = vstd::slice::slice_to_vec(&key);
    assert(hash@ =~= key@);
    Ok((hash, salt))
}

/// Checks a security answer against a stored hash and salt.
pub fn verify_security_answer(answer: &SecureString, stored_hash: &[u8], salt: &[u8; 32]) -> (r: Result<bool>)
    ensures
        r matches Ok(b) && derived_key(normalized_answer(answer@), None, salt@, answer_params())
            matches Some(k) && b == (k == stored_hash@),
{
    let params = security_answer_params();
    let normalized = SecureString::new(normalize_security_answer(answer.as_str()));
    let derived = derive_key(&normalized, None, salt, &params)?;
    Ok(constant_time_compare(&derived, stored_hash))
}

/// An answer checks out against the hash made from it, and from any answer
/// with the same normalized form.
pub proof fn lemma_answer_matches_own_hash(answer: Seq<char>, other: Seq<char>, salt: Seq<u8>, hash: Seq<u8>)
    requires
        derived_key(normalized_answer(answer), None, salt, answer_params()) == Some(hash),
        normalized_answer(other) == normalized_answer(answer),
    ensures
        derived_key(normalized_answer(other), None, salt, answer_params()) matches Some(k) && k == hash,
{
}

/// Deriving a key twice from the same password, key file, salt and costs
/// gives the same key.
pub proof fn lemma_derivation_deterministic(
    password: Seq<char>,
    keyfile: Option<Seq<u8>>,
    salt: Seq<u8>,
    params: Argon2Params,
    k1: Seq<u8>,
    k2: Seq<u8>,
)
    requires
        derived_key(password, keyfile, salt, params) == Some(k1),
        derived_key(password, keyfile, salt, params) == Some(k2),
    ensures
        k1 == k2,
{
}

/// Compares two byte strings in time that does not depend on where they differ.
pub fn constant_time_compare(a: &[u8], b: &[u8]) -> (r: bool)
    ensures
        r == (a@ == b@),
{
    if a.len() != b.len() {
        return false;
    }
    let mut result: u8 = 0;
    let mut i: usize = 0;
    while i < a.len()
        invariant
            a.len() == b.len(),
            i <= a.len(),
            (result == 0) == (forall|j: int| 0 <= j < i ==> a@[j] == b@[j]),
        decreases a.len() - i,
    {
        let x = a[i];
        let y = b[i];
        let old_result = result;
        result = result | (x ^ y);
        assert((old_result | (x ^ y)) == 0 <==> (old_result == 0 && x == y)) by (bit_vector);
        i = i + 1;
    }
    assert(a@ =~= b@ <==> (forall|j: int| 0 <= j < a.len() ==> a@[j] == b@[j]));
    result == 0
}

} // verus!
