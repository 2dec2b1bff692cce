//! The vault file format.
//!
//! A vault file is the magic `VALT`, the format version (2 bytes, little
//! endian), the length of the header (4 bytes, little endian), the header,
//! the length of the encrypted payload (4 bytes, little endian) and the
//! payload. The header is stored in the clear and is bound to the payload as
//! associated data of the authenticated encryption, so that tampering with it
//! makes decryption fail. Turning the header, the payload and the vault into
//! bytes and back is done by the caller; this module frames and checks the
//! bytes and seals and opens the vault.
use vstd::prelude::*;

use crate::crypto::cipher::{
    EncryptedPayload, EncryptionMethod, decrypt_with_aad, encrypt_with_aad, opened_with_aad,
};
use crate::crypto::kdf::{Argon2Params, derive_key, derived_key, generate_salt, opt_bytes};
use crate::crypto::secure_string::{SecureString, decimal, decimal_string};
use crate::domain::security_question::{RecoveryMetadata, SecurityQuestion};
use crate::domain::vault::Vault;
use crate::error::{Error, Result};

verus! {

/// The magic bytes that open every vault file: `VALT`.
pub const VAULT_MAGIC: [u8; 4] = [86, 65, 76, 84];

/// The current file format version.
pub const VAULT_VERSION: u16 = 4;

/// The largest header accepted, in bytes.
pub const MAX_HEADER_SIZE: usize = 65536;

/// The largest payload accepted, in bytes.
pub const MAX_PAYLOAD_SIZE: usize = 16777216;

/// The largest Argon2 memory cost a header may ask for, in KiB (256 MiB).
pub const MAX_HEADER_MEMORY_KIB: u32 = 262144;

/// The largest Argon2 iteration count a header may ask for.
pub const MAX_HEADER_ITERATIONS: u32 = 10;

/// The largest Argon2 parallelism a header may ask for.
pub const MAX_HEADER_PARALLELISM: u32 = 8;

/// The magic as a sequence.
pub open spec fn magic() -> Seq<u8> {
    seq![86u8, 65u8, 76u8, 84u8]
}

/// Little-endian bytes of a `u16`.
pub open spec fn u16_le(v: u16) -> Seq<u8> {
    seq![(v & 0xff) as u8, ((v >> 8u16) & 0xff) as u8]
}

/// Little-endian bytes of a `u32`.
pub open spec fn u32_le(v: u32) -> Seq<u8> {
    seq![
        (v & 0xff) as u8,
        ((v >> 8u32) & 0xff) as u8,
        ((v >> 16u32) & 0xff) as u8,
        ((v >> 24u32) & 0xff) as u8,
    ]
}

/// The `u16` of two little-endian bytes.
pub open spec fn le_u16(b0: u8, b1: u8) -> u16 {
    (b0 as u16) | ((b1 as u16) << 8u16)
}

/// The `u32` of four little-endian bytes.
pub open spec fn le_u32(b0: u8, b1: u8, b2: u8, b3: u8) -> u32 {
    (b0 as u32) | ((b1 as u32) << 8u32) | ((b2 as u32) << 16u32) | ((b3 as u32) << 24u32)
}

/// The `u32` at `at` of `bytes`, little endian.
pub open spec fn u32_at(bytes: Seq<u8>, at: int) -> u32 {
    le_u32(bytes[at], bytes[at + 1], bytes[at + 2], bytes[at + 3])
}

/// The bytes of a vault file with the given version, header and payload.
pub open spec fn framed(version: u16, header: Seq<u8>, payload: Seq<u8>) -> Seq<u8> {
    magic() + u16_le(version) + u32_le(header.len() as u32) + header + u32_le(payload.len() as u32)
        + payload
}

/// Why the bytes of a vault file were refused.
#[derive(Debug, Clone, Copy, PartialEq, Eq, Structural)]
pub enum FrameProblem {
    /// The file ends early.
    Truncated,
    /// The file does not start with the magic.
    BadMagic,
    /// The file is of another format version.
    BadVersion(u16),
    /// The header length is over the limit.
    HeaderTooLarge(u32),
    /// The payload length is over the limit.
    PayloadTooLarge(u32),
}

/// The header section of a vault file: its version and header bytes, or
/// why it is refused. The checks come in the order of the fields.
pub open spec fn header_section(bytes: Seq<u8>) -> core::result::Result<(u16, Seq<u8>), FrameProblem> {
    if bytes.len() < 4 {
        Err(FrameProblem::Truncated)
    } else if bytes.take(4) != magic() {
        Err(FrameProblem::BadMagic)
    } else if bytes.len() < 6 {
        Err(FrameProblem::Truncated)
    } else if le_u16(bytes[4], bytes[5]) != VAULT_VERSION {
        Err(FrameProblem::BadVersion(le_u16(bytes[4], bytes[5])))
    } else if bytes.len() < 10 {
        Err(FrameProblem::Truncated)
    } else if u32_at(bytes, 6) > MAX_HEADER_SIZE {
        Err(FrameProblem::HeaderTooLarge(u32_at(bytes, 6)))
    } else if bytes.len() < 10 + u32_at(bytes, 6) {
        Err(FrameProblem::Truncated)
    } else {
        Ok((le_u16(bytes[4], bytes[5]), bytes.subrange(10, 10 + u32_at(bytes, 6))))
    }
}

/// The payload section of a vault file whose header is `header_len` bytes
/// long, or why it is refused.
pub open spec fn payload_section(bytes: Seq<u8>, header_len: nat) -> core::result::Result<Seq<u8>, FrameProblem> {
    let at: int = 10 + header_len as int;
    if bytes.len() < at + 4 {
        Err(FrameProblem::Truncated)
    } else if u32_at(bytes, at) > MAX_PAYLOAD_SIZE {
        Err(FrameProblem::PayloadTooLarge(u32_at(bytes, at)))
    } else if bytes.len() < at + 4 + u32_at(bytes, at) {
        Err(FrameProblem::Truncated)
    } else {
        Ok(bytes.subrange(at + 4, at + 4 + u32_at(bytes, at)))
    }
}

/// The message of the error for a refused vault file.
pub open spec fn frame_problem_message(p: FrameProblem) -> Seq<char> {
    match p {
        FrameProblem::Truncated => "failed to fill whole buffer"@,
        FrameProblem::BadMagic => "Invalid vault file magic"@,
        FrameProblem::BadVersion(v) => "Unsupported vault version: "@ + decimal(v as nat)
            + ". This version of Vault only supports version 4."@,
        FrameProblem::HeaderTooLarge(n) => "Header too large: "@ + decimal(n as nat) + " bytes"@,
        FrameProblem::PayloadTooLarge(n) => "Payload too large: "@ + decimal(n as nat) + " bytes"@,
    }
}

/// The error for a refused vault file: a short file is a read error, the
/// rest are format errors.
pub open spec fn frame_error(p: FrameProblem, e: Error) -> bool {
    match p {
        FrameProblem::Truncated => e matches Error::FileRead(m) && m@ == frame_problem_message(p),
        _ => e matches Error::InvalidVaultFormat(m) && m@ == frame_problem_message(p),
    }
}

/// The error for a refused vault file.
fn frame_problem_error(p: FrameProblem) -> (e: Error)
    ensures
        frame_error(p, e),
{
    proof {
        reveal_strlit("failed to fill whole buffer");
        reveal_strlit("Invalid vault file magic");
        reveal_strlit("Unsupported vault version: ");
        reveal_strlit(". This version of Vault only supports version 4.");
        reveal_strlit("Header too large: ");
        reveal_strlit("Payload too large: ");
        reveal_strlit(" bytes");
    }
    match p {
        FrameProblem::Truncated => Error::FileRead(String::from_str("failed to fill whole buffer")),
        FrameProblem::BadMagic => Error::InvalidVaultFormat(String::from_str("Invalid vault file magic")),
        FrameProblem::BadVersion(v) => {
            let mut m = String::from_str("Unsupported vault version: ");
            let d = decimal_string(v as u64);
            m.append(d.as_str());
            m.append(". This version of Vault only supports version 4.");
            Error::InvalidVaultFormat(m)
        },
        FrameProblem::HeaderTooLarge(n) => {
            let mut m = String::from_str("Header too large: ");
            let d = decimal_string(n as u64);
            m.append(d.as_str());
            m.append(" bytes");
            Error::InvalidVaultFormat(m)
        },
        FrameProblem::PayloadTooLarge(n) => {
            let mut m = String::from_str("Payload too large: ");
            let d = decimal_string(n as u64);
            m.append(d.as_str());
            m.append(" bytes");
            Error::InvalidVaultFormat(m)
        },
    }
}

/// Reading little-endian bytes back gives the number that was written.
pub proof fn lemma_le_roundtrip(v16: u16, v32: u32)
    ensures
        le_u16(u16_le(v16)[0], u16_le(v16)[1]) == v16,
        le_u32(u32_le(v32)[0], u32_le(v32)[1], u32_le(v32)[2], u32_le(v32)[3]) == v32,
{
    let a0 = (v16 & 0xff) as u8;
    let a1 = ((v16 >> 8u16) & 0xff) as u8;
    assert((a0 as u16) | ((a1 as u16) << 8u16) == v16) by (bit_vector)
        requires
            a0 == (v16 & 0xff) as u8,
            a1 == ((v16 >> 8u16) & 0xff) as u8,
    ;
    let b0 = (v32 & 0xff) as u8;
    let b1 = ((v32 >> 8u32) & 0xff) as u8;
    let b2 = ((v32 >> 16u32) & 0xff) as u8;
    let b3 = ((v32 >> 24u32) & 0xff) as u8;
    assert((b0 as u32) | ((b1 as u32) << 8u32) | ((b2 as u32) << 16u32) | ((b3 as u32) << 24u32)
        == v32) by (bit_vector)
        requires
            b0 == (v32 & 0xff) as u8,
            b1 == ((v32 >> 8u32) & 0xff) as u8,
            b2 == ((v32 >> 16u32) & 0xff) as u8,
            b3 == ((v32 >> 24u32) & 0xff) as u8,
    ;
}

/// Appends the little-endian bytes of `v`.
fn push_u32_le(out: &mut Vec<u8>, v: u32)
    ensures
        final(out)@ == old(out)@ + u32_le(v),
{
    out.push((v & 0xff) as u8);
    out.push(((v >> 8u32) & 0xff) as u8);
    out.push(((v >> 16u32) & 0xff) as u8);
    out.push(((v >> 24u32) & 0xff) as u8);
    assert(final(out)@ =~= old(out)@ + u32_le(v));
}

/// Appends all of `src`.
fn push_all(out: &mut Vec<u8>, src: &[u8])
    ensures
        final(out)@ == old(out)@ + src@,
{
    let ghost start = out@;
    let mut i: usize = 0;
    while i < src.len()
        invariant
            i <= src@.len(),
            out@ == start + src@.take(i as int),
        decreases src@.len() - i,
    {
        out.push(src[i]);
        assert(src@.take(i + 1) =~= src@.take(i as int).push(src@[i as int]));
        i = i + 1;
    }
    assert(src@.take(src@.len() as int) =~= src@);
}

/// The bytes of a vault file with the given version, header and payload.
pub fn encode_frame(version: u16, header_bytes: &[u8], payload_bytes: &[u8]) -> (r: Vec<u8>)
    ensures
        r@ == framed(version, header_bytes@, payload_bytes@),
{
    let mut out: Vec<u8> = Vec::new();
    out.push(86u8);
    out.push(65u8);
    out.push(76u8);
    out.push(84u8);
    out.push((version & 0xff) as u8);
    out.push(((version >> 8u16) & 0xff) as u8);
    push_u32_le(&mut out, header_bytes.len() as u32);
    push_all(&mut out, header_bytes);
    push_u32_le(&mut out, payload_bytes.len() as u32);
    push_all(&mut out, payload_bytes);
    assert(out@ =~= framed(version, header_bytes@, payload_bytes@));
    out
}

/// Reads the little-endian `u32` at `at`.
fn read_u32_le(bytes: &[u8], at: usize) -> (v: u32)
    requires
        at + 4 <= bytes@.len(),
    ensures
        v == u32_at(bytes@, at as int),
{
    (bytes[at] as u32) | ((bytes[at + 1] as u32) << 8u32) | ((bytes[at + 2] as u32) << 16u32) | ((
    bytes[at + 3] as u32) << 24u32)
}

/// Copies `bytes[from..to]`.
fn copy_range(bytes: &[u8], from: usize, to: usize) -> (r: Vec<u8>)
    requires
        from <= to <= bytes@.len(),
    ensures
        r@ == bytes@.subrange(from as int, to as int),
{
    let mut r: Vec<u8> = Vec::new();
    let mut i: usize = from;
    while i < to
        invariant
            from <= i <= to,
            to <= bytes@.len(),
            r@ == bytes@.subrange(from as int, i as int),
        decreases to - i,
    {
        r.push(bytes[i]);
        assert(bytes@.subrange(from as int, i + 1) =~= bytes@.subrange(from as int, i as int).push(
            bytes@[i as int],
        ));
        i = i + 1;
    }
    r
}

/// Checks the magic, the version and the header length of the bytes of a
/// vault file, and returns the version and the header bytes.
pub fn split_header(bytes: &[u8]) -> (r: Result<(u16, Vec<u8>)>)
    ensures
        match header_section(bytes@) {
            Ok((v, h)) => r matches Ok((rv, rh)) && rv == v && rh@ == h,
            Err(p) => r matches Err(e) && frame_error(p, e),
        },
{
    let n = bytes.len();
    if n < 4 {
        return Err(frame_problem_error(FrameProblem::Truncated));
    }
    if bytes[0] != 86u8 || bytes[1] != 65u8 || bytes[2] != 76u8 || bytes[3] != 84u8 {
        proof {
            if bytes@.take(4) == magic() {
                assert(bytes@.take(4)[0] == 86u8);
                assert(bytes@.take(4)[1] == 65u8);
                assert(bytes@.take(4)[2] == 76u8);
                assert(bytes@.take(4)[3] == 84u8);
            }
        }
        return Err(frame_problem_error(FrameProblem::BadMagic));
    }
    assert(bytes@.take(4) =~= magic());
    if n < 6 {
        return Err(frame_problem_error(FrameProblem::Truncated));
    }
    let version = (bytes[4] as u16) | ((bytes[5] as u16) << 8u16);
    if version != VAULT_VERSION {
        return Err(frame_problem_error(FrameProblem::BadVersion(version)));
    }
    if n < 10 {
        return Err(frame_problem_error(FrameProblem::Truncated));
    }
    let header_len = read_u32_le(bytes, 6);
    if header_len as usize > MAX_HEADER_SIZE {
        return Err(frame_problem_error(FrameProblem::HeaderTooLarge(header_len)));
    }
    if n - 10 < header_len as usize {
        return Err(frame_problem_error(FrameProblem::Truncated));
    }
    let header = copy_range(bytes, 10, 10 + header_len as usize);
    Ok((version, header))
}

/// Checks the payload length of the bytes of a vault file whose header is
/// `header_len` bytes long, and returns the payload bytes.
pub fn split_payload(bytes: &[u8], header_len: usize) -> (r: Result<Vec<u8>>)
    requires
        header_len <= MAX_HEADER_SIZE,
    ensures
        match payload_section(bytes@, header_len as nat) {
            Ok(p) => r matches Ok(rp) && rp@ == p,
            Err(p) => r matches Err(e) && frame_error(p, e),
        },
{
    let n = bytes.len();
    let at = 10 + header_len;
    if n < at || n - at < 4 {
        return Err(frame_problem_error(FrameProblem::Truncated));
    }
    let payload_len = read_u32_le(bytes, at);
    if payload_len as usize > MAX_PAYLOAD_SIZE {
        return Err(frame_problem_error(FrameProblem::PayloadTooLarge(payload_len)));
    }
    if n - at - 4 < payload_len as usize {
        return Err(frame_problem_error(FrameProblem::Truncated));
    }
    let payload = copy_range(bytes, at + 4, at + 4 + payload_len as usize);
    Ok(payload)
}

/// A file framed from a header and a payload within the limits reads back
/// as that version, header and payload.
pub proof fn lemma_frame_roundtrip(header: Seq<u8>, payload: Seq<u8>)
    requires
        header.len() <= MAX_HEADER_SIZE,
        payload.len() <= MAX_PAYLOAD_SIZE,
    ensures
        header_section(framed(VAULT_VERSION, header, payload)) == Ok::<(u16, Seq<u8>), FrameProblem>(
            (VAULT_VERSION, header),
        ),
        payload_section(framed(VAULT_VERSION, header, payload), header.len()) == Ok::<
            Seq<u8>,
            FrameProblem,
        >(payload),
{
    let bytes = framed(VAULT_VERSION, header, payload);
    let hl = header.len() as u32;
    let pl = payload.len() as u32;
    lemma_le_roundtrip(VAULT_VERSION, hl);
    lemma_le_roundtrip(VAULT_VERSION, pl);
    assert(bytes.take(4) =~= magic());
    assert(bytes[4] == u16_le(VAULT_VERSION)[0]);
    assert(bytes[5] == u16_le(VAULT_VERSION)[1]);
    assert(bytes[6] == u32_le(hl)[0]);
    assert(bytes[7] == u32_le(hl)[1]);
    assert(bytes[8] == u32_le(hl)[2]);
    assert(bytes[9] == u32_le(hl)[3]);
    assert(hl as nat == header.len());
    assert(bytes.subrange(10, 10 + header.len() as int) =~= header);
    let at: int = 10 + header.len() as int;
    assert(bytes[at] == u32_le(pl)[0]);
    assert(bytes[at + 1] == u32_le(pl)[1]);
    assert(bytes[at + 2] == u32_le(pl)[2]);
    assert(bytes[at + 3] == u32_le(pl)[3]);
    assert(pl as nat == payload.len());
    assert(bytes.subrange(at + 4, at + 4 + payload.len() as int) =~= payload);
}

/// The texts of security questions.
pub open spec fn question_texts(qs: Seq<SecurityQuestion>) -> Seq<Seq<char>> {
    qs.map_values(|q: SecurityQuestion| q.question@)
}

/// The views of strings.
pub open spec fn string_views(v: Seq<String>) -> Seq<Seq<char>> {
    v.map_values(|s: String| s@)
}

/// The part of a vault file stored in the clear.
#[derive(Debug, Clone)]
pub struct VaultFileHeader {
    /// Identifier of the vault.
    pub vault_id: u128,
    /// Name of the vault, shown before unlocking.
    pub vault_name: String,
    /// Creation time, in milliseconds since the Unix epoch.
    pub created_at: i64,
    /// Whether a key file is required.
    pub has_keyfile: bool,
    /// Number of security questions (kept in a byte).
    pub security_question_count: u8,
    /// Texts of the security questions, shown before unlocking.
    pub security_questions: Vec<String>,
    /// Cipher of the payload.
    pub encryption_method: EncryptionMethod,
    /// Costs of the key derivation.
    pub argon2_params: Argon2Params,
    /// What the forgot-password flow needs, when it is set up.
    pub recovery_metadata: Option<RecoveryMetadata>,
}

/// The question texts a header shows: those of the recovery setup when there
/// is one, else those of the vault.
pub open spec fn shown_questions(vault: Vault, recovery: Option<RecoveryMetadata>) -> Seq<Seq<char>> {
    match recovery {
        Some(m) => question_texts(m.questions@),
        None => question_texts(vault.security_questions@),
    }
}

/// The texts of `qs`, in order.
pub(crate) fn copy_question_texts(qs: &Vec<SecurityQuestion>) -> (r: Vec<String>)
    ensures
        string_views(r@) == question_texts(qs@),
{
    let mut r: Vec<String> = Vec::new();
    let mut i: usize = 0;
    while i < qs.len()
        invariant
            i <= qs@.len(),
            r@.len() == i,
            string_views(r@) == question_texts(qs@.take(i as int)),
        decreases qs@.len() - i,
    {
        let t = qs[i].question.clone();
        assert(t@ == qs@[i as int].question@);
        let ghost prev = r@;
        r.push(t);
        assert forall|j: int| 0 <= j < i + 1 implies #[trigger] string_views(r@)[j] == question_texts(
            qs@.take(i + 1),
        )[j] by {
            assert(r@ == prev.push(t));
            if j < i {
                assert(r@[j] == prev[j]);
                assert(string_views(prev)[j] == prev[j]@);
                assert(string_views(prev)[j] == question_texts(qs@.take(i as int))[j]);
                assert(question_texts(qs@.take(i as int))[j] == qs@[j].question@);
                assert(question_texts(qs@.take(i + 1))[j] == qs@[j].question@);
            } else {
                assert(r@[j] == t);
                assert(question_texts(qs@.take(i + 1))[j] == qs@[j].question@);
            }
        }
        assert(string_views(r@) =~= question_texts(qs@.take(i + 1)));
        i = i + 1;
    }
    assert(qs@.take(qs@.len() as int) =~= qs@);
    r
}

impl VaultFileHeader {
    /// The header of a vault file for `vault`.
    pub fn from_vault(
        vault: &Vault,
        has_keyfile: bool,
        encryption_method: EncryptionMethod,
        argon2_params: Argon2Params,
        recovery_metadata: Option<RecoveryMetadata>,
    ) -> (r: VaultFileHeader)
        ensures
            r.vault_id == vault.id,
            r.vault_name@ == vault.name@,
            r.created_at == vault.created_at,
            r.has_keyfile == has_keyfile,
            string_views(r.security_questions@) == shown_questions(*vault, recovery_metadata),
            r.security_question_count == r.security_questions@.len() as u8,
            r.encryption_method == encryption_method,
            r.argon2_params == argon2_params,
            r.recovery_metadata == recovery_metadata,
    {
        let texts = match &recovery_metadata {
            Some(m) => copy_question_texts(&m.questions),
            None => copy_question_texts(&vault.security_questions),
        };
        VaultFileHeader {
            vault_id: vault.id,
            vault_name: vault.name.clone(),
            created_at: vault.created_at,
            has_keyfile,
            security_question_count: texts.len() as u8,
            security_questions: texts,
            encryption_method,
            argon2_params,
            recovery_metadata,
        }
    }

    /// Whether the key derivation costs are within the limits a header may
    /// ask for, which keeps a crafted file from making unlocking exhaust the
    /// machine.
    pub open spec fn within_limits(&self) -> bool {
        &&& self.argon2_params.memory_kib <= MAX_HEADER_MEMORY_KIB
        &&& self.argon2_params.iterations <= MAX_HEADER_ITERATIONS
        &&& self.argon2_params.parallelism <= MAX_HEADER_PARALLELISM
    }

    /// Refuses a header whose key derivation costs exceed the limits.
    pub fn check_limits(&self) -> (r: Result<()>)
        ensures
            r is Ok <==> self.within_limits(),
            r matches Err(e) ==> e matches Error::InvalidVaultFormat(m)
                && m@ == "Argon2 parameters exceed safety limits"@,
    {
        if self.argon2_params.memory_kib > MAX_HEADER_MEMORY_KIB
            || self.argon2_params.iterations > MAX_HEADER_ITERATIONS
            || self.argon2_params.parallelism > MAX_HEADER_PARALLELISM
        {
            proof {
                reveal_strlit("Argon2 parameters exceed safety limits");
            }
            return Err(Error::InvalidVaultFormat(String::from_str("Argon2 parameters exceed safety limits")));
        }
        Ok(())
    }
}

/// A vault file: the header in the clear and the encrypted vault.
#[derive(Debug)]
pub struct VaultFile {
    /// The header.
    pub header: VaultFileHeader,
    /// The encrypted vault.
    pub encrypted_payload: EncryptedPayload,
    /// The encoded header, bound to the payload as associated data.
    pub header_bytes: Vec<u8>,
    /// The format version.
    pub version: u16,
}

/// The vault bytes that `file` opens to with a password and an optional key
/// file, or `None` when the key cannot be derived or the ciphertext, its
/// header or the key do not authenticate.
pub open spec fn opened_vault(file: VaultFile, password: Seq<char>, keyfile: Option<Seq<u8>>) -> Option<Seq<u8>> {
    match derived_key(password, keyfile, file.encrypted_payload.salt@, file.header.argon2_params) {
        Some(k) => opened_with_aad(
            file.header.encryption_method,
            k,
            file.encrypted_payload.nonce@,
            file.header_bytes@,
            file.encrypted_payload.ciphertext@,
        ),
        None => None,
    }
}

/// The vault bytes that `file` opens to under a key already derived.
pub open spec fn opened_vault_with_key(file: VaultFile, key: Seq<u8>) -> Option<Seq<u8>> {
    opened_with_aad(
        file.header.encryption_method,
        key,
        file.encrypted_payload.nonce@,
        file.header_bytes@,
        file.encrypted_payload.ciphertext@,
    )
}

impl VaultFile {
    /// The format version.
    pub fn version(&self) -> (r: u16)
        ensures
            r == self.version,
    {
        self.version
    }

    /// The encoded header.
    pub fn header_bytes(&self) -> (r: &Vec<u8>)
        ensures
            r@ == self.header_bytes@,
    {
        &self.header_bytes
    }

    /// A vault file read back from its parts.
    pub fn from_parts(header: VaultFileHeader, encrypted_payload: EncryptedPayload, header_bytes: Vec<u8>, version: u16) -> (r: VaultFile)
        ensures
            r.header == header,
            r.encrypted_payload == encrypted_payload,
            r.header_bytes@ == header_bytes@,
            r.version == version,
    {
        VaultFile { header, encrypted_payload, header_bytes, version }
    }

    /// Seals the encoded vault `vault_bytes` under `key`, with the encoded
    /// header `header_bytes` as associated data.
    ///
    /// On success the file has the current version and opens under `key` to
    /// the vault bytes.
    pub fn new_with_key_options(
        header: VaultFileHeader,
        header_bytes: Vec<u8>,
        vault_bytes: &[u8],
        key: &[u8; 32],
        salt: &[u8; 32],
    ) -> (r: Result<VaultFile>)
        ensures
            match r {
                Ok(f) => {
                    &&& f.header == header
                    &&& f.header_bytes@ == header_bytes@
                    &&& f.version == VAULT_VERSION
                    &&& f.encrypted_payload.salt == *salt
                    &&& f.encrypted_payload.argon2_params == header.argon2_params
                    &&& opened_vault_with_key(f, key@) == Some(vault_bytes@)
                },
                Err(e) => e matches Error::Encryption(m) && m@ == "aead::Error"@,
            },
    {
        let payload = encrypt_with_aad(
            header.encryption_method,
            vault_bytes,
            key,
            *salt,
            header.argon2_params,
            header_bytes.as_slice(),
        )?;
        Ok(VaultFile { header, encrypted_payload: payload, header_bytes, version: VAULT_VERSION })
    }

    /// Seals the encoded vault `vault_bytes` under a key derived from the
    /// password, the optional key file, a fresh salt and the header's costs,
    /// with the encoded header `header_bytes` as associated data.
    ///
    /// On success the file opens with the same password and key file to the
    /// vault bytes. Fails as key derivation does when the header's costs are
    /// refused, and as encryption does otherwise.
    pub fn new_with_options(
        header: VaultFileHeader,
        header_bytes: Vec<u8>,
        vault_bytes: &[u8],
        password: &SecureString,
        keyfile: Option<&[u8]>,
    ) -> (r: Result<VaultFile>)
        ensures
            match r {
                Ok(f) => {
                    &&& f.header == header
                    &&& f.header_bytes@ == header_bytes@
                    &&& f.version == VAULT_VERSION
                    &&& opened_vault(f, password@, opt_bytes(keyfile)) == Some(vault_bytes@)
                },
                Err(e) => {
                    ||| e matches Error::KeyDerivation(_)
                    ||| e matches Error::Encryption(_)
                },
            },
            r matches Err(Error::KeyDerivation(_)) <==> !crate::crypto::kdf::argon2_params_valid(
                header.argon2_params,
            ),
    {
        let salt = generate_salt();
        let params = header.argon2_params;
        let key = derive_key(password, keyfile, &salt, &params)?;
        VaultFile::new_with_key_options(header, header_bytes, vault_bytes, &key, &salt)
    }

    /// Opens the vault bytes with a password and an optional key file.
    ///
    /// Succeeds exactly when the file opens; fails as key derivation does
    /// when the header's costs are refused, and with `Error::Decryption` when
    /// the password, the key file, the header or the ciphertext is wrong.
    pub fn decrypt(&self, password: &SecureString, keyfile: Option<&[u8]>) -> (r: Result<Vec<u8>>)
        ensures
            match r {
                Ok(v) => opened_vault(*self, password@, opt_bytes(keyfile)) == Some(v@),
                Err(e) => {
                    &&& opened_vault(*self, password@, opt_bytes(keyfile)) is None
                    &&& (e == Error::Decryption || e matches Error::KeyDerivation(_))
                },
            },
    {
        let (v, _key) = self.decrypt_with_key(password, keyfile)?;
        Ok(v)
    }

    /// Opens the vault bytes as `decrypt` does and also returns the derived
    /// key, for saving later without deriving it again.
    pub fn decrypt_with_key(&self, password: &SecureString, keyfile: Option<&[u8]>) -> (r: Result<(Vec<u8>, [u8; 32])>)
        ensures
            match r {
                Ok((v, k)) => {
                    &&& opened_vault(*self, password@, opt_bytes(keyfile)) == Some(v@)
                    &&& derived_key(password@, opt_bytes(keyfile), self.encrypted_payload.salt@, self.header.argon2_params) == Some(k@)
                },
                Err(e) => {
                    &&& opened_vault(*self, password@, opt_bytes(keyfile)) is None
                    &&& (e == Error::Decryption || e matches Error::KeyDerivation(_))
                },
            },
    {
        let params = self.header.argon2_params;
        let key = derive_key(password, keyfile, &self.encrypted_payload.salt, &params)?;
        let v = decrypt_with_aad(self.header.encryption_method, &self.encrypted_payload, &key, self.header_bytes.as_slice())?;
        Ok((v, key))
    }

    /// The stored header bytes when they are to be written as they are
    /// (version 3 and later, when there are some); otherwise the header is
    /// to be encoded afresh.
    pub fn stored_header_bytes(&self) -> (r: Option<&Vec<u8>>)
        ensures
            match r {
                Some(b) => self.version >= 3 && self.header_bytes@.len() > 0 && b@ == self.header_bytes@,
                None => !(self.version >= 3 && self.header_bytes@.len() > 0),
            },
    {
        if self.version >= 3 && self.header_bytes.len() > 0 {
            Some(&self.header_bytes)
        } else {
            None
        }
    }
}

/// What a vault file sealed with a password and key file opens to with the
/// same password and key file: the vault bytes it was sealed with, whatever
/// the fresh salt and nonce were.
pub proof fn lemma_sealed_vault_opens(file: VaultFile, password: Seq<char>, keyfile: Option<Seq<u8>>, vault_bytes: Seq<u8>)
    requires
        opened_vault(file, password, keyfile) == Some(vault_bytes),
    ensures
        derived_key(password, keyfile, file.encrypted_payload.salt@, file.header.argon2_params) is Some,
        opened_vault_with_key(
            file,
            derived_key(password, keyfile, file.encrypted_payload.salt@, file.header.argon2_params)->0,
        ) == Some(vault_bytes),
{
}

} // verus!
