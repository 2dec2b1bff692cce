//! Security questions and the recovery of a forgotten master password.
use vstd::prelude::*;

use vstd::utf8::{decode_utf8, encode_utf8, valid_utf8};

use crate::crypto::cipher::{EncryptedPayload, EncryptionMethod, encrypt_with_method, decrypt_with_method, opened_with};
use crate::crypto::kdf::{
    Argon2Params, answer_params, derive_key, derived_key, generate_salt, hash_security_answer,
    normalized_answer, verify_security_answer,
};
use crate::crypto::secure_string::{SecureString, string_push};
use crate::domain::mask::{lemma_masked_shape, masked, partial_reveal};
use crate::error::{Error, Result};
use crate::text::{is_blank, trim, trim_str};

verus! {

/// A security question with its hashed answer.
#[derive(Debug, Clone)]
pub struct SecurityQuestion {
    /// The question text.
    pub question: String,
    /// Hash of the normalized answer.
    pub answer_hash: Vec<u8>,
    /// Salt of the hash.
    pub salt: [u8; 32],
}

/// Whether `answer` is the answer that `q` was made with, up to
/// normalization.
pub open spec fn answer_accepted(q: SecurityQuestion, answer: Seq<char>) -> bool {
    derived_key(normalized_answer(answer), None, q.salt@, answer_params()) == Some(q.answer_hash@)
}

impl SecurityQuestion {
    /// A question whose answer is hashed under a fresh salt.
    pub fn new(question: &str, answer: &SecureString) -> (r: Result<SecurityQuestion>)
        ensures
            r matches Ok(q) && q.question@ == question@ && answer_accepted(q, answer@),
    {
        let (answer_hash, salt) = hash_security_answer(answer)?;
        Ok(SecurityQuestion { question: String::from_str(question), answer_hash, salt })
    }

    /// Whether `answer` matches the stored hash.
    pub fn verify(&self, answer: &SecureString) -> (r: Result<bool>)
        ensures
            r matches Ok(b) && b == answer_accepted(*self, answer@),
    {
        verify_security_answer(answer, self.answer_hash.as_slice(), &self.salt)
    }

    /// A copy of this question.
    pub fn duplicate(&self) -> (r: SecurityQuestion)
        ensures
            r.question@ == self.question@,
            r.answer_hash@ == self.answer_hash@,
            r.salt == self.salt,
    {
        SecurityQuestion { question: self.question.clone(), answer_hash: self.answer_hash.clone(), salt: self.salt }
    }
}

/// The answer a question was made with is accepted, and so is any answer with
/// the same normalized form.
pub proof fn lemma_question_accepts_its_answer(q: SecurityQuestion, answer: Seq<char>, other: Seq<char>)
    requires
        answer_accepted(q, answer),
        normalized_answer(other) == normalized_answer(answer),
    ensures
        answer_accepted(q, other),
{
}

/// Default share of the password, in percent, revealed after `count`
/// correct answers.
pub open spec fn default_reveal_percent(count: nat) -> u32 {
    if count == 0 { 0 } else if count == 1 { 30 } else if count == 2 { 50 } else { 80 }
}

/// Configuration of progressive password recovery.
#[derive(Debug, Clone, Copy, PartialEq, Eq)]
pub struct RecoveryConfig {
    /// Percent of the password revealed after the first, second and third
    /// correct answer.
    pub reveal_percentages: [u32; 3],
    /// Failed attempts allowed before lockout.
    pub max_attempts: u32,
}

impl Default for RecoveryConfig {
    fn default() -> (r: RecoveryConfig)
        ensures
            r.reveal_percentages@ == seq![30u32, 50u32, 80u32],
            r.max_attempts == 5,
    {
        let r = RecoveryConfig { reveal_percentages: [30, 50, 80], max_attempts: 5 };
        assert(r.reveal_percentages@ =~= seq![30u32, 50u32, 80u32]);
        r
    }
}

impl RecoveryConfig {
    /// Percent revealed after `correct_count` correct answers.
    pub fn get_reveal_percentage(&self, correct_count: usize) -> (r: u32)
        ensures
            r == (if correct_count == 0 {
                0
            } else if correct_count == 1 {
                self.reveal_percentages@[0]
            } else if correct_count == 2 {
                self.reveal_percentages@[1]
            } else {
                self.reveal_percentages@[2]
            }),
    {
        if correct_count == 0 {
            0
        } else if correct_count == 1 {
            self.reveal_percentages[0]
        } else if correct_count == 2 {
            self.reveal_percentages[1]
        } else {
            self.reveal_percentages[2]
        }
    }
}

/// A random 64-bit number.
///
/// Trusted: `rand::random::<u64>` of the rand crate; nothing is claimed of the
/// value.
#[verifier::external_body]
fn random_u64() -> (r: u64) {
    rand::random::<u64>()
}

/// Number of `true` values in `s`.
pub open spec fn count_true(s: Seq<bool>) -> nat
    decreases s.len(),
{
    if s.len() == 0 {
        0
    } else {
        count_true(s.drop_last()) + if s.last() { 1nat } else { 0nat }
    }
}

/// State of a recovery attempt that checks answers one question at a time.
#[derive(Debug)]
pub struct RecoveryState {
    /// The questions to answer.
    pub questions: Vec<SecurityQuestion>,
    /// Which questions were answered correctly.
    pub correct_answers: Vec<bool>,
    /// Number of wrong answers so far.
    pub failed_attempts: u32,
    /// Configuration.
    pub config: RecoveryConfig,
    /// Seed of the partial reveal.
    pub reveal_seed: u64,
}

impl RecoveryState {
    /// One flag per question.
    pub open spec fn wf(&self) -> bool {
        self.correct_answers@.len() == self.questions@.len()
    }

    /// A fresh attempt with the default configuration.
    pub fn new(questions: Vec<SecurityQuestion>, reveal_seed: u64) -> (r: RecoveryState)
        ensures
            r.wf(),
            r.questions@ == questions@,
            forall|i: int| 0 <= i < r.correct_answers@.len() ==> !#[trigger] r.correct_answers@[i],
            r.failed_attempts == 0,
            r.config.max_attempts == 5,
            r.config.reveal_percentages@ == seq![30u32, 50u32, 80u32],
            r.reveal_seed == reveal_seed,
    {
        let mut correct_answers: Vec<bool> = Vec::new();
        let mut i: usize = 0;
        while i < questions.len()
            invariant
                i <= questions@.len(),
                correct_answers@.len() == i,
                forall|j: int| 0 <= j < i ==> !#[trigger] correct_answers@[j],
            decreases questions@.len() - i,
        {
            correct_answers.push(false);
            i = i + 1;
        }
        RecoveryState { questions, correct_answers, failed_attempts: 0, config: RecoveryConfig::default(), reveal_seed }
    }

    /// Checks `answer` for question `question_index`: a correct answer marks the
    /// question, a wrong one counts as a failed attempt; an index past the
    /// questions is a wrong answer that is not counted.
    pub fn attempt_answer(&mut self, question_index: usize, answer: &SecureString) -> (r: Result<bool>)
        requires
            old(self).wf(),
            old(self).failed_attempts < u32::MAX,
        ensures
            final(self).wf(),
            final(self).questions == old(self).questions,
            final(self).config == old(self).config,
            final(self).reveal_seed == old(self).reveal_seed,
            question_index >= old(self).questions@.len() ==> r == Ok::<bool, Error>(false) && *final(self) == *old(self),
            question_index < old(self).questions@.len() ==> {
                let ok = answer_accepted(old(self).questions@[question_index as int], answer@);
                &&& r == Ok::<bool, Error>(ok)
                &&& ok ==> final(self).correct_answers@ == old(self).correct_answers@.update(question_index as int, true)
                    && final(self).failed_attempts == old(self).failed_attempts
                &&& !ok ==> final(self).correct_answers@ == old(self).correct_answers@
                    && final(self).failed_attempts == old(self).failed_attempts + 1
            },
    {
        if question_index >= self.questions.len() {
            return Ok(false);
        }
        let is_correct = self.questions[question_index].verify(answer)?;
        if is_correct {
            self.correct_answers.set(question_index, true);
        } else {
            self.failed_attempts = self.failed_attempts + 1;
        }
        Ok(is_correct)
    }

    /// Number of questions answered correctly.
    pub fn correct_count(&self) -> (r: usize)
        ensures
            r == count_true(self.correct_answers@),
    {
        let mut n: usize = 0;
        let mut i: usize = 0;
        while i < self.correct_answers.len()
            invariant
                i <= self.correct_answers@.len(),
                n == count_true(self.correct_answers@.take(i as int)),
                n <= i,
            decreases self.correct_answers@.len() - i,
        {
            assert(self.correct_answers@.take(i + 1).drop_last() =~= self.correct_answers@.take(i as int));
            if self.correct_answers[i] {
                n = n + 1;
            }
            i = i + 1;
        }
        assert(self.correct_answers@.take(i as int) =~= self.correct_answers@);
        n
    }

    /// Whether the allowed wrong answers are used up.
    pub fn is_locked_out(&self) -> (r: bool)
        ensures
            r == (self.failed_attempts >= self.config.max_attempts),
    {
        self.failed_attempts >= self.config.max_attempts
    }

    /// The password as revealed so far: bullets only (at most 16, one per
    /// byte) before any correct answer, then the configured share.
    pub fn reveal_password(&self, password: &str) -> (r: String)
        ensures
            ({
                let pct = self.config.get_reveal_percentage_spec(count_true(self.correct_answers@));
                if pct == 0 {
                    r@ == Seq::new(
                        if encode_utf8(password@).len() < 16 { encode_utf8(password@).len() } else { 16 },
                        |i: int| '\u{2022}',
                    )
                } else {
                    r@ == masked(password@, pct, self.reveal_seed)
                }
            }),
    {
        let count = self.correct_count();
        let pct = self.config.get_reveal_percentage(count);
        if pct == 0 {
            let bytes = password.as_bytes().len();
            let n = if bytes < 16 { bytes } else { 16 };
            let mut r = String::new();
            let mut i: usize = 0;
            while i < n
                invariant
                    i <= n,
                    r@ =~= Seq::new(i as nat, |j: int| '\u{2022}'),
                decreases n - i,
            {
                string_push(&mut r, '\u{2022}');
                i = i + 1;
            }
            return r;
        }
        partial_reveal(password, pct, self.reveal_seed)
    }

    /// Whether every question was answered correctly.
    pub fn is_complete(&self) -> (r: bool)
        ensures
            r == (forall|i: int| 0 <= i < self.correct_answers@.len() ==> #[trigger] self.correct_answers@[i]),
    {
        let mut i: usize = 0;
        while i < self.correct_answers.len()
            invariant
                i <= self.correct_answers@.len(),
                forall|j: int| 0 <= j < i ==> #[trigger] self.correct_answers@[j],
            decreases self.correct_answers@.len() - i,
        {
            if !self.correct_answers[i] {
                return false;
            }
            i = i + 1;
        }
        true
    }
}

impl RecoveryConfig {
    /// Percent revealed after `count` correct answers.
    pub open spec fn get_reveal_percentage_spec(&self, count: nat) -> u32 {
        if count == 0 {
            0
        } else if count == 1 {
            self.reveal_percentages@[0]
        } else if count == 2 {
            self.reveal_percentages@[1]
        } else {
            self.reveal_percentages@[2]
        }
    }
}

/// An encrypted hint of progressive recovery.
#[derive(Debug, Clone)]
pub struct RecoveryStage {
    /// Number of correct answers this stage needs.
    pub required_correct: u8,
    /// The encrypted hint.
    pub encrypted_hint: EncryptedPayload,
}

/// What is needed to recover a forgotten master password with security
/// questions; it is stored in the vault header, outside the encrypted body.
#[derive(Debug, Clone)]
pub struct RecoveryMetadata {
    /// Questions with hashed answers (at most three).
    pub questions: Vec<SecurityQuestion>,
    /// Stages of progressive reveal; the last one decrypts to the password.
    pub stages: Vec<RecoveryStage>,
    /// Failed attempts allowed before lockout.
    pub max_attempts: u32,
    /// Cipher of the hints.
    pub encryption_method: EncryptionMethod,
}

/// The key material of some answers: the answers as typed, joined by
/// newlines (the recovery setup asks for them exactly as given).
pub open spec fn joined(answers: Seq<Seq<char>>) -> Seq<char>
    decreases answers.len(),
{
    if answers.len() == 0 {
        Seq::empty()
    } else if answers.len() == 1 {
        answers[0]
    } else {
        joined(answers.drop_last()) + seq!['\n'] + answers.last()
    }
}

/// The texts of some secrets.
pub open spec fn secret_views(s: Seq<SecureString>) -> Seq<Seq<char>> {
    s.map_values(|x: SecureString| x@)
}

/// The texts of question/answer pairs.
pub open spec fn pair_views(qa: Seq<(String, SecureString)>) -> Seq<(Seq<char>, Seq<char>)> {
    qa.map_values(|p: (String, SecureString)| (p.0@, p.1@))
}

/// The answers of question/answer pairs.
pub open spec fn answers_of(qa: Seq<(Seq<char>, Seq<char>)>) -> Seq<Seq<char>> {
    qa.map_values(|p: (Seq<char>, Seq<char>)| p.1)
}

/// Argon2 costs of the hint keys.
pub open spec fn hint_params() -> Argon2Params {
    Argon2Params { memory_kib: 16384, iterations: 2, parallelism: 2 }
}

/// The hint that stage `i` of `n` holds: the password for the last stage,
/// a partial reveal for the others.
pub open spec fn stage_hint(password: Seq<char>, i: nat, n: nat, seed: u64) -> Seq<char> {
    if i + 1 == n {
        password
    } else {
        masked(password, default_reveal_percent(i + 1), seed)
    }
}

/// Stage `i` opens to `hint` with the key derived from the first `i + 1`
/// answers.
pub open spec fn stage_holds(st: RecoveryStage, i: nat, method: EncryptionMethod, answers: Seq<Seq<char>>, hint: Seq<char>) -> bool {
    &&& st.required_correct == i + 1
    &&& st.encrypted_hint.argon2_params == hint_params()
    &&& derived_key(joined(answers.take(i as int + 1)), None, st.encrypted_hint.salt@, hint_params()) matches Some(k)
        && opened_with(method, k, st.encrypted_hint.nonce@, st.encrypted_hint.ciphertext@) == Some(encode_utf8(hint))
}

/// `m` was built from the question/answer pairs `qa`, the password and the
/// method.
pub open spec fn built_from(m: RecoveryMetadata, qa: Seq<(Seq<char>, Seq<char>)>, password: Seq<char>, method: EncryptionMethod) -> bool {
    &&& m.questions@.len() == qa.len()
    &&& m.stages@.len() == qa.len()
    &&& m.encryption_method == method
    &&& m.max_attempts == 5
    &&& forall|i: int| 0 <= i < qa.len() ==> (#[trigger] m.questions@[i]).question@ == trim(qa[i].0)
        && answer_accepted(m.questions@[i], qa[i].1)
    &&& exists|seed: u64| #[trigger] stages_hold(m, qa, password, method, seed)
}

/// Every stage of `m` holds its hint for a reveal seed.
pub open spec fn stages_hold(m: RecoveryMetadata, qa: Seq<(Seq<char>, Seq<char>)>, password: Seq<char>, method: EncryptionMethod, seed: u64) -> bool {
    forall|i: int| 0 <= i < qa.len() ==> stage_holds(#[trigger] m.stages@[i], i as nat, method,
        answers_of(qa), stage_hint(password, i as nat, qa.len(), seed))
}

/// The first problem of a list of question/answer pairs, if any: a blank
/// question or a blank answer.
pub open spec fn pairs_problem(qa: Seq<(Seq<char>, Seq<char>)>) -> Option<Seq<char>>
    decreases qa.len(),
{
    if qa.len() == 0 {
        None
    } else {
        match pairs_problem(qa.drop_last()) {
            Some(m) => Some(m),
            None => if trim(qa.last().0).len() == 0 {
                Some("Security question cannot be empty"@)
            } else if trim(qa.last().1).len() == 0 {
                Some("Security answer cannot be empty"@)
            } else {
                None
            },
        }
    }
}

/// What revealing with `answers` gives: the decrypted hint of the stage
/// matching their number, when the key derives, the cipher opens the hint and
/// the hint is UTF-8.
pub open spec fn revealed_text(m: RecoveryMetadata, answers: Seq<Seq<char>>) -> Option<Seq<char>> {
    if answers.len() == 0 {
        Some(Seq::empty())
    } else if answers.len() > m.stages@.len() {
        None
    } else {
        let p = m.stages@[answers.len() - 1].encrypted_hint;
        match derived_key(joined(answers), None, p.salt@, p.argon2_params) {
            None => None,
            Some(k) => match opened_with(m.encryption_method, k, p.nonce@, p.ciphertext@) {
                None => None,
                Some(b) => if valid_utf8(b) { Some(decode_utf8(b)) } else { None },
            },
        }
    }
}

/// Converts UTF-8 bytes to a string.
///
/// Trusted: `String::from_utf8` of std, documented to succeed exactly on valid
/// UTF-8 and then to hold those bytes.
#[verifier::external_body]
fn string_from_utf8(bytes: Vec<u8>) -> (r: Option<String>)
    ensures
        r is Some <==> valid_utf8(bytes@),
        r matches Some(s) ==> encode_utf8(s@) == bytes@,
{
    String::from_utf8(bytes).ok()
}

impl RecoveryMetadata {
    /// Builds recovery metadata from one to three question/answer pairs and
    /// the master password: each question keeps a hash of its answer, and
    /// stage `i` encrypts a hint under a key derived from the first `i + 1`
    /// answers. The hint of the last stage is the password; the others show
    /// 30% and 50% of it. Valid pairs fail only with a password too long for
    /// the cipher (more than 2^34 chars).
    pub fn build(question_answers: Vec<(String, SecureString)>, master_password: &SecureString, encryption_method: EncryptionMethod) -> (r: Result<RecoveryMetadata>)
        ensures
            ({
                let qa = pair_views(question_answers@);
                if qa.len() == 0 || qa.len() > 3 {
                    r matches Err(Error::InvalidItem(m)) && m@ == "Recovery questions must be between 1 and 3"@
                } else {
                    match pairs_problem(qa) {
                        Some(msg) => r matches Err(Error::InvalidItem(m)) && m@ == msg,
                        None => match r {
                            Ok(m) => built_from(m, qa, master_password@, encryption_method),
                            Err(e) => (e matches Error::Encryption(m) && m@ == "aead::Error"@)
                                && master_password@.len() > 0x4_0000_0000,
                        },
                    }
                }
            }),
    {
        let ghost qa = pair_views(question_answers@);
        let total = question_answers.len();
        if total == 0 || total > 3 {
            proof { reveal_strlit("Recovery questions must be between 1 and 3"); }
            return Err(Error::InvalidItem(String::from_str("Recovery questions must be between 1 and 3")));
        }
        let mut questions: Vec<SecurityQuestion> = Vec::new();
        let mut ordered_answers: Vec<SecureString> = Vec::new();
        let mut i: usize = 0;
        while i < total
            invariant
                total == question_answers@.len(),
                1 <= total <= 3,
                qa == pair_views(question_answers@),
                i <= total,
                pairs_problem(qa.take(i as int)) is None,
                questions@.len() == i,
                ordered_answers@.len() == i,
                forall|j: int| 0 <= j < i ==> (#[trigger] questions@[j]).question@ == trim(qa[j].0)
                    && answer_accepted(questions@[j], qa[j].1),
                forall|j: int| 0 <= j < i ==> (#[trigger] ordered_answers@[j])@ == qa[j].1,
            decreases total - i,
        {
            let (question_text, answer) = &question_answers[i];
            assert(qa.take(i + 1).drop_last() =~= qa.take(i as int));
            assert(qa[i as int] == (question_text@, answer@));
            let trimmed = trim_str(question_text.as_str());
            if trimmed.as_str().unicode_len() == 0 {
                proof { reveal_strlit("Security question cannot be empty"); }
                assert(pairs_problem(qa) == Some("Security question cannot be empty"@)) by {
                    assert(qa.take(i as int + 1).last() == qa[i as int]);
                    assert(pairs_problem(qa.take(i as int + 1)) == Some("Security question cannot be empty"@));
                    lemma_pairs_problem_prefix(qa, i as int + 1);
                }
                assert(qa.len() == total);
                let msg = String::from_str("Security question cannot be empty");
                assert(msg@ == "Security question cannot be empty"@);
                return Err(Error::InvalidItem(msg));
            }
            if is_blank(answer.as_str()) {
                proof { reveal_strlit("Security answer cannot be empty"); }
                assert(pairs_problem(qa) == Some("Security answer cannot be empty"@)) by {
                    assert(qa.take(i as int + 1).last() == qa[i as int]);
                    assert(trimmed@.len() != 0);
                    assert(pairs_problem(qa.take(i as int + 1)) == Some("Security answer cannot be empty"@));
                    lemma_pairs_problem_prefix(qa, i as int + 1);
                }
                assert(qa.len() == total);
                let msg = String::from_str("Security answer cannot be empty");
                assert(msg@ == "Security answer cannot be empty"@);
                return Err(Error::InvalidItem(msg));
            }
            assert(pairs_problem(qa.take(i as int + 1)) is None) by {
                assert(qa.take(i as int + 1).last() == qa[i as int]);
            }
            let question = SecurityQuestion::new(trimmed.as_str(), answer)?;
            questions.push(question);
            ordered_answers.push(answer.duplicate());
            i = i + 1;
        }
        assert(qa.take(total as int) =~= qa);
        let ghost answers = answers_of(qa);
        assert(secret_views(ordered_answers@) =~= answers);
        let reveal_seed = random_u64();
        let mut stages: Vec<RecoveryStage> = Vec::new();
        let mut idx: usize = 0;
        while idx < total
            invariant
                total == qa.len(),
                qa == pair_views(question_answers@),
                pairs_problem(qa) is None,
                ordered_answers@.len() == total,
                1 <= total <= 3,
                idx <= total,
                answers == answers_of(qa),
                secret_views(ordered_answers@) == answers,
                stages@.len() == idx,
                forall|j: int| 0 <= j < idx ==> stage_holds(#[trigger] stages@[j], j as nat, encryption_method,
                    answers, stage_hint(master_password@, j as nat, total as nat, reveal_seed)),
            decreases total - idx,
        {
            let required = idx + 1;
            let hint = if required == total {
                String::from_str(master_password.as_str())
            } else {
                let pct: u32 = if required == 1 { 30 } else { 50 };
                partial_reveal(master_password.as_str(), pct, reveal_seed)
            };
            assert(hint@ == stage_hint(master_password@, idx as nat, total as nat, reveal_seed));
            let key_material = compose_prefix(&ordered_answers, required);
            let params = Argon2Params { memory_kib: 16384, iterations: 2, parallelism: 2 };
            let salt = generate_salt();
            let key = derive_key(&key_material, None, &salt, &params)?;
            proof {
                lemma_masked_shape(master_password@, 30, reveal_seed);
                lemma_masked_shape(master_password@, 50, reveal_seed);
                crate::cursor::lemma_utf8_len_bound(hint@);
            }
            let encrypted_hint = encrypt_with_method(encryption_method, hint.as_str().as_bytes(), &key, salt, params)?;
            stages.push(RecoveryStage { required_correct: required as u8, encrypted_hint });
            idx = idx + 1;
        }
        let m = RecoveryMetadata { questions, stages, max_attempts: 5, encryption_method };
        assert(stages_hold(m, qa, master_password@, encryption_method, reveal_seed));
        Ok(m)
    }

    /// Reveals the hint matching the number of answers given (in question
    /// order): nothing for no answers, the password when all are given.
    pub fn reveal_for_answers(&self, ordered_answers: &[SecureString]) -> (r: Result<String>)
        ensures
            ({
                let a = secret_views(ordered_answers@);
                &&& r is Ok <==> revealed_text(*self, a) is Some
                &&& r matches Ok(s) ==> revealed_text(*self, a) == Some(s@)
                &&& a.len() > self.stages@.len() ==> r == Err::<String, Error>(Error::SecurityQuestionFailed)
            }),
    {
        let ghost a = secret_views(ordered_answers@);
        if ordered_answers.len() == 0 {
            return Ok(String::new());
        }
        let stage_index = ordered_answers.len() - 1;
        if stage_index >= self.stages.len() {
            return Err(Error::SecurityQuestionFailed);
        }
        let stage = &self.stages[stage_index];
        let key_material = Self::compose_key_material(ordered_answers);
        let key = derive_key(&key_material, None, &stage.encrypted_hint.salt, &stage.encrypted_hint.argon2_params)?;
        let decrypted = decrypt_with_method(self.encryption_method, &stage.encrypted_hint, &key)?;
        match string_from_utf8(decrypted) {
            Some(s) => {
                proof {
                    vstd::utf8::encode_utf8_decode_utf8(s@);
                }
                Ok(s)
            },
            None => Err(Error::Decryption),
        }
    }

    /// Whether at least one question and one stage are present.
    pub fn is_configured(&self) -> (r: bool)
        ensures
            r == (self.questions@.len() > 0 && self.stages@.len() > 0),
    {
        self.questions.len() > 0 && self.stages.len() > 0
    }

    /// The answers joined by newlines: the secret the hint keys derive from.
    pub fn compose_key_material(answers: &[SecureString]) -> (r: SecureString)
        ensures
            r@ == joined(secret_views(answers@)),
    {
        let mut s = String::new();
        let mut i: usize = 0;
        while i < answers.len()
            invariant
                i <= answers@.len(),
                s@ == joined(secret_views(answers@).take(i as int)),
            decreases answers@.len() - i,
        {
            assert(secret_views(answers@).take(i + 1).drop_last() =~= secret_views(answers@).take(i as int));
            if i > 0 {
                string_push(&mut s, '\n');
            }
            s.append(answers[i].as_str());
            assert(secret_views(answers@).take(i + 1).last() == answers@[i as int]@);
            assert(s@ =~= joined(secret_views(answers@).take(i + 1)));
            i = i + 1;
        }
        assert(secret_views(answers@).take(i as int) =~= secret_views(answers@));
        SecureString::new(s)
    }
}

/// The key material of the first `count` answers.
fn compose_prefix(answers: &Vec<SecureString>, count: usize) -> (r: SecureString)
    requires
        count <= answers@.len(),
    ensures
        r@ == joined(secret_views(answers@).take(count as int)),
{
    let mut s = String::new();
    let mut i: usize = 0;
    while i < count
        invariant
            count <= answers@.len(),
            i <= count,
            s@ == joined(secret_views(answers@).take(i as int)),
        decreases count - i,
    {
        assert(secret_views(answers@).take(i + 1).drop_last() =~= secret_views(answers@).take(i as int));
        if i > 0 {
            string_push(&mut s, '\n');
        }
        s.append(answers[i].as_str());
        assert(secret_views(answers@).take(i + 1).last() == answers@[i as int]@);
        assert(s@ =~= joined(secret_views(answers@).take(i + 1)));
        i = i + 1;
    }
    SecureString::new(s)
}

/// A problem in a prefix is the problem of the whole list.
proof fn lemma_pairs_problem_prefix(qa: Seq<(Seq<char>, Seq<char>)>, k: int)
    requires
        0 <= k <= qa.len(),
        pairs_problem(qa.take(k)) is Some,
    ensures
        pairs_problem(qa) == pairs_problem(qa.take(k)),
    decreases qa.len() - k,
{
    if k < qa.len() {
        assert(qa.take(k + 1).drop_last() =~= qa.take(k));
        lemma_pairs_problem_prefix(qa, k + 1);
    } else {
        assert(qa.take(k) =~= qa);
    }
}

/// Answering every question of metadata built from a password reveals that
/// password; answering fewer reveals the stage hint of that many answers,
/// which keeps the password's length and shows only its characters.
pub proof fn lemma_reveal_after_build(m: RecoveryMetadata, qa: Seq<(Seq<char>, Seq<char>)>, password: Seq<char>, method: EncryptionMethod, k: nat)
    requires
        built_from(m, qa, password, method),
        1 <= k <= qa.len(),
    ensures
        k == qa.len() ==> revealed_text(m, answers_of(qa).take(k as int)) == Some(password),
        exists|seed: u64| revealed_text(m, answers_of(qa).take(k as int))
            == Some(#[trigger] stage_hint(password, (k - 1) as nat, qa.len(), seed)),
{
    let seed = choose|seed: u64| stages_hold(m, qa, password, method, seed);
    let i = (k - 1) as int;
    let st = m.stages@[i];
    assert(stage_holds(st, i as nat, method, answers_of(qa), stage_hint(password, i as nat, qa.len(), seed)));
    let a = answers_of(qa).take(k as int);
    assert(a.len() == k);
    assert(answers_of(qa).take(i + 1) == a);
    let hint = stage_hint(password, i as nat, qa.len(), seed);
    vstd::utf8::encode_utf8_valid_utf8(hint);
    vstd::utf8::encode_utf8_decode_utf8(hint);
    assert(revealed_text(m, a) == Some(hint));
}

} // verus!
