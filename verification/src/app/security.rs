//! The settings workflows that change how an open vault is protected: adding,
//! changing or removing its key file, and editing its recovery questions.
use vstd::prelude::*;

use crate::app::effect::Effect;
use crate::app::state::{AppState, NotificationLevel, VaultState};
use crate::app::update::{collect_idx_to_actual, credentials_match, reset_input, show_error, verify_master_credentials, write_effect};
use crate::crypto::kdf::{Argon2Params, derive_key, derived_key};
use crate::crypto::keyfile::KeyFile;
use crate::crypto::secure_string::SecureString;
use crate::error::Error;
use crate::domain::security_question::{RecoveryMetadata, built_from, pair_views, pairs_problem};
use crate::storage::vault_file::{copy_question_texts, question_texts, string_views};
use crate::text::{is_blank, trim, trim_str, to_uppercase, uppercase_of};
use crate::ui::screens::settings::{
    AddKeyfileAction, AddKeyfileStep, ManageRecoveryAction, ManageRecoveryStep, ManageRecoveryTarget,
    SecurityActionState,
};

verus! {

/// Key derivation costs of vault keys.
pub open spec fn vault_params() -> Argon2Params {
    Argon2Params { memory_kib: 65536, iterations: 3, parallelism: 4 }
}

/// The texts of the recovery questions of the open vault.
pub open spec fn recovery_questions(state: AppState) -> Seq<Seq<char>> {
    match state.vault_state {
        Some(vs) => match vs.recovery_metadata {
            Some(m) => question_texts(m.questions@),
            None => Seq::empty(),
        },
        None => Seq::empty(),
    }
}

/// The texts of the recovery questions of the open vault.
fn recovery_question_texts(state: &AppState) -> (r: Vec<String>)
    ensures
        string_views(r@) == recovery_questions(*state),
{
    match &state.vault_state {
        Some(vs) => match &vs.recovery_metadata {
            Some(m) => copy_question_texts(&m.questions),
            None => {
                let r: Vec<String> = Vec::new();
                assert(string_views(r@) =~= Seq::<Seq<char>>::empty());
                r
            },
        },
        None => {
            let r: Vec<String> = Vec::new();
            assert(string_views(r@) =~= Seq::<Seq<char>>::empty());
            r
        },
    }
}

/// `n` empty answer slots.
fn empty_slots(n: usize) -> (r: Vec<Option<String>>)
    ensures
        r@.len() == n,
        forall|i: int| 0 <= i < n ==> r@[i] is None,
{
    let mut r: Vec<Option<String>> = Vec::new();
    let mut i: usize = 0;
    while i < n
        invariant
            i <= n,
            r@.len() == i,
            forall|j: int| 0 <= j < i ==> r@[j] is None,
        decreases n - i,
    {
        r.push(None);
        i = i + 1;
    }
    r
}

/// `msg` followed by `tail`.
fn joined(msg: &str, tail: &str) -> (r: String)
    ensures
        r@ == msg@ + tail@,
{
    let mut m = String::from_str(msg);
    m.append(tail);
    m
}

/// Puts the workflow back in the settings.
fn keep_manage(state: &mut AppState, action: ManageRecoveryAction)
    requires
        old(state).wf(),
    ensures
        final(state).wf(),
        *final(state) == (AppState {
            settings_state: crate::ui::screens::settings::SettingsScreen {
                security_action: Some(SecurityActionState::ManageRecovery(action)),
                ..old(state).settings_state
            },
            ..*old(state)
        }),
{
    state.settings_state.security_action = Some(SecurityActionState::ManageRecovery(action));
}

/// Puts the key-file workflow back in the settings.
fn keep_add_keyfile(state: &mut AppState, action: AddKeyfileAction)
    requires
        old(state).wf(),
    ensures
        final(state).wf(),
        *final(state) == (AppState {
            settings_state: crate::ui::screens::settings::SettingsScreen {
                security_action: Some(SecurityActionState::AddKeyfile(action)),
                ..old(state).settings_state
            },
            ..*old(state)
        }),
{
    state.settings_state.security_action = Some(SecurityActionState::AddKeyfile(action));
}

// ── Key file ────────────────────────────────────────────────────────────

/// What a step of the key-file workflow guarantees.
pub open spec fn add_keyfile_step_done(s0: AppState, s1: AppState, action: AddKeyfileAction, r: Effect) -> bool {
    let input = s0.ui_state.input_buffer.text@;
    let has_keyfile = s0.vault_state->0.has_keyfile;
    match action.step {
        AddKeyfileStep::CurrentPassword => if trim(input).len() == 0 {
            &&& r is Nothing
            &&& s1.login_screen.error_message matches Some(m) && m@ == "Current password cannot be empty"@
        } else {
            &&& r is Nothing
            &&& s1.settings_state.security_action matches Some(SecurityActionState::AddKeyfile(a))
                && a.current_password matches Some(p) && p@ == input
                && a.step == (if has_keyfile { AddKeyfileStep::OldKeyfilePath } else { AddKeyfileStep::NewKeyfilePath })
            &&& s1.ui_state.input_buffer.text@.len() == 0
            &&& !s1.ui_state.input_buffer.masked
        },
        AddKeyfileStep::OldKeyfilePath => if trim(input).len() == 0 {
            &&& r is Nothing
            &&& s1.login_screen.error_message matches Some(m) && m@ == "Keyfile path cannot be empty"@
        } else {
            &&& r matches Effect::ReadKeyfile { path } && path@ == trim(input)
            &&& s1.settings_state.security_action matches Some(SecurityActionState::AddKeyfile(a))
                && a.old_keyfile_path@ == trim(input)
        },
        AddKeyfileStep::NewKeyfilePath => {
            let vs0 = s0.vault_state->0;
            let vs = s1.vault_state->0;
            match action.current_password {
                None => {
                    &&& r is Nothing
                    &&& vs == vs0
                    &&& s1.settings_state.security_action is None
                    &&& s1.login_screen.error_message matches Some(m) && m@ == "Session expired – please restart"@
                },
                Some(p) => if !has_keyfile && !credentials_match(vs0, p@, None) {
                    &&& r is Nothing
                    &&& vs == vs0
                    &&& s1.login_screen.error_message is Some
                } else if trim(input).len() > 0 {
                    &&& r matches Effect::ReadKeyfile { path } && path@ == trim(input)
                    &&& vs == vs0
                    &&& s1.settings_state.security_action matches Some(SecurityActionState::AddKeyfile(a))
                        && a.new_keyfile_path@ == trim(input)
                } else {
                    &&& derived_key(p@, None, vs0.salt@, vault_params()) == Some(vs.encryption_key@)
                    &&& !vs.has_keyfile
                    &&& vs.vault == vs0.vault
                    &&& vs.is_dirty
                    &&& s1.settings_state.security_action is None
                    &&& saves(r, vs)
                },
            }
        },
    }
}

/// One step of the key-file workflow: the current password; for a vault
/// with a key file, the path of the current key file (read, then checked
/// with the password); then the path of the new key file, or nothing to
/// remove the key file. The vault is then re-keyed and saved.
pub fn handle_add_keyfile_submit(state: &mut AppState, action: AddKeyfileAction) -> (r: Effect)
    requires
        old(state).wf(),
        old(state).vault_state is Some,
    ensures
        final(state).wf(),
        final(state).vault_state is Some,
        add_keyfile_step_done(*old(state), *final(state), action, r),
{
    proof {
        reveal_strlit("Current password cannot be empty");
        reveal_strlit("Keyfile path cannot be empty");
        reveal_strlit("Session expired – please restart");
    }
    let mut action = action;
    let input = state.ui_state.input_buffer.text.clone();
    let has_keyfile = match &state.vault_state {
        Some(vs) => vs.has_keyfile,
        None => false,
    };
    match action.step {
        AddKeyfileStep::CurrentPassword => {
            if is_blank(input.as_str()) {
                show_error(state, "Current password cannot be empty");
                keep_add_keyfile(state, action);
                return Effect::none();
            }
            action.current_password = Some(input);
            action.step = if has_keyfile { AddKeyfileStep::OldKeyfilePath } else { AddKeyfileStep::NewKeyfilePath };
            reset_input(state, false);
            state.login_screen.error_message = None;
            keep_add_keyfile(state, action);
            Effect::none()
        },
        AddKeyfileStep::OldKeyfilePath => {
            if is_blank(input.as_str()) {
                show_error(state, "Keyfile path cannot be empty");
                keep_add_keyfile(state, action);
                return Effect::none();
            }
            let path = trim_str(input.as_str());
            action.old_keyfile_path = path.clone();
            keep_add_keyfile(state, action);
            Effect::ReadKeyfile { path }
        },
        AddKeyfileStep::NewKeyfilePath => {
            let current = match &action.current_password {
                Some(p) => p.clone(),
                None => {
                    show_error(state, "Session expired – please restart");
                    state.settings_state.security_action = None;
                    return Effect::none();
                },
            };
            if !has_keyfile {
                let checked = match &state.vault_state {
                    Some(vs) => verify_master_credentials(vs, current.as_str(), None),
                    None => Ok(None),
                };
                match checked {
                    Ok(_) => {},
                    Err(msg) => {
                        state.login_screen.error_message = Some(msg);
                        keep_add_keyfile(state, action);
                        return Effect::none();
                    },
                }
            }
            let path = trim_str(input.as_str());
            if path.as_str().unicode_len() == 0 {
                return finish_add_keyfile(state, current, None);
            }
            action.new_keyfile_path = path.clone();
            keep_add_keyfile(state, action);
            Effect::ReadKeyfile { path }
        },
    }
}

/// Re-keys the open vault with the password and the new key file (or none),
/// and asks for it to be saved.
pub fn finish_add_keyfile(state: &mut AppState, current: String, new_keyfile: Option<Vec<u8>>) -> (r: Effect)
    requires
        old(state).wf(),
        old(state).vault_state is Some,
    ensures
        final(state).wf(),
        final(state).vault_state is Some,
        ({
            let vs0 = old(state).vault_state->0;
            let vs = final(state).vault_state->0;
            match derived_key(current@, crate::crypto::kdf::opt_view_bytes(new_keyfile), vs0.salt@, vault_params()) {
                Some(k) => {
                    &&& vs.encryption_key@ == k
                    &&& vs.has_keyfile == new_keyfile is Some
                    &&& vs.is_dirty
                    &&& vs.vault == vs0.vault
                    &&& vs.salt == vs0.salt
                    &&& vs.recovery_metadata == vs0.recovery_metadata
                    &&& final(state).settings_state.security_action is None
                    &&& saves(r, vs)
                },
                None => {
                    &&& r is Nothing
                    &&& vs == vs0
                    &&& final(state).login_screen.error_message is Some
                },
            }
        }),
{
    proof {
        reveal_strlit("Failed to derive new key: ");
    }
    let salt = match &state.vault_state {
        Some(vs) => vs.salt,
        None => [0u8; 32],
    };
    let secret = SecureString::new(current);
    let params = Argon2Params::default();
    let derived = match &new_keyfile {
        Some(k) => derive_key(&secret, Some(k.as_slice()), &salt, &params),
        None => derive_key(&secret, None, &salt, &params),
    };
    let new_key = match derived {
        Ok(k) => k,
        Err(e) => {
            let d = e.describe();
            state.login_screen.error_message = Some(joined("Failed to derive new key: ", d.as_str()));
            return Effect::none();
        },
    };
    let added = new_keyfile.is_some();
    match &mut state.vault_state {
        Some(vs) => {
            vs.encryption_key = new_key;
            vs.has_keyfile = added;
            vs.mark_dirty();
        },
        None => {},
    }
    state.settings_state.security_action = None;
    reset_input(state, false);
    state.login_screen.error_message = None;
    if added {
        state.ui_state.notify("Keyfile added and vault re-encrypted", NotificationLevel::Success);
    } else {
        state.ui_state.notify("Keyfile removed and vault re-encrypted", NotificationLevel::Success);
    }
    match &state.vault_state {
        Some(vs) => write_effect(vs),
        None => Effect::none(),
    }
}

/// Whether `r` asks for `vs` to be saved: its path, key, salt, key-file flag
/// and cipher.
pub open spec fn saves(r: Effect, vs: VaultState) -> bool {
    r matches Effect::WriteVaultFile { path, key, salt, has_keyfile, encryption_method, .. } && path
        == vs.vault_path && key == vs.encryption_key && salt == vs.salt && has_keyfile == vs.has_keyfile
        && encryption_method == vs.encryption_method
}

/// A key file read for the key-file workflow: the current key file is
/// checked with the password (the workflow then asks for the new one); the
/// new key file must be usable, and the vault is then re-keyed with it.
pub fn add_keyfile_loaded(state: &mut AppState, action: AddKeyfileAction, path: String, data: Vec<u8>) -> (r: Effect)
    requires
        old(state).wf(),
        old(state).vault_state is Some,
    ensures
        final(state).wf(),
        final(state).vault_state is Some,
        ({
            let vs0 = old(state).vault_state->0;
            let vs = final(state).vault_state->0;
            match action.current_password {
                None => {
                    &&& r is Nothing
                    &&& vs == vs0
                    &&& final(state).settings_state.security_action is None
                    &&& final(state).login_screen.error_message matches Some(m) && m@ == "Session expired – please restart"@
                },
                Some(p) => if action.step == AddKeyfileStep::NewKeyfilePath && action.new_keyfile_path@ == path@ {
                    if crate::crypto::keyfile::keyfile_rejection(data@) is None {
                        derived_key(p@, Some(data@), vs0.salt@, vault_params()) matches Some(k) ==> {
                            &&& vs.encryption_key@ == k
                            &&& vs.has_keyfile
                            &&& vs.vault == vs0.vault
                            &&& saves(r, vs)
                        }
                    } else {
                        &&& r is Nothing
                        &&& vs == vs0
                        &&& final(state).login_screen.error_message is Some
                    }
                } else if action.step == AddKeyfileStep::OldKeyfilePath && action.old_keyfile_path@ == path@ {
                    &&& r is Nothing
                    &&& vs == vs0
                    &&& final(state).settings_state.security_action matches Some(SecurityActionState::AddKeyfile(a))
                    &&& if credentials_match(vs0, p@, Some(data)) {
                        final(state).settings_state.security_action matches Some(SecurityActionState::AddKeyfile(a))
                            && a.step == AddKeyfileStep::NewKeyfilePath && a.current_password == action.current_password
                    } else {
                        &&& final(state).settings_state.security_action matches Some(SecurityActionState::AddKeyfile(a))
                            && a.step == AddKeyfileStep::OldKeyfilePath
                        &&& final(state).login_screen.error_message is Some
                    }
                } else {
                    r is Nothing && vs == vs0
                },
            }
        }),
{
    proof {
        reveal_strlit("Session expired – please restart");
        reveal_strlit("Failed to read keyfile: ");
    }
    let mut action = action;
    let current = match &action.current_password {
        Some(p) => p.clone(),
        None => {
            show_error(state, "Session expired – please restart");
            state.settings_state.security_action = None;
            return Effect::none();
        },
    };
    match action.step {
        AddKeyfileStep::OldKeyfilePath => {
            if action.old_keyfile_path != path {
                keep_add_keyfile(state, action);
                return Effect::none();
            }
            let checked = match &state.vault_state {
                Some(vs) => verify_master_credentials(vs, current.as_str(), Some(data.as_slice())),
                None => Ok(None),
            };
            match checked {
                Ok(kf) => {
                    action.old_keyfile_data = kf;
                    action.step = AddKeyfileStep::NewKeyfilePath;
                    reset_input(state, false);
                    state.login_screen.error_message = None;
                },
                Err(msg) => {
                    state.login_screen.error_message = Some(msg);
                },
            }
            keep_add_keyfile(state, action);
            Effect::none()
        },
        AddKeyfileStep::NewKeyfilePath => {
            if action.new_keyfile_path != path {
                keep_add_keyfile(state, action);
                return Effect::none();
            }
            match KeyFile::from_bytes(data) {
                Ok(k) => {
                    let bytes = vstd::slice::slice_to_vec(k.as_bytes());
                    finish_add_keyfile(state, current, Some(bytes))
                },
                Err(e) => {
                    let d = e.describe();
                    state.login_screen.error_message = Some(joined("Failed to read keyfile: ", d.as_str()));
                    keep_add_keyfile(state, action);
                    Effect::none()
                },
            }
        },
        AddKeyfileStep::CurrentPassword => {
            keep_add_keyfile(state, action);
            Effect::none()
        },
    }
}

// ── Recovery questions ──────────────────────────────────────────────────

/// The answer typed for slot `i`, or nothing.
pub open spec fn answer_text(collected: Seq<Option<String>>, i: int) -> Seq<char> {
    if 0 <= i < collected.len() && collected[i] is Some {
        collected[i]->0@
    } else {
        Seq::empty()
    }
}

/// The questions kept with the answers typed for them, in order.
pub open spec fn answered(questions: Seq<Seq<char>>, collected: Seq<Option<String>>) -> Seq<(Seq<char>, Seq<char>)> {
    Seq::new(questions.len(), |i: int| (questions[i], answer_text(collected, i)))
}

/// The index among all questions of the `j`-th one kept when the one at
/// `del` goes.
pub open spec fn kept_index(j: int, del: int) -> int {
    if j < del { j } else { j + 1 }
}

/// The question/answer pairs a change of the recovery questions rebuilds the
/// setup from: the same questions with the answers typed for an answer
/// change; the questions but the one deleted, with the answers typed for the
/// others; or the questions with their answers and then the new question.
pub open spec fn rebuilt_pairs(questions: Seq<Seq<char>>, action: ManageRecoveryAction) -> Option<Seq<(Seq<char>, Seq<char>)>> {
    let c = action.collected_answers@;
    match action.target {
        ManageRecoveryTarget::EditAnswer(_) => Some(answered(questions, c)),
        ManageRecoveryTarget::DeleteQuestion(d) => {
            let n = if d < questions.len() { questions.len() - 1 } else { questions.len() as int };
            Some(Seq::new(n as nat, |j: int| (questions[kept_index(j, d as int)], answer_text(c, j))))
        },
        ManageRecoveryTarget::AddQuestion => {
            let q = match action.new_question_text { Some(t) => t@, None => Seq::empty() };
            let a = match action.new_answer_text { Some(t) => t@, None => Seq::empty() };
            Some(answered(questions, c).push((q, a)))
        },
        _ => None,
    }
}

/// The answer typed for slot `i`, or an empty one.
fn answer_of(collected: &Vec<Option<String>>, i: usize) -> (r: String)
    ensures
        r@ == answer_text(collected@, i as int),
{
    if i < collected.len() {
        match &collected[i] {
            Some(a) => a.clone(),
            None => String::new(),
        }
    } else {
        String::new()
    }
}

/// The optional text, or an empty one.
fn text_or_empty(t: &Option<String>) -> (r: String)
    ensures
        r@ == (match *t { Some(s) => s@, None => Seq::<char>::empty() }),
{
    match t {
        Some(s) => s.clone(),
        None => String::new(),
    }
}

/// The pairs of `rebuilt_pairs`.
fn rebuild_pairs(questions: &Vec<String>, action: &ManageRecoveryAction) -> (r: Option<Vec<(String, SecureString)>>)
    ensures
        match rebuilt_pairs(string_views(questions@), *action) {
            Some(p) => r matches Some(v) && pair_views(v@) == p,
            None => r is None,
        },
{
    let ghost q = string_views(questions@);
    let n = questions.len();
    let (skip, has_skip, add) = match action.target {
        ManageRecoveryTarget::EditAnswer(_) => (0usize, false, false),
        ManageRecoveryTarget::DeleteQuestion(d) => (d, true, false),
        ManageRecoveryTarget::AddQuestion => (0usize, false, true),
        _ => {
            return None;
        },
    };
    let mut pairs: Vec<(String, SecureString)> = Vec::new();
    let mut i: usize = 0;
    let mut kept: usize = 0;
    while i < n
        invariant
            n == questions@.len(),
            q == string_views(questions@),
            i <= n,
            kept == (if has_skip && skip < i { i - 1 } else { i as int }),
            pairs@.len() == kept,
            forall|j: int| 0 <= j < kept ==> #[trigger] pair_views(pairs@)[j] == (
                q[if has_skip { kept_index(j, skip as int) } else { j }],
                answer_text(action.collected_answers@, j),
            ),
        decreases n - i,
    {
        if has_skip && i == skip {
            i = i + 1;
        } else {
            let t = questions[i].clone();
            let a = answer_of(&action.collected_answers, kept);
            let ghost prev = pairs@;
            let sa = SecureString::new(a);
            let ghost entry = (t, sa);
            pairs.push((t, sa));
            assert forall|j: int| 0 <= j < kept + 1 implies #[trigger] pair_views(pairs@)[j] == (
                q[if has_skip { kept_index(j, skip as int) } else { j }],
                answer_text(action.collected_answers@, j),
            ) by {
                if j < kept {
                    assert(pairs@[j] == prev[j]);
                    assert(pair_views(prev)[j] == (prev[j].0@, prev[j].1@));
                } else {
                    assert(pairs@[j] == entry);
                    assert(q[i as int] == questions@[i as int]@);
                }
            }
            kept = kept + 1;
            i = i + 1;
        }
    }
    if add {
        let nq = text_or_empty(&action.new_question_text);
        let na = text_or_empty(&action.new_answer_text);
        let ghost prev = pairs@;
        pairs.push((nq, SecureString::new(na)));
        proof {
            let want = rebuilt_pairs(q, *action)->0;
            assert(pair_views(pairs@) =~= want) by {
                assert forall|j: int| 0 <= j < pairs@.len() implies #[trigger] pair_views(pairs@)[j] == want[j] by {
                    if j < kept {
                        assert(pairs@[j] == prev[j]);
                        assert(pair_views(prev)[j] == (prev[j].0@, prev[j].1@));
                    }
                }
            }
        }
    } else {
        proof {
            let want = rebuilt_pairs(q, *action)->0;
            assert(pair_views(pairs@) =~= want) by {
                assert forall|j: int| 0 <= j < pairs@.len() implies #[trigger] pair_views(pairs@)[j] == want[j] by {
                }
            }
        }
    }
    Some(pairs)
}

/// Why building recovery metadata refuses the pairs `qa`, if it does: a
/// count outside one to three, a blank question or a blank answer.
pub open spec fn build_problem(qa: Seq<(Seq<char>, Seq<char>)>) -> Option<Seq<char>> {
    if qa.len() == 0 || qa.len() > 3 {
        Some("Recovery questions must be between 1 and 3"@)
    } else {
        pairs_problem(qa)
    }
}

/// What rebuilding the recovery setup from the non-empty pairs `p` and the
/// password leaves: an error where the pairs are refused (see
/// `build_problem`), or where the cipher refuses a hint of a password of more
/// than 2^34 chars; otherwise the vault holds the new setup and `r` saves it.
pub open spec fn rebuild_outcome(s0: AppState, s1: AppState, p: Seq<(Seq<char>, Seq<char>)>, password: Seq<char>, r: Effect) -> bool {
    let vs0 = s0.vault_state->0;
    let vs = s1.vault_state->0;
    let rebuilt = {
        &&& vs.recovery_metadata matches Some(m) && built_from(m, p, password, vs0.encryption_method)
        &&& vs.is_dirty
        &&& vs.encryption_key == vs0.encryption_key
        &&& s1.settings_state.security_action is None
        &&& saves(r, vs)
    };
    match build_problem(p) {
        Some(msg) => {
            &&& r is Nothing
            &&& vs == vs0
            &&& s1.login_screen.error_message matches Some(m) && m@ == "Failed to rebuild recovery: "@ + "Invalid item: "@
                + msg
        },
        None => if password.len() <= 0x4_0000_0000 {
            rebuilt
        } else {
            ||| rebuilt
            ||| {
                &&& r is Nothing
                &&& vs == vs0
                &&& s1.login_screen.error_message matches Some(m) && m@ == "Failed to rebuild recovery: "@
                    + "Encryption failed: "@ + "aead::Error"@
            }
        },
    }
}

/// What `manage_recovery_rebuild` guarantees.
pub open spec fn rebuild_result(s0: AppState, s1: AppState, action: ManageRecoveryAction, r: Effect) -> bool {
    &&& s1.vault_state is Some <==> s0.vault_state is Some
    &&& s0.vault_state is None ==> r is Nothing && s1.settings_state.security_action is None
    &&& s0.vault_state is Some && action.current_password is None ==> {
        &&& r is Nothing
        &&& s1.settings_state.security_action is None
        &&& s1.login_screen.error_message matches Some(m) && m@ == "Session expired"@
        &&& s1.vault_state == s0.vault_state
    }
    &&& s0.vault_state is Some && action.current_password is Some ==> match rebuilt_pairs(recovery_questions(s0), action) {
        None => r is Nothing && s1.settings_state.security_action is None && s1.vault_state == s0.vault_state,
        Some(p) => if p.len() == 0 {
            &&& r is Nothing
            &&& s1.settings_state.security_action is None
            &&& s1.login_screen.error_message matches Some(m) && m@ == "No Q&A pairs to rebuild with"@
            &&& s1.vault_state == s0.vault_state
        } else {
            rebuild_outcome(s0, s1, p, action.current_password->0@, r)
        },
    }
}

/// Rebuilds the recovery setup from the pairs the change calls for (see
/// `rebuilt_pairs`) and the current password, keeps its questions in the
/// vault and asks for the vault to be saved.
pub fn manage_recovery_rebuild(state: &mut AppState, action: ManageRecoveryAction) -> (r: Effect)
    requires
        old(state).wf(),
    ensures
        final(state).wf(),
        rebuild_result(*old(state), *final(state), action, r),
{
    proof {
        reveal_strlit("Session expired");
        reveal_strlit("No Q&A pairs to rebuild with");
        reveal_strlit("Failed to rebuild recovery: ");
        reveal_strlit("Invalid item: ");
        reveal_strlit("Encryption failed: ");
        reveal_strlit("aead::Error");
    }
    if state.vault_state.is_none() {
        state.settings_state.security_action = None;
        return Effect::none();
    }
    let current = match &action.current_password {
        Some(p) => p.clone(),
        None => {
            show_error(state, "Session expired");
            state.settings_state.security_action = None;
            return Effect::none();
        },
    };
    let questions = recovery_question_texts(state);
    let pairs = match rebuild_pairs(&questions, &action) {
        Some(p) => p,
        None => {
            state.settings_state.security_action = None;
            return Effect::none();
        },
    };
    if pairs.len() == 0 {
        state.settings_state.security_action = None;
        show_error(state, "No Q&A pairs to rebuild with");
        return Effect::none();
    }
    let method = match &state.vault_state {
        Some(vs) => vs.encryption_method,
        None => {
            return Effect::none();
        },
    };
    let password = SecureString::new(current);
    let ghost pv = pair_views(pairs@);
    let metadata = match RecoveryMetadata::build(pairs, &password, method) {
        Ok(m) => m,
        Err(e) => {
            assert(match build_problem(pv) {
                Some(msg) => e matches Error::InvalidItem(m) && m@ == msg,
                None => (e matches Error::Encryption(m) && m@ == "aead::Error"@) && password@.len() > 0x4_0000_0000,
            });
            let d = e.describe();
            let msg = joined("Failed to rebuild recovery: ", d.as_str());
            proof {
                match e {
                    Error::InvalidItem(m) => {
                        assert(msg@ =~= "Failed to rebuild recovery: "@ + "Invalid item: "@ + m@);
                    },
                    Error::Encryption(m) => {
                        assert(msg@ =~= "Failed to rebuild recovery: "@ + "Encryption failed: "@ + m@);
                    },
                    _ => {},
                }
            }
            state.login_screen.error_message = Some(msg);
            keep_manage(state, action);
            return Effect::none();
        },
    };
    match &mut state.vault_state {
        Some(vs) => {
            vs.vault.security_questions = metadata.questions.clone();
            vs.recovery_metadata = Some(metadata);
            vs.mark_dirty();
        },
        None => {},
    }
    state.settings_state.security_action = None;
    reset_input(state, false);
    state.login_screen.error_message = None;
    state.ui_state.notify("Recovery questions updated", NotificationLevel::Success);
    match &state.vault_state {
        Some(vs) => write_effect(vs),
        None => Effect::none(),
    }
}

/// Shows `text` in the input, with the cursor after it, unmasked.
fn set_input(state: &mut AppState, text: String)
    requires
        old(state).wf(),
    ensures
        final(state).wf(),
        final(state).ui_state.input_buffer.text@ == text@,
        !final(state).ui_state.input_buffer.masked,
        final(state).vault_state == old(state).vault_state,
        final(state).settings_state == old(state).settings_state,
        final(state).login_screen.error_message == old(state).login_screen.error_message,
{
    crate::cursor::utf8_fits(text.as_str());
    let n = crate::cursor::byte_len(text.as_str());
    proof {
        crate::cursor::lemma_end_is_boundary(text@);
    }
    state.ui_state.input_buffer.text = text;
    state.ui_state.input_buffer.cursor = n;
    state.ui_state.input_buffer.masked = false;
}

/// The question at `i`, or an empty text.
fn question_at(questions: &Vec<String>, i: usize) -> (r: String)
    ensures
        r@ == (if i < questions@.len() { questions@[i as int]@ } else { Seq::<char>::empty() }),
{
    if i < questions.len() {
        questions[i].clone()
    } else {
        String::new()
    }
}

/// What the step `manage_verify_password` guarantees.
pub open spec fn verify_password_done(s0: AppState, s1: AppState, action: ManageRecoveryAction, r: Effect) -> bool {
    &&& s1.vault_state == s0.vault_state
    &&& r is Nothing
    &&& ({
        let input = s0.ui_state.input_buffer.text@;
        if trim(input).len() == 0 {
            s1.login_screen.error_message matches Some(m) && m@ == "Current password cannot be empty"@
        } else {
            match s1.settings_state.security_action {
                Some(SecurityActionState::ManageRecovery(a)) => {
                    &&& a.current_password is Some && a.current_password->0@ == input
                    &&& if s0.vault_state->0.has_keyfile {
                        a.step == ManageRecoveryStep::VerifyKeyfile
                    } else if credentials_match(s0.vault_state->0, input, None) {
                        a.step == ManageRecoveryStep::QuestionList
                    } else {
                        a.step == ManageRecoveryStep::VerifyPassword && s1.login_screen.error_message is Some
                    }
                },
                _ => false,
            }
        }
    })
}

/// What the step `manage_verify_keyfile` guarantees.
pub open spec fn verify_keyfile_done(s0: AppState, s1: AppState, action: ManageRecoveryAction, r: Effect) -> bool {
    &&& s1.vault_state == s0.vault_state
    &&& ({
        let input = s0.ui_state.input_buffer.text@;
        if trim(input).len() == 0 {
            &&& r is Nothing
            &&& s1.login_screen.error_message matches Some(m) && m@ == "Keyfile path cannot be empty"@
        } else {
            &&& r matches Effect::ReadKeyfile { path } && path@ == trim(input)
            &&& s1.settings_state.security_action matches Some(SecurityActionState::ManageRecovery(a))
                && a.keyfile_path@ == trim(input)
        }
    })
}

/// What the step `manage_question_list` guarantees.
pub open spec fn question_list_done(s0: AppState, s1: AppState, action: ManageRecoveryAction, r: Effect) -> bool {
    &&& s1.vault_state == s0.vault_state
    &&& r is Nothing
    &&& ({
        let input = s0.ui_state.input_buffer.text@;
        let c = if input.len() > 0 { input[0] } else { '\n' };
        let qs = recovery_questions(s0);
        let sel = action.selected_idx;
        let after = s1.settings_state.security_action;
        &&& c == 'n' && qs.len() >= 3 ==> (s1.login_screen.error_message matches Some(m) && m@
            == "Maximum recovery questions (3) reached"@)
        &&& c == 'n' && qs.len() < 3 ==> (after matches Some(SecurityActionState::ManageRecovery(a)) && a.target
            == ManageRecoveryTarget::AddQuestion && a.step == ManageRecoveryStep::AddQuestionText)
        &&& (c == 'e' || c == '\n') && sel < qs.len() ==> (after matches Some(SecurityActionState::ManageRecovery(a))
            && a.target == ManageRecoveryTarget::EditQuestionText(sel) && a.step
            == ManageRecoveryStep::EditQuestionText && s1.ui_state.input_buffer.text@ == qs[sel as int])
        &&& c == 'a' && sel < qs.len() ==> (after matches Some(SecurityActionState::ManageRecovery(a)) && a.target
            == ManageRecoveryTarget::EditAnswer(sel) && a.step == ManageRecoveryStep::CollectExistingAnswer
            && a.collect_idx == 0 && a.collected_answers@.len() == qs.len())
        &&& c == 'd' && sel < qs.len() ==> (after matches Some(SecurityActionState::ManageRecovery(a)) && a.target
            == ManageRecoveryTarget::DeleteQuestion(sel) && (if qs.len() == 1 {
            a.step == ManageRecoveryStep::ConfirmDisableRecovery
        } else {
            a.step == ManageRecoveryStep::CollectExistingAnswer && a.collect_idx == 0 && a.collected_answers@.len()
                == qs.len() - 1
        }))
    })
}

/// What the step `manage_edit_question_text` guarantees.
pub open spec fn question_text_done(s0: AppState, s1: AppState, action: ManageRecoveryAction, r: Effect) -> bool {
    &&& s1.vault_state is Some
    &&& ({
        let input = s0.ui_state.input_buffer.text@;
        let vs0 = s0.vault_state->0;
        let vs = s1.vault_state->0;
        if trim(input).len() == 0 {
            &&& r is Nothing
            &&& s1.login_screen.error_message matches Some(m) && m@ == "Question text cannot be empty"@
            &&& vs == vs0
        } else {
            match action.target {
                ManageRecoveryTarget::EditQuestionText(idx) => {
                    &&& match vs0.recovery_metadata {
                        Some(m0) => idx < m0.questions@.len() ==> (vs.recovery_metadata matches Some(m)
                            && m.questions@.len() == m0.questions@.len() && m.questions@[idx as int].question@
                            == trim(input) && m.questions@[idx as int].answer_hash
                            == m0.questions@[idx as int].answer_hash && m.questions@[idx as int].salt
                            == m0.questions@[idx as int].salt && m.stages == m0.stages),
                        None => vs.recovery_metadata is None,
                    }
                    &&& vs.encryption_key == vs0.encryption_key
                    &&& vs.is_dirty
                    &&& s1.settings_state.security_action is None
                    &&& saves(r, vs)
                },
                _ => r is Nothing && s1.settings_state.security_action is None && vs == vs0,
            }
        }
    })
}

/// What the step `manage_add_question_text` guarantees.
pub open spec fn new_question_done(s0: AppState, s1: AppState, action: ManageRecoveryAction, r: Effect) -> bool {
    &&& s1.vault_state == s0.vault_state
    &&& r is Nothing
    &&& ({
        let input = s0.ui_state.input_buffer.text@;
        if trim(input).len() == 0 {
            s1.login_screen.error_message matches Some(m) && m@ == "Question text cannot be empty"@
        } else {
            &&& s1.settings_state.security_action matches Some(SecurityActionState::ManageRecovery(a))
                && a.step == ManageRecoveryStep::AddAnswerText && a.new_question_text is Some
                && a.new_question_text->0@ == trim(input)
            &&& s1.ui_state.input_buffer.masked
        }
    })
}

/// What the step `manage_add_answer_text` guarantees.
pub open spec fn new_answer_done(s0: AppState, s1: AppState, action: ManageRecoveryAction, r: Effect) -> bool {
    let input = s0.ui_state.input_buffer.text@;
    let qs = recovery_questions(s0);
    &&& s1.vault_state is Some <==> s0.vault_state is Some
    &&& if trim(input).len() == 0 {
        &&& r is Nothing
        &&& s1.vault_state == s0.vault_state
        &&& s1.login_screen.error_message matches Some(m) && m@ == "Answer cannot be empty"@
    } else if qs.len() == 0 {
        action.target == ManageRecoveryTarget::AddQuestion && action.current_password is Some && s0.vault_state is Some
            ==> {
            let q = match action.new_question_text { Some(t) => t@, None => Seq::empty() };
            rebuild_outcome(s0, s1, seq![(q, trim(input))], action.current_password->0@, r)
        }
    } else {
        &&& r is Nothing
        &&& s1.vault_state == s0.vault_state
        &&& s1.settings_state.security_action matches Some(SecurityActionState::ManageRecovery(a))
            && a.step == ManageRecoveryStep::CollectExistingAnswer && a.collect_idx == 0 && a.collected_answers@.len()
            == qs.len()
    }
}

/// What the step `manage_collect_answer` guarantees.
pub open spec fn answer_collected(s0: AppState, s1: AppState, action: ManageRecoveryAction, r: Effect) -> bool {
    let input = s0.ui_state.input_buffer.text@;
    let qs = recovery_questions(s0);
    let next = action.collect_idx + 1;
    let done = match action.target {
        ManageRecoveryTarget::DeleteQuestion(_) => next >= (if qs.len() > 0 { qs.len() - 1 } else { 0 }),
        _ => next >= action.collected_answers@.len(),
    };
    let rebuilt_len = match action.target {
        ManageRecoveryTarget::DeleteQuestion(d) => if d < qs.len() { qs.len() - 1 } else { qs.len() as int },
        ManageRecoveryTarget::AddQuestion => qs.len() + 1int,
        _ => qs.len() as int,
    };
    let vs0 = s0.vault_state->0;
    let vs = s1.vault_state->0;
    &&& s1.vault_state is Some <==> s0.vault_state is Some
    &&& if trim(input).len() == 0 {
        &&& r is Nothing
        &&& s1.vault_state == s0.vault_state
        &&& s1.login_screen.error_message matches Some(m) && m@ == "Answer cannot be empty"@
    } else if !(action.target is DeleteQuestion || action.target is EditAnswer || action.target is AddQuestion)
        || action.collect_idx == usize::MAX {
        r is Nothing && s1.vault_state == s0.vault_state && s1.settings_state.security_action is None
    } else if !done {
        &&& r is Nothing
        &&& s1.vault_state == s0.vault_state
        &&& s1.settings_state.security_action matches Some(SecurityActionState::ManageRecovery(a)) && a.collect_idx
            == next && a.step == action.step && a.target == action.target
        &&& s1.ui_state.input_buffer.text@.len() == 0
        &&& s1.ui_state.input_buffer.masked
    } else {
        exists|a: ManageRecoveryAction| #[trigger] collected_into(action, a, input) && rebuild_result(s0, s1, a, r)
    }
}

/// `a` is `action` with `answer` typed into the slot being collected (where
/// there is one) and the next slot to collect.
pub open spec fn collected_into(action: ManageRecoveryAction, a: ManageRecoveryAction, answer: Seq<char>) -> bool {
    let c0 = action.collected_answers@;
    let c = a.collected_answers@;
    let i = action.collect_idx as int;
    &&& a.target == action.target
    &&& a.current_password == action.current_password
    &&& a.new_question_text == action.new_question_text
    &&& a.new_answer_text == action.new_answer_text
    &&& a.collect_idx == action.collect_idx + 1
    &&& c.len() == c0.len()
    &&& forall|j: int| 0 <= j < c.len() && j != i ==> #[trigger] c[j] == c0[j]
    &&& 0 <= i < c.len() ==> (c[i] matches Some(t) && t@ == answer)
}

/// What the step `manage_confirm_disable` guarantees.
pub open spec fn disable_confirmed(s0: AppState, s1: AppState, action: ManageRecoveryAction, r: Effect) -> bool {
    &&& s1.vault_state is Some
    &&& ({
        let input = s0.ui_state.input_buffer.text@;
        let vs0 = s0.vault_state->0;
        let vs = s1.vault_state->0;
        if uppercase_of(trim(input)) == "YES"@ {
            &&& vs.recovery_metadata is None
            &&& vs.vault.security_questions@.len() == 0
            &&& vs.is_dirty
            &&& vs.encryption_key == vs0.encryption_key
            &&& s1.settings_state.security_action is None
            &&& saves(r, vs)
        } else {
            &&& r is Nothing
            &&& vs == vs0
            &&& s1.login_screen.error_message matches Some(m) && m@ == "Type YES (uppercase) to confirm"@
        }
    })
}

/// The first step: the current password. For a vault with a key file the
/// workflow then asks for its path; otherwise the password is checked and the
/// list of questions shows.
fn manage_verify_password(state: &mut AppState, action: ManageRecoveryAction) -> (r: Effect)
    requires
        old(state).wf(),
        old(state).vault_state is Some,
        action.step == ManageRecoveryStep::VerifyPassword,
    ensures
        final(state).wf(),
        verify_password_done(*old(state), *final(state), action, r),
{
    proof {
        reveal_strlit("Current password cannot be empty");
    }
    let mut action = action;
    let input = state.ui_state.input_buffer.text.clone();
    if is_blank(input.as_str()) {
        show_error(state, "Current password cannot be empty");
        keep_manage(state, action);
        return Effect::none();
    }
    action.current_password = Some(input.clone());
    let has_keyfile = match &state.vault_state {
        Some(vs) => vs.has_keyfile,
        None => false,
    };
    if has_keyfile {
        action.step = ManageRecoveryStep::VerifyKeyfile;
    } else {
        let checked = match &state.vault_state {
            Some(vs) => verify_master_credentials(vs, input.as_str(), None),
            None => Ok(None),
        };
        match checked {
            Ok(_) => {},
            Err(msg) => {
                state.login_screen.error_message = Some(msg);
                keep_manage(state, action);
                return Effect::none();
            },
        }
        action.step = ManageRecoveryStep::QuestionList;
    }
    reset_input(state, false);
    state.login_screen.error_message = None;
    keep_manage(state, action);
    Effect::none()
}

/// The path of the key file, which is then read and checked with the
/// password.
fn manage_verify_keyfile(state: &mut AppState, action: ManageRecoveryAction) -> (r: Effect)
    requires
        old(state).wf(),
    ensures
        final(state).wf(),
        verify_keyfile_done(*old(state), *final(state), action, r),
{
    proof {
        reveal_strlit("Keyfile path cannot be empty");
    }
    let mut action = action;
    let input = state.ui_state.input_buffer.text.clone();
    if is_blank(input.as_str()) {
        show_error(state, "Keyfile path cannot be empty");
        keep_manage(state, action);
        return Effect::none();
    }
    let path = trim_str(input.as_str());
    action.keyfile_path = path.clone();
    keep_manage(state, action);
    Effect::ReadKeyfile { path }
}

/// A key file read for the recovery workflow: checked with the password, then
/// the list of questions shows.
pub fn manage_keyfile_loaded(state: &mut AppState, action: ManageRecoveryAction, path: String, data: Vec<u8>)
    requires
        old(state).wf(),
    ensures
        final(state).wf(),
        final(state).vault_state == old(state).vault_state,
        final(state).settings_state.security_action matches Some(SecurityActionState::ManageRecovery(a)) && if action.step
            == ManageRecoveryStep::VerifyKeyfile && action.keyfile_path@ == path@ {
            &&& a.step == ManageRecoveryStep::QuestionList || final(state).login_screen.error_message is Some
            &&& old(state).vault_state matches Some(vs0) ==> (a.step == ManageRecoveryStep::QuestionList
                <==> credentials_match(
                vs0,
                match action.current_password { Some(p) => p@, None => Seq::<char>::empty() },
                Some(data),
            ))
        } else {
            a.step == action.step
        },
{
    let mut action = action;
    if action.step != ManageRecoveryStep::VerifyKeyfile || action.keyfile_path != path {
        keep_manage(state, action);
        return;
    }
    let current = match &action.current_password {
        Some(p) => p.clone(),
        None => String::new(),
    };
    let checked = match &state.vault_state {
        Some(vs) => verify_master_credentials(vs, current.as_str(), Some(data.as_slice())),
        None => Ok(None),
    };
    match checked {
        Ok(kf) => {
            action.keyfile_data = kf;
            action.step = ManageRecoveryStep::QuestionList;
            reset_input(state, false);
            state.login_screen.error_message = None;
        },
        Err(msg) => {
            state.login_screen.error_message = Some(msg);
        },
    }
    keep_manage(state, action);
}

/// The list of questions: the first char typed picks what to do with the
/// selected question: `e` (or nothing) edits its text, `a` changes its
/// answer, `d` deletes it, `n` adds a question (three at most).
fn manage_question_list(state: &mut AppState, action: ManageRecoveryAction) -> (r: Effect)
    requires
        old(state).wf(),
    ensures
        final(state).wf(),
        question_list_done(*old(state), *final(state), action, r),
{
    proof {
        reveal_strlit("No recovery questions to edit");
        reveal_strlit("No recovery questions configured");
        reveal_strlit("No recovery questions to delete");
        reveal_strlit("Maximum recovery questions (3) reached");
        reveal_strlit("This will disable recovery. Type YES to confirm.");
        reveal_strlit("Enter answer for: ");
    }
    let mut action = action;
    let input = state.ui_state.input_buffer.text.clone();
    let c = if input.as_str().unicode_len() > 0 { input.as_str().get_char(0) } else { '\n' };
    let questions = recovery_question_texts(state);
    let q_count = questions.len();
    let sel = action.selected_idx;
    proof {
        assert(q_count == recovery_questions(*old(state)).len());
    }
    if c == 'e' || c == '\n' {
        if q_count == 0 || sel >= q_count {
            show_error(state, "No recovery questions to edit");
            keep_manage(state, action);
            return Effect::none();
        }
        action.target = ManageRecoveryTarget::EditQuestionText(sel);
        action.step = ManageRecoveryStep::EditQuestionText;
        let t = questions[sel].clone();
        proof {
            assert(string_views(questions@)[sel as int] == questions@[sel as int]@);
        }
        set_input(state, t);
        state.login_screen.error_message = None;
        keep_manage(state, action);
    } else if c == 'a' {
        if q_count == 0 || sel >= q_count {
            show_error(state, "No recovery questions configured");
            keep_manage(state, action);
            return Effect::none();
        }
        action.target = ManageRecoveryTarget::EditAnswer(sel);
        action.collected_answers = empty_slots(q_count);
        action.collect_idx = 0;
        action.step = ManageRecoveryStep::CollectExistingAnswer;
        reset_input(state, true);
        let first = question_at(&questions, 0);
        state.login_screen.error_message = Some(joined("Enter answer for: ", first.as_str()));
        keep_manage(state, action);
    } else if c == 'd' {
        if q_count == 0 || sel >= q_count {
            show_error(state, "No recovery questions to delete");
            keep_manage(state, action);
            return Effect::none();
        }
        action.target = ManageRecoveryTarget::DeleteQuestion(sel);
        if q_count == 1 {
            action.step = ManageRecoveryStep::ConfirmDisableRecovery;
            reset_input(state, false);
            show_error(state, "This will disable recovery. Type YES to confirm.");
        } else {
            action.collected_answers = empty_slots(q_count - 1);
            action.collect_idx = 0;
            action.step = ManageRecoveryStep::CollectExistingAnswer;
            reset_input(state, true);
            let first = if sel == 0 { question_at(&questions, 1) } else { question_at(&questions, 0) };
            state.login_screen.error_message = Some(joined("Enter answer for: ", first.as_str()));
        }
        keep_manage(state, action);
    } else if c == 'n' {
        if q_count >= 3 {
            show_error(state, "Maximum recovery questions (3) reached");
            keep_manage(state, action);
            return Effect::none();
        }
        action.target = ManageRecoveryTarget::AddQuestion;
        action.step = ManageRecoveryStep::AddQuestionText;
        reset_input(state, false);
        state.login_screen.error_message = None;
        keep_manage(state, action);
    } else {
        keep_manage(state, action);
    }
    Effect::none()
}

/// A new text for the question being edited; the vault is saved.
fn manage_edit_question_text(state: &mut AppState, action: ManageRecoveryAction) -> (r: Effect)
    requires
        old(state).wf(),
        old(state).vault_state is Some,
    ensures
        final(state).wf(),
        question_text_done(*old(state), *final(state), action, r),
{
    proof {
        reveal_strlit("Question text cannot be empty");
    }
    let input = state.ui_state.input_buffer.text.clone();
    if is_blank(input.as_str()) {
        show_error(state, "Question text cannot be empty");
        keep_manage(state, action);
        return Effect::none();
    }
    let idx = match action.target {
        ManageRecoveryTarget::EditQuestionText(i) => i,
        _ => {
            state.settings_state.security_action = None;
            return Effect::none();
        },
    };
    let new_text = trim_str(input.as_str());
    match &mut state.vault_state {
        Some(vs) => {
            match &mut vs.recovery_metadata {
                Some(m) => {
                    if idx < m.questions.len() {
                        m.questions[idx].question = new_text.clone();
                    }
                },
                None => {},
            }
            if idx < vs.vault.security_questions.len() {
                vs.vault.security_questions[idx].question = new_text;
            }
            vs.mark_dirty();
        },
        None => {},
    }
    state.settings_state.security_action = None;
    reset_input(state, false);
    state.login_screen.error_message = None;
    state.ui_state.notify("Question text updated", NotificationLevel::Success);
    match &state.vault_state {
        Some(vs) => write_effect(vs),
        None => Effect::none(),
    }
}

/// The text of a new question; its answer comes next.
fn manage_add_question_text(state: &mut AppState, action: ManageRecoveryAction) -> (r: Effect)
    requires
        old(state).wf(),
    ensures
        final(state).wf(),
        new_question_done(*old(state), *final(state), action, r),
{
    proof {
        reveal_strlit("Question text cannot be empty");
    }
    let mut action = action;
    let input = state.ui_state.input_buffer.text.clone();
    if is_blank(input.as_str()) {
        show_error(state, "Question text cannot be empty");
        keep_manage(state, action);
        return Effect::none();
    }
    action.new_question_text = Some(trim_str(input.as_str()));
    action.step = ManageRecoveryStep::AddAnswerText;
    reset_input(state, true);
    state.login_screen.error_message = None;
    keep_manage(state, action);
    Effect::none()
}

/// The answer of the new question. Without questions yet the setup is
/// rebuilt at once; otherwise the answers of the existing questions are asked
/// for first.
fn manage_add_answer_text(state: &mut AppState, action: ManageRecoveryAction) -> (r: Effect)
    requires
        old(state).wf(),
    ensures
        final(state).wf(),
        new_answer_done(*old(state), *final(state), action, r),
{
    proof {
        reveal_strlit("Answer cannot be empty");
        reveal_strlit("Enter existing answer for: ");
    }
    let mut action = action;
    let input = state.ui_state.input_buffer.text.clone();
    if is_blank(input.as_str()) {
        show_error(state, "Answer cannot be empty");
        keep_manage(state, action);
        return Effect::none();
    }
    let questions = recovery_question_texts(state);
    let q_count = questions.len();
    action.new_answer_text = Some(trim_str(input.as_str()));
    if q_count == 0 {
        proof {
            assert(answered(string_views(questions@), action.collected_answers@) =~= Seq::empty());
            let q = match action.new_question_text { Some(ref t) => t@, None => Seq::<char>::empty() };
            if action.target == ManageRecoveryTarget::AddQuestion {
                assert(rebuilt_pairs(string_views(questions@), action)->0 =~= seq![(q, trim(input@))]);
            }
        }
        return manage_recovery_rebuild(state, action);
    }
    action.collected_answers = empty_slots(q_count);
    action.collect_idx = 0;
    action.step = ManageRecoveryStep::CollectExistingAnswer;
    reset_input(state, true);
    let first = question_at(&questions, 0);
    state.login_screen.error_message = Some(joined("Enter existing answer for: ", first.as_str()));
    keep_manage(state, action);
    Effect::none()
}

/// One answer of an existing question, typed for rebuilding the setup; after
/// the last one the setup is rebuilt.
fn manage_collect_answer(state: &mut AppState, action: ManageRecoveryAction) -> (r: Effect)
    requires
        old(state).wf(),
    ensures
        final(state).wf(),
        answer_collected(*old(state), *final(state), action, r),
{
    proof {
        reveal_strlit("Answer cannot be empty");
        reveal_strlit("Enter answer for: ");
    }
    let ghost action0 = action;
    let mut action = action;
    let input = state.ui_state.input_buffer.text.clone();
    if is_blank(input.as_str()) {
        show_error(state, "Answer cannot be empty");
        keep_manage(state, action);
        return Effect::none();
    }
    let questions = recovery_question_texts(state);
    let total = questions.len();
    let deleting = match action.target {
        ManageRecoveryTarget::DeleteQuestion(d) => Some(d),
        ManageRecoveryTarget::EditAnswer(_) | ManageRecoveryTarget::AddQuestion => None,
        _ => {
            state.settings_state.security_action = None;
            return Effect::none();
        },
    };
    if action.collect_idx < action.collected_answers.len() {
        action.collected_answers.set(action.collect_idx, Some(input));
    }
    if action.collect_idx == usize::MAX {
        state.settings_state.security_action = None;
        return Effect::none();
    }
    action.collect_idx = action.collect_idx + 1;
    assert(collected_into(action0, action, input@));
    let next_q = match deleting {
        Some(d) => {
            let remaining = if total > 0 { total - 1 } else { 0 };
            if action.collect_idx >= remaining {
                return manage_recovery_rebuild(state, action);
            }
            question_at(&questions, collect_idx_to_actual(action.collect_idx, d, total))
        },
        None => {
            if action.collect_idx >= action.collected_answers.len() {
                return manage_recovery_rebuild(state, action);
            }
            question_at(&questions, action.collect_idx)
        },
    };
    state.login_screen.error_message = Some(joined("Enter answer for: ", next_q.as_str()));
    reset_input(state, true);
    keep_manage(state, action);
    Effect::none()
}

/// Confirms turning recovery off (when the only question is deleted): the
/// text must read YES once uppercased; the vault is then saved.
fn manage_confirm_disable(state: &mut AppState, action: ManageRecoveryAction) -> (r: Effect)
    requires
        old(state).wf(),
        old(state).vault_state is Some,
    ensures
        final(state).wf(),
        disable_confirmed(*old(state), *final(state), action, r),
{
    proof {
        reveal_strlit("YES");
        reveal_strlit("Type YES (uppercase) to confirm");
    }
    let input = state.ui_state.input_buffer.text.clone();
    let trimmed = trim_str(input.as_str());
    let upper = to_uppercase(trimmed.as_str());
    let yes = String::from_str("YES");
    if upper == yes {
        match &mut state.vault_state {
            Some(vs) => {
                vs.recovery_metadata = None;
                vs.vault.security_questions = Vec::new();
                vs.mark_dirty();
            },
            None => {},
        }
        state.settings_state.security_action = None;
        reset_input(state, false);
        state.login_screen.error_message = None;
        state.ui_state.notify("Recovery disabled for this vault", NotificationLevel::Success);
        match &state.vault_state {
            Some(vs) => write_effect(vs),
            None => Effect::none(),
        }
    } else {
        show_error(state, "Type YES (uppercase) to confirm");
        state.ui_state.input_buffer.clear();
        keep_manage(state, action);
        Effect::none()
    }
}

/// What a step of the recovery-management workflow guarantees.
pub open spec fn manage_recovery_done(s0: AppState, s1: AppState, action: ManageRecoveryAction, r: Effect) -> bool {
    match action.step {
        ManageRecoveryStep::VerifyPassword => verify_password_done(s0, s1, action, r),
        ManageRecoveryStep::VerifyKeyfile => verify_keyfile_done(s0, s1, action, r),
        ManageRecoveryStep::QuestionList => question_list_done(s0, s1, action, r),
        ManageRecoveryStep::EditQuestionText => question_text_done(s0, s1, action, r),
        ManageRecoveryStep::AddQuestionText => new_question_done(s0, s1, action, r),
        ManageRecoveryStep::AddAnswerText => new_answer_done(s0, s1, action, r),
        ManageRecoveryStep::CollectExistingAnswer => answer_collected(s0, s1, action, r),
        ManageRecoveryStep::ConfirmDisableRecovery => disable_confirmed(s0, s1, action, r),
    }
}

/// One step of the recovery-management workflow: check the credentials,
/// then from the list of questions edit a question's text, change an answer,
/// delete a question or add one. Changing answers or the set of questions
/// asks for the answers of the questions kept and rebuilds the setup.
pub fn handle_manage_recovery_submit(state: &mut AppState, action: ManageRecoveryAction) -> (r: Effect)
    requires
        old(state).wf(),
        old(state).vault_state is Some,
    ensures
        final(state).wf(),
        final(state).vault_state is Some,
        manage_recovery_done(*old(state), *final(state), action, r),
{
    match action.step {
        ManageRecoveryStep::VerifyPassword => manage_verify_password(state, action),
        ManageRecoveryStep::VerifyKeyfile => manage_verify_keyfile(state, action),
        ManageRecoveryStep::QuestionList => manage_question_list(state, action),
        ManageRecoveryStep::EditQuestionText => manage_edit_question_text(state, action),
        ManageRecoveryStep::AddQuestionText => manage_add_question_text(state, action),
        ManageRecoveryStep::AddAnswerText => manage_add_answer_text(state, action),
        ManageRecoveryStep::CollectExistingAnswer => manage_collect_answer(state, action),
        ManageRecoveryStep::ConfirmDisableRecovery => manage_confirm_disable(state, action),
    }
}

/// Moves the selection in the list of questions, within the questions.
pub fn manage_move_selection(state: &mut AppState, down: bool)
    requires
        old(state).wf(),
    ensures
        final(state).wf(),
        final(state).vault_state == old(state).vault_state,
{
    let q_count = recovery_question_texts(state).len();
    match &mut state.settings_state.security_action {
        Some(SecurityActionState::ManageRecovery(a)) => {
            if down {
                if q_count > 0 && a.selected_idx < q_count - 1 {
                    a.selected_idx = a.selected_idx + 1;
                }
            } else if a.selected_idx > 0 {
                a.selected_idx = a.selected_idx - 1;
            }
        },
        _ => {},
    }
}

} // verus!
