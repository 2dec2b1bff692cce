//! The login screen: choosing a vault, entering its password, creating a
//! vault with a three-step wizard, and recovering a forgotten password.
use vstd::prelude::*;

use crate::app::state::InputBuffer;
use crate::crypto::cipher::EncryptionMethod;
use crate::crypto::secure_string::SecureString;
use crate::domain::security_question::{RecoveryMetadata, answer_accepted, revealed_text, secret_views};
use crate::error::Result;

verus! {

/// Step of the create-vault wizard.
#[derive(Debug, Clone, Copy, PartialEq, Eq, Structural)]
pub enum CreateVaultStep {
    /// Name and cipher.
    Step1,
    /// Password and key file.
    Step2,
    /// Security questions.
    Step3,
}

impl Default for CreateVaultStep {
    fn default() -> (r: CreateVaultStep)
        ensures
            r == CreateVaultStep::Step1,
    {
        CreateVaultStep::Step1
    }
}

/// A field of the create-vault form.
#[derive(Debug, Clone, Copy, PartialEq, Eq, Structural)]
pub enum CreateVaultField {
    Name,
    EncryptionMethod,
    Password,
    ConfirmPassword,
    UseKeyfile,
    KeyfilePath,
    RecoveryQuestionsCount,
    RecoveryQuestion1,
    RecoveryAnswer1,
    RecoveryQuestion2,
    RecoveryAnswer2,
    RecoveryQuestion3,
    RecoveryAnswer3,
}

impl Default for CreateVaultField {
    fn default() -> (r: CreateVaultField)
        ensures
            r == CreateVaultField::Name,
    {
        CreateVaultField::Name
    }
}

/// Whether Tab visits `f` on a step: the name and the cipher; the
/// password, its confirmation, the key-file switch and, when a key file is
/// used, its path; the question count and a question and an answer for each
/// of the first `q_count` questions.
pub open spec fn on_cycle(f: CreateVaultField, step: CreateVaultStep, q_count: nat, use_keyfile: bool) -> bool {
    match step {
        CreateVaultStep::Step1 => f == CreateVaultField::Name || f == CreateVaultField::EncryptionMethod,
        CreateVaultStep::Step2 => f == CreateVaultField::Password || f == CreateVaultField::ConfirmPassword
            || f == CreateVaultField::UseKeyfile || (use_keyfile && f == CreateVaultField::KeyfilePath),
        CreateVaultStep::Step3 => f == CreateVaultField::RecoveryQuestionsCount
            || (q_count > 0 && (f == CreateVaultField::RecoveryQuestion1 || f == CreateVaultField::RecoveryAnswer1))
            || (q_count > 1 && (f == CreateVaultField::RecoveryQuestion2 || f == CreateVaultField::RecoveryAnswer2))
            || (q_count > 2 && (f == CreateVaultField::RecoveryQuestion3 || f == CreateVaultField::RecoveryAnswer3)),
    }
}

/// The field after `f` on a step (Tab). Each step's fields form a cycle; a
/// field that is not on it leads to the step's first field.
pub open spec fn field_after(f: CreateVaultField, step: CreateVaultStep, q_count: nat, use_keyfile: bool) -> CreateVaultField {
    match step {
        CreateVaultStep::Step1 => match f {
            CreateVaultField::Name => CreateVaultField::EncryptionMethod,
            _ => CreateVaultField::Name,
        },
        CreateVaultStep::Step2 => match f {
            CreateVaultField::Password => CreateVaultField::ConfirmPassword,
            CreateVaultField::ConfirmPassword => CreateVaultField::UseKeyfile,
            CreateVaultField::UseKeyfile => if use_keyfile { CreateVaultField::KeyfilePath } else { CreateVaultField::Password },
            _ => CreateVaultField::Password,
        },
        CreateVaultStep::Step3 => match f {
            CreateVaultField::RecoveryQuestionsCount => if q_count > 0 { CreateVaultField::RecoveryQuestion1 } else { CreateVaultField::RecoveryQuestionsCount },
            CreateVaultField::RecoveryQuestion1 => CreateVaultField::RecoveryAnswer1,
            CreateVaultField::RecoveryAnswer1 => if q_count > 1 { CreateVaultField::RecoveryQuestion2 } else { CreateVaultField::RecoveryQuestionsCount },
            CreateVaultField::RecoveryQuestion2 => CreateVaultField::RecoveryAnswer2,
            CreateVaultField::RecoveryAnswer2 => if q_count > 2 { CreateVaultField::RecoveryQuestion3 } else { CreateVaultField::RecoveryQuestionsCount },
            CreateVaultField::RecoveryQuestion3 => CreateVaultField::RecoveryAnswer3,
            _ => CreateVaultField::RecoveryQuestionsCount,
        },
    }
}

/// The field before `f` on a step (Shift+Tab): the cycle of Tab walked
/// backwards; a field that is not on a step leads to its first field.
pub open spec fn field_before(f: CreateVaultField, step: CreateVaultStep, q_count: nat, use_keyfile: bool) -> CreateVaultField {
    match step {
        CreateVaultStep::Step1 => match f {
            CreateVaultField::Name => CreateVaultField::EncryptionMethod,
            _ => CreateVaultField::Name,
        },
        CreateVaultStep::Step2 => match f {
            CreateVaultField::Password => if use_keyfile { CreateVaultField::KeyfilePath } else { CreateVaultField::UseKeyfile },
            CreateVaultField::ConfirmPassword => CreateVaultField::Password,
            CreateVaultField::UseKeyfile => CreateVaultField::ConfirmPassword,
            CreateVaultField::KeyfilePath => CreateVaultField::UseKeyfile,
            _ => CreateVaultField::Password,
        },
        CreateVaultStep::Step3 => match f {
            CreateVaultField::RecoveryQuestionsCount => if q_count > 2 {
                CreateVaultField::RecoveryAnswer3
            } else if q_count > 1 {
                CreateVaultField::RecoveryAnswer2
            } else if q_count > 0 {
                CreateVaultField::RecoveryAnswer1
            } else {
                CreateVaultField::RecoveryQuestionsCount
            },
            CreateVaultField::RecoveryQuestion1 => CreateVaultField::RecoveryQuestionsCount,
            CreateVaultField::RecoveryAnswer1 => CreateVaultField::RecoveryQuestion1,
            CreateVaultField::RecoveryQuestion2 => CreateVaultField::RecoveryAnswer1,
            CreateVaultField::RecoveryAnswer2 => CreateVaultField::RecoveryQuestion2,
            CreateVaultField::RecoveryQuestion3 => CreateVaultField::RecoveryAnswer2,
            CreateVaultField::RecoveryAnswer3 => CreateVaultField::RecoveryQuestion3,
            _ => CreateVaultField::RecoveryQuestionsCount,
        },
    }
}

/// Tab and Shift+Tab undo each other on the fields a step visits, and
/// neither leaves them.
pub proof fn lemma_field_navigation_inverse(f: CreateVaultField, step: CreateVaultStep, q_count: nat, use_keyfile: bool)
    requires
        on_cycle(f, step, q_count, use_keyfile),
    ensures
        on_cycle(field_after(f, step, q_count, use_keyfile), step, q_count, use_keyfile),
        on_cycle(field_before(f, step, q_count, use_keyfile), step, q_count, use_keyfile),
        field_before(field_after(f, step, q_count, use_keyfile), step, q_count, use_keyfile) == f,
        field_after(field_before(f, step, q_count, use_keyfile), step, q_count, use_keyfile) == f,
{
}

/// The fields a step visits, in the order Tab visits them.
pub open spec fn cycle_fields(step: CreateVaultStep, q_count: nat, use_keyfile: bool) -> Seq<CreateVaultField> {
    match step {
        CreateVaultStep::Step1 => seq![CreateVaultField::Name, CreateVaultField::EncryptionMethod],
        CreateVaultStep::Step2 => if use_keyfile {
            seq![
                CreateVaultField::Password,
                CreateVaultField::ConfirmPassword,
                CreateVaultField::UseKeyfile,
                CreateVaultField::KeyfilePath,
            ]
        } else {
            seq![CreateVaultField::Password, CreateVaultField::ConfirmPassword, CreateVaultField::UseKeyfile]
        },
        CreateVaultStep::Step3 => if q_count == 0 {
            seq![CreateVaultField::RecoveryQuestionsCount]
        } else if q_count == 1 {
            seq![CreateVaultField::RecoveryQuestionsCount, CreateVaultField::RecoveryQuestion1, CreateVaultField::RecoveryAnswer1]
        } else if q_count == 2 {
            seq![CreateVaultField::RecoveryQuestionsCount, CreateVaultField::RecoveryQuestion1, CreateVaultField::RecoveryAnswer1, CreateVaultField::RecoveryQuestion2, CreateVaultField::RecoveryAnswer2]
        } else {
            seq![
                CreateVaultField::RecoveryQuestionsCount,
                CreateVaultField::RecoveryQuestion1,
                CreateVaultField::RecoveryAnswer1,
                CreateVaultField::RecoveryQuestion2,
                CreateVaultField::RecoveryAnswer2,
                CreateVaultField::RecoveryQuestion3,
                CreateVaultField::RecoveryAnswer3,
            ]
        },
    }
}

/// The place of a field in the Tab order of its step.
pub open spec fn cycle_position(f: CreateVaultField) -> int {
    match f {
        CreateVaultField::Name => 0,
        CreateVaultField::EncryptionMethod => 1,
        CreateVaultField::Password => 0,
        CreateVaultField::ConfirmPassword => 1,
        CreateVaultField::UseKeyfile => 2,
        CreateVaultField::KeyfilePath => 3,
        CreateVaultField::RecoveryQuestionsCount => 0,
        CreateVaultField::RecoveryQuestion1 => 1,
        CreateVaultField::RecoveryAnswer1 => 2,
        CreateVaultField::RecoveryQuestion2 => 3,
        CreateVaultField::RecoveryAnswer2 => 4,
        CreateVaultField::RecoveryQuestion3 => 5,
        CreateVaultField::RecoveryAnswer3 => 6,
    }
}

/// Tab goes from each field a step visits to the next one in
/// `cycle_fields`, from the last back to the first, and each field's place
/// there is `cycle_position`.
#[verifier::spinoff_prover]
#[verifier::rlimit(100)]
pub proof fn lemma_tab_order(step: CreateVaultStep, q_count: nat, use_keyfile: bool)
    ensures
        ({
            let c = cycle_fields(step, q_count, use_keyfile);
            &&& c.len() > 0
            &&& forall|i: int| 0 <= i < c.len() ==> cycle_position(#[trigger] c[i]) == i
            &&& forall|i: int| 0 <= i < c.len() - 1 ==> field_after(#[trigger] c[i], step, q_count, use_keyfile) == c[i + 1]
            &&& field_after(c[c.len() - 1], step, q_count, use_keyfile) == c[0]
        }),
{
    let c = cycle_fields(step, q_count, use_keyfile);
    let n = c.len() as int;
    match step {
        CreateVaultStep::Step1 => {
            assert(c =~= seq![CreateVaultField::Name, CreateVaultField::EncryptionMethod]);
            assert forall|i: int| 0 <= i < n implies cycle_position(#[trigger] c[i]) == i
                && (i < n - 1 ==> field_after(c[i], step, q_count, use_keyfile) == c[i + 1]) by {
                if i == 0 {} else {}
            }
        },
        CreateVaultStep::Step2 => if use_keyfile {
            assert(c =~= seq![CreateVaultField::Password, CreateVaultField::ConfirmPassword, CreateVaultField::UseKeyfile, CreateVaultField::KeyfilePath]);
            assert forall|i: int| 0 <= i < n implies cycle_position(#[trigger] c[i]) == i
                && (i < n - 1 ==> field_after(c[i], step, q_count, use_keyfile) == c[i + 1]) by {
                if i == 0 {} else if i == 1 {} else if i == 2 {} else {}
            }
        } else {
            assert(c =~= seq![CreateVaultField::Password, CreateVaultField::ConfirmPassword, CreateVaultField::UseKeyfile]);
            assert forall|i: int| 0 <= i < n implies cycle_position(#[trigger] c[i]) == i
                && (i < n - 1 ==> field_after(c[i], step, q_count, use_keyfile) == c[i + 1]) by {
                if i == 0 {} else if i == 1 {} else {}
            }
        },
        CreateVaultStep::Step3 => if q_count == 0 {
            assert(c =~= seq![CreateVaultField::RecoveryQuestionsCount]);
            assert forall|i: int| 0 <= i < n implies cycle_position(#[trigger] c[i]) == i
                && (i < n - 1 ==> field_after(c[i], step, q_count, use_keyfile) == c[i + 1]) by {
                {}
            }
        } else if q_count == 1 {
            assert(c =~= seq![CreateVaultField::RecoveryQuestionsCount, CreateVaultField::RecoveryQuestion1, CreateVaultField::RecoveryAnswer1]);
            assert forall|i: int| 0 <= i < n implies cycle_position(#[trigger] c[i]) == i
                && (i < n - 1 ==> field_after(c[i], step, q_count, use_keyfile) == c[i + 1]) by {
                if i == 0 {} else if i == 1 {} else {}
            }
        } else if q_count == 2 {
            assert(c =~= seq![CreateVaultField::RecoveryQuestionsCount, CreateVaultField::RecoveryQuestion1, CreateVaultField::RecoveryAnswer1, CreateVaultField::RecoveryQuestion2, CreateVaultField::RecoveryAnswer2]);
            assert forall|i: int| 0 <= i < n implies cycle_position(#[trigger] c[i]) == i
                && (i < n - 1 ==> field_after(c[i], step, q_count, use_keyfile) == c[i + 1]) by {
                if i == 0 {} else if i == 1 {} else if i == 2 {} else if i == 3 {} else {}
            }
        } else {
            assert(c =~= seq![CreateVaultField::RecoveryQuestionsCount, CreateVaultField::RecoveryQuestion1, CreateVaultField::RecoveryAnswer1, CreateVaultField::RecoveryQuestion2, CreateVaultField::RecoveryAnswer2, CreateVaultField::RecoveryQuestion3, CreateVaultField::RecoveryAnswer3]);
            assert forall|i: int| 0 <= i < n implies cycle_position(#[trigger] c[i]) == i
                && (i < n - 1 ==> field_after(c[i], step, q_count, use_keyfile) == c[i + 1]) by {
                if i == 0 {} else if i == 1 {} else if i == 2 {} else if i == 3 {} else if i == 4 {} else if i == 5 {} else {}
            }
        },
    }
}

/// The fields a step visits are those of `cycle_fields`.
#[verifier::spinoff_prover]
pub proof fn lemma_cycle_members(step: CreateVaultStep, q_count: nat, use_keyfile: bool)
    ensures
        forall|f: CreateVaultField| on_cycle(f, step, q_count, use_keyfile) <==> cycle_fields(step, q_count, use_keyfile).contains(f),
{
    let c = cycle_fields(step, q_count, use_keyfile);
    assert forall|f: CreateVaultField| on_cycle(f, step, q_count, use_keyfile) <==> c.contains(f) by {
        if on_cycle(f, step, q_count, use_keyfile) {
            let i: int = choose|i: int| 0 <= i < c.len() && c[i] == f;
            assert(exists|i: int| 0 <= i < c.len() && c[i] == f) by {
                match step {
                    CreateVaultStep::Step1 => {
                        if f == CreateVaultField::Name { assert(c[0] == f); } else { assert(c[1] == f); }
                    },
                    CreateVaultStep::Step2 => {
                        if f == CreateVaultField::Password { assert(c[0] == f); }
                        else if f == CreateVaultField::ConfirmPassword { assert(c[1] == f); }
                        else if f == CreateVaultField::UseKeyfile { assert(c[2] == f); }
                        else { assert(c[3] == f); }
                    },
                    CreateVaultStep::Step3 => {
                        if f == CreateVaultField::RecoveryQuestionsCount { assert(c[0] == f); }
                        else if f == CreateVaultField::RecoveryQuestion1 { assert(c[1] == f); }
                        else if f == CreateVaultField::RecoveryAnswer1 { assert(c[2] == f); }
                        else if f == CreateVaultField::RecoveryQuestion2 { assert(c[3] == f); }
                        else if f == CreateVaultField::RecoveryAnswer2 { assert(c[4] == f); }
                        else if f == CreateVaultField::RecoveryQuestion3 { assert(c[5] == f); }
                        else { assert(c[6] == f); }
                    },
                }
            }
        }
    }
}

/// One round of Tab on a step visits each field shown on it exactly once:
/// the fields visited are those of `cycle_fields`, none twice, and Tab goes
/// from each to the next, from the last back to the first.
#[verifier::spinoff_prover]
#[verifier::rlimit(40)]
pub proof fn lemma_tab_visits_each_field_once(step: CreateVaultStep, q_count: nat, use_keyfile: bool)
    ensures
        ({
            let c = cycle_fields(step, q_count, use_keyfile);
            &&& c.len() > 0
            &&& forall|f: CreateVaultField| on_cycle(f, step, q_count, use_keyfile) <==> c.contains(f)
            &&& forall|i: int, j: int| 0 <= i < j < c.len() ==> c[i] != c[j]
            &&& forall|i: int| 0 <= i < c.len() - 1 ==> field_after(#[trigger] c[i], step, q_count, use_keyfile) == c[i + 1]
            &&& field_after(c[c.len() - 1], step, q_count, use_keyfile) == c[0]
        }),
{
    lemma_tab_order(step, q_count, use_keyfile);
    lemma_cycle_members(step, q_count, use_keyfile);
    let c = cycle_fields(step, q_count, use_keyfile);
    let n = c.len() as int;
    assert forall|i: int, j: int| 0 <= i < j < n implies c[i] != c[j] by {
        assert(cycle_position(c[i]) == i);
        assert(cycle_position(c[j]) == j);
    }
}

impl CreateVaultField {
    /// The field Tab moves to.
    pub fn next(self, step: CreateVaultStep, q_count: usize, use_keyfile: bool) -> (r: CreateVaultField)
        ensures
            r == field_after(self, step, q_count as nat, use_keyfile),
    {
        let r = match step {
            CreateVaultStep::Step1 => match self {
                CreateVaultField::Name => CreateVaultField::EncryptionMethod,
                CreateVaultField::EncryptionMethod => CreateVaultField::Name,
                _ => CreateVaultField::Name,
            },
            CreateVaultStep::Step2 => match self {
                CreateVaultField::Password => CreateVaultField::ConfirmPassword,
                CreateVaultField::ConfirmPassword => CreateVaultField::UseKeyfile,
                CreateVaultField::UseKeyfile => {
                    if use_keyfile {
                        CreateVaultField::KeyfilePath
                    } else {
                        CreateVaultField::Password
                    }
                },
                CreateVaultField::KeyfilePath => CreateVaultField::Password,
                _ => CreateVaultField::Password,
            },
            CreateVaultStep::Step3 => match self {
                CreateVaultField::RecoveryQuestionsCount => {
                    if q_count > 0 {
                        CreateVaultField::RecoveryQuestion1
                    } else {
                        CreateVaultField::RecoveryQuestionsCount
                    }
                },
                CreateVaultField::RecoveryQuestion1 => CreateVaultField::RecoveryAnswer1,
                CreateVaultField::RecoveryAnswer1 => {
                    if q_count > 1 {
                        CreateVaultField::RecoveryQuestion2
                    } else {
                        CreateVaultField::RecoveryQuestionsCount
                    }
                },
                CreateVaultField::RecoveryQuestion2 => CreateVaultField::RecoveryAnswer2,
                CreateVaultField::RecoveryAnswer2 => {
                    if q_count > 2 {
                        CreateVaultField::RecoveryQuestion3
                    } else {
                        CreateVaultField::RecoveryQuestionsCount
                    }
                },
                CreateVaultField::RecoveryQuestion3 => CreateVaultField::RecoveryAnswer3,
                CreateVaultField::RecoveryAnswer3 => CreateVaultField::RecoveryQuestionsCount,
                _ => CreateVaultField::RecoveryQuestionsCount,
            },
        };
        r
    }

    /// The field Shift+Tab moves to.
    pub fn prev(self, step: CreateVaultStep, q_count: usize, use_keyfile: bool) -> (r: CreateVaultField)
        ensures
            r == field_before(self, step, q_count as nat, use_keyfile),
    {
        let r = match step {
            CreateVaultStep::Step1 => match self {
                CreateVaultField::EncryptionMethod => CreateVaultField::Name,
                CreateVaultField::Name => CreateVaultField::EncryptionMethod,
                _ => CreateVaultField::Name,
            },
            CreateVaultStep::Step2 => match self {
                CreateVaultField::Password => {
                    if use_keyfile {
                        CreateVaultField::KeyfilePath
                    } else {
                        CreateVaultField::UseKeyfile
                    }
                },
                CreateVaultField::ConfirmPassword => CreateVaultField::Password,
                CreateVaultField::UseKeyfile => CreateVaultField::ConfirmPassword,
                CreateVaultField::KeyfilePath => CreateVaultField::UseKeyfile,
                _ => CreateVaultField::Password,
            },
            CreateVaultStep::Step3 => match self {
                CreateVaultField::RecoveryQuestionsCount => {
                    if q_count > 2 {
                        CreateVaultField::RecoveryAnswer3
                    } else if q_count > 1 {
                        CreateVaultField::RecoveryAnswer2
                    } else if q_count > 0 {
                        CreateVaultField::RecoveryAnswer1
                    } else {
                        CreateVaultField::RecoveryQuestionsCount
                    }
                },
                CreateVaultField::RecoveryQuestion1 => CreateVaultField::RecoveryQuestionsCount,
                CreateVaultField::RecoveryAnswer1 => CreateVaultField::RecoveryQuestion1,
                CreateVaultField::RecoveryQuestion2 => CreateVaultField::RecoveryAnswer1,
                CreateVaultField::RecoveryAnswer2 => CreateVaultField::RecoveryQuestion2,
                CreateVaultField::RecoveryQuestion3 => CreateVaultField::RecoveryAnswer2,
                CreateVaultField::RecoveryAnswer3 => CreateVaultField::RecoveryQuestion3,
                _ => CreateVaultField::RecoveryQuestionsCount,
            },
        };
        r
    }
}

/// State of the create-vault form.
#[derive(Debug, Clone)]
pub struct CreateVaultFormState {
    pub step: CreateVaultStep,
    pub focused_field: CreateVaultField,
    pub encryption_method: EncryptionMethod,
    pub name: InputBuffer,
    pub password: InputBuffer,
    pub confirm_password: InputBuffer,
    pub use_keyfile: InputBuffer,
    pub keyfile_path: InputBuffer,
    pub recovery_questions_count: usize,
    pub question1: InputBuffer,
    pub answer1: InputBuffer,
    pub question2: InputBuffer,
    pub answer2: InputBuffer,
    pub question3: InputBuffer,
    pub answer3: InputBuffer,
    /// Scroll offset of long steps.
    pub scroll_offset: u16,
}

/// An input buffer that is empty, with its cursor at the start.
pub open spec fn blank(b: InputBuffer, masked: bool) -> bool {
    b.text@ == Seq::<char>::empty() && b.cursor == 0 && b.masked == masked && b.wf()
}

/// The input buffer of a form field, if it has one (the cipher and the
/// question count are chosen, not typed).
pub open spec fn field_input(form: CreateVaultFormState, f: CreateVaultField) -> Option<InputBuffer> {
    match f {
        CreateVaultField::Name => Some(form.name),
        CreateVaultField::Password => Some(form.password),
        CreateVaultField::ConfirmPassword => Some(form.confirm_password),
        CreateVaultField::UseKeyfile => Some(form.use_keyfile),
        CreateVaultField::KeyfilePath => Some(form.keyfile_path),
        CreateVaultField::RecoveryQuestion1 => Some(form.question1),
        CreateVaultField::RecoveryAnswer1 => Some(form.answer1),
        CreateVaultField::RecoveryQuestion2 => Some(form.question2),
        CreateVaultField::RecoveryAnswer2 => Some(form.answer2),
        CreateVaultField::RecoveryQuestion3 => Some(form.question3),
        CreateVaultField::RecoveryAnswer3 => Some(form.answer3),
        _ => None,
    }
}

/// The form with the input buffer of the field `f` replaced by `b`.
pub open spec fn with_field_input(form: CreateVaultFormState, f: CreateVaultField, b: InputBuffer) -> CreateVaultFormState {
    match f {
        CreateVaultField::Name => CreateVaultFormState { name: b, ..form },
        CreateVaultField::Password => CreateVaultFormState { password: b, ..form },
        CreateVaultField::ConfirmPassword => CreateVaultFormState { confirm_password: b, ..form },
        CreateVaultField::UseKeyfile => CreateVaultFormState { use_keyfile: b, ..form },
        CreateVaultField::KeyfilePath => CreateVaultFormState { keyfile_path: b, ..form },
        CreateVaultField::RecoveryQuestion1 => CreateVaultFormState { question1: b, ..form },
        CreateVaultField::RecoveryAnswer1 => CreateVaultFormState { answer1: b, ..form },
        CreateVaultField::RecoveryQuestion2 => CreateVaultFormState { question2: b, ..form },
        CreateVaultField::RecoveryAnswer2 => CreateVaultFormState { answer2: b, ..form },
        CreateVaultField::RecoveryQuestion3 => CreateVaultFormState { question3: b, ..form },
        CreateVaultField::RecoveryAnswer3 => CreateVaultFormState { answer3: b, ..form },
        _ => form,
    }
}

impl CreateVaultFormState {
    /// A blank form on its first step, with the secret fields masked.
    pub fn new() -> (r: CreateVaultFormState)
        ensures
            r.step == CreateVaultStep::Step1,
            r.focused_field == CreateVaultField::Name,
            r.encryption_method == EncryptionMethod::Aes256Gcm,
            r.recovery_questions_count == 0,
            r.scroll_offset == 0,
            blank(r.name, false),
            blank(r.password, true),
            blank(r.confirm_password, true),
            blank(r.use_keyfile, false),
            blank(r.keyfile_path, false),
            blank(r.question1, false),
            blank(r.answer1, true),
            blank(r.question2, false),
            blank(r.answer2, true),
            blank(r.question3, false),
            blank(r.answer3, true),
    {
        CreateVaultFormState {
            step: CreateVaultStep::Step1,
            focused_field: CreateVaultField::Name,
            encryption_method: EncryptionMethod::Aes256Gcm,
            name: InputBuffer::new(),
            password: InputBuffer::masked(),
            confirm_password: InputBuffer::masked(),
            use_keyfile: InputBuffer::new(),
            keyfile_path: InputBuffer::new(),
            recovery_questions_count: 0,
            question1: InputBuffer::new(),
            answer1: InputBuffer::masked(),
            question2: InputBuffer::new(),
            answer2: InputBuffer::masked(),
            question3: InputBuffer::new(),
            answer3: InputBuffer::masked(),
            scroll_offset: 0,
        }
    }

    /// The input buffer of the focused field, if it has one.
    pub fn active_input(&self) -> (r: Option<&InputBuffer>)
        ensures
            match field_input(*self, self.focused_field) {
                Some(b) => r == Some(&b),
                None => r is None,
            },
    {
        match self.focused_field {
            CreateVaultField::Name => Some(&self.name),
            CreateVaultField::Password => Some(&self.password),
            CreateVaultField::ConfirmPassword => Some(&self.confirm_password),
            CreateVaultField::UseKeyfile => Some(&self.use_keyfile),
            CreateVaultField::KeyfilePath => Some(&self.keyfile_path),
            CreateVaultField::RecoveryQuestion1 => Some(&self.question1),
            CreateVaultField::RecoveryAnswer1 => Some(&self.answer1),
            CreateVaultField::RecoveryQuestion2 => Some(&self.question2),
            CreateVaultField::RecoveryAnswer2 => Some(&self.answer2),
            CreateVaultField::RecoveryQuestion3 => Some(&self.question3),
            CreateVaultField::RecoveryAnswer3 => Some(&self.answer3),
            _ => None,
        }
    }

    /// The input buffer of the focused field, to edit, if it has one.
    pub fn active_input_mut(&mut self) -> (r: Option<&mut InputBuffer>)
        ensures
            match field_input(*old(self), old(self).focused_field) {
                Some(b) => r matches Some(m) && *m == b && *final(self) == with_field_input(
                    *old(self),
                    old(self).focused_field,
                    *final(m),
                ),
                None => r is None && *final(self) == *old(self),
            },
    {
        match self.focused_field {
            CreateVaultField::Name => Some(&mut self.name),
            CreateVaultField::Password => Some(&mut self.password),
            CreateVaultField::ConfirmPassword => Some(&mut self.confirm_password),
            CreateVaultField::UseKeyfile => Some(&mut self.use_keyfile),
            CreateVaultField::KeyfilePath => Some(&mut self.keyfile_path),
            CreateVaultField::RecoveryQuestion1 => Some(&mut self.question1),
            CreateVaultField::RecoveryAnswer1 => Some(&mut self.answer1),
            CreateVaultField::RecoveryQuestion2 => Some(&mut self.question2),
            CreateVaultField::RecoveryAnswer2 => Some(&mut self.answer2),
            CreateVaultField::RecoveryQuestion3 => Some(&mut self.question3),
            CreateVaultField::RecoveryAnswer3 => Some(&mut self.answer3),
            _ => None,
        }
    }
}

/// A security question typed during vault creation.
#[derive(Debug, Clone)]
pub struct SecurityQuestionDraft {
    pub question: String,
    pub answer: String,
}

impl Default for SecurityQuestionDraft {
    fn default() -> (r: SecurityQuestionDraft)
        ensures
            r.question@ == Seq::<char>::empty(),
            r.answer@ == Seq::<char>::empty(),
    {
        SecurityQuestionDraft { question: String::new(), answer: String::new() }
    }
}

/// An ongoing forgot-password recovery: the questions are answered in
/// order, each correct answer reveals more of the password, and the last one
/// reveals all of it.
#[derive(Clone)]
pub struct PasswordRecoverySession {
    pub vault_name: String,
    pub vault_path: String,
    pub metadata: RecoveryMetadata,
    /// Index of the question to answer next.
    pub current_question: usize,
    pub failed_attempts: u32,
    /// The correct answers so far, in question order.
    pub provided_answers: Vec<SecureString>,
    /// What the correct answers revealed last.
    pub latest_hint: Option<String>,
    /// The password, once every question is answered.
    pub recovered_password: Option<String>,
}

impl PasswordRecoverySession {
    /// The current question is one of the questions, or just past the last.
    pub open spec fn wf(&self) -> bool {
        self.current_question <= self.metadata.questions@.len()
    }

    /// A session at the first question with no attempt made.
    pub fn new(vault_name: String, vault_path: String, metadata: RecoveryMetadata) -> (r: PasswordRecoverySession)
        ensures
            r.wf(),
            r.vault_name == vault_name,
            r.vault_path == vault_path,
            r.metadata == metadata,
            r.current_question == 0,
            r.failed_attempts == 0,
            r.latest_hint is None,
            r.recovered_password is None,
    {
        PasswordRecoverySession {
            vault_name,
            vault_path,
            metadata,
            current_question: 0,
            failed_attempts: 0,
            provided_answers: Vec::new(),
            latest_hint: None,
            recovered_password: None,
        }
    }

    /// The text of the question to answer next, if any is left.
    pub fn current_question_text(&self) -> (r: Option<&str>)
        ensures
            self.current_question < self.metadata.questions@.len() ==> (r matches Some(t)
                && t@ == self.metadata.questions@[self.current_question as int].question@),
            self.current_question >= self.metadata.questions@.len() ==> r is None,
    {
        if self.current_question < self.metadata.questions.len() {
            Some(self.metadata.questions[self.current_question].question.as_str())
        } else {
            None
        }
    }

    /// Whether every question is answered and the password recovered.
    pub fn is_complete(&self) -> (r: bool)
        ensures
            r == (self.current_question >= self.metadata.questions@.len() && self.recovered_password is Some),
    {
        self.current_question >= self.metadata.questions.len() && self.recovered_password.is_some()
    }

    /// Whether the allowed failed attempts are used up.
    pub fn is_locked_out(&self) -> (r: bool)
        ensures
            r == (self.failed_attempts >= self.metadata.max_attempts),
    {
        self.failed_attempts >= self.metadata.max_attempts
    }

    /// Failed attempts left before lockout.
    pub fn remaining_attempts(&self) -> (r: u32)
        ensures
            r == (if self.failed_attempts >= self.metadata.max_attempts { 0 } else {
                self.metadata.max_attempts - self.failed_attempts
            }),
    {
        if self.failed_attempts >= self.metadata.max_attempts {
            0
        } else {
            self.metadata.max_attempts - self.failed_attempts
        }
    }

    /// Answers the current question.
    ///
    /// With no question left nothing changes and the answer is refused. A
    /// wrong answer counts a failed attempt. A correct one is kept, reveals
    /// the hint of the answers so far, moves to the next question and, after
    /// the last one, recovers the password.
    pub fn submit_answer(&mut self, answer: SecureString) -> (r: Result<bool>)
        requires
            old(self).wf(),
            old(self).failed_attempts < u32::MAX,
        ensures
            final(self).wf(),
            final(self).metadata == old(self).metadata,
            final(self).vault_name == old(self).vault_name,
            final(self).vault_path == old(self).vault_path,
            old(self).current_question >= old(self).metadata.questions@.len() ==> (r == Ok::<bool, crate::error::Error>(false)
                && *final(self) == *old(self)),
            old(self).current_question < old(self).metadata.questions@.len() ==> {
                let q = old(self).metadata.questions@[old(self).current_question as int];
                let answers = secret_views(old(self).provided_answers@.push(answer));
                if !answer_accepted(q, answer@) {
                    &&& r == Ok::<bool, crate::error::Error>(false)
                    &&& final(self).failed_attempts == old(self).failed_attempts + 1
                    &&& final(self).current_question == old(self).current_question
                    &&& final(self).provided_answers@ == old(self).provided_answers@
                    &&& final(self).latest_hint == old(self).latest_hint
                    &&& final(self).recovered_password == old(self).recovered_password
                } else {
                    &&& secret_views(final(self).provided_answers@) == answers
                    &&& final(self).failed_attempts == old(self).failed_attempts
                    &&& match revealed_text(old(self).metadata, answers) {
                        Some(hint) => {
                            &&& r == Ok::<bool, crate::error::Error>(true)
                            &&& final(self).current_question == old(self).current_question + 1
                            &&& final(self).latest_hint matches Some(h) && h@ == hint
                            &&& if final(self).current_question >= old(self).metadata.questions@.len() {
                                final(self).recovered_password matches Some(p) && p@ == hint
                            } else {
                                final(self).recovered_password == old(self).recovered_password
                            }
                        },
                        None => {
                            &&& r is Err
                            &&& final(self).current_question == old(self).current_question
                            &&& final(self).latest_hint == old(self).latest_hint
                            &&& final(self).recovered_password == old(self).recovered_password
                        },
                    }
                }
            },
    {
        if self.current_question >= self.metadata.questions.len() {
            return Ok(false);
        }
        let is_correct = self.metadata.questions[self.current_question].verify(&answer)?;
        if !is_correct {
            self.failed_attempts = self.failed_attempts + 1;
            return Ok(false);
        }
        self.provided_answers.push(answer);
        let revealed = self.metadata.reveal_for_answers(self.provided_answers.as_slice())?;
        self.latest_hint = Some(revealed.clone());
        self.current_question = self.current_question + 1;
        if self.current_question >= self.metadata.questions.len() {
            self.recovered_password = Some(revealed);
        }
        Ok(true)
    }
}

/// State of the login screen.
pub struct LoginScreen {
    /// Index of the selected vault.
    pub selected_vault: usize,
    /// Whether a password is being entered.
    pub entering_password: bool,
    /// Whether a key file path is being entered to unlock.
    pub entering_keyfile_path: bool,
    /// Error shown to the user.
    pub error_message: Option<String>,
    /// Whether the create-vault form is shown.
    pub creating_vault: bool,
    /// The create-vault form.
    pub create_vault_form: CreateVaultFormState,
    /// The password typed before the key file was asked for.
    pub pending_unlock_password: Option<SecureString>,
    /// The forgot-password session under way.
    pub password_recovery: Option<PasswordRecoverySession>,
}

/// The create-vault form as `CreateVaultFormState::new` makes it.
pub open spec fn fresh_form(f: CreateVaultFormState) -> bool {
    &&& f.step == CreateVaultStep::Step1
    &&& f.focused_field == CreateVaultField::Name
    &&& f.encryption_method == EncryptionMethod::Aes256Gcm
    &&& f.recovery_questions_count == 0
    &&& f.scroll_offset == 0
    &&& blank(f.name, false)
    &&& blank(f.password, true)
    &&& blank(f.confirm_password, true)
    &&& blank(f.use_keyfile, false)
    &&& blank(f.keyfile_path, false)
    &&& blank(f.question1, false)
    &&& blank(f.answer1, true)
    &&& blank(f.question2, false)
    &&& blank(f.answer2, true)
    &&& blank(f.question3, false)
    &&& blank(f.answer3, true)
}

/// The selection after moving down a list of `count` vaults, wrapping.
pub open spec fn selection_after(selected: nat, count: nat) -> nat {
    if count > 0 { (selected + 1) % count } else { selected }
}

/// The selection after moving up a list of `count` vaults, wrapping.
pub open spec fn selection_before(selected: nat, count: nat) -> nat {
    if count > 0 {
        if selected == 0 { (count - 1) as nat } else { (selected - 1) as nat }
    } else {
        selected
    }
}

impl Default for LoginScreen {
    fn default() -> (r: LoginScreen)
        ensures
            r.selected_vault == 0,
            !r.entering_password,
            !r.entering_keyfile_path,
            r.error_message is None,
            !r.creating_vault,
            fresh_form(r.create_vault_form),
            r.pending_unlock_password is None,
            r.password_recovery is None,
    {
        LoginScreen::new()
    }
}

impl LoginScreen {
    /// The screen with the first vault selected and nothing under way.
    pub fn new() -> (r: LoginScreen)
        ensures
            r.selected_vault == 0,
            !r.entering_password,
            !r.entering_keyfile_path,
            r.error_message is None,
            !r.creating_vault,
            fresh_form(r.create_vault_form),
            r.pending_unlock_password is None,
            r.password_recovery is None,
    {
        let mut screen = LoginScreen {
            selected_vault: 0,
            entering_password: false,
            entering_keyfile_path: false,
            error_message: None,
            creating_vault: false,
            create_vault_form: CreateVaultFormState::new(),
            pending_unlock_password: None,
            password_recovery: None,
        };
        screen.reset_create_form();
        screen
    }

    /// Selects the next of `vault_count` vaults, wrapping to the first.
    pub fn select_next(&mut self, vault_count: usize)
        requires
            old(self).selected_vault < usize::MAX,
        ensures
            *final(self) == (LoginScreen { selected_vault: final(self).selected_vault, ..*old(self) }),
            final(self).create_vault_form == old(self).create_vault_form,
            final(self).selected_vault == selection_after(old(self).selected_vault as nat, vault_count as nat),
            final(self).entering_password == old(self).entering_password,
            final(self).creating_vault == old(self).creating_vault,
            final(self).error_message == old(self).error_message,
    {
        if vault_count > 0 {
            self.selected_vault = (self.selected_vault + 1) % vault_count;
        }
    }

    /// Selects the previous of `vault_count` vaults, wrapping to the last.
    pub fn select_prev(&mut self, vault_count: usize)
        ensures
            *final(self) == (LoginScreen { selected_vault: final(self).selected_vault, ..*old(self) }),
            final(self).create_vault_form == old(self).create_vault_form,
            final(self).selected_vault == selection_before(old(self).selected_vault as nat, vault_count as nat),
            final(self).entering_password == old(self).entering_password,
            final(self).creating_vault == old(self).creating_vault,
            final(self).error_message == old(self).error_message,
    {
        if vault_count > 0 {
            self.selected_vault = if self.selected_vault == 0 {
                vault_count - 1
            } else {
                self.selected_vault - 1
            };
        }
    }

    /// Starts entering the password of the selected vault.
    pub fn enter_password_mode(&mut self)
        ensures
            final(self).create_vault_form == old(self).create_vault_form,
            final(self).entering_password,
            !final(self).entering_keyfile_path,
            !final(self).creating_vault,
            final(self).pending_unlock_password is None,
            final(self).password_recovery is None,
            final(self).error_message is None,
            final(self).selected_vault == old(self).selected_vault,
    {
        self.entering_password = true;
        self.entering_keyfile_path = false;
        self.creating_vault = false;
        self.pending_unlock_password = None;
        self.password_recovery = None;
        self.error_message = None;
    }

    /// Stops entering a password (or a key file path, or recovering).
    pub fn exit_password_mode(&mut self)
        ensures
            final(self).create_vault_form == old(self).create_vault_form,
            !final(self).entering_password,
            !final(self).entering_keyfile_path,
            final(self).password_recovery is None,
            final(self).pending_unlock_password is None,
            final(self).error_message == old(self).error_message,
            final(self).creating_vault == old(self).creating_vault,
            final(self).selected_vault == old(self).selected_vault,
    {
        self.entering_password = false;
        self.entering_keyfile_path = false;
        self.password_recovery = None;
        self.pending_unlock_password = None;
    }

    /// Shows an error message.
    pub fn show_error(&mut self, msg: &str)
        ensures
            *final(self) == (LoginScreen { error_message: final(self).error_message, ..*old(self) }),
            final(self).create_vault_form == old(self).create_vault_form,
            final(self).error_message matches Some(m) && m@ == msg@,
            final(self).entering_password == old(self).entering_password,
            final(self).selected_vault == old(self).selected_vault,
    {
        self.error_message = Some(String::from_str(msg));
    }

    /// Hides the error message.
    pub fn clear_error(&mut self)
        ensures
            *final(self) == (LoginScreen { error_message: final(self).error_message, ..*old(self) }),
            final(self).create_vault_form == old(self).create_vault_form,
            final(self).error_message is None,
            final(self).entering_password == old(self).entering_password,
            final(self).selected_vault == old(self).selected_vault,
    {
        self.error_message = None;
    }

    /// Leaves the create-vault form and blanks it.
    pub fn reset_create_form(&mut self)
        ensures
            !final(self).creating_vault,
            fresh_form(final(self).create_vault_form),
            final(self).selected_vault == old(self).selected_vault,
            final(self).entering_password == old(self).entering_password,
            final(self).entering_keyfile_path == old(self).entering_keyfile_path,
            final(self).error_message == old(self).error_message,
            final(self).pending_unlock_password == old(self).pending_unlock_password,
            final(self).password_recovery == old(self).password_recovery,
    {
        self.creating_vault = false;
        self.create_vault_form = CreateVaultFormState::new();
    }
}

/// Moving down and then up a non-empty list of vaults comes back to a
/// selection within it; so does moving up and then down.
pub proof fn lemma_selection_inverse(selected: nat, count: nat)
    requires
        selected < count,
    ensures
        selection_before(selection_after(selected, count), count) == selected,
        selection_after(selection_before(selected, count), count) == selected,
        selection_after(selected, count) < count,
        selection_before(selected, count) < count,
{
    if selected + 1 == count {
        assert((selected + 1) % count == 0) by (nonlinear_arith)
            requires
                selected + 1 == count,
                count > 0,
        ;
    } else {
        assert((selected + 1) % count == selected + 1) by (nonlinear_arith)
            requires
                selected + 1 < count,
        ;
    }
    if selected == 0 {
        assert(((count - 1) as nat + 1) % count == 0) by (nonlinear_arith)
            requires
                count > 0,
        ;
    } else {
        assert(((selected - 1) as nat + 1) % count == selected) by (nonlinear_arith)
            requires
                0 < selected < count,
        ;
    }
}

} // verus!

verus! {

/// The rows a field of the create-vault form takes: four for the cipher
/// choice, three for the others.
pub open spec fn field_height(f: CreateVaultField) -> int {
    if f == CreateVaultField::EncryptionMethod { 4 } else { 3 }
}

/// The rows all the fields take.
pub open spec fn fields_height(fs: Seq<CreateVaultField>) -> int
    decreases fs.len(),
{
    if fs.len() == 0 { 0 } else { fields_height(fs.drop_last()) + field_height(fs.last()) }
}

/// How many fields, from the `i`-th on, fit one after the other in `room`
/// rows.
pub open spec fn fitting_from(fs: Seq<CreateVaultField>, i: int, room: int) -> int
    decreases fs.len() - i,
{
    if i < 0 || i >= fs.len() || field_height(fs[i]) > room {
        0
    } else {
        1 + fitting_from(fs, i + 1, room - field_height(fs[i]))
    }
}

/// Walking back from the `k`-th field while the fields passed fit in `room`
/// rows (`used` of them taken): the index where the walk stops (0 at the
/// latest).
pub open spec fn back_stop(fs: Seq<CreateVaultField>, k: int, used: int, room: int) -> int
    decreases k,
{
    if k <= 0 || k >= fs.len() {
        0
    } else if used + field_height(fs[k]) <= room {
        back_stop(fs, k - 1, used + field_height(fs[k]), room)
    } else {
        k
    }
}

/// The scroll offset of the create-vault form drawn in `area_height` rows:
/// 0 when the whole form fits; otherwise the offset moves up to a focused
/// field above the visible ones, or down so that a focused field below them
/// shows at the bottom, and never past the last fields.
pub open spec fn scroll_after(fs: Seq<CreateVaultField>, focused: Option<int>, offset: int, area_height: int) -> int {
    let max_h = if area_height >= 2 { area_height - 2 } else { 0 };
    if fields_height(fs) + 4 <= max_h {
        0
    } else {
        let room = if max_h >= 2 { max_h - 2 } else { 0 };
        let visible = fitting_from(fs, offset, room);
        let moved = match focused {
            Some(i) => if i < offset {
                i
            } else if i >= offset + visible {
                back_stop(fs, i, 0, room) + 1
            } else {
                offset
            },
            None => offset,
        };
        let max_scroll = if fs.len() >= visible { fs.len() - visible } else { 0 };
        if moved < max_scroll { moved } else { max_scroll }
    }
}

/// The fields the create-vault form shows on its step.
pub open spec fn shown_fields(form: CreateVaultFormState) -> Seq<CreateVaultField> {
    cycle_fields(
        form.step,
        form.recovery_questions_count as nat,
        crate::app::update::navigation_says_yes(form.use_keyfile.text@),
    )
}

/// The place of the focused field among those shown, if it is shown.
pub open spec fn focused_index(fs: Seq<CreateVaultField>, f: CreateVaultField) -> Option<int> {
    if fs.contains(f) { Some(cycle_position(f)) } else { None }
}

/// The fields shown on the current step, in order.
fn shown_field_list(form: &CreateVaultFormState) -> (r: Vec<CreateVaultField>)
    ensures
        r@ == shown_fields(*form),
{
    let yes = crate::app::update::navigation_yes(form.use_keyfile.text.as_str());
    let mut v: Vec<CreateVaultField> = Vec::new();
    match form.step {
        CreateVaultStep::Step1 => {
            v.push(CreateVaultField::Name);
            v.push(CreateVaultField::EncryptionMethod);
        },
        CreateVaultStep::Step2 => {
            v.push(CreateVaultField::Password);
            v.push(CreateVaultField::ConfirmPassword);
            v.push(CreateVaultField::UseKeyfile);
            if yes {
                v.push(CreateVaultField::KeyfilePath);
            }
        },
        CreateVaultStep::Step3 => {
            let q = form.recovery_questions_count;
            v.push(CreateVaultField::RecoveryQuestionsCount);
            if q > 0 {
                v.push(CreateVaultField::RecoveryQuestion1);
                v.push(CreateVaultField::RecoveryAnswer1);
            }
            if q > 1 {
                v.push(CreateVaultField::RecoveryQuestion2);
                v.push(CreateVaultField::RecoveryAnswer2);
            }
            if q > 2 {
                v.push(CreateVaultField::RecoveryQuestion3);
                v.push(CreateVaultField::RecoveryAnswer3);
            }
        },
    }
    assert(v@ =~= shown_fields(*form));
    v
}

/// The rows a field takes.
fn height_of(f: CreateVaultField) -> (r: u16)
    ensures
        r == field_height(f),
{
    if f == CreateVaultField::EncryptionMethod { 4 } else { 3 }
}

/// The scroll offset that keeps the focused field of the create-vault form
/// in view when the form is drawn in `area_height` rows (see
/// `scroll_after`).
#[verifier::spinoff_prover]
#[verifier::rlimit(80)]
pub fn create_form_scroll(form: &CreateVaultFormState, area_height: u16) -> (r: u16)
    ensures
        r == scroll_after(
            shown_fields(*form),
            focused_index(shown_fields(*form), form.focused_field),
            form.scroll_offset as int,
            area_height as int,
        ),
{
    let fs = shown_field_list(form);
    let n = fs.len();
    assert(n <= 7 && forall|j: int| 0 <= j < fs@.len() ==> cycle_position(#[trigger] fs@[j]) == j) by {
        lemma_tab_order(form.step, form.recovery_questions_count as nat,
            crate::app::update::navigation_says_yes(form.use_keyfile.text@));
    }
    let total = height_total(&fs);
    let max_h: u16 = if area_height >= 2 { area_height - 2 } else { 0 };
    if total + 4 <= max_h {
        return 0;
    }
    let room: u16 = if max_h >= 2 { max_h - 2 } else { 0 };
    let offset = form.scroll_offset;
    let visible = fitting_count(&fs, offset as usize, room);
    let focused = position_in(&fs, form.focused_field);
    let moved: usize = match focused {
        Some(p) => if p < offset as usize {
            p
        } else if p >= offset as usize + visible {
            back_stop_index(&fs, p, room) + 1
        } else {
            offset as usize
        },
        None => offset as usize,
    };
    let max_scroll: usize = if n >= visible { n - visible } else { 0 };
    let r = if moved < max_scroll { moved } else { max_scroll };
    r as u16
}

/// The rows all the fields take.
fn height_total(fs: &Vec<CreateVaultField>) -> (r: u16)
    requires
        fs@.len() <= 7,
    ensures
        r == fields_height(fs@),
        r <= 28,
{
    let n = fs.len();
    let mut total: u16 = 0;
    let mut i: usize = 0;
    while i < n
        invariant
            n == fs@.len(),
            n <= 7,
            i <= n,
            total == fields_height(fs@.take(i as int)),
            total <= 4 * i,
        decreases n - i,
    {
        assert(fs@.take(i + 1).drop_last() =~= fs@.take(i as int));
        total = total + height_of(fs[i]);
        i = i + 1;
    }
    assert(fs@.take(n as int) =~= fs@);
    total
}

/// The place of `f` among the fields, when each field's place is its
/// `cycle_position`.
fn position_in(fs: &Vec<CreateVaultField>, f: CreateVaultField) -> (r: Option<usize>)
    requires
        forall|j: int| 0 <= j < fs@.len() ==> cycle_position(#[trigger] fs@[j]) == j,
    ensures
        r == (if fs@.contains(f) { Some(cycle_position(f) as usize) } else { None::<usize> }),
        r matches Some(p) ==> p < fs@.len(),
{
    let n = fs.len();
    let mut k: usize = 0;
    while k < n
        invariant
            n == fs@.len(),
            k <= n,
            forall|j: int| 0 <= j < fs@.len() ==> cycle_position(#[trigger] fs@[j]) == j,
            forall|j: int| 0 <= j < k ==> fs@[j] != f,
        decreases n - k,
    {
        if fs[k] == f {
            assert(fs@.contains(f));
            return Some(k);
        }
        k = k + 1;
    }
    assert(!fs@.contains(f));
    None
}

/// How many fields, from the `i`-th on, fit in `room` rows.
fn fitting_count(fs: &Vec<CreateVaultField>, i: usize, room: u16) -> (r: usize)
    requires
        fs@.len() <= 7,
    ensures
        r == fitting_from(fs@, i as int, room as int),
        r as int <= (if i <= fs@.len() { fs@.len() - i } else { 0 }),
    decreases fs@.len() - i,
{
    if i >= fs.len() || height_of(fs[i]) > room {
        0
    } else {
        1 + fitting_count(fs, i + 1, room - height_of(fs[i]))
    }
}

/// Where walking back from the `k`-th field stops (see `back_stop`).
fn back_stop_index(fs: &Vec<CreateVaultField>, k: usize, room: u16) -> (r: usize)
    requires
        k < fs@.len(),
        fs@.len() <= 7,
    ensures
        r == back_stop(fs@, k as int, 0, room as int),
        r <= k,
{
    let mut j: usize = k;
    let mut used: u16 = 0;
    while j > 0
        invariant
            j <= k < fs@.len(),
            fs@.len() <= 7,
            used <= room,
            back_stop(fs@, j as int, used as int, room as int) == back_stop(fs@, k as int, 0, room as int),
        decreases j,
    {
        let h = height_of(fs[j]);
        if used as u32 + h as u32 <= room as u32 {
            used = used + h;
            j = j - 1;
        } else {
            return j;
        }
    }
    0
}

} // verus!
