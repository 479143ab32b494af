//! The contact-form submission and its validation rules: an email
//! well-formedness check and inclusive length bounds on the other
//! fields, counted in characters.
use vstd::prelude::*;
use vstd::string::*;

verus! {

/// One contact-form submission, as parsed from a request body.
pub struct ContactSubmission {
    pub email: String,
    pub first_name: String,
    pub last_name: String,
    pub phone_number: String,
    pub message: String,
}

/// Whether `validator`'s HTML5-style email grammar accepts a given
/// character sequence. The grammar takes pages to state, so it only
/// carries a name here; the trusted wrapper below ties the name to
/// the call that decides it.
pub uninterp spec fn email_ok(s: Seq<char>) -> bool;

/// Relies on `validator::ValidateEmail::validate_email` for `&str`:
/// an HTML5-style well-formedness check whose verdict depends on the
/// characters of the string alone.
#[verifier::external_body]
fn check_email(s: &str) -> (r: bool)
    ensures
        r == email_ok(s@),
{
    validator::ValidateEmail::validate_email(&s)
}

/// The rule on `first_name` and `last_name`: 1 to 100 characters.
pub open spec fn name_len_ok(s: Seq<char>) -> bool {
    1 <= s.len() <= 100
}

/// The rule on `phone_number`: 10 to 20 characters.
pub open spec fn phone_len_ok(s: Seq<char>) -> bool {
    10 <= s.len() <= 20
}

/// The rule on `message`: 1 to 1000 characters.
pub open spec fn message_len_ok(s: Seq<char>) -> bool {
    1 <= s.len() <= 1000
}

/// A submission is valid when every field meets its rule.
pub open spec fn submission_valid(s: ContactSubmission) -> bool {
    &&& email_ok(s.email@)
    &&& name_len_ok(s.first_name@)
    &&& name_len_ok(s.last_name@)
    &&& phone_len_ok(s.phone_number@)
    &&& message_len_ok(s.message@)
}

/// The per-field verdicts of one validation pass: a flag per field,
/// set exactly where the field violates its rule.
#[derive(Clone, Copy, Debug, PartialEq, Eq, Structural)]
pub struct FieldViolations {
    pub email: bool,
    pub first_name: bool,
    pub last_name: bool,
    pub phone_number: bool,
    pub message: bool,
}

/// The violation flags a given submission earns.
pub open spec fn violations_of(s: ContactSubmission) -> FieldViolations {
    FieldViolations {
        email: !email_ok(s.email@),
        first_name: !name_len_ok(s.first_name@),
        last_name: !name_len_ok(s.last_name@),
        phone_number: !phone_len_ok(s.phone_number@),
        message: !message_len_ok(s.message@),
    }
}

/// No flag is set.
pub open spec fn no_violations(v: FieldViolations) -> bool {
    !v.email && !v.first_name && !v.last_name && !v.phone_number && !v.message
}

/// Validate a submission: `Ok` exactly on valid submissions, and on
/// rejection the per-field flags say precisely which rules failed.
pub fn validate_submission(s: &ContactSubmission) -> (r: Result<(), FieldViolations>)
    ensures
        r is Ok <==> submission_valid(*s),
        r matches Err(v) ==> v == violations_of(*s) && !no_violations(v),
{
    let v = FieldViolations {
        email: !check_email(s.email.as_str()),
        first_name: {
            let l: usize = s.first_name.as_str().unicode_len();
            !(1 <= l && l <= 100)
        },
        last_name: {
            let l: usize = s.last_name.as_str().unicode_len();
            !(1 <= l && l <= 100)
        },
        phone_number: {
            let l: usize = s.phone_number.as_str().unicode_len();
            !(10 <= l && l <= 20)
        },
        message: {
            let l: usize = s.message.as_str().unicode_len();
            !(1 <= l && l <= 1000)
        },
    };
    if v.email || v.first_name || v.last_name || v.phone_number || v.message {
        Err(v)
    } else {
        Ok(())
    }
}

/// Boundary behaviour of the name rules: lengths exactly 1 or 100 pass
/// (given the other fields pass), lengths 0 or 101 fail outright.
pub proof fn lemma_name_boundaries(s: ContactSubmission)
    ensures
        email_ok(s.email@) && phone_len_ok(s.phone_number@) && message_len_ok(s.message@) && (
        s.first_name@.len() == 1 || s.first_name@.len() == 100) && (s.last_name@.len() == 1
            || s.last_name@.len() == 100) ==> submission_valid(s),
        s.first_name@.len() == 0 || s.first_name@.len() == 101 ==> !submission_valid(s),
        s.last_name@.len() == 0 || s.last_name@.len() == 101 ==> !submission_valid(s),
{
}

/// Boundary behaviour of the message rule: length exactly 1000 passes
/// (given the other fields pass), length 1001 fails outright.
pub proof fn lemma_message_boundaries(s: ContactSubmission)
    ensures
        email_ok(s.email@) && name_len_ok(s.first_name@) && name_len_ok(s.last_name@)
            && phone_len_ok(s.phone_number@) && s.message@.len() == 1000 ==> submission_valid(s),
        s.message@.len() == 1001 ==> !submission_valid(s),
        s.message@.len() == 0 ==> !submission_valid(s),
{
}

} // verus!
