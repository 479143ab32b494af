//! The responses the service renders: the health check, the resume
//! download, the validation-failure report, and the contact-form
//! acknowledgment, each with its exact status code and JSON body.
use vstd::prelude::*;
use vstd::string::*;

use crate::sanitize::{sanitize_input, sanitized};
use crate::submission::{
    submission_valid, validate_submission, violations_of, ContactSubmission, FieldViolations,
};

verus! {

/// A JSON response: a status code and the body text.
pub struct JsonReply {
    pub status: u16,
    pub body: String,
}

/// The health check's answer: 200 with a fixed body, always.
pub fn health_reply() -> (r: JsonReply)
    ensures
        r.status == 200,
        r.body@ == "{\"status\":\"ok\"}"@,
{
    JsonReply { status: 200, body: String::from_str("{\"status\":\"ok\"}") }
}

/// What the caller found when it went to read the resume file.
pub enum ResumeRead {
    Missing,
    Unreadable,
    Content(Vec<u8>),
}

/// The resume endpoint's response: the file's bytes, or a JSON error.
pub enum ResumeReply {
    Pdf(Vec<u8>),
    Failure(JsonReply),
}

/// Render the resume endpoint's response: 404 when the file is
/// absent, 500 when it cannot be read, and otherwise the bytes of the
/// file, unchanged, to be served as `application/pdf`.
pub fn resume_reply(r: ResumeRead) -> (out: ResumeReply)
    ensures
        r is Missing ==> (out matches ResumeReply::Failure(j) && j.status == 404 && j.body@
            == "{\"error\":\"Resume not found\"}"@),
        r is Unreadable ==> (out matches ResumeReply::Failure(j) && j.status == 500 && j.body@
            == "{\"error\":\"Failed to read resume\"}"@),
        r matches ResumeRead::Content(b) ==> (out matches ResumeReply::Pdf(d) && d@ == b@),
{
    match r {
        ResumeRead::Missing => ResumeReply::Failure(
            JsonReply { status: 404, body: String::from_str("{\"error\":\"Resume not found\"}") },
        ),
        ResumeRead::Unreadable => ResumeReply::Failure(
            JsonReply {
                status: 500,
                body: String::from_str("{\"error\":\"Failed to read resume\"}"),
            },
        ),
        ResumeRead::Content(b) => ResumeReply::Pdf(b),
    }
}

/// The field-error entries reported for a set of violations, in the
/// fixed field order of the form.
pub open spec fn violation_entries(v: FieldViolations) -> Seq<Seq<char>> {
    (if v.email {
        seq!["\"email\":\"must be a valid email address\""@]
    } else {
        Seq::empty()
    }) + (if v.first_name {
        seq!["\"firstName\":\"length must be between 1 and 100 characters\""@]
    } else {
        Seq::empty()
    }) + (if v.last_name {
        seq!["\"lastName\":\"length must be between 1 and 100 characters\""@]
    } else {
        Seq::empty()
    }) + (if v.phone_number {
        seq!["\"phoneNumber\":\"length must be between 10 and 20 characters\""@]
    } else {
        Seq::empty()
    }) + (if v.message {
        seq!["\"message\":\"length must be between 1 and 1000 characters\""@]
    } else {
        Seq::empty()
    })
}

/// The pieces of `es` joined with commas between them.
pub open spec fn join_comma(es: Seq<Seq<char>>) -> Seq<char>
    decreases es.len(),
{
    if es.len() == 0 {
        Seq::empty()
    } else if es.len() == 1 {
        es[0]
    } else {
        es[0] + ","@ + join_comma(es.drop_first())
    }
}

/// The body of a validation-failure response: a fixed envelope around
/// one error entry per violated field.
pub open spec fn validation_failure_body(v: FieldViolations) -> Seq<char> {
    "{\"success\":false,\"message\":\"Validation failed\",\"errors\":{"@ + join_comma(
        violation_entries(v),
    ) + "}}"@
}

fn join_with_commas(entries: &Vec<String>) -> (r: String)
    ensures
        r@ == join_comma(entries.deep_view()),
{
    let ghost dv = entries.deep_view();
    let mut out = String::new();
    let mut i: usize = entries.len();
    proof {
        assert(dv.subrange(i as int, dv.len() as int) =~= Seq::<Seq<char>>::empty());
    }
    while i > 0
        invariant
            dv == entries.deep_view(),
            dv.len() == entries@.len(),
            0 <= i <= dv.len(),
            out@ == join_comma(dv.subrange(i as int, dv.len() as int)),
        decreases i,
    {
        i = i - 1;
        let mut piece = entries[i].clone();
        if i + 1 < entries.len() {
            piece.append(",");
            piece.append(out.as_str());
        }
        out = piece;
        proof {
            let suf = dv.subrange(i as int, dv.len() as int);
            assert(dv[i as int] == entries@[i as int]@);
            assert(suf[0] == dv[i as int]);
            if suf.len() > 1 {
                assert(suf.drop_first() =~= dv.subrange(i as int + 1, dv.len() as int));
            }
        }
    }
    proof {
        assert(dv.subrange(0, dv.len() as int) =~= dv);
    }
    out
}

/// Render the 400 response for a rejected submission: the fixed
/// failure envelope with one error entry per violated field.
pub fn validation_failure_reply(v: &FieldViolations) -> (r: JsonReply)
    ensures
        r.status == 400,
        r.body@ == validation_failure_body(*v),
{
    let mut entries: Vec<String> = Vec::new();
    if v.email {
        entries.push(String::from_str("\"email\":\"must be a valid email address\""));
    }
    if v.first_name {
        entries.push(
            String::from_str("\"firstName\":\"length must be between 1 and 100 characters\""),
        );
    }
    if v.last_name {
        entries.push(
            String::from_str("\"lastName\":\"length must be between 1 and 100 characters\""),
        );
    }
    if v.phone_number {
        entries.push(
            String::from_str("\"phoneNumber\":\"length must be between 10 and 20 characters\""),
        );
    }
    if v.message {
        entries.push(
            String::from_str("\"message\":\"length must be between 1 and 1000 characters\""),
        );
    }
    proof {
        assert(entries.deep_view() =~= violation_entries(*v));
    }
    let joined = join_with_commas(&entries);
    let mut body = String::from_str(
        "{\"success\":false,\"message\":\"Validation failed\",\"errors\":{",
    );
    body.append(joined.as_str());
    body.append("}}");
    JsonReply { status: 400, body }
}

/// The acknowledgment text when the notification email went out.
pub open spec fn ack_success_text() -> Seq<char> {
    "Thank you for your message. We'll get back to you soon!"@
}

/// The acknowledgment text when the notification email failed.
pub open spec fn ack_failure_text() -> Seq<char> {
    "Your message was received, but there was an issue sending the notification email. Please try again or contact us directly."@
}

/// The body of a contact acknowledgment: the success flag, the
/// human-readable message, and the submission's correlation id.
pub open spec fn contact_ack_body(success: bool, message: Seq<char>, id: Seq<char>) -> Seq<char> {
    "{\"success\":"@ + (if success {
        "true"@
    } else {
        "false"@
    }) + ",\"message\":\""@ + message + "\",\"id\":\""@ + id + "\"}"@
}

/// An acknowledgment is never silent about the submission: whatever
/// the success flag and message, its body embeds the correlation id
/// whole, at a position just after the fixed id marker.
pub proof fn lemma_ack_embeds_id(success: bool, message: Seq<char>, id: Seq<char>)
    ensures
        exists|i: int|
            0 <= i && i + id.len() <= contact_ack_body(success, message, id).len()
                && #[trigger] contact_ack_body(success, message, id).subrange(
                i,
                i + id.len() as int,
            ) == id,
{
    let body = contact_ack_body(success, message, id);
    let left = "{\"success\":"@ + (if success {
        "true"@
    } else {
        "false"@
    }) + ",\"message\":\""@ + message + "\",\"id\":\""@;
    let i = left.len() as int;
    assert(body.subrange(i, i + id.len() as int) =~= id);
}

/// Render the final answer for an accepted submission. Whatever came
/// of the email send, the client gets a definitive reply carrying the
/// correlation id: 200 on success, 500 with a downgraded message when
/// the notification could not be sent.
pub fn contact_outcome_reply(email_sent: bool, id: &str) -> (r: JsonReply)
    ensures
        r.status == (if email_sent {
            200u16
        } else {
            500u16
        }),
        r.body@ == contact_ack_body(
            email_sent,
            if email_sent {
                ack_success_text()
            } else {
                ack_failure_text()
            },
            id@,
        ),
{
    let mut body = String::from_str("{\"success\":");
    if email_sent {
        body.append("true");
        body.append(",\"message\":\"");
        body.append("Thank you for your message. We'll get back to you soon!");
    } else {
        body.append("false");
        body.append(",\"message\":\"");
        body.append(
            "Your message was received, but there was an issue sending the notification email. Please try again or contact us directly.",
        );
    }
    body.append("\",\"id\":\"");
    body.append(id);
    body.append("\"}");
    JsonReply { status: if email_sent { 200 } else { 500 }, body }
}

/// A hexadecimal digit as the id minter prints them: lower case.
pub open spec fn is_lower_hex_digit(c: char) -> bool {
    (0x30 <= (c as u32) && (c as u32) <= 0x39) || (0x61 <= (c as u32) && (c as u32) <= 0x66)
}

/// The shape of a minted correlation id: 36 characters, hexadecimal
/// digits in lower case with hyphens at the four fixed positions.
pub open spec fn uuid_like(s: Seq<char>) -> bool {
    &&& s.len() == 36
    &&& forall|i: int| 0 <= i < 36 ==> (is_lower_hex_digit(#[trigger] s[i]) || s[i] == '-')
    &&& s[8] == '-'
    &&& s[13] == '-'
    &&& s[18] == '-'
    &&& s[23] == '-'
}

/// Relies on `uuid::Uuid::new_v4` and the `Display` impl of `Uuid`:
/// a fresh random 128-bit UUID, printed in the hyphenated lower-case
/// form of 36 characters. The value is random, so nothing more than
/// its shape is stated.
#[verifier::external_body]
fn fresh_uuid_string() -> (r: String)
    ensures
        uuid_like(r@),
{
    uuid::Uuid::new_v4().to_string()
}

/// An accepted submission: the minted correlation id, and the
/// sanitized copies of the fields the service logs.
pub struct AcceptedSubmission {
    pub id: String,
    pub log_email: String,
    pub log_first_name: String,
    pub log_last_name: String,
}

/// The outcome of screening one submission.
pub enum ContactDecision {
    Rejected(JsonReply),
    Accepted(AcceptedSubmission),
}

/// Screen a submission: reject an invalid one with the exact 400
/// report and no further work; accept a valid one, minting its
/// correlation id and sanitizing the fields that get logged.
pub fn screen_submission(s: &ContactSubmission) -> (r: ContactDecision)
    ensures
        r is Accepted <==> submission_valid(*s),
        r matches ContactDecision::Rejected(j) ==> j.status == 400 && j.body@
            == validation_failure_body(violations_of(*s)),
        r matches ContactDecision::Accepted(a) ==> {
            &&& uuid_like(a.id@)
            &&& a.log_email@ == sanitized(s.email@)
            &&& a.log_first_name@ == sanitized(s.first_name@)
            &&& a.log_last_name@ == sanitized(s.last_name@)
        },
{
    match validate_submission(s) {
        Err(v) => ContactDecision::Rejected(validation_failure_reply(&v)),
        Ok(()) => {
            let id = fresh_uuid_string();
            ContactDecision::Accepted(
                AcceptedSubmission {
                    id,
                    log_email: sanitize_input(s.email.as_str()),
                    log_first_name: sanitize_input(s.first_name.as_str()),
                    log_last_name: sanitize_input(s.last_name.as_str()),
                },
            )
        },
    }
}

} // verus!
