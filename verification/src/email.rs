//! Composition of the outbound notification email: a fixed subject
//! line and an HTML body interpolating the submission's fields, with
//! newlines in the message rendered as line breaks.
use vstd::prelude::*;
use vstd::string::*;

use crate::config::GatewayConfig;
use crate::submission::ContactSubmission;
use crate::text::chars_to_string;

verus! {

/// `s` with every newline replaced by the four characters `<br>`.
pub open spec fn br_escaped(s: Seq<char>) -> Seq<char>
    decreases s.len(),
{
    if s.len() == 0 {
        Seq::empty()
    } else if s.last() == '\n' {
        br_escaped(s.drop_last()) + seq!['<', 'b', 'r', '>']
    } else {
        br_escaped(s.drop_last()).push(s.last())
    }
}

/// The subject line built for a submission.
pub open spec fn email_subject(first: Seq<char>, last: Seq<char>) -> Seq<char> {
    "New Contact Form Submission from "@ + first + " "@ + last
}

/// The HTML body built for a submission: the correlation id, name,
/// email, phone and message interpolated into a fixed template.
pub open spec fn email_html_body(
    id: Seq<char>,
    first: Seq<char>,
    last: Seq<char>,
    email: Seq<char>,
    phone: Seq<char>,
    message: Seq<char>,
) -> Seq<char> {
    "<h2>New Contact Form Submission</h2><p><strong>Contact ID:</strong> "@ + id
        + "</p><p><strong>Name:</strong> "@ + first + " "@ + last
        + "</p><p><strong>Email:</strong> "@ + email + "</p><p><strong>Phone:</strong> "@ + phone
        + "</p><p><strong>Message:</strong></p><p>"@ + br_escaped(message)
        + "</p><hr><p><em>This message was sent from your website contact form.</em></p>"@
}

/// Replace every newline in `s` with `<br>`.
pub fn replace_newlines(s: &str) -> (r: String)
    ensures
        r@ == br_escaped(s@),
{
    let n: usize = s.unicode_len();
    let mut out: Vec<char> = Vec::new();
    let mut i: usize = 0;
    while i < n
        invariant
            n == s@.len(),
            0 <= i <= n,
            out@ == br_escaped(s@.subrange(0, i as int)),
        decreases n - i,
    {
        let c = s.get_char(i);
        proof {
            assert(s@.subrange(0, i as int + 1).drop_last() =~= s@.subrange(0, i as int));
        }
        if c == '\n' {
            out.push('<');
            out.push('b');
            out.push('r');
            out.push('>');
            proof {
                assert(out@ =~= br_escaped(s@.subrange(0, i as int)) + seq!['<', 'b', 'r', '>']);
            }
        } else {
            out.push(c);
        }
        i += 1;
    }
    proof {
        assert(s@.subrange(0, n as int) =~= s@);
    }
    chars_to_string(&out)
}

/// The outbound email derived from one accepted submission: sender
/// identity from the configuration, the fixed recipient display name,
/// and the composed subject and HTML body.
pub struct OutboundEmailMessage {
    pub sender_name: String,
    pub sender_email: String,
    pub recipient_email: String,
    pub recipient_name: String,
    pub subject: String,
    pub html_content: String,
}

/// Build the notification email for an accepted submission.
pub fn build_email(config: &GatewayConfig, s: &ContactSubmission, contact_id: &str) -> (m:
    OutboundEmailMessage)
    ensures
        m.sender_name == config.sender_name,
        m.sender_email == config.sender_email,
        m.recipient_email == config.recipient_email,
        m.recipient_name@ == "Contact Form"@,
        m.subject@ == email_subject(s.first_name@, s.last_name@),
        m.html_content@ == email_html_body(
            contact_id@,
            s.first_name@,
            s.last_name@,
            s.email@,
            s.phone_number@,
            s.message@,
        ),
{
    let mut subject = String::from_str("New Contact Form Submission from ");
    subject.append(s.first_name.as_str());
    subject.append(" ");
    subject.append(s.last_name.as_str());
    let mut body = String::from_str(
        "<h2>New Contact Form Submission</h2><p><strong>Contact ID:</strong> ",
    );
    body.append(contact_id);
    body.append("</p><p><strong>Name:</strong> ");
    body.append(s.first_name.as_str());
    body.append(" ");
    body.append(s.last_name.as_str());
    body.append("</p><p><strong>Email:</strong> ");
    body.append(s.email.as_str());
    body.append("</p><p><strong>Phone:</strong> ");
    body.append(s.phone_number.as_str());
    body.append("</p><p><strong>Message:</strong></p><p>");
    let escaped = replace_newlines(s.message.as_str());
    body.append(escaped.as_str());
    body.append("</p><hr><p><em>This message was sent from your website contact form.</em></p>");
    OutboundEmailMessage {
        sender_name: config.sender_name.clone(),
        sender_email: config.sender_email.clone(),
        recipient_email: config.recipient_email.clone(),
        recipient_name: String::from_str("Contact Form"),
        subject,
        html_content: body,
    }
}

} // verus!
