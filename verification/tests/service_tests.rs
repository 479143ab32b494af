use contact_api::config::{resolve_config, ConfigError};
use contact_api::email::{build_email, replace_newlines};
use contact_api::respond::{
    contact_outcome_reply, health_reply, resume_reply, screen_submission, validation_failure_reply,
    ContactDecision, ResumeRead, ResumeReply,
};
use contact_api::routes::{origin_allowed, route_request, Route};
use contact_api::sanitize::sanitize_input;
use contact_api::submission::{validate_submission, ContactSubmission};
use contact_api::text::str_eq;

fn valid_submission() -> ContactSubmission {
    ContactSubmission {
        email: String::from("jane.doe@example.com"),
        first_name: String::from("Jane"),
        last_name: String::from("Doe"),
        phone_number: String::from("0123456789"),
        message: String::from("Hello there!"),
    }
}

fn submission_with(field: &str, value: String) -> ContactSubmission {
    let mut s = valid_submission();
    match field {
        "email" => s.email = value,
        "first_name" => s.first_name = value,
        "last_name" => s.last_name = value,
        "phone_number" => s.phone_number = value,
        "message" => s.message = value,
        _ => panic!("unknown field"),
    }
    s
}

#[test]
fn sanitize_removes_controls_and_trims() {
    let out = sanitize_input("\u{0}hi\u{7}\n there\u{9f} \u{1}");
    assert_eq!(out, "hi there");
}

#[test]
fn sanitize_trims_unicode_whitespace() {
    assert_eq!(sanitize_input("\u{a0}abc\u{3000}"), "abc");
    assert_eq!(sanitize_input("  spaced out  "), "spaced out");
}

#[test]
fn sanitize_of_empty_and_all_control() {
    assert_eq!(sanitize_input(""), "");
    assert_eq!(sanitize_input("\u{0}\t\r\n\u{7f}"), "");
    assert_eq!(sanitize_input(" \u{a0} "), "");
}

#[test]
fn sanitize_is_idempotent_on_samples() {
    let samples = [
        "  a\u{0}b  ",
        "plain",
        "\n\nx\n\n",
        "\u{1680}mid\u{2028}dle\u{205f}",
        "",
        " \u{9} mix \u{85} ",
    ];
    for s in samples {
        let once = sanitize_input(s);
        let twice = sanitize_input(&once);
        assert_eq!(twice, once);
        for c in once.chars() {
            assert!(!c.is_control());
            assert_ne!(c, '\0');
        }
    }
}

#[test]
fn validation_accepts_boundary_name_lengths() {
    for len in [1usize, 100] {
        let s = submission_with("first_name", "x".repeat(len));
        assert!(validate_submission(&s).is_ok());
        let s = submission_with("last_name", "y".repeat(len));
        assert!(validate_submission(&s).is_ok());
    }
}

#[test]
fn validation_rejects_out_of_range_name_lengths() {
    for len in [0usize, 101] {
        let s = submission_with("first_name", "x".repeat(len));
        let v = validate_submission(&s).unwrap_err();
        assert!(v.first_name);
        assert!(!v.email && !v.last_name && !v.phone_number && !v.message);
        let s = submission_with("last_name", "y".repeat(len));
        let v = validate_submission(&s).unwrap_err();
        assert!(v.last_name);
    }
}

#[test]
fn validation_message_boundaries() {
    let s = submission_with("message", "m".repeat(1000));
    assert!(validate_submission(&s).is_ok());
    let s = submission_with("message", "m".repeat(1001));
    let v = validate_submission(&s).unwrap_err();
    assert!(v.message);
    let s = submission_with("message", String::new());
    assert!(validate_submission(&s).unwrap_err().message);
}

#[test]
fn validation_phone_boundaries() {
    assert!(validate_submission(&submission_with("phone_number", "0".repeat(10))).is_ok());
    assert!(validate_submission(&submission_with("phone_number", "0".repeat(20))).is_ok());
    assert!(validate_submission(&submission_with("phone_number", "0".repeat(9))).unwrap_err().phone_number);
    assert!(validate_submission(&submission_with("phone_number", "0".repeat(21))).unwrap_err().phone_number);
}

#[test]
fn validation_rejects_bad_emails() {
    for bad in ["not-an-email", "", "abc@", "a @x.cz", "something@@somewhere.com"] {
        let v = validate_submission(&submission_with("email", String::from(bad))).unwrap_err();
        assert!(v.email);
    }
    for good in ["email@here.com", "weirder-email@here.and.there.com", "email@127.0.0.1"] {
        assert!(validate_submission(&submission_with("email", String::from(good))).is_ok());
    }
}

#[test]
fn validation_failure_report_body() {
    let s = submission_with("email", String::from("not-an-email"));
    let v = validate_submission(&s).unwrap_err();
    let reply = validation_failure_reply(&v);
    assert_eq!(reply.status, 400);
    assert_eq!(
        reply.body,
        "{\"success\":false,\"message\":\"Validation failed\",\"errors\":{\"email\":\"must be a valid email address\"}}"
    );
    let parsed: serde_json::Value = serde_json::from_str(&reply.body).unwrap();
    assert_eq!(parsed["success"], serde_json::Value::Bool(false));
    assert!(parsed["errors"]["email"].is_string());
}

#[test]
fn validation_failure_report_joins_fields_with_commas() {
    let mut s = submission_with("email", String::from("nope"));
    s.message = String::new();
    let v = validate_submission(&s).unwrap_err();
    let reply = validation_failure_reply(&v);
    assert_eq!(
        reply.body,
        "{\"success\":false,\"message\":\"Validation failed\",\"errors\":{\"email\":\"must be a valid email address\",\"message\":\"length must be between 1 and 1000 characters\"}}"
    );
    let parsed: serde_json::Value = serde_json::from_str(&reply.body).unwrap();
    assert_eq!(parsed["errors"].as_object().unwrap().len(), 2);
}

#[test]
fn screening_rejects_invalid_submission_with_400() {
    let s = submission_with("email", String::from("not-an-email"));
    match screen_submission(&s) {
        ContactDecision::Rejected(j) => {
            assert_eq!(j.status, 400);
            assert!(j.body.contains("\"message\":\"Validation failed\""));
        }
        ContactDecision::Accepted(_) => panic!("invalid submission was accepted"),
    }
}

#[test]
fn screening_accepts_valid_submission_with_fresh_ids() {
    let s = valid_submission();
    let first = match screen_submission(&s) {
        ContactDecision::Accepted(a) => a,
        ContactDecision::Rejected(_) => panic!("valid submission was rejected"),
    };
    assert_eq!(first.id.len(), 36);
    assert!(!first.id.is_empty());
    for (i, c) in first.id.chars().enumerate() {
        if i == 8 || i == 13 || i == 18 || i == 23 {
            assert_eq!(c, '-');
        } else {
            assert!(c.is_ascii_hexdigit() && !c.is_ascii_uppercase());
        }
    }
    let second = match screen_submission(&s) {
        ContactDecision::Accepted(a) => a,
        ContactDecision::Rejected(_) => panic!("valid submission was rejected"),
    };
    assert_ne!(first.id, second.id, "correlation ids must be unique across calls");
}

#[test]
fn screening_sanitizes_logged_fields() {
    let mut s = valid_submission();
    s.first_name = String::from(" Jane\u{0}");
    match screen_submission(&s) {
        ContactDecision::Accepted(a) => {
            assert_eq!(a.log_first_name, "Jane");
            assert_eq!(a.log_email, "jane.doe@example.com");
        }
        ContactDecision::Rejected(_) => panic!("valid submission was rejected"),
    }
}

#[test]
fn contact_ack_failure_still_carries_id() {
    let reply = contact_outcome_reply(false, "0b54ae27-8d77-4e45-9fb2-df1c20ec5fe7");
    assert_eq!(reply.status, 500);
    assert_eq!(
        reply.body,
        "{\"success\":false,\"message\":\"Your message was received, but there was an issue sending the notification email. Please try again or contact us directly.\",\"id\":\"0b54ae27-8d77-4e45-9fb2-df1c20ec5fe7\"}"
    );
    let parsed: serde_json::Value = serde_json::from_str(&reply.body).unwrap();
    assert_eq!(parsed["success"], serde_json::Value::Bool(false));
    assert_eq!(parsed["id"], serde_json::Value::String(String::from("0b54ae27-8d77-4e45-9fb2-df1c20ec5fe7")));
}

#[test]
fn contact_ack_success() {
    let reply = contact_outcome_reply(true, "0b54ae27-8d77-4e45-9fb2-df1c20ec5fe7");
    assert_eq!(reply.status, 200);
    assert_eq!(
        reply.body,
        "{\"success\":true,\"message\":\"Thank you for your message. We'll get back to you soon!\",\"id\":\"0b54ae27-8d77-4e45-9fb2-df1c20ec5fe7\"}"
    );
}

#[test]
fn resume_missing_gives_404() {
    match resume_reply(ResumeRead::Missing) {
        ResumeReply::Failure(j) => {
            assert_eq!(j.status, 404);
            assert_eq!(j.body, "{\"error\":\"Resume not found\"}");
        }
        ResumeReply::Pdf(_) => panic!("missing file must not yield bytes"),
    }
}

#[test]
fn resume_unreadable_gives_500() {
    match resume_reply(ResumeRead::Unreadable) {
        ResumeReply::Failure(j) => {
            assert_eq!(j.status, 500);
            assert_eq!(j.body, "{\"error\":\"Failed to read resume\"}");
        }
        ResumeReply::Pdf(_) => panic!("unreadable file must not yield bytes"),
    }
}

#[test]
fn resume_present_gives_identical_bytes() {
    let data = vec![0x25u8, 0x50, 0x44, 0x46, 0x2d, 0x31, 0x2e, 0x34, 0x00, 0xff];
    match resume_reply(ResumeRead::Content(data.clone())) {
        ResumeReply::Pdf(bytes) => assert_eq!(bytes, data),
        ResumeReply::Failure(_) => panic!("present file must yield bytes"),
    }
}

#[test]
fn health_is_always_ok() {
    let reply = health_reply();
    assert_eq!(reply.status, 200);
    assert_eq!(reply.body, "{\"status\":\"ok\"}");
}

#[test]
fn routing_table() {
    assert_eq!(route_request("GET", "/health"), Route::Health);
    assert_eq!(route_request("GET", "/api/resume"), Route::Resume);
    assert_eq!(route_request("POST", "/api/contact"), Route::Contact);
    assert_eq!(route_request("GET", "/api/contact"), Route::NotFound);
    assert_eq!(route_request("POST", "/health"), Route::NotFound);
    assert_eq!(route_request("DELETE", "/health"), Route::NotFound);
    assert_eq!(route_request("GET", "/"), Route::NotFound);
}

#[test]
fn origin_allow_list() {
    assert!(origin_allowed("http://localhost:3000"));
    assert!(origin_allowed("https://michaelhenry.me"));
    assert!(!origin_allowed("https://evil.example"));
    assert!(!origin_allowed("http://localhost:9999"));
    assert!(!origin_allowed(""));
}

#[test]
fn str_eq_compares_by_characters() {
    assert!(str_eq("abc", "abc"));
    assert!(!str_eq("abc", "abd"));
    assert!(!str_eq("abc", "ab"));
    assert!(str_eq("", ""));
}

#[test]
fn config_resolution_defaults_recipient_to_sender() {
    let c = resolve_config(
        Some(String::from("SECRET-REDACTED")),
        Some(String::from("sender@example.com")),
        Some(String::from("Sender Name")),
        None,
    )
    .unwrap();
    assert_eq!(c.recipient_email, "sender@example.com");
    let c = resolve_config(
        Some(String::from("SECRET-REDACTED")),
        Some(String::from("sender@example.com")),
        Some(String::from("Sender Name")),
        Some(String::from("inbox@example.com")),
    )
    .unwrap();
    assert_eq!(c.recipient_email, "inbox@example.com");
}

#[test]
fn config_resolution_reports_first_missing_value() {
    let e = resolve_config(None, None, None, None).unwrap_err();
    assert_eq!(e, ConfigError::MissingApiKey);
    assert_eq!(e.message(), "BREVO_API_KEY environment variable not set");
    let e = resolve_config(Some(String::from("k")), None, None, None).unwrap_err();
    assert_eq!(e, ConfigError::MissingSenderEmail);
    assert_eq!(e.message(), "BREVO_SENDER_EMAIL environment variable not set");
    let e = resolve_config(Some(String::from("k")), Some(String::from("s@example.com")), None, None)
        .unwrap_err();
    assert_eq!(e, ConfigError::MissingSenderName);
    assert_eq!(e.message(), "BREVO_SENDER_NAME environment variable not set");
}

#[test]
fn replace_newlines_inserts_br_tags() {
    assert_eq!(replace_newlines("a\nb\nc"), "a<br>b<br>c");
    assert_eq!(replace_newlines("no newline"), "no newline");
    assert_eq!(replace_newlines("\n"), "<br>");
    assert_eq!(replace_newlines(""), "");
}

#[test]
fn built_email_has_expected_subject_and_body() {
    let config = resolve_config(
        Some(String::from("SECRET-REDACTED")),
        Some(String::from("sender@example.com")),
        Some(String::from("Sender Name")),
        Some(String::from("inbox@example.com")),
    )
    .unwrap();
    let mut s = valid_submission();
    s.message = String::from("line one\nline two");
    let m = build_email(&config, &s, "11111111-2222-4333-8444-555555555555");
    assert_eq!(m.subject, "New Contact Form Submission from Jane Doe");
    assert_eq!(m.sender_name, "Sender Name");
    assert_eq!(m.sender_email, "sender@example.com");
    assert_eq!(m.recipient_email, "inbox@example.com");
    assert_eq!(m.recipient_name, "Contact Form");
    assert_eq!(
        m.html_content,
        "<h2>New Contact Form Submission</h2>\
         <p><strong>Contact ID:</strong> 11111111-2222-4333-8444-555555555555</p>\
         <p><strong>Name:</strong> Jane Doe</p>\
         <p><strong>Email:</strong> jane.doe@example.com</p>\
         <p><strong>Phone:</strong> 0123456789</p>\
         <p><strong>Message:</strong></p>\
         <p>line one<br>line two</p>\
         <hr><p><em>This message was sent from your website contact form.</em></p>"
    );
}
