use fake::faker::internet::en::SafeEmail;
use fake::Fake;
use mailtrap::types::email::{Attachment, Body, Disposition, EmailAddress, ValidEmail, ValidMime};

#[test]
fn valid_emails_are_parsed_successfully() {
    let email: String = SafeEmail().fake();
    assert!(ValidEmail::parse(email).is_ok());
}

#[test]
fn invalid_emails_are_rejected() {
    for s in ["", "noatsymbol.com", "@domain.com", "bad@@example.com"] {
        assert!(ValidEmail::parse(s.to_string()).is_err(), "case {s}");
    }
}

#[test]
fn email_address_new_accepts_optional_name() {
    let e = EmailAddress::new("john@example.com".into(), None).unwrap();
    assert!(e.name.is_none());
}

#[test]
fn invalid_email_error_message_names_the_input() {
    let err = ValidEmail::parse("not-an-email".to_string()).unwrap_err();
    assert_eq!(err, "not-an-email is not a valid email.");
    let err = EmailAddress::new("a@b@c".to_string(), Some("X".to_string())).unwrap_err();
    assert_eq!(err, "a@b@c is not a valid email.");
}

#[test]
fn valid_email_keeps_its_text() {
    let e = ValidEmail::parse("jane.doe+tag@mail.example.org".to_string()).unwrap();
    assert_eq!(e.as_ref(), "jane.doe+tag@mail.example.org");
    assert_eq!(e.to_string(), "jane.doe+tag@mail.example.org");
    let a = EmailAddress::new("sales@example.com".into(), Some("Sales".into())).unwrap();
    assert_eq!(a.email.as_ref(), "sales@example.com");
    assert_eq!(a.name.as_deref(), Some("Sales"));
}

#[test]
fn email_local_part_length_limit() {
    let ok = format!("{}@example.com", "a".repeat(64));
    assert!(ValidEmail::parse(ok).is_ok());
    let too_long = format!("{}@example.com", "a".repeat(65));
    assert!(ValidEmail::parse(too_long).is_err());
}

#[test]
fn mime_types_are_parsed_and_rendered() {
    let m = ValidMime::parse("text/html".to_string()).unwrap();
    assert_eq!(m.as_ref(), "text/html");
    let m = ValidMime::parse("Text/HTML".to_string()).unwrap();
    assert_eq!(m.to_string(), "text/html");
    let m: ValidMime = "application/json".parse().unwrap();
    assert_eq!(m.as_ref(), "application/json");
}

#[test]
fn invalid_mime_types_are_rejected() {
    let err = ValidMime::parse("texthtml".to_string()).unwrap_err();
    assert_eq!(err, "texthtml is not a valid Mime Type.");
    assert!(ValidMime::parse("".to_string()).is_err());
    assert_eq!(ValidMime::from_str("/html"), Err(()));
}

#[test]
fn attachment_new_keeps_its_parts() {
    let a = Attachment::new(
        "ZmlsZQ==".into(),
        ValidMime::from_str("text/html").unwrap(),
        "index.html".into(),
        Some(Disposition::Attachment),
        None,
    );
    assert_eq!(a.content, "ZmlsZQ==");
    assert_eq!(a.content_type.as_ref(), "text/html");
    assert_eq!(a.filename, "index.html");
    assert_eq!(a.disposition, Some(Disposition::Attachment));
    assert!(a.content_id.is_none());
}

#[test]
fn bodies_compare_by_content() {
    let a = Body::TextAndHtml { text: "T".into(), html: "<b>H</b>".into() };
    assert_eq!(a.clone(), a);
    assert_ne!(a, Body::Text { text: "T".into() });
}

#[test]
fn check_outcome_on_given_answers() {
    let r = ValidEmail::from_check("x@example.com".to_string(), true).unwrap();
    assert_eq!(r.as_ref(), "x@example.com");
    let err = ValidEmail::from_check("whatever".to_string(), false).unwrap_err();
    assert_eq!(err, "whatever is not a valid email.");
}

#[test]
fn parse_outcome_on_given_results() {
    let m = ValidMime::from_parsed("Text/Plain".to_string(), Some("text/plain".to_string())).unwrap();
    assert_eq!(m.as_ref(), "text/plain");
    let err = ValidMime::from_parsed("nope".to_string(), None).unwrap_err();
    assert_eq!(err, "nope is not a valid Mime Type.");
}

#[test]
fn try_from_matches_parse() {
    let e = ValidEmail::try_from("x@example.com".to_string()).unwrap();
    assert_eq!(e.as_ref(), "x@example.com");
    assert_eq!(
        ValidEmail::try_from("nope".to_string()).unwrap_err(),
        "nope is not a valid email."
    );
    let m = ValidMime::try_from("Text/HTML".to_string()).unwrap();
    assert_eq!(m.as_ref(), "text/html");
    assert_eq!(
        ValidMime::try_from("nope".to_string()).unwrap_err(),
        "nope is not a valid Mime Type."
    );
}
