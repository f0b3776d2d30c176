use mailtrap::MailtrapClient;
use std::time::Duration;

#[test]
fn new_client() {
    assert!(
        MailtrapClient::new(
            "https://www.google.com",
            "api token".to_string(),
            Duration::from_secs(10),
        )
        .is_ok()
    );
}

#[test]
fn new_client_parse_error() {
    assert!(
        MailtrapClient::new(
            "google.com",
            "api token".to_string(),
            Duration::from_secs(10),
        )
        .is_err()
    );
}

#[test]
fn parse_error_message_is_prefixed() {
    let err = MailtrapClient::new("google.com", "t".to_string(), Duration::from_secs(1))
        .err()
        .unwrap();
    assert_eq!(err, "Could not parse URL. relative URL without a base");
}

#[test]
fn send_address_and_headers() {
    let c = MailtrapClient::new("https://send.api.mailtrap.io", "123".to_string(), Duration::from_secs(30))
        .ok()
        .unwrap();
    assert_eq!(c.base_url(), "https://send.api.mailtrap.io/");
    assert_eq!(c.send_address(), "https://send.api.mailtrap.io/api/send");
    assert_eq!(c.api_token(), "123");
    assert_eq!(c.timeout(), Duration::from_secs(30));
    let h = c.request_headers();
    assert_eq!(
        h,
        vec![
            ("Api-Token".to_string(), "123".to_string()),
            ("Content-Type".to_string(), "application/json".to_string()),
            ("Accept".to_string(), "application/json".to_string()),
        ]
    );
    let d = c.clone();
    assert_eq!(d.send_address(), c.send_address());
}

#[test]
fn client_from_given_url_outcome() {
    let c = MailtrapClient::from_parsed_url(
        Ok("https://example.com/".to_string()),
        "tok".to_string(),
        Duration::from_secs(5),
    )
    .ok()
    .unwrap();
    assert_eq!(c.base_url(), "https://example.com/");
    assert_eq!(c.send_address(), "https://example.com/api/send");
    let err = MailtrapClient::from_parsed_url(
        Err("empty host".to_string()),
        "tok".to_string(),
        Duration::from_secs(5),
    )
    .err()
    .unwrap();
    assert_eq!(err, "Could not parse URL. empty host");
}
