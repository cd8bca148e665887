use zero2prod::domain::{SubscriberEmail, SubscriberName, SubscriptionStatus};
use zero2prod::form::{parse_form, FormRejection};
use zero2prod::startup::ApplicationBaseUrl;
use zero2prod::subscriptions::{
    after_mail, after_store, confirmation_link, generate_subscription_token, registration,
    subscribe_request, Subscribe, SubscribeError,
};

fn base_url() -> ApplicationBaseUrl {
    ApplicationBaseUrl("http://127.0.0.1".to_string())
}

fn between<'a>(s: &'a str, start: &str, end: &str) -> &'a str {
    let from = s.find(start).expect("start marker") + start.len();
    let to = from + s[from..].find(end).expect("end marker");
    &s[from..to]
}

#[test]
fn subscription_subscribe_returns_200_for_valid_from_data() {
    let r = registration("name=shimopino&email=shimopino%40example.com", &base_url());
    assert!(r.is_ok());
    assert!(after_store(Ok(())).is_ok());
    assert_eq!(after_mail(Ok(())).ok(), Some(201));
}

#[test]
fn subscribe_persists_the_new_subscriber() {
    let g = registration("name=shimopino&email=shimopino%40example.com", &base_url())
        .ok()
        .expect("a valid form");
    assert_eq!(g.subscriber.email.as_str(), "shimopino@example.com");
    assert_eq!(g.subscriber.name.as_str(), "shimopino");
    assert_eq!(g.status.as_str(), "pending_confirmation");
}

#[test]
fn subscription_subscribe_returns_400_when_invalid_body() {
    let test_cases = vec![
        ("name=shimopino", "Failed to deserialize form body: missing field `email`"),
        ("email=shimopino%40example.com", "Failed to deserialize form body: missing field `name`"),
        ("", "Failed to deserialize form body: missing field `name`"),
    ];
    for (invalid_body, error_message) in test_cases {
        let e = subscribe_request(invalid_body).err().expect("a rejected form");
        assert_eq!(e.status_code(), 422);
        assert_eq!(e.body(), error_message);
    }
}

#[test]
fn subscription_subscribe_returns_200_when_fields_are_present_but_empty() {
    let test_cases = vec![
        "name=&email=shimopino@example.com",
        "name=shimopino&email=",
        "name=shimopino&email=not-an-email",
    ];
    for empty_body in test_cases {
        let e = subscribe_request(empty_body).err().expect("a refused subscriber");
        assert_eq!(e.status_code(), 400);
        assert_eq!(e.body(), "");
    }
}

#[test]
fn subscribe_sends_a_confirmation_email_for_valid_data() {
    let g = registration("name=shimopino&email=shimopino%40example.com", &base_url())
        .ok()
        .expect("a valid form");
    assert_eq!(g.email.recipient.as_str(), "shimopino@example.com");
    assert_eq!(g.email.subject, "Welcome!");
}

#[test]
fn subscription_subscribe_sends_a_confirmation_email_with_a_link() {
    let g = registration("name=shimopino&email=shimopino%40example.com", &base_url())
        .ok()
        .expect("a valid form");
    let html_link = between(&g.email.html_body, "href=\"", "\"");
    let text_link = between(&g.email.text_body, "Visit ", " to confirm");
    assert_eq!(html_link, text_link);
    assert_eq!(g.email.html_body.matches("http://").count(), 1);
    assert_eq!(g.email.text_body.matches("http://").count(), 1);
    assert_eq!(
        html_link,
        format!("http://127.0.0.1/subscriptions/confirm?subscription_token={}", g.token)
    );
}

#[test]
fn registration_token_is_25_alphanumerics() {
    let g = registration("name=a&email=a%40b.com", &base_url()).ok().expect("a valid form");
    assert_eq!(g.token.len(), 25);
    assert!(g.token.chars().all(|c| c.is_ascii_alphanumeric()));
}

#[test]
fn generated_tokens_differ() {
    let a = generate_subscription_token();
    let b = generate_subscription_token();
    assert_eq!(a.len(), 25);
    assert_ne!(a, b);
}

#[test]
fn confirmation_link_embeds_the_token() {
    let link = confirmation_link(&base_url(), "abc123");
    assert_eq!(link, "http://127.0.0.1/subscriptions/confirm?subscription_token=abc123");
}

#[test]
fn form_decodes_percent_and_plus() {
    let s = Subscribe::from_form("name=le+guin&email=ursula%40example.com").ok().expect("ok");
    assert_eq!(s.name, "le guin");
    assert_eq!(s.email, "ursula@example.com");
}

#[test]
fn form_ignores_other_fields_and_empty_pieces() {
    let s = Subscribe::from_form("&x=1&email=a%40b.com&&name=n&").ok().expect("ok");
    assert_eq!(s.name, "n");
    assert_eq!(s.email, "a@b.com");
}

#[test]
fn form_rejects_duplicate_field() {
    let e = subscribe_request("name=a&name=b&email=a%40b.com").err().expect("rejected");
    assert_eq!(e.status_code(), 422);
    assert_eq!(e.body(), "Failed to deserialize form body: duplicate field `name`");
}

#[test]
fn form_rejects_invalid_utf8() {
    assert!(parse_form("name=%FF").is_none());
    match Subscribe::from_form("name=%FF&email=a%40b.com") {
        Err(FormRejection::InvalidEncoding) => {}
        _ => panic!("expected an encoding rejection"),
    }
}

#[test]
fn form_pairs_keep_order_and_values() {
    let pairs = parse_form("a=1&b&c=x%3Dy=z").expect("decodes");
    assert_eq!(pairs.len(), 3);
    assert_eq!((pairs[0].key.as_str(), pairs[0].value.as_str()), ("a", "1"));
    assert_eq!((pairs[1].key.as_str(), pairs[1].value.as_str()), ("b", ""));
    assert_eq!((pairs[2].key.as_str(), pairs[2].value.as_str()), ("c", "x=y=z"));
}

#[test]
fn name_of_256_graphemes_is_accepted() {
    assert!(SubscriberName::parse("ё".repeat(256)).is_ok());
    assert!(SubscriberName::parse("a".repeat(256)).is_ok());
}

#[test]
fn name_longer_than_256_graphemes_is_rejected() {
    let e = SubscriberName::parse("a".repeat(257)).err().expect("too long");
    assert!(e.ends_with(" is not a valid subscriber name."));
}

#[test]
fn whitespace_only_name_is_rejected() {
    assert!(SubscriberName::parse(" \t\u{3000} ".to_string()).is_err());
    assert!(SubscriberName::parse(String::new()).is_err());
}

#[test]
fn names_with_forbidden_characters_are_rejected() {
    for c in ['/', '(', ')', '"', '<', '>', '\\', '{', '}'] {
        assert!(SubscriberName::parse(format!("a{}b", c)).is_err());
    }
}

#[test]
fn invalid_emails_are_rejected() {
    for e in ["", "ursuladomain.com", "@domain.com"] {
        let msg = SubscriberEmail::parse(e.to_string()).err().expect("invalid");
        assert_eq!(msg, format!("{} is not a valid subscriber email.", e));
    }
    assert!(SubscriberEmail::parse("ursula@domain.com".to_string()).is_ok());
}

#[test]
fn store_and_mail_failures_are_server_errors() {
    let e = after_store(Err("db down".to_string())).err().expect("error");
    assert_eq!(e.status_code(), 500);
    let e = after_mail(Err("mailer down".to_string())).err().expect("error");
    assert_eq!(e.status_code(), 500);
    assert!(matches!(e, SubscribeError::Mail(_)));
}

#[test]
fn status_text() {
    assert_eq!(SubscriptionStatus::PendingConfirmation.as_str(), "pending_confirmation");
    assert_eq!(SubscriptionStatus::Confirmed.as_str(), "confirmed");
}

#[test]
fn name_length_counts_grapheme_clusters() {
    let accented = "e\u{301}";
    assert!(SubscriberName::parse(accented.repeat(256)).is_ok());
    assert!(SubscriberName::parse(accented.repeat(257)).is_err());
}
