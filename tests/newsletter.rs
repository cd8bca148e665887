use base64::Engine;
use zero2prod::domain::SubscriberEmail;
use zero2prod::newsletters::{
    basic_authentication, confirmed_recipients, credentials_from_decoded, credentials_from_text,
    delivery_failure, newsletter_deliveries, publish_credentials, AuthError, BasicAuthError,
    BodyData, Content, Delivery, PublishError,
};

fn issue() -> BodyData {
    BodyData {
        title: "Newsletter title".to_string(),
        content: Content {
            text: "Newsletter body as plain text".to_string(),
            html: "<p>Newsletter body as HTML</p>".to_string(),
        },
    }
}

fn basic(user_pass: &str) -> Option<Vec<u8>> {
    let encoded = base64::engine::general_purpose::STANDARD.encode(user_pass);
    Some(format!("Basic {}", encoded).into_bytes())
}

#[test]
fn newsletters_are_not_delivered_to_unconfirmed_subscribers() {
    let recipients = confirmed_recipients(vec![]);
    let plan = newsletter_deliveries(&issue(), &recipients);
    assert_eq!(plan.len(), 0);
}

#[test]
fn newsletters_are_delivered_to_confirmed_subscribers() {
    let recipients = confirmed_recipients(vec!["shimopino@example.com".to_string()]);
    let plan = newsletter_deliveries(&issue(), &recipients);
    assert_eq!(plan.len(), 1);
    match &plan[0] {
        Delivery::Send(m) => {
            assert_eq!(m.recipient.as_str(), "shimopino@example.com");
            assert_eq!(m.subject, "Newsletter title");
            assert_eq!(m.html_body, "<p>Newsletter body as HTML</p>");
            assert_eq!(m.text_body, "Newsletter body as plain text");
        }
        Delivery::Skip(_) => panic!("expected a send"),
    }
}

#[test]
fn invalid_stored_addresses_are_skipped() {
    let recipients = confirmed_recipients(vec![
        "a@example.com".to_string(),
        "not-an-email".to_string(),
        "b@example.com".to_string(),
    ]);
    let plan = newsletter_deliveries(&issue(), &recipients);
    assert_eq!(plan.len(), 3);
    assert!(matches!(plan[0], Delivery::Send(_)));
    match &plan[1] {
        Delivery::Skip(w) => assert_eq!(w, "not-an-email is not a valid subscriber email."),
        Delivery::Send(_) => panic!("expected a skip"),
    }
    assert!(matches!(plan[2], Delivery::Send(_)));
}

#[test]
fn requests_missing_authorization_are_rejected() {
    let e = publish_credentials(None).err().expect("unauthorised");
    assert_eq!(e.status_code(), 401);
    assert_eq!(e.www_authenticate(), Some("Basic realm=\"publish\""));
}

#[test]
fn non_existing_user_is_rejected() {
    let c = publish_credentials(basic("ghost:secret")).ok().expect("well-formed credentials");
    assert_eq!(c.username, "ghost");
    let e = PublishError::from_auth_error(AuthError::InvalidCredentials("Unknown username.".to_string()));
    assert_eq!(e.status_code(), 401);
    assert_eq!(e.www_authenticate(), Some("Basic realm=\"publish\""));
}

#[test]
fn invalid_password_is_rejected() {
    let c = publish_credentials(basic("shimopino:wrong")).ok().expect("well-formed credentials");
    assert_eq!(c.password, "wrong");
    let e = PublishError::from_auth_error(AuthError::InvalidCredentials("Invalid password.".to_string()));
    assert_eq!(e.status_code(), 401);
    assert_eq!(e.www_authenticate(), Some("Basic realm=\"publish\""));
    assert_eq!(e.description(), "Authentication failed: Invalid password.");
}

#[test]
fn failed_credential_check_is_unexpected() {
    let e = PublishError::from_auth_error(AuthError::UnexpectedError("db".to_string()));
    assert_eq!(e.status_code(), 500);
    assert_eq!(e.www_authenticate(), None);
}

#[test]
fn basic_credentials_are_decoded() {
    let c = basic_authentication(basic("user:pa:ss")).ok().expect("ok");
    assert_eq!(c.username, "user");
    assert_eq!(c.password, "pa:ss");
    let c = basic_authentication(basic(":")).ok().expect("ok");
    assert_eq!(c.username, "");
    assert_eq!(c.password, "");
}

#[test]
fn malformed_authorization_headers_are_refused() {
    assert_eq!(basic_authentication(None).err(), Some(BasicAuthError::MissingHeader));
    assert_eq!(
        basic_authentication(Some(b"Bearer abc".to_vec())).err(),
        Some(BasicAuthError::NotBasicScheme)
    );
    assert_eq!(
        basic_authentication(Some(b"Basic !!!".to_vec())).err(),
        Some(BasicAuthError::NotBase64)
    );
    assert_eq!(
        basic_authentication(Some(vec![66, 97, 115, 105, 99, 32, 200])).err(),
        Some(BasicAuthError::NotVisibleAscii)
    );
    assert_eq!(basic_authentication(basic("nopassword")).err(), Some(BasicAuthError::MissingPassword));
    assert_eq!(
        basic_authentication(Some(b"Basic /w==".to_vec())).err(),
        Some(BasicAuthError::NotUtf8)
    );
    let e = publish_credentials(Some(b"Basic".to_vec())).err().expect("refused");
    assert_eq!(e.description(), "Authentication failed: The authorization scheme was not 'Basic'");
}

#[test]
fn credentials_split_at_the_first_colon() {
    let c = credentials_from_text("a:b:c").ok().expect("ok");
    assert_eq!((c.username.as_str(), c.password.as_str()), ("a", "b:c"));
    assert_eq!(credentials_from_decoded(vec![0xff, b':']).err(), Some(BasicAuthError::NotUtf8));
    let c = credentials_from_decoded("ü:ß".as_bytes().to_vec()).ok().expect("ok");
    assert_eq!((c.username.as_str(), c.password.as_str()), ("ü", "ß"));
}

#[test]
fn delivery_failure_names_the_recipient() {
    let to = SubscriberEmail::parse("a@b.com".to_string()).ok().expect("valid");
    let e = delivery_failure(&to, "500 from mailer");
    assert_eq!(e.status_code(), 500);
    assert_eq!(e.description(), "Failed to send newsletter issue to a@b.com: 500 from mailer");
}
