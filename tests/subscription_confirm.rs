use zero2prod::domain::SubscriptionStatus;
use zero2prod::startup::ApplicationBaseUrl;
use zero2prod::subscriptions::{confirmation_link, registration};
use zero2prod::subscriptions_confirm::{
    confirmation_response, query_rejection_body, query_rejection_status, subscriber_to_confirm,
    ConfirmationError, Parameters,
};

#[test]
fn confrmations_without_token_are_rejected_with_a_400() {
    let e = Parameters::from_query("").err().expect("missing token");
    assert_eq!(query_rejection_status(&e), 400);
    assert_eq!(
        query_rejection_body(&e),
        "Failed to deserialize query string: missing field `subscription_token`"
    );
}

#[test]
fn the_link_returned_by_subscribe_returns_a_200_if_called() {
    let base = ApplicationBaseUrl("http://127.0.0.1".to_string());
    let g = registration("name=shimopino&email=shimopino%40example.com", &base)
        .ok()
        .expect("a valid form");
    let link = confirmation_link(&base, &g.token);
    let query = link.split_once('?').expect("a query").1;
    let p = Parameters::from_query(query).ok().expect("a token");
    assert_eq!(p.subscription_token, g.token);
    let id = subscriber_to_confirm(Ok(Some(7))).ok().expect("known token");
    assert_eq!(id, 7);
    assert_eq!(confirmation_response(Ok(())).ok(), Some(200));
}

#[test]
fn clicking_on_the_confirmation_link_confirms_a_subscriber() {
    let p = Parameters::from_query("subscription_token=mytoken").ok().expect("a token");
    assert_eq!(p.subscription_token, "mytoken");
    let s = SubscriptionStatus::PendingConfirmation.confirm();
    assert_eq!(s.as_str(), "confirmed");
    assert_eq!(s.confirm(), SubscriptionStatus::Confirmed);
}

#[test]
fn unknown_token_is_unauthorized() {
    let e = subscriber_to_confirm(Ok(None)).err().expect("unknown");
    assert_eq!(e.status_code(), 401);
    assert_eq!(e.public_message(), "Invalid Token");
    assert_eq!(
        e.description(),
        "There is no subscriber associated with the provided token."
    );
}

#[test]
fn failed_lookup_is_unexpected() {
    let e = subscriber_to_confirm(Err("timeout".to_string())).err().expect("error");
    assert_eq!(e.status_code(), 500);
    assert_eq!(e.public_message(), "Unexpected Error");
    assert!(matches!(e, ConfirmationError::UnexpectedError(_)));
    let e = confirmation_response(Err("timeout".to_string())).err().expect("error");
    assert_eq!(e.status_code(), 500);
}

#[test]
fn duplicate_token_parameter_is_rejected() {
    assert!(Parameters::from_query("subscription_token=a&subscription_token=b").is_err());
}

#[test]
fn subscription_confirm_subscribe_sends_a_confirmation_email_with_a_link() {
    let base = ApplicationBaseUrl("http://127.0.0.1".to_string());
    let g = registration("name=shimopino&email=shimopino%40example.com", &base)
        .ok()
        .expect("a valid form");
    let link = confirmation_link(&base, &g.token);
    assert!(g.email.html_body.contains(link.as_str()));
    assert!(g.email.text_body.contains(link.as_str()));
}
