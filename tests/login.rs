use hmac::{Hmac, Mac};
use zero2prod::login::{login_failure_location, login_form, HmacSecret, LoginError, QueryError, QueryParams};
use zero2prod::newsletters::AuthError;

fn secret() -> HmacSecret {
    HmacSecret("long-and-very-secret-random-key".to_string())
}

fn expected_tag(query: &str) -> String {
    let mut mac = Hmac::<sha2::Sha256>::new_from_slice(secret().0.as_bytes()).unwrap();
    mac.update(query.as_bytes());
    hex::encode(mac.finalize().into_bytes())
}

fn split_location(location: &str) -> (String, String) {
    let query = location.strip_prefix("/login?").expect("login page");
    let (error, tag) = query.split_once("&tag=").expect("tag");
    let error = error.strip_prefix("error=").expect("error");
    (urlencoding::decode(error).unwrap().into_owned(), tag.to_string())
}

#[test]
fn failed_login_redirects_with_signed_error() {
    let e = LoginError::from_auth_error(AuthError::InvalidCredentials("x".to_string()));
    let location = login_failure_location(&e, &secret());
    let query = "error=Authentication%20failed";
    assert_eq!(location, format!("/login?{}&tag={}", query, expected_tag(query)));
    assert_eq!(location.len(), "/login?".len() + query.len() + "&tag=".len() + 64);
}

#[test]
fn unexpected_login_error_has_its_own_message() {
    let e = LoginError::from_auth_error(AuthError::UnexpectedError("db".to_string()));
    assert_eq!(e.summary(), "Something went wrong");
    let location = login_failure_location(&e, &secret());
    assert!(location.starts_with("/login?error=Something%20went%20wrong&tag="));
}

#[test]
fn redirect_tag_verifies_on_login_page() {
    let e = LoginError::from_auth_error(AuthError::InvalidCredentials("x".to_string()));
    let (error, tag) = split_location(&login_failure_location(&e, &secret()));
    let q = QueryParams { error: Some(error), tag: Some(tag.to_uppercase()) };
    assert_eq!(q.verify(&secret()).ok(), Some("Authentication failed".to_string()));
}

#[test]
fn tampered_or_malformed_tags_are_refused() {
    let e = LoginError::from_auth_error(AuthError::InvalidCredentials("x".to_string()));
    let (_, tag) = split_location(&login_failure_location(&e, &secret()));
    let q = QueryParams { error: Some("Something else".to_string()), tag: Some(tag.clone()) };
    assert_eq!(q.verify(&secret()).err(), Some(QueryError::BadSignature));
    let q = QueryParams { error: Some("Authentication failed".to_string()), tag: Some("zz".to_string()) };
    assert_eq!(q.verify(&secret()).err(), Some(QueryError::InvalidTag));
    let q = QueryParams { error: Some("Authentication failed".to_string()), tag: Some("abc".to_string()) };
    assert_eq!(q.verify(&secret()).err(), Some(QueryError::InvalidTag));
    let other = HmacSecret("another key".to_string());
    let q = QueryParams { error: Some("Authentication failed".to_string()), tag: Some(tag) };
    assert_eq!(q.verify(&other).err(), Some(QueryError::BadSignature));
}

#[test]
fn query_without_tag_or_error_shows_nothing() {
    let q = QueryParams { error: Some("x".to_string()), tag: None };
    assert_eq!(q.verify(&secret()).ok(), Some(String::new()));
    let q = QueryParams { error: None, tag: Some("00".to_string()) };
    assert_eq!(q.verify(&secret()).ok(), Some(String::new()));
}

#[test]
fn login_page_shows_escaped_signed_error() {
    let error = "<script>alert('x') & \"y\"</script>";
    let query = format!("error={}", urlencoding::encode(error));
    let q = QueryParams { error: Some(error.to_string()), tag: Some(expected_tag(&query)) };
    let page = login_form(q, &secret());
    assert!(page.contains(
        "<p><i>&lt;script&gt;alert(&#x27;x&#x27;) &amp; &quot;y&quot;&lt;/script&gt;</i></p>"
    ));
    assert!(page.starts_with("<!DOCTYPE html>"));
    assert!(page.contains("<form action=\"/login\" method=\"post\">"));
}

#[test]
fn login_page_hides_unsigned_error() {
    let q = QueryParams { error: Some("forged".to_string()), tag: Some("00".to_string()) };
    let page = login_form(q, &secret());
    assert!(!page.contains("forged"));
    assert!(!page.contains("<p><i>"));
}

#[test]
fn error_with_non_ascii_is_percent_encoded_as_utf8() {
    let error = "é ok";
    let query = "error=%C3%A9%20ok";
    let q = QueryParams { error: Some(error.to_string()), tag: Some(expected_tag(query)) };
    assert_eq!(q.verify(&secret()).ok(), Some(error.to_string()));
}
