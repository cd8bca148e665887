use zero2prod::email::email_endpoint;

#[test]
fn email_endpoint_appends_path() {
    assert_eq!(email_endpoint("http://localhost:8080"), "http://localhost:8080/email");
}
