use hmac::{Hmac, Mac};
use vstd::prelude::*;
use vstd::utf8::encode_utf8;

use crate::newsletters::AuthError;

verus! {

/// HMAC-SHA256 of `msg` under `key`, as the `hmac` and `sha2` crates compute it.
pub uninterp spec fn hmac_sha256(key: Seq<u8>, msg: Seq<u8>) -> Seq<u8>;

/// Relies on `Hmac::<sha2::Sha256>`: `new_from_slice` (which takes a key of any length),
/// `update`, then `finalize`; the tag is SHA-256 sized.
#[verifier::external_body]
fn hmac_sha256_tag(key: &[u8], msg: &[u8]) -> (r: Vec<u8>)
    ensures
        r@ == hmac_sha256(key@, msg@),
        r@.len() == 32,
{
    let mut mac = Hmac::<sha2::Sha256>::new_from_slice(key).unwrap();
    mac.update(msg);
    mac.finalize().into_bytes().to_vec()
}

/// Relies on `Hmac::<sha2::Sha256>`: `new_from_slice`, `update`, then `verify_slice`, which
/// accepts exactly the full tag, compared in constant time.
#[verifier::external_body]
fn hmac_sha256_verify(key: &[u8], msg: &[u8], tag: &[u8]) -> (r: bool)
    ensures
        r == (tag@ == hmac_sha256(key@, msg@)),
{
    let mut mac = Hmac::<sha2::Sha256>::new_from_slice(key).unwrap();
    mac.update(msg);
    mac.verify_slice(tag).is_ok()
}

pub open spec fn is_hex_digit(c: char) -> bool {
    ('0' <= c && c <= '9') || ('a' <= c && c <= 'f') || ('A' <= c && c <= 'F')
}

pub open spec fn hex_value(c: char) -> int {
    if '0' <= c && c <= '9' {
        c as int - '0' as int
    } else if 'a' <= c && c <= 'f' {
        c as int - 'a' as int + 10
    } else {
        c as int - 'A' as int + 10
    }
}

/// The bytes that a string of hex digit pairs stands for; `None` for an odd length or a
/// character that is not a hex digit.
pub open spec fn hex_decoding(s: Seq<char>) -> Option<Seq<u8>> {
    if s.len() % 2 == 0 && forall|i: int| 0 <= i < s.len() ==> is_hex_digit(#[trigger] s[i]) {
        Some(
            Seq::new(
                (s.len() / 2) as nat,
                |i: int| (16 * hex_value(s[2 * i]) + hex_value(s[2 * i + 1])) as u8,
            ),
        )
    } else {
        None
    }
}

pub open spec fn lower_hex_digit(n: int) -> char {
    if n < 10 {
        (n + '0' as int) as char
    } else {
        (n - 10 + 'a' as int) as char
    }
}

/// Two lower-case hex digits per byte.
pub open spec fn lower_hex(b: Seq<u8>) -> Seq<char>
    decreases b.len(),
{
    if b.len() == 0 {
        Seq::empty()
    } else {
        lower_hex(b.drop_last()) + seq![
            lower_hex_digit(b.last() as int / 16),
            lower_hex_digit(b.last() as int % 16),
        ]
    }
}

/// Relies on `hex::decode`: pairs of hex digits of either case, and an error for an odd length
/// or any other character.
#[verifier::external_body]
fn hex_decode(s: &str) -> (r: Option<Vec<u8>>)
    ensures
        r is Some <==> hex_decoding(s@) is Some,
        r is Some ==> r->Some_0@ == hex_decoding(s@)->Some_0,
{
    hex::decode(s).ok()
}

/// Relies on `hex::encode`: two lower-case hex digits per byte.
#[verifier::external_body]
fn hex_encode(b: &[u8]) -> (r: String)
    ensures
        r@ == lower_hex(b@),
{
    hex::encode(b)
}

/// Bytes that percent-encoding leaves as they are.
pub open spec fn is_unreserved(b: u8) -> bool {
    (48 <= b && b <= 57) || (65 <= b && b <= 90) || (97 <= b && b <= 122) || b == 45 || b == 46
        || b == 95 || b == 126
}

pub open spec fn upper_hex_digit(n: int) -> char {
    if n < 10 {
        (n + '0' as int) as char
    } else {
        (n - 10 + 'A' as int) as char
    }
}

/// Each byte that is not unreserved written as `%` and two upper-case hex digits.
pub open spec fn percent_encoding(b: Seq<u8>) -> Seq<char>
    decreases b.len(),
{
    if b.len() == 0 {
        Seq::empty()
    } else {
        let x = b.last();
        percent_encoding(b.drop_last()) + if is_unreserved(x) {
            seq![x as char]
        } else {
            seq!['%', upper_hex_digit(x as int / 16), upper_hex_digit(x as int % 16)]
        }
    }
}

/// Relies on `urlencoding::encode_binary`: every byte but ASCII letters, digits and `-._~`
/// percent-encoded with upper-case hex digits.
#[verifier::external_body]
fn url_encode(data: &[u8]) -> (r: String)
    ensures
        r@ == percent_encoding(data@),
{
    urlencoding::encode_binary(data).into_owned()
}

pub open spec fn minimal_entity(c: char) -> Seq<char> {
    if c == '"' {
        "&quot;"@
    } else if c == '&' {
        "&amp;"@
    } else if c == '\'' {
        "&#x27;"@
    } else if c == '<' {
        "&lt;"@
    } else if c == '>' {
        "&gt;"@
    } else {
        seq![c]
    }
}

/// `s` with `"`, `&`, `'`, `<` and `>` replaced by their entities.
pub open spec fn minimal_html_escape(s: Seq<char>) -> Seq<char>
    decreases s.len(),
{
    if s.len() == 0 {
        Seq::empty()
    } else {
        minimal_html_escape(s.drop_last()) + minimal_entity(s.last())
    }
}

/// Relies on `htmlescape::encode_minimal`: each of `"`, `&`, `'`, `<`, `>` replaced by its
/// entity, every other character kept.
#[verifier::external_body]
fn escape_html(s: &str) -> (r: String)
    ensures
        r@ == minimal_html_escape(s@),
{
    htmlescape::encode_minimal(s)
}

/// The key that signs the error messages passed to the login page.
pub struct HmacSecret(pub String);

/// The query string that carries `error` to the login page.
pub open spec fn error_query(error: Seq<char>) -> Seq<char> {
    "error="@ + percent_encoding(encode_utf8(error))
}

fn error_query_string(error: &str) -> (r: String)
    ensures
        r@ == error_query(error@),
{
    let encoded = url_encode(error.as_bytes());
    String::from_str("error=").concat(encoded.as_str())
}

/// Why the query of the login page was not accepted.
#[derive(Clone, Copy, Debug, PartialEq, Eq, Structural)]
pub enum QueryError {
    /// The tag is not hex.
    InvalidTag,
    /// The tag does not sign the error message.
    BadSignature,
}

/// The query of the login page: an error message and the tag that signs it.
pub struct QueryParams {
    pub error: Option<String>,
    pub tag: Option<String>,
}

/// What the login page accepts of its query: the signed error message, empty where there is
/// none to show.
pub open spec fn verified_error(
    error: Option<Seq<char>>,
    tag: Option<Seq<char>>,
    secret: Seq<char>,
) -> Result<Seq<char>, QueryError> {
    match tag {
        None => Ok(Seq::empty()),
        Some(t) => match hex_decoding(t) {
            None => Err(QueryError::InvalidTag),
            Some(tb) => match error {
                None => Ok(Seq::empty()),
                Some(e) => if tb == hmac_sha256(
                    encode_utf8(secret),
                    encode_utf8(error_query(e)),
                ) {
                    Ok(e)
                } else {
                    Err(QueryError::BadSignature)
                },
            },
        },
    }
}

pub open spec fn opt_view(o: Option<String>) -> Option<Seq<char>> {
    match o {
        Some(s) => Some(s@),
        None => None,
    }
}

impl QueryParams {
    /// The error message, where its tag signs it under `secret`.
    pub fn verify(self, secret: &HmacSecret) -> (r: Result<String, QueryError>)
        ensures
            verified_error(opt_view(self.error), opt_view(self.tag), secret.0@) matches Ok(e) ==> (
            r matches Ok(m) && m@ == e),
            verified_error(opt_view(self.error), opt_view(self.tag), secret.0@) matches Err(e)
                ==> r == Err::<String, QueryError>(e),
    {
        let tag = match self.tag {
            None => {
                return Ok(String::new());
            },
            Some(t) => match hex_decode(t.as_str()) {
                None => {
                    return Err(QueryError::InvalidTag);
                },
                Some(b) => b,
            },
        };
        let error = match self.error {
            None => {
                return Ok(String::new());
            },
            Some(e) => e,
        };
        let query_string = error_query_string(error.as_str());
        if hmac_sha256_verify(secret.0.as_str().as_bytes(), query_string.as_str().as_bytes(), tag.as_slice()) {
            Ok(error)
        } else {
            Err(QueryError::BadSignature)
        }
    }
}

pub open spec fn login_page_head() -> Seq<char> {
    "<!DOCTYPE html>\n<html lang=\"en\">\n<head>\n    <meta http-equiv=\"content-type\" content=\"text/html; charset=utf-8\">\n    <title>Login</title>\n</head>\n<body>\n    "@
}

pub open spec fn login_page_tail() -> Seq<char> {
    "\n    <form action=\"/login\" method=\"post\">\n        <label>Username\n            <input type=\"text\" placeholder=\"Enter Username\" name=\"username\">\n        </label>\n        <label>Password\n            <input type=\"password\" placeholder=\"Enter Password\" name=\"password\">\n        </label>\n        <button type=\"submit\">Login</button>\n    </form>\n</body>\n</html>"@
}

/// The notice shown above the form: the escaped message where the query verified, nothing
/// where it did not.
pub open spec fn error_notice(v: Result<Seq<char>, QueryError>) -> Seq<char> {
    match v {
        Ok(e) => "<p><i>"@ + minimal_html_escape(e) + "</i></p>"@,
        Err(_) => Seq::empty(),
    }
}

/// The login page, showing the error message of the query where its tag verifies.
pub fn login_form(query: QueryParams, secret: &HmacSecret) -> (r: String)
    ensures
        r@ == login_page_head() + error_notice(
            verified_error(opt_view(query.error), opt_view(query.tag), secret.0@),
        ) + login_page_tail(),
{
    let notice = match query.verify(secret) {
        Ok(error) => {
            let escaped = escape_html(error.as_str());
            String::from_str("<p><i>").concat(escaped.as_str()).concat("</i></p>")
        },
        Err(_) => String::new(),
    };
    String::from_str(
        "<!DOCTYPE html>\n<html lang=\"en\">\n<head>\n    <meta http-equiv=\"content-type\" content=\"text/html; charset=utf-8\">\n    <title>Login</title>\n</head>\n<body>\n    ",
    ).concat(notice.as_str()).concat(
        "\n    <form action=\"/login\" method=\"post\">\n        <label>Username\n            <input type=\"text\" placeholder=\"Enter Username\" name=\"username\">\n        </label>\n        <label>Password\n            <input type=\"password\" placeholder=\"Enter Password\" name=\"password\">\n        </label>\n        <button type=\"submit\">Login</button>\n    </form>\n</body>\n</html>",
    )
}

/// The fields of the login form.
pub struct FormData {
    pub username: String,
    pub password: String,
}

/// Why a login failed.
pub enum LoginError {
    AuthError(String),
    UnexpectedError(String),
}

impl LoginError {
    /// Wrong credentials are an authentication failure; a failed check is unexpected.
    pub fn from_auth_error(e: AuthError) -> (r: LoginError)
        ensures
            e matches AuthError::InvalidCredentials(m) ==> r == LoginError::AuthError(m),
            e matches AuthError::UnexpectedError(m) ==> r == LoginError::UnexpectedError(m),
    {
        match e {
            AuthError::InvalidCredentials(m) => LoginError::AuthError(m),
            AuthError::UnexpectedError(m) => LoginError::UnexpectedError(m),
        }
    }

    pub open spec fn summary_spec(&self) -> Seq<char> {
        match self {
            LoginError::AuthError(_) => "Authentication failed"@,
            LoginError::UnexpectedError(_) => "Something went wrong"@,
        }
    }

    /// The message shown on the login page.
    pub fn summary(&self) -> (r: &'static str)
        ensures
            r@ == self.summary_spec(),
    {
        match self {
            LoginError::AuthError(_) => "Authentication failed",
            LoginError::UnexpectedError(_) => "Something went wrong",
        }
    }
}

/// Where a failed login is sent back to: the login page, with the error message and its tag.
pub open spec fn failure_location(summary: Seq<char>, secret: Seq<char>) -> Seq<char> {
    "/login?"@ + error_query(summary) + "&tag="@ + lower_hex(
        hmac_sha256(encode_utf8(secret), encode_utf8(error_query(summary))),
    )
}

/// The `Location` of the redirect after a failed login.
pub fn login_failure_location(e: &LoginError, secret: &HmacSecret) -> (r: String)
    ensures
        r@ == failure_location(e.summary_spec(), secret.0@),
{
    let query_string = error_query_string(e.summary());
    let tag = hmac_sha256_tag(secret.0.as_str().as_bytes(), query_string.as_str().as_bytes());
    let hex_tag = hex_encode(tag.as_slice());
    String::from_str("/login?").concat(query_string.as_str()).concat("&tag=").concat(
        hex_tag.as_str(),
    )
}


proof fn lemma_lower_hex_shape(b: Seq<u8>)
    ensures
        lower_hex(b).len() == 2 * b.len(),
        forall|i: int|
            0 <= i < b.len() ==> lower_hex(b)[2 * i] == lower_hex_digit(#[trigger] b[i] as int / 16)
                && lower_hex(b)[2 * i + 1] == lower_hex_digit(b[i] as int % 16),
    decreases b.len(),
{
    if b.len() > 0 {
        let p = b.drop_last();
        lemma_lower_hex_shape(p);
        assert forall|i: int| 0 <= i < b.len() implies lower_hex(b)[2 * i] == lower_hex_digit(
            #[trigger] b[i] as int / 16,
        ) && lower_hex(b)[2 * i + 1] == lower_hex_digit(b[i] as int % 16) by {
            if i < p.len() {
                assert(b[i] == p[i]);
            }
        }
    }
}

proof fn lemma_lower_hex_digit_value(n: int)
    requires
        0 <= n < 16,
    ensures
        is_hex_digit(lower_hex_digit(n)),
        hex_value(lower_hex_digit(n)) == n,
{
}

/// Hex decoding undoes lower-case hex encoding.
pub proof fn lemma_hex_round_trip(b: Seq<u8>)
    ensures
        hex_decoding(lower_hex(b)) == Some(b),
{
    let h = lower_hex(b);
    lemma_lower_hex_shape(b);
    assert forall|i: int| 0 <= i < h.len() implies is_hex_digit(#[trigger] h[i]) by {
        let j = i / 2;
        lemma_lower_hex_digit_value(b[j] as int / 16);
        lemma_lower_hex_digit_value(b[j] as int % 16);
        if i % 2 == 0 {
            assert(i == 2 * j);
        } else {
            assert(i == 2 * j + 1);
        }
    }
    let d = Seq::new(
        (h.len() / 2) as nat,
        |i: int| (16 * hex_value(h[2 * i]) + hex_value(h[2 * i + 1])) as u8,
    );
    assert forall|i: int| 0 <= i < b.len() implies d[i] == b[i] by {
        lemma_lower_hex_digit_value(b[i] as int / 16);
        lemma_lower_hex_digit_value(b[i] as int % 16);
    }
    assert(d =~= b);
}

/// The tag that the redirect after a failed login carries signs its message: the login page
/// shows that message.
pub proof fn lemma_failure_tag_verifies(summary: Seq<char>, secret: Seq<char>)
    ensures
        verified_error(
            Some(summary),
            Some(lower_hex(hmac_sha256(encode_utf8(secret), encode_utf8(error_query(summary))))),
            secret,
        ) == Ok::<Seq<char>, QueryError>(summary),
{
    lemma_hex_round_trip(hmac_sha256(encode_utf8(secret), encode_utf8(error_query(summary))));
}

} // verus!
