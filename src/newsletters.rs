use base64::Engine;
use vstd::prelude::*;
use vstd::utf8::{decode_utf8, valid_utf8};

use crate::domain::{is_valid_email, SubscriberEmail};
use crate::email::OutgoingEmail;
use crate::text::{chars_of, find_char, first_index};

verus! {

/// What `base64::engine::general_purpose::STANDARD` decodes `s` to, or `None` where it
/// refuses `s`.
pub uninterp spec fn base64_decoded(s: Seq<u8>) -> Option<Seq<u8>>;

/// Relies on `base64::Engine::decode` of the standard engine (the standard alphabet, padding
/// required).
#[verifier::external_body]
fn base64_decode(s: &Vec<u8>) -> (r: Option<Vec<u8>>)
    ensures
        r is None <==> base64_decoded(s@) is None,
        r is Some ==> base64_decoded(s@) == Some(r->Some_0@),
{
    base64::engine::general_purpose::STANDARD.decode(s).ok()
}

/// Relies on `String::from_utf8`: it accepts exactly the well-formed UTF-8 byte strings and
/// keeps their characters.
#[verifier::external_body]
fn utf8_text(bytes: Vec<u8>) -> (r: Option<String>)
    ensures
        r is Some <==> valid_utf8(bytes@),
        r is Some ==> r->Some_0@ == decode_utf8(bytes@),
{
    String::from_utf8(bytes).ok()
}

/// A user name and password, as a caller presented them.
pub struct Credentials {
    pub username: String,
    pub password: String,
}

/// Why the `Authorization` header did not yield credentials.
#[derive(Clone, Copy, Debug, PartialEq, Eq, Structural)]
pub enum BasicAuthError {
    MissingHeader,
    NotVisibleAscii,
    NotBasicScheme,
    NotBase64,
    NotUtf8,
    MissingPassword,
}

impl BasicAuthError {
    pub open spec fn message_spec(self) -> Seq<char> {
        match self {
            BasicAuthError::MissingHeader => "The 'Authorization' header was missing"@,
            BasicAuthError::NotVisibleAscii => "The 'Authorization' header was not a valid UTF8 string."@,
            BasicAuthError::NotBasicScheme => "The authorization scheme was not 'Basic'"@,
            BasicAuthError::NotBase64 => "Failed to base64-decode 'Basic' credentials"@,
            BasicAuthError::NotUtf8 => "The decoded credentials string is not valid UTF8."@,
            BasicAuthError::MissingPassword => "A password must be provided in 'Basic' auth"@,
        }
    }

    /// What went wrong, for the log.
    pub fn message(self) -> (r: &'static str)
        ensures
            r@ == self.message_spec(),
    {
        match self {
            BasicAuthError::MissingHeader => "The 'Authorization' header was missing",
            BasicAuthError::NotVisibleAscii => "The 'Authorization' header was not a valid UTF8 string.",
            BasicAuthError::NotBasicScheme => "The authorization scheme was not 'Basic'",
            BasicAuthError::NotBase64 => "Failed to base64-decode 'Basic' credentials",
            BasicAuthError::NotUtf8 => "The decoded credentials string is not valid UTF8.",
            BasicAuthError::MissingPassword => "A password must be provided in 'Basic' auth",
        }
    }
}

/// A byte that a header value may hold and still read as text: visible ASCII or a tab.
pub open spec fn is_visible_ascii(b: u8) -> bool {
    (32 <= b && b < 127) || b == 9
}

/// `Basic ` in ASCII.
pub open spec fn basic_prefix() -> Seq<u8> {
    seq![66u8, 97u8, 115u8, 105u8, 99u8, 32u8]
}

/// The credentials in decoded text: a user name up to the first `:`, a password after it.
pub open spec fn split_credentials(t: Seq<char>) -> Result<(Seq<char>, Seq<char>), BasicAuthError> {
    let k = first_index(t, ':');
    if k < t.len() {
        Ok((t.take(k), t.skip(k + 1)))
    } else {
        Err(BasicAuthError::MissingPassword)
    }
}

/// The credentials that decoded bytes hold.
pub open spec fn decoded_credentials(d: Seq<u8>) -> Result<(Seq<char>, Seq<char>), BasicAuthError> {
    if !valid_utf8(d) {
        Err(BasicAuthError::NotUtf8)
    } else {
        split_credentials(decode_utf8(d))
    }
}

/// The credentials that the value of an `Authorization` header holds.
pub open spec fn header_credentials(h: Seq<u8>) -> Result<(Seq<char>, Seq<char>), BasicAuthError> {
    if !(forall|i: int| 0 <= i < h.len() ==> is_visible_ascii(#[trigger] h[i])) {
        Err(BasicAuthError::NotVisibleAscii)
    } else if !(h.len() >= 6 && h.take(6) == basic_prefix()) {
        Err(BasicAuthError::NotBasicScheme)
    } else {
        match base64_decoded(h.skip(6)) {
            None => Err(BasicAuthError::NotBase64),
            Some(d) => decoded_credentials(d),
        }
    }
}

pub open spec fn credentials_match(
    r: Result<Credentials, BasicAuthError>,
    s: Result<(Seq<char>, Seq<char>), BasicAuthError>,
) -> bool {
    match s {
        Ok((u, p)) => r matches Ok(c) && c.username@ == u && c.password@ == p,
        Err(e) => r == Err::<Credentials, BasicAuthError>(e),
    }
}

/// Splits text at its first `:` into a user name and a password.
pub fn credentials_from_text(text: &str) -> (r: Result<Credentials, BasicAuthError>)
    ensures
        credentials_match(r, split_credentials(text@)),
{
    let cs = chars_of(text);
    let k = find_char(&cs, ':');
    if k < cs.len() {
        let username = text.substring_char(0, k).to_owned();
        let password = text.substring_char(k + 1, cs.len()).to_owned();
        Ok(Credentials { username, password })
    } else {
        Err(BasicAuthError::MissingPassword)
    }
}

/// Reads credentials from the bytes that base64 decoding of the header gave.
pub fn credentials_from_decoded(decoded: Vec<u8>) -> (r: Result<Credentials, BasicAuthError>)
    ensures
        credentials_match(r, decoded_credentials(decoded@)),
{
    match utf8_text(decoded) {
        Some(text) => credentials_from_text(text.as_str()),
        None => Err(BasicAuthError::NotUtf8),
    }
}

/// Reads `Basic` credentials from the value of the `Authorization` header, `None` where the
/// request has no such header.
pub fn basic_authentication(header: Option<Vec<u8>>) -> (r: Result<Credentials, BasicAuthError>)
    ensures
        header is None ==> r == Err::<Credentials, BasicAuthError>(BasicAuthError::MissingHeader),
        header is Some ==> credentials_match(r, header_credentials(header->Some_0@)),
{
    match header {
        None => Err(BasicAuthError::MissingHeader),
        Some(h) => credentials_from_header(&h),
    }
}

/// Reads `Basic` credentials from the value of an `Authorization` header.
pub fn credentials_from_header(h: &Vec<u8>) -> (r: Result<Credentials, BasicAuthError>)
    ensures
        credentials_match(r, header_credentials(h@)),
{
    let mut i: usize = 0;
    while i < h.len()
        invariant
            i <= h.len(),
            forall|j: int| 0 <= j < i ==> is_visible_ascii(#[trigger] h@[j]),
        decreases h.len() - i,
    {
        let b = h[i];
        if !((32 <= b && b < 127) || b == 9) {
            return Err(BasicAuthError::NotVisibleAscii);
        }
        i += 1;
    }
    if !(h.len() >= 6 && h[0] == 66 && h[1] == 97 && h[2] == 115 && h[3] == 105 && h[4] == 99
        && h[5] == 32) {
        proof {
            if h@.len() >= 6 && h@.take(6) == basic_prefix() {
                assert(h@.take(6)[0] == 66u8 && h@.take(6)[5] == 32u8);
                assert(h@.take(6)[1] == 97u8 && h@.take(6)[2] == 115u8);
                assert(h@.take(6)[3] == 105u8 && h@.take(6)[4] == 99u8);
            }
        }
        return Err(BasicAuthError::NotBasicScheme);
    }
    assert(h@.take(6) =~= basic_prefix());
    let mut encoded: Vec<u8> = Vec::new();
    let mut j: usize = 6;
    while j < h.len()
        invariant
            6 <= j <= h.len(),
            encoded@ == h@.subrange(6, j as int),
        decreases h.len() - j,
    {
        encoded.push(h[j]);
        assert(h@.subrange(6, j + 1) =~= h@.subrange(6, j as int).push(h@[j as int]));
        j += 1;
    }
    assert(encoded@ =~= h@.skip(6));
    match base64_decode(&encoded) {
        None => Err(BasicAuthError::NotBase64),
        Some(decoded) => credentials_from_decoded(decoded),
    }
}


/// Why checking a user's credentials failed.
pub enum AuthError {
    /// The user is unknown or the password is wrong.
    InvalidCredentials(String),
    /// The check itself could not be carried out.
    UnexpectedError(String),
}

/// Why publishing failed.
pub enum PublishError {
    AuthError(String),
    UnexpectedError(String),
}

impl PublishError {
    pub open spec fn status_spec(&self) -> u16 {
        match self {
            PublishError::AuthError(_) => 401,
            PublishError::UnexpectedError(_) => 500,
        }
    }

    /// The HTTP status of the response.
    pub fn status_code(&self) -> (r: u16)
        ensures
            r == self.status_spec(),
    {
        match self {
            PublishError::AuthError(_) => 401,
            PublishError::UnexpectedError(_) => 500,
        }
    }

    pub open spec fn challenge_spec(&self) -> Option<Seq<char>> {
        match self {
            PublishError::AuthError(_) => Some("Basic realm=\"publish\""@),
            PublishError::UnexpectedError(_) => None,
        }
    }

    /// The `WWW-Authenticate` challenge that an authentication failure carries.
    pub fn www_authenticate(&self) -> (r: Option<&'static str>)
        ensures
            r is Some <==> self.challenge_spec() is Some,
            r is Some ==> r->Some_0@ == self.challenge_spec()->Some_0,
    {
        match self {
            PublishError::AuthError(_) => Some("Basic realm=\"publish\""),
            PublishError::UnexpectedError(_) => None,
        }
    }

    /// The full description, for the log.
    pub fn description(&self) -> (r: String)
        ensures
            self matches PublishError::AuthError(m) ==> r@ == "Authentication failed: "@ + m@,
            self matches PublishError::UnexpectedError(m) ==> r@ == m@,
    {
        match self {
            PublishError::AuthError(m) => String::from_str("Authentication failed: ").concat(
                m.as_str(),
            ),
            PublishError::UnexpectedError(m) => m.clone(),
        }
    }

    /// A request without usable `Basic` credentials is unauthorised.
    pub fn from_basic_auth_error(e: BasicAuthError) -> (r: PublishError)
        ensures
            r matches PublishError::AuthError(m) && m@ == e.message_spec(),
    {
        PublishError::AuthError(String::from_str(e.message()))
    }

    /// Wrong credentials are unauthorised; a failed check is unexpected.
    pub fn from_auth_error(e: AuthError) -> (r: PublishError)
        ensures
            e matches AuthError::InvalidCredentials(m) ==> r == PublishError::AuthError(m),
            e matches AuthError::UnexpectedError(m) ==> r == PublishError::UnexpectedError(m),
    {
        match e {
            AuthError::InvalidCredentials(m) => PublishError::AuthError(m),
            AuthError::UnexpectedError(m) => PublishError::UnexpectedError(m),
        }
    }
}

/// The content of a newsletter issue.
pub struct Content {
    pub html: String,
    pub text: String,
}

/// A newsletter issue to publish.
pub struct BodyData {
    pub title: String,
    pub content: Content,
}

/// Parses the stored address of each confirmed subscriber; one that no longer parses is kept
/// as an error message, in its place.
pub fn confirmed_recipients(rows: Vec<String>) -> (r: Vec<Result<SubscriberEmail, String>>)
    ensures
        r.len() == rows.len(),
        forall|i: int|
            0 <= i < rows.len() ==> ((#[trigger] r@[i]) is Ok <==> is_valid_email(rows@[i]@)),
        forall|i: int|
            0 <= i < rows.len() ==> ((#[trigger] r@[i]) matches Ok(e) ==> e@ == rows@[i]@),
{
    let mut r: Vec<Result<SubscriberEmail, String>> = Vec::new();
    let mut i: usize = 0;
    while i < rows.len()
        invariant
            i <= rows.len(),
            r.len() == i,
            forall|j: int|
                0 <= j < i ==> ((#[trigger] r@[j]) is Ok <==> is_valid_email(rows@[j]@)),
            forall|j: int| 0 <= j < i ==> ((#[trigger] r@[j]) matches Ok(e) ==> e@ == rows@[j]@),
        decreases rows.len() - i,
    {
        r.push(SubscriberEmail::parse(rows[i].clone()));
        i += 1;
    }
    r
}

/// One step of publishing an issue.
pub enum Delivery {
    /// Send this e-mail.
    Send(OutgoingEmail),
    /// Skip a subscriber whose stored address is invalid, with the reason.
    Skip(String),
}

/// `d` is the step for `recipient` when `issue` is published.
pub open spec fn planned_delivery(
    issue: &BodyData,
    recipient: Result<SubscriberEmail, String>,
    d: Delivery,
) -> bool {
    match recipient {
        Ok(e) => d matches Delivery::Send(m) && m.recipient@ == e@ && m.subject@ == issue.title@
            && m.html_body@ == issue.content.html@ && m.text_body@ == issue.content.text@,
        Err(w) => d matches Delivery::Skip(x) && x@ == w@,
    }
}

/// `d` holds, in order, one step for each of `recipients`.
pub open spec fn planned_deliveries(
    issue: &BodyData,
    recipients: Seq<Result<SubscriberEmail, String>>,
    d: Seq<Delivery>,
) -> bool {
    &&& d.len() == recipients.len()
    &&& forall|i: int| 0 <= i < d.len() ==> planned_delivery(issue, recipients[i], #[trigger] d[i])
}

/// The steps that publish `issue` to `recipients`: an e-mail with the issue's title and bodies
/// to each valid address, in order, and a skip for each invalid one.
pub fn newsletter_deliveries(
    issue: &BodyData,
    recipients: &Vec<Result<SubscriberEmail, String>>,
) -> (r: Vec<Delivery>)
    ensures
        planned_deliveries(issue, recipients@, r@),
{
    let mut r: Vec<Delivery> = Vec::new();
    let mut i: usize = 0;
    while i < recipients.len()
        invariant
            i <= recipients.len(),
            r.len() == i,
            forall|j: int|
                0 <= j < i ==> planned_delivery(issue, recipients@[j], #[trigger] r@[j]),
        decreases recipients.len() - i,
    {
        let d = match &recipients[i] {
            Ok(e) => Delivery::Send(
                OutgoingEmail {
                    recipient: e.clone(),
                    subject: issue.title.clone(),
                    html_body: issue.content.html.clone(),
                    text_body: issue.content.text.clone(),
                },
            ),
            Err(w) => Delivery::Skip(w.clone()),
        };
        r.push(d);
        i += 1;
    }
    r
}

/// The error that ends publishing when sending to `recipient` failed.
pub fn delivery_failure(recipient: &SubscriberEmail, cause: &str) -> (r: PublishError)
    ensures
        r matches PublishError::UnexpectedError(m) && m@ == "Failed to send newsletter issue to "@
            + recipient@ + ": "@ + cause@,
{
    PublishError::UnexpectedError(
        String::from_str("Failed to send newsletter issue to ").concat(recipient.as_str()).concat(
            ": ",
        ).concat(cause),
    )
}

pub open spec fn count_sends(d: Seq<Delivery>) -> nat
    decreases d.len(),
{
    if d.len() == 0 {
        0
    } else {
        count_sends(d.drop_last()) + if d.last() is Send {
            1nat
        } else {
            0nat
        }
    }
}

pub open spec fn count_valid(r: Seq<Result<SubscriberEmail, String>>) -> nat
    decreases r.len(),
{
    if r.len() == 0 {
        0
    } else {
        count_valid(r.drop_last()) + if r.last() is Ok {
            1nat
        } else {
            0nat
        }
    }
}

/// Publishing sends exactly one e-mail per confirmed subscriber with a valid address, and none
/// where there is no such subscriber.
pub proof fn lemma_one_email_per_valid_recipient(
    issue: &BodyData,
    recipients: Seq<Result<SubscriberEmail, String>>,
    d: Seq<Delivery>,
)
    requires
        planned_deliveries(issue, recipients, d),
    ensures
        count_sends(d) == count_valid(recipients),
        recipients.len() == 0 ==> count_sends(d) == 0,
    decreases recipients.len(),
{
    if recipients.len() > 0 {
        let n = recipients.len() - 1;
        assert(planned_delivery(issue, recipients[n], d[n]));
        assert forall|i: int| 0 <= i < d.drop_last().len() implies planned_delivery(
            issue,
            recipients.drop_last()[i],
            #[trigger] d.drop_last()[i],
        ) by {
            assert(planned_delivery(issue, recipients[i], d[i]));
        }
        lemma_one_email_per_valid_recipient(issue, recipients.drop_last(), d.drop_last());
    }
}


/// The credentials of a publish request, or the unauthorised error.
pub fn publish_credentials(header: Option<Vec<u8>>) -> (r: Result<Credentials, PublishError>)
    ensures
        header is None ==> r matches Err(PublishError::AuthError(_)),
        header is Some ==> match header_credentials(header->Some_0@) {
            Ok((u, p)) => r matches Ok(c) && c.username@ == u && c.password@ == p,
            Err(_) => r matches Err(PublishError::AuthError(_)),
        },
{
    match basic_authentication(header) {
        Ok(c) => Ok(c),
        Err(e) => Err(PublishError::from_basic_auth_error(e)),
    }
}

/// A publish request refused for its credentials, whether the header is missing or malformed
/// or the user is unknown or the password wrong, is answered 401 with the `Basic` challenge of
/// the `publish` realm; any other failure is 500 without a challenge.
pub proof fn lemma_auth_failures_challenge(e: PublishError)
    ensures
        e is AuthError ==> e.status_spec() == 401 && e.challenge_spec() == Some(
            "Basic realm=\"publish\""@,
        ),
        e is UnexpectedError ==> e.status_spec() == 500 && e.challenge_spec() is None,
{
}

} // verus!
