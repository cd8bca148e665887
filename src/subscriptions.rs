use rand::distributions::{Alphanumeric, DistString};
use vstd::prelude::*;

use crate::email::OutgoingEmail;
use crate::startup::ApplicationBaseUrl;
use crate::domain::{
    SubscriptionStatus, is_valid_email, is_valid_name, NewSubscriber, SubscriberEmail, SubscriberName,
};
use crate::form::{
    field_appears, field_repeated, field_value, form_pairs, pairs_view, parse_form,
    required_field, FormRejection,
};

verus! {

/// The length of a confirmation token.
pub const TOKEN_LEN: usize = 25;

pub open spec fn is_ascii_alphanumeric(c: char) -> bool {
    ('a' <= c && c <= 'z') || ('A' <= c && c <= 'Z') || ('0' <= c && c <= '9')
}

/// Relies on `rand::distributions::Alphanumeric` sampled through `DistString::sample_string`
/// with the thread-local generator: `len` characters, each an ASCII letter or digit.
#[verifier::external_body]
fn random_alphanumeric(len: usize) -> (r: String)
    ensures
        r@.len() == len,
        forall|i: int| 0 <= i < r@.len() ==> is_ascii_alphanumeric(#[trigger] r@[i]),
{
    Alphanumeric.sample_string(&mut rand::thread_rng(), len)
}

/// A fresh random confirmation token.
pub fn generate_subscription_token() -> (r: String)
    ensures
        r@.len() == TOKEN_LEN,
        forall|i: int| 0 <= i < r@.len() ==> is_ascii_alphanumeric(#[trigger] r@[i]),
{
    random_alphanumeric(TOKEN_LEN)
}

/// The fields of a subscription form.
pub struct Subscribe {
    pub name: String,
    pub email: String,
}

pub open spec fn field_ok(p: Seq<(Seq<char>, Seq<char>)>, k: Seq<char>) -> bool {
    !field_repeated(p, k) && field_appears(p, k)
}

/// What is wrong with a subscription form, in a form decoder's words; empty where nothing is.
pub open spec fn subscribe_form_detail(body: Seq<char>) -> Seq<char> {
    match form_pairs(body) {
        None => "invalid percent-encoding"@,
        Some(p) => if field_repeated(p, "name"@) {
            "duplicate field `name`"@
        } else if !field_appears(p, "name"@) {
            "missing field `name`"@
        } else if field_repeated(p, "email"@) {
            "duplicate field `email`"@
        } else if !field_appears(p, "email"@) {
            "missing field `email`"@
        } else {
            Seq::empty()
        },
    }
}

proof fn lemma_field_details()
    ensures
        "missing field `"@ + "name"@ + "`"@ == "missing field `name`"@,
        "missing field `"@ + "email"@ + "`"@ == "missing field `email`"@,
        "duplicate field `"@ + "name"@ + "`"@ == "duplicate field `name`"@,
        "duplicate field `"@ + "email"@ + "`"@ == "duplicate field `email`"@,
{
    reveal_strlit("missing field `");
    reveal_strlit("duplicate field `");
    reveal_strlit("name");
    reveal_strlit("email");
    reveal_strlit("`");
    reveal_strlit("missing field `name`");
    reveal_strlit("missing field `email`");
    reveal_strlit("duplicate field `name`");
    reveal_strlit("duplicate field `email`");
    assert("missing field `"@ + "name"@ + "`"@ =~= "missing field `name`"@);
    assert("missing field `"@ + "email"@ + "`"@ =~= "missing field `email`"@);
    assert("duplicate field `"@ + "name"@ + "`"@ =~= "duplicate field `name`"@);
    assert("duplicate field `"@ + "email"@ + "`"@ =~= "duplicate field `email`"@);
}

impl Subscribe {
    /// Reads the `name` and `email` fields of a form body. Other fields are ignored.
    pub fn from_form(body: &str) -> (r: Result<Subscribe, FormRejection>)
        ensures
            form_pairs(body@) is None ==> r matches Err(FormRejection::InvalidEncoding),
            form_pairs(body@) matches Some(p) ==> {
                if field_repeated(p, "name"@) {
                    r matches Err(FormRejection::DuplicateField(f)) && f@ == "name"@
                } else if !field_appears(p, "name"@) {
                    r matches Err(FormRejection::MissingField(f)) && f@ == "name"@
                } else if field_repeated(p, "email"@) {
                    r matches Err(FormRejection::DuplicateField(f)) && f@ == "email"@
                } else if !field_appears(p, "email"@) {
                    r matches Err(FormRejection::MissingField(f)) && f@ == "email"@
                } else {
                    r matches Ok(s) && s.name@ == field_value(p, "name"@) && s.email@
                        == field_value(p, "email"@)
                }
            },
            r matches Err(f) ==> f.detail_spec() == subscribe_form_detail(body@),
    {
        proof {
            lemma_field_details();
        }
        let pairs = match parse_form(body) {
            Some(pairs) => pairs,
            None => {
                return Err(FormRejection::InvalidEncoding);
            },
        };
        let name = match required_field(&pairs, "name") {
            Ok(v) => v,
            Err(e) => {
                return Err(e);
            },
        };
        let email = match required_field(&pairs, "email") {
            Ok(v) => v,
            Err(e) => {
                return Err(e);
            },
        };
        Ok(Subscribe { name, email })
    }
}

impl NewSubscriber {
    /// Validates both fields of a form; the error is the message of the first that fails.
    pub fn parse(value: Subscribe) -> (r: Result<NewSubscriber, String>)
        ensures
            r is Ok <==> is_valid_name(value.name@) && is_valid_email(value.email@),
            r matches Ok(s) ==> s.name@ == value.name@ && s.email@ == value.email@,
            r matches Err(m) ==> if !is_valid_name(value.name@) {
                m@ == value.name@ + " is not a valid subscriber name."@
            } else {
                m@ == value.email@ + " is not a valid subscriber email."@
            },
    {
        let name = match SubscriberName::parse(value.name) {
            Ok(n) => n,
            Err(e) => {
                return Err(e);
            },
        };
        let email = match SubscriberEmail::parse(value.email) {
            Ok(e) => e,
            Err(e) => {
                return Err(e);
            },
        };
        Ok(NewSubscriber { email, name })
    }
}

/// Why a subscription request failed.
pub enum SubscribeError {
    /// The body is not a form with one `name` and one `email`.
    Form(FormRejection),
    /// A field is present but not acceptable.
    Validation(String),
    /// Storing the subscriber or its token failed.
    Store(String),
    /// Sending the confirmation e-mail failed.
    Mail(String),
}

impl SubscribeError {
    pub open spec fn status_spec(&self) -> u16 {
        match self {
            SubscribeError::Form(_) => 422,
            SubscribeError::Validation(_) => 400,
            SubscribeError::Store(_) => 500,
            SubscribeError::Mail(_) => 500,
        }
    }

    /// The HTTP status of the response.
    pub fn status_code(&self) -> (r: u16)
        ensures
            r == self.status_spec(),
    {
        match self {
            SubscribeError::Form(_) => 422,
            SubscribeError::Validation(_) => 400,
            SubscribeError::Store(_) => 500,
            SubscribeError::Mail(_) => 500,
        }
    }

    pub open spec fn body_spec(&self) -> Seq<char> {
        match self {
            SubscribeError::Form(f) => "Failed to deserialize form body: "@ + f.detail_spec(),
            _ => Seq::empty(),
        }
    }

    /// The body of the response: the decoder's words for a malformed form, nothing otherwise.
    pub fn body(&self) -> (r: String)
        ensures
            r@ == self.body_spec(),
    {
        match self {
            SubscribeError::Form(f) => String::from_str("Failed to deserialize form body: ").concat(
                f.detail().as_str(),
            ),
            _ => String::new(),
        }
    }
}

/// The body of the response to a refused subscription request.
pub open spec fn registration_error_body(body: Seq<char>) -> Seq<char> {
    if registration_status(body) == 422 {
        "Failed to deserialize form body: "@ + subscribe_form_detail(body)
    } else {
        Seq::empty()
    }
}

/// The status a subscription request gets from its body, where storing and mailing succeed.
pub open spec fn registration_status(body: Seq<char>) -> u16 {
    match form_pairs(body) {
        None => 422,
        Some(p) => if !(field_ok(p, "name"@) && field_ok(p, "email"@)) {
            422
        } else if is_valid_name(field_value(p, "name"@)) && is_valid_email(
            field_value(p, "email"@),
        ) {
            201
        } else {
            400
        },
    }
}

/// Reads and validates the body of a subscription request: the subscriber to store, or why the
/// request is refused.
pub fn subscribe_request(body: &str) -> (r: Result<NewSubscriber, SubscribeError>)
    ensures
        r is Ok <==> registration_status(body@) == 201,
        r matches Err(e) ==> e.status_spec() == registration_status(body@) && e.body_spec()
            == registration_error_body(body@),
        r matches Ok(s) ==> s.name@ == field_value(form_pairs(body@)->Some_0, "name"@) && s.email@
            == field_value(form_pairs(body@)->Some_0, "email"@),
{
    let form = match Subscribe::from_form(body) {
        Ok(f) => f,
        Err(e) => {
            return Err(SubscribeError::Form(e));
        },
    };
    match NewSubscriber::parse(form) {
        Ok(s) => Ok(s),
        Err(e) => Err(SubscribeError::Validation(e)),
    }
}

/// A form that lacks `name` or `email` is refused as unprocessable, before any validation,
/// with the decoder's message naming the first field missing.
pub proof fn lemma_missing_field_is_unprocessable(body: Seq<char>)
    requires
        form_pairs(body) is Some,
        !field_repeated(form_pairs(body)->Some_0, "name"@),
        !field_repeated(form_pairs(body)->Some_0, "email"@),
        !field_appears(form_pairs(body)->Some_0, "name"@) || !field_appears(
            form_pairs(body)->Some_0,
            "email"@,
        ),
    ensures
        registration_status(body) == 422,
        !field_appears(form_pairs(body)->Some_0, "name"@) ==> registration_error_body(body)
            == "Failed to deserialize form body: missing field `name`"@,
        field_appears(form_pairs(body)->Some_0, "name"@) ==> registration_error_body(body)
            == "Failed to deserialize form body: missing field `email`"@,
{
    reveal_strlit("Failed to deserialize form body: ");
    reveal_strlit("missing field `name`");
    reveal_strlit("missing field `email`");
    reveal_strlit("Failed to deserialize form body: missing field `name`");
    reveal_strlit("Failed to deserialize form body: missing field `email`");
    assert("Failed to deserialize form body: "@ + "missing field `name`"@
        =~= "Failed to deserialize form body: missing field `name`"@);
    assert("Failed to deserialize form body: "@ + "missing field `email`"@
        =~= "Failed to deserialize form body: missing field `email`"@);
}

/// A form whose `name` or `email` is present but empty, or whose `email` is not an address,
/// is refused as a bad request.
pub proof fn lemma_empty_or_invalid_field_is_bad_request(body: Seq<char>)
    requires
        form_pairs(body) is Some,
        field_ok(form_pairs(body)->Some_0, "name"@),
        field_ok(form_pairs(body)->Some_0, "email"@),
        field_value(form_pairs(body)->Some_0, "name"@).len() == 0 || field_value(
            form_pairs(body)->Some_0,
            "email"@,
        ).len() == 0 || !is_valid_email(field_value(form_pairs(body)->Some_0, "email"@)),
    ensures
        registration_status(body) == 400,
{
}


pub open spec fn confirmation_link_spec(base_url: Seq<char>, token: Seq<char>) -> Seq<char> {
    base_url + "/subscriptions/confirm?subscription_token="@ + token
}

/// The link that confirms the subscription holding `token`.
pub fn confirmation_link(base_url: &ApplicationBaseUrl, token: &str) -> (r: String)
    ensures
        r@ == confirmation_link_spec(base_url.0@, token@),
{
    String::from_str(base_url.0.as_str()).concat("/subscriptions/confirm?subscription_token=").concat(
        token,
    )
}

pub open spec fn html_before_link() -> Seq<char> {
    "Welcome to our newsletter!<br />Click <a href=\""@
}

pub open spec fn html_after_link() -> Seq<char> {
    "\">here</a> to confirm your subscription."@
}

pub open spec fn text_before_link() -> Seq<char> {
    "Welcome to our newsletter!\nVisit "@
}

pub open spec fn text_after_link() -> Seq<char> {
    " to confirm your subscription."@
}

pub open spec fn confirmation_html(link: Seq<char>) -> Seq<char> {
    html_before_link() + link + html_after_link()
}

pub open spec fn confirmation_text(link: Seq<char>) -> Seq<char> {
    text_before_link() + link + text_after_link()
}

/// The welcome e-mail that carries the confirmation link for `token` to `recipient`.
pub fn confirmation_email(
    recipient: SubscriberEmail,
    base_url: &ApplicationBaseUrl,
    token: &str,
) -> (r: OutgoingEmail)
    ensures
        r.recipient@ == recipient@,
        r.subject@ == "Welcome!"@,
        r.html_body@ == confirmation_html(confirmation_link_spec(base_url.0@, token@)),
        r.text_body@ == confirmation_text(confirmation_link_spec(base_url.0@, token@)),
{
    let link = confirmation_link(base_url, token);
    let html_body = String::from_str("Welcome to our newsletter!<br />Click <a href=\"").concat(
        link.as_str(),
    ).concat("\">here</a> to confirm your subscription.");
    let text_body = String::from_str("Welcome to our newsletter!\nVisit ").concat(
        link.as_str(),
    ).concat(" to confirm your subscription.");
    OutgoingEmail { recipient, subject: String::from_str("Welcome!"), html_body, text_body }
}

/// The HTML and the plain-text body of the welcome e-mail carry the same link, and it is the
/// confirmation link of the token.
pub proof fn lemma_confirmation_links_identical(base_url: Seq<char>, token: Seq<char>)
    ensures
        ({
            let link = confirmation_link_spec(base_url, token);
            let h = html_before_link().len() as int;
            let t = text_before_link().len() as int;
            &&& confirmation_html(link).subrange(h, h + link.len()) == link
            &&& confirmation_text(link).subrange(t, t + link.len()) == link
        }),
{
    let link = confirmation_link_spec(base_url, token);
    let h = html_before_link().len() as int;
    let t = text_before_link().len() as int;
    assert(confirmation_html(link).subrange(h, h + link.len()) =~= link);
    assert(confirmation_text(link).subrange(t, t + link.len()) =~= link);
}


/// What a valid subscription request leads to: a pending subscriber stored with a fresh token,
/// then one welcome e-mail carrying the link for that token.
pub struct Registration {
    pub subscriber: NewSubscriber,
    pub status: SubscriptionStatus,
    pub token: String,
    pub email: OutgoingEmail,
}

/// Plans the handling of a subscription request, or says why it is refused.
pub fn registration(body: &str, base_url: &ApplicationBaseUrl) -> (r: Result<
    Registration,
    SubscribeError,
>)
    ensures
        r is Ok <==> registration_status(body@) == 201,
        r matches Err(e) ==> e.status_spec() == registration_status(body@) && e.body_spec()
            == registration_error_body(body@),
        r matches Ok(g) ==> {
            &&& g.subscriber.name@ == field_value(form_pairs(body@)->Some_0, "name"@)
            &&& g.subscriber.email@ == field_value(form_pairs(body@)->Some_0, "email"@)
            &&& g.status == SubscriptionStatus::PendingConfirmation
            &&& g.token@.len() == TOKEN_LEN
            &&& forall|i: int| 0 <= i < g.token@.len() ==> is_ascii_alphanumeric(#[trigger] g.token@[i])
            &&& g.email.recipient@ == g.subscriber.email@
            &&& g.email.subject@ == "Welcome!"@
            &&& g.email.html_body@ == confirmation_html(confirmation_link_spec(base_url.0@, g.token@))
            &&& g.email.text_body@ == confirmation_text(confirmation_link_spec(base_url.0@, g.token@))
        },
{
    let subscriber = match subscribe_request(body) {
        Ok(s) => s,
        Err(e) => {
            return Err(e);
        },
    };
    let token = generate_subscription_token();
    let email = confirmation_email(subscriber.email.clone(), base_url, token.as_str());
    Ok(Registration { subscriber, status: SubscriptionStatus::PendingConfirmation, token, email })
}

/// Decides on the result of storing the subscriber and its token in one transaction.
pub fn after_store(stored: Result<(), String>) -> (r: Result<(), SubscribeError>)
    ensures
        stored is Ok <==> r is Ok,
        r matches Err(e) ==> e is Store && e.status_spec() == 500,
{
    match stored {
        Ok(()) => Ok(()),
        Err(m) => Err(SubscribeError::Store(m)),
    }
}

/// Decides on the result of sending the welcome e-mail: 201, or a server error (the stored
/// subscriber stays pending).
pub fn after_mail(sent: Result<(), String>) -> (r: Result<u16, SubscribeError>)
    ensures
        sent is Ok ==> r == Ok::<u16, SubscribeError>(201),
        sent is Err ==> (r matches Err(e) && e is Mail && e.status_spec() == 500),
{
    match sent {
        Ok(()) => Ok(201),
        Err(m) => Err(SubscribeError::Mail(m)),
    }
}

} // verus!
