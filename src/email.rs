use vstd::prelude::*;

use crate::domain::SubscriberEmail;

verus! {

/// An e-mail to hand to the delivery service.
pub struct OutgoingEmail {
    pub recipient: SubscriberEmail,
    pub subject: String,
    pub html_body: String,
    pub text_body: String,
}

/// The path of the delivery service's endpoint under its base URL.
pub fn email_endpoint(base_url: &str) -> (r: String)
    ensures
        r@ == base_url@ + "/email"@,
{
    String::from_str(base_url).concat("/email")
}

} // verus!
