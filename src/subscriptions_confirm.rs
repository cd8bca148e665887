use vstd::prelude::*;

use crate::form::{
    field_appears, field_repeated, field_value, form_pairs, parse_form, required_field,
    FormRejection,
};

verus! {

/// The query of a confirmation link.
pub struct Parameters {
    pub subscription_token: String,
}

impl Parameters {
    /// Reads the one `subscription_token` of a query string.
    pub fn from_query(query: &str) -> (r: Result<Parameters, FormRejection>)
        ensures
            form_pairs(query@) is None ==> r matches Err(FormRejection::InvalidEncoding),
            form_pairs(query@) matches Some(p) ==> {
                if field_repeated(p, "subscription_token"@) {
                    r matches Err(FormRejection::DuplicateField(f)) && f@ == "subscription_token"@
                } else if !field_appears(p, "subscription_token"@) {
                    r matches Err(FormRejection::MissingField(f)) && f@ == "subscription_token"@
                } else {
                    r matches Ok(v) && v.subscription_token@ == field_value(
                        p,
                        "subscription_token"@,
                    )
                }
            },
    {
        let pairs = match parse_form(query) {
            Some(pairs) => pairs,
            None => {
                return Err(FormRejection::InvalidEncoding);
            },
        };
        match required_field(&pairs, "subscription_token") {
            Ok(subscription_token) => Ok(Parameters { subscription_token }),
            Err(e) => Err(e),
        }
    }
}

/// The status of a confirmation request whose query cannot be read.
pub fn query_rejection_status(rejection: &FormRejection) -> (r: u16)
    ensures
        r == 400,
{
    400
}

/// The body of a confirmation request whose query cannot be read.
pub fn query_rejection_body(rejection: &FormRejection) -> (r: String)
    ensures
        r@ == "Failed to deserialize query string: "@ + rejection.detail_spec(),
{
    String::from_str("Failed to deserialize query string: ").concat(rejection.detail().as_str())
}

/// Why a confirmation failed.
pub enum ConfirmationError {
    /// The store failed; the message says at which step.
    UnexpectedError(String),
    /// No subscriber holds the token.
    UnknownToken,
}

impl ConfirmationError {
    pub open spec fn status_spec(&self) -> u16 {
        match self {
            ConfirmationError::UnexpectedError(_) => 500,
            ConfirmationError::UnknownToken => 401,
        }
    }

    /// The HTTP status of the response.
    pub fn status_code(&self) -> (r: u16)
        ensures
            r == self.status_spec(),
    {
        match self {
            ConfirmationError::UnexpectedError(_) => 500,
            ConfirmationError::UnknownToken => 401,
        }
    }

    pub open spec fn public_message_spec(&self) -> Seq<char> {
        match self {
            ConfirmationError::UnexpectedError(_) => "Unexpected Error"@,
            ConfirmationError::UnknownToken => "Invalid Token"@,
        }
    }

    /// The message shown to the caller, which leaks no detail of the failure.
    pub fn public_message(&self) -> (r: &'static str)
        ensures
            r@ == self.public_message_spec(),
    {
        match self {
            ConfirmationError::UnexpectedError(_) => "Unexpected Error",
            ConfirmationError::UnknownToken => "Invalid Token",
        }
    }

    /// The full description, for the log.
    pub fn description(&self) -> (r: String)
        ensures
            self matches ConfirmationError::UnexpectedError(m) ==> r@ == m@,
            self is UnknownToken ==> r@
                == "There is no subscriber associated with the provided token."@,
    {
        match self {
            ConfirmationError::UnexpectedError(m) => m.clone(),
            ConfirmationError::UnknownToken => String::from_str(
                "There is no subscriber associated with the provided token.",
            ),
        }
    }
}

/// Decides on the result of looking the token up: the subscriber to mark as confirmed, or the
/// error. Nothing is to be updated on an unknown token or a failed lookup.
pub fn subscriber_to_confirm(lookup: Result<Option<u128>, String>) -> (r: Result<
    u128,
    ConfirmationError,
>)
    ensures
        lookup matches Ok(Some(id)) ==> r == Ok::<u128, ConfirmationError>(id),
        lookup matches Ok(None) ==> r matches Err(ConfirmationError::UnknownToken),
        lookup is Err ==> r matches Err(ConfirmationError::UnexpectedError(_)),
{
    match lookup {
        Ok(Some(id)) => Ok(id),
        Ok(None) => Err(ConfirmationError::UnknownToken),
        Err(e) => Err(
            ConfirmationError::UnexpectedError(
                String::from_str("Failed to retrieve the subscriber id with token: ").concat(
                    e.as_str(),
                ),
            ),
        ),
    }
}

/// Decides on the result of marking the subscriber as confirmed: 200, or the error.
pub fn confirmation_response(update: Result<(), String>) -> (r: Result<u16, ConfirmationError>)
    ensures
        update is Ok ==> r == Ok::<u16, ConfirmationError>(200),
        update is Err ==> r matches Err(ConfirmationError::UnexpectedError(_)),
{
    match update {
        Ok(()) => Ok(200),
        Err(e) => Err(
            ConfirmationError::UnexpectedError(
                String::from_str("Failed to update the subscriber status to 'confirmed': ").concat(
                    e.as_str(),
                ),
            ),
        ),
    }
}

} // verus!
