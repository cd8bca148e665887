use unicode_segmentation::UnicodeSegmentation;
use vstd::prelude::*;

use crate::text::{chars_of, is_white_space, white_space};

verus! {

/// The number of extended grapheme clusters (user-perceived characters) in `s`.
pub uninterp spec fn grapheme_count(s: Seq<char>) -> nat;

/// The verdict of `validator::validate_email` on an address that holds an `@`: the length
/// limits and patterns it applies to the parts around the last `@`.
pub uninterp spec fn email_parts_valid(s: Seq<char>) -> bool;

/// Whether `s` is a syntactically valid e-mail address.
pub open spec fn is_valid_email(s: Seq<char>) -> bool {
    s.len() > 0 && s.contains('@') && email_parts_valid(s)
}

/// The longest subscriber name, in user-perceived characters.
pub const MAX_NAME_GRAPHEMES: usize = 256;

/// Characters that a subscriber name may not hold.
pub open spec fn is_forbidden_name_char(c: char) -> bool {
    c == '/' || c == '(' || c == ')' || c == '"' || c == '<' || c == '>' || c == '\\' || c == '{'
        || c == '}'
}

/// A name is accepted when something is left after trimming white space, it is at most
/// `MAX_NAME_GRAPHEMES` user-perceived characters long, and it holds no forbidden character.
pub open spec fn is_valid_name(s: Seq<char>) -> bool {
    &&& exists|i: int| 0 <= i < s.len() && !is_white_space(#[trigger] s[i])
    &&& grapheme_count(s) <= MAX_NAME_GRAPHEMES
    &&& forall|i: int| 0 <= i < s.len() ==> !is_forbidden_name_char(#[trigger] s[i])
}

/// Relies on `unicode_segmentation::UnicodeSegmentation::graphemes(s, true)`: the count of
/// extended grapheme clusters it yields.
#[verifier::external_body]
fn count_graphemes(s: &str) -> (r: usize)
    ensures
        r as nat == grapheme_count(s@),
{
    s.graphemes(true).count()
}

/// Relies on `validator::validate_email`: whether the address is syntactically valid. Its
/// source rejects an empty string and one without `@` before anything else.
#[verifier::external_body]
fn email_syntax_ok(s: &str) -> (r: bool)
    ensures
        r == (s@.len() > 0 && s@.contains('@') && email_parts_valid(s@)),
{
    validator::validate_email(s)
}

fn forbidden_name_char(c: char) -> (r: bool)
    ensures
        r == is_forbidden_name_char(c),
{
    c == '/' || c == '(' || c == ')' || c == '"' || c == '<' || c == '>' || c == '\\' || c == '{'
        || c == '}'
}

/// A validated subscriber name.
pub struct SubscriberName {
    name: String,
}

impl View for SubscriberName {
    type V = Seq<char>;

    closed spec fn view(&self) -> Seq<char> {
        self.name@
    }
}

impl SubscriberName {
    pub closed spec fn wf(&self) -> bool {
        is_valid_name(self.name@)
    }

    /// Accepts `s` exactly when it is a valid name; the error is a message naming it.
    pub fn parse(s: String) -> (r: Result<SubscriberName, String>)
        ensures
            r is Ok <==> is_valid_name(s@),
            r matches Ok(n) ==> n@ == s@ && n.wf(),
            r matches Err(m) ==> m@ == s@ + " is not a valid subscriber name."@,
    {
        let cs = chars_of(s.as_str());
        let mut has_content = false;
        let mut forbidden = false;
        let mut i: usize = 0;
        while i < cs.len()
            invariant
                i <= cs.len(),
                cs@ == s@,
                has_content <==> exists|j: int| 0 <= j < i && !is_white_space(#[trigger] cs@[j]),
                forbidden <==> exists|j: int| 0 <= j < i && is_forbidden_name_char(#[trigger] cs@[j]),
            decreases cs.len() - i,
        {
            if !white_space(cs[i]) {
                has_content = true;
            }
            if forbidden_name_char(cs[i]) {
                forbidden = true;
            }
            i += 1;
        }
        let too_long = count_graphemes(s.as_str()) > MAX_NAME_GRAPHEMES;
        if !has_content || too_long || forbidden {
            Err(s.concat(" is not a valid subscriber name."))
        } else {
            Ok(SubscriberName { name: s })
        }
    }

    pub fn as_str(&self) -> (r: &str)
        ensures
            r@ == self@,
    {
        self.name.as_str()
    }
}

/// A syntactically valid e-mail address.
pub struct SubscriberEmail {
    email: String,
}

impl View for SubscriberEmail {
    type V = Seq<char>;

    closed spec fn view(&self) -> Seq<char> {
        self.email@
    }
}

impl SubscriberEmail {
    pub closed spec fn wf(&self) -> bool {
        is_valid_email(self.email@)
    }

    /// Accepts `s` exactly when it is a valid address; the error is a message naming it.
    pub fn parse(s: String) -> (r: Result<SubscriberEmail, String>)
        ensures
            r is Ok <==> is_valid_email(s@),
            r matches Ok(e) ==> e@ == s@ && e.wf(),
            r matches Err(m) ==> m@ == s@ + " is not a valid subscriber email."@,
    {
        if email_syntax_ok(s.as_str()) {
            Ok(SubscriberEmail { email: s })
        } else {
            Err(s.concat(" is not a valid subscriber email."))
        }
    }

    pub fn as_str(&self) -> (r: &str)
        ensures
            r@ == self@,
    {
        self.email.as_str()
    }
}

impl Clone for SubscriberEmail {
    fn clone(&self) -> (r: SubscriberEmail)
        ensures
            r@ == self@,
    {
        SubscriberEmail { email: self.email.clone() }
    }
}

/// A subscriber whose name and address have both been validated.
pub struct NewSubscriber {
    pub email: SubscriberEmail,
    pub name: SubscriberName,
}

/// Lifecycle state of a subscription.
#[derive(Clone, Copy, Debug, PartialEq, Eq, Structural)]
pub enum SubscriptionStatus {
    PendingConfirmation,
    Confirmed,
}

impl SubscriptionStatus {
    pub open spec fn confirm_spec(self) -> SubscriptionStatus {
        SubscriptionStatus::Confirmed
    }

    /// The state after a successful confirmation, whatever the state before.
    pub fn confirm(self) -> (r: SubscriptionStatus)
        ensures
            r == self.confirm_spec(),
    {
        SubscriptionStatus::Confirmed
    }

    pub open spec fn text_spec(self) -> Seq<char> {
        match self {
            SubscriptionStatus::PendingConfirmation => "pending_confirmation"@,
            SubscriptionStatus::Confirmed => "confirmed"@,
        }
    }

    /// The text stored for this state.
    pub fn as_str(self) -> (r: &'static str)
        ensures
            r@ == self.text_spec(),
    {
        match self {
            SubscriptionStatus::PendingConfirmation => "pending_confirmation",
            SubscriptionStatus::Confirmed => "confirmed",
        }
    }
}

/// Confirming moves a pending subscription to confirmed, and confirming again changes nothing.
pub proof fn lemma_confirmation_idempotent(s: SubscriptionStatus)
    ensures
        SubscriptionStatus::PendingConfirmation.confirm_spec() == SubscriptionStatus::Confirmed,
        s.confirm_spec().confirm_spec() == s.confirm_spec(),
        s.confirm_spec() == SubscriptionStatus::Confirmed,
{
}

} // verus!
