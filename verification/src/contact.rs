//! The formats of login accounts: email addresses and cellphone numbers.

use vstd::prelude::*;

verus! {

/// Whether `email_address::EmailAddress::is_valid` accepts a text.
pub uninterp spec fn spec_email_valid(text: Seq<char>) -> bool;

/// `email_address::EmailAddress::is_valid` parses the address by the RFC grammar the
/// crate implements; the answer is named, not written out.
pub assume_specification[ email_address::EmailAddress::is_valid ](address: &str) -> (r: bool)
    ensures
        r == spec_email_valid(address@),
;

/// Whether `regex::Regex::new(pattern)` builds a regex that matches somewhere in `text`
/// (false when the pattern does not build).
pub uninterp spec fn spec_regex_match(pattern: Seq<char>, text: Seq<char>) -> bool;

/// Calls `regex::Regex::new` and `regex::Regex::is_match`; a pattern that does not
/// build matches nothing. The answer is named, not written out.
#[verifier::external_body]
pub(crate) fn regex_matches(pattern: &str, text: &str) -> (r: bool)
    ensures
        r == spec_regex_match(pattern@, text@),
{
    match regex::Regex::new(pattern) {
        Ok(re) => re.is_match(text),
        Err(_) => false,
    }
}

/// The pattern of a mainland-China cellphone number.
pub const CELLPHONE_REGEX_STRING: &'static str = r"^1[3-9]\d{9}$";

/// Whether a text is a valid email address.
pub open spec fn email_ok(text: Seq<char>) -> bool {
    spec_email_valid(text)
}

/// Whether a text is a cellphone number.
pub open spec fn cellphone_ok(text: Seq<char>) -> bool {
    spec_regex_match(CELLPHONE_REGEX_STRING@, text)
}

/// Whether a text is a valid email address.
pub fn is_valid_email(text: &str) -> (r: bool)
    ensures
        r == email_ok(text@),
{
    email_address::EmailAddress::is_valid(text)
}

/// Whether a text is a cellphone number.
pub fn is_valid_cellphone(text: &str) -> (r: bool)
    ensures
        r == cellphone_ok(text@),
{
    regex_matches(CELLPHONE_REGEX_STRING, text)
}

/// The kinds of login account.
#[derive(Clone, Copy, Debug, PartialEq, Eq, Structural)]
pub enum LoginInfoType {
    Cellphone,
    Email,
    Username,
}

/// The name a kind of login account is stored under.
pub open spec fn login_type_name(t: LoginInfoType) -> Seq<char> {
    match t {
        LoginInfoType::Cellphone => seq!['C', 'e', 'l', 'l', 'p', 'h', 'o', 'n', 'e'],
        LoginInfoType::Email => seq!['E', 'm', 'a', 'i', 'l'],
        LoginInfoType::Username => seq!['U', 's', 'e', 'r', 'n', 'a', 'm', 'e'],
    }
}

impl LoginInfoType {
    /// The name the kind is stored under: `Cellphone`, `Email` or `Username`.
    pub fn as_str(&self) -> (r: &'static str)
        ensures
            r@ == login_type_name(*self),
    {
        proof {
            reveal_strlit("Cellphone");
            reveal_strlit("Email");
            reveal_strlit("Username");
        }
        match self {
            LoginInfoType::Cellphone => "Cellphone",
            LoginInfoType::Email => "Email",
            LoginInfoType::Username => "Username",
        }
    }
}

/// A login account to record for a user.
pub struct LoginAccount {
    pub account: String,
    pub kind: LoginInfoType,
}

} // verus!
