//! Merchant registration, barber sign-in, and password checks.

use vstd::prelude::*;
use crate::api::{ApiError, BAD_REQUEST, UNAUTHORIZED, outcome_is};
use crate::barber_rules::{EMAIL_TAKEN, CELLPHONE_TAKEN};
use crate::contact::{email_ok, cellphone_ok, is_valid_email, is_valid_cellphone, LoginInfoType};
use crate::text::copy_text;

verus! {

/// The login account is neither an email address nor a cellphone number.
pub const ACCOUNT_FORMAT: &'static str = "手机号或邮箱格式不正确";

/// A merchant of that name exists.
pub const MERCHANT_NAME_TAKEN: &'static str = "该商户名已存在";

/// No enabled login account has that name.
pub const NOT_REGISTERED: &'static str = "用户未注册";

/// The user has no enabled password login.
pub const LOGIN_DISABLED: &'static str = "用户禁止登录";

/// The password does not verify.
pub const PASSWORD_FAILED: &'static str = "密码验证失败";

/// The user is not an enabled barber of an enabled merchant.
pub const MERCHANT_LOGIN_FAILED: &'static str = "商户登录失败";

/// What `argon2::verify_encoded(hash, password)` gives, the error as its message.
pub uninterp spec fn spec_argon2_verify(hash: Seq<char>, password: Seq<char>) -> Result<bool, Seq<char>>;

/// What `argon2::hash_encoded(password, salt, &Config::default())` gives (`None` on error).
pub uninterp spec fn spec_argon2_hash(password: Seq<char>, salt: Seq<char>) -> Option<Seq<char>>;

/// Calls `argon2::verify_encoded` on the UTF-8 bytes of the password; an error comes
/// back as its message. The result is named, not written out.
#[verifier::external_body]
pub(crate) fn verify_password_hash(hash: &str, password: &str) -> (r: Result<bool, String>)
    ensures
        match (r, spec_argon2_verify(hash@, password@)) {
            (Ok(a), Ok(b)) => a == b,
            (Err(m), Err(n)) => m@ == n,
            _ => false,
        },
{
    match argon2::verify_encoded(hash, password.as_bytes()) {
        Ok(b) => Ok(b),
        Err(e) => Err(e.to_string()),
    }
}

/// Calls `argon2::hash_encoded` with the default configuration on the UTF-8 bytes of
/// the password and salt (`None` on error). The result is named, not written out.
/// Claimed besides the name: `argon2::verify_encoded` accepts the same password
/// against the encoded hash it gives (the hash records its salt and configuration).
#[verifier::external_body]
pub(crate) fn hash_password(password: &str, salt: &str) -> (r: Option<String>)
    ensures
        match (r, spec_argon2_hash(password@, salt@)) {
            (Some(a), Some(b)) => a@ == b && (spec_argon2_verify(a@, password@) matches Ok(v) && v),
            (None, None) => true,
            _ => false,
        },
{
    let config = argon2::Config::default();
    argon2::hash_encoded(password.as_bytes(), salt.as_bytes(), &config).ok()
}

/// The kind of login account a text is: an email address, else a cellphone number.
pub open spec fn account_kind(account: Seq<char>) -> Option<LoginInfoType> {
    if email_ok(account) {
        Some(LoginInfoType::Email)
    } else if cellphone_ok(account) {
        Some(LoginInfoType::Cellphone)
    } else {
        None
    }
}

/// The kind of login account a text is: an email address, else a cellphone number.
pub fn classify_login_account(account: &str) -> (r: Option<LoginInfoType>)
    ensures
        r == account_kind(account@),
{
    if is_valid_email(account) {
        Some(LoginInfoType::Email)
    } else if is_valid_cellphone(account) {
        Some(LoginInfoType::Cellphone)
    } else {
        None
    }
}

/// A request to register a merchant with its owner's account.
pub struct RegisterMerchantRequest {
    pub merchant_name: String,
    pub login_account: String,
    pub account_real_name: String,
    pub password: String,
}

/// The outcome of checking a registration: the account must be an email address or
/// a cellphone number not yet taken (`account_taken`: an enabled login account of
/// that kind has that name), and the merchant name must be free.
pub open spec fn registration_outcome(account: Seq<char>, account_taken: bool, merchant_name_taken: bool) -> Result<LoginInfoType, (u16, Seq<char>)> {
    match account_kind(account) {
        None => Err((BAD_REQUEST, ACCOUNT_FORMAT@)),
        Some(kind) => if account_taken {
            Err((BAD_REQUEST, if kind == LoginInfoType::Email { EMAIL_TAKEN@ } else { CELLPHONE_TAKEN@ }))
        } else if merchant_name_taken {
            Err((BAD_REQUEST, MERCHANT_NAME_TAKEN@))
        } else {
            Ok(kind)
        },
    }
}

/// Checks a registration; the kind of the owner's login account on success.
pub fn check_registration(req: &RegisterMerchantRequest, account_taken: bool, merchant_name_taken: bool) -> (r: Result<LoginInfoType, ApiError>)
    ensures
        outcome_is(r, registration_outcome(req.login_account@, account_taken, merchant_name_taken)),
{
    match classify_login_account(req.login_account.as_str()) {
        None => Err(ApiError::new(BAD_REQUEST, ACCOUNT_FORMAT)),
        Some(kind) => {
            if account_taken {
                match kind {
                    LoginInfoType::Email => Err(ApiError::new(BAD_REQUEST, EMAIL_TAKEN)),
                    _ => Err(ApiError::new(BAD_REQUEST, CELLPHONE_TAKEN)),
                }
            } else if merchant_name_taken {
                Err(ApiError::new(BAD_REQUEST, MERCHANT_NAME_TAKEN))
            } else {
                Ok(kind)
            }
        },
    }
}

/// The owner's email address and cellphone number, from the account and its kind.
pub fn owner_contacts(kind: LoginInfoType, account: &str) -> (r: (Option<String>, Option<String>))
    ensures
        kind == LoginInfoType::Email ==> (r.0 matches Some(e) && e@ == account@),
        kind != LoginInfoType::Email ==> r.0 is None,
        kind == LoginInfoType::Cellphone ==> (r.1 matches Some(c) && c@ == account@),
        kind != LoginInfoType::Cellphone ==> r.1 is None,
{
    match kind {
        LoginInfoType::Email => (Some(copy_text(account)), None),
        LoginInfoType::Cellphone => (None, Some(copy_text(account))),
        LoginInfoType::Username => (None, None),
    }
}

/// The description of a merchant owner's user: `Administrator of merchant {name}`.
pub fn owner_description(merchant_name: &str) -> (r: String)
    ensures
        r@ == "Administrator of merchant "@ + merchant_name@,
{
    let mut r = String::new();
    r.append("Administrator of merchant ");
    r.append(merchant_name);
    r
}

/// The outcome of a barber's password sign-in, from what the lookups found: the user
/// of the login account, the stored password hash, and the merchant of the user's
/// barber. On success, the user and the merchant. A password that fails to verify
/// only when the stored hash cannot be read is refused; a hash that reads but does
/// not match passes.
pub open spec fn barber_login_outcome(
    login_user: Option<u128>,
    password_hash: Option<Seq<char>>,
    password: Seq<char>,
    barber_merchant: Option<u128>,
) -> Result<(u128, u128), (u16, Seq<char>)> {
    match login_user {
        None => Err((UNAUTHORIZED, NOT_REGISTERED@)),
        Some(u) => match password_hash {
            None => Err((BAD_REQUEST, LOGIN_DISABLED@)),
            Some(h) => if spec_argon2_verify(h, password) is Err {
                Err((BAD_REQUEST, PASSWORD_FAILED@))
            } else {
                match barber_merchant {
                    None => Err((BAD_REQUEST, MERCHANT_LOGIN_FAILED@)),
                    Some(m) => Ok((u, m)),
                }
            },
        },
    }
}

/// Decides a barber's password sign-in.
pub fn check_barber_login(
    login_user: Option<u128>,
    password_hash: Option<&str>,
    password: &str,
    barber_merchant: Option<u128>,
) -> (r: Result<(u128, u128), ApiError>)
    ensures
        outcome_is(
            r,
            barber_login_outcome(
                login_user,
                match password_hash {
                    Some(h) => Some(h@),
                    None => None,
                },
                password@,
                barber_merchant,
            ),
        ),
{
    match login_user {
        None => Err(ApiError::new(UNAUTHORIZED, NOT_REGISTERED)),
        Some(u) => match password_hash {
            None => Err(ApiError::new(BAD_REQUEST, LOGIN_DISABLED)),
            Some(h) => match verify_password_hash(h, password) {
                Err(_) => Err(ApiError::new(BAD_REQUEST, PASSWORD_FAILED)),
                Ok(_) => match barber_merchant {
                    None => Err(ApiError::new(BAD_REQUEST, MERCHANT_LOGIN_FAILED)),
                    Some(m) => Ok((u, m)),
                },
            },
        },
    }
}

/// Checks a password against a stored hash: the hash's read error as the message, or
/// `密码验证失败` when the password does not match.
pub fn verify_password(password_hash: &str, password: &str) -> (r: Result<(), String>)
    ensures
        match spec_argon2_verify(password_hash@, password@) {
            Ok(true) => r is Ok,
            Ok(false) => r matches Err(m) && m@ == PASSWORD_FAILED@,
            Err(e) => r matches Err(m) && m@ == e,
        },
{
    match verify_password_hash(password_hash, password) {
        Err(m) => Err(m),
        Ok(true) => Ok(()),
        Ok(false) => Err(copy_text(PASSWORD_FAILED)),
    }
}

/// The stored hash of a password: argon2 with its default configuration and the
/// given salt; `None` when argon2 refuses the salt. The password verifies against it.
pub fn new_password_hash(password: &str, salt: &str) -> (r: Option<String>)
    ensures
        match r {
            Some(h) => spec_argon2_hash(password@, salt@) == Some(h@) && spec_argon2_verify(h@, password@)
                == Ok::<bool, Seq<char>>(true),
            None => spec_argon2_hash(password@, salt@) is None,
        },
{
    hash_password(password, salt)
}

/// The hashes a password change needs: that of the old password, to compare with the
/// stored one, and that of the new one, to store. `None` when argon2 refuses the salt
/// for either. The new password verifies against the new hash.
pub fn password_change_hashes(old_password: &str, new_password: &str, salt: &str) -> (r: Option<(String, String)>)
    ensures
        match (spec_argon2_hash(old_password@, salt@), spec_argon2_hash(new_password@, salt@)) {
            (Some(o), Some(n)) => r matches Some((x, y)) && x@ == o && y@ == n && spec_argon2_verify(y@, new_password@)
                == Ok::<bool, Seq<char>>(true),
            _ => r is None,
        },
{
    match hash_password(old_password, salt) {
        None => None,
        Some(old_hash) => match hash_password(new_password, salt) {
            None => None,
            Some(new_hash) => Some((old_hash, new_hash)),
        },
    }
}

} // verus!
