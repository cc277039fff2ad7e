//! The rules for adding, editing and removing a merchant's barbers, and for a barber
//! editing their own account.

use vstd::prelude::*;
use crate::api::{ApiError, BAD_REQUEST, NOT_FOUND, outcome_is, opt_view};
use crate::contact::{email_ok, cellphone_ok, is_valid_email, is_valid_cellphone, LoginAccount, LoginInfoType};
use crate::text::copy_text;
use crate::permissions::{has_permission_id, spec_json_uuid_list, stored_permission_ids};

verus! {

/// Neither a cellphone number nor an email address was given.
pub const CONTACT_REQUIRED: &'static str = "手机号码和邮箱不能同时为空";

/// The email address is malformed.
pub const EMAIL_FORMAT: &'static str = "邮箱格式不正确";

/// The email address is already a login account.
pub const EMAIL_TAKEN: &'static str = "邮箱已被占用";

/// The cellphone number is malformed.
pub const CELLPHONE_FORMAT: &'static str = "手机号码格式不正确";

/// The cellphone number is already a login account.
pub const CELLPHONE_TAKEN: &'static str = "手机号已被占用";

/// No such barber at this merchant.
pub const BARBER_NOT_FOUND: &'static str = "理发师不存在";

/// The email address is another user's login account.
pub const EMAIL_USED_BY_OTHER: &'static str = "该邮箱已被其他用户使用";

/// The cellphone number is another user's login account.
pub const CELLPHONE_USED_BY_OTHER: &'static str = "该手机号已被其他用户使用";

/// The merchant's owner cannot be removed.
pub const OWNER_CANNOT_BE_DELETED: &'static str = "门店所有者无法删除";

/// An old password was given without a new one.
pub const PASSWORD_PAIR: &'static str = "新密码和旧密码不匹配";

/// The email address is another user's login account (own-account edit).
pub const EMAIL_USED_CONTACT_ADMIN: &'static str = "邮箱已被其他用户使用，请联系管理员";

/// The cellphone number is another user's login account (own-account edit).
pub const CELLPHONE_USED_CONTACT_ADMIN: &'static str = "手机号已被其他用户使用，请联系管理员";

/// The old password does not match.
pub const OLD_PASSWORD_WRONG: &'static str = "旧密码不正确";

/// A merchant administrator's request to add or edit a barber.
pub struct BarberEditRequest {
    pub cellphone: Option<String>,
    pub real_name: String,
    pub email: Option<String>,
    pub permission_ids: Vec<u128>,
}

/// A barber's request to edit their own account and their merchant.
pub struct UpdateInfoRequest {
    pub real_name: String,
    pub cellphone: Option<String>,
    pub email: Option<String>,
    pub new_password: Option<String>,
    pub old_password: Option<String>,
    pub merchant_name: String,
    pub merchant_address: Option<String>,
    pub merchant_remark: Option<String>,
}

/// Which login accounts an edit must add for the user.
#[derive(Clone, Copy, Debug, PartialEq, Eq, Structural)]
pub struct LoginInfoChanges {
    pub insert_email: bool,
    pub insert_cellphone: bool,
}

/// What an own-account edit must do besides updating the barber and the merchant.
#[derive(Clone, Copy, Debug, PartialEq, Eq, Structural)]
pub struct UpdateInfoPlan {
    pub logins: LoginInfoChanges,
    pub change_password: bool,
}

/// The outcome of checking a new barber's contacts; `email_taken` and `cellphone_taken`
/// tell whether an enabled login account already has the given address or number.
pub open spec fn new_barber_outcome(
    email: Option<Seq<char>>,
    cellphone: Option<Seq<char>>,
    email_taken: bool,
    cellphone_taken: bool,
) -> Result<(), (u16, Seq<char>)> {
    if email is None && cellphone is None {
        Err((BAD_REQUEST, CONTACT_REQUIRED@))
    } else if email is Some && !email_ok(email->0) {
        Err((BAD_REQUEST, EMAIL_FORMAT@))
    } else if email is Some && email_taken {
        Err((BAD_REQUEST, EMAIL_TAKEN@))
    } else if cellphone is Some && !cellphone_ok(cellphone->0) {
        Err((BAD_REQUEST, CELLPHONE_FORMAT@))
    } else if cellphone is Some && cellphone_taken {
        Err((BAD_REQUEST, CELLPHONE_TAKEN@))
    } else {
        Ok(())
    }
}

/// Checks the contacts of a barber to be added.
pub fn check_new_barber(req: &BarberEditRequest, email_taken: bool, cellphone_taken: bool) -> (r: Result<(), ApiError>)
    ensures
        outcome_is(r, new_barber_outcome(opt_view(req.email), opt_view(req.cellphone), email_taken, cellphone_taken)),
{
    if req.email.is_none() && req.cellphone.is_none() {
        return Err(ApiError::new(BAD_REQUEST, CONTACT_REQUIRED));
    }
    if let Some(email) = &req.email {
        if !is_valid_email(email.as_str()) {
            return Err(ApiError::new(BAD_REQUEST, EMAIL_FORMAT));
        }
        if email_taken {
            return Err(ApiError::new(BAD_REQUEST, EMAIL_TAKEN));
        }
    }
    if let Some(cellphone) = &req.cellphone {
        if !is_valid_cellphone(cellphone.as_str()) {
            return Err(ApiError::new(BAD_REQUEST, CELLPHONE_FORMAT));
        }
        if cellphone_taken {
            return Err(ApiError::new(BAD_REQUEST, CELLPHONE_TAKEN));
        }
    }
    Ok(())
}

/// The login accounts recorded for a new barber: the email address, then the
/// cellphone number, each when given.
pub fn new_login_accounts(email: &Option<String>, cellphone: &Option<String>) -> (r: Vec<LoginAccount>)
    ensures
        r@.len() == (if email is Some { 1int } else { 0 }) + (if cellphone is Some { 1int } else { 0 }),
        email matches Some(e) ==> r@[0].account@ == e@ && r@[0].kind == LoginInfoType::Email,
        cellphone matches Some(c) ==> r@[r@.len() - 1].account@ == c@ && r@[r@.len() - 1].kind
            == LoginInfoType::Cellphone,
{
    let mut r: Vec<LoginAccount> = Vec::new();
    if let Some(e) = email {
        r.push(LoginAccount { account: copy_text(e.as_str()), kind: LoginInfoType::Email });
    }
    if let Some(c) = cellphone {
        r.push(LoginAccount { account: copy_text(c.as_str()), kind: LoginInfoType::Cellphone });
    }
    r
}

/// The outcome of checking edited contacts against the login accounts they already
/// are: `email_owner` and `cellphone_owner` are the users whose enabled login
/// accounts they are, if any. A contact is refused when malformed or owned by
/// another user than `user_id`; the accounts the user lacks are to be added.
pub open spec fn contacts_outcome(
    email: Option<Seq<char>>,
    cellphone: Option<Seq<char>>,
    user_id: u128,
    email_owner: Option<u128>,
    cellphone_owner: Option<u128>,
    email_used: Seq<char>,
    cellphone_used: Seq<char>,
) -> Result<LoginInfoChanges, (u16, Seq<char>)> {
    if email is Some && !email_ok(email->0) {
        Err((BAD_REQUEST, EMAIL_FORMAT@))
    } else if email is Some && email_owner is Some && email_owner->0 != user_id {
        Err((BAD_REQUEST, email_used))
    } else if cellphone is Some && !cellphone_ok(cellphone->0) {
        Err((BAD_REQUEST, CELLPHONE_FORMAT@))
    } else if cellphone is Some && cellphone_owner is Some && cellphone_owner->0 != user_id {
        Err((BAD_REQUEST, cellphone_used))
    } else {
        Ok(
            LoginInfoChanges {
                insert_email: email is Some && email_owner is None,
                insert_cellphone: cellphone is Some && cellphone_owner is None,
            },
        )
    }
}

fn check_contacts(
    email: &Option<String>,
    cellphone: &Option<String>,
    user_id: u128,
    email_owner: Option<u128>,
    cellphone_owner: Option<u128>,
    email_used: &str,
    cellphone_used: &str,
) -> (r: Result<LoginInfoChanges, ApiError>)
    ensures
        outcome_is(
            r,
            contacts_outcome(
                opt_view(*email),
                opt_view(*cellphone),
                user_id,
                email_owner,
                cellphone_owner,
                email_used@,
                cellphone_used@,
            ),
        ),
{
    if let Some(e) = email {
        if !is_valid_email(e.as_str()) {
            return Err(ApiError::new(BAD_REQUEST, EMAIL_FORMAT));
        }
        if let Some(owner) = email_owner {
            if owner != user_id {
                return Err(ApiError::new(BAD_REQUEST, email_used));
            }
        }
    }
    if let Some(c) = cellphone {
        if !is_valid_cellphone(c.as_str()) {
            return Err(ApiError::new(BAD_REQUEST, CELLPHONE_FORMAT));
        }
        if let Some(owner) = cellphone_owner {
            if owner != user_id {
                return Err(ApiError::new(BAD_REQUEST, cellphone_used));
            }
        }
    }
    Ok(
        LoginInfoChanges {
            insert_email: email.is_some() && email_owner.is_none(),
            insert_cellphone: cellphone.is_some() && cellphone_owner.is_none(),
        },
    )
}

/// The outcome of checking a barber edit: contacts are required; the barber must
/// exist at the merchant (`barber_user` is their user); then the contacts are checked.
pub open spec fn barber_update_outcome(
    email: Option<Seq<char>>,
    cellphone: Option<Seq<char>>,
    barber_user: Option<u128>,
    email_owner: Option<u128>,
    cellphone_owner: Option<u128>,
) -> Result<LoginInfoChanges, (u16, Seq<char>)> {
    if email is None && cellphone is None {
        Err((BAD_REQUEST, CONTACT_REQUIRED@))
    } else {
        match barber_user {
            None => Err((NOT_FOUND, BARBER_NOT_FOUND@)),
            Some(u) => contacts_outcome(
                email,
                cellphone,
                u,
                email_owner,
                cellphone_owner,
                EMAIL_USED_BY_OTHER@,
                CELLPHONE_USED_BY_OTHER@,
            ),
        }
    }
}

/// Checks a barber edit.
pub fn check_barber_update(
    req: &BarberEditRequest,
    barber_user: Option<u128>,
    email_owner: Option<u128>,
    cellphone_owner: Option<u128>,
) -> (r: Result<LoginInfoChanges, ApiError>)
    ensures
        outcome_is(
            r,
            barber_update_outcome(opt_view(req.email), opt_view(req.cellphone), barber_user, email_owner, cellphone_owner),
        ),
{
    if req.email.is_none() && req.cellphone.is_none() {
        return Err(ApiError::new(BAD_REQUEST, CONTACT_REQUIRED));
    }
    match barber_user {
        None => Err(ApiError::new(NOT_FOUND, BARBER_NOT_FOUND)),
        Some(u) => check_contacts(
            &req.email,
            &req.cellphone,
            u,
            email_owner,
            cellphone_owner,
            EMAIL_USED_BY_OTHER,
            CELLPHONE_USED_BY_OTHER,
        ),
    }
}

/// The outcome of checking a barber's own-account edit: an old password needs a new
/// one; then the contacts are checked; the password is to be changed when an old one
/// is given.
pub open spec fn update_info_outcome(
    req: UpdateInfoRequest,
    user_id: u128,
    email_owner: Option<u128>,
    cellphone_owner: Option<u128>,
) -> Result<UpdateInfoPlan, (u16, Seq<char>)> {
    if req.old_password is Some && req.new_password is None {
        Err((BAD_REQUEST, PASSWORD_PAIR@))
    } else {
        match contacts_outcome(
            opt_view(req.email),
            opt_view(req.cellphone),
            user_id,
            email_owner,
            cellphone_owner,
            EMAIL_USED_CONTACT_ADMIN@,
            CELLPHONE_USED_CONTACT_ADMIN@,
        ) {
            Err(e) => Err(e),
            Ok(logins) => Ok(UpdateInfoPlan { logins, change_password: req.old_password is Some }),
        }
    }
}

/// Checks a barber's own-account edit.
pub fn check_update_info(
    req: &UpdateInfoRequest,
    user_id: u128,
    email_owner: Option<u128>,
    cellphone_owner: Option<u128>,
) -> (r: Result<UpdateInfoPlan, ApiError>)
    ensures
        outcome_is(r, update_info_outcome(*req, user_id, email_owner, cellphone_owner)),
{
    if req.old_password.is_some() && req.new_password.is_none() {
        return Err(ApiError::new(BAD_REQUEST, PASSWORD_PAIR));
    }
    match check_contacts(
        &req.email,
        &req.cellphone,
        user_id,
        email_owner,
        cellphone_owner,
        EMAIL_USED_CONTACT_ADMIN,
        CELLPHONE_USED_CONTACT_ADMIN,
    ) {
        Err(e) => Err(e),
        Ok(logins) => Ok(UpdateInfoPlan { logins, change_password: req.old_password.is_some() }),
    }
}

/// Checks the old password of an own-account edit: `matches` tells whether its hash
/// is the stored one.
pub fn check_old_password(matches: bool) -> (r: Result<(), ApiError>)
    ensures
        outcome_is(r, if matches { Ok(()) } else { Err((BAD_REQUEST, OLD_PASSWORD_WRONG@)) }),
{
    if matches {
        Ok(())
    } else {
        Err(ApiError::new(BAD_REQUEST, OLD_PASSWORD_WRONG))
    }
}

/// Checks that a barber may be removed: `barber_permissions` is the stored permission
/// list of the barber's user, `None` when the barber does not exist at the merchant.
/// The owner, who holds the administrator permission, may not be removed. `None` when
/// the stored list does not read.
pub fn check_barber_removal(barber_permissions: Option<&str>, administrator: u128) -> (r: Option<Result<(), ApiError>>)
    ensures
        match barber_permissions {
            None => r matches Some(x) && outcome_is(x, Err((NOT_FOUND, BARBER_NOT_FOUND@))),
            Some(t) => match spec_json_uuid_list(t@) {
                None => r is None,
                Some(ids) => r matches Some(x) && outcome_is(
                    x,
                    if ids.contains(administrator) {
                        Err((BAD_REQUEST, OWNER_CANNOT_BE_DELETED@))
                    } else {
                        Ok(())
                    },
                ),
            },
        },
{
    match barber_permissions {
        None => Some(Err(ApiError::new(NOT_FOUND, BARBER_NOT_FOUND))),
        Some(t) => match stored_permission_ids(t) {
            None => None,
            Some(ids) => if has_permission_id(&ids, administrator) {
                Some(Err(ApiError::new(BAD_REQUEST, OWNER_CANNOT_BE_DELETED)))
            } else {
                Some(Ok(()))
            },
        },
    }
}

} // verus!
