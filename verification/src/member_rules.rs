//! The rules for a merchant's members, their top-ups, and its service types.

use vstd::prelude::*;
use crate::api::{ApiError, BAD_REQUEST, NOT_FOUND, INTERNAL_SERVER_ERROR, outcome_is};

verus! {

/// A member with that cellphone number exists at the merchant.
pub const MEMBER_EXISTS: &'static str = "已添加该手机号的理发师";

/// No such member at the merchant.
pub const MEMBER_NOT_FOUND: &'static str = "会员不存在";

/// Another member of the merchant has that cellphone number.
pub const CELLPHONE_IN_USE: &'static str = "该手机号已被使用";

/// A top-up must be positive.
pub const RECHARGE_NOT_POSITIVE: &'static str = "充值金额必须大于0";

/// A service type of that name exists at the merchant.
pub const SERVICE_TYPE_EXISTS: &'static str = "已存在该服务名称";

/// No such service type at the merchant.
pub const SERVICE_TYPE_NOT_FOUND: &'static str = "服务类型不存在";

/// Checks a new member: `cellphone_taken` tells whether an enabled member of the
/// merchant has the cellphone number.
pub fn check_new_member(cellphone_taken: bool) -> (r: Result<(), ApiError>)
    ensures
        outcome_is(r, if cellphone_taken { Err((BAD_REQUEST, MEMBER_EXISTS@)) } else { Ok(()) }),
{
    if cellphone_taken {
        Err(ApiError::new(BAD_REQUEST, MEMBER_EXISTS))
    } else {
        Ok(())
    }
}

/// Checks that the member a request names exists at the merchant.
pub fn check_member_exists(member_found: bool) -> (r: Result<(), ApiError>)
    ensures
        outcome_is(r, if member_found { Ok(()) } else { Err((BAD_REQUEST, MEMBER_NOT_FOUND@)) }),
{
    if member_found {
        Ok(())
    } else {
        Err(ApiError::new(BAD_REQUEST, MEMBER_NOT_FOUND))
    }
}

/// The outcome of checking a member edit: the member must exist, and no other
/// member of the merchant may have the new cellphone number.
pub open spec fn member_update_outcome(member_found: bool, cellphone_used_by_other: bool) -> Result<(), (u16, Seq<char>)> {
    if !member_found {
        Err((BAD_REQUEST, MEMBER_NOT_FOUND@))
    } else if cellphone_used_by_other {
        Err((BAD_REQUEST, CELLPHONE_IN_USE@))
    } else {
        Ok(())
    }
}

/// Checks a member edit.
pub fn check_member_update(member_found: bool, cellphone_used_by_other: bool) -> (r: Result<(), ApiError>)
    ensures
        outcome_is(r, member_update_outcome(member_found, cellphone_used_by_other)),
{
    if !member_found {
        Err(ApiError::new(BAD_REQUEST, MEMBER_NOT_FOUND))
    } else if cellphone_used_by_other {
        Err(ApiError::new(BAD_REQUEST, CELLPHONE_IN_USE))
    } else {
        Ok(())
    }
}

/// The outcome of checking a top-up: the member must exist and the amount be positive.
pub open spec fn recharge_outcome(member_found: bool, amount_positive: bool) -> Result<(), (u16, Seq<char>)> {
    if !member_found {
        Err((BAD_REQUEST, MEMBER_NOT_FOUND@))
    } else if !amount_positive {
        Err((BAD_REQUEST, RECHARGE_NOT_POSITIVE@))
    } else {
        Ok(())
    }
}

/// The sign (-1, 0 or 1) of the number that `bigdecimal::BigDecimal::from_str` reads
/// from a decimal text; `None` when the text does not read.
pub uninterp spec fn spec_decimal_sign(text: Seq<char>) -> Option<int>;

/// Calls `bigdecimal::BigDecimal::from_str` and `BigDecimal::sign`, and gives the sign
/// as -1, 0 or 1; the result is named, not written out.
#[verifier::external_body]
fn decimal_sign(text: &str) -> (r: Option<i8>)
    ensures
        match r {
            Some(s) => spec_decimal_sign(text@) == Some(s as int) && -1 <= s <= 1,
            None => spec_decimal_sign(text@) is None,
        },
{
    let d = text.parse::<bigdecimal::BigDecimal>().ok()?;
    match d.sign() {
        bigdecimal::num_bigint::Sign::Minus => Some(-1),
        bigdecimal::num_bigint::Sign::NoSign => Some(0),
        bigdecimal::num_bigint::Sign::Plus => Some(1),
    }
}

/// Checks a top-up of the amount written as a decimal text: the member must exist and
/// the amount be greater than zero (a text that does not read as a number is not).
pub fn check_recharge_amount(member_found: bool, amount: &str) -> (r: Result<(), ApiError>)
    ensures
        outcome_is(r, recharge_outcome(member_found, spec_decimal_sign(amount@) == Some(1int))),
{
    let positive = match decimal_sign(amount) {
        Some(s) => s == 1,
        None => false,
    };
    check_recharge(member_found, positive)
}

/// Checks a top-up.
pub fn check_recharge(member_found: bool, amount_positive: bool) -> (r: Result<(), ApiError>)
    ensures
        outcome_is(r, recharge_outcome(member_found, amount_positive)),
{
    if !member_found {
        Err(ApiError::new(BAD_REQUEST, MEMBER_NOT_FOUND))
    } else if !amount_positive {
        Err(ApiError::new(BAD_REQUEST, RECHARGE_NOT_POSITIVE))
    } else {
        Ok(())
    }
}

/// Checks a new service type: `name_taken` is the answer of the lookup for an enabled
/// service type of that name at the merchant, `None` when the lookup failed (which
/// does not stop the request).
pub fn check_new_service_type(name_taken: Option<bool>) -> (r: Result<(), ApiError>)
    ensures
        outcome_is(r, if name_taken == Some(true) { Err((INTERNAL_SERVER_ERROR, SERVICE_TYPE_EXISTS@)) } else { Ok(()) }),
{
    match name_taken {
        Some(true) => Err(ApiError::new(INTERNAL_SERVER_ERROR, SERVICE_TYPE_EXISTS)),
        _ => Ok(()),
    }
}

/// Checks that the service type a request names exists at the merchant.
pub fn check_service_type_exists(found: bool) -> (r: Result<(), ApiError>)
    ensures
        outcome_is(r, if found { Ok(()) } else { Err((NOT_FOUND, SERVICE_TYPE_NOT_FOUND@)) }),
{
    if found {
        Ok(())
    } else {
        Err(ApiError::new(NOT_FOUND, SERVICE_TYPE_NOT_FOUND))
    }
}

} // verus!
