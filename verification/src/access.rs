//! Permission codes of the shop, and the access checks every handler makes first.

use vstd::prelude::*;
use crate::api::{ApiError, UNAUTHORIZED, INTERNAL_SERVER_ERROR};
use crate::auth::{AuthSession, permission_outcome};
use crate::ids::{parse_uuid, spec_uuid_parse, uuid_to_string};
use crate::session::AxumSession;
use crate::session_id::{id_text, guid_of};
use crate::session_data::AxumSessionDataView;

verus! {

/// Platform administrator.
pub const ALPHA_ADMINISTRATOR: &'static str = "AlphaAdministrator";

/// Merchant administrator.
pub const MERCHANT_ADMINISTRATOR: &'static str = "MerchantAdministrator";

/// Basic permission of a merchant's barber.
pub const BARBER_BASE: &'static str = "Barber_Base";

/// Basic permission of a customer.
pub const MEMBER_BASE: &'static str = "Member_Base";

/// Calendar of appointments.
pub const CANLENDAR: &'static str = "Canlendar";

/// Member management.
pub const MEMBER: &'static str = "Member";

/// Service types.
pub const SERVICE_TYPE: &'static str = "ServiceType";

/// Barber management.
pub const BARBER: &'static str = "Barber";

/// Statistics.
pub const STATISTIC: &'static str = "Statistic";

/// The permissions a merchant's owner gets besides the administrator permission.
pub fn administrator_permissions_of_tenancy_account() -> (r: Vec<&'static str>)
    ensures
        r@.len() == 6,
        r@[0]@ == BARBER_BASE@,
        r@[1]@ == CANLENDAR@,
        r@[2]@ == MEMBER@,
        r@[3]@ == SERVICE_TYPE@,
        r@[4]@ == BARBER@,
        r@[5]@ == STATISTIC@,
{
    vec![BARBER_BASE, CANLENDAR, MEMBER, SERVICE_TYPE, BARBER, STATISTIC]
}

/// The permissions a new barber of a merchant is offered by default.
pub fn default_permissions_of_merchant_barber() -> (r: Vec<&'static str>)
    ensures
        r@.len() == 3,
        r@[0]@ == "BARBER_BASE"@,
        r@[1]@ == CANLENDAR@,
        r@[2]@ == MEMBER@,
{
    vec!["BARBER_BASE", CANLENDAR, MEMBER]
}

/// The session entry that holds the merchant the signed-in barber works for.
pub const MERCHANT_ID_KEY: &'static str = "merchant_id";

/// The access check of a handler: the signed-in identity must hold `permission`;
/// otherwise the request is refused with 401 and the check's message.
pub fn authorize(auth: &AuthSession, permission: &str) -> (r: Result<(), ApiError>)
    ensures
        match (r, permission_outcome(auth.identity, seq![permission])) {
            (Ok(()), Ok(())) => true,
            (Err(e), Err(m)) => e.status == UNAUTHORIZED && e.message@ == m,
            _ => false,
        },
{
    let perms = vec![permission];
    assert(perms@ =~= seq![permission]);
    match auth.require_permissions(perms) {
        Ok(()) => Ok(()),
        Err(m) => Err(ApiError::new(UNAUTHORIZED, m)),
    }
}

/// The merchant a session's barber works for, as the session stores it; `None` when
/// the entry is missing or is not a UUID.
pub open spec fn session_merchant(data: Map<Seq<char>, Seq<char>>) -> Option<u128> {
    if data.contains_key(MERCHANT_ID_KEY@) {
        spec_uuid_parse(data[MERCHANT_ID_KEY@])
    } else {
        None
    }
}

/// The merchant the session's barber works for; `None` when the session holds no
/// such entry or it does not read as a UUID.
pub fn try_current_merchant_id(session: &AxumSession) -> (r: Option<u128>)
    ensures
        r == session_merchant(session.session_data.data@),
{
    match session.try_get_data(MERCHANT_ID_KEY) {
        Some(text) => parse_uuid(text.as_str()),
        None => None,
    }
}

/// Records in the session the merchant the signed-in barber works for.
pub fn set_merchant_id(session: &mut AxumSession, merchant_id: u128)
    ensures
        session_merchant(final(session).session_data.data@) == Some(merchant_id),
        final(session).session_data@ == (AxumSessionDataView {
            data: final(session).session_data@.data,
            ..old(session).session_data@
        }),
        final(session).session_data@.data.remove(MERCHANT_ID_KEY@) == old(session).session_data@.data.remove(
            MERCHANT_ID_KEY@,
        ),
        final(session).is_modified,
        final(session).session_id@ == id_text('c', guid_of(old(session).session_id@)),
        final(session).timeouts == old(session).timeouts,
{
    let text = uuid_to_string(merchant_id);
    let ghost t = text@;
    session.set_data(MERCHANT_ID_KEY.to_owned(), text);
    proof {
        assert(old(session).session_data@.data.insert(MERCHANT_ID_KEY@, t).remove(MERCHANT_ID_KEY@)
            =~= old(session).session_data@.data.remove(MERCHANT_ID_KEY@));
    }
}

/// The access check of the consumer handlers: without a signed-in identity the
/// request is refused with 401 `no login`; an identity without `permission` is refused
/// with 500 `no permission`.
pub fn check_consumer_access(auth: &AuthSession, permission: &str) -> (r: Result<(), ApiError>)
    ensures
        match r {
            Ok(()) => permission_outcome(auth.identity, seq![permission]) is Ok,
            Err(e) => match auth.identity {
                None => e.status == UNAUTHORIZED && e.message@ == "no login"@,
                Some(_) => permission_outcome(auth.identity, seq![permission]) is Err && e.status
                    == INTERNAL_SERVER_ERROR && e.message@ == "no permission"@,
            },
        },
{
    if auth.identity.is_none() {
        return Err(ApiError::new(UNAUTHORIZED, "no login"));
    }
    let perms = vec![permission];
    assert(perms@ =~= seq![permission]);
    match auth.require_permissions(perms) {
        Ok(()) => Ok(()),
        Err(_) => Err(ApiError::new(INTERNAL_SERVER_ERROR, "no permission")),
    }
}

} // verus!
