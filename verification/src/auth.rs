//! The signed-in identity and the permission checks of the authentication layer.

use vstd::prelude::*;
use crate::clock::{clock_range, now_millis};
use crate::ids::new_uuid;
use crate::session::{AxumSession, IDENTITY_KEY, is_fresh_session, is_some_fresh_session};
use crate::session_data::AxumSessionDataView;
use crate::session_id::{id_text, guid_of};
use crate::text::{text_eq, copy_text};

verus! {

/// A permission as the identity lists it (times in milliseconds since the epoch).
pub struct Permission {
    pub permission_id: u128,
    pub permission_code: String,
    pub permission_name: String,
    pub description: String,
    pub enabled: bool,
    pub create_time: i64,
    pub update_time: i64,
    pub data: Option<String>,
}

/// A role as the identity lists it (times in milliseconds since the epoch).
pub struct Role {
    pub role_id: u128,
    pub role_code: String,
    pub role_name: String,
    pub permissions: String,
    pub description: String,
    pub enabled: bool,
    pub create_time: i64,
    pub update_time: i64,
    pub data: Option<String>,
}

/// Who is signed in: the user, their roles and permissions, and the permission codes
/// that the permission checks look at.
pub struct Identity {
    pub user_id: u128,
    pub roles: Vec<Role>,
    pub permissions: Vec<Permission>,
    pub permission_codes: Vec<String>,
}

impl Identity {
    /// The identity of a user with the given roles and permissions; its permission
    /// codes are those of the permissions, in order.
    pub fn new(user_id: u128, roles: Vec<Role>, permissions: Vec<Permission>) -> (r: Identity)
        ensures
            r.user_id == user_id,
            r.roles@ == roles@,
            r.permissions@ == permissions@,
            r.permission_codes@.len() == permissions@.len(),
            forall|i: int| 0 <= i < permissions@.len() ==> #[trigger] r.permission_codes@[i]@
                == permissions@[i].permission_code@,
    {
        let n = permissions.len();
        let mut codes: Vec<String> = Vec::new();
        let mut i: usize = 0;
        while i < n
            invariant
                n == permissions@.len(),
                0 <= i <= n,
                codes@.len() == i,
                forall|j: int| 0 <= j < i ==> #[trigger] codes@[j]@ == permissions@[j].permission_code@,
            decreases n - i,
        {
            codes.push(copy_text(permissions[i].permission_code.as_str()));
            i = i + 1;
        }
        Identity { user_id, roles, permissions, permission_codes: codes }
    }
}

/// Whether the codes include `p`.
pub open spec fn has_code(codes: Seq<String>, p: Seq<char>) -> bool {
    exists|i: int| 0 <= i < codes.len() && #[trigger] codes[i]@ == p
}

/// Whether the codes include every one of `perms`.
pub open spec fn has_all_codes(codes: Seq<String>, perms: Seq<&str>) -> bool {
    forall|j: int| 0 <= j < perms.len() ==> has_code(codes, #[trigger] perms[j]@)
}

/// The message of a permission check made without a signed-in identity.
pub open spec fn no_login_message() -> Seq<char> {
    seq!['N', 'o', ' ', 'l', 'o', 'g', 'i', 'n', '.']
}

/// The message of a permission check that the identity does not pass.
pub open spec fn no_permissions_message() -> Seq<char> {
    seq!['N', 'o', ' ', 'p', 'e', 'r', 'm', 'i', 's', 's', 'i', 'o', 'n', 's', '.']
}

/// The outcome of `require_permissions` for an identity and the codes asked for.
pub open spec fn permission_outcome(identity: Option<Identity>, perms: Seq<&str>) -> Result<(), Seq<char>> {
    match identity {
        None => Err(no_login_message()),
        Some(id) => if has_all_codes(id.permission_codes@, perms) {
            Ok(())
        } else {
            Err(no_permissions_message())
        },
    }
}

/// Whether one identity code is `p`.
fn codes_contain(codes: &Vec<String>, p: &str) -> (r: bool)
    ensures
        r == has_code(codes@, p@),
{
    let n = codes.len();
    let mut i: usize = 0;
    while i < n
        invariant
            n == codes@.len(),
            0 <= i <= n,
            forall|j: int| 0 <= j < i ==> codes@[j]@ != p@,
        decreases n - i,
    {
        if text_eq(codes[i].as_str(), p) {
            assert(codes@[i as int]@ == p@);
            return true;
        }
        i = i + 1;
    }
    false
}

/// Whether the codes include every one of `perms`.
fn codes_contain_all(codes: &Vec<String>, perms: &Vec<&str>) -> (r: bool)
    ensures
        r == has_all_codes(codes@, perms@),
{
    let n = perms.len();
    let mut j: usize = 0;
    while j < n
        invariant
            n == perms@.len(),
            0 <= j <= n,
            forall|k: int| 0 <= k < j ==> has_code(codes@, #[trigger] perms@[k]@),
        decreases n - j,
    {
        if !codes_contain(codes, perms[j]) {
            return false;
        }
        j = j + 1;
    }
    true
}

/// The authentication state of a request: the identity of the signed-in user, if any.
pub struct AuthSession {
    pub identity: Option<Identity>,
}

/// What signing `user_id` in does to the session `before`: a session that already
/// belongs to a user is first replaced by the new anonymous session with UUID `fresh`
/// begun at `now`; then the session is marked as the user's, with the cached-type
/// identifier of its UUID.
pub open spec fn sign_in_result(before: AxumSession, after: AxumSession, user_id: u128, fresh: u128, now: int) -> bool {
    &&& after.session_data.user_id == Some(user_id)
    &&& after.is_modified
    &&& after.timeouts == before.timeouts
    &&& before.session_data.user_id is None ==> after.session_data@ == (AxumSessionDataView {
        user_id: Some(user_id),
        ..before.session_data@
    }) && after.session_id@ == id_text('c', guid_of(before.session_id@))
    &&& before.session_data.user_id is Some ==> after.session_data@ == (AxumSessionDataView {
        user_id: Some(user_id),
        ..crate::session_data::initial_data(fresh, now, before.timeouts.memory_clear())
    }) && after.session_id@ == id_text('c', fresh)
}

impl AuthSession {
    /// Checks that a user is signed in and holds every permission code in `perms`:
    /// `Err("No login.")` without a signed-in identity, `Err("No permissions.")` when
    /// a code is missing.
    pub fn require_permissions(&self, perms: Vec<&str>) -> (r: Result<(), &'static str>)
        ensures
            match (r, permission_outcome(self.identity, perms@)) {
                (Ok(()), Ok(())) => true,
                (Err(m), Err(e)) => m@ == e,
                _ => false,
            },
    {
        proof {
            reveal_strlit("No login.");
            reveal_strlit("No permissions.");
        }
        match &self.identity {
            None => Err("No login."),
            Some(identity) => if codes_contain_all(&identity.permission_codes, &perms) {
                Ok(())
            } else {
                Err("No permissions.")
            },
        }
    }

    /// Signs `user_id` in on the session: a session that already belongs to a user is
    /// first replaced by the new anonymous session with UUID `fresh` begun at `now`;
    /// then the session is marked as the user's. The identity is stored afterwards
    /// with `refresh_identity`.
    pub fn sign_in_at(session: &mut AxumSession, user_id: u128, fresh: u128, now: i64)
        requires
            clock_range(now as int),
        ensures
            sign_in_result(*old(session), *final(session), user_id, fresh, now as int),
    {
        if session.get_logined_user_id().is_some() {
            session.clear_at(fresh, now);
        }
        session.set_user_id(user_id);
    }

    /// Signs `user_id` in on the session, now (see `sign_in_at`); a new session gets a
    /// random UUID.
    pub fn sign_in(session: &mut AxumSession, user_id: u128)
        ensures
            exists|fresh: u128, now: int|
                clock_range(now) && #[trigger] sign_in_result(*old(session), *final(session), user_id, fresh, now),
    {
        let fresh = new_uuid();
        let now = now_millis();
        Self::sign_in_at(session, user_id, fresh, now);
    }

    /// Stores the signed-in user's identity (as JSON) in the session; a session
    /// without a user is left as it is.
    pub fn refresh_identity(session: &mut AxumSession, identity_json: String)
        ensures
            old(session).session_data.user_id is None ==> *final(session) == *old(session),
            old(session).session_data.user_id is Some ==> final(session).session_data@ == (
            AxumSessionDataView {
                data: old(session).session_data@.data.insert(IDENTITY_KEY@, identity_json@),
                ..old(session).session_data@
            }) && final(session).is_modified && final(session).session_id@ == id_text(
                'c',
                guid_of(old(session).session_id@),
            ),
    {
        if session.get_logined_user_id().is_some() {
            session.set_data(IDENTITY_KEY.to_owned(), identity_json);
        }
    }

    /// Signs out: the session becomes the new anonymous session with UUID `fresh`
    /// begun at `now`.
    pub fn sign_out_at(session: &mut AxumSession, fresh: u128, now: i64)
        requires
            clock_range(now as int),
        ensures
            is_fresh_session(*final(session), fresh, now as int, old(session).timeouts),
    {
        session.clear_at(fresh, now);
    }

    /// Signs out: the session becomes a new anonymous session.
    pub fn sign_out(session: &mut AxumSession)
        ensures
            is_some_fresh_session(*final(session), old(session).timeouts),
    {
        session.clear();
    }

    /// The identity JSON a session stores, when it belongs to a user; the entry must
    /// be present in such a session.
    pub fn stored_identity(session: &AxumSession) -> (r: Option<&str>)
        requires
            session.session_data.user_id is Some ==> session.session_data.data@.contains_key(IDENTITY_KEY@),
        ensures
            session.session_data.user_id is None ==> r is None,
            session.session_data.user_id is Some ==> (r matches Some(t) && t@
                == session.session_data.data@[IDENTITY_KEY@]),
    {
        match session.get_logined_user_id() {
            Some(_) => Some(session.get_identity_str()),
            None => None,
        }
    }
}

} // verus!
