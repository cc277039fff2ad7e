//! Properties of the library that span several of its operations.

use vstd::prelude::*;
use crate::auth::{Identity, permission_outcome, has_code, has_all_codes, no_login_message};
use crate::account_rules::{registration_outcome, account_kind, barber_login_outcome, spec_argon2_verify};
use crate::barber_rules::{
    new_barber_outcome, contacts_outcome, barber_update_outcome, update_info_outcome, LoginInfoChanges,
    UpdateInfoRequest, UpdateInfoPlan, BARBER_NOT_FOUND, CONTACT_REQUIRED, PASSWORD_PAIR,
};
use crate::member_rules::{member_update_outcome, MEMBER_NOT_FOUND, CELLPHONE_IN_USE};
use crate::contact::{spec_email_valid, spec_regex_match, CELLPHONE_REGEX_STRING, LoginInfoType};
use crate::config::SessionTimeouts;
use crate::cookie::{all_cookie_pieces, last_named, request_cookie, spec_unseal, spec_cookie_pair, cookie_pieces, lemma_sent_piece_reads_back};
use crate::contact::{email_ok, cellphone_ok};
use crate::ids::spec_uuid_parse;
use crate::listing::whole_minutes;
use crate::permissions::{colon_free, first_segment, second_segment, entry_permission, selected_permissions};
use crate::session::{committed_expiry, is_fresh_session, AxumSession};
use crate::session_data::SessionData;
use crate::session_id::{SessionIdType, id_text, id_type_of, guid_of, valid_session_id_text, lemma_id_text_type, lemma_guid_of_id_text};
use crate::ids::uuid_text;
use crate::session_data::AxumSessionDataView;
use crate::session_store::{memory_load, unexpired_part, database_record_of, from_database_view};

verus! {

/// A session entry reads back as the value last written under its name, and
/// writing one entry leaves the others as they were.
pub proof fn law_session_entry_read_after_write(
    before: Map<Seq<char>, Seq<char>>,
    key: Seq<char>,
    value: Seq<char>,
    other: Seq<char>,
)
    requires
        other != key,
    ensures
        before.insert(key, value).contains_key(key),
        before.insert(key, value)[key] == value,
        before.insert(key, value).contains_key(other) == before.contains_key(other),
        before.contains_key(other) ==> before.insert(key, value)[other] == before[other],
{
}

/// Session data kept in memory is what a later load of its UUID gives back, when the
/// session database has nothing for it; memory is then unchanged.
pub proof fn law_memory_store_then_load(
    m: Map<u128, AxumSessionDataView>,
    d: AxumSessionDataView,
    now: int,
    timeout: int,
)
    ensures
        memory_load(m.insert(d.session_id, d), d.session_id, None, now, timeout) == (
            d,
            m.insert(d.session_id, d),
        ),
{
}

/// What the session database gives wins over memory, and memory is left as it is.
pub proof fn law_database_data_wins(
    m: Map<u128, AxumSessionDataView>,
    session_id: u128,
    d: AxumSessionDataView,
    now: int,
    timeout: int,
)
    ensures
        memory_load(m, session_id, Some(d), now, timeout) == (d, m),
{
}

/// Loading an unknown UUID from memory begins a new anonymous session, and a second
/// load at any later time gives that same data back.
pub proof fn law_new_session_kept(
    m: Map<u128, AxumSessionDataView>,
    session_id: u128,
    now: int,
    later: int,
    timeout: int,
)
    requires
        !m.contains_key(session_id),
    ensures
        ({
            let (d, m2) = memory_load(m, session_id, None, now, timeout);
            &&& d.session_id == session_id && d.user_id is None && d.data == Map::<Seq<char>, Seq<char>>::empty()
            &&& memory_load(m2, session_id, None, later, timeout) == (d, m2)
        }),
{
}

/// Clearing expired sessions at `now` keeps exactly the sessions still alive then,
/// unchanged.
pub proof fn law_clear_expired_keeps_exactly_alive(m: Map<u128, AxumSessionDataView>, now: int, k: u128)
    ensures
        unexpired_part(m, now).contains_key(k) <==> (m.contains_key(k) && m[k].expiry_time > now),
        unexpired_part(m, now).contains_key(k) ==> unexpired_part(m, now)[k] == m[k],
{
}

/// An anonymous session committed at `now` before it expired is kept in memory with
/// the anonymous lifetime from `now`, and a load at a `later` time within that
/// lifetime finds it alive and gives it back unchanged.
pub proof fn law_committed_anonymous_session_survives(
    m: Map<u128, AxumSessionDataView>,
    d: AxumSessionDataView,
    now: int,
    later: int,
    timeouts: SessionTimeouts,
)
    requires
        d.user_id is None,
        d.expiry_time > now,
        now <= later < now + timeouts.memory_clear(),
    ensures
        ({
            let c = AxumSessionDataView { expiry_time: committed_expiry(d, now, timeouts), ..d };
            let m2 = m.insert(c.session_id, c);
            &&& c.expiry_time == now + timeouts.memory_clear()
            &&& memory_load(m2, c.session_id, None, later, timeouts.memory_clear()).0 == c
            &&& c.expiry_time > later
        }),
{
}

/// Without a signed-in identity every permission check is refused with `No login.`.
pub proof fn law_no_login_refused(perms: Seq<&str>)
    ensures
        permission_outcome(None, perms) == Err::<(), Seq<char>>(no_login_message()),
{
}

/// A signed-in identity passes the check for no permission at all.
pub proof fn law_signed_in_passes_empty_check(identity: Identity)
    ensures
        permission_outcome(Some(identity), Seq::<&str>::empty()) == Ok::<(), Seq<char>>(()),
{
}

/// Asking for fewer permissions never turns an accepted check into a refusal: if an
/// identity holds every code of `p`, it holds every code of `q` whose codes all occur in `p`.
pub proof fn law_permission_check_monotone(identity: Option<Identity>, p: Seq<&str>, q: Seq<&str>)
    requires
        forall|j: int| 0 <= j < q.len() ==> exists|i: int| 0 <= i < p.len() && #[trigger] p[i]@ == #[trigger] q[j]@,
        permission_outcome(identity, p) is Ok,
    ensures
        permission_outcome(identity, q) is Ok,
{
    let id = identity->0;
    assert forall|j: int| 0 <= j < q.len() implies has_code(id.permission_codes@, #[trigger] q[j]@) by {
        let i = choose|i: int| 0 <= i < p.len() && p[i]@ == q[j]@;
        assert(has_code(id.permission_codes@, p[i]@));
    }
}

/// Permission entries without a merchant part all apply, whatever the current merchant.
pub proof fn law_unscoped_entries_all_apply(entries: Seq<Seq<char>>, merchant_id: Option<u128>)
    requires
        forall|i: int| 0 <= i < entries.len() ==> colon_free(#[trigger] entries[i]) && spec_uuid_parse(entries[i]) is Some,
    ensures
        selected_permissions(entries, merchant_id) == Some(entries.map_values(|e: Seq<char>| spec_uuid_parse(e)->0)),
    decreases entries.len(),
{
    if entries.len() > 0 {
        let rest = entries.drop_last();
        assert forall|i: int| 0 <= i < rest.len() implies colon_free(#[trigger] rest[i]) && spec_uuid_parse(rest[i]) is Some by {
            assert(rest[i] == entries[i]);
        }
        law_unscoped_entries_all_apply(rest, merchant_id);
        let e = entries.last();
        assert(colon_free(entries[entries.len() - 1]));
        assert(first_segment(e) == e);
        assert(second_segment(e) is None);
        assert(entry_permission(e, merchant_id) == Some(Some(spec_uuid_parse(e)->0)));
        assert(rest.map_values(|e: Seq<char>| spec_uuid_parse(e)->0).push(spec_uuid_parse(e)->0)
            =~= entries.map_values(|e: Seq<char>| spec_uuid_parse(e)->0));
    } else {
        assert(entries.map_values(|e: Seq<char>| spec_uuid_parse(e)->0) =~= Seq::<u128>::empty());
    }
}

/// A new barber is accepted exactly when a contact is given and every contact given
/// is well formed and not yet a login account.
pub proof fn law_new_barber_accepted(
    email: Option<Seq<char>>,
    cellphone: Option<Seq<char>>,
    email_taken: bool,
    cellphone_taken: bool,
)
    ensures
        new_barber_outcome(email, cellphone, email_taken, cellphone_taken) is Ok <==> {
            &&& (email is Some || cellphone is Some)
            &&& email is Some ==> email_ok(email->0) && !email_taken
            &&& cellphone is Some ==> cellphone_ok(cellphone->0) && !cellphone_taken
        },
{
}

/// Accepted contacts are well formed and belong to no other user, and a login account
/// is added exactly for a contact that is nobody's yet.
pub proof fn law_accepted_contacts(
    email: Option<Seq<char>>,
    cellphone: Option<Seq<char>>,
    user_id: u128,
    email_owner: Option<u128>,
    cellphone_owner: Option<u128>,
    email_used: Seq<char>,
    cellphone_used: Seq<char>,
    changes: LoginInfoChanges,
)
    requires
        contacts_outcome(email, cellphone, user_id, email_owner, cellphone_owner, email_used, cellphone_used)
            == Ok::<LoginInfoChanges, (u16, Seq<char>)>(changes),
    ensures
        email is Some ==> email_ok(email->0) && (email_owner is None || email_owner == Some(user_id)),
        cellphone is Some ==> cellphone_ok(cellphone->0) && (cellphone_owner is None || cellphone_owner
            == Some(user_id)),
        changes.insert_email <==> email is Some && email_owner is None,
        changes.insert_cellphone <==> cellphone is Some && cellphone_owner is None,
{
}

/// Edited contacts are accepted exactly when each given contact is well formed and
/// is either nobody's login account yet or already the edited user's own; a login
/// account is planned exactly for each given contact that is nobody's yet.
pub proof fn law_contacts_accepted_exactly(
    email: Option<Seq<char>>,
    cellphone: Option<Seq<char>>,
    user_id: u128,
    email_owner: Option<u128>,
    cellphone_owner: Option<u128>,
    email_used: Seq<char>,
    cellphone_used: Seq<char>,
)
    ensures
        contacts_outcome(email, cellphone, user_id, email_owner, cellphone_owner, email_used, cellphone_used) is Ok
            <==> {
            &&& email is Some ==> email_ok(email->0) && (email_owner is None || email_owner == Some(user_id))
            &&& cellphone is Some ==> cellphone_ok(cellphone->0) && (cellphone_owner is None || cellphone_owner
                == Some(user_id))
        },
        contacts_outcome(email, cellphone, user_id, email_owner, cellphone_owner, email_used, cellphone_used)
            matches Ok(changes) ==> {
            &&& changes.insert_email <==> email is Some && email_owner is None
            &&& changes.insert_cellphone <==> cellphone is Some && cellphone_owner is None
        },
{
}

/// A barber edit is accepted exactly when a contact is given, the barber exists at the
/// merchant, and each given contact is well formed and nobody's login account or the
/// barber's own; it plans a login account for each given contact that is nobody's yet.
/// An edit of a missing barber with a contact is answered 404.
pub proof fn law_barber_update_accepted(
    email: Option<Seq<char>>,
    cellphone: Option<Seq<char>>,
    barber_user: Option<u128>,
    email_owner: Option<u128>,
    cellphone_owner: Option<u128>,
)
    ensures
        barber_update_outcome(email, cellphone, barber_user, email_owner, cellphone_owner) is Ok <==> {
            &&& email is Some || cellphone is Some
            &&& barber_user is Some
            &&& email is Some ==> email_ok(email->0) && (email_owner is None || email_owner == barber_user)
            &&& cellphone is Some ==> cellphone_ok(cellphone->0) && (cellphone_owner is None || cellphone_owner
                == barber_user)
        },
        barber_update_outcome(email, cellphone, barber_user, email_owner, cellphone_owner) matches Ok(changes) ==> {
            &&& changes.insert_email <==> email is Some && email_owner is None
            &&& changes.insert_cellphone <==> cellphone is Some && cellphone_owner is None
        },
        email is None && cellphone is None ==> barber_update_outcome(
            email,
            cellphone,
            barber_user,
            email_owner,
            cellphone_owner,
        ) == Err::<LoginInfoChanges, (u16, Seq<char>)>((400u16, CONTACT_REQUIRED@)),
        (email is Some || cellphone is Some) && barber_user is None ==> barber_update_outcome(
            email,
            cellphone,
            barber_user,
            email_owner,
            cellphone_owner,
        ) == Err::<LoginInfoChanges, (u16, Seq<char>)>((404u16, BARBER_NOT_FOUND@)),
{
}

/// A member edit is refused as a missing member whenever the member is not found,
/// whatever the cellphone check says; for a member that is found it is accepted
/// exactly when no other member has the number, and refused as a number in use else.
pub proof fn law_member_update(member_found: bool, cellphone_used_by_other: bool)
    ensures
        !member_found ==> member_update_outcome(member_found, cellphone_used_by_other) == Err::<
            (),
            (u16, Seq<char>),
        >((400u16, MEMBER_NOT_FOUND@)),
        member_found && cellphone_used_by_other ==> member_update_outcome(member_found, cellphone_used_by_other)
            == Err::<(), (u16, Seq<char>)>((400u16, CELLPHONE_IN_USE@)),
        member_update_outcome(member_found, cellphone_used_by_other) is Ok <==> member_found
            && !cellphone_used_by_other,
{
}

/// An own-account edit is accepted exactly when an old password comes with a new one
/// and each given contact is well formed and nobody's login account or the user's own.
/// An accepted edit plans a login account for each given contact that is nobody's
/// yet, and a password change exactly when an old password is given.
pub proof fn law_update_info_accepted(
    req: UpdateInfoRequest,
    user_id: u128,
    email_owner: Option<u128>,
    cellphone_owner: Option<u128>,
)
    ensures
        update_info_outcome(req, user_id, email_owner, cellphone_owner) is Ok <==> {
            &&& req.old_password is Some ==> req.new_password is Some
            &&& req.email is Some ==> email_ok(req.email->0@) && (email_owner is None || email_owner == Some(
                user_id,
            ))
            &&& req.cellphone is Some ==> cellphone_ok(req.cellphone->0@) && (cellphone_owner is None
                || cellphone_owner == Some(user_id))
        },
        update_info_outcome(req, user_id, email_owner, cellphone_owner) matches Ok(plan) ==> {
            &&& plan.logins.insert_email <==> req.email is Some && email_owner is None
            &&& plan.logins.insert_cellphone <==> req.cellphone is Some && cellphone_owner is None
            &&& plan.change_password <==> req.old_password is Some
        },
        req.old_password is Some && req.new_password is None ==> update_info_outcome(
            req,
            user_id,
            email_owner,
            cellphone_owner,
        ) == Err::<UpdateInfoPlan, (u16, Seq<char>)>((400u16, PASSWORD_PAIR@)),
{
}

/// A cellphone number is well formed exactly when the pattern `^1[3-9]\d{9}$` (a 1,
/// then a digit from 3 to 9, then nine digits) matches it.
pub proof fn law_cellphone_pattern(text: Seq<char>)
    ensures
        CELLPHONE_REGEX_STRING@ == "^1[3-9]\\d{9}$"@,
        cellphone_ok(text) == spec_regex_match("^1[3-9]\\d{9}$"@, text),
{
    reveal_strlit("^1[3-9]\\d{9}$");
}

/// An email address is well formed exactly when `email_address::EmailAddress::is_valid`
/// accepts it, and an account text is an email account exactly then; otherwise it is a
/// cellphone account exactly when the cellphone pattern matches it.
pub proof fn law_email_and_account_kind(text: Seq<char>)
    ensures
        email_ok(text) == spec_email_valid(text),
        spec_email_valid(text) ==> account_kind(text) == Some(LoginInfoType::Email),
        !spec_email_valid(text) && spec_regex_match("^1[3-9]\\d{9}$"@, text) ==> account_kind(text) == Some(
            LoginInfoType::Cellphone,
        ),
        !spec_email_valid(text) && !spec_regex_match("^1[3-9]\\d{9}$"@, text) ==> account_kind(text) is None,
{
    law_cellphone_pattern(text);
}

/// A registration is accepted only for a free account of the kind the account text
/// is, under a free merchant name.
pub proof fn law_registration_accepted(account: Seq<char>, account_taken: bool, merchant_name_taken: bool)
    ensures
        registration_outcome(account, account_taken, merchant_name_taken) is Ok <==> account_kind(account)
            is Some && !account_taken && !merchant_name_taken,
        registration_outcome(account, account_taken, merchant_name_taken) is Ok ==> account_kind(account)
            == Some(registration_outcome(account, account_taken, merchant_name_taken)->Ok_0),
{
}

/// A sign-in succeeds only for a registered account with a password login whose hash
/// reads, and for a barber of a merchant; it gives that user and that merchant.
pub proof fn law_login_success(
    login_user: Option<u128>,
    password_hash: Option<Seq<char>>,
    password: Seq<char>,
    barber_merchant: Option<u128>,
    user: u128,
    merchant: u128,
)
    requires
        barber_login_outcome(login_user, password_hash, password, barber_merchant) == Ok::<
            (u128, u128),
            (u16, Seq<char>),
        >((user, merchant)),
    ensures
        login_user == Some(user),
        barber_merchant == Some(merchant),
        password_hash is Some,
        spec_argon2_verify(password_hash->0, password) is Ok,
{
}

/// Reversing an interval negates its whole minutes.
pub proof fn law_minutes_antisymmetric(start: int, end: int)
    ensures
        whole_minutes(end, start) == -whole_minutes(start, end),
        end >= start ==> whole_minutes(start, end) >= 0,
{
}

/// The data of a signed-in session that a commit hands to the session database reads
/// back from its record as the same data.
pub proof fn law_database_record_round_trip(d: AxumSessionDataView, user_id: u128, r: SessionData)
    requires
        d.user_id == Some(user_id),
        database_record_of(d, user_id, r),
    ensures
        from_database_view(r) == d,
{
}

/// After a sign-in the identifier sent back is a cached-type one carrying the
/// session's UUID, so the next request looks the session up by that UUID; the
/// identifier of a new anonymous session is an empty-type one, never looked up.
pub proof fn law_identifier_after_sign_in_is_looked_up(g: u128)
    requires
        spec_uuid_parse(uuid_text(g)) == Some(g),
    ensures
        valid_session_id_text(id_text('c', g)),
        id_type_of(id_text('c', g)) == SessionIdType::Cached,
        guid_of(id_text('c', g)) == g,
        valid_session_id_text(id_text('e', g)),
        id_type_of(id_text('e', g)) == SessionIdType::Empty,
{
    lemma_id_text_type('c', g);
    lemma_id_text_type('e', g);
    lemma_guid_of_id_text('c', g);
    assert(id_text('c', g).skip(2) =~= uuid_text(g));
    assert(id_text('e', g).skip(2) =~= uuid_text(g));
}

/// A signed-out (or cleared) session belongs to no user, holds no entries and has an
/// empty-type identifier.
pub proof fn law_signed_out_session_is_anonymous(s: AxumSession, g: u128, now: int, timeouts: SessionTimeouts)
    requires
        is_fresh_session(s, g, now, timeouts),
    ensures
        s.session_data.user_id is None,
        s.session_data@.data == Map::<Seq<char>, Seq<char>>::empty(),
        id_type_of(s.session_id@) == SessionIdType::Empty,
        !s.is_modified,
{
    lemma_id_text_type('e', g);
}

/// A private session cookie reads back as the value that was sealed into it: when the
/// last cookie of that name a request carries is a text that unseals, under the key
/// material and the name, to `value`, the request's cookie value is `value`; without
/// key material it is the cookie's text itself.
pub proof fn law_private_cookie_round_trip(
    headers: Seq<Seq<char>>,
    name: Seq<char>,
    key: Seq<u8>,
    sealed: Seq<char>,
    value: Seq<char>,
)
    requires
        last_named(all_cookie_pieces(headers), name) == Some(sealed),
        spec_unseal(key, name, sealed) == Some(value),
    ensures
        request_cookie(headers, name, Some(key)) == Some(value),
        request_cookie(headers, name, None) == Some(sealed),
{
}

/// A barber whose stored hash is one the password verifies against (as the hash
/// written by a registration or a password change is, for the password it was made
/// from) signs in with that password, as that user, at that merchant.
pub proof fn law_stored_password_signs_in(user: u128, hash: Seq<char>, password: Seq<char>, merchant: u128)
    requires
        spec_argon2_verify(hash, password) == Ok::<bool, Seq<char>>(true),
    ensures
        barber_login_outcome(Some(user), Some(hash), password, Some(merchant)) == Ok::<
            (u128, u128),
            (u16, Seq<char>),
        >((user, merchant)),
{
}

/// A session cookie that was written reads back: when the piece of a `Set-Cookie`
/// text that a client sends back reads as the cookie's name and its (plain or sealed)
/// text, a request carrying that piece gives the written value for the name.
pub proof fn law_written_cookie_reads_back(
    t: Seq<char>,
    name: Seq<char>,
    sent: Seq<char>,
    value: Seq<char>,
    key: Option<Seq<u8>>,
)
    requires
        spec_cookie_pair(cookie_pieces(t)[0]) == Some((name, sent)),
        match key {
            None => sent == value,
            Some(k) => spec_unseal(k, name, sent) == Some(value),
        },
    ensures
        request_cookie(seq![cookie_pieces(t)[0]], name, key) == Some(value),
{
    lemma_sent_piece_reads_back(t, name, sent);
}

} // verus!
