//! The in-memory store of anonymous sessions (signed-in sessions go to the session
//! database, which the application reaches).

use vstd::prelude::*;
use dashmap::DashMap;
use crate::clock::{clock_range, now_millis};
use crate::config::SessionTimeouts;
use crate::session_data::{AxumSessionData, AxumSessionDataView, SessionData, initial_data};

verus! {

#[verifier::external_type_specification]
#[verifier::external_body]
#[verifier::reject_recursive_types(K)]
#[verifier::reject_recursive_types(V)]
#[verifier::reject_recursive_types(S)]
pub struct ExDashMap<K, V, S>(DashMap<K, V, S>);

/// The sessions a `DashMap` of session data holds, by UUID.
pub uninterp spec fn memory_sessions(m: DashMap<u128, AxumSessionData>) -> Map<u128, AxumSessionDataView>;

/// Calls `DashMap::new`: a map with no entries.
#[verifier::external_body]
fn sessions_new() -> (r: DashMap<u128, AxumSessionData>)
    ensures
        memory_sessions(r).is_empty(),
{
    DashMap::new()
}

/// Calls `DashMap::insert`: the entry for `key` is now `value`, the others are unchanged.
#[verifier::external_body]
fn sessions_insert(m: &mut DashMap<u128, AxumSessionData>, key: u128, value: AxumSessionData)
    ensures
        memory_sessions(*final(m)) == memory_sessions(*old(m)).insert(key, value@),
{
    m.insert(key, value);
}

/// Calls `DashMap::get` and clones the entry found: the entry for `key`, if there is one.
#[verifier::external_body]
fn sessions_get(m: &DashMap<u128, AxumSessionData>, key: u128) -> (r: Option<AxumSessionData>)
    ensures
        match r {
            Some(d) => memory_sessions(*m).contains_key(key) && d@ == memory_sessions(*m)[key],
            None => !memory_sessions(*m).contains_key(key),
        },
{
    match m.get(&key) {
        Some(entry) => Some(entry.value().clone()),
        None => None,
    }
}

/// The entries of `m` that have not expired at `now`.
pub open spec fn unexpired_part(m: Map<u128, AxumSessionDataView>, now: int) -> Map<u128, AxumSessionDataView> {
    Map::new(|k: u128| m.contains_key(k) && m[k].expiry_time > now, |k: u128| m[k])
}

/// Whether a session is still alive at `now`.
pub fn is_unexpired(data: &AxumSessionData, now: i64) -> (r: bool)
    ensures
        r == (data.expiry_time > now),
{
    data.expiry_time > now
}

/// Calls `DashMap::retain` with a test that keeps the sessions alive at `now`: exactly
/// the entries that have not expired remain.
#[verifier::external_body]
fn sessions_retain_unexpired(m: &mut DashMap<u128, AxumSessionData>, now: i64)
    ensures
        memory_sessions(*final(m)) == unexpired_part(memory_sessions(*old(m)), now as int),
{
    m.retain(|_k, v| is_unexpired(v, now));
}

/// The session data of a signed-in session read from the session database.
pub open spec fn from_database_view(r: SessionData) -> AxumSessionDataView {
    AxumSessionDataView {
        session_id: r.session_id,
        user_id: Some(r.user_id),
        init_time: r.init_time as int,
        expiry_time: r.expiry_time as int,
        data: r.data@,
    }
}

impl AxumSessionData {
    /// The session data of a signed-in session read from the session database.
    pub fn from_database(r: SessionData) -> (d: AxumSessionData)
        ensures
            d@ == from_database_view(r),
    {
        AxumSessionData {
            session_id: r.session_id,
            user_id: Some(r.user_id),
            init_time: r.init_time,
            expiry_time: r.expiry_time,
            data: r.data,
        }
    }
}

/// Loading the session `session_id` from memory `m`, after the session database gave
/// `from_database`: the data found and the memory afterwards. Database data wins;
/// else memory's; else a new anonymous session begun at `now` that lives `timeout`,
/// which memory then keeps.
pub open spec fn memory_load(
    m: Map<u128, AxumSessionDataView>,
    session_id: u128,
    from_database: Option<AxumSessionDataView>,
    now: int,
    timeout: int,
) -> (AxumSessionDataView, Map<u128, AxumSessionDataView>) {
    match from_database {
        Some(d) => (d, m),
        None => if m.contains_key(session_id) {
            (m[session_id], m)
        } else {
            let d = initial_data(session_id, now, timeout);
            (d, m.insert(session_id, d))
        },
    }
}

/// The anonymous sessions kept in memory, by UUID.
pub struct MemoryStore {
    sessions: DashMap<u128, AxumSessionData>,
}

impl View for MemoryStore {
    type V = Map<u128, AxumSessionDataView>;

    closed spec fn view(&self) -> Map<u128, AxumSessionDataView> {
        memory_sessions(self.sessions)
    }
}

/// The record that the session database keeps of signed-in session data.
pub open spec fn database_record_of(d: AxumSessionDataView, user_id: u128, r: SessionData) -> bool {
    &&& r.session_id == d.session_id
    &&& r.user_id == user_id
    &&& r.init_time as int == d.init_time
    &&& r.expiry_time as int == d.expiry_time
    &&& r.data@ == d.data
}

impl MemoryStore {
    /// A store with no sessions.
    pub fn new() -> (r: MemoryStore)
        ensures
            r@ == Map::<u128, AxumSessionDataView>::empty(),
    {
        MemoryStore { sessions: sessions_new() }
    }

    /// The session kept under a UUID, if any.
    pub fn get(&self, session_id: u128) -> (r: Option<AxumSessionData>)
        ensures
            match r {
                Some(d) => self@.contains_key(session_id) && d@ == self@[session_id],
                None => !self@.contains_key(session_id),
            },
    {
        sessions_get(&self.sessions, session_id)
    }

    /// Stores session data. Anonymous data is kept in memory under its UUID and
    /// `None` is returned; the data of a signed-in session is returned as the record
    /// the session database must store, and memory is unchanged.
    pub fn store(&mut self, data: &AxumSessionData) -> (r: Option<SessionData>)
        ensures
            match data.user_id {
                Some(u) => r matches Some(rec) && database_record_of(data@, u, rec) && final(self)@
                    == old(self)@,
                None => r is None && final(self)@ == old(self)@.insert(data.session_id, data@),
            },
    {
        match data.user_id {
            Some(user_id) => Some(
                SessionData {
                    session_id: data.session_id,
                    user_id,
                    init_time: data.init_time,
                    expiry_time: data.expiry_time,
                    data: data.data.clone(),
                },
            ),
            None => {
                let copy = data.clone();
                sessions_insert(&mut self.sessions, data.session_id, copy);
                None
            },
        }
    }

    /// Drops the sessions that have expired now.
    pub fn clear_expired(&mut self)
        ensures
            exists|now: int| clock_range(now) && final(self)@ == #[trigger] unexpired_part(old(self)@, now),
    {
        let now = now_millis();
        self.clear_expired_at(now);
    }

    /// The data of the session with the given UUID: what the session database gave
    /// (`from_database`), else what memory holds, else the data of a new anonymous
    /// session begun at `now`, which memory then keeps.
    pub fn load_or_init(
        &mut self,
        session_id: u128,
        from_database: Option<SessionData>,
        now: i64,
        timeouts: SessionTimeouts,
    ) -> (r: AxumSessionData)
        requires
            clock_range(now as int),
        ensures
            (r@, final(self)@) == memory_load(
                old(self)@,
                session_id,
                match from_database {
                    Some(rec) => Some(from_database_view(rec)),
                    None => None,
                },
                now as int,
                timeouts.memory_clear(),
            ),
    {
        match from_database {
            Some(rec) => AxumSessionData::from_database(rec),
            None => match sessions_get(&self.sessions, session_id) {
                Some(d) => d,
                None => {
                    let fresh = AxumSessionData::init(session_id, now, timeouts.memory_clear_timeout());
                    let copy = fresh.clone();
                    sessions_insert(&mut self.sessions, session_id, copy);
                    fresh
                },
            },
        }
    }

    /// Drops the sessions that have expired at `now`.
    pub fn clear_expired_at(&mut self, now: i64)
        ensures
            final(self)@ == unexpired_part(old(self)@, now as int),
    {
        sessions_retain_unexpired(&mut self.sessions, now);
    }
}

} // verus!

verus! {

/// The session layer's store: the anonymous sessions kept in memory and the settings.
pub struct AxumSessionStore {
    pub memory_store: MemoryStore,
    pub config: crate::config::AxumSessionConfig,
}

impl AxumSessionStore {
    /// A store with no sessions and the default settings.
    pub fn new() -> (r: AxumSessionStore)
        ensures
            r.memory_store@ == Map::<u128, AxumSessionDataView>::empty(),
            r.config.timeouts.idle() == crate::config::default_idle_timeout(),
            r.config.timeouts.memory_clear() == crate::config::default_memory_clear_timeout(),
            r.config.cookie_path@ == seq!['/'],
            r.config.cookie_http_only,
            !r.config.cookie_secure,
            r.config.cookie_domain is None,
            r.config.cookie_same_site == crate::config::CookieSameSite::Lax,
            r.config.key is None,
    {
        AxumSessionStore { memory_store: MemoryStore::new(), config: crate::config::AxumSessionConfig::default() }
    }

    /// Replaces the settings; the sessions stay.
    pub fn with_config(&mut self, config: crate::config::AxumSessionConfig)
        ensures
            final(self).config == config,
            final(self).memory_store@ == old(self).memory_store@,
    {
        self.config = config;
    }
}

} // verus!
