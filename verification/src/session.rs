//! A visitor's session: its identifier, its data, and whether it changed since it
//! was loaded.

use vstd::prelude::*;
use crate::clock::{clock_range, now_millis};
use crate::config::SessionTimeouts;
use crate::ids::new_uuid;
use crate::session_data::{AxumSessionData, AxumSessionDataView, initial_data, SessionData};
use crate::session_id::{SessionId, SessionIdType, id_text, id_type_of, guid_of, valid_session_id_text};
use crate::session_store::{MemoryStore, database_record_of, memory_load, from_database_view};

verus! {

/// The name of the request header, and of the cookie, that carries the session identifier.
pub const SESSION_ID_HEADER: &'static str = "X-SID";

/// The session entry that holds the signed-in user's identity, as JSON.
pub const IDENTITY_KEY: &'static str = "identity";

/// A session.
pub struct AxumSession {
    pub session_id: SessionId,
    pub session_data: AxumSessionData,
    pub is_modified: bool,
    pub timeouts: SessionTimeouts,
}

/// Whether `s` is the new anonymous session with UUID `guid` begun at `now`.
pub open spec fn is_fresh_session(s: AxumSession, guid: u128, now: int, timeouts: SessionTimeouts) -> bool {
    &&& s.session_id@ == id_text('e', guid)
    &&& guid_of(s.session_id@) == guid
    &&& s.session_data@ == initial_data(guid, now, timeouts.memory_clear())
    &&& !s.is_modified
    &&& s.timeouts == timeouts
}

/// Whether `s` is some new anonymous session begun at some time the clock can give.
pub open spec fn is_some_fresh_session(s: AxumSession, timeouts: SessionTimeouts) -> bool {
    exists|g: u128, t: int| clock_range(t) && #[trigger] is_fresh_session(s, g, t, timeouts)
}

/// The first step of loading a request's session.
pub enum LoadStart {
    /// The session is ready: a new anonymous one.
    Ready(AxumSession),
    /// The identifier names a kept session, whose data must be looked up.
    Lookup(SessionId),
}

/// What committing a session asks of the caller.
pub enum CommitOutcome {
    /// Nothing changed; nothing was stored.
    Unchanged,
    /// The anonymous session's data was stored in memory.
    StoredInMemory,
    /// The signed-in session's data must be stored in the session database; after
    /// that succeeds, `confirm_stored` marks the session unchanged.
    NeedsDatabase(SessionData),
}

/// The expiry time a commit at `now` gives to the session data `d`.
pub open spec fn committed_expiry(d: AxumSessionDataView, now: int, timeouts: SessionTimeouts) -> int {
    if d.expiry_time > now {
        if d.user_id is None {
            now + timeouts.memory_clear()
        } else {
            now + timeouts.idle()
        }
    } else {
        d.expiry_time
    }
}

/// What loading the session of identifier `id` does at `now`, with the session database's
/// answer `from_database`: memory goes from `before` to `after` as `memory_load` says, and
/// `r` is the session found if it is still alive at `now`, else the new anonymous one with
/// UUID `fresh`.
pub open spec fn lookup_result(
    before: Map<u128, AxumSessionDataView>,
    after: Map<u128, AxumSessionDataView>,
    id: SessionId,
    from_database: Option<SessionData>,
    fresh: u128,
    now: int,
    timeouts: SessionTimeouts,
    r: AxumSession,
) -> bool {
    let (d, m) = memory_load(
        before,
        guid_of(id@),
        match from_database {
            Some(rec) => Some(from_database_view(rec)),
            None => None,
        },
        now,
        timeouts.memory_clear(),
    );
    &&& after == m
    &&& d.expiry_time > now ==> r.session_id == id && r.session_data@ == d && !r.is_modified
        && r.timeouts == timeouts
    &&& d.expiry_time <= now ==> is_fresh_session(r, fresh, now, timeouts)
}

/// What committing the session `before` at `now` does: an unchanged session is left
/// as it is; a changed one gets the expiry `committed_expiry` gives; anonymous data is
/// then kept in memory and the session marked unchanged, signed-in data is handed back
/// as the record for the session database.
pub open spec fn commit_result(
    before: AxumSession,
    after: AxumSession,
    memory_before: Map<u128, AxumSessionDataView>,
    memory_after: Map<u128, AxumSessionDataView>,
    now: int,
    r: CommitOutcome,
) -> bool {
    if !before.is_modified {
        r is Unchanged && after == before && memory_after == memory_before
    } else {
        let d = AxumSessionDataView {
            expiry_time: committed_expiry(before.session_data@, now, before.timeouts),
            ..before.session_data@
        };
        &&& after.session_data@ == d
        &&& after.session_id == before.session_id
        &&& after.timeouts == before.timeouts
        &&& match d.user_id {
            None => r is StoredInMemory && !after.is_modified && memory_after == memory_before.insert(
                d.session_id,
                d,
            ),
            Some(u) => r matches CommitOutcome::NeedsDatabase(rec) && database_record_of(d, u, rec)
                && after.is_modified && memory_after == memory_before,
        }
    }
}

impl AxumSession {
    /// The new anonymous session with UUID `guid` begun at `now`.
    pub fn new_anonymous(guid: u128, now: i64, timeouts: SessionTimeouts) -> (r: AxumSession)
        requires
            clock_range(now as int),
        ensures
            is_fresh_session(r, guid, now as int, timeouts),
    {
        let session_id = SessionId::empty_with_guid(guid);
        AxumSession {
            session_id,
            session_data: AxumSessionData::init(guid, now, timeouts.memory_clear_timeout()),
            is_modified: false,
            timeouts,
        }
    }

    /// The first step of loading the session a request names (`raw`, from its header
    /// or cookie). No identifier, a malformed one or an empty-type one give the new
    /// anonymous session with UUID `fresh`; a cached-type identifier must be looked up.
    pub fn load_start(raw: Option<&str>, fresh: u128, now: i64, timeouts: SessionTimeouts) -> (r: LoadStart)
        requires
            clock_range(now as int),
        ensures
            match r {
                LoadStart::Ready(s) => is_fresh_session(s, fresh, now as int, timeouts) && (raw
                    matches Some(t) ==> !(valid_session_id_text(t@) && id_type_of(t@)
                    == SessionIdType::Cached)),
                LoadStart::Lookup(id) => raw matches Some(t) && valid_session_id_text(t@)
                    && id_type_of(t@) == SessionIdType::Cached && id@ == t@,
            },
    {
        match raw {
            None => LoadStart::Ready(Self::new_anonymous(fresh, now, timeouts)),
            Some(text) => {
                let id = SessionId::parse_or(text, fresh);
                proof {
                    crate::session_id::lemma_id_text_type('e', fresh);
                }
                match id.get_session_id_type() {
                    SessionIdType::Empty => LoadStart::Ready(Self::new_anonymous(fresh, now, timeouts)),
                    SessionIdType::Cached => LoadStart::Lookup(id),
                }
            },
        }
    }

    /// The last step of loading: the looked-up data if it is still alive at `now`,
    /// else the new anonymous session with UUID `fresh`.
    pub fn load_finish(
        id: SessionId,
        loaded: AxumSessionData,
        fresh: u128,
        now: i64,
        timeouts: SessionTimeouts,
    ) -> (r: AxumSession)
        requires
            clock_range(now as int),
        ensures
            loaded.expiry_time > now ==> r.session_id == id && r.session_data@ == loaded@
                && !r.is_modified && r.timeouts == timeouts,
            loaded.expiry_time <= now ==> is_fresh_session(r, fresh, now as int, timeouts),
    {
        if loaded.expiry_time > now {
            AxumSession { session_id: id, session_data: loaded, is_modified: false, timeouts }
        } else {
            Self::new_anonymous(fresh, now, timeouts)
        }
    }

    /// Loads a session whose cached-type identifier `id` was looked up: the session
    /// database gave `from_database`; memory is consulted next, and a new anonymous
    /// session begun at `now` is kept in memory when neither has the UUID. The data
    /// found is the session if it is still alive at `now`; otherwise the session is
    /// the new anonymous one with UUID `fresh`.
    pub fn load_lookup(
        memory: &mut MemoryStore,
        id: SessionId,
        from_database: Option<SessionData>,
        fresh: u128,
        now: i64,
        timeouts: SessionTimeouts,
    ) -> (r: AxumSession)
        requires
            clock_range(now as int),
        ensures
            lookup_result(old(memory)@, final(memory)@, id, from_database, fresh, now as int, timeouts, r),
    {
        let guid = id.get_session_guid();
        let loaded = memory.load_or_init(guid, from_database, now, timeouts);
        Self::load_finish(id, loaded, fresh, now, timeouts)
    }

    /// The first step of loading, now: as `load_start`, where a new anonymous session
    /// gets a random UUID and begins at the current time.
    pub fn load_begin(raw: Option<&str>, timeouts: SessionTimeouts) -> (r: LoadStart)
        ensures
            match r {
                LoadStart::Ready(s) => is_some_fresh_session(s, timeouts) && (raw matches Some(t)
                    ==> !(valid_session_id_text(t@) && id_type_of(t@) == SessionIdType::Cached)),
                LoadStart::Lookup(id) => raw matches Some(t) && valid_session_id_text(t@)
                    && id_type_of(t@) == SessionIdType::Cached && id@ == t@,
            },
    {
        let fresh = new_uuid();
        let now = now_millis();
        let r = Self::load_start(raw, fresh, now, timeouts);
        proof {
            if r is Ready {
                assert(is_fresh_session(r->Ready_0, fresh, now as int, timeouts));
            }
        }
        r
    }

    /// The last step of loading, now: as `load_lookup`, at the current time, where a
    /// new anonymous session gets a random UUID.
    pub fn load_complete(
        memory: &mut MemoryStore,
        id: SessionId,
        from_database: Option<SessionData>,
        timeouts: SessionTimeouts,
    ) -> (r: AxumSession)
        ensures
            exists|fresh: u128, now: int|
                clock_range(now) && #[trigger] lookup_result(old(memory)@, final(memory)@, id,
                from_database, fresh, now, timeouts, r),
    {
        let fresh = new_uuid();
        let now = now_millis();
        Self::load_lookup(memory, id, from_database, fresh, now, timeouts)
    }

    /// Marks the session as belonging to a signed-in user; its identifier becomes
    /// the cached-type identifier of the same UUID.
    pub fn set_user_id(&mut self, user_id: u128)
        ensures
            final(self).session_data@ == (AxumSessionDataView {
                user_id: Some(user_id),
                ..old(self).session_data@
            }),
            final(self).is_modified,
            final(self).session_id@ == id_text('c', guid_of(old(self).session_id@)),
            final(self).timeouts == old(self).timeouts,
    {
        self.session_data.user_id = Some(user_id);
        self.is_modified = true;
        self.session_id.change_session_id_cached_type();
    }

    /// The signed-in user, if any.
    pub fn get_logined_user_id(&self) -> (r: Option<u128>)
        ensures
            r == self.session_data.user_id,
    {
        self.session_data.user_id
    }

    /// The value of a session entry, which must be present.
    pub fn get_data(&self, key: &str) -> (r: &str)
        requires
            self.session_data.data@.contains_key(key@),
        ensures
            r@ == self.session_data.data@[key@],
    {
        self.session_data.data.get(key).unwrap().as_str()
    }

    /// The value of a session entry, if present.
    pub fn try_get_data(&self, key: &str) -> (r: Option<&String>)
        ensures
            match r {
                Some(v) => self.session_data.data@.contains_key(key@) && v@
                    == self.session_data.data@[key@],
                None => !self.session_data.data@.contains_key(key@),
            },
    {
        self.session_data.data.get(key)
    }

    /// The signed-in user's identity, as JSON; the entry must be present.
    pub fn get_identity_str(&self) -> (r: &str)
        requires
            self.session_data.data@.contains_key(IDENTITY_KEY@),
        ensures
            r@ == self.session_data.data@[IDENTITY_KEY@],
    {
        self.get_data(IDENTITY_KEY)
    }

    /// Sets a session entry; the identifier becomes the cached-type identifier of
    /// the same UUID.
    pub fn set_data(&mut self, key: String, val: String)
        ensures
            final(self).session_data@ == (AxumSessionDataView {
                data: old(self).session_data@.data.insert(key@, val@),
                ..old(self).session_data@
            }),
            final(self).is_modified,
            final(self).session_id@ == id_text('c', guid_of(old(self).session_id@)),
            final(self).timeouts == old(self).timeouts,
    {
        self.session_data.data.insert(key, val);
        self.is_modified = true;
        self.session_id.change_session_id_cached_type();
    }

    /// Replaces the session by the new anonymous session with UUID `fresh` begun at `now`.
    pub fn clear_at(&mut self, fresh: u128, now: i64)
        requires
            clock_range(now as int),
        ensures
            is_fresh_session(*final(self), fresh, now as int, old(self).timeouts),
    {
        *self = Self::new_anonymous(fresh, now, self.timeouts);
    }

    /// Replaces the session by a new anonymous session with a random UUID, begun now.
    pub fn clear(&mut self)
        ensures
            is_some_fresh_session(*final(self), old(self).timeouts),
    {
        let g = new_uuid();
        let now = now_millis();
        self.clear_at(g, now);
    }

    /// Commits the session at `now`. An unchanged session is left as it is. A changed
    /// one that has not expired gets a new expiry time: `now` plus the anonymous or the
    /// signed-in lifetime. Anonymous data is then kept in memory and the session marked
    /// unchanged; signed-in data is handed back for the session database.
    pub fn commit_at(&mut self, memory: &mut MemoryStore, now: i64) -> (r: CommitOutcome)
        requires
            clock_range(now as int),
        ensures
            commit_result(*old(self), *final(self), old(memory)@, final(memory)@, now as int, r),
    {
        if !self.is_modified {
            return CommitOutcome::Unchanged;
        }
        if self.session_data.expiry_time > now {
            if self.session_data.user_id.is_none() {
                self.session_data.expiry_time = now + self.timeouts.memory_clear_timeout();
            } else {
                self.session_data.expiry_time = now + self.timeouts.idle_timeout();
            }
        }
        match memory.store(&self.session_data) {
            Some(rec) => CommitOutcome::NeedsDatabase(rec),
            None => {
                self.is_modified = false;
                CommitOutcome::StoredInMemory
            },
        }
    }

    /// Commits the session now (see `commit_at`).
    pub fn commit(&mut self, memory: &mut MemoryStore) -> (r: CommitOutcome)
        ensures
            exists|now: int|
                clock_range(now) && #[trigger] commit_result(*old(self), *final(self), old(memory)@, final(memory)@, now, r),
    {
        let now = now_millis();
        self.commit_at(memory, now)
    }

    /// Marks the session unchanged once the session database has stored it.
    pub fn confirm_stored(&mut self)
        ensures
            !final(self).is_modified,
            final(self).session_data@ == old(self).session_data@,
            final(self).session_id == old(self).session_id,
            final(self).timeouts == old(self).timeouts,
    {
        self.is_modified = false;
    }
}

} // verus!
