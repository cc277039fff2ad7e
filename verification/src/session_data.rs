//! The data a session carries: its key/value entries, its owner and its lifetime.

use vstd::prelude::*;
use crate::clock::{clock_range, MAX_TIMEOUT};
use crate::text::{text_eq, copy_text};

verus! {

/// The string entries of a session, keyed by name; each name occurs once.
pub struct SessionValues {
    keys: Vec<String>,
    values: Vec<String>,
}

impl View for SessionValues {
    type V = Map<Seq<char>, Seq<char>>;

    closed spec fn view(&self) -> Map<Seq<char>, Seq<char>> {
        Map::new(
            |k: Seq<char>| self.has_key_at(k),
            |k: Seq<char>| self.values@[self.index_of(k)]@,
        )
    }
}

impl SessionValues {
    spec fn has_key_at(&self, k: Seq<char>) -> bool {
        exists|i: int| 0 <= i < self.keys@.len() && #[trigger] self.keys@[i]@ == k
    }

    spec fn index_of(&self, k: Seq<char>) -> int {
        choose|i: int| 0 <= i < self.keys@.len() && #[trigger] self.keys@[i]@ == k
    }

    #[verifier::type_invariant]
    closed spec fn well_formed(&self) -> bool {
        &&& self.keys@.len() == self.values@.len()
        &&& forall|i: int, j: int|
            0 <= i < self.keys@.len() && 0 <= j < self.keys@.len() && i != j ==> #[trigger] self.keys@[i]@
                != #[trigger] self.keys@[j]@
    }

    proof fn lemma_index(&self, i: int)
        requires
            self.well_formed(),
            0 <= i < self.keys@.len(),
        ensures
            self.index_of(self.keys@[i]@) == i,
            self@.contains_key(self.keys@[i]@),
            self@[self.keys@[i]@] == self.values@[i]@,
    {
        let k = self.keys@[i]@;
        assert(self.has_key_at(k));
        let j = self.index_of(k);
        assert(self.keys@[j]@ == k);
    }

    /// No entries.
    pub fn new() -> (r: SessionValues)
        ensures
            r@ == Map::<Seq<char>, Seq<char>>::empty(),
    {
        let r = SessionValues { keys: Vec::new(), values: Vec::new() };
        assert(r@ =~= Map::<Seq<char>, Seq<char>>::empty());
        r
    }

    /// The number of entries.
    pub fn len(&self) -> (r: usize)
        ensures
            r == self@.dom().len(),
            self@.dom().finite(),
    {
        proof {
            use_type_invariant(self);
            self.lemma_dom();
        }
        self.keys.len()
    }

    proof fn lemma_dom(&self)
        requires
            self.well_formed(),
        ensures
            self@.dom().finite(),
            self@.dom().len() == self.keys@.len(),
    {
        let ks = self.keys@.map_values(|s: String| s@);
        assert forall|i: int, j: int| 0 <= i < ks.len() && 0 <= j < ks.len() && i != j implies ks[i]
            != ks[j] by {
            assert(ks[i] == self.keys@[i]@);
            assert(ks[j] == self.keys@[j]@);
        }
        assert(ks.no_duplicates());
        ks.unique_seq_to_set();
        assert forall|k: Seq<char>| self@.dom().contains(k) <==> ks.to_set().contains(k) by {
            if self@.dom().contains(k) {
                let i = self.index_of(k);
                assert(ks[i] == k);
            }
            if ks.to_set().contains(k) {
                let i = choose|i: int| 0 <= i < ks.len() && ks[i] == k;
                assert(self.keys@[i]@ == k);
            }
        }
        assert(self@.dom() =~= ks.to_set());
    }

    /// The name of the `i`-th entry.
    pub fn key_at(&self, i: usize) -> (r: &String)
        requires
            i < self@.dom().len(),
        ensures
            self@.contains_key(r@),
    {
        proof {
            use_type_invariant(self);
            self.lemma_dom();
            self.lemma_index(i as int);
        }
        &self.keys[i]
    }

    /// The value of the `i`-th entry.
    pub fn value_at(&self, i: usize) -> (r: &String)
        requires
            i < self@.dom().len(),
        ensures
            self@[self.key_at_spec(i as int)] == r@,
            self@.contains_key(self.key_at_spec(i as int)),
    {
        proof {
            use_type_invariant(self);
            self.lemma_dom();
            self.lemma_index(i as int);
        }
        &self.values[i]
    }

    /// The name of the `i`-th entry, as the key for `value_at`.
    pub closed spec fn key_at_spec(&self, i: int) -> Seq<char> {
        self.keys@[i]@
    }

    /// The position of an entry, if the name is present.
    fn find(&self, key: &str) -> (r: Option<usize>)
        ensures
            match r {
                Some(i) => i < self.keys@.len() && self.keys@[i as int]@ == key@,
                None => !self@.contains_key(key@),
            },
    {
        let n = self.keys.len();
        let mut i: usize = 0;
        while i < n
            invariant
                n == self.keys@.len(),
                0 <= i <= n,
                forall|j: int| 0 <= j < i ==> self.keys@[j]@ != key@,
            decreases n - i,
        {
            if text_eq(self.keys[i].as_str(), key) {
                return Some(i);
            }
            i = i + 1;
        }
        proof {
            if self@.contains_key(key@) {
                let j = self.index_of(key@);
                assert(self.keys@[j]@ == key@);
            }
        }
        None
    }

    /// The value stored under a name.
    pub fn get(&self, key: &str) -> (r: Option<&String>)
        ensures
            match r {
                Some(v) => self@.contains_key(key@) && v@ == self@[key@],
                None => !self@.contains_key(key@),
            },
    {
        proof {
            use_type_invariant(self);
        }
        match self.find(key) {
            Some(i) => {
                proof {
                    self.lemma_index(i as int);
                }
                Some(&self.values[i])
            },
            None => None,
        }
    }

    /// Stores a value under a name, replacing any earlier value of that name.
    pub fn insert(&mut self, key: String, value: String)
        ensures
            final(self)@ == old(self)@.insert(key@, value@),
    {
        proof {
            use_type_invariant(&*self);
        }
        let ghost before = *self;
        match self.find(key.as_str()) {
            Some(i) => {
                let mut whole = SessionValues::new();
                core::mem::swap(self, &mut whole);
                let SessionValues { keys, mut values } = whole;
                values.set(i, value);
                *self = SessionValues { keys, values };
                proof {
                    assert forall|k: Seq<char>| #![trigger self@.contains_key(k)]
                        self@.contains_key(k) <==> before@.insert(key@, value@).contains_key(k) by {
                        if before@.contains_key(k) {
                            let j = before.index_of(k);
                            assert(self.keys@[j]@ == k);
                        }
                        if self@.contains_key(k) {
                            let j = self.index_of(k);
                            assert(before.keys@[j]@ == k);
                        }
                    }
                    assert forall|k: Seq<char>| #[trigger] self@.contains_key(k) implies self@[k]
                        == before@.insert(key@, value@)[k] by {
                        let j = self.index_of(k);
                        self.lemma_index(j);
                        if k != key@ {
                            assert(before.keys@[j]@ == k);
                            before.lemma_index(j);
                        }
                    }
                    assert(self@ =~= before@.insert(key@, value@));
                }
            },
            None => {
                let mut whole = SessionValues::new();
                core::mem::swap(self, &mut whole);
                let SessionValues { mut keys, mut values } = whole;
                let ghost kv = key@;
                keys.push(key);
                values.push(value);
                *self = SessionValues { keys, values };
                proof {
                    let n = before.keys@.len() as int;
                    assert(self.keys@[n]@ == kv);
                    assert forall|k: Seq<char>| #![trigger self@.contains_key(k)]
                        self@.contains_key(k) <==> before@.insert(kv, value@).contains_key(k) by {
                        if before@.contains_key(k) {
                            let j = before.index_of(k);
                            assert(self.keys@[j]@ == k);
                        }
                        if self@.contains_key(k) && k != kv {
                            let j = self.index_of(k);
                            assert(j != n);
                            assert(before.keys@[j]@ == k);
                        }
                    }
                    assert forall|k: Seq<char>| #[trigger] self@.contains_key(k) implies self@[k]
                        == before@.insert(kv, value@)[k] by {
                        let j = self.index_of(k);
                        self.lemma_index(j);
                        if k != kv {
                            assert(j != n);
                            assert(before.keys@[j]@ == k);
                            before.lemma_index(j);
                        }
                    }
                    assert(self@ =~= before@.insert(kv, value@));
                }
            },
        }
    }
}

impl Clone for SessionValues {
    fn clone(&self) -> (r: Self)
        ensures
            r@ == self@,
    {
        proof {
            use_type_invariant(self);
        }
        let n = self.keys.len();
        let mut keys: Vec<String> = Vec::new();
        let mut values: Vec<String> = Vec::new();
        let mut i: usize = 0;
        while i < n
            invariant
                n == self.keys@.len(),
                n == self.values@.len(),
                0 <= i <= n,
                keys@.len() == i,
                values@.len() == i,
                forall|j: int| 0 <= j < i ==> #[trigger] keys@[j]@ == self.keys@[j]@,
                forall|j: int| 0 <= j < i ==> #[trigger] values@[j]@ == self.values@[j]@,
            decreases n - i,
        {
            keys.push(copy_text(self.keys[i].as_str()));
            values.push(copy_text(self.values[i].as_str()));
            i = i + 1;
        }
        let r = SessionValues { keys, values };
        proof {
            assert forall|a: int, b: int|
                0 <= a < r.keys@.len() && 0 <= b < r.keys@.len() && a != b implies #[trigger] r.keys@[a]@
                != #[trigger] r.keys@[b]@ by {
                assert(r.keys@[a]@ == self.keys@[a]@);
                assert(r.keys@[b]@ == self.keys@[b]@);
            }
        }
        proof {
            assert forall|k: Seq<char>| #![trigger r@.contains_key(k)]
                r@.contains_key(k) <==> self@.contains_key(k) by {
                if self@.contains_key(k) {
                    let j = self.index_of(k);
                    assert(r.keys@[j]@ == k);
                }
                if r@.contains_key(k) {
                    let j = r.index_of(k);
                    assert(self.keys@[j]@ == k);
                }
            }
            assert forall|k: Seq<char>| #[trigger] r@.contains_key(k) implies r@[k] == self@[k] by {
                let j = r.index_of(k);
                r.lemma_index(j);
                assert(self.keys@[j]@ == k);
                self.lemma_index(j);
            }
            assert(r@ =~= self@);
        }
        r
    }
}

/// The abstract state of a session's data.
pub ghost struct AxumSessionDataView {
    pub session_id: u128,
    pub user_id: Option<u128>,
    pub init_time: int,
    pub expiry_time: int,
    pub data: Map<Seq<char>, Seq<char>>,
}

/// A session's data: its UUID, the signed-in user (none for an anonymous visitor),
/// when it began and when it expires (milliseconds since the epoch), and its entries.
pub struct AxumSessionData {
    pub session_id: u128,
    pub user_id: Option<u128>,
    pub init_time: i64,
    pub expiry_time: i64,
    pub data: SessionValues,
}

impl View for AxumSessionData {
    type V = AxumSessionDataView;

    open spec fn view(&self) -> AxumSessionDataView {
        AxumSessionDataView {
            session_id: self.session_id,
            user_id: self.user_id,
            init_time: self.init_time as int,
            expiry_time: self.expiry_time as int,
            data: self.data@,
        }
    }
}

/// The data of a new session begun at `now` that lives for `timeout` milliseconds.
pub open spec fn initial_data(session_id: u128, now: int, timeout: int) -> AxumSessionDataView {
    AxumSessionDataView {
        session_id,
        user_id: None,
        init_time: now,
        expiry_time: now + timeout,
        data: Map::empty(),
    }
}

impl AxumSessionData {
    /// The data of a new anonymous session begun at `now`, kept for `memory_clear_timeout`.
    pub fn init(session_id: u128, now: i64, memory_clear_timeout: i64) -> (r: AxumSessionData)
        requires
            clock_range(now as int),
            -MAX_TIMEOUT <= memory_clear_timeout <= MAX_TIMEOUT,
        ensures
            r@ == initial_data(session_id, now as int, memory_clear_timeout as int),
    {
        AxumSessionData {
            session_id,
            user_id: None,
            init_time: now,
            expiry_time: now + memory_clear_timeout,
            data: SessionValues::new(),
        }
    }
}

impl Clone for AxumSessionData {
    fn clone(&self) -> (r: Self)
        ensures
            r@ == self@,
    {
        AxumSessionData {
            session_id: self.session_id,
            user_id: self.user_id,
            init_time: self.init_time,
            expiry_time: self.expiry_time,
            data: self.data.clone(),
        }
    }
}

/// A signed-in session as the session database keeps it.
pub struct SessionData {
    pub session_id: u128,
    pub user_id: u128,
    pub init_time: i64,
    pub expiry_time: i64,
    pub data: SessionValues,
}

} // verus!
