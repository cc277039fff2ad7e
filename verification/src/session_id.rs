//! Session identifiers of the form `{type}+{uuid}`: `c+` for a session whose data
//! is kept (cached), `e+` for an empty one.

use vstd::prelude::*;
use crate::ids::{parse_uuid, uuid_to_string, new_uuid, spec_uuid_parse, uuid_text};

verus! {

/// The kind of a session identifier.
#[derive(Clone, Copy, Debug, PartialEq, Eq, Structural)]
pub enum SessionIdType {
    Cached,
    Empty,
}

/// Whether a text is a well-formed session identifier: `c+` or `e+` followed by a
/// text that `uuid::Uuid::parse_str` accepts.
pub open spec fn valid_session_id_text(t: Seq<char>) -> bool {
    &&& t.len() >= 2
    &&& (t[0] == 'c' || t[0] == 'e')
    &&& t[1] == '+'
    &&& spec_uuid_parse(t.skip(2)) is Some
}

/// The type that a session identifier's text announces.
pub open spec fn id_type_of(t: Seq<char>) -> SessionIdType {
    if t.len() >= 1 && t[0] == 'c' {
        SessionIdType::Cached
    } else {
        SessionIdType::Empty
    }
}

/// The UUID that a well-formed session identifier's text carries.
pub open spec fn guid_of(t: Seq<char>) -> u128 {
    spec_uuid_parse(t.skip(2))->0
}

/// The text of a session identifier with the given prefix letter and UUID.
pub open spec fn id_text(prefix: char, guid: u128) -> Seq<char> {
    seq![prefix, '+'] + uuid_text(guid)
}

/// A session identifier, always well formed.
#[derive(Debug)]
pub struct SessionId {
    text: String,
}

impl Clone for SessionId {
    fn clone(&self) -> (r: Self)
        ensures
            r == *self,
    {
        proof {
            use_type_invariant(self);
        }
        SessionId { text: self.text.clone() }
    }
}

impl View for SessionId {
    type V = Seq<char>;

    open spec fn view(&self) -> Seq<char> {
        self.spec_text()
    }
}

proof fn lemma_id_text(prefix: char, guid: u128)
    ensures
        id_text(prefix, guid).len() == 38,
        id_text(prefix, guid)[0] == prefix,
        id_text(prefix, guid)[1] == '+',
        id_text(prefix, guid).skip(2) == uuid_text(guid),
{
    assert(id_text(prefix, guid).skip(2) =~= uuid_text(guid));
}

/// A text built by `id_text` has the type its prefix announces and is well formed
/// once its UUID part reads back.
pub proof fn lemma_id_text_type(prefix: char, guid: u128)
    ensures
        id_type_of(id_text(prefix, guid)) == (if prefix == 'c' {
            SessionIdType::Cached
        } else {
            SessionIdType::Empty
        }),
{
    lemma_id_text(prefix, guid);
}

/// The UUID of a text built by `id_text` is the one it was built from.
pub proof fn lemma_guid_of_id_text(prefix: char, guid: u128)
    requires
        spec_uuid_parse(uuid_text(guid)) == Some(guid),
    ensures
        guid_of(id_text(prefix, guid)) == guid,
{
    lemma_id_text(prefix, guid);
}

impl SessionId {
    /// The identifier's text.
    pub closed spec fn spec_text(&self) -> Seq<char> {
        self.text@
    }

    #[verifier::type_invariant]
    closed spec fn well_formed(self) -> bool {
        valid_session_id_text(self.text@)
    }

    /// The identifier's text, as sent in the session header and cookie.
    pub fn as_str(&self) -> (r: &str)
        ensures
            r@ == self@,
            valid_session_id_text(r@),
    {
        proof {
            use_type_invariant(self);
        }
        self.text.as_str()
    }

    /// The identifier with the given prefix letter and UUID.
    fn with_guid(prefix: char, guid: u128) -> (r: SessionId)
        requires
            prefix == 'c' || prefix == 'e',
        ensures
            r@ == id_text(prefix, guid),
            guid_of(r@) == guid,
    {
        let digits = uuid_to_string(guid);
        let mut text = String::new();
        if prefix == 'c' {
            text.append("c+");
        } else {
            text.append("e+");
        }
        text.append(digits.as_str());
        proof {
            reveal_strlit("c+");
            reveal_strlit("e+");
            assert(text@ =~= id_text(prefix, guid));
            lemma_id_text(prefix, guid);
        }
        SessionId { text }
    }

    /// A new empty-type identifier `e+{guid}` for the given UUID.
    pub fn empty_with_guid(guid: u128) -> (r: SessionId)
        ensures
            r@ == id_text('e', guid),
            guid_of(r@) == guid,
    {
        Self::with_guid('e', guid)
    }

    /// A new empty-type identifier with a random UUID.
    pub fn init_session_id() -> (r: SessionId)
        ensures
            exists|g: u128| r@ == id_text('e', g),
    {
        let g = new_uuid();
        Self::empty_with_guid(g)
    }

    /// Reads a session identifier sent by a client. A well-formed text is kept as it
    /// is; any other text gives the empty-type identifier with the UUID `fresh`.
    pub fn parse_or(s: &str, fresh: u128) -> (r: SessionId)
        ensures
            valid_session_id_text(s@) ==> r@ == s@,
            !valid_session_id_text(s@) ==> r@ == id_text('e', fresh),
    {
        let len = s.unicode_len();
        if len >= 2 {
            let c0 = s.get_char(0);
            let c1 = s.get_char(1);
            if (c0 == 'c' || c0 == 'e') && c1 == '+' {
                let rest = s.substring_char(2, len);
                assert(rest@ =~= s@.skip(2));
                match parse_uuid(rest) {
                    Some(_) => {
                        let text = s.to_owned();
                        return SessionId { text };
                    },
                    None => {},
                }
            }
        }
        Self::empty_with_guid(fresh)
    }

    /// Reads a session identifier sent by a client; a malformed one is replaced by a
    /// new empty-type identifier with a random UUID.
    pub fn from(s: &str) -> (r: SessionId)
        ensures
            valid_session_id_text(s@) ==> r@ == s@,
            !valid_session_id_text(s@) ==> exists|g: u128| r@ == id_text('e', g),
    {
        let g = new_uuid();
        Self::parse_or(s, g)
    }

    /// The identifier's type: `Cached` when its text starts with `c`.
    pub fn get_session_id_type(&self) -> (r: SessionIdType)
        ensures
            r == id_type_of(self@),
    {
        let len = self.text.as_str().unicode_len();
        if len >= 1 && self.text.as_str().get_char(0) == 'c' {
            SessionIdType::Cached
        } else {
            SessionIdType::Empty
        }
    }

    /// The UUID the identifier carries.
    pub fn get_session_guid(&self) -> (r: u128)
        ensures
            spec_uuid_parse(self@.skip(2)) == Some(r),
            r == guid_of(self@),
    {
        proof {
            use_type_invariant(self);
        }
        let s = self.text.as_str();
        let len = s.unicode_len();
        let rest = s.substring_char(2, len);
        assert(rest@ =~= self@.skip(2));
        parse_uuid(rest).unwrap()
    }

    /// Turns the identifier into the cached-type identifier `c+{guid}` of the same UUID.
    pub fn change_session_id_cached_type(&mut self)
        ensures
            final(self)@ == id_text('c', guid_of(old(self)@)),
            id_type_of(final(self)@) == SessionIdType::Cached,
            guid_of(final(self)@) == guid_of(old(self)@),
    {
        let g = self.get_session_guid();
        *self = Self::with_guid('c', g);
        proof {
            use_type_invariant(&*self);
            lemma_id_text('c', g);
        }
    }
}

} // verus!
