//! The permission lists stored with a user: JSON arrays of permission UUIDs, whose
//! entries may be scoped to a merchant as `merchant_id:permission_id`.

use vstd::prelude::*;
use crate::ids::{parse_uuid, spec_uuid_parse, uuid_text};

verus! {

/// What `serde_json::from_str::<Vec<uuid::Uuid>>` gives for a text, as 128-bit values.
pub uninterp spec fn spec_json_uuid_list(text: Seq<char>) -> Option<Seq<u128>>;

/// What `serde_json::from_str::<Vec<String>>` gives for a text.
pub uninterp spec fn spec_json_string_list(text: Seq<char>) -> Option<Seq<Seq<char>>>;

/// A UUID as a JSON string: its hyphenated lowercase text in double quotes.
pub open spec fn uuid_json(id: u128) -> Seq<char> {
    seq!['"'] + uuid_text(id) + seq!['"']
}

/// The JSON strings of the UUIDs, separated by `,`.
pub open spec fn uuid_json_items(ids: Seq<u128>) -> Seq<char>
    decreases ids.len(),
{
    if ids.len() == 0 {
        Seq::empty()
    } else if ids.len() == 1 {
        uuid_json(ids[0])
    } else {
        uuid_json_items(ids.drop_last()) + seq![','] + uuid_json(ids.last())
    }
}

/// What `serde_json::to_string` writes for a list of UUIDs: a compact JSON array of
/// their hyphenated lowercase texts.
pub open spec fn spec_uuid_list_json(ids: Seq<u128>) -> Seq<char> {
    seq!['['] + uuid_json_items(ids) + seq![']']
}

/// Calls `serde_json::from_str::<Vec<uuid::Uuid>>`; the result is named, not written out.
#[verifier::external_body]
pub(crate) fn parse_uuid_list(text: &str) -> (r: Option<Vec<u128>>)
    ensures
        match r {
            Some(v) => spec_json_uuid_list(text@) == Some(v@),
            None => spec_json_uuid_list(text@) is None,
        },
{
    match serde_json::from_str::<Vec<uuid::Uuid>>(text) {
        Ok(ids) => Some(ids.iter().map(|u| u.as_u128()).collect()),
        Err(_) => None,
    }
}

/// Calls `serde_json::from_str::<Vec<String>>`; the result is named, not written out.
#[verifier::external_body]
pub(crate) fn parse_string_list(text: &str) -> (r: Option<Vec<String>>)
    ensures
        match r {
            Some(v) => spec_json_string_list(text@) == Some(v@.map_values(|s: String| s@)),
            None => spec_json_string_list(text@) is None,
        },
{
    serde_json::from_str::<Vec<String>>(text).ok()
}

/// Calls `serde_json::to_string` on a list of UUIDs (which `uuid` serialises as their
/// hyphenated lowercase texts, needing no escapes). Claimed besides the text: it reads
/// back, through `serde_json::from_str::<Vec<uuid::Uuid>>`, as the same list.
#[verifier::external_body]
pub(crate) fn uuid_list_json(ids: &Vec<u128>) -> (r: String)
    ensures
        r@ == spec_uuid_list_json(ids@),
        spec_json_uuid_list(r@) == Some(ids@),
{
    let list: Vec<uuid::Uuid> = ids.iter().map(|i| uuid::Uuid::from_u128(*i)).collect();
    serde_json::to_string(&list).unwrap()
}

/// Whether a text holds no `:`.
pub open spec fn colon_free(s: Seq<char>) -> bool {
    forall|i: int| 0 <= i < s.len() ==> s[i] != ':'
}

/// The position of the first `:` of a text that holds one.
pub open spec fn first_colon(s: Seq<char>) -> int {
    choose|i: int| 0 <= i < s.len() && s[i] == ':' && colon_free(s.take(i))
}

/// The text before the first `:` (all of it when there is none).
pub open spec fn first_segment(s: Seq<char>) -> Seq<char> {
    if colon_free(s) {
        s
    } else {
        s.take(first_colon(s))
    }
}

/// The second `:`-separated segment of a text, if it has one.
pub open spec fn second_segment(s: Seq<char>) -> Option<Seq<char>> {
    if colon_free(s) {
        None
    } else {
        Some(first_segment(s.skip(first_colon(s) + 1)))
    }
}

/// What one permission entry contributes for the current merchant: `None` when a
/// UUID it must give does not read; `Some(None)` when it belongs to another merchant;
/// `Some(Some(id))` for a permission that applies.
pub open spec fn entry_permission(s: Seq<char>, merchant_id: Option<u128>) -> Option<Option<u128>> {
    match spec_uuid_parse(first_segment(s)) {
        None => None,
        Some(first) => match second_segment(s) {
            None => Some(Some(first)),
            Some(p) => if merchant_id == Some(first) {
                match spec_uuid_parse(p) {
                    Some(pid) => Some(Some(pid)),
                    None => None,
                }
            } else {
                Some(None)
            },
        },
    }
}

/// The permissions that apply for the current merchant, in the order of the entries;
/// `None` when some entry does not read.
pub open spec fn selected_permissions(entries: Seq<Seq<char>>, merchant_id: Option<u128>) -> Option<Seq<u128>>
    decreases entries.len(),
{
    if entries.len() == 0 {
        Some(Seq::empty())
    } else {
        match selected_permissions(entries.drop_last(), merchant_id) {
            None => None,
            Some(ids) => match entry_permission(entries.last(), merchant_id) {
                None => None,
                Some(None) => Some(ids),
                Some(Some(id)) => Some(ids.push(id)),
            },
        }
    }
}

/// Splits a text at its first `:`: the part before, and the part after if there is a `:`.
fn split_first_colon(s: &str) -> (r: (&str, Option<&str>))
    ensures
        colon_free(s@) ==> r.0@ == s@ && r.1 is None,
        !colon_free(s@) ==> r.0@ == s@.take(first_colon(s@)) && (r.1 matches Some(t) && t@
            == s@.skip(first_colon(s@) + 1)),
{
    let n = s.unicode_len();
    let mut i: usize = 0;
    while i < n
        invariant
            n == s@.len(),
            0 <= i <= n,
            colon_free(s@.take(i as int)),
        decreases n - i,
    {
        if s.get_char(i) == ':' {
            proof {
                let j = first_colon(s@);
                assert(s@[i as int] == ':' && colon_free(s@.take(i as int)));
                assert(0 <= j < s@.len() && s@[j] == ':' && colon_free(s@.take(j)));
                if j < i {
                    assert(s@.take(i as int)[j] == ':');
                }
                if i < j {
                    assert(s@.take(j)[i as int] == ':');
                }
            }
            let before = s.substring_char(0, i);
            let after = s.substring_char(i + 1, n);
            return (before, Some(after));
        }
        proof {
            assert(s@.take(i + 1) =~= s@.take(i as int).push(s@[i as int]));
        }
        i = i + 1;
    }
    assert(s@.take(n as int) =~= s@);
    (s, None)
}

/// The first and second `:`-separated segments of a permission entry.
fn entry_segments(s: &str) -> (r: (&str, Option<&str>))
    ensures
        r.0@ == first_segment(s@),
        match r.1 {
            Some(t) => second_segment(s@) == Some(t@),
            None => second_segment(s@) is None,
        },
{
    let (first, rest) = split_first_colon(s);
    match rest {
        None => (first, None),
        Some(after) => {
            let (second, _) = split_first_colon(after);
            (first, Some(second))
        },
    }
}

/// The permission UUIDs that apply for the current merchant (`merchant_id`), read
/// from a user's permission entries: an entry `permission_id` always applies, an
/// entry `merchant_id:permission_id` when its merchant is the current one. `None` when
/// a UUID that has to be read does not parse.
pub fn select_permission_ids(entries: &Vec<String>, merchant_id: Option<u128>) -> (r: Option<Vec<u128>>)
    ensures
        match r {
            Some(v) => selected_permissions(entries@.map_values(|s: String| s@), merchant_id)
                == Some(v@),
            None => selected_permissions(entries@.map_values(|s: String| s@), merchant_id) is None,
        },
{
    let ghost all = entries@.map_values(|s: String| s@);
    let n = entries.len();
    let mut ids: Vec<u128> = Vec::new();
    let mut i: usize = 0;
    while i < n
        invariant
            n == entries@.len(),
            all == entries@.map_values(|s: String| s@),
            0 <= i <= n,
            selected_permissions(all.take(i as int), merchant_id) == Some(ids@),
        decreases n - i,
    {
        proof {
            assert(all.take(i + 1).drop_last() =~= all.take(i as int));
            assert(all.take(i + 1).last() == entries@[i as int]@);
        }
        let (first, second) = entry_segments(entries[i].as_str());
        match parse_uuid(first) {
            None => {
                proof {
                    lemma_selection_stays_none(all, i as int + 1, merchant_id);
                    assert(all.take(n as int) =~= all);
                }
                return None;
            },
            Some(first_id) => match second {
                None => {
                    ids.push(first_id);
                },
                Some(p) => {
                    if merchant_id == Some(first_id) {
                        match parse_uuid(p) {
                            Some(pid) => {
                                ids.push(pid);
                            },
                            None => {
                                proof {
                                    lemma_selection_stays_none(all, i as int + 1, merchant_id);
                                    assert(all.take(n as int) =~= all);
                                }
                                return None;
                            },
                        }
                    }
                },
            },
        }
        i = i + 1;
    }
    proof {
        assert(all.take(n as int) =~= all);
    }
    Some(ids)
}

/// Once a prefix of the entries fails to read, every longer prefix fails too.
proof fn lemma_selection_stays_none(all: Seq<Seq<char>>, k: int, merchant_id: Option<u128>)
    requires
        0 <= k <= all.len(),
        selected_permissions(all.take(k), merchant_id) is None,
    ensures
        selected_permissions(all, merchant_id) is None,
    decreases all.len() - k,
{
    if k < all.len() {
        assert(all.take(k + 1).drop_last() =~= all.take(k));
        lemma_selection_stays_none(all, k + 1, merchant_id);
    } else {
        assert(all.take(k) =~= all);
    }
}

/// Whether a list of permission UUIDs holds `id`.
pub fn has_permission_id(ids: &Vec<u128>, id: u128) -> (r: bool)
    ensures
        r == ids@.contains(id),
{
    let n = ids.len();
    let mut i: usize = 0;
    while i < n
        invariant
            n == ids@.len(),
            0 <= i <= n,
            forall|j: int| 0 <= j < i ==> ids@[j] != id,
        decreases n - i,
    {
        if ids[i] == id {
            return true;
        }
        i = i + 1;
    }
    false
}

/// The permissions of a barber: the ones asked for, then the basic barber permission.
pub fn barber_permission_ids(requested: &Vec<u128>, barber_base: u128) -> (r: Vec<u128>)
    ensures
        r@ == requested@.push(barber_base),
{
    let mut r = requested.clone();
    proof {
        assert(r@ =~= requested@);
    }
    r.push(barber_base);
    r
}

/// The permissions after a barber is edited: unchanged (`None`) for the merchant's
/// administrator, else the ones asked for followed by the basic barber permission.
pub fn updated_permission_ids(current: &Vec<u128>, administrator: u128, requested: &Vec<u128>, barber_base: u128) -> (r: Option<Vec<u128>>)
    ensures
        current@.contains(administrator) ==> r is None,
        !current@.contains(administrator) ==> (r matches Some(v) && v@ == requested@.push(barber_base)),
{
    if has_permission_id(current, administrator) {
        None
    } else {
        Some(barber_permission_ids(requested, barber_base))
    }
}

/// The permissions of a merchant's owner at registration: the listed ones, then the
/// administrator permission, then the basic barber permission.
pub fn owner_permission_ids(listed: &Vec<u128>, administrator: u128, barber_base: u128) -> (r: Vec<u128>)
    ensures
        r@ == listed@.push(administrator).push(barber_base),
{
    let mut r = listed.clone();
    proof {
        assert(r@ =~= listed@);
    }
    r.push(administrator);
    r.push(barber_base);
    r
}

/// The UUIDs an identity is read from, given a user's stored lists: the permissions
/// that apply for the current merchant (entries `permission_id` or
/// `merchant_id:permission_id`) and the roles. `None` when a list does not read.
pub fn identity_lookup_ids(permissions_json: &str, roles_json: &str, merchant_id: Option<u128>) -> (r: Option<(Vec<u128>, Vec<u128>)>)
    ensures
        match (spec_json_string_list(permissions_json@), spec_json_uuid_list(roles_json@)) {
            (Some(entries), Some(roles)) => match selected_permissions(entries, merchant_id) {
                Some(ids) => r matches Some((p, q)) && p@ == ids && q@ == roles,
                None => r is None,
            },
            _ => r is None,
        },
{
    let entries = match parse_string_list(permissions_json) {
        Some(e) => e,
        None => return None,
    };
    let roles = match parse_uuid_list(roles_json) {
        Some(r) => r,
        None => return None,
    };
    match select_permission_ids(&entries, merchant_id) {
        Some(ids) => Some((ids, roles)),
        None => None,
    }
}

/// The permission UUIDs of a user's stored plain list; `None` when it does not read.
pub fn stored_permission_ids(permissions_json: &str) -> (r: Option<Vec<u128>>)
    ensures
        match spec_json_uuid_list(permissions_json@) {
            Some(ids) => r matches Some(v) && v@ == ids,
            None => r is None,
        },
{
    parse_uuid_list(permissions_json)
}

/// The stored list of a new barber's permissions: the ones asked for, then the basic
/// barber permission.
pub fn barber_permissions_json(requested: &Vec<u128>, barber_base: u128) -> (r: String)
    ensures
        r@ == spec_uuid_list_json(requested@.push(barber_base)),
        spec_json_uuid_list(r@) == Some(requested@.push(barber_base)),
{
    let ids = barber_permission_ids(requested, barber_base);
    uuid_list_json(&ids)
}

/// The stored list after a barber is edited, from the current stored list: `None` when
/// that does not read; `Some(None)` (unchanged) for the merchant's administrator; else
/// the ones asked for followed by the basic barber permission.
pub fn updated_permissions_json(current_json: &str, administrator: u128, requested: &Vec<u128>, barber_base: u128) -> (r: Option<Option<String>>)
    ensures
        match spec_json_uuid_list(current_json@) {
            None => r is None,
            Some(current) => if current.contains(administrator) {
                r == Some(None::<String>)
            } else {
                r matches Some(Some(t)) && t@ == spec_uuid_list_json(requested@.push(barber_base))
            },
        },
{
    match parse_uuid_list(current_json) {
        None => None,
        Some(current) => match updated_permission_ids(&current, administrator, requested, barber_base) {
            None => Some(None),
            Some(ids) => Some(Some(uuid_list_json(&ids))),
        },
    }
}

/// The stored list of a merchant owner's permissions at registration: the listed
/// ones, then the administrator permission, then the basic barber permission.
pub fn owner_permissions_json(listed: &Vec<u128>, administrator: u128, barber_base: u128) -> (r: String)
    ensures
        r@ == spec_uuid_list_json(listed@.push(administrator).push(barber_base)),
        spec_json_uuid_list(r@) == Some(listed@.push(administrator).push(barber_base)),
{
    let ids = owner_permission_ids(listed, administrator, barber_base);
    uuid_list_json(&ids)
}

} // verus!
