//! Paging and searching of list requests, and the labels and columns of the order,
//! top-up and appointment views.

use vstd::prelude::*;
use crate::clock::time_range;
use crate::text::{copy_text, text_eq};

verus! {

/// A page of a list: the page index (from 0) and the page size.
pub struct PaginatedListRequest {
    pub page_index: i64,
    pub page_size: i64,
}

impl PaginatedListRequest {
    /// How many rows the page skips, `page_index * page_size`; `None` when that does
    /// not fit in an `i64`.
    pub fn offset(&self) -> (r: Option<i64>)
        ensures
            match r {
                Some(o) => o == self.page_index * self.page_size,
                None => !(i64::MIN <= self.page_index * self.page_size <= i64::MAX),
            },
    {
        self.page_index.checked_mul(self.page_size)
    }

    /// How many rows the page holds at most.
    pub fn limit(&self) -> (r: i64)
        ensures
            r == self.page_size,
    {
        self.page_size
    }
}

/// A page of a list, with the request's paging and the size of the whole list.
pub struct PaginatedListResponse<T> {
    pub page_index: i64,
    pub page_size: i64,
    pub total_count: i64,
    pub data: Vec<T>,
}

impl<T> PaginatedListResponse<T> {
    /// The page `data` of a list of `total_count` rows, for the given request.
    pub fn new(req: &PaginatedListRequest, total_count: i64, data: Vec<T>) -> (r: PaginatedListResponse<T>)
        ensures
            r.page_index == req.page_index,
            r.page_size == req.page_size,
            r.total_count == total_count,
            r.data == data,
    {
        PaginatedListResponse { page_index: req.page_index, page_size: req.page_size, total_count, data }
    }
}

/// The search fields of a list request.
pub struct Search {
    pub key: Option<String>,
    pub barber_id: Option<u128>,
    pub filter_gender: Option<String>,
}

/// The `LIKE` pattern that finds `key` anywhere in a text: `%{key}%`.
pub open spec fn like_pattern_of(key: Seq<char>) -> Seq<char> {
    seq!['%'] + key + seq!['%']
}

/// The `LIKE` pattern that finds `key` anywhere in a text: `%{key}%`.
pub fn like_pattern(key: &str) -> (r: String)
    ensures
        r@ == like_pattern_of(key@),
{
    let mut r = String::new();
    r.append("%");
    r.append(key);
    r.append("%");
    proof {
        reveal_strlit("%");
        assert(r@ =~= like_pattern_of(key@));
    }
    r
}

impl Search {
    /// The pattern of the search key, when a key is given.
    pub fn key_pattern(&self) -> (r: Option<String>)
        ensures
            match self.key {
                Some(k) => r matches Some(p) && p@ == like_pattern_of(k@),
                None => r is None,
            },
    {
        match &self.key {
            Some(k) => Some(like_pattern(k.as_str())),
            None => None,
        }
    }

    /// The pattern of the search key, when a non-empty key is given.
    pub fn nonempty_key_pattern(&self) -> (r: Option<String>)
        ensures
            match self.key {
                Some(k) => if k@.len() > 0 {
                    r matches Some(p) && p@ == like_pattern_of(k@)
                } else {
                    r is None
                },
                None => r is None,
            },
    {
        match &self.key {
            Some(k) => if k.as_str().unicode_len() > 0 {
                Some(like_pattern(k.as_str()))
            } else {
                None
            },
            None => None,
        }
    }
}

/// The consumer type of an order by a member.
pub const MEMBER_CONSUMER: &'static str = "member";

/// The consumer type of an order by a walk-in customer.
pub const WALK_IN_CONSUMER: &'static str = "walk-in";

/// The status of a recorded appointment.
pub const ORDER_COMPLETED: &'static str = "Completed";

/// The payment type of an order paid from a member's balance.
pub const MEMBER_PAYMENT: &'static str = "member";

/// The placeholder of a missing name.
pub const DASH: &'static str = "-";

/// The consumer type of a new order: by a member when a member is given.
pub fn consumer_type_for(member_id: Option<u128>) -> (r: &'static str)
    ensures
        member_id is None ==> r@ == WALK_IN_CONSUMER@,
        member_id is Some ==> r@ == MEMBER_CONSUMER@,
{
    if member_id.is_none() {
        WALK_IN_CONSUMER
    } else {
        MEMBER_CONSUMER
    }
}

/// The label of an order's consumer type: `会员` for a member, `进店顾客` otherwise.
pub fn consumer_type_label(consumer_type: &str) -> (r: &'static str)
    ensures
        consumer_type@ == MEMBER_CONSUMER@ ==> r@ == "会员"@,
        consumer_type@ != MEMBER_CONSUMER@ ==> r@ == "进店顾客"@,
{
    if text_eq(consumer_type, MEMBER_CONSUMER) {
        "会员"
    } else {
        "进店顾客"
    }
}

/// The label of an order's payment type: `会员充值` for the member balance, `现金` otherwise.
pub fn payment_type_label(payment_type: &str) -> (r: &'static str)
    ensures
        payment_type@ == MEMBER_PAYMENT@ ==> r@ == "会员充值"@,
        payment_type@ != MEMBER_PAYMENT@ ==> r@ == "现金"@,
{
    if text_eq(payment_type, MEMBER_PAYMENT) {
        "会员充值"
    } else {
        "现金"
    }
}

/// The name, or `-` when there is none.
pub fn name_or_dash(name: &Option<String>) -> (r: String)
    ensures
        name matches Some(n) ==> r@ == n@,
        name is None ==> r@ == DASH@,
{
    match name {
        Some(n) => copy_text(n.as_str()),
        None => copy_text(DASH),
    }
}

/// What an order view shows of the member it may refer to.
pub struct MemberSummary {
    pub real_name: Option<String>,
    pub cellphone: String,
}

/// The member name and cellphone columns of an order: for a member's order the
/// member's name and number (`-` for what is missing), empty for a walk-in's.
pub fn order_member_columns(consumer_type: &str, member: &Option<MemberSummary>) -> (r: (String, String))
    ensures
        consumer_type@ != MEMBER_CONSUMER@ ==> r.0@ == Seq::<char>::empty() && r.1@ == Seq::<char>::empty(),
        consumer_type@ == MEMBER_CONSUMER@ ==> match member {
            Some(m) => (match m.real_name {
                Some(n) => r.0@ == n@,
                None => r.0@ == DASH@,
            }) && r.1@ == m.cellphone@,
            None => r.0@ == DASH@ && r.1@ == DASH@,
        },
{
    if text_eq(consumer_type, MEMBER_CONSUMER) {
        match member {
            Some(m) => (name_or_dash(&m.real_name), copy_text(m.cellphone.as_str())),
            None => (copy_text(DASH), copy_text(DASH)),
        }
    } else {
        (String::new(), String::new())
    }
}

/// The customer shown on an appointment: the member's name (`-` when it has none),
/// or the order's consumer type when no member is joined.
pub fn appointment_customer(consumer_type: &str, member: &Option<MemberSummary>) -> (r: String)
    ensures
        match member {
            Some(m) => match m.real_name {
                Some(n) => r@ == n@,
                None => r@ == DASH@,
            },
            None => r@ == consumer_type@,
        },
{
    match member {
        Some(m) => name_or_dash(&m.real_name),
        None => copy_text(consumer_type),
    }
}

/// Whole minutes from `start` to `end` (milliseconds), truncated toward zero as
/// `chrono`'s `num_minutes` does.
pub open spec fn whole_minutes(start: int, end: int) -> int {
    let d = end - start;
    if d >= 0 {
        d / 60_000
    } else {
        -((-d) / 60_000)
    }
}

/// Whole minutes from `start` to `end`, truncated toward zero.
pub fn total_minutes(start: i64, end: i64) -> (r: i64)
    requires
        time_range(start as int),
        time_range(end as int),
    ensures
        r == whole_minutes(start as int, end as int),
{
    let d = end - start;
    if d >= 0 {
        d / 60_000
    } else {
        -((-d) / 60_000)
    }
}

} // verus!
