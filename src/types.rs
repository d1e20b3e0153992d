//! Resource types whose behaviour the library states: the statuses and
//! reasons with their wire names, list query parameters, and pagination.
use crate::engine::{encoded_query, lemma_encoded_query_push, query_pair, QueryValue};
use crate::error::opt_str_text;
use crate::text::int_text;
use vstd::prelude::*;

verus! {

/// Email delivery status.
#[derive(Clone, Copy, Debug, PartialEq, Eq)]
pub enum EmailStatus {
    Pending,
    Queued,
    Sent,
    Delivered,
    Bounced,
    Complained,
    Failed,
}

impl EmailStatus {
    pub open spec fn wire_name(self) -> Seq<char> {
        match self {
            EmailStatus::Pending => "pending"@,
            EmailStatus::Queued => "queued"@,
            EmailStatus::Sent => "sent"@,
            EmailStatus::Delivered => "delivered"@,
            EmailStatus::Bounced => "bounced"@,
            EmailStatus::Complained => "complained"@,
            EmailStatus::Failed => "failed"@,
        }
    }

    /// The status's name on the wire.
    pub fn as_str(&self) -> (r: &'static str)
        ensures
            r@ == self.wire_name(),
    {
        proof {
            reveal_strlit("pending");
            reveal_strlit("queued");
            reveal_strlit("sent");
            reveal_strlit("delivered");
            reveal_strlit("bounced");
            reveal_strlit("complained");
            reveal_strlit("failed");
        }
        match self {
            EmailStatus::Pending => "pending",
            EmailStatus::Queued => "queued",
            EmailStatus::Sent => "sent",
            EmailStatus::Delivered => "delivered",
            EmailStatus::Bounced => "bounced",
            EmailStatus::Complained => "complained",
            EmailStatus::Failed => "failed",
        }
    }
}

impl Default for EmailStatus {
    fn default() -> (r: Self)
        ensures
            r == EmailStatus::Pending,
    {
        EmailStatus::Pending
    }
}

/// Contact subscription status.
#[derive(Clone, Copy, Debug, PartialEq, Eq)]
pub enum ContactStatus {
    Active,
    Unsubscribed,
    Bounced,
    Complained,
    Suppressed,
}

impl ContactStatus {
    pub open spec fn wire_name(self) -> Seq<char> {
        match self {
            ContactStatus::Active => "active"@,
            ContactStatus::Unsubscribed => "unsubscribed"@,
            ContactStatus::Bounced => "bounced"@,
            ContactStatus::Complained => "complained"@,
            ContactStatus::Suppressed => "suppressed"@,
        }
    }

    /// The status's name on the wire.
    pub fn as_str(&self) -> (r: &'static str)
        ensures
            r@ == self.wire_name(),
    {
        match self {
            ContactStatus::Active => "active",
            ContactStatus::Unsubscribed => "unsubscribed",
            ContactStatus::Bounced => "bounced",
            ContactStatus::Complained => "complained",
            ContactStatus::Suppressed => "suppressed",
        }
    }
}

impl Default for ContactStatus {
    fn default() -> (r: Self)
        ensures
            r == ContactStatus::Active,
    {
        ContactStatus::Active
    }
}

/// Consent type recorded for a contact.
#[derive(Clone, Copy, Debug, PartialEq, Eq)]
pub enum ConsentType {
    Explicit,
    Implicit,
    LegitimateInterest,
}

impl ConsentType {
    pub open spec fn wire_name(self) -> Seq<char> {
        match self {
            ConsentType::Explicit => "explicit"@,
            ConsentType::Implicit => "implicit"@,
            ConsentType::LegitimateInterest => "legitimate_interest"@,
        }
    }

    /// The consent type's name on the wire.
    pub fn as_str(&self) -> (r: &'static str)
        ensures
            r@ == self.wire_name(),
    {
        match self {
            ConsentType::Explicit => "explicit",
            ConsentType::Implicit => "implicit",
            ConsentType::LegitimateInterest => "legitimate_interest",
        }
    }
}

/// Reason for suppressing a contact.
#[derive(Clone, Copy, Debug, PartialEq, Eq)]
pub enum SuppressReason {
    Manual,
    Unsubscribed,
    Bounced,
    Complained,
    SpamTrap,
}

impl SuppressReason {
    pub open spec fn wire_name(self) -> Seq<char> {
        match self {
            SuppressReason::Manual => "manual"@,
            SuppressReason::Unsubscribed => "unsubscribed"@,
            SuppressReason::Bounced => "bounced"@,
            SuppressReason::Complained => "complained"@,
            SuppressReason::SpamTrap => "spam_trap"@,
        }
    }

    /// The reason's name on the wire.
    pub fn as_str(&self) -> (r: &'static str)
        ensures
            r@ == self.wire_name(),
    {
        match self {
            SuppressReason::Manual => "manual",
            SuppressReason::Unsubscribed => "unsubscribed",
            SuppressReason::Bounced => "bounced",
            SuppressReason::Complained => "complained",
            SuppressReason::SpamTrap => "spam_trap",
        }
    }
}

/// Verification result status.
#[derive(Clone, Copy, Debug, PartialEq, Eq)]
pub enum VerificationStatus {
    Clean,
    Dirty,
    Valid,
    Invalid,
    Risky,
    Unknown,
}

impl VerificationStatus {
    pub open spec fn wire_name(self) -> Seq<char> {
        match self {
            VerificationStatus::Clean => "clean"@,
            VerificationStatus::Dirty => "dirty"@,
            VerificationStatus::Valid => "valid"@,
            VerificationStatus::Invalid => "invalid"@,
            VerificationStatus::Risky => "risky"@,
            VerificationStatus::Unknown => "unknown"@,
        }
    }

    /// The status's name on the wire.
    pub fn as_str(&self) -> (r: &'static str)
        ensures
            r@ == self.wire_name(),
    {
        match self {
            VerificationStatus::Clean => "clean",
            VerificationStatus::Dirty => "dirty",
            VerificationStatus::Valid => "valid",
            VerificationStatus::Invalid => "invalid",
            VerificationStatus::Risky => "risky",
            VerificationStatus::Unknown => "unknown",
        }
    }
}

/// The query pair for an optional parameter: none when it is absent.
pub open spec fn optional_pair(key: Seq<char>, value: Option<Seq<char>>) -> Seq<
    (Seq<char>, Seq<char>),
> {
    match value {
        Some(v) => seq![(key, v)],
        None => Seq::empty(),
    }
}

pub open spec fn opt_int_text(v: Option<i32>) -> Option<Seq<char>> {
    match v {
        Some(n) => Some(int_text(n as int)),
        None => None,
    }
}

fn optional_int(v: Option<i32>) -> (r: QueryValue)
    ensures
        match v {
            Some(n) => r == QueryValue::Int(n as i64),
            None => r == QueryValue::Null,
        },
{
    match v {
        Some(n) => QueryValue::Int(n as i64),
        None => QueryValue::Null,
    }
}

fn optional_text(v: Option<&'static str>) -> (r: QueryValue)
    ensures
        match v {
            Some(s) => (r matches QueryValue::Str(t) && t@ == s@),
            None => r == QueryValue::Null,
        },
{
    match v {
        Some(s) => QueryValue::Str(String::from_str(s)),
        None => QueryValue::Null,
    }
}

fn pair(key: &str, value: QueryValue) -> (r: (String, QueryValue))
    ensures
        r.0@ == key@,
        r.1 == value,
{
    (String::from_str(key), value)
}

/// The query of a listing filtered by status: status, page and limit,
/// absent ones null.
fn status_page_limit_query(status: Option<&'static str>, page: Option<i32>, limit: Option<i32>) -> (r: Vec<
    (String, QueryValue),
>)
    ensures
        encoded_query(r@) == optional_pair("status"@, opt_str_text(status)) + optional_pair(
            "page"@,
            opt_int_text(page),
        ) + optional_pair("limit"@, opt_int_text(limit)),
{
    let mut r: Vec<(String, QueryValue)> = Vec::new();
    let p0 = pair("status", optional_text(status));
    let p1 = pair("page", optional_int(page));
    let p2 = pair("limit", optional_int(limit));
    proof {
        let e = Seq::<(String, QueryValue)>::empty();
        lemma_encoded_query_push(e, p0);
        lemma_encoded_query_push(e.push(p0), p1);
        lemma_encoded_query_push(e.push(p0).push(p1), p2);
        assert(encoded_query(e) =~= Seq::empty());
        assert(query_pair(p0.0@, p0.1) =~= optional_pair("status"@, opt_str_text(status)));
        assert(query_pair(p1.0@, p1.1) =~= optional_pair("page"@, opt_int_text(page)));
        assert(query_pair(p2.0@, p2.1) =~= optional_pair("limit"@, opt_int_text(limit)));
    }
    r.push(p0);
    r.push(p1);
    r.push(p2);
    assert(r@ =~= Seq::<(String, QueryValue)>::empty().push(p0).push(p1).push(p2));
    r
}

/// Parameters for listing emails.
#[derive(Clone, Copy, Debug, Default)]
pub struct ListEmailsParams {
    pub status: Option<EmailStatus>,
    pub page: Option<i32>,
    pub limit: Option<i32>,
}

impl ListEmailsParams {
    /// The query parameters of the listing; absent ones are null.
    pub fn to_query(&self) -> (r: Vec<(String, QueryValue)>)
        ensures
            encoded_query(r@) == optional_pair(
                "status"@,
                match self.status {
                    Some(s) => Some(s.wire_name()),
                    None => None,
                },
            ) + optional_pair("page"@, opt_int_text(self.page)) + optional_pair(
                "limit"@,
                opt_int_text(self.limit),
            ),
    {
        let status = match self.status {
            Some(s) => Some(s.as_str()),
            None => None,
        };
        status_page_limit_query(status, self.page, self.limit)
    }
}

/// Parameters for listing the contacts of a list.
#[derive(Clone, Copy, Debug, Default)]
pub struct ListContactsParams {
    pub status: Option<ContactStatus>,
    pub page: Option<i32>,
    pub limit: Option<i32>,
}

impl ListContactsParams {
    /// The query parameters of the listing; absent ones are null.
    pub fn to_query(&self) -> (r: Vec<(String, QueryValue)>)
        ensures
            encoded_query(r@) == optional_pair(
                "status"@,
                match self.status {
                    Some(s) => Some(s.wire_name()),
                    None => None,
                },
            ) + optional_pair("page"@, opt_int_text(self.page)) + optional_pair(
                "limit"@,
                opt_int_text(self.limit),
            ),
    {
        let status = match self.status {
            Some(s) => Some(s.as_str()),
            None => None,
        };
        status_page_limit_query(status, self.page, self.limit)
    }
}

/// Parameters for listing contact lists.
#[derive(Clone, Copy, Debug, Default)]
pub struct ListListsParams {
    pub page: Option<i32>,
    pub limit: Option<i32>,
}

impl ListListsParams {
    /// The query parameters of the listing; absent ones are null.
    pub fn to_query(&self) -> (r: Vec<(String, QueryValue)>)
        ensures
            encoded_query(r@) == optional_pair("page"@, opt_int_text(self.page)) + optional_pair(
                "limit"@,
                opt_int_text(self.limit),
            ),
    {
        let mut r: Vec<(String, QueryValue)> = Vec::new();
        let p0 = pair("page", optional_int(self.page));
        let p1 = pair("limit", optional_int(self.limit));
        proof {
            let e = Seq::<(String, QueryValue)>::empty();
            lemma_encoded_query_push(e, p0);
            lemma_encoded_query_push(e.push(p0), p1);
            assert(encoded_query(e) =~= Seq::empty());
            assert(query_pair(p0.0@, p0.1) =~= optional_pair("page"@, opt_int_text(self.page)));
            assert(query_pair(p1.0@, p1.1) =~= optional_pair("limit"@, opt_int_text(self.limit)));
        }
        r.push(p0);
        r.push(p1);
        assert(r@ =~= Seq::<(String, QueryValue)>::empty().push(p0).push(p1));
        r
    }
}

/// Pagination information returned with list endpoints.
#[derive(Clone, Copy, Debug, PartialEq, Eq)]
pub struct Pagination {
    pub page: i32,
    pub limit: i32,
    pub total: i32,
    pub total_pages: i32,
    pub has_next: bool,
    pub has_prev: bool,
}

/// Contact list object.
#[derive(Clone, Debug)]
pub struct List {
    pub id: String,
    pub name: String,
    pub description: Option<String>,
    pub total_contacts: i32,
    pub active_contacts: i32,
    pub suppressed_contacts: i32,
    pub tags: Vec<String>,
    pub created_at: String,
    pub updated_at: Option<String>,
}

/// The page shown when a listing does not ask for one.
pub const DEFAULT_PAGE: i32 = 1;

/// The page size used when a listing of contact lists does not ask for one.
pub const DEFAULT_LISTS_LIMIT: i32 = 50;

/// Paginated contact lists.
#[derive(Clone, Debug)]
pub struct ListsResponse {
    pub lists: Vec<List>,
    pub pagination: Pagination,
}

impl ListsResponse {
    /// Wraps the contact lists an endpoint returned as a flat array: the
    /// page and limit are those asked for, or the defaults; the endpoint
    /// gives no totals, so they are zero and no neighbouring page is known.
    pub fn from_lists(lists: Vec<List>, params: &ListListsParams) -> (r: Self)
        ensures
            r.lists == lists,
            r.pagination == (Pagination {
                page: match params.page {
                    Some(p) => p,
                    None => DEFAULT_PAGE,
                },
                limit: match params.limit {
                    Some(l) => l,
                    None => DEFAULT_LISTS_LIMIT,
                },
                total: 0,
                total_pages: 0,
                has_next: false,
                has_prev: false,
            }),
    {
        let page = match params.page {
            Some(p) => p,
            None => DEFAULT_PAGE,
        };
        let limit = match params.limit {
            Some(l) => l,
            None => DEFAULT_LISTS_LIMIT,
        };
        ListsResponse {
            lists,
            pagination: Pagination {
                page,
                limit,
                total: 0,
                total_pages: 0,
                has_next: false,
                has_prev: false,
            },
        }
    }
}

} // verus!
