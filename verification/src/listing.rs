//! List queries: pagination defaults, search patterns, and the list
//! endpoints' semantics — each one a pure function from the stored rows
//! to the requested window.  Soft-deleted rows are always filtered out;
//! matchings and postings are scoped to the requesting user through the
//! posting → customer ownership chain; and rows come back newest first
//! (the store appends in creation order, so newest first is the stored
//! order reversed), with favorite postings ahead of the rest.

use vstd::prelude::*;
use crate::customers::{Customer, CustomerType};
use crate::matchings::{Matching, MatchingStatus};
use crate::postings::{JobPosting, JobSeekingPosting, PostingStatus, SettlementStatus};
use crate::textutil::{lower_of, str_lowercase};

verus! {

/// A customer list query; `tag_ids` is a comma-separated id list.
#[derive(Clone, Debug)]
pub struct ListCustomersQuery {
    pub customer_type: Option<CustomerType>,
    pub tag_ids: Option<String>,
    pub limit: Option<i64>,
    pub offset: Option<i64>,
}

/// A customer search query.
#[derive(Clone, Debug)]
pub struct SearchCustomersQuery {
    pub q: String,
    pub limit: Option<i64>,
    pub offset: Option<i64>,
}

/// A job-posting list query.
#[derive(Clone, Debug)]
pub struct ListJobPostingsQuery {
    pub status: Option<PostingStatus>,
    pub settlement_status: Option<SettlementStatus>,
    pub is_favorite: Option<bool>,
    pub limit: Option<i64>,
    pub offset: Option<i64>,
}

/// A job-seeking list query.
#[derive(Clone, Debug)]
pub struct ListJobSeekingsQuery {
    pub status: Option<PostingStatus>,
    pub settlement_status: Option<SettlementStatus>,
    pub is_favorite: Option<bool>,
    pub limit: Option<i64>,
    pub offset: Option<i64>,
}

/// A matching list query.
#[derive(Clone, Debug)]
pub struct ListMatchingsQuery {
    pub status: Option<MatchingStatus>,
    pub limit: Option<i64>,
    pub offset: Option<i64>,
}

/// A tag list query.
#[derive(Clone, Debug)]
pub struct ListTagsQuery {
    pub limit: Option<i64>,
    pub offset: Option<i64>,
}

/// The pagination defaults: 50 rows starting at 0.
pub const DEFAULT_LIMIT: i64 = 50;

pub const DEFAULT_OFFSET: i64 = 0;

/// The effective limit of a query: the requested one, or 50.
pub open spec fn effective_limit(limit: Option<i64>) -> i64 {
    match limit {
        Some(l) => l,
        None => DEFAULT_LIMIT,
    }
}

/// The effective offset of a query: the requested one, or 0.
pub open spec fn effective_offset(offset: Option<i64>) -> i64 {
    match offset {
        Some(o) => o,
        None => DEFAULT_OFFSET,
    }
}

/// Resolve a query's pagination: a missing limit defaults to 50, a
/// missing offset to 0.
pub fn pagination(limit: Option<i64>, offset: Option<i64>) -> (r: (i64, i64))
    ensures
        r.0 == effective_limit(limit),
        r.1 == effective_offset(offset),
{
    (
        match limit {
            Some(l) => l,
            None => DEFAULT_LIMIT,
        },
        match offset {
            Some(o) => o,
            None => DEFAULT_OFFSET,
        },
    )
}

/// Build the pattern a search term is matched with: the term wrapped in
/// `%` wildcards.
pub fn search_pattern(term: &str) -> (r: String)
    ensures
        r@ == "%"@ + term@ + "%"@,
{
    let mut s = String::from_str("%");
    s.append(term);
    s.append("%");
    s
}

/// Relies on str::contains: whether `needle` occurs contiguously in
/// `haystack`.
#[verifier::external_body]
pub fn str_contains(haystack: &str, needle: &str) -> (r: bool)
    ensures
        r == (exists|i: int|
            0 <= i <= haystack@.len() - needle@.len() && #[trigger] haystack@.subrange(
                i,
                i + needle@.len(),
            ) == needle@),
{
    haystack.contains(needle)
}

/// The window `offset`/`limit` cuts from a sequence of rows.
pub open spec fn page_of<T>(rows: Seq<T>, limit: i64, offset: i64) -> Seq<T> {
    let start = if offset < 0 {
        0
    } else if offset > rows.len() {
        rows.len() as int
    } else {
        offset as int
    };
    let want = if limit < 0 {
        0
    } else {
        limit as int
    };
    let end = if start + want > rows.len() {
        rows.len() as int
    } else {
        start + want
    };
    rows.subrange(start, end)
}

/// Whether some stored customer row with this id belongs to `user_id` —
/// the posting → customer ownership join of the list queries.
pub open spec fn customer_links_user(
    customers: Seq<Customer>,
    customer_id: i64,
    user_id: i64,
) -> bool {
    exists|i: int|
        0 <= i < customers.len() && (#[trigger] customers[i]).id == customer_id && customers[i]
            .user_id == user_id
}

/// Whether some stored customer row with this id belongs to `user_id`.
fn customer_link_exists(customers: &Vec<Customer>, customer_id: i64, user_id: i64) -> (r: bool)
    ensures
        r == customer_links_user(customers@, customer_id, user_id),
{
    let n = customers.len();
    let mut i: usize = 0;
    while i < n
        invariant
            n == customers@.len(),
            i <= n,
            forall|j: int|
                0 <= j < i ==> !((#[trigger] customers@[j]).id == customer_id && customers@[j]
                    .user_id == user_id),
        decreases n - i,
    {
        let c = &customers[i];
        if c.id == customer_id && c.user_id == user_id {
            return true;
        }
        i = i + 1;
    }
    false
}

/// Whether a matching reaches `user_id` through its job posting's
/// customer — the join behind the matching list.
pub open spec fn matching_links_user(
    m: Matching,
    postings: Seq<JobPosting>,
    customers: Seq<Customer>,
    user_id: i64,
) -> bool {
    exists|i: int|
        0 <= i < postings.len() && (#[trigger] postings[i]).id == m.job_posting_id
            && customer_links_user(customers, postings[i].customer_id, user_id)
}

/// Whether a matching reaches `user_id` through its posting's customer.
fn matching_link_exists(
    m: &Matching,
    postings: &Vec<JobPosting>,
    customers: &Vec<Customer>,
    user_id: i64,
) -> (r: bool)
    ensures
        r == matching_links_user(*m, postings@, customers@, user_id),
{
    let n = postings.len();
    let mut i: usize = 0;
    while i < n
        invariant
            n == postings@.len(),
            i <= n,
            forall|j: int|
                0 <= j < i ==> !((#[trigger] postings@[j]).id == m.job_posting_id
                    && customer_links_user(customers@, postings@[j].customer_id, user_id)),
        decreases n - i,
    {
        let p = &postings[i];
        if p.id == m.job_posting_id && customer_link_exists(customers, p.customer_id, user_id) {
            return true;
        }
        i = i + 1;
    }
    false
}

/// Whether a row survives a matching-list query: live, of the requested
/// status when one was requested, and the requesting user's through the
/// posting → customer chain.
pub open spec fn matching_passes(
    m: Matching,
    postings: Seq<JobPosting>,
    customers: Seq<Customer>,
    user_id: i64,
    status: Option<MatchingStatus>,
) -> bool {
    &&& m.deleted_at is None
    &&& (match status {
        Some(st) => m.matching_status == st,
        None => true,
    })
    &&& matching_links_user(m, postings, customers, user_id)
}

/// The user's live matchings of the requested status, in stored order.
pub open spec fn matchings_filtered(
    rows: Seq<Matching>,
    postings: Seq<JobPosting>,
    customers: Seq<Customer>,
    user_id: i64,
    status: Option<MatchingStatus>,
) -> Seq<Matching> {
    rows.filter(|m: Matching| matching_passes(m, postings, customers, user_id, status))
}

/// List a user's matchings: keep their live rows of the requested
/// status, newest first (the stored order reversed), and cut the
/// requested page.
#[verifier::loop_isolation(false)]
pub fn list_matchings(
    rows: &Vec<Matching>,
    postings: &Vec<JobPosting>,
    customers: &Vec<Customer>,
    user_id: i64,
    status: Option<MatchingStatus>,
    limit: Option<i64>,
    offset: Option<i64>,
) -> (r: Vec<Matching>)
    ensures
        r@ == page_of(
            matchings_filtered(rows@, postings@, customers@, user_id, status).reverse(),
            effective_limit(limit),
            effective_offset(offset),
        ),
{
    let mut kept: Vec<Matching> = Vec::new();
    let mut i: usize = 0;
    let n = rows.len();
    while i < n
        invariant
            i <= n,
            kept@ == matchings_filtered(
                rows@.subrange(0, i as int),
                postings@,
                customers@,
                user_id,
                status,
            ),
        decreases n - i,
    {
        proof {
            reveal(Seq::filter);
            assert(rows@.subrange(0, i + 1 as int).drop_last() == rows@.subrange(0, i as int));
        }
        let m = &rows[i];
        let keep = m.deleted_at.is_none() && (match status {
            Some(st) => m.matching_status == st,
            None => true,
        }) && matching_link_exists(m, postings, customers, user_id);
        if keep {
            kept.push(m.duplicate());
        }
        i = i + 1;
    }
    proof {
        assert(rows@.subrange(0, n as int) == rows@);
    }
    let newest_first = reverse_matchings(kept);
    paginate_matchings(newest_first, limit, offset)
}

/// The rows in reverse order: the store appends in creation order, so
/// this is newest first.
fn reverse_matchings(rows: Vec<Matching>) -> (r: Vec<Matching>)
    ensures
        r@ == rows@.reverse(),
{
    let n = rows.len();
    let mut out: Vec<Matching> = Vec::new();
    let mut i: usize = n;
    while i > 0
        invariant
            i <= n,
            n == rows@.len(),
            out@.len() == n - i,
            forall|k: int| 0 <= k < out@.len() ==> #[trigger] out@[k] == rows@[n - 1 - k],
        decreases i,
    {
        out.push(rows[i - 1].duplicate());
        i = i - 1;
    }
    proof {
        assert(out@ =~= rows@.reverse());
    }
    out
}

/// Cut the requested page out of already ordered rows.
#[verifier::loop_isolation(false)]
fn paginate_matchings(rows: Vec<Matching>, limit: Option<i64>, offset: Option<i64>) -> (r: Vec<
    Matching,
>)
    ensures
        r@ == page_of(rows@, effective_limit(limit), effective_offset(offset)),
{
    let (limit, offset) = pagination(limit, offset);
    let n = rows.len();
    let start: usize = if offset < 0 {
        0
    } else if offset as u64 > n as u64 {
        n
    } else {
        offset as usize
    };
    let want: usize = if limit < 0 {
        0
    } else if limit as u64 > n as u64 {
        n
    } else {
        limit as usize
    };
    let end: usize = if want > n - start {
        n
    } else {
        start + want
    };
    let mut out: Vec<Matching> = Vec::new();
    let mut i: usize = start;
    while i < end
        invariant
            start <= i <= end <= n,
            out@ == rows@.subrange(start as int, i as int),
        decreases end - i,
    {
        proof {
            assert(rows@.subrange(start as int, i + 1 as int).drop_last() == rows@.subrange(
                start as int,
                i as int,
            ));
        }
        out.push(rows[i].duplicate());
        i = i + 1;
    }
    out
}

/// Whether a row survives a customer-list query: live, owned by the
/// caller, and of the requested type when one was requested.
pub open spec fn customer_passes(c: Customer, user_id: i64, kind: Option<CustomerType>) -> bool {
    c.user_id == user_id && c.deleted_at is None && (match kind {
        Some(k) => c.customer_type == k,
        None => true,
    })
}

/// A user's live customers of the requested type, in stored order.
pub open spec fn customers_filtered(
    rows: Seq<Customer>,
    user_id: i64,
    kind: Option<CustomerType>,
) -> Seq<Customer> {
    rows.filter(|c: Customer| customer_passes(c, user_id, kind))
}

/// List a user's customers: keep their live rows of the requested type,
/// newest first (the stored order reversed), and cut the requested
/// page.
#[verifier::loop_isolation(false)]
pub fn list_customers_by_user(
    rows: &Vec<Customer>,
    user_id: i64,
    kind: Option<CustomerType>,
    limit: Option<i64>,
    offset: Option<i64>,
) -> (r: Vec<Customer>)
    ensures
        r@ == page_of(
            customers_filtered(rows@, user_id, kind).reverse(),
            effective_limit(limit),
            effective_offset(offset),
        ),
{
    let mut kept: Vec<Customer> = Vec::new();
    let mut i: usize = 0;
    let n = rows.len();
    while i < n
        invariant
            i <= n,
            kept@ == customers_filtered(rows@.subrange(0, i as int), user_id, kind),
        decreases n - i,
    {
        proof {
            reveal(Seq::filter);
            assert(rows@.subrange(0, i + 1 as int).drop_last() == rows@.subrange(0, i as int));
        }
        let c = &rows[i];
        let keep = c.user_id == user_id && c.deleted_at.is_none() && (match kind {
            Some(k) => c.customer_type == k,
            None => true,
        });
        if keep {
            kept.push(c.duplicate());
        }
        i = i + 1;
    }
    proof {
        assert(rows@.subrange(0, n as int) == rows@);
    }
    let newest_first = reverse_customers(kept);
    paginate_customers(newest_first, limit, offset)
}

/// The rows in reverse order: newest first for an append-ordered store.
fn reverse_customers(rows: Vec<Customer>) -> (r: Vec<Customer>)
    ensures
        r@ == rows@.reverse(),
{
    let n = rows.len();
    let mut out: Vec<Customer> = Vec::new();
    let mut i: usize = n;
    while i > 0
        invariant
            i <= n,
            n == rows@.len(),
            out@.len() == n - i,
            forall|k: int| 0 <= k < out@.len() ==> #[trigger] out@[k] == rows@[n - 1 - k],
        decreases i,
    {
        out.push(rows[i - 1].duplicate());
        i = i - 1;
    }
    proof {
        assert(out@ =~= rows@.reverse());
    }
    out
}

/// Cut the requested page out of already ordered customers.
#[verifier::loop_isolation(false)]
fn paginate_customers(rows: Vec<Customer>, limit: Option<i64>, offset: Option<i64>) -> (r: Vec<
    Customer,
>)
    ensures
        r@ == page_of(rows@, effective_limit(limit), effective_offset(offset)),
{
    let (limit, offset) = pagination(limit, offset);
    let n = rows.len();
    let start: usize = if offset < 0 {
        0
    } else if offset as u64 > n as u64 {
        n
    } else {
        offset as usize
    };
    let want: usize = if limit < 0 {
        0
    } else if limit as u64 > n as u64 {
        n
    } else {
        limit as usize
    };
    let end: usize = if want > n - start {
        n
    } else {
        start + want
    };
    let mut out: Vec<Customer> = Vec::new();
    let mut i: usize = start;
    while i < end
        invariant
            start <= i <= end <= n,
            out@ == rows@.subrange(start as int, i as int),
        decreases end - i,
    {
        proof {
            assert(rows@.subrange(start as int, i + 1 as int).drop_last() == rows@.subrange(
                start as int,
                i as int,
            ));
        }
        out.push(rows[i].duplicate());
        i = i + 1;
    }
    out
}

/// Whether a customer matches a search: live, the caller's, and with
/// the term occurring in the lowercased name or phone — the
/// case-insensitive `%term%` match.
pub open spec fn customer_matches_search(c: Customer, user_id: i64, lowered_term: Seq<char>) -> bool {
    &&& c.user_id == user_id
    &&& c.deleted_at is None
    &&& ((exists|i: int|
        0 <= i <= lower_of(c.name@).len() - lowered_term.len() && #[trigger] lower_of(
            c.name@,
        ).subrange(i, i + lowered_term.len()) == lowered_term) || (exists|i: int|
        0 <= i <= lower_of(c.phone@).len() - lowered_term.len() && #[trigger] lower_of(
            c.phone@,
        ).subrange(i, i + lowered_term.len()) == lowered_term))
}

/// The customers matching a search, in stored order.
pub open spec fn customers_searched(rows: Seq<Customer>, user_id: i64, lowered_term: Seq<char>)
    -> Seq<Customer> {
    rows.filter(|c: Customer| customer_matches_search(c, user_id, lowered_term))
}

/// Search a user's customers by name or phone, case-insensitively,
/// newest first, and cut the requested page.
#[verifier::loop_isolation(false)]
pub fn search_customers(
    rows: &Vec<Customer>,
    user_id: i64,
    term: &str,
    limit: Option<i64>,
    offset: Option<i64>,
) -> (r: Vec<Customer>)
    ensures
        r@ == page_of(
            customers_searched(rows@, user_id, lower_of(term@)).reverse(),
            effective_limit(limit),
            effective_offset(offset),
        ),
{
    let lowered = str_lowercase(term);
    let mut kept: Vec<Customer> = Vec::new();
    let mut i: usize = 0;
    let n = rows.len();
    while i < n
        invariant
            i <= n,
            lowered@ == lower_of(term@),
            kept@ == customers_searched(rows@.subrange(0, i as int), user_id, lower_of(term@)),
        decreases n - i,
    {
        proof {
            reveal(Seq::filter);
            assert(rows@.subrange(0, i + 1 as int).drop_last() == rows@.subrange(0, i as int));
        }
        let c = &rows[i];
        let keep = c.user_id == user_id && c.deleted_at.is_none() && {
            let lname = str_lowercase(c.name.as_str());
            let lphone = str_lowercase(c.phone.as_str());
            str_contains(lname.as_str(), lowered.as_str()) || str_contains(
                lphone.as_str(),
                lowered.as_str(),
            )
        };
        if keep {
            kept.push(c.duplicate());
        }
        i = i + 1;
    }
    proof {
        assert(rows@.subrange(0, n as int) == rows@);
    }
    let newest_first = reverse_customers(kept);
    paginate_customers(newest_first, limit, offset)
}

/// Whether a row survives a job-posting list query: live, agreeing with
/// each requested filter, and the requesting user's through its
/// customer.
pub open spec fn job_posting_passes(
    p: JobPosting,
    customers: Seq<Customer>,
    user_id: i64,
    status: Option<PostingStatus>,
    settlement: Option<SettlementStatus>,
    favorite: Option<bool>,
) -> bool {
    &&& p.deleted_at is None
    &&& (match status {
        Some(st) => p.posting_status == st,
        None => true,
    })
    &&& (match settlement {
        Some(st) => p.settlement_status == st,
        None => true,
    })
    &&& (match favorite {
        Some(f) => p.is_favorite == f,
        None => true,
    })
    &&& customer_links_user(customers, p.customer_id, user_id)
}

/// The user's live job postings agreeing with every requested filter,
/// in stored order.
pub open spec fn job_postings_filtered(
    rows: Seq<JobPosting>,
    customers: Seq<Customer>,
    user_id: i64,
    status: Option<PostingStatus>,
    settlement: Option<SettlementStatus>,
    favorite: Option<bool>,
) -> Seq<JobPosting> {
    rows.filter(
        |p: JobPosting| job_posting_passes(p, customers, user_id, status, settlement, favorite),
    )
}

/// The favorite rows of a filtered sequence, in stored order.
pub open spec fn favorite_postings(rows: Seq<JobPosting>) -> Seq<JobPosting> {
    rows.filter(|p: JobPosting| p.is_favorite)
}

/// The non-favorite rows of a filtered sequence, in stored order.
pub open spec fn other_postings(rows: Seq<JobPosting>) -> Seq<JobPosting> {
    rows.filter(|p: JobPosting| !p.is_favorite)
}

/// The order the posting list comes back in: favorites first, then the
/// rest, each newest first.
pub open spec fn job_postings_listed(
    rows: Seq<JobPosting>,
    customers: Seq<Customer>,
    user_id: i64,
    status: Option<PostingStatus>,
    settlement: Option<SettlementStatus>,
    favorite: Option<bool>,
) -> Seq<JobPosting> {
    let f = job_postings_filtered(rows, customers, user_id, status, settlement, favorite);
    favorite_postings(f).reverse() + other_postings(f).reverse()
}

/// List a user's job postings: keep their live rows agreeing with every
/// requested filter, order them favorites first and newest first, and
/// cut the requested page.
#[verifier::loop_isolation(false)]
pub fn list_job_postings(
    rows: &Vec<JobPosting>,
    customers: &Vec<Customer>,
    user_id: i64,
    status: Option<PostingStatus>,
    settlement: Option<SettlementStatus>,
    favorite: Option<bool>,
    limit: Option<i64>,
    offset: Option<i64>,
) -> (r: Vec<JobPosting>)
    ensures
        r@ == page_of(
            job_postings_listed(rows@, customers@, user_id, status, settlement, favorite),
            effective_limit(limit),
            effective_offset(offset),
        ),
{
    let mut kept: Vec<JobPosting> = Vec::new();
    let mut i: usize = 0;
    let n = rows.len();
    while i < n
        invariant
            i <= n,
            kept@ == job_postings_filtered(
                rows@.subrange(0, i as int),
                customers@,
                user_id,
                status,
                settlement,
                favorite,
            ),
        decreases n - i,
    {
        proof {
            reveal(Seq::filter);
            assert(rows@.subrange(0, i + 1 as int).drop_last() == rows@.subrange(0, i as int));
        }
        let p = &rows[i];
        let keep = p.deleted_at.is_none() && (match status {
            Some(st) => p.posting_status == st,
            None => true,
        }) && (match settlement {
            Some(st) => p.settlement_status == st,
            None => true,
        }) && (match favorite {
            Some(f) => p.is_favorite == f,
            None => true,
        }) && customer_link_exists(customers, p.customer_id, user_id);
        if keep {
            kept.push(p.duplicate());
        }
        i = i + 1;
    }
    proof {
        assert(rows@.subrange(0, n as int) == rows@);
    }
    let ordered = order_postings(kept);
    paginate_job_postings(ordered, limit, offset)
}

/// Order filtered postings as the list returns them: favorites first,
/// then the rest, each newest first.
#[verifier::loop_isolation(false)]
fn order_postings(rows: Vec<JobPosting>) -> (r: Vec<JobPosting>)
    ensures
        r@ == favorite_postings(rows@).reverse() + other_postings(rows@).reverse(),
{
    let n = rows.len();
    let mut favs: Vec<JobPosting> = Vec::new();
    let mut others: Vec<JobPosting> = Vec::new();
    let mut i: usize = 0;
    while i < n
        invariant
            i <= n,
            favs@ == favorite_postings(rows@.subrange(0, i as int)),
            others@ == other_postings(rows@.subrange(0, i as int)),
        decreases n - i,
    {
        proof {
            reveal(Seq::filter);
            assert(rows@.subrange(0, i + 1 as int).drop_last() == rows@.subrange(0, i as int));
        }
        let p = &rows[i];
        if p.is_favorite {
            favs.push(p.duplicate());
        } else {
            others.push(p.duplicate());
        }
        i = i + 1;
    }
    proof {
        assert(rows@.subrange(0, n as int) == rows@);
    }
    let mut out = reverse_postings(favs);
    let mut tail = reverse_postings(others);
    let ghost head = out@;
    let m = tail.len();
    let mut j: usize = 0;
    while j < m
        invariant
            j <= m,
            m == tail@.len(),
            out@ == head + tail@.subrange(0, j as int),
        decreases m - j,
    {
        proof {
            assert(tail@.subrange(0, j + 1 as int).drop_last() == tail@.subrange(0, j as int));
        }
        out.push(tail[j].duplicate());
        j = j + 1;
    }
    proof {
        assert(tail@.subrange(0, m as int) == tail@);
    }
    out
}

/// The rows in reverse order: newest first for an append-ordered store.
fn reverse_postings(rows: Vec<JobPosting>) -> (r: Vec<JobPosting>)
    ensures
        r@ == rows@.reverse(),
{
    let n = rows.len();
    let mut out: Vec<JobPosting> = Vec::new();
    let mut i: usize = n;
    while i > 0
        invariant
            i <= n,
            n == rows@.len(),
            out@.len() == n - i,
            forall|k: int| 0 <= k < out@.len() ==> #[trigger] out@[k] == rows@[n - 1 - k],
        decreases i,
    {
        out.push(rows[i - 1].duplicate());
        i = i - 1;
    }
    proof {
        assert(out@ =~= rows@.reverse());
    }
    out
}

/// Cut the requested page out of already ordered job postings.
#[verifier::loop_isolation(false)]
fn paginate_job_postings(rows: Vec<JobPosting>, limit: Option<i64>, offset: Option<i64>) -> (r:
    Vec<JobPosting>)
    ensures
        r@ == page_of(rows@, effective_limit(limit), effective_offset(offset)),
{
    let (limit, offset) = pagination(limit, offset);
    let n = rows.len();
    let start: usize = if offset < 0 {
        0
    } else if offset as u64 > n as u64 {
        n
    } else {
        offset as usize
    };
    let want: usize = if limit < 0 {
        0
    } else if limit as u64 > n as u64 {
        n
    } else {
        limit as usize
    };
    let end: usize = if want > n - start {
        n
    } else {
        start + want
    };
    let mut out: Vec<JobPosting> = Vec::new();
    let mut i: usize = start;
    while i < end
        invariant
            start <= i <= end <= n,
            out@ == rows@.subrange(start as int, i as int),
        decreases end - i,
    {
        proof {
            assert(rows@.subrange(start as int, i + 1 as int).drop_last() == rows@.subrange(
                start as int,
                i as int,
            ));
        }
        out.push(rows[i].duplicate());
        i = i + 1;
    }
    out
}

/// Whether a row survives a job-seeking list query: live, agreeing with
/// each requested filter, and the requesting user's through its
/// customer.
pub open spec fn job_seeking_passes(
    p: JobSeekingPosting,
    customers: Seq<Customer>,
    user_id: i64,
    status: Option<PostingStatus>,
    settlement: Option<SettlementStatus>,
    favorite: Option<bool>,
) -> bool {
    &&& p.deleted_at is None
    &&& (match status {
        Some(st) => p.posting_status == st,
        None => true,
    })
    &&& (match settlement {
        Some(st) => p.settlement_status == st,
        None => true,
    })
    &&& (match favorite {
        Some(f) => p.is_favorite == f,
        None => true,
    })
    &&& customer_links_user(customers, p.customer_id, user_id)
}

/// The user's live job-seeking postings agreeing with every requested
/// filter, in stored order.
pub open spec fn job_seekings_filtered(
    rows: Seq<JobSeekingPosting>,
    customers: Seq<Customer>,
    user_id: i64,
    status: Option<PostingStatus>,
    settlement: Option<SettlementStatus>,
    favorite: Option<bool>,
) -> Seq<JobSeekingPosting> {
    rows.filter(
        |p: JobSeekingPosting| job_seeking_passes(
            p,
            customers,
            user_id,
            status,
            settlement,
            favorite,
        ),
    )
}

/// The favorite rows of a filtered sequence, in stored order.
pub open spec fn favorite_seekings(rows: Seq<JobSeekingPosting>) -> Seq<JobSeekingPosting> {
    rows.filter(|p: JobSeekingPosting| p.is_favorite)
}

/// The non-favorite rows of a filtered sequence, in stored order.
pub open spec fn other_seekings(rows: Seq<JobSeekingPosting>) -> Seq<JobSeekingPosting> {
    rows.filter(|p: JobSeekingPosting| !p.is_favorite)
}

/// The order the seeking list comes back in: favorites first, then the
/// rest, each newest first.
pub open spec fn job_seekings_listed(
    rows: Seq<JobSeekingPosting>,
    customers: Seq<Customer>,
    user_id: i64,
    status: Option<PostingStatus>,
    settlement: Option<SettlementStatus>,
    favorite: Option<bool>,
) -> Seq<JobSeekingPosting> {
    let f = job_seekings_filtered(rows, customers, user_id, status, settlement, favorite);
    favorite_seekings(f).reverse() + other_seekings(f).reverse()
}

/// List a user's job-seeking postings: keep their live rows agreeing
/// with every requested filter, order them favorites first and newest
/// first, and cut the requested page.
#[verifier::loop_isolation(false)]
pub fn list_job_seeking_postings(
    rows: &Vec<JobSeekingPosting>,
    customers: &Vec<Customer>,
    user_id: i64,
    status: Option<PostingStatus>,
    settlement: Option<SettlementStatus>,
    favorite: Option<bool>,
    limit: Option<i64>,
    offset: Option<i64>,
) -> (r: Vec<JobSeekingPosting>)
    ensures
        r@ == page_of(
            job_seekings_listed(rows@, customers@, user_id, status, settlement, favorite),
            effective_limit(limit),
            effective_offset(offset),
        ),
{
    let mut kept: Vec<JobSeekingPosting> = Vec::new();
    let mut i: usize = 0;
    let n = rows.len();
    while i < n
        invariant
            i <= n,
            kept@ == job_seekings_filtered(
                rows@.subrange(0, i as int),
                customers@,
                user_id,
                status,
                settlement,
                favorite,
            ),
        decreases n - i,
    {
        proof {
            reveal(Seq::filter);
            assert(rows@.subrange(0, i + 1 as int).drop_last() == rows@.subrange(0, i as int));
        }
        let p = &rows[i];
        let keep = p.deleted_at.is_none() && (match status {
            Some(st) => p.posting_status == st,
            None => true,
        }) && (match settlement {
            Some(st) => p.settlement_status == st,
            None => true,
        }) && (match favorite {
            Some(f) => p.is_favorite == f,
            None => true,
        }) && customer_link_exists(customers, p.customer_id, user_id);
        if keep {
            kept.push(p.duplicate());
        }
        i = i + 1;
    }
    proof {
        assert(rows@.subrange(0, n as int) == rows@);
    }
    let ordered = order_seekings(kept);
    paginate_job_seekings(ordered, limit, offset)
}

/// Order filtered seekings as the list returns them: favorites first,
/// then the rest, each newest first.
#[verifier::loop_isolation(false)]
fn order_seekings(rows: Vec<JobSeekingPosting>) -> (r: Vec<JobSeekingPosting>)
    ensures
        r@ == favorite_seekings(rows@).reverse() + other_seekings(rows@).reverse(),
{
    let n = rows.len();
    let mut favs: Vec<JobSeekingPosting> = Vec::new();
    let mut others: Vec<JobSeekingPosting> = Vec::new();
    let mut i: usize = 0;
    while i < n
        invariant
            i <= n,
            favs@ == favorite_seekings(rows@.subrange(0, i as int)),
            others@ == other_seekings(rows@.subrange(0, i as int)),
        decreases n - i,
    {
        proof {
            reveal(Seq::filter);
            assert(rows@.subrange(0, i + 1 as int).drop_last() == rows@.subrange(0, i as int));
        }
        let p = &rows[i];
        if p.is_favorite {
            favs.push(p.duplicate());
        } else {
            others.push(p.duplicate());
        }
        i = i + 1;
    }
    proof {
        assert(rows@.subrange(0, n as int) == rows@);
    }
    let mut out = reverse_seekings(favs);
    let mut tail = reverse_seekings(others);
    let ghost head = out@;
    let m = tail.len();
    let mut j: usize = 0;
    while j < m
        invariant
            j <= m,
            m == tail@.len(),
            out@ == head + tail@.subrange(0, j as int),
        decreases m - j,
    {
        proof {
            assert(tail@.subrange(0, j + 1 as int).drop_last() == tail@.subrange(0, j as int));
        }
        out.push(tail[j].duplicate());
        j = j + 1;
    }
    proof {
        assert(tail@.subrange(0, m as int) == tail@);
    }
    out
}

/// The rows in reverse order: newest first for an append-ordered store.
fn reverse_seekings(rows: Vec<JobSeekingPosting>) -> (r: Vec<JobSeekingPosting>)
    ensures
        r@ == rows@.reverse(),
{
    let n = rows.len();
    let mut out: Vec<JobSeekingPosting> = Vec::new();
    let mut i: usize = n;
    while i > 0
        invariant
            i <= n,
            n == rows@.len(),
            out@.len() == n - i,
            forall|k: int| 0 <= k < out@.len() ==> #[trigger] out@[k] == rows@[n - 1 - k],
        decreases i,
    {
        out.push(rows[i - 1].duplicate());
        i = i - 1;
    }
    proof {
        assert(out@ =~= rows@.reverse());
    }
    out
}

/// Cut the requested page out of already ordered job-seeking postings.
#[verifier::loop_isolation(false)]
fn paginate_job_seekings(rows: Vec<JobSeekingPosting>, limit: Option<i64>, offset: Option<i64>)
    -> (r: Vec<JobSeekingPosting>)
    ensures
        r@ == page_of(rows@, effective_limit(limit), effective_offset(offset)),
{
    let (limit, offset) = pagination(limit, offset);
    let n = rows.len();
    let start: usize = if offset < 0 {
        0
    } else if offset as u64 > n as u64 {
        n
    } else {
        offset as usize
    };
    let want: usize = if limit < 0 {
        0
    } else if limit as u64 > n as u64 {
        n
    } else {
        limit as usize
    };
    let end: usize = if want > n - start {
        n
    } else {
        start + want
    };
    let mut out: Vec<JobSeekingPosting> = Vec::new();
    let mut i: usize = start;
    while i < end
        invariant
            start <= i <= end <= n,
            out@ == rows@.subrange(start as int, i as int),
        decreases end - i,
    {
        proof {
            assert(rows@.subrange(start as int, i + 1 as int).drop_last() == rows@.subrange(
                start as int,
                i as int,
            ));
        }
        out.push(rows[i].duplicate());
        i = i + 1;
    }
    out
}

} // verus!
