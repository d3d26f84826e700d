//! Dashboard statistics: the entity counts and the revenue sums.  The
//! store's join hands over one row per live matching of the user —
//! the matching with the settlement status of its two postings — and
//! this module does the exact arithmetic the aggregation asks for:
//! total revenue sums both fees of every matching, and the pending
//! amount sums each fee only while its posting side is still unsettled,
//! a missing fee counting as zero.

use vstd::prelude::*;
use crate::customers::Customer;
use crate::decimal::{add_fits, add_spec, Dec, dec_add, dec_wf};
use crate::listing::customers_filtered;
use crate::matchings::Matching;
use crate::postings::SettlementStatus;

verus! {

/// One row of the dashboard join: a matching and the settlement status
/// of the posting on each of its sides.
pub struct MatchingJoinRow {
    pub matching: Matching,
    pub posting_settlement: SettlementStatus,
    pub seeking_settlement: SettlementStatus,
}

/// The dashboard statistics body.
#[derive(Clone, Debug)]
pub struct DashboardStatsResponse {
    pub total_customers: i64,
    pub job_postings_count: i64,
    pub job_seekings_count: i64,
    pub matchings_count: i64,
    pub pending_amount: Dec,
    pub total_revenue: Dec,
}

/// A stored fee, a missing one counting as zero.
pub open spec fn fee_or_zero(f: Option<Dec>) -> Dec {
    match f {
        Some(d) => d,
        None => Dec { m: 0, s: 0 },
    }
}

/// What one join row adds to the total revenue and the pending amount,
/// in turn: both fees always count toward revenue, and each fee counts
/// toward the pending amount only while its side is unsettled.  `None`
/// when a sum leaves the representable range.
pub open spec fn row_folded(row: MatchingJoinRow, revenue: Dec, pending: Dec) -> Option<
    (Dec, Dec),
> {
    let employer = fee_or_zero(row.matching.employer_fee_amount);
    let employee = fee_or_zero(row.matching.employee_fee_amount);
    if !add_fits(revenue, employer) {
        None
    } else {
        let r1 = add_spec(revenue, employer);
        if !add_fits(r1, employee) {
            None
        } else {
            let r2 = add_spec(r1, employee);
            let p1 = if row.posting_settlement == SettlementStatus::Unsettled {
                if add_fits(pending, employer) {
                    Some(add_spec(pending, employer))
                } else {
                    None
                }
            } else {
                Some(pending)
            };
            match p1 {
                None => None,
                Some(p1v) => {
                    if row.seeking_settlement == SettlementStatus::Unsettled {
                        if add_fits(p1v, employee) {
                            Some((r2, add_spec(p1v, employee)))
                        } else {
                            None
                        }
                    } else {
                        Some((r2, p1v))
                    }
                },
            }
        }
    }
}

/// The two sums folded over a sequence of join rows, left to right.
pub open spec fn rows_folded(rows: Seq<MatchingJoinRow>, revenue: Dec, pending: Dec) -> Option<
    (Dec, Dec),
>
    decreases rows.len(),
{
    if rows.len() == 0 {
        Some((revenue, pending))
    } else {
        match row_folded(rows[0], revenue, pending) {
            None => None,
            Some(acc) => rows_folded(rows.drop_first(), acc.0, acc.1),
        }
    }
}

/// Compute the dashboard statistics for one user.  `customers` is every
/// stored customer row; `join_rows` is one row per live matching of the
/// user, carrying each side's settlement status; the two posting counts
/// are taken where the join was made.  Returns `None` exactly when an
/// exact sum leaves the representable range.
#[verifier::loop_isolation(false)]
pub fn dashboard_stats(
    customers: &Vec<Customer>,
    user_id: i64,
    job_postings_count: i64,
    job_seekings_count: i64,
    join_rows: &Vec<MatchingJoinRow>,
) -> (r: Option<DashboardStatsResponse>)
    requires
        forall|i: int| 0 <= i < join_rows@.len() ==> (#[trigger] join_rows@[i]).matching.wf(),
        customers@.len() <= i64::MAX,
        join_rows@.len() <= i64::MAX,
    ensures
        (match r {
            Some(stats) => ({
                &&& stats.total_customers == customers_filtered(
                    customers@,
                    user_id,
                    None,
                ).len() as i64
                &&& stats.job_postings_count == job_postings_count
                &&& stats.job_seekings_count == job_seekings_count
                &&& stats.matchings_count == join_rows@.len() as i64
                &&& rows_folded(join_rows@, Dec { m: 0, s: 0 }, Dec { m: 0, s: 0 }) == Some(
                    (stats.total_revenue, stats.pending_amount),
                )
            }),
            None => rows_folded(join_rows@, Dec { m: 0, s: 0 }, Dec { m: 0, s: 0 }) is None,
        }),
{
    let mut count: usize = 0;
    let mut i: usize = 0;
    let n = customers.len();
    while i < n
        invariant
            i <= n,
            count == customers_filtered(customers@.subrange(0, i as int), user_id, None).len(),
            count <= i,
        decreases n - i,
    {
        proof {
            reveal(Seq::filter);
            assert(customers@.subrange(0, i + 1 as int).drop_last() == customers@.subrange(
                0,
                i as int,
            ));
            customers@.subrange(0, i + 1 as int).lemma_filter_len(
                |c: Customer| crate::listing::customer_passes(c, user_id, None),
            );
        }
        let c = &customers[i];
        if c.user_id == user_id && c.deleted_at.is_none() {
            count = count + 1;
        }
        i = i + 1;
    }
    proof {
        assert(customers@.subrange(0, n as int) == customers@);
    }
    let mut revenue = Dec::zero();
    let mut pending = Dec::zero();
    let m = join_rows.len();
    proof {
        assert(join_rows@.subrange(0, m as int) =~= join_rows@);
    }
    let mut j: usize = 0;
    while j < m
        invariant
            j <= m,
            dec_wf(revenue),
            dec_wf(pending),
            rows_folded(join_rows@.subrange(j as int, m as int), revenue, pending) == rows_folded(
                join_rows@,
                Dec { m: 0, s: 0 },
                Dec { m: 0, s: 0 },
            ),
        decreases m - j,
    {
        proof {
            assert(join_rows@.subrange(j as int, m as int)[0] == join_rows@[j as int]);
            assert(join_rows@.subrange(j as int, m as int).drop_first() == join_rows@.subrange(
                j + 1 as int,
                m as int,
            ));
        }
        let row = &join_rows[j];
        let employer = match &row.matching.employer_fee_amount {
            Some(f) => *f,
            None => Dec::zero(),
        };
        let employee = match &row.matching.employee_fee_amount {
            Some(f) => *f,
            None => Dec::zero(),
        };
        revenue = match dec_add(&revenue, &employer) {
            Some(v) => v,
            None => {
                return None;
            },
        };
        revenue = match dec_add(&revenue, &employee) {
            Some(v) => v,
            None => {
                return None;
            },
        };
        if matches!(row.posting_settlement, SettlementStatus::Unsettled) {
            pending = match dec_add(&pending, &employer) {
                Some(v) => v,
                None => {
                    return None;
                },
            };
        }
        if matches!(row.seeking_settlement, SettlementStatus::Unsettled) {
            pending = match dec_add(&pending, &employee) {
                Some(v) => v,
                None => {
                    return None;
                },
            };
        }
        j = j + 1;
    }
    proof {
        assert(join_rows@.subrange(m as int, m as int).len() == 0);
    }
    Some(
        DashboardStatsResponse {
            total_customers: count as i64,
            job_postings_count,
            job_seekings_count,
            matchings_count: m as i64,
            pending_amount: pending,
            total_revenue: revenue,
        },
    )
}

} // verus!
