//! Job postings and job-seeking postings, and the settlement state each of
//! them carries: a status and an accumulated settlement amount.  On every
//! matching completion the corresponding fee is added to the posting's
//! settlement amount — an accumulator across possibly many matchings, with
//! a missing amount treated as zero.

use vstd::prelude::*;
use crate::decimal::{
    Dec,
    dec_wf,
    dec_add,
    add_fits,
    add_spec,
    common_scale,
    num_at,
    lemma_pow10_values,
};
use crate::matchings::clone_opt_string;

verus! {

/// Lifecycle status of a posting.
#[derive(Clone, Copy, Debug, PartialEq, Eq, Structural)]
pub enum PostingStatus {
    Published,
    InProgress,
    Closed,
    Cancelled,
}

/// Whether the fees owed against a posting have been settled.
#[derive(Clone, Copy, Debug, PartialEq, Eq, Structural)]
pub enum SettlementStatus {
    Unsettled,
    Settled,
}

/// A job posting owned by a customer.  Timestamps are seconds since the
/// Unix epoch.
#[derive(Clone, Debug)]
pub struct JobPosting {
    pub id: i64,
    pub customer_id: i64,
    pub salary: Dec,
    pub description: String,
    pub employer_fee_rate: Option<Dec>,
    pub settlement_status: SettlementStatus,
    pub settlement_amount: Option<Dec>,
    pub settlement_memo: Option<String>,
    pub posting_status: PostingStatus,
    pub is_favorite: bool,
    pub created_at: i64,
    pub updated_at: i64,
    pub deleted_at: Option<i64>,
}

/// A job-seeking posting owned by a customer.
#[derive(Clone, Debug)]
pub struct JobSeekingPosting {
    pub id: i64,
    pub customer_id: i64,
    pub desired_salary: Dec,
    pub description: String,
    pub preferred_location: String,
    pub employee_fee_rate: Option<Dec>,
    pub settlement_status: SettlementStatus,
    pub settlement_amount: Option<Dec>,
    pub settlement_memo: Option<String>,
    pub posting_status: PostingStatus,
    pub is_favorite: bool,
    pub created_at: i64,
    pub updated_at: i64,
    pub deleted_at: Option<i64>,
}

/// A partial settlement update: only the supplied fields change.
#[derive(Clone, Debug)]
pub struct UpdateSettlementRequest {
    pub settlement_status: Option<SettlementStatus>,
    pub settlement_amount: Option<Dec>,
    pub settlement_memo: Option<String>,
}

/// A request to create a job posting.
#[derive(Clone, Debug)]
pub struct CreateJobPostingRequest {
    pub customer_id: i64,
    pub salary: Dec,
    pub description: String,
    pub employer_fee_rate: Option<Dec>,
}

/// A partial job-posting update: supplied fields override the stored
/// values.
#[derive(Clone, Debug)]
pub struct UpdateJobPostingRequest {
    pub salary: Option<Dec>,
    pub description: Option<String>,
    pub employer_fee_rate: Option<Dec>,
    pub settlement_status: Option<SettlementStatus>,
    pub settlement_amount: Option<Dec>,
    pub settlement_memo: Option<String>,
    pub posting_status: Option<PostingStatus>,
    pub is_favorite: Option<bool>,
}

/// A request to create a job-seeking posting.
#[derive(Clone, Debug)]
pub struct CreateJobSeekingPostingRequest {
    pub customer_id: i64,
    pub desired_salary: Dec,
    pub description: String,
    pub preferred_location: String,
    pub employee_fee_rate: Option<Dec>,
}

/// A partial job-seeking update: supplied fields override the stored
/// values.
#[derive(Clone, Debug)]
pub struct UpdateJobSeekingPostingRequest {
    pub desired_salary: Option<Dec>,
    pub description: Option<String>,
    pub preferred_location: Option<String>,
    pub employee_fee_rate: Option<Dec>,
    pub settlement_status: Option<SettlementStatus>,
    pub settlement_amount: Option<Dec>,
    pub settlement_memo: Option<String>,
    pub posting_status: Option<PostingStatus>,
    pub is_favorite: Option<bool>,
}

/// Build a job posting from a creation request: published, unsettled,
/// not a favorite.
pub fn create_job_posting(req: &CreateJobPostingRequest, id: i64, now: i64) -> (r: JobPosting)
    ensures
        r == (JobPosting {
            id,
            customer_id: req.customer_id,
            salary: req.salary,
            description: req.description,
            employer_fee_rate: req.employer_fee_rate,
            settlement_status: SettlementStatus::Unsettled,
            settlement_amount: None,
            settlement_memo: None,
            posting_status: PostingStatus::Published,
            is_favorite: false,
            created_at: now,
            updated_at: now,
            deleted_at: None,
        }),
{
    JobPosting {
        id,
        customer_id: req.customer_id,
        salary: req.salary,
        description: req.description.clone(),
        employer_fee_rate: req.employer_fee_rate,
        settlement_status: SettlementStatus::Unsettled,
        settlement_amount: None,
        settlement_memo: None,
        posting_status: PostingStatus::Published,
        is_favorite: false,
        created_at: now,
        updated_at: now,
        deleted_at: None,
    }
}

/// Build a job-seeking posting from a creation request: published,
/// unsettled, not a favorite.
pub fn create_job_seeking_posting(
    req: &CreateJobSeekingPostingRequest,
    id: i64,
    now: i64,
) -> (r: JobSeekingPosting)
    ensures
        r == (JobSeekingPosting {
            id,
            customer_id: req.customer_id,
            desired_salary: req.desired_salary,
            description: req.description,
            preferred_location: req.preferred_location,
            employee_fee_rate: req.employee_fee_rate,
            settlement_status: SettlementStatus::Unsettled,
            settlement_amount: None,
            settlement_memo: None,
            posting_status: PostingStatus::Published,
            is_favorite: false,
            created_at: now,
            updated_at: now,
            deleted_at: None,
        }),
{
    JobSeekingPosting {
        id,
        customer_id: req.customer_id,
        desired_salary: req.desired_salary,
        description: req.description.clone(),
        preferred_location: req.preferred_location.clone(),
        employee_fee_rate: req.employee_fee_rate,
        settlement_status: SettlementStatus::Unsettled,
        settlement_amount: None,
        settlement_memo: None,
        posting_status: PostingStatus::Published,
        is_favorite: false,
        created_at: now,
        updated_at: now,
        deleted_at: None,
    }
}

/// The settlement base an accumulation starts from: the stored amount, a
/// missing one counting as zero at scale zero.
pub open spec fn settlement_base(amount: Option<Dec>) -> Dec {
    match amount {
        Some(a) => a,
        None => Dec { m: 0, s: 0 },
    }
}

/// Whether adding `fee` to the stored `amount` stays representable.
pub open spec fn accumulate_fits(amount: Option<Dec>, fee: Dec) -> bool {
    add_fits(settlement_base(amount), fee)
}

/// The stored amount after adding `fee` to it, a missing amount counting
/// as zero.
pub open spec fn accumulate_spec(amount: Option<Dec>, fee: Dec) -> Dec {
    add_spec(settlement_base(amount), fee)
}

/// Add a fee to a stored settlement amount, treating a missing amount as
/// zero.  Returns `None` exactly when the exact sum leaves the
/// representable range.
pub fn accumulate_settlement(amount: &Option<Dec>, fee: &Dec) -> (r: Option<Dec>)
    requires
        amount matches Some(a) ==> dec_wf(*a),
        dec_wf(*fee),
    ensures
        r == if accumulate_fits(*amount, *fee) {
            Some(accumulate_spec(*amount, *fee))
        } else {
            None::<Dec>
        },
        accumulate_fits(*amount, *fee) ==> dec_wf(accumulate_spec(*amount, *fee)),
{
    let base = match amount {
        Some(a) => *a,
        None => Dec::zero(),
    };
    dec_add(&base, fee)
}

/// Settlement accumulation is additive: starting from an empty settlement
/// amount, accumulating a fee `f1` and then a fee `f2` leaves exactly the
/// sum `f1 + f2` — written over the common scale of the two fees — and not
/// `f2` alone nor the larger of the two.
pub proof fn lemma_settlement_accumulation_is_additive(f1: Dec, f2: Dec)
    requires
        dec_wf(f1),
        dec_wf(f2),
        accumulate_fits(None, f1),
        accumulate_fits(Some(accumulate_spec(None, f1)), f2),
    ensures
        ({
            let first = accumulate_spec(None, f1);
            let total = accumulate_spec(Some(first), f2);
            let s = common_scale(f1, f2);
            total.s == s && total.m == num_at(f1, s as nat) + num_at(f2, s as nat)
        }),
{
    lemma_pow10_values();
    let first = accumulate_spec(None, f1);
    assert(first.m == f1.m && first.s == f1.s);
}

impl JobPosting {
    /// Every decimal field of the posting is well formed.
    pub open spec fn wf(self) -> bool {
        &&& dec_wf(self.salary)
        &&& (self.employer_fee_rate matches Some(x) ==> dec_wf(x))
        &&& (self.settlement_amount matches Some(x) ==> dec_wf(x))
    }

    /// An exact copy of the posting.
    pub fn duplicate(&self) -> (r: JobPosting)
        ensures
            r == *self,
    {
        JobPosting {
            id: self.id,
            customer_id: self.customer_id,
            salary: self.salary,
            description: self.description.clone(),
            employer_fee_rate: self.employer_fee_rate,
            settlement_status: self.settlement_status,
            settlement_amount: self.settlement_amount,
            settlement_memo: clone_opt_string(&self.settlement_memo),
            posting_status: self.posting_status,
            is_favorite: self.is_favorite,
            created_at: self.created_at,
            updated_at: self.updated_at,
            deleted_at: self.deleted_at,
        }
    }

    /// Add an employer fee to the posting's settlement amount, a missing
    /// amount counting as zero.  Returns `None` exactly when the exact sum
    /// leaves the representable range; the posting is otherwise unchanged.
    pub fn credit_settlement(&self, fee: &Dec, now: i64) -> (r: Option<JobPosting>)
        requires
            self.wf(),
            dec_wf(*fee),
        ensures
            accumulate_fits(self.settlement_amount, *fee) ==> (r matches Some(p) && p == (
            JobPosting {
                settlement_amount: Some(accumulate_spec(self.settlement_amount, *fee)),
                updated_at: now,
                ..*self
            }) && p.wf()),
            !accumulate_fits(self.settlement_amount, *fee) ==> r is None,
    {
        match accumulate_settlement(&self.settlement_amount, fee) {
            Some(total) => {
                let mut updated = self.duplicate();
                updated.settlement_amount = Some(total);
                updated.updated_at = now;
                Some(updated)
            },
            None => None,
        }
    }

    /// Flip the posting's favorite flag.
    pub fn toggle_favorite(&self, now: i64) -> (r: JobPosting)
        ensures
            r == (JobPosting { is_favorite: !self.is_favorite, updated_at: now, ..*self }),
    {
        let mut updated = self.duplicate();
        updated.is_favorite = !self.is_favorite;
        updated.updated_at = now;
        updated
    }

    /// Apply a partial settlement update: each supplied field replaces the
    /// stored one, each unsupplied field keeps its current value.
    pub fn update_settlement(&self, req: &UpdateSettlementRequest, now: i64) -> (r: JobPosting)
        requires
            self.wf(),
            req.settlement_amount matches Some(a) ==> dec_wf(a),
        ensures
            r == (JobPosting {
                settlement_status: match req.settlement_status {
                    Some(st) => st,
                    None => self.settlement_status,
                },
                settlement_amount: match req.settlement_amount {
                    Some(a) => Some(a),
                    None => self.settlement_amount,
                },
                settlement_memo: match req.settlement_memo {
                    Some(m) => Some(m),
                    None => self.settlement_memo,
                },
                updated_at: now,
                ..*self
            }),
            r.wf(),
    {
        let mut updated = self.duplicate();
        updated.settlement_status = match req.settlement_status {
            Some(st) => st,
            None => self.settlement_status,
        };
        updated.settlement_amount = match req.settlement_amount {
            Some(a) => Some(a),
            None => self.settlement_amount,
        };
        updated.settlement_memo = match &req.settlement_memo {
            Some(m) => Some(m.clone()),
            None => clone_opt_string(&self.settlement_memo),
        };
        updated.updated_at = now;
        updated
    }
}

impl JobPosting {
    /// Merge a partial update: each supplied field replaces the stored
    /// one; an unsupplied optional field keeps the stored value.
    pub fn apply_update(&self, req: &UpdateJobPostingRequest, now: i64) -> (r: JobPosting)
        ensures
            r == (JobPosting {
                salary: match req.salary {
                    Some(x) => x,
                    None => self.salary,
                },
                description: match req.description {
                    Some(d) => d,
                    None => self.description,
                },
                employer_fee_rate: match req.employer_fee_rate {
                    Some(x) => Some(x),
                    None => self.employer_fee_rate,
                },
                settlement_status: match req.settlement_status {
                    Some(st) => st,
                    None => self.settlement_status,
                },
                settlement_amount: match req.settlement_amount {
                    Some(a) => Some(a),
                    None => self.settlement_amount,
                },
                settlement_memo: match req.settlement_memo {
                    Some(m) => Some(m),
                    None => self.settlement_memo,
                },
                posting_status: match req.posting_status {
                    Some(st) => st,
                    None => self.posting_status,
                },
                is_favorite: match req.is_favorite {
                    Some(f) => f,
                    None => self.is_favorite,
                },
                updated_at: now,
                ..*self
            }),
    {
        let mut updated = self.duplicate();
        updated.salary = match req.salary {
            Some(x) => x,
            None => self.salary,
        };
        updated.description = match &req.description {
            Some(d) => d.clone(),
            None => self.description.clone(),
        };
        updated.employer_fee_rate = match req.employer_fee_rate {
            Some(x) => Some(x),
            None => self.employer_fee_rate,
        };
        updated.settlement_status = match req.settlement_status {
            Some(st) => st,
            None => self.settlement_status,
        };
        updated.settlement_amount = match req.settlement_amount {
            Some(a) => Some(a),
            None => self.settlement_amount,
        };
        updated.settlement_memo = match &req.settlement_memo {
            Some(m) => Some(m.clone()),
            None => clone_opt_string(&self.settlement_memo),
        };
        updated.posting_status = match req.posting_status {
            Some(st) => st,
            None => self.posting_status,
        };
        updated.is_favorite = match req.is_favorite {
            Some(f) => f,
            None => self.is_favorite,
        };
        updated.updated_at = now;
        updated
    }

    /// Soft-delete the posting.
    pub fn soft_delete(&self, now: i64) -> (r: JobPosting)
        ensures
            r == (JobPosting { deleted_at: Some(now), ..*self }),
    {
        let mut updated = self.duplicate();
        updated.deleted_at = Some(now);
        updated
    }
}

impl JobSeekingPosting {
    /// Merge a partial update: each supplied field replaces the stored
    /// one; an unsupplied optional field keeps the stored value.
    pub fn apply_update(&self, req: &UpdateJobSeekingPostingRequest, now: i64) -> (r:
        JobSeekingPosting)
        ensures
            r == (JobSeekingPosting {
                desired_salary: match req.desired_salary {
                    Some(x) => x,
                    None => self.desired_salary,
                },
                description: match req.description {
                    Some(d) => d,
                    None => self.description,
                },
                preferred_location: match req.preferred_location {
                    Some(d) => d,
                    None => self.preferred_location,
                },
                employee_fee_rate: match req.employee_fee_rate {
                    Some(x) => Some(x),
                    None => self.employee_fee_rate,
                },
                settlement_status: match req.settlement_status {
                    Some(st) => st,
                    None => self.settlement_status,
                },
                settlement_amount: match req.settlement_amount {
                    Some(a) => Some(a),
                    None => self.settlement_amount,
                },
                settlement_memo: match req.settlement_memo {
                    Some(m) => Some(m),
                    None => self.settlement_memo,
                },
                posting_status: match req.posting_status {
                    Some(st) => st,
                    None => self.posting_status,
                },
                is_favorite: match req.is_favorite {
                    Some(f) => f,
                    None => self.is_favorite,
                },
                updated_at: now,
                ..*self
            }),
    {
        let mut updated = self.duplicate();
        updated.desired_salary = match req.desired_salary {
            Some(x) => x,
            None => self.desired_salary,
        };
        updated.description = match &req.description {
            Some(d) => d.clone(),
            None => self.description.clone(),
        };
        updated.preferred_location = match &req.preferred_location {
            Some(d) => d.clone(),
            None => self.preferred_location.clone(),
        };
        updated.employee_fee_rate = match req.employee_fee_rate {
            Some(x) => Some(x),
            None => self.employee_fee_rate,
        };
        updated.settlement_status = match req.settlement_status {
            Some(st) => st,
            None => self.settlement_status,
        };
        updated.settlement_amount = match req.settlement_amount {
            Some(a) => Some(a),
            None => self.settlement_amount,
        };
        updated.settlement_memo = match &req.settlement_memo {
            Some(m) => Some(m.clone()),
            None => clone_opt_string(&self.settlement_memo),
        };
        updated.posting_status = match req.posting_status {
            Some(st) => st,
            None => self.posting_status,
        };
        updated.is_favorite = match req.is_favorite {
            Some(f) => f,
            None => self.is_favorite,
        };
        updated.updated_at = now;
        updated
    }

    /// Soft-delete the posting.
    pub fn soft_delete(&self, now: i64) -> (r: JobSeekingPosting)
        ensures
            r == (JobSeekingPosting { deleted_at: Some(now), ..*self }),
    {
        let mut updated = self.duplicate();
        updated.deleted_at = Some(now);
        updated
    }
}

impl JobSeekingPosting {
    /// Every decimal field of the posting is well formed.
    pub open spec fn wf(self) -> bool {
        &&& dec_wf(self.desired_salary)
        &&& (self.employee_fee_rate matches Some(x) ==> dec_wf(x))
        &&& (self.settlement_amount matches Some(x) ==> dec_wf(x))
    }

    /// An exact copy of the posting.
    pub fn duplicate(&self) -> (r: JobSeekingPosting)
        ensures
            r == *self,
    {
        JobSeekingPosting {
            id: self.id,
            customer_id: self.customer_id,
            desired_salary: self.desired_salary,
            description: self.description.clone(),
            preferred_location: self.preferred_location.clone(),
            employee_fee_rate: self.employee_fee_rate,
            settlement_status: self.settlement_status,
            settlement_amount: self.settlement_amount,
            settlement_memo: clone_opt_string(&self.settlement_memo),
            posting_status: self.posting_status,
            is_favorite: self.is_favorite,
            created_at: self.created_at,
            updated_at: self.updated_at,
            deleted_at: self.deleted_at,
        }
    }

    /// Add an employee fee to the posting's settlement amount, a missing
    /// amount counting as zero.  Returns `None` exactly when the exact sum
    /// leaves the representable range; the posting is otherwise unchanged.
    pub fn credit_settlement(&self, fee: &Dec, now: i64) -> (r: Option<JobSeekingPosting>)
        requires
            self.wf(),
            dec_wf(*fee),
        ensures
            accumulate_fits(self.settlement_amount, *fee) ==> (r matches Some(p) && p == (
            JobSeekingPosting {
                settlement_amount: Some(accumulate_spec(self.settlement_amount, *fee)),
                updated_at: now,
                ..*self
            }) && p.wf()),
            !accumulate_fits(self.settlement_amount, *fee) ==> r is None,
    {
        match accumulate_settlement(&self.settlement_amount, fee) {
            Some(total) => {
                let mut updated = self.duplicate();
                updated.settlement_amount = Some(total);
                updated.updated_at = now;
                Some(updated)
            },
            None => None,
        }
    }

    /// Apply a partial settlement update: each supplied field replaces the
    /// stored one, each unsupplied field keeps its current value.
    pub fn update_settlement(&self, req: &UpdateSettlementRequest, now: i64) -> (r:
        JobSeekingPosting)
        requires
            self.wf(),
            req.settlement_amount matches Some(a) ==> dec_wf(a),
        ensures
            r == (JobSeekingPosting {
                settlement_status: match req.settlement_status {
                    Some(st) => st,
                    None => self.settlement_status,
                },
                settlement_amount: match req.settlement_amount {
                    Some(a) => Some(a),
                    None => self.settlement_amount,
                },
                settlement_memo: match req.settlement_memo {
                    Some(m) => Some(m),
                    None => self.settlement_memo,
                },
                updated_at: now,
                ..*self
            }),
            r.wf(),
    {
        let mut updated = self.duplicate();
        updated.settlement_status = match req.settlement_status {
            Some(st) => st,
            None => self.settlement_status,
        };
        updated.settlement_amount = match req.settlement_amount {
            Some(a) => Some(a),
            None => self.settlement_amount,
        };
        updated.settlement_memo = match &req.settlement_memo {
            Some(m) => Some(m.clone()),
            None => clone_opt_string(&self.settlement_memo),
        };
        updated.updated_at = now;
        updated
    }
}

} // verus!
