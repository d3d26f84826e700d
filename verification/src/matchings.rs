//! The matching lifecycle: a matching links a job posting to a job-seeking
//! posting, carries an agreed salary and two fee rates, and moves through
//! `InProgress` into exactly one of the terminal states `Completed` or
//! `Cancelled`.  Fees are always recomputed from the final merged values,
//! never patched incrementally.

use vstd::prelude::*;
use crate::decimal::{Dec, dec_wf, fee_amount, fee_fits, fee_spec};

verus! {

/// Status of a matching.  `InProgress` is the initial state; the other two
/// are terminal.
#[derive(Clone, Copy, Debug, PartialEq, Eq, Structural)]
pub enum MatchingStatus {
    InProgress,
    Completed,
    Cancelled,
}

/// Why a matching operation was refused.
#[derive(Clone, Copy, Debug, PartialEq, Eq, Structural)]
pub enum MatchingError {
    /// Completion of a matching that is already completed.
    AlreadyCompleted,
    /// Completion of a cancelled matching.
    CancelledCannotComplete,
    /// Cancellation of a completed matching.
    CompletedCannotCancel,
    /// Cancellation of a matching that is already cancelled.
    AlreadyCancelled,
    /// A status change through the details endpoint, or a cancellation
    /// through the status endpoint.
    StatusChangeNotAllowed,
    /// A cancellation reason outside the dedicated cancel operation.
    ReasonChangeNotAllowed,
    /// A status change requested on a completed or cancelled matching:
    /// the terminal states permit no further transition.
    TerminalState,
    /// A merged salary and rate whose exact fee leaves the representable
    /// range.
    FeeOverflow,
}

/// A matching between one job posting and one job-seeking posting.
/// Timestamps are seconds since the Unix epoch.
#[derive(Clone, Debug)]
pub struct Matching {
    pub id: i64,
    pub job_posting_id: i64,
    pub job_seeking_posting_id: i64,
    pub matched_at: i64,
    pub agreed_salary: Dec,
    pub employer_fee_rate: Dec,
    pub employee_fee_rate: Dec,
    pub employer_fee_amount: Option<Dec>,
    pub employee_fee_amount: Option<Dec>,
    pub matching_status: MatchingStatus,
    pub cancellation_reason: Option<String>,
    pub cancelled_at: Option<i64>,
    pub cancelled_by: Option<i64>,
    pub completed_at: Option<i64>,
    pub created_at: i64,
    pub updated_at: i64,
    pub deleted_at: Option<i64>,
}

/// A request to create a matching.
#[derive(Clone, Debug)]
pub struct CreateMatchingRequest {
    pub job_posting_id: i64,
    pub job_seeking_posting_id: i64,
    pub agreed_salary: Dec,
    pub employer_fee_rate: Dec,
    pub employee_fee_rate: Dec,
}

/// A request to set a matching's status through the generic status
/// endpoint; cancellation is refused there.
#[derive(Clone, Debug)]
pub struct UpdateStatusRequest {
    pub matching_status: MatchingStatus,
}

/// A request to cancel a matching, with its optional reason.
#[derive(Clone, Debug)]
pub struct CancelMatchingRequest {
    pub cancellation_reason: Option<String>,
}

/// A partial update: supplied fields override the stored values, the rest
/// keep their current value.
#[derive(Clone, Debug)]
pub struct UpdateMatchingRequest {
    pub agreed_salary: Option<Dec>,
    pub employer_fee_rate: Option<Dec>,
    pub employee_fee_rate: Option<Dec>,
    pub matching_status: Option<MatchingStatus>,
    pub cancellation_reason: Option<String>,
}

impl Matching {
    /// Every decimal field of the matching is well formed.
    pub open spec fn wf(self) -> bool {
        &&& dec_wf(self.agreed_salary)
        &&& dec_wf(self.employer_fee_rate)
        &&& dec_wf(self.employee_fee_rate)
        &&& (self.employer_fee_amount matches Some(f) ==> dec_wf(f))
        &&& (self.employee_fee_amount matches Some(f) ==> dec_wf(f))
    }

    /// The matching as it stands after a successful completion at `now`.
    pub open spec fn completed_at_time(self, now: i64) -> Matching {
        Matching {
            matching_status: MatchingStatus::Completed,
            completed_at: Some(now),
            updated_at: now,
            ..self
        }
    }

    /// The matching as it stands after a successful cancellation at `now`
    /// by `user_id` with the optional `reason`.
    pub open spec fn cancelled_at_time(
        self,
        now: i64,
        user_id: i64,
        reason: Option<String>,
    ) -> Matching {
        Matching {
            matching_status: MatchingStatus::Cancelled,
            cancelled_at: Some(now),
            cancelled_by: Some(user_id),
            cancellation_reason: reason,
            updated_at: now,
            ..self
        }
    }
}

/// What completing a matching returns, for every starting state: success
/// exactly from `InProgress`, the matching business error otherwise.
pub open spec fn complete_spec(m: Matching, now: i64) -> Result<Matching, MatchingError> {
    match m.matching_status {
        MatchingStatus::InProgress => Ok(m.completed_at_time(now)),
        MatchingStatus::Completed => Err(MatchingError::AlreadyCompleted),
        MatchingStatus::Cancelled => Err(MatchingError::CancelledCannotComplete),
    }
}

/// What cancelling a matching returns, for every starting state: success
/// exactly from `InProgress`, the matching business error otherwise.
pub open spec fn cancel_spec(m: Matching, now: i64, user_id: i64, reason: Option<String>) -> Result<
    Matching,
    MatchingError,
> {
    match m.matching_status {
        MatchingStatus::InProgress => Ok(m.cancelled_at_time(now, user_id, reason)),
        MatchingStatus::Completed => Err(MatchingError::CompletedCannotCancel),
        MatchingStatus::Cancelled => Err(MatchingError::AlreadyCancelled),
    }
}

/// An exact copy of an optional string.
pub fn clone_opt_string(o: &Option<String>) -> (r: Option<String>)
    ensures
        r == *o,
{
    match o {
        Some(s) => Some(s.clone()),
        None => None,
    }
}

impl Matching {
    /// An exact copy of the matching.
    pub fn duplicate(&self) -> (r: Matching)
        ensures
            r == *self,
    {
        Matching {
            id: self.id,
            job_posting_id: self.job_posting_id,
            job_seeking_posting_id: self.job_seeking_posting_id,
            matched_at: self.matched_at,
            agreed_salary: self.agreed_salary,
            employer_fee_rate: self.employer_fee_rate,
            employee_fee_rate: self.employee_fee_rate,
            employer_fee_amount: self.employer_fee_amount,
            employee_fee_amount: self.employee_fee_amount,
            matching_status: self.matching_status,
            cancellation_reason: clone_opt_string(&self.cancellation_reason),
            cancelled_at: self.cancelled_at,
            cancelled_by: self.cancelled_by,
            completed_at: self.completed_at,
            created_at: self.created_at,
            updated_at: self.updated_at,
            deleted_at: self.deleted_at,
        }
    }

    /// Complete the matching.  Succeeds exactly when the matching is still
    /// in progress; a completed or cancelled matching is terminal and is
    /// refused with the corresponding business error.
    pub fn complete(&self, now: i64) -> (r: Result<Matching, MatchingError>)
        ensures
            r == complete_spec(*self, now),
    {
        match self.matching_status {
            MatchingStatus::Completed => Err(MatchingError::AlreadyCompleted),
            MatchingStatus::Cancelled => Err(MatchingError::CancelledCannotComplete),
            MatchingStatus::InProgress => {
                let mut updated = self.duplicate();
                updated.matching_status = MatchingStatus::Completed;
                updated.completed_at = Some(now);
                updated.updated_at = now;
                Ok(updated)
            },
        }
    }

    /// Cancel the matching.  Succeeds exactly when the matching is still in
    /// progress; a completed matching cannot be cancelled, and a cancelled
    /// one cannot be cancelled again.
    pub fn cancel(&self, now: i64, user_id: i64, reason: Option<String>) -> (r: Result<
        Matching,
        MatchingError,
    >)
        ensures
            r == cancel_spec(*self, now, user_id, reason),
    {
        match self.matching_status {
            MatchingStatus::Completed => Err(MatchingError::CompletedCannotCancel),
            MatchingStatus::Cancelled => Err(MatchingError::AlreadyCancelled),
            MatchingStatus::InProgress => {
                let mut updated = self.duplicate();
                updated.matching_status = MatchingStatus::Cancelled;
                updated.cancelled_at = Some(now);
                updated.cancelled_by = Some(user_id);
                updated.cancellation_reason = reason;
                updated.updated_at = now;
                Ok(updated)
            },
        }
    }
}

/// The salary an update leaves in place: the supplied one, else the stored
/// one.
pub open spec fn merged_salary(current: Matching, req: UpdateMatchingRequest) -> Dec {
    match req.agreed_salary {
        Some(s) => s,
        None => current.agreed_salary,
    }
}

/// The employer fee rate an update leaves in place.
pub open spec fn merged_employer_rate(current: Matching, req: UpdateMatchingRequest) -> Dec {
    match req.employer_fee_rate {
        Some(x) => x,
        None => current.employer_fee_rate,
    }
}

/// The employee fee rate an update leaves in place.
pub open spec fn merged_employee_rate(current: Matching, req: UpdateMatchingRequest) -> Dec {
    match req.employee_fee_rate {
        Some(x) => x,
        None => current.employee_fee_rate,
    }
}

/// Whether both fees recomputed from the merged values are representable.
pub open spec fn merged_fees_fit(current: Matching, req: UpdateMatchingRequest) -> bool {
    &&& fee_fits(merged_salary(current, req), merged_employer_rate(current, req))
    &&& fee_fits(merged_salary(current, req), merged_employee_rate(current, req))
}

/// The matching after a partial update: supplied fields override stored
/// ones, unsupplied fields keep their current value, and both fee amounts
/// are recomputed from the final merged values, never patched
/// incrementally.
pub open spec fn updated_spec(current: Matching, req: UpdateMatchingRequest) -> Matching {
    Matching {
        agreed_salary: merged_salary(current, req),
        employer_fee_rate: merged_employer_rate(current, req),
        employee_fee_rate: merged_employee_rate(current, req),
        employer_fee_amount: Some(
            fee_spec(merged_salary(current, req), merged_employer_rate(current, req)),
        ),
        employee_fee_amount: Some(
            fee_spec(merged_salary(current, req), merged_employee_rate(current, req)),
        ),
        matching_status: match req.matching_status {
            Some(st) => st,
            None => current.matching_status,
        },
        cancellation_reason: match req.cancellation_reason {
            Some(rs) => Some(rs),
            None => current.cancellation_reason,
        },
        ..current
    }
}

/// What a partial update returns for every input: the merged matching with
/// recomputed fees, or the overflow error when an exact fee is not
/// representable.
pub open spec fn update_spec(current: Matching, req: UpdateMatchingRequest) -> Result<
    Matching,
    MatchingError,
> {
    if merged_fees_fit(current, req) {
        Ok(updated_spec(current, req))
    } else {
        Err(MatchingError::FeeOverflow)
    }
}

impl UpdateMatchingRequest {
    /// An exact copy of the request.
    pub fn duplicate(&self) -> (r: UpdateMatchingRequest)
        ensures
            r == *self,
    {
        UpdateMatchingRequest {
            agreed_salary: self.agreed_salary,
            employer_fee_rate: self.employer_fee_rate,
            employee_fee_rate: self.employee_fee_rate,
            matching_status: self.matching_status,
            cancellation_reason: clone_opt_string(&self.cancellation_reason),
        }
    }
}

impl Matching {
    /// Merge a partial update into the matching and recompute both fee
    /// amounts from the final merged values.  Fails exactly when an exact
    /// fee leaves the representable range.
    pub fn apply_update(&self, req: &UpdateMatchingRequest) -> (r: Result<
        Matching,
        MatchingError,
    >)
        requires
            self.wf(),
            req.agreed_salary matches Some(s) ==> dec_wf(s),
            req.employer_fee_rate matches Some(x) ==> dec_wf(x),
            req.employee_fee_rate matches Some(x) ==> dec_wf(x),
        ensures
            r == update_spec(*self, *req),
            r matches Ok(m) ==> m.wf(),
    {
        let salary = match req.agreed_salary {
            Some(s) => s,
            None => self.agreed_salary,
        };
        let employer_rate = match req.employer_fee_rate {
            Some(x) => x,
            None => self.employer_fee_rate,
        };
        let employee_rate = match req.employee_fee_rate {
            Some(x) => x,
            None => self.employee_fee_rate,
        };
        let employer_fee = match fee_amount(&salary, &employer_rate) {
            Some(f) => f,
            None => {
                return Err(MatchingError::FeeOverflow);
            },
        };
        let employee_fee = match fee_amount(&salary, &employee_rate) {
            Some(f) => f,
            None => {
                return Err(MatchingError::FeeOverflow);
            },
        };
        let mut updated = self.duplicate();
        updated.agreed_salary = salary;
        updated.employer_fee_rate = employer_rate;
        updated.employee_fee_rate = employee_rate;
        updated.employer_fee_amount = Some(employer_fee);
        updated.employee_fee_amount = Some(employee_fee);
        updated.matching_status = match req.matching_status {
            Some(st) => st,
            None => self.matching_status,
        };
        updated.cancellation_reason = match &req.cancellation_reason {
            Some(rs) => Some(rs.clone()),
            None => clone_opt_string(&self.cancellation_reason),
        };
        Ok(updated)
    }

    /// The details endpoint: update salary and fee rates only.  A status
    /// change or a cancellation reason is refused here; those go through
    /// the dedicated status and cancel operations.
    pub fn update_details(&self, req: &UpdateMatchingRequest) -> (r: Result<
        Matching,
        MatchingError,
    >)
        requires
            self.wf(),
            req.agreed_salary matches Some(s) ==> dec_wf(s),
            req.employer_fee_rate matches Some(x) ==> dec_wf(x),
            req.employee_fee_rate matches Some(x) ==> dec_wf(x),
        ensures
            req.matching_status is Some ==> r == Err::<Matching, MatchingError>(
                MatchingError::StatusChangeNotAllowed,
            ),
            req.matching_status is None && req.cancellation_reason is Some ==> r == Err::<
                Matching,
                MatchingError,
            >(MatchingError::ReasonChangeNotAllowed),
            req.matching_status is None && req.cancellation_reason is None ==> r == update_spec(
                *self,
                *req,
            ),
            r matches Ok(m) ==> m.wf(),
    {
        if req.matching_status.is_some() {
            return Err(MatchingError::StatusChangeNotAllowed);
        }
        if req.cancellation_reason.is_some() {
            return Err(MatchingError::ReasonChangeNotAllowed);
        }
        self.apply_update(req)
    }

    /// Whether a requested status would move this matching out of a
    /// terminal state: completed and cancelled matchings permit no
    /// further transition.
    pub open spec fn status_change_hits_terminal(&self, req: UpdateMatchingRequest) -> bool {
        &&& self.matching_status != MatchingStatus::InProgress
        &&& (req.matching_status matches Some(st) && st != self.matching_status)
    }

    /// The status endpoint: a generic status update that explicitly
    /// refuses to set the status to `Cancelled` (cancellation goes
    /// through the dedicated cancel operation, the single source of truth
    /// for the cancellation metadata), and refuses any status change on a
    /// completed or cancelled matching — the terminal states permit no
    /// further transition.
    pub fn update_status(&self, req: &UpdateMatchingRequest) -> (r: Result<
        Matching,
        MatchingError,
    >)
        requires
            self.wf(),
            req.agreed_salary matches Some(s) ==> dec_wf(s),
            req.employer_fee_rate matches Some(x) ==> dec_wf(x),
            req.employee_fee_rate matches Some(x) ==> dec_wf(x),
        ensures
            req.matching_status == Some(MatchingStatus::Cancelled) ==> r == Err::<
                Matching,
                MatchingError,
            >(MatchingError::StatusChangeNotAllowed),
            req.matching_status != Some(MatchingStatus::Cancelled)
                && self.status_change_hits_terminal(*req) ==> r == Err::<Matching, MatchingError>(
                MatchingError::TerminalState,
            ),
            req.matching_status != Some(MatchingStatus::Cancelled)
                && !self.status_change_hits_terminal(*req) ==> r == update_spec(*self, *req),
            r matches Ok(m) ==> m.wf(),
    {
        match req.matching_status {
            Some(MatchingStatus::Cancelled) => Err(MatchingError::StatusChangeNotAllowed),
            Some(st) => {
                if !matches!(self.matching_status, MatchingStatus::InProgress) && !matches!(
                    (st, self.matching_status),
                    (MatchingStatus::Completed, MatchingStatus::Completed),
                ) {
                    Err(MatchingError::TerminalState)
                } else {
                    self.apply_update(req)
                }
            },
            None => self.apply_update(req),
        }
    }
}

/// What creating a matching returns: a fresh in-progress matching with both
/// fees computed exactly from the requested salary and rates, or the
/// overflow error when an exact fee is not representable.
pub open spec fn create_spec(req: CreateMatchingRequest, id: i64, now: i64) -> Result<
    Matching,
    MatchingError,
> {
    if fee_fits(req.agreed_salary, req.employer_fee_rate) && fee_fits(
        req.agreed_salary,
        req.employee_fee_rate,
    ) {
        Ok(
            Matching {
                id,
                job_posting_id: req.job_posting_id,
                job_seeking_posting_id: req.job_seeking_posting_id,
                matched_at: now,
                agreed_salary: req.agreed_salary,
                employer_fee_rate: req.employer_fee_rate,
                employee_fee_rate: req.employee_fee_rate,
                employer_fee_amount: Some(fee_spec(req.agreed_salary, req.employer_fee_rate)),
                employee_fee_amount: Some(fee_spec(req.agreed_salary, req.employee_fee_rate)),
                matching_status: MatchingStatus::InProgress,
                cancellation_reason: None,
                cancelled_at: None,
                cancelled_by: None,
                completed_at: None,
                created_at: now,
                updated_at: now,
                deleted_at: None,
            },
        )
    } else {
        Err(MatchingError::FeeOverflow)
    }
}

/// Create a matching from a request, computing both fee amounts exactly.
/// `id` is the identifier the store assigns, `now` the creation time.
pub fn create_matching(req: &CreateMatchingRequest, id: i64, now: i64) -> (r: Result<
    Matching,
    MatchingError,
>)
    requires
        dec_wf(req.agreed_salary),
        dec_wf(req.employer_fee_rate),
        dec_wf(req.employee_fee_rate),
    ensures
        r == create_spec(*req, id, now),
        r matches Ok(m) ==> m.wf() && m.matching_status == MatchingStatus::InProgress,
{
    let employer_fee = match fee_amount(&req.agreed_salary, &req.employer_fee_rate) {
        Some(f) => f,
        None => {
            return Err(MatchingError::FeeOverflow);
        },
    };
    let employee_fee = match fee_amount(&req.agreed_salary, &req.employee_fee_rate) {
        Some(f) => f,
        None => {
            return Err(MatchingError::FeeOverflow);
        },
    };
    Ok(
        Matching {
            id,
            job_posting_id: req.job_posting_id,
            job_seeking_posting_id: req.job_seeking_posting_id,
            matched_at: now,
            agreed_salary: req.agreed_salary,
            employer_fee_rate: req.employer_fee_rate,
            employee_fee_rate: req.employee_fee_rate,
            employer_fee_amount: Some(employer_fee),
            employee_fee_amount: Some(employee_fee),
            matching_status: MatchingStatus::InProgress,
            cancellation_reason: None,
            cancelled_at: None,
            cancelled_by: None,
            completed_at: None,
            created_at: now,
            updated_at: now,
            deleted_at: None,
        },
    )
}

/// Completion rejects its own repetition: from `InProgress`, the first
/// completion succeeds and completing the result again returns the
/// already-completed business error, whatever the two times are.
pub proof fn lemma_complete_is_idempotent_rejecting(m: Matching, now1: i64, now2: i64)
    requires
        m.matching_status == MatchingStatus::InProgress,
    ensures
        complete_spec(m, now1) matches Ok(c) && complete_spec(c, now2) == Err::<
            Matching,
            MatchingError,
        >(MatchingError::AlreadyCompleted),
{
}

/// Cancelling after completing fails (completed matchings cannot be
/// cancelled), while cancelling first succeeds and then blocks every
/// further transition, completion and repeated cancellation alike.
pub proof fn lemma_terminal_states_block_transitions(
    m: Matching,
    now1: i64,
    now2: i64,
    user_id: i64,
    reason: Option<String>,
)
    requires
        m.matching_status == MatchingStatus::InProgress,
    ensures
        complete_spec(m, now1) matches Ok(c) && cancel_spec(c, now2, user_id, reason) == Err::<
            Matching,
            MatchingError,
        >(MatchingError::CompletedCannotCancel),
        cancel_spec(m, now1, user_id, reason) matches Ok(c) && complete_spec(c, now2) == Err::<
            Matching,
            MatchingError,
        >(MatchingError::CancelledCannotComplete),
        cancel_spec(m, now1, user_id, reason) matches Ok(c) && cancel_spec(
            c,
            now2,
            user_id,
            reason,
        ) == Err::<Matching, MatchingError>(MatchingError::AlreadyCancelled),
{
}

} // verus!
