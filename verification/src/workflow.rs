//! The multi-step flows a single request drives: completing a matching
//! together with its two settlement credits — all or nothing, so the
//! settlement amounts can never drift from the matching status — and
//! refreshing a token pair.

use vstd::prelude::*;
use crate::auth::{token_kind_label, AuthService, TokenType, payload_of};
use crate::decimal::Dec;
use crate::matchings::{complete_spec, Matching, MatchingError, MatchingStatus};
use crate::numeric::{i64_value_of, parse_i64, parses_as_i64};
use crate::postings::{accumulate_fits, accumulate_spec, JobPosting, JobSeekingPosting};
use crate::textutil::str_trim;
use crate::users::{first_user_with_id, user_id_present, User, UserRepository};

verus! {

/// Why a completion flow failed: the transition was refused, or one of
/// the two settlement sums left the representable range (in which case
/// nothing changes at all).
#[derive(Clone, Copy, Debug, PartialEq, Eq, Structural)]
pub enum CompletionError {
    Transition(MatchingError),
    SettlementOverflow,
}

/// Complete a matching and credit both settlements in one step: the
/// matching turns `Completed`, the job posting's settlement amount grows
/// by the employer fee, and the job-seeking posting's by the employee
/// fee, a missing fee counting as zero.  If any part is refused, no part
/// happens.
pub fn complete_matching_flow(
    matching: &Matching,
    job_posting: &JobPosting,
    job_seeking: &JobSeekingPosting,
    now: i64,
) -> (r: Result<(Matching, JobPosting, JobSeekingPosting), CompletionError>)
    requires
        matching.wf(),
        job_posting.wf(),
        job_seeking.wf(),
    ensures
        complete_spec(*matching, now) matches Err(t) ==> r == Err::<
            (Matching, JobPosting, JobSeekingPosting),
            CompletionError,
        >(CompletionError::Transition(t)),
        r matches Ok(out) ==> ({
            &&& complete_spec(*matching, now) == Ok::<Matching, MatchingError>(out.0)
            &&& out.0.matching_status == MatchingStatus::Completed
            &&& out.1 == (JobPosting {
                settlement_amount: Some(
                    accumulate_spec(
                        job_posting.settlement_amount,
                        employer_fee_or_zero(*matching),
                    ),
                ),
                updated_at: now,
                ..*job_posting
            })
            &&& out.2 == (JobSeekingPosting {
                settlement_amount: Some(
                    accumulate_spec(
                        job_seeking.settlement_amount,
                        employee_fee_or_zero(*matching),
                    ),
                ),
                updated_at: now,
                ..*job_seeking
            })
        }),
        r == Err::<(Matching, JobPosting, JobSeekingPosting), CompletionError>(
            CompletionError::SettlementOverflow,
        ) ==> matching.matching_status == MatchingStatus::InProgress && (!accumulate_fits(
            job_posting.settlement_amount,
            employer_fee_or_zero(*matching),
        ) || !accumulate_fits(job_seeking.settlement_amount, employee_fee_or_zero(*matching))),
        matching.matching_status == MatchingStatus::InProgress && accumulate_fits(
            job_posting.settlement_amount,
            employer_fee_or_zero(*matching),
        ) && accumulate_fits(job_seeking.settlement_amount, employee_fee_or_zero(*matching))
            ==> r is Ok,
{
    let completed = match matching.complete(now) {
        Ok(m) => m,
        Err(e) => {
            return Err(CompletionError::Transition(e));
        },
    };
    let employer_fee = match &matching.employer_fee_amount {
        Some(f) => *f,
        None => Dec::zero(),
    };
    let employee_fee = match &matching.employee_fee_amount {
        Some(f) => *f,
        None => Dec::zero(),
    };
    let credited_posting = match job_posting.credit_settlement(&employer_fee, now) {
        Some(p) => p,
        None => {
            return Err(CompletionError::SettlementOverflow);
        },
    };
    let credited_seeking = match job_seeking.credit_settlement(&employee_fee, now) {
        Some(p) => p,
        None => {
            return Err(CompletionError::SettlementOverflow);
        },
    };
    Ok((completed, credited_posting, credited_seeking))
}

/// The employer fee a completion credits: the stored amount, or zero.
pub open spec fn employer_fee_or_zero(m: Matching) -> Dec {
    match m.employer_fee_amount {
        Some(f) => f,
        None => Dec { m: 0, s: 0 },
    }
}

/// The employee fee a completion credits: the stored amount, or zero.
pub open spec fn employee_fee_or_zero(m: Matching) -> Dec {
    match m.employee_fee_amount {
        Some(f) => f,
        None => Dec { m: 0, s: 0 },
    }
}

/// Why a token refresh failed: no token was supplied (400), the token
/// or its holder did not check out (401), or a new token could not be
/// issued (500).
#[derive(Clone, Copy, Debug, PartialEq, Eq, Structural)]
pub enum RefreshError {
    MissingToken,
    InvalidToken,
    BadSubject,
    UnknownUser,
    TokenCreationFailed,
}

/// The refresh token a request carries: the body's, trimmed, unless
/// trimming leaves nothing; else the `refresh_token` cookie value the
/// caller extracted.
pub fn resolve_refresh_token(body_token: Option<&str>, cookie_token: Option<String>) -> (r:
    Option<String>)
    ensures
        (match body_token {
            Some(t) => crate::textutil::trim_of(t@).len() > 0,
            None => false,
        }) ==> (r matches Some(v) && (match body_token {
            Some(t) => v@ == crate::textutil::trim_of(t@),
            None => false,
        })),
        (match body_token {
            Some(t) => crate::textutil::trim_of(t@).len() == 0,
            None => true,
        }) ==> r == cookie_token,
{
    if let Some(t) = body_token {
        let trimmed = str_trim(t);
        if !trimmed.is_empty() {
            return Some(trimmed.to_owned());
        }
    }
    cookie_token
}

/// Refresh a session: validate the refresh token at `now`, read the
/// user id from its subject, check the user is still live, and issue a
/// fresh access and refresh token pair for them.
pub fn refresh_session(
    service: &AuthService,
    repo: &UserRepository,
    refresh_token: &str,
    now: i64,
) -> (r: Result<(User, String, String), RefreshError>)
    ensures
        payload_of(refresh_token@, service.secret@) is None ==> r == Err::<
            (User, String, String),
            RefreshError,
        >(RefreshError::InvalidToken),
        (payload_of(refresh_token@, service.secret@) matches Some(p) && p.4 != token_kind_label(
            TokenType::Refresh,
        )) ==> r == Err::<(User, String, String), RefreshError>(RefreshError::InvalidToken),
        (payload_of(refresh_token@, service.secret@) matches Some(p) && p.4 == token_kind_label(
            TokenType::Refresh,
        ) && p.2 < now) ==> r == Err::<(User, String, String), RefreshError>(
            RefreshError::InvalidToken,
        ),
        r matches Ok(out) ==> ({
            &&& payload_of(refresh_token@, service.secret@) matches Some(p)
                && p.4 == token_kind_label(TokenType::Refresh) && p.2 >= now && parses_as_i64(p.0)
                && i64_value_of(p.0) as i64 == out.0.id
            &&& first_user_with_id(repo.users@, out.0.id) == Some(out.0)
            &&& out.0.deleted_at is None
            &&& user_id_present(repo.users@, out.0.id)
        }),
{
    let claims = match service.validate_token_at(refresh_token, TokenType::Refresh, now) {
        Ok(c) => c,
        Err(_) => {
            return Err(RefreshError::InvalidToken);
        },
    };
    let user_id = match parse_i64(claims.sub.as_str()) {
        Some(v) => v,
        None => {
            return Err(RefreshError::BadSubject);
        },
    };
    let user = match repo.find_by_id(user_id) {
        Ok(u) => u,
        Err(_) => {
            return Err(RefreshError::UnknownUser);
        },
    };
    let access = match service.generate_access_token(user.id, user.username.as_str()) {
        Ok(t) => t,
        Err(_) => {
            return Err(RefreshError::TokenCreationFailed);
        },
    };
    let refresh = match service.generate_refresh_token(user.id, user.username.as_str()) {
        Ok(t) => t,
        Err(_) => {
            return Err(RefreshError::TokenCreationFailed);
        },
    };
    Ok((user, access, refresh))
}

} // verus!
