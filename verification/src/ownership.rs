//! The single authorization helper every handler of a nested entity goes
//! through: ownership is re-derived by walking the chain entity →
//! posting → customer → owning user, and comparing the owner to the
//! caller.  A missing entity is not found; an intact chain ending at
//! another user is forbidden — so denial of access confirms the entity
//! exists, while a lookup of another user's customer is plain not-found.

use vstd::prelude::*;
use crate::customers::Customer;
use crate::matchings::Matching;
use crate::postings::{JobPosting, JobSeekingPosting};

verus! {

/// Why access was refused: the entity is missing (404), an inner lookup
/// failed although the entity names it (500), or the chain ends at a
/// different user (403).
#[derive(Clone, Copy, Debug, PartialEq, Eq, Structural)]
pub enum AccessError {
    NotFound,
    LookupFailed,
    Forbidden,
}

impl AccessError {
    /// The HTTP status the error maps to.
    pub fn status_code(&self) -> (r: u16)
        ensures
            *self == AccessError::NotFound ==> r == 404,
            *self == AccessError::LookupFailed ==> r == 500,
            *self == AccessError::Forbidden ==> r == 403,
    {
        match self {
            AccessError::NotFound => 404,
            AccessError::LookupFailed => 500,
            AccessError::Forbidden => 403,
        }
    }
}

/// What verifying ownership of a posting decides, for every input: the
/// posting must be present and live, its customer row must be the one it
/// names, and that customer must be live and owned by the caller.
pub open spec fn posting_access_spec(
    posting: Option<JobPosting>,
    customer: Option<Customer>,
    user_id: i64,
) -> Result<(), AccessError> {
    match posting {
        None => Err(AccessError::NotFound),
        Some(p) => {
            if p.deleted_at is Some {
                Err(AccessError::NotFound)
            } else {
                match customer {
                    None => Err(AccessError::Forbidden),
                    Some(c) => {
                        if c.id != p.customer_id {
                            Err(AccessError::LookupFailed)
                        } else if !c.visible_to(user_id) {
                            Err(AccessError::Forbidden)
                        } else {
                            Ok(())
                        }
                    },
                }
            }
        },
    }
}

/// Verify that the caller owns a job posting, through its customer.
/// `customer` is the row the posting names, when one was found at all.
pub fn verify_job_posting_ownership(
    posting: Option<&JobPosting>,
    customer: Option<&Customer>,
    user_id: i64,
) -> (r: Result<(), AccessError>)
    ensures
        r == posting_access_spec(
            match posting {
                Some(p) => Some(*p),
                None => None::<JobPosting>,
            },
            match customer {
                Some(c) => Some(*c),
                None => None::<Customer>,
            },
            user_id,
        ),
{
    let p = match posting {
        None => {
            return Err(AccessError::NotFound);
        },
        Some(p) => p,
    };
    if p.deleted_at.is_some() {
        return Err(AccessError::NotFound);
    }
    let c = match customer {
        None => {
            return Err(AccessError::Forbidden);
        },
        Some(c) => c,
    };
    if c.id != p.customer_id {
        return Err(AccessError::LookupFailed);
    }
    if !c.is_visible_to(user_id) {
        return Err(AccessError::Forbidden);
    }
    Ok(())
}

/// The same decision for a job-seeking posting.
pub open spec fn seeking_access_spec(
    posting: Option<JobSeekingPosting>,
    customer: Option<Customer>,
    user_id: i64,
) -> Result<(), AccessError> {
    match posting {
        None => Err(AccessError::NotFound),
        Some(p) => {
            if p.deleted_at is Some {
                Err(AccessError::NotFound)
            } else {
                match customer {
                    None => Err(AccessError::Forbidden),
                    Some(c) => {
                        if c.id != p.customer_id {
                            Err(AccessError::LookupFailed)
                        } else if !c.visible_to(user_id) {
                            Err(AccessError::Forbidden)
                        } else {
                            Ok(())
                        }
                    },
                }
            }
        },
    }
}

/// Verify that the caller owns a job-seeking posting, through its
/// customer.
pub fn verify_job_seeking_ownership(
    posting: Option<&JobSeekingPosting>,
    customer: Option<&Customer>,
    user_id: i64,
) -> (r: Result<(), AccessError>)
    ensures
        r == seeking_access_spec(
            match posting {
                Some(p) => Some(*p),
                None => None::<JobSeekingPosting>,
            },
            match customer {
                Some(c) => Some(*c),
                None => None::<Customer>,
            },
            user_id,
        ),
{
    let p = match posting {
        None => {
            return Err(AccessError::NotFound);
        },
        Some(p) => p,
    };
    if p.deleted_at.is_some() {
        return Err(AccessError::NotFound);
    }
    let c = match customer {
        None => {
            return Err(AccessError::Forbidden);
        },
        Some(c) => c,
    };
    if c.id != p.customer_id {
        return Err(AccessError::LookupFailed);
    }
    if !c.is_visible_to(user_id) {
        return Err(AccessError::Forbidden);
    }
    Ok(())
}

/// What verifying ownership of a matching decides, for every input: the
/// matching must be present and live; the job posting it names must have
/// been found (else the inner lookup failed); and the posting's customer
/// chain must pass the posting check, with a missing or foreign customer
/// forbidden.
pub open spec fn matching_access_spec(
    matching: Option<Matching>,
    posting: Option<JobPosting>,
    customer: Option<Customer>,
    user_id: i64,
) -> Result<(), AccessError> {
    match matching {
        None => Err(AccessError::NotFound),
        Some(m) => {
            if m.deleted_at is Some {
                Err(AccessError::NotFound)
            } else {
                match posting {
                    None => Err(AccessError::LookupFailed),
                    Some(p) => {
                        if p.id != m.job_posting_id {
                            Err(AccessError::LookupFailed)
                        } else {
                            match customer {
                                None => Err(AccessError::Forbidden),
                                Some(c) => {
                                    if c.id != p.customer_id {
                                        Err(AccessError::LookupFailed)
                                    } else if !c.visible_to(user_id) {
                                        Err(AccessError::Forbidden)
                                    } else {
                                        Ok(())
                                    }
                                },
                            }
                        }
                    },
                }
            }
        },
    }
}

/// Verify that the caller owns a matching, through its job posting's
/// customer: the authorization helper behind every matching operation.
pub fn verify_matching_ownership(
    matching: Option<&Matching>,
    posting: Option<&JobPosting>,
    customer: Option<&Customer>,
    user_id: i64,
) -> (r: Result<(), AccessError>)
    ensures
        r == matching_access_spec(
            match matching {
                Some(m) => Some(*m),
                None => None::<Matching>,
            },
            match posting {
                Some(p) => Some(*p),
                None => None::<JobPosting>,
            },
            match customer {
                Some(c) => Some(*c),
                None => None::<Customer>,
            },
            user_id,
        ),
{
    let m = match matching {
        None => {
            return Err(AccessError::NotFound);
        },
        Some(m) => m,
    };
    if m.deleted_at.is_some() {
        return Err(AccessError::NotFound);
    }
    let p = match posting {
        None => {
            return Err(AccessError::LookupFailed);
        },
        Some(p) => p,
    };
    if p.id != m.job_posting_id {
        return Err(AccessError::LookupFailed);
    }
    let c = match customer {
        None => {
            return Err(AccessError::Forbidden);
        },
        Some(c) => c,
    };
    if c.id != p.customer_id {
        return Err(AccessError::LookupFailed);
    }
    if !c.is_visible_to(user_id) {
        return Err(AccessError::Forbidden);
    }
    Ok(())
}

/// Ownership protects every nested entity: whenever the chain from a
/// matching through its posting to the customer is intact but the
/// customer belongs to a different user, access is forbidden — never
/// granted, and never reported as missing, so the caller learns the
/// entity exists but is not theirs.
pub proof fn lemma_foreign_owner_is_forbidden(
    m: Matching,
    p: JobPosting,
    c: Customer,
    user_id: i64,
)
    requires
        m.deleted_at is None,
        p.id == m.job_posting_id,
        c.id == p.customer_id,
        c.deleted_at is None,
        c.user_id != user_id,
    ensures
        matching_access_spec(Some(m), Some(p), Some(c), user_id) == Err::<(), AccessError>(
            AccessError::Forbidden,
        ),
        p.deleted_at is None ==> posting_access_spec(Some(p), Some(c), user_id) == Err::<
            (),
            AccessError,
        >(AccessError::Forbidden),
{
}

/// Ownership grants access exactly to the owner: with an intact, live
/// chain, the matching check succeeds if and only if the customer at the
/// end of the chain is the caller's.
pub proof fn lemma_access_iff_owner(m: Matching, p: JobPosting, c: Customer, user_id: i64)
    requires
        m.deleted_at is None,
        p.id == m.job_posting_id,
        c.id == p.customer_id,
        c.deleted_at is None,
    ensures
        matching_access_spec(Some(m), Some(p), Some(c), user_id) is Ok <==> c.user_id == user_id,
{
}

} // verus!
