//! The user profile endpoints' shapes and rules: the rendered profile,
//! and the partial update that must keep both default fee rates between
//! 0 and 100.

use vstd::prelude::*;
use crate::decimal::{Dec, dec_string, dec_to_string, dec_wf, rate_in_range, rate_in_range_spec};
use crate::matchings::clone_opt_string;
use crate::numeric::{int_string, i64_to_string};
use crate::users::User;

verus! {

/// A user profile as the API renders it: fee rates and the creation
/// time as decimal strings.
#[derive(Clone, Debug)]
pub struct UserProfile {
    pub id: i64,
    pub username: String,
    pub phone: Option<String>,
    pub default_employer_fee_rate: String,
    pub default_employee_fee_rate: String,
    pub created_at: String,
}

/// The body of a profile response.
#[derive(Clone, Debug)]
pub struct UserProfileResponse {
    pub user: UserProfile,
}

/// A partial profile update; a supplied fee rate must lie between 0 and
/// 100.
#[derive(Clone, Debug)]
pub struct UpdateUserProfileRequest {
    pub phone: Option<String>,
    pub default_employer_fee_rate: Option<Dec>,
    pub default_employee_fee_rate: Option<Dec>,
}

/// Why a profile update was refused: a fee rate outside 0 to 100.
#[derive(Clone, Copy, Debug, PartialEq, Eq, Structural)]
pub enum ProfileError {
    EmployerRateOutOfRange,
    EmployeeRateOutOfRange,
}

/// Render a user's profile: the fee rates and the creation time become
/// decimal strings.
pub fn profile_of(user: &User) -> (r: UserProfile)
    requires
        dec_wf(user.default_employer_fee_rate),
        dec_wf(user.default_employee_fee_rate),
    ensures
        r.id == user.id,
        r.username@ == user.username@,
        r.phone == user.phone,
        r.default_employer_fee_rate@ == dec_string(user.default_employer_fee_rate),
        r.default_employee_fee_rate@ == dec_string(user.default_employee_fee_rate),
        r.created_at@ == int_string(user.created_at as int),
{
    UserProfile {
        id: user.id,
        username: user.username.clone(),
        phone: clone_opt_string(&user.phone),
        default_employer_fee_rate: dec_to_string(&user.default_employer_fee_rate),
        default_employee_fee_rate: dec_to_string(&user.default_employee_fee_rate),
        created_at: i64_to_string(user.created_at),
    }
}

/// Merge a profile update into the user: each supplied field replaces
/// the stored one, and a supplied fee rate outside 0 to 100 is refused
/// with nothing changed.
pub fn update_profile(user: &User, req: &UpdateUserProfileRequest, now: i64) -> (r: Result<
    User,
    ProfileError,
>)
    requires
        req.default_employer_fee_rate matches Some(x) ==> dec_wf(x),
        req.default_employee_fee_rate matches Some(x) ==> dec_wf(x),
    ensures
        (req.default_employer_fee_rate matches Some(x) && !rate_in_range_spec(x)) <==> r == Err::<
            User,
            ProfileError,
        >(ProfileError::EmployerRateOutOfRange),
        ((match req.default_employer_fee_rate {
            Some(x) => rate_in_range_spec(x),
            None => true,
        }) && (req.default_employee_fee_rate matches Some(y) && !rate_in_range_spec(y))) <==> r
            == Err::<User, ProfileError>(ProfileError::EmployeeRateOutOfRange),
        r matches Ok(u) ==> u == (User {
            phone: match req.phone {
                Some(p) => Some(p),
                None => user.phone,
            },
            default_employer_fee_rate: match req.default_employer_fee_rate {
                Some(x) => x,
                None => user.default_employer_fee_rate,
            },
            default_employee_fee_rate: match req.default_employee_fee_rate {
                Some(x) => x,
                None => user.default_employee_fee_rate,
            },
            updated_at: now,
            ..*user
        }),
{
    if let Some(x) = &req.default_employer_fee_rate {
        if !rate_in_range(x) {
            return Err(ProfileError::EmployerRateOutOfRange);
        }
    }
    if let Some(y) = &req.default_employee_fee_rate {
        if !rate_in_range(y) {
            return Err(ProfileError::EmployeeRateOutOfRange);
        }
    }
    let mut updated = user.duplicate();
    updated.phone = match &req.phone {
        Some(p) => Some(p.clone()),
        None => clone_opt_string(&user.phone),
    };
    updated.default_employer_fee_rate = match req.default_employer_fee_rate {
        Some(x) => x,
        None => user.default_employer_fee_rate,
    };
    updated.default_employee_fee_rate = match req.default_employee_fee_rate {
        Some(x) => x,
        None => user.default_employee_fee_rate,
    };
    updated.updated_at = now;
    Ok(updated)
}

} // verus!
