//! The authenticated user's own profile.

use vstd::prelude::*;
use crate::auth::UserId;
use crate::error::{AppError, Failure};
use crate::time::Timestamp;

verus! {

/// A user's profile.
pub struct UserProfile {
    pub id: UserId,
    pub email: String,
    pub display_name: String,
    pub timezone: String,
    pub created_at: Timestamp,
}

/// The answer to a profile request, given the stored profile if any.
pub open spec fn me_result(stored: Option<UserProfile>) -> Result<UserProfile, AppError> {
    match stored {
        Some(p) => Ok(p),
        None => Err(AppError::NotFound),
    }
}

/// Answers a profile request from the stored profile of the authenticated
/// user: the profile itself, or "not found" when the account is gone.
pub fn me(stored: Option<UserProfile>) -> (r: Result<UserProfile, AppError>)
    ensures
        r == me_result(stored),
        r matches Err(e) ==> e@ == Failure::NotFound,
{
    match stored {
        Some(p) => Ok(p),
        None => Err(AppError::NotFound),
    }
}

/// A profile request answers with the stored profile itself, or, when the
/// account is gone, with "not found" (404).
pub proof fn law_me_answers_stored_profile(stored: Option<UserProfile>)
    ensures
        stored matches Some(p) ==> me_result(stored) == Ok::<UserProfile, AppError>(p),
        stored is None ==> (me_result(stored) matches Err(e) && e@ == Failure::NotFound
            && crate::error::status_for(e@) == 404),
{
}

} // verus!
