//! The profile service: the decision core of the public profile
//! endpoints. The lookups themselves happen outside this crate.

use crate::models::profile_model::ProfileEntity;
use crate::validation::CustomError;
use vstd::prelude::*;

verus! {

/// Decides a single-profile fetch: the profile when the row exists,
/// `NotFound` when it does not.
pub fn get_user(row: Option<ProfileEntity>) -> (r: Result<ProfileEntity, CustomError>)
    ensures
        row matches Some(p) ==> r == Ok::<ProfileEntity, CustomError>(p),
        row is None ==> r == Err::<ProfileEntity, CustomError>(CustomError::NotFound),
{
    match row {
        Some(p) => Ok(p),
        None => Err(CustomError::NotFound),
    }
}

} // verus!
