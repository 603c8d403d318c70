//! The place service: the decision core of each place endpoint. Storage
//! round trips happen outside this crate; each function takes their
//! outcome as a plain value.

use crate::models::place_model::PlaceEntity;
use crate::validation::{is_constraint_fault, on_constraint, CustomError};
use vstd::prelude::*;

verus! {

/// Decides a single-place fetch: the entity when the row exists,
/// `NotFound` when it does not.
pub fn get_place(row: Option<PlaceEntity>) -> (r: Result<PlaceEntity, CustomError>)
    ensures
        row matches Some(p) ==> r == Ok::<PlaceEntity, CustomError>(p),
        row is None ==> r == Err::<PlaceEntity, CustomError>(CustomError::NotFound),
{
    match row {
        Some(p) => Ok(p),
        None => Err(CustomError::NotFound),
    }
}

/// Finishes creation from the outcome of the insert: a violation of the
/// name uniqueness constraint becomes the name-taken `Conflict`, any
/// other storage failure passes through, and a successful insert yields
/// the stored entity.
pub fn create_place(inserted: Result<PlaceEntity, CustomError>) -> (r: Result<
    PlaceEntity,
    CustomError,
>)
    ensures
        inserted matches Ok(p) ==> r == Ok::<PlaceEntity, CustomError>(p),
        inserted matches Err(e) ==> if is_constraint_fault(e, "places_name_key"@) {
            r matches Err(e2) && e2 matches CustomError::Conflict(m) && m@ == "name already taken"@
        } else {
            r == Err::<PlaceEntity, CustomError>(e)
        },
{
    on_constraint(inserted, "places_name_key", "name already taken")
}

/// Finishes an update from the outcome of the statement: the name
/// uniqueness constraint maps to the name-taken `Conflict`, a missing
/// row is `NotFound`, and a returned row is the updated entity.
pub fn update_place(updated: Result<Option<PlaceEntity>, CustomError>) -> (r: Result<
    PlaceEntity,
    CustomError,
>)
    ensures
        updated matches Ok(row) ==> match row {
            Some(p) => r == Ok::<PlaceEntity, CustomError>(p),
            None => r == Err::<PlaceEntity, CustomError>(CustomError::NotFound),
        },
        updated matches Err(e) ==> if is_constraint_fault(e, "places_name_key"@) {
            r matches Err(e2) && e2 matches CustomError::Conflict(m) && m@ == "name already taken"@
        } else {
            r == Err::<PlaceEntity, CustomError>(e)
        },
{
    match on_constraint(updated, "places_name_key", "name already taken") {
        Ok(Some(p)) => Ok(p),
        Ok(None) => Err(CustomError::NotFound),
        Err(e) => Err(e),
    }
}

/// Decides a delete from the number of rows the store removed: deleting
/// a missing place is `NotFound`.
pub fn delete_place(rows_deleted: u64) -> (r: Result<(), CustomError>)
    ensures
        rows_deleted > 0 ==> r is Ok,
        rows_deleted == 0 ==> r == Err::<(), CustomError>(CustomError::NotFound),
{
    if rows_deleted > 0 {
        Ok(())
    } else {
        Err(CustomError::NotFound)
    }
}

} // verus!
