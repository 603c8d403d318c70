use crate::validation::{FieldViolation, Validate};
use vstd::prelude::*;

verus! {

/// A stored place record.
#[derive(Debug, Clone, PartialEq, Eq)]
pub struct PlaceEntity {
    pub id: i32,
    pub name: String,
    pub description: Option<String>,
    pub image: Option<String>,
    pub created_at: i64,
    pub updated_at: i64,
}

/// Payload for creating a place.
#[derive(Debug, Clone, PartialEq, Eq)]
pub struct CreatePlaceDTO {
    pub name: String,
    pub description: Option<String>,
    pub image: Option<String>,
}

/// Payload for updating a place.
#[derive(Debug, Clone, PartialEq, Eq)]
pub struct UpdatePlaceDTO {
    pub id: i32,
    pub name: Option<String>,
    pub description: Option<String>,
    pub image: Option<String>,
}

impl Validate for CreatePlaceDTO {
    /// Place creation declares no field constraints.
    open spec fn spec_violations(&self) -> Seq<(Seq<char>, Seq<char>)> {
        Seq::empty()
    }

    fn validate(&self) -> (r: Vec<FieldViolation>)
        ensures
            r.deep_view() == self.spec_violations(),
    {
        let r: Vec<FieldViolation> = Vec::new();
        proof {
            assert(r.deep_view() =~= self.spec_violations());
        }
        r
    }
}

impl Validate for UpdatePlaceDTO {
    /// Place update declares no field constraints.
    open spec fn spec_violations(&self) -> Seq<(Seq<char>, Seq<char>)> {
        Seq::empty()
    }

    fn validate(&self) -> (r: Vec<FieldViolation>)
        ensures
            r.deep_view() == self.spec_violations(),
    {
        let r: Vec<FieldViolation> = Vec::new();
        proof {
            assert(r.deep_view() =~= self.spec_violations());
        }
        r
    }
}

} // verus!
