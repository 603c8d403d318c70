use crate::validation::{is_valid_email, check_email, FieldViolation, Validate};
use vstd::prelude::*;

verus! {

/// A stored user record, credentials included. Never serialized for a
/// client as it stands; responses use [`ProfileEntity`] or [`UserBody`].
#[derive(Debug, Clone, PartialEq, Eq)]
pub struct UserEntity {
    pub id: i32,
    pub name: String,
    pub email: String,
    pub password: String,
    pub created_at: i64,
    pub updated_at: i64,
}

/// The public face of a user record: everything but the credentials.
#[derive(Debug, Clone, PartialEq, Eq)]
pub struct ProfileEntity {
    pub id: i32,
    pub name: String,
    pub email: String,
}

/// The response body of the authenticated user endpoints: the profile
/// plus a fresh session token.
#[derive(Debug, Clone, PartialEq, Eq)]
pub struct UserBody {
    pub id: i32,
    pub name: String,
    pub email: String,
    pub token: String,
}

/// Login payload.
#[derive(Debug, Clone, PartialEq, Eq)]
pub struct LoginUserDTO {
    pub email: String,
    pub password: String,
}

/// Registration payload.
#[derive(Debug, Clone, PartialEq, Eq)]
pub struct CreateUserDTO {
    pub name: String,
    pub email: String,
    pub password: String,
}

/// Update payload.
#[derive(Debug, Clone, PartialEq, Eq)]
pub struct UpdateUserDTO {
    pub name: String,
    pub password: String,
}

/// The violation recorded for an empty `name`.
pub open spec fn empty_name_violation() -> (Seq<char>, Seq<char>) {
    ("name"@, "Can not be empty"@)
}

/// The violation recorded for an ill-formed `email`.
pub open spec fn invalid_email_violation() -> (Seq<char>, Seq<char>) {
    ("email"@, "Invalid email"@)
}

impl Validate for CreateUserDTO {
    /// Constraints, in declaration order: `name` non-empty, `email`
    /// well-formed; `password` is unconstrained.
    open spec fn spec_violations(&self) -> Seq<(Seq<char>, Seq<char>)> {
        (if self.name@.len() == 0 {
            seq![empty_name_violation()]
        } else {
            Seq::empty()
        }) + (if !is_valid_email(self.email@) {
            seq![invalid_email_violation()]
        } else {
            Seq::empty()
        })
    }

    fn validate(&self) -> (r: Vec<FieldViolation>)
        ensures
            r.deep_view() == self.spec_violations(),
    {
        let mut r: Vec<FieldViolation> = Vec::new();
        if self.name.as_str().is_empty() {
            r.push(
                FieldViolation {
                    field: String::from_str("name"),
                    message: String::from_str("Can not be empty"),
                },
            );
        }
        if !check_email(self.email.as_str()) {
            r.push(
                FieldViolation {
                    field: String::from_str("email"),
                    message: String::from_str("Invalid email"),
                },
            );
        }
        proof {
            assert(r.deep_view() =~= self.spec_violations());
        }
        r
    }
}

impl Validate for LoginUserDTO {
    /// Login declares no field constraints.
    open spec fn spec_violations(&self) -> Seq<(Seq<char>, Seq<char>)> {
        Seq::empty()
    }

    fn validate(&self) -> (r: Vec<FieldViolation>)
        ensures
            r.deep_view() == self.spec_violations(),
    {
        let r: Vec<FieldViolation> = Vec::new();
        proof {
            assert(r.deep_view() =~= self.spec_violations());
        }
        r
    }
}

impl Validate for UpdateUserDTO {
    /// The one constraint: `name` non-empty.
    open spec fn spec_violations(&self) -> Seq<(Seq<char>, Seq<char>)> {
        if self.name@.len() == 0 {
            seq![empty_name_violation()]
        } else {
            Seq::empty()
        }
    }

    fn validate(&self) -> (r: Vec<FieldViolation>)
        ensures
            r.deep_view() == self.spec_violations(),
    {
        let mut r: Vec<FieldViolation> = Vec::new();
        if self.name.as_str().is_empty() {
            r.push(
                FieldViolation {
                    field: String::from_str("name"),
                    message: String::from_str("Can not be empty"),
                },
            );
        }
        proof {
            assert(r.deep_view() =~= self.spec_violations());
        }
        r
    }
}

} // verus!
