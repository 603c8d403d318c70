use vstd::prelude::*;

verus! {

/// The public face of a user record: everything but the credentials.
#[derive(Debug, Clone, PartialEq, Eq)]
pub struct ProfileEntity {
    pub id: i32,
    pub name: String,
    pub email: String,
}

} // verus!
