//! The decision cores of the service layer: each function takes the
//! outcome of a storage round trip as a plain value and computes the
//! response or the error owed for it.

pub mod place_service;
pub mod profile_service;
pub mod user_service;
