//! The data shapes that cross the pipeline: entities, request payloads and
//! response bodies.

pub mod place_model;
pub mod profile_model;
pub mod user_model;
