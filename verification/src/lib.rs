//! Core of a backend API for managing users and places: password
//! credentials, signed session tokens, declarative request validation,
//! and a closed error taxonomy mapped to HTTP statuses.
//!
//! Storage queries, HTTP routing and process bootstrap live outside this
//! crate; the functions here take the outcomes of those steps as plain
//! values and make every decision of the request pipeline.

pub mod authorization;
pub mod models;
pub mod services;
pub mod validation;
