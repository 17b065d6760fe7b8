//! Verified core of a clinic appointment service: role-scoped login
//! sessions, doctors' time slots with bounded capacity, and the
//! appointment lifecycle that keeps slot occupancy consistent.

pub mod admin;
pub mod booking;
pub mod datetime;
pub mod digest;
pub mod doctor;
pub mod error;
pub mod laws;
pub mod ledger;
pub mod models;
pub mod protocol;
pub mod search;
pub mod session;
pub mod store;
pub mod user;
pub mod utils;
