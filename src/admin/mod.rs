pub mod requests;
pub mod responses;
