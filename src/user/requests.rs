//! Messages of the patient endpoints: the requests they take.

use crate::store::APPOINT_STATUS_UNFINISHED;
use vstd::prelude::*;

verus! {

#[derive(Debug, Clone)]
pub struct RegisterRequest {
    pub username: String,
    pub name: String,
    pub password: String,
    pub gender: String,
    pub birthday: String,
    pub telephone: String,
}

#[derive(Debug, Clone)]
pub struct LoginRequest {
    pub username: String,
    pub password: String,
}

#[derive(Debug, Clone)]
pub struct LogoutRequest {
    pub login_token: String,
}

#[derive(Debug, Clone)]
pub struct ModifyPasswordRequest {
    pub login_token: String,
    pub password_old: String,
    pub password_new: String,
}

#[derive(Debug, Clone)]
pub struct ModifyInfoRequest {
    pub login_token: String,
    pub name: Option<String>,
    pub gender: Option<String>,
    pub birthday: Option<String>,
    pub telephone: Option<String>,
}

#[derive(Debug, Clone)]
pub struct AppointRequest {
    pub login_token: String,
    pub tid: u64,
}

#[derive(Debug, Clone)]
pub struct CancelAppointRequest {
    pub login_token: String,
    pub tid: u64,
}

#[derive(Debug, Clone)]
pub struct CommentRequest {
    pub login_token: String,
    pub did: String,
    pub comment: String,
}

#[derive(Debug, Clone)]
pub struct DeleteCommentRequest {
    pub login_token: String,
    pub cid: u64,
}

#[derive(Debug, Clone)]
pub struct SearchDepartRequest {
    pub login_token: String,
    pub depart_name: String,
    pub first_index: Option<i64>,
    pub limit: Option<i64>,
}

#[derive(Debug, Clone)]
pub struct SearchDoctorRequest {
    pub login_token: String,
    pub depart_name: Option<String>,
    pub doctor_name: Option<String>,
    pub rank: Option<String>,
    pub first_index: Option<i64>,
    pub limit: Option<i64>,
}

#[derive(Debug, Clone)]
pub struct SearchCommentRequest {
    pub login_token: String,
    pub did: String,
    pub start_time: Option<String>,
    pub end_time: Option<String>,
    pub first_index: Option<i64>,
    pub limit: Option<i64>,
}

#[derive(Debug, Clone)]
pub struct SearchTimeRequest {
    pub login_token: String,
    pub did: String,
    pub start_time: Option<String>,
    pub end_time: Option<String>,
    pub show_all: bool,
    pub first_index: Option<i64>,
    pub limit: Option<i64>,
}

#[derive(Debug, Clone)]
pub struct SearchAppointRequest {
    pub login_token: String,
    pub start_time: Option<String>,
    pub end_time: Option<String>,
    pub status: String,
    pub first_index: Option<i64>,
    pub limit: Option<i64>,
}

/// The status filter used when a search names none: unfinished appointments.
pub fn search_appoint_request_status_default() -> (r: String)
    ensures
        r@ == APPOINT_STATUS_UNFINISHED@,
{
    APPOINT_STATUS_UNFINISHED.to_owned()
}

} // verus!
