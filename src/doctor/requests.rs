//! Messages of the doctor endpoints: the requests they take.

use crate::store::APPOINT_STATUS_UNFINISHED;
use vstd::prelude::*;

verus! {

#[derive(Debug, Clone)]
pub struct LoginRequest {
    pub did: String,
    pub password: String,
}

#[derive(Debug, Clone)]
pub struct LogoutRequest {
    pub login_token: String,
}

#[derive(Debug, Clone)]
pub struct ViewInfoRequest {
    pub login_token: String,
}

#[derive(Debug, Clone)]
pub struct AddTimeRequest {
    pub login_token: String,
    pub date: String,
    pub time: String,
    pub capacity: i32,
}

#[derive(Debug, Clone)]
pub struct ModifyPasswordRequest {
    pub login_token: String,
    pub password_old: String,
    pub password_new: String,
}

#[derive(Debug, Clone)]
pub struct ModifyInfoRequest {
    pub login_token: String,
    pub name: Option<String>,
    pub birthday: Option<String>,
    pub gender: Option<String>,
    pub info: Option<String>,
}

#[derive(Debug, Clone)]
pub struct ModifyTimeRequest {
    pub login_token: String,
    pub tid: u64,
    pub capacity: Option<i32>,
}

#[derive(Debug, Clone)]
pub struct DeleteTimeRequest {
    pub login_token: String,
    pub tid: u64,
}

#[derive(Debug, Clone)]
pub struct SearchTimeRequest {
    pub login_token: String,
    pub date: Option<String>,
    pub first_index: Option<i64>,
    pub limit: Option<i64>,
}

#[derive(Debug, Clone)]
pub struct SearchAppointRequest {
    pub login_token: String,
    pub start_time: Option<String>,
    pub end_time: Option<String>,
    pub status: String,
    pub first_index: Option<i64>,
    pub limit: Option<i64>,
}

#[derive(Debug, Clone)]
pub struct FinishAppointRequest {
    pub login_token: String,
    pub username: String,
    pub tid: u64,
}

#[derive(Debug, Clone)]
pub struct SearchCommentRequest {
    pub login_token: String,
    pub start_time: Option<String>,
    pub end_time: Option<String>,
    pub first_index: Option<i64>,
    pub limit: Option<i64>,
}

/// The status filter used when a search names none: unfinished appointments.
pub fn search_appoint_request_status_default() -> (r: String)
    ensures
        r@ == APPOINT_STATUS_UNFINISHED@,
{
    APPOINT_STATUS_UNFINISHED.to_owned()
}

} // verus!
