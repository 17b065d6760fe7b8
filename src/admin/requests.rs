//! Messages of the administrator endpoints: the requests they take.

use vstd::prelude::*;

verus! {

#[derive(Debug, Clone)]
pub struct RegisterRequest {
    pub aid: String,
    pub password: String,
}

#[derive(Debug, Clone)]
pub struct LoginRequest {
    pub aid: String,
    pub password: String,
}

#[derive(Debug, Clone)]
pub struct LogoutRequest {
    pub login_token: String,
}

#[derive(Debug, Clone)]
pub struct ModifyPasswordRequest {
    pub login_token: String,
    pub password_old: String,
    pub password_new: String,
}

#[derive(Debug, Clone)]
pub struct AddDoctorRequest {
    pub login_token: String,
    pub did: String,
    pub name: String,
    pub depart: String,
    pub rank: String,
    pub birthday: String,
    pub gender: String,
}

#[derive(Debug, Clone)]
pub struct SearchDoctorRequest {
    pub doctor_name: Option<String>,
    pub depart_name: Option<String>,
    pub rank: Option<String>,
    pub first_index: Option<i64>,
    pub limit: Option<i64>,
}

#[derive(Debug, Clone)]
pub struct ModifyDoctorRequest {
    pub login_token: String,
    pub did: String,
    pub name: Option<String>,
    pub gender: Option<String>,
    pub rank: Option<String>,
    pub depart: Option<String>,
    pub birthday: Option<String>,
}

#[derive(Debug, Clone)]
pub struct AddDepartRequst {
    pub login_token: String,
    pub depart: String,
    pub info: String,
}

#[derive(Debug, Clone)]
pub struct SearchDepartRequest {
    pub depart_name: Option<String>,
    pub first_index: Option<i64>,
    pub limit: Option<i64>,
}

#[derive(Debug, Clone)]
pub struct ModifyDepartRequest {
    pub login_token: String,
    pub depart: String,
    pub info: Option<String>,
}

#[derive(Debug, Clone)]
pub struct SearchCommentRequest {
    pub did: String,
    pub start_time: Option<String>,
    pub end_time: Option<String>,
    pub first_index: Option<i64>,
    pub limit: Option<i64>,
}

#[derive(Debug, Clone)]
pub struct DeleteCommentRequest {
    pub login_token: String,
    pub cid: u64,
}

#[derive(Debug, Clone)]
pub struct SearchUserRequest {
    pub username: Option<String>,
    pub first_index: Option<i64>,
    pub limit: Option<i64>,
}

#[derive(Debug, Clone)]
pub struct ViewUserRequest {
    pub username: String,
}

#[derive(Debug, Clone)]
pub struct BanUserRequest {
    pub login_token: String,
    pub username: String,
    pub is_banned: bool,
}

#[derive(Debug, Clone)]
pub struct ModifyUserRequest {
    pub login_token: String,
    pub username: String,
    pub name: Option<String>,
    pub gender: Option<String>,
    pub id_number: Option<String>,
    pub birthday: Option<String>,
    pub telephone: Option<String>,
}

} // verus!
