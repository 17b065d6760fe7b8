//! Messages of the administrator endpoints: the responses they give.

use vstd::prelude::*;

verus! {

#[derive(Debug, Clone, Default)]
pub struct LoginResponse {
    pub success: bool,
    pub err: String,
    pub login_token: String,
}

#[derive(Debug, Clone, Default)]
pub struct SearchDoctorItem {
    pub did: String,
    pub name: String,
    pub gender: String,
    pub age: i32,
    pub depart: String,
    pub rank: String,
    pub info: String,
}

#[derive(Debug, Clone, Default)]
pub struct SearchDoctorResponse {
    pub success: bool,
    pub err: String,
    pub doctors: Vec<SearchDoctorItem>,
}

#[derive(Debug, Clone, Default)]
pub struct SearchDepartItem {
    pub name: String,
    pub info: String,
}

#[derive(Debug, Clone, Default)]
pub struct SearchDepartResponse {
    pub success: bool,
    pub err: String,
    pub departments: Vec<SearchDepartItem>,
}

#[derive(Debug, Clone, Default)]
pub struct SearchCommentItem {
    pub cid: u64,
    pub username: String,
    pub comment: String,
    pub time: String,
}

#[derive(Debug, Clone, Default)]
pub struct SearchCommentResponse {
    pub success: bool,
    pub err: String,
    pub commenst: Vec<SearchCommentItem>,
}

#[derive(Debug, Clone, Default)]
pub struct SearchUserItem {
    pub username: String,
    pub name: String,
    pub age: i32,
    pub gender: String,
    pub telephone: String,
    pub is_banned: bool,
}

#[derive(Debug, Clone, Default)]
pub struct SearchUserResponse {
    pub success: bool,
    pub err: String,
    pub users: Vec<SearchUserItem>,
}

#[derive(Debug, Clone, Default)]
pub struct ViewUserResponse {
    pub success: bool,
    pub err: String,
    pub username: String,
    pub name: String,
    pub birthday: String,
    pub gender: String,
    pub telephone: String,
    pub is_banned: bool,
}

impl LoginResponse {
    /// A failed response carrying the message `err`.
    pub fn err(err: &str) -> (r: LoginResponse)
        ensures
            !r.success,
            r.err@ == err@,
    {
        LoginResponse {
            success: false,
            err: err.to_owned(),
            login_token: String::new(),
        }
    }
}

impl SearchDoctorResponse {
    /// A failed response carrying the message `err`.
    pub fn err(err: &str) -> (r: SearchDoctorResponse)
        ensures
            !r.success,
            r.err@ == err@,
    {
        SearchDoctorResponse {
            success: false,
            err: err.to_owned(),
            doctors: Vec::new(),
        }
    }
}

impl SearchDepartResponse {
    /// A failed response carrying the message `err`.
    pub fn err(err: &str) -> (r: SearchDepartResponse)
        ensures
            !r.success,
            r.err@ == err@,
    {
        SearchDepartResponse {
            success: false,
            err: err.to_owned(),
            departments: Vec::new(),
        }
    }
}

impl SearchCommentResponse {
    /// A failed response carrying the message `err`.
    pub fn err(err: &str) -> (r: SearchCommentResponse)
        ensures
            !r.success,
            r.err@ == err@,
    {
        SearchCommentResponse {
            success: false,
            err: err.to_owned(),
            commenst: Vec::new(),
        }
    }
}

impl SearchUserResponse {
    /// A failed response carrying the message `err`.
    pub fn err(err: &str) -> (r: SearchUserResponse)
        ensures
            !r.success,
            r.err@ == err@,
    {
        SearchUserResponse {
            success: false,
            err: err.to_owned(),
            users: Vec::new(),
        }
    }
}

impl ViewUserResponse {
    /// A failed response carrying the message `err`.
    pub fn err(err: &str) -> (r: ViewUserResponse)
        ensures
            !r.success,
            r.err@ == err@,
    {
        ViewUserResponse {
            success: false,
            err: err.to_owned(),
            username: String::new(),
            name: String::new(),
            birthday: String::new(),
            gender: String::new(),
            telephone: String::new(),
            is_banned: false,
        }
    }
}

} // verus!
