//! Messages of the doctor endpoints: the responses they give.

use vstd::prelude::*;

verus! {

#[derive(Debug, Clone, Default)]
pub struct LoginResponse {
    pub success: bool,
    pub err: String,
    pub login_token: String,
}

#[derive(Debug, Clone, Default)]
pub struct ViewInfoResponse {
    pub success: bool,
    pub err: String,
    pub did: String,
    pub name: String,
    pub birthday: String,
    pub gender: String,
    pub rankk: String,
    pub info: String,
    pub depart: String,
    pub depart_info: String,
}

#[derive(Debug, Clone, Default)]
pub struct AddTimeResponse {
    pub success: bool,
    pub err: String,
    pub tid: u64,
}

#[derive(Debug, Clone, Default)]
pub struct SearchTimeItem {
    pub tid: u64,
    pub date: String,
    pub time: String,
    pub capacity: i32,
    pub rest: i32,
}

#[derive(Debug, Clone, Default)]
pub struct SearchTimeResponse {
    pub success: bool,
    pub err: String,
    pub times: Vec<SearchTimeItem>,
}

#[derive(Debug, Clone, Default)]
pub struct SearchAppointItem {
    pub username: String,
    pub name: String,
    pub age: i32,
    pub tid: u64,
    pub date: String,
    pub time: String,
    pub status: String,
    pub appo_time: String,
}

#[derive(Debug, Clone, Default)]
pub struct SearchAppointResponse {
    pub success: bool,
    pub err: String,
    pub appointments: Vec<SearchAppointItem>,
}

#[derive(Debug, Clone, Default)]
pub struct SearchCommentItem {
    pub cid: u64,
    pub username: String,
    pub comment: String,
    pub time: String,
}

#[derive(Debug, Clone, Default)]
pub struct SearchCommentResponse {
    pub success: bool,
    pub err: String,
    pub comments: Vec<SearchCommentItem>,
}

impl LoginResponse {
    /// A failed response carrying the message `err`.
    pub fn err(err: &str) -> (r: LoginResponse)
        ensures
            !r.success,
            r.err@ == err@,
    {
        LoginResponse {
            success: false,
            err: err.to_owned(),
            login_token: String::new(),
        }
    }
}

impl ViewInfoResponse {
    /// A failed response carrying the message `err`.
    pub fn err(err: &str) -> (r: ViewInfoResponse)
        ensures
            !r.success,
            r.err@ == err@,
    {
        ViewInfoResponse {
            success: false,
            err: err.to_owned(),
            did: String::new(),
            name: String::new(),
            birthday: String::new(),
            gender: String::new(),
            rankk: String::new(),
            info: String::new(),
            depart: String::new(),
            depart_info: String::new(),
        }
    }
}

impl AddTimeResponse {
    /// A failed response carrying the message `err`.
    pub fn err(err: &str) -> (r: AddTimeResponse)
        ensures
            !r.success,
            r.err@ == err@,
    {
        AddTimeResponse {
            success: false,
            err: err.to_owned(),
            tid: 0,
        }
    }
}

impl SearchTimeResponse {
    /// A failed response carrying the message `err`.
    pub fn err(err: &str) -> (r: SearchTimeResponse)
        ensures
            !r.success,
            r.err@ == err@,
    {
        SearchTimeResponse {
            success: false,
            err: err.to_owned(),
            times: Vec::new(),
        }
    }
}

impl SearchAppointResponse {
    /// A failed response carrying the message `err`.
    pub fn err(err: &str) -> (r: SearchAppointResponse)
        ensures
            !r.success,
            r.err@ == err@,
    {
        SearchAppointResponse {
            success: false,
            err: err.to_owned(),
            appointments: Vec::new(),
        }
    }
}

impl SearchCommentResponse {
    /// A failed response carrying the message `err`.
    pub fn err(err: &str) -> (r: SearchCommentResponse)
        ensures
            !r.success,
            r.err@ == err@,
    {
        SearchCommentResponse {
            success: false,
            err: err.to_owned(),
            comments: Vec::new(),
        }
    }
}

} // verus!
