//! Messages of the patient endpoints: the responses they give.

use vstd::prelude::*;

verus! {

#[derive(Debug, Clone, Default)]
pub struct LoginResponse {
    pub success: bool,
    pub err: String,
    pub login_token: String,
}

#[derive(Debug, Clone, Default)]
pub struct ViewInfoResponse {
    pub success: bool,
    pub err: String,
    pub username: String,
    pub name: String,
    pub gender: String,
    pub id_number: String,
    pub birthday: String,
    pub telephone: String,
}

#[derive(Debug, Clone, Default)]
pub struct SearchDepartItem {
    pub name: String,
    pub info: String,
}

#[derive(Debug, Clone, Default)]
pub struct SearchDepartResponse {
    pub success: bool,
    pub err: String,
    pub departments: Vec<SearchDepartItem>,
}

#[derive(Debug, Clone, Default)]
pub struct SearchDoctorItem {
    pub did: String,
    pub name: String,
    pub depart: String,
    pub rank: String,
    pub gender: String,
    pub age: i32,
    pub info: String,
}

#[derive(Debug, Clone, Default)]
pub struct SearchDoctorResponse {
    pub success: bool,
    pub err: String,
    pub doctors: Vec<SearchDoctorItem>,
}

#[derive(Debug, Clone, Default)]
pub struct SearchCommentItem {
    pub cid: u64,
    pub username: String,
    pub comment: String,
    pub time: String,
}

#[derive(Debug, Clone, Default)]
pub struct SearchCommentResponse {
    pub success: bool,
    pub err: String,
    pub comments: Vec<SearchCommentItem>,
}

#[derive(Debug, Clone, Default)]
pub struct SearchTimeItem {
    pub tid: u64,
    pub date: String,
    pub time: String,
    pub did: String,
    pub doctor_name: String,
    pub doctor_depart: String,
    pub capacity: i32,
    pub rest: i32,
}

#[derive(Debug, Clone, Default)]
pub struct SearchTimeResponse {
    pub success: bool,
    pub err: String,
    pub times: Vec<SearchTimeItem>,
}

#[derive(Debug, Clone, Default)]
pub struct SearchAppointItem {
    pub did: String,
    pub doctor_name: String,
    pub doctor_depart: String,
    pub tid: u64,
    pub date: String,
    pub time: String,
    pub status: String,
    pub appo_time: String,
}

#[derive(Debug, Clone, Default)]
pub struct SearchAppointResponse {
    pub success: bool,
    pub err: String,
    pub appointments: Vec<SearchAppointItem>,
}

impl LoginResponse {
    /// A failed response carrying the message `err`.
    pub fn err(err: &str) -> (r: LoginResponse)
        ensures
            !r.success,
            r.err@ == err@,
    {
        LoginResponse {
            success: false,
            err: err.to_owned(),
            login_token: String::new(),
        }
    }
}

impl ViewInfoResponse {
    /// A failed response carrying the message `err`.
    pub fn err(err: &str) -> (r: ViewInfoResponse)
        ensures
            !r.success,
            r.err@ == err@,
    {
        ViewInfoResponse {
            success: false,
            err: err.to_owned(),
            username: String::new(),
            name: String::new(),
            gender: String::new(),
            id_number: String::new(),
            birthday: String::new(),
            telephone: String::new(),
        }
    }
}

impl SearchDepartResponse {
    /// A failed response carrying the message `err`.
    pub fn err(err: &str) -> (r: SearchDepartResponse)
        ensures
            !r.success,
            r.err@ == err@,
    {
        SearchDepartResponse {
            success: false,
            err: err.to_owned(),
            departments: Vec::new(),
        }
    }
}

impl SearchDoctorResponse {
    /// A failed response carrying the message `err`.
    pub fn err(err: &str) -> (r: SearchDoctorResponse)
        ensures
            !r.success,
            r.err@ == err@,
    {
        SearchDoctorResponse {
            success: false,
            err: err.to_owned(),
            doctors: Vec::new(),
        }
    }
}

impl SearchCommentResponse {
    /// A failed response carrying the message `err`.
    pub fn err(err: &str) -> (r: SearchCommentResponse)
        ensures
            !r.success,
            r.err@ == err@,
    {
        SearchCommentResponse {
            success: false,
            err: err.to_owned(),
            comments: Vec::new(),
        }
    }
}

impl SearchTimeResponse {
    /// A failed response carrying the message `err`.
    pub fn err(err: &str) -> (r: SearchTimeResponse)
        ensures
            !r.success,
            r.err@ == err@,
    {
        SearchTimeResponse {
            success: false,
            err: err.to_owned(),
            times: Vec::new(),
        }
    }
}

impl SearchAppointResponse {
    /// A failed response carrying the message `err`.
    pub fn err(err: &str) -> (r: SearchAppointResponse)
        ensures
            !r.success,
            r.err@ == err@,
    {
        SearchAppointResponse {
            success: false,
            err: err.to_owned(),
            appointments: Vec::new(),
        }
    }
}

} // verus!
