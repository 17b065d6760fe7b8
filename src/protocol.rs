use vstd::prelude::*;

verus! {

/// The reply of an operation that returns nothing but success or a reason.
#[derive(Debug, Clone, Default)]
pub struct SimpleResponse {
    pub success: bool,
    pub err: String,
}

impl SimpleResponse {
    pub fn ok() -> (r: SimpleResponse)
        ensures
            r.success,
            r.err@ == Seq::<char>::empty(),
    {
        SimpleResponse { success: true, err: String::new() }
    }

    /// A failed response carrying the message `err`.
    pub fn err(err: &str) -> (r: SimpleResponse)
        ensures
            !r.success,
            r.err@ == err@,
    {
        SimpleResponse { success: false, err: err.to_owned() }
    }
}

} // verus!
