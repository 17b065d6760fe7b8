use vstd::prelude::*;

verus! {

/// An administrator account; `password` holds the digest of the password.
#[derive(Debug, Clone)]
pub struct AdminData {
    pub aid: String,
    pub password: String,
}

} // verus!
