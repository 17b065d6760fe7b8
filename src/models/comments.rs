use vstd::prelude::*;

verus! {

/// A patient's comment on a doctor, before the store stamps it.
#[derive(Debug, Clone)]
pub struct NewComment {
    pub username: String,
    pub did: String,
    pub comment: String,
}

} // verus!
