use vstd::prelude::*;

verus! {

/// A department and its description.
#[derive(Debug, Clone)]
pub struct DepartData {
    pub depart_name: String,
    pub information: String,
}

} // verus!
