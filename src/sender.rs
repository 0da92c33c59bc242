//! The remote sender's operations, and which of them a filtering sender
//! lets through to the real endpoint (the others succeed without a call).
use vstd::prelude::*;

verus! {

/// One operation of the remote sender.
#[derive(Debug, Clone, Copy, PartialEq, Eq, Hash, Structural)]
pub enum MethodFilter {
    UploadContents,
    UploadTrees,
    UploadFilenodes,
    UploadChangesets,
    SetBookmark,
}

/// Which operations go through: an operation goes through when some entry
/// names it with `true`.
pub struct SenderFilter {
    pub allowed: Vec<(MethodFilter, bool)>,
}

impl SenderFilter {
    pub open spec fn allows_spec(&self, method: MethodFilter) -> bool {
        exists|i: int| 0 <= i < self.allowed@.len() && self.allowed@[i] == (method, true)
    }

    pub fn new(allowed: Vec<(MethodFilter, bool)>) -> (r: Self)
        ensures
            r.allowed == allowed,
    {
        SenderFilter { allowed }
    }

    /// Whether `method` reaches the real endpoint.
    pub fn allows(&self, method: MethodFilter) -> (r: bool)
        ensures
            r == self.allows_spec(method),
    {
        let mut i: usize = 0;
        while i < self.allowed.len()
            invariant
                i <= self.allowed@.len(),
                forall|k: int| 0 <= k < i ==> self.allowed@[k] != (method, true),
            decreases self.allowed.len() - i,
        {
            let (m, on) = self.allowed[i];
            if m == method && on {
                return true;
            }
            i = i + 1;
        }
        false
    }
}

} // verus!
