use vstd::prelude::*;

use crate::policy::Condition;

verus! {

/// The pass/fail outcome of verification.
#[derive(Debug, Clone, Copy, PartialEq, Eq, Structural)]
pub enum Verdict {
    Pass,
    Fail,
}

/// The typed result returned to a caller.
#[derive(Debug, Clone)]
pub struct VerificationReport {
    pub verdict: Verdict,
    pub gate_policy_id: String,
    pub conditions: Vec<Condition>,
    pub digest: String,
}

impl VerificationReport {
    /// True exactly when the verdict is `Pass`.
    pub fn is_pass(&self) -> (r: bool)
        ensures
            r == (self.verdict == Verdict::Pass),
    {
        self.verdict == Verdict::Pass
    }
}

} // verus!
