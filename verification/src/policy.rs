use vstd::prelude::*;

use crate::error::VerifyError;
use crate::journal::Journal;
use crate::verdict::{Verdict, VerificationReport};

verus! {

/// An integrity condition a gate policy may require.
#[derive(Debug, Clone, Copy, PartialEq, Eq, Structural)]
pub enum Condition {
    /// Returns are net of declared costs/fees/slippage.
    AfterCosts,
    /// Signals at time `t` use only information available at `t`.
    NoLookahead,
    /// Performance holds on a held-out segment not used for selection.
    OutOfSample,
    /// Performance holds under rolling re-fit / re-test.
    WalkForward,
    /// Drawdown and worst-bar are marked against the adverse intrabar extreme at
    /// the position's leverage; requires `journal.intrabar_marked`.
    IntrabarRisk,
    /// The annualization basis is bound in-circuit to the committed bar and
    /// print timestamps, so it cannot be inflated to forge a passing Sharpe.
    AnnualizationBound,
    /// (disclosure tier) The journal carries a consistent exposure card.
    ExposureDisclosed,
    /// (disclosure tier) The journal carries a consistent regime panel under the
    /// pinned regime policy.
    RegimePinned,
}

/// Highest credential format version this verifier implements. A journal
/// declaring a newer format is rejected, not misread.
pub const MAX_SUPPORTED_FORMAT_VERSION: u16 = 4;

/// Protocol floor for the committed fee (bps per position change).
pub const COST_FLOOR_FEE_BPS: i64 = 7;

/// Protocol floor for the committed slippage (bps per position change).
pub const COST_FLOOR_SLIPPAGE_BPS: i64 = 3;

/// The pinned regime policy: 30-bar trailing-vol terciles x 100-bar trend state.
pub const PINNED_REGIME_POLICY_ID: &'static str = "vol30-trend100";

/// A versioned gate policy. The verifier checks a decoded [`Journal`] against it.
#[derive(Debug, Clone)]
pub struct GatePolicy {
    pub spec_version: String,
    /// Identifier/hash of the policy as evaluated in-circuit; must equal `journal.gate_policy`.
    pub gate_policy_id: String,
    /// Guest image ids whose receipts are accepted.
    pub allowed_image_ids: Vec<String>,
    /// Required dataset commitment; must equal `journal.data_root`.
    pub data_root: String,
    /// Required canonicalization commitment; must equal `journal.dataset_canonicalization`.
    pub dataset_canonicalization: String,
    /// Conditions this policy requires. The authoritative pass/fail over them is
    /// committed in `journal.verdict_pass`; the verifier additionally enforces
    /// the journal-side evidence for intrabar risk and the disclosure tier.
    pub required_conditions: Vec<Condition>,
}

impl GatePolicy {
    /// Whether this policy lists `c` among its required conditions.
    pub open spec fn requires_cond(self, c: Condition) -> bool {
        self.required_conditions@.contains(c)
    }
}

/// The journal's committed costs are at or above the protocol floor.
pub open spec fn costs_at_floor(j: Journal) -> bool {
    j.fee_bps >= COST_FLOOR_FEE_BPS && j.slippage_bps >= COST_FLOOR_SLIPPAGE_BPS
}

/// The journal carries an exposure card that is consistent with a non-empty window.
pub open spec fn exposure_disclosed(j: Journal) -> bool {
    &&& j.window_bars > 0
    &&& j.exposure_card matches Some(card)
    &&& card.consistent_with(j.window_bars)
}

/// The journal carries a regime panel, and it was computed under the pinned
/// regime policy.
pub open spec fn regime_policy_pinned(j: Journal) -> bool {
    j.regime_panel matches Some(panel) && panel.policy_id@ == PINNED_REGIME_POLICY_ID@
}

/// The journal carries a consistent regime panel under the pinned regime policy.
pub open spec fn regime_disclosed(j: Journal) -> bool {
    &&& regime_policy_pinned(j)
    &&& j.regime_panel matches Some(panel)
    &&& panel.consistent_with(j.window_bars)
}

/// The journal was produced by one of the guest images the policy allows.
pub open spec fn image_allowed(p: GatePolicy, j: Journal) -> bool {
    exists|i: int| 0 <= i < p.allowed_image_ids@.len() && #[trigger] p.allowed_image_ids@[i]@ == j.image_id@
}

/// The report that `evaluate` returns for a conforming journal.
pub open spec fn report_for(p: GatePolicy, j: Journal, rep: VerificationReport) -> bool {
    &&& rep.verdict == (if j.verdict_pass { Verdict::Pass } else { Verdict::Fail })
    &&& rep.gate_policy_id == p.gate_policy_id
    &&& rep.conditions@ == p.required_conditions@
    &&& rep.digest == j.digest
}

/// What evaluating journal `j` against policy `p` returns: the checks run in a
/// fixed order and the first that fails decides the error.
pub open spec fn evaluation(
    p: GatePolicy,
    j: Journal,
    r: Result<VerificationReport, VerifyError>,
) -> bool {
    if j.gate_policy@ != p.gate_policy_id@ {
        r matches Err(VerifyError::PolicyMismatch { expected, found })
            && expected == p.gate_policy_id && found == j.gate_policy
    } else if j.data_root@ != p.data_root@ {
        r matches Err(VerifyError::DatasetMismatch)
    } else if j.dataset_canonicalization@ != p.dataset_canonicalization@ {
        r matches Err(VerifyError::CanonicalizationMismatch)
    } else if !image_allowed(p, j) {
        r matches Err(VerifyError::UnknownImage(found)) && found == j.image_id
    } else if !j.strategy_hidden {
        r matches Err(VerifyError::StrategyRevealed)
    } else if j.format_version > MAX_SUPPORTED_FORMAT_VERSION {
        r matches Err(VerifyError::UnsupportedFormatVersion { found, max_supported })
            && found == j.format_version && max_supported == MAX_SUPPORTED_FORMAT_VERSION
    } else if p.requires_cond(Condition::IntrabarRisk) && !j.intrabar_marked {
        r matches Err(VerifyError::IntrabarRiskRequired)
    } else if !costs_at_floor(j) {
        r matches Err(VerifyError::CostFloorViolated { fee_bps, slippage_bps })
            && fee_bps == j.fee_bps && slippage_bps == j.slippage_bps
    } else if p.requires_cond(Condition::ExposureDisclosed) && j.exposure_card is None {
        r matches Err(VerifyError::ExposureCardRequired)
    } else if p.requires_cond(Condition::ExposureDisclosed) && !exposure_disclosed(j) {
        r matches Err(VerifyError::ExposureCardInconsistent)
    } else if p.requires_cond(Condition::RegimePinned) && j.regime_panel is None {
        r matches Err(VerifyError::RegimePanelRequired)
    } else if p.requires_cond(Condition::RegimePinned) && !regime_policy_pinned(j) {
        r matches Err(VerifyError::RegimePolicyNotPinned { found })
            && found == j.regime_panel->Some_0.policy_id
    } else if p.requires_cond(Condition::RegimePinned) && !regime_disclosed(j) {
        r matches Err(VerifyError::RegimePanelInconsistent)
    } else {
        r matches Ok(rep) && report_for(p, j, rep)
    }
}

/// Whether `ids` lists an image id equal to `id`.
pub fn lists_image(ids: &Vec<String>, id: &String) -> (r: bool)
    ensures
        r == exists|i: int| 0 <= i < ids@.len() && #[trigger] ids@[i]@ == id@,
{
    let n = ids.len();
    let mut i: usize = 0;
    while i < n
        invariant
            n == ids@.len(),
            0 <= i <= n,
            forall|k: int| 0 <= k < i ==> #[trigger] ids@[k]@ != id@,
        decreases n - i,
    {
        if ids[i] == *id {
            return true;
        }
        i = i + 1;
    }
    false
}

/// Whether `conds` lists condition `c`.
pub fn lists_condition(conds: &Vec<Condition>, c: Condition) -> (r: bool)
    ensures
        r == conds@.contains(c),
{
    let n = conds.len();
    let mut i: usize = 0;
    while i < n
        invariant
            n == conds@.len(),
            0 <= i <= n,
            forall|k: int| 0 <= k < i ==> conds@[k] != c,
        decreases n - i,
    {
        if conds[i] == c {
            return true;
        }
        i = i + 1;
    }
    false
}

/// A copy of a list of conditions.
fn copy_conditions(conds: &Vec<Condition>) -> (r: Vec<Condition>)
    ensures
        r@ == conds@,
{
    let n = conds.len();
    let mut out: Vec<Condition> = Vec::new();
    let mut i: usize = 0;
    while i < n
        invariant
            n == conds@.len(),
            0 <= i <= n,
            out@ == conds@.take(i as int),
        decreases n - i,
    {
        out.push(conds[i]);
        i = i + 1;
        assert(out@ =~= conds@.take(i as int));
    }
    assert(conds@.take(n as int) =~= conds@);
    out
}

impl GatePolicy {
    /// Evaluate a decoded journal against this policy.
    ///
    /// Returns `Ok` with a `Fail` verdict when the in-circuit verdict was
    /// negative, and `Err` when the journal does not conform to the policy at all
    /// (mismatched policy, dataset or canonicalization, an image the policy does not
    /// allow, a revealed strategy, an
    /// unsupported format, missing intrabar marking, understated costs, or
    /// missing or inconsistent disclosure-tier evidence).
    pub fn evaluate(&self, journal: &Journal) -> (r: Result<VerificationReport, VerifyError>)
        ensures
            evaluation(*self, *journal, r),
    {
        if !(journal.gate_policy == self.gate_policy_id) {
            return Err(
                VerifyError::PolicyMismatch {
                    expected: self.gate_policy_id.clone(),
                    found: journal.gate_policy.clone(),
                },
            );
        }
        if !(journal.data_root == self.data_root) {
            return Err(VerifyError::DatasetMismatch);
        }
        if !(journal.dataset_canonicalization == self.dataset_canonicalization) {
            return Err(VerifyError::CanonicalizationMismatch);
        }
        if !lists_image(&self.allowed_image_ids, &journal.image_id) {
            return Err(VerifyError::UnknownImage(journal.image_id.clone()));
        }
        if !journal.strategy_hidden {
            return Err(VerifyError::StrategyRevealed);
        }
        if journal.format_version > MAX_SUPPORTED_FORMAT_VERSION {
            return Err(
                VerifyError::UnsupportedFormatVersion {
                    found: journal.format_version,
                    max_supported: MAX_SUPPORTED_FORMAT_VERSION,
                },
            );
        }
        if lists_condition(&self.required_conditions, Condition::IntrabarRisk)
            && !journal.intrabar_marked {
            return Err(VerifyError::IntrabarRiskRequired);
        }
        if journal.fee_bps < COST_FLOOR_FEE_BPS || journal.slippage_bps < COST_FLOOR_SLIPPAGE_BPS {
            return Err(
                VerifyError::CostFloorViolated {
                    fee_bps: journal.fee_bps,
                    slippage_bps: journal.slippage_bps,
                },
            );
        }
        if lists_condition(&self.required_conditions, Condition::ExposureDisclosed) {
            match &journal.exposure_card {
                None => {
                    return Err(VerifyError::ExposureCardRequired);
                },
                Some(card) => {
                    if journal.window_bars == 0 || !card.is_consistent(journal.window_bars) {
                        return Err(VerifyError::ExposureCardInconsistent);
                    }
                },
            }
        }
        if lists_condition(&self.required_conditions, Condition::RegimePinned) {
            match &journal.regime_panel {
                None => {
                    return Err(VerifyError::RegimePanelRequired);
                },
                Some(panel) => {
                    let pinned = PINNED_REGIME_POLICY_ID.to_owned();
                    if !(panel.policy_id == pinned) {
                        return Err(
                            VerifyError::RegimePolicyNotPinned { found: panel.policy_id.clone() },
                        );
                    }
                    if !panel.is_consistent(journal.window_bars) {
                        return Err(VerifyError::RegimePanelInconsistent);
                    }
                },
            }
        }
        let verdict = if journal.verdict_pass {
            Verdict::Pass
        } else {
            Verdict::Fail
        };
        Ok(
            VerificationReport {
                verdict,
                gate_policy_id: self.gate_policy_id.clone(),
                conditions: copy_conditions(&self.required_conditions),
                digest: journal.digest.clone(),
            },
        )
    }
}

} // verus!
