//! Properties that hold of every evaluation of a journal against a gate policy.
use vstd::prelude::*;

use crate::error::VerifyError;
use crate::journal::{magnitude, ExposureCard, Journal, RegimePanel};
use crate::policy::{
    costs_at_floor, evaluation, exposure_disclosed, image_allowed, regime_disclosed, Condition, GatePolicy,
    COST_FLOOR_FEE_BPS, COST_FLOOR_SLIPPAGE_BPS, MAX_SUPPORTED_FORMAT_VERSION,
    PINNED_REGIME_POLICY_ID,
};
use crate::verdict::{Verdict, VerificationReport};

verus! {

/// Every commitment and every piece of journal-side evidence that the policy
/// demands is in order: the journal conforms to the policy.
pub open spec fn conforms(p: GatePolicy, j: Journal) -> bool {
    &&& j.gate_policy@ == p.gate_policy_id@
    &&& j.data_root@ == p.data_root@
    &&& j.dataset_canonicalization@ == p.dataset_canonicalization@
    &&& image_allowed(p, j)
    &&& j.strategy_hidden
    &&& j.format_version <= MAX_SUPPORTED_FORMAT_VERSION
    &&& p.requires_cond(Condition::IntrabarRisk) ==> j.intrabar_marked
    &&& costs_at_floor(j)
    &&& p.requires_cond(Condition::ExposureDisclosed) ==> exposure_disclosed(j)
    &&& p.requires_cond(Condition::RegimePinned) ==> regime_disclosed(j)
}

/// Evaluation rejects a journal (returns `Err`) exactly when the journal does
/// not conform to the policy; a conforming journal always gets a report.
pub proof fn lemma_rejected_iff_nonconforming(
    p: GatePolicy,
    j: Journal,
    r: Result<VerificationReport, VerifyError>,
)
    requires
        evaluation(p, j, r),
    ensures
        r is Err <==> !conforms(p, j),
{
}

/// A PASS report is returned exactly for a conforming journal whose in-circuit
/// verdict is positive; a conforming journal with a negative in-circuit verdict
/// gets a FAIL report, not an error.
pub proof fn lemma_pass_iff_conforming_and_positive(
    p: GatePolicy,
    j: Journal,
    r: Result<VerificationReport, VerifyError>,
)
    requires
        evaluation(p, j, r),
    ensures
        (r matches Ok(rep) && rep.verdict == Verdict::Pass) <==> (conforms(p, j) && j.verdict_pass),
        (r matches Ok(rep) && rep.verdict == Verdict::Fail) <==> (conforms(p, j) && !j.verdict_pass),
{
}

/// Forward incompatibility is fail-closed: a journal whose format is newer than
/// the verifier implements is never accepted.
pub proof fn lemma_future_format_rejected(
    p: GatePolicy,
    j: Journal,
    r: Result<VerificationReport, VerifyError>,
)
    requires
        evaluation(p, j, r),
        j.format_version > MAX_SUPPORTED_FORMAT_VERSION,
    ensures
        r is Err,
{
}

/// A policy that requires intrabar risk marking never accepts a close-marked
/// journal.
pub proof fn lemma_intrabar_policy_rejects_close_marked(
    p: GatePolicy,
    j: Journal,
    r: Result<VerificationReport, VerifyError>,
)
    requires
        evaluation(p, j, r),
        p.requires_cond(Condition::IntrabarRisk),
        !j.intrabar_marked,
    ensures
        r is Err,
{
}

/// Understated costs are never accepted, whatever the policy requires.
pub proof fn lemma_understated_costs_rejected(
    p: GatePolicy,
    j: Journal,
    r: Result<VerificationReport, VerifyError>,
)
    requires
        evaluation(p, j, r),
        j.fee_bps < COST_FLOOR_FEE_BPS || j.slippage_bps < COST_FLOOR_SLIPPAGE_BPS,
    ensures
        r is Err,
{
}

/// When a disclosure-tier condition is required, an accepted journal commits a
/// non-empty evaluation window.
pub proof fn lemma_disclosure_requires_window(
    p: GatePolicy,
    j: Journal,
    r: Result<VerificationReport, VerifyError>,
)
    requires
        evaluation(p, j, r),
        p.requires_cond(Condition::ExposureDisclosed) || p.requires_cond(Condition::RegimePinned),
        r is Ok,
    ensures
        j.window_bars > 0,
{
}

/// A v1 journal (no format version, close-marked, minted at the cost floor,
/// no disclosure) whose commitments and image match remains verifiable under any policy
/// that requires neither intrabar marking nor the disclosure tier.
pub proof fn lemma_v1_journal_accepted(
    p: GatePolicy,
    j: Journal,
    r: Result<VerificationReport, VerifyError>,
)
    requires
        evaluation(p, j, r),
        j.format_version == 1,
        !j.intrabar_marked,
        j.fee_bps == COST_FLOOR_FEE_BPS,
        j.slippage_bps == COST_FLOOR_SLIPPAGE_BPS,
        j.gate_policy@ == p.gate_policy_id@,
        j.data_root@ == p.data_root@,
        j.dataset_canonicalization@ == p.dataset_canonicalization@,
        image_allowed(p, j),
        j.strategy_hidden,
        !p.requires_cond(Condition::IntrabarRisk),
        !p.requires_cond(Condition::ExposureDisclosed),
        !p.requires_cond(Condition::RegimePinned),
    ensures
        r matches Ok(rep) && (rep.verdict == Verdict::Pass <==> j.verdict_pass),
{
}

/// Disclosure is opt-in: under a policy that requires neither disclosure-tier
/// condition, the disclosure fields (window, exposure card, regime panel) never
/// change the outcome, so a minimal journal is verified exactly like a
/// disclosing one.
pub proof fn lemma_disclosure_inert_under_base_policy(
    p: GatePolicy,
    j: Journal,
    minimal: Journal,
    r: Result<VerificationReport, VerifyError>,
)
    requires
        !p.requires_cond(Condition::ExposureDisclosed),
        !p.requires_cond(Condition::RegimePinned),
        minimal.image_id == j.image_id,
        minimal.gate_policy == j.gate_policy,
        minimal.data_root == j.data_root,
        minimal.dataset_canonicalization == j.dataset_canonicalization,
        minimal.verdict_pass == j.verdict_pass,
        minimal.strategy_hidden == j.strategy_hidden,
        minimal.format_version == j.format_version,
        minimal.intrabar_marked == j.intrabar_marked,
        minimal.fee_bps == j.fee_bps,
        minimal.slippage_bps == j.slippage_bps,
        minimal.digest == j.digest,
    ensures
        evaluation(p, j, r) <==> evaluation(p, minimal, r),
{
}

/// A consistent exposure card keeps every net exposure band within the
/// declared leverage rail, and its bar accounting sums to the window.
pub proof fn lemma_consistent_exposure_within_rail(card: ExposureCard, window_bars: u64)
    requires
        card.consistent_with(window_bars),
    ensures
        -(card.leverage_cap_x100 as int) <= card.net_min_x100,
        card.net_min_x100 <= card.net_avg_x100 <= card.net_max_x100,
        card.net_max_x100 <= card.leverage_cap_x100,
        magnitude(card.net_avg_x100) <= card.gross_max_x100,
        card.gross_avg_x100 <= card.gross_max_x100 <= card.leverage_cap_x100,
        card.bars_long + card.bars_short + card.bars_flat == window_bars,
{
}

/// An exposure card is consistent with a window exactly when its long, short
/// and flat bars add up to the window, its net bands are ordered
/// (min <= avg <= max), its gross average is at most its gross maximum, which is
/// at most the leverage rail, every net band lies within plus or minus the gross
/// maximum, and it names at least one instrument.
pub proof fn lemma_exposure_consistency_exact(card: ExposureCard, window_bars: u64)
    ensures
        card.consistent_with(window_bars) <==> {
            &&& card.bars_long as int + card.bars_short as int + card.bars_flat as int
                == window_bars as int
            &&& card.net_min_x100 <= card.net_avg_x100
            &&& card.net_avg_x100 <= card.net_max_x100
            &&& card.gross_avg_x100 <= card.gross_max_x100
            &&& card.gross_max_x100 <= card.leverage_cap_x100
            &&& -(card.gross_max_x100 as int) <= card.net_min_x100
            &&& card.net_max_x100 <= card.gross_max_x100
            &&& card.instruments > 0
        },
        card.consistent_with(window_bars) ==> {
            &&& -(card.gross_max_x100 as int) <= card.net_max_x100 <= card.gross_max_x100
            &&& -(card.gross_max_x100 as int) <= card.net_min_x100 <= card.gross_max_x100
        },
{
}

/// A regime panel is consistent with a window exactly when it has six buckets
/// and the bars labelled across all six add up to a positive number no larger
/// than the window; which buckets hold the bars does not matter.
pub proof fn lemma_regime_consistency_exact(panel: RegimePanel, window_bars: u64)
    ensures
        panel.consistent_with(window_bars) <==> {
            &&& panel.buckets@.len() == 6
            &&& 0 < panel.buckets@[0].bars + panel.buckets@[1].bars + panel.buckets@[2].bars
                + panel.buckets@[3].bars + panel.buckets@[4].bars + panel.buckets@[5].bars
            &&& panel.buckets@[0].bars + panel.buckets@[1].bars + panel.buckets@[2].bars
                + panel.buckets@[3].bars + panel.buckets@[4].bars + panel.buckets@[5].bars
                <= window_bars
        },
{
    let s = panel.buckets@;
    if s.len() == 6 {
        reveal_with_fuel(crate::journal::total_bars, 7);
        assert(s.drop_last().drop_last().drop_last().drop_last().drop_last().drop_last().len() == 0);
        assert(s.drop_last().drop_last().drop_last().drop_last().drop_last().last() == s[0]);
        assert(s.drop_last().drop_last().drop_last().drop_last().last() == s[1]);
        assert(s.drop_last().drop_last().drop_last().last() == s[2]);
        assert(s.drop_last().drop_last().last() == s[3]);
        assert(s.drop_last().last() == s[4]);
    }
}

/// The protocol cost floor is 7 bps of fee and 3 bps of slippage: a journal
/// whose committed costs reach both is never refused for its costs, and one
/// that falls short of either is always refused.
pub proof fn lemma_cost_floor_exact(
    p: GatePolicy,
    j: Journal,
    r: Result<VerificationReport, VerifyError>,
)
    requires
        evaluation(p, j, r),
    ensures
        j.fee_bps >= 7 && j.slippage_bps >= 3 ==> !(r matches Err(
            VerifyError::CostFloorViolated { .. },
        )),
        j.fee_bps < 7 || j.slippage_bps < 3 ==> r is Err,
{
}

/// Acceptance is monotone in the committed costs: raising the fee or the
/// slippage of an accepted journal never turns its acceptance into a refusal,
/// and leaves the report's verdict as it was.
pub proof fn lemma_costs_monotone(
    p: GatePolicy,
    j: Journal,
    r: Result<VerificationReport, VerifyError>,
    higher: Journal,
    r2: Result<VerificationReport, VerifyError>,
)
    requires
        evaluation(p, j, r),
        evaluation(p, higher, r2),
        higher == (Journal { fee_bps: higher.fee_bps, slippage_bps: higher.slippage_bps, ..j }),
        higher.fee_bps >= j.fee_bps,
        higher.slippage_bps >= j.slippage_bps,
        r is Ok,
    ensures
        r2 matches Ok(rep2) && rep2.verdict == r->Ok_0.verdict,
{
}

/// The image check is membership: a journal whose image id equals any entry of
/// the allowed list, at whatever position, is never refused as an unknown
/// image, and one whose image id equals no entry is always refused.
pub proof fn lemma_image_membership(
    p: GatePolicy,
    j: Journal,
    r: Result<VerificationReport, VerifyError>,
)
    requires
        evaluation(p, j, r),
    ensures
        (exists|i: int| 0 <= i < p.allowed_image_ids@.len() && p.allowed_image_ids@[i]@ == j.image_id@)
            ==> !(r matches Err(VerifyError::UnknownImage(_))),
        (forall|i: int| 0 <= i < p.allowed_image_ids@.len() ==> p.allowed_image_ids@[i]@ != j.image_id@)
            ==> r is Err,
{
}

/// Every report carries the policy's id and required conditions and the
/// journal's own digest, whatever the in-circuit verdict, and its verdict is
/// PASS exactly when the in-circuit verdict is positive.
pub proof fn lemma_report_contents(
    p: GatePolicy,
    j: Journal,
    r: Result<VerificationReport, VerifyError>,
)
    requires
        evaluation(p, j, r),
        r is Ok,
    ensures
        r->Ok_0.digest == j.digest,
        r->Ok_0.gate_policy_id == p.gate_policy_id,
        r->Ok_0.conditions@ == p.required_conditions@,
        r->Ok_0.verdict == Verdict::Pass <==> j.verdict_pass,
        r->Ok_0.verdict == Verdict::Fail <==> !j.verdict_pass,
{
}

/// A journal is accepted (gets a report) exactly when: its policy id, dataset
/// root and canonicalization equal the policy's; its image id is on the
/// policy's allowed list; it hides the strategy; its format is at most 4; it is
/// intrabar-marked if the policy requires intrabar risk; its fee is at least 7
/// bps and its slippage at least 3 bps; it carries a consistent exposure card
/// over a non-empty window if the policy requires exposure disclosure; and it
/// carries a consistent regime panel under the pinned regime policy if the
/// policy requires it.
pub proof fn lemma_acceptance_exact(
    p: GatePolicy,
    j: Journal,
    r: Result<VerificationReport, VerifyError>,
)
    requires
        evaluation(p, j, r),
    ensures
        r is Ok <==> {
            &&& j.gate_policy@ == p.gate_policy_id@
            &&& j.data_root@ == p.data_root@
            &&& j.dataset_canonicalization@ == p.dataset_canonicalization@
            &&& exists|i: int|
                0 <= i < p.allowed_image_ids@.len() && p.allowed_image_ids@[i]@ == j.image_id@
            &&& j.strategy_hidden
            &&& j.format_version <= 4
            &&& p.required_conditions@.contains(Condition::IntrabarRisk) ==> j.intrabar_marked
            &&& j.fee_bps >= 7
            &&& j.slippage_bps >= 3
            &&& p.required_conditions@.contains(Condition::ExposureDisclosed) ==> {
                &&& j.window_bars > 0
                &&& j.exposure_card is Some
                &&& j.exposure_card->Some_0.consistent_with(j.window_bars)
            }
            &&& p.required_conditions@.contains(Condition::RegimePinned) ==> {
                &&& j.regime_panel is Some
                &&& j.regime_panel->Some_0.policy_id@ == PINNED_REGIME_POLICY_ID@
                &&& j.regime_panel->Some_0.consistent_with(j.window_bars)
            }
        },
{
}

/// The rejections that carry values carry the right ones: a policy mismatch
/// names the policy's id and the journal's, an unsupported format names the
/// journal's version and 4, a cost-floor violation names the committed fee and
/// slippage, an unknown image names the journal's image, and an unpinned
/// regime panel names the regime policy it claims.
pub proof fn lemma_rejection_details(
    p: GatePolicy,
    j: Journal,
    r: Result<VerificationReport, VerifyError>,
)
    requires
        evaluation(p, j, r),
    ensures
        r matches Err(VerifyError::PolicyMismatch { expected, found }) ==> expected
            == p.gate_policy_id && found == j.gate_policy && j.gate_policy@ != p.gate_policy_id@,
        r matches Err(VerifyError::UnsupportedFormatVersion { found, max_supported }) ==> found
            == j.format_version && max_supported == 4 && j.format_version > 4,
        r matches Err(VerifyError::CostFloorViolated { fee_bps, slippage_bps }) ==> fee_bps
            == j.fee_bps && slippage_bps == j.slippage_bps && (j.fee_bps < 7 || j.slippage_bps
            < 3),
        r matches Err(VerifyError::UnknownImage(found)) ==> found == j.image_id,
        r matches Err(VerifyError::RegimePolicyNotPinned { found }) ==> j.regime_panel is Some
            && found == j.regime_panel->Some_0.policy_id && found@ != PINNED_REGIME_POLICY_ID@,
        !(r matches Err(VerifyError::Receipt(_))),
        !(r matches Err(VerifyError::JournalDecode(_))),
        !(r matches Err(VerifyError::Unimplemented)),
{
}

} // verus!
