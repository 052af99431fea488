use vstd::prelude::*;

verus! {

/// Errors a verifier may return. An `Err` is a hard rejection: the receipt is
/// invalid or the journal does not conform to the declared policy.
#[allow(inconsistent_fields)]
#[derive(Debug)]
pub enum VerifyError {
    /// The cryptographic receipt check failed.
    Receipt(String),
    /// The receipt was produced by a guest image the policy does not allow.
    UnknownImage(String),
    /// The committed journal bytes do not decode to the journal schema.
    JournalDecode(String),
    /// The journal was evaluated under a different gate policy.
    PolicyMismatch { expected: String, found: String },
    /// The dataset commitment (`data_root`) differs from the policy's.
    DatasetMismatch,
    /// The dataset canonicalization commitment differs from the policy's.
    CanonicalizationMismatch,
    /// `strategy_hidden` is false: a conforming proof must not reveal the strategy.
    StrategyRevealed,
    /// The journal's credential format is newer than this verifier implements.
    UnsupportedFormatVersion { found: u16, max_supported: u16 },
    /// The policy requires intrabar risk marking but the journal is close-marked.
    IntrabarRiskRequired,
    /// The policy requires exposure disclosure but the journal carries no card.
    ExposureCardRequired,
    /// The exposure card violates bar accounting, band ordering or the leverage rail.
    ExposureCardInconsistent,
    /// The policy requires the pinned regime panel but the journal carries none.
    RegimePanelRequired,
    /// The regime panel was computed under a regime policy other than the pinned one.
    RegimePolicyNotPinned { found: String },
    /// The regime panel violates the bucket count or the bar accounting.
    RegimePanelInconsistent,
    /// The committed fee or slippage is below the protocol cost floor.
    CostFloorViolated { fee_bps: i64, slippage_bps: i64 },
    /// The receipt backend is not available in this build.
    Unimplemented,
}

} // verus!
