use zk_strategy_verify::journal::{default_fee_bps, default_format_version, default_slippage_bps};
use zk_strategy_verify::policy::{
    COST_FLOOR_FEE_BPS, COST_FLOOR_SLIPPAGE_BPS, MAX_SUPPORTED_FORMAT_VERSION,
};
use zk_strategy_verify::{
    verify, verify_committed, Condition, ExposureCard, GatePolicy, Journal, ReceiptVerifier,
    RegimeBucket, RegimePanel, Risc0Verifier, Verdict, VerificationReport, VerifyError,
    PINNED_REGIME_POLICY_ID,
};

fn base_policy() -> GatePolicy {
    GatePolicy {
        spec_version: "0.3".into(),
        gate_policy_id: "gp".into(),
        allowed_image_ids: vec!["img".into()],
        data_root: "dr".into(),
        dataset_canonicalization: "canon".into(),
        required_conditions: vec![Condition::AfterCosts, Condition::NoLookahead],
    }
}

fn policy_with(extra: &[Condition]) -> GatePolicy {
    let mut p = base_policy();
    p.required_conditions.extend_from_slice(extra);
    p
}

fn v1_journal() -> Journal {
    Journal {
        image_id: "img".into(),
        gate_policy: "gp".into(),
        data_root: "dr".into(),
        dataset_canonicalization: "canon".into(),
        verdict_pass: true,
        strategy_hidden: true,
        format_version: default_format_version(),
        intrabar_marked: false,
        window_bars: 0,
        exposure_card: None,
        regime_panel: None,
        fee_bps: default_fee_bps(),
        slippage_bps: default_slippage_bps(),
        digest: "0xclean".into(),
    }
}

fn card() -> ExposureCard {
    ExposureCard {
        net_avg_x100: 40,
        net_min_x100: -120,
        net_max_x100: 150,
        gross_avg_x100: 90,
        gross_max_x100: 150,
        leverage_cap_x100: 200,
        instruments: 3,
        bars_long: 500,
        bars_short: 300,
        bars_flat: 200,
    }
}

fn panel(bars: [u64; 6]) -> RegimePanel {
    RegimePanel {
        policy_id: PINNED_REGIME_POLICY_ID.to_string(),
        buckets: bars
            .iter()
            .map(|&b| RegimeBucket { mean_return_bps_x100: 12, bars: b })
            .collect(),
    }
}

fn disclosing_journal() -> Journal {
    let mut j = v1_journal();
    j.format_version = 4;
    j.intrabar_marked = true;
    j.window_bars = 1000;
    j.exposure_card = Some(card());
    j.regime_panel = Some(panel([100, 100, 150, 150, 200, 200]));
    j
}

struct ReplayBackend;
impl ReceiptVerifier for ReplayBackend {
    fn verify_receipt(&self, _allowed: &[String], receipt: &[u8]) -> Result<Vec<u8>, VerifyError> {
        Ok(receipt.to_vec())
    }
}

struct RefusingBackend;
impl ReceiptVerifier for RefusingBackend {
    fn verify_receipt(&self, _allowed: &[String], _receipt: &[u8]) -> Result<Vec<u8>, VerifyError> {
        Err(VerifyError::UnknownImage("img-x".into()))
    }
}

/// A decoder that knows one journal: the bytes `b"clean"` decode to the given
/// journal, anything else is a decode error.
fn decoder(j: Journal) -> impl Fn(&[u8]) -> Result<Journal, VerifyError> {
    move |b: &[u8]| {
        if b == b"clean" {
            Ok(j.clone())
        } else {
            Err(VerifyError::JournalDecode("unknown bytes".into()))
        }
    }
}

#[test]
fn protocol_constants() {
    assert_eq!(MAX_SUPPORTED_FORMAT_VERSION, 4);
    assert_eq!(COST_FLOOR_FEE_BPS, 7);
    assert_eq!(COST_FLOOR_SLIPPAGE_BPS, 3);
    assert_eq!(PINNED_REGIME_POLICY_ID, "vol30-trend100");
    assert_eq!(default_format_version(), 1);
    assert_eq!(default_fee_bps(), 7);
    assert_eq!(default_slippage_bps(), 3);
}

#[test]
fn report_carries_policy_conditions_and_digest() {
    let p = policy_with(&[Condition::WalkForward]);
    let rep = p.evaluate(&v1_journal()).unwrap();
    assert_eq!(rep.verdict, Verdict::Pass);
    assert_eq!(rep.gate_policy_id, "gp");
    assert_eq!(
        rep.conditions,
        vec![Condition::AfterCosts, Condition::NoLookahead, Condition::WalkForward]
    );
    assert_eq!(rep.digest, "0xclean");
}

#[test]
fn failing_report_is_not_pass() {
    let rep = VerificationReport {
        verdict: Verdict::Fail,
        gate_policy_id: "gp".into(),
        conditions: vec![],
        digest: "0x2".into(),
    };
    assert!(!rep.is_pass());
}

#[test]
fn policy_mismatch_reports_both_ids() {
    let mut j = v1_journal();
    j.gate_policy = "gp-other".into();
    match base_policy().evaluate(&j) {
        Err(VerifyError::PolicyMismatch { expected, found }) => {
            assert_eq!(expected, "gp");
            assert_eq!(found, "gp-other");
        }
        other => panic!("unexpected {other:?}"),
    }
}

#[test]
fn first_failed_check_decides_the_error() {
    let mut j = v1_journal();
    j.gate_policy = "gp-other".into();
    j.strategy_hidden = false;
    j.fee_bps = 0;
    assert!(matches!(
        base_policy().evaluate(&j),
        Err(VerifyError::PolicyMismatch { .. })
    ));
    let mut j = v1_journal();
    j.strategy_hidden = false;
    j.format_version = 9;
    assert!(matches!(
        base_policy().evaluate(&j),
        Err(VerifyError::StrategyRevealed)
    ));
}

#[test]
fn unsupported_format_reports_versions() {
    let mut j = v1_journal();
    j.format_version = 5;
    match base_policy().evaluate(&j) {
        Err(VerifyError::UnsupportedFormatVersion { found, max_supported }) => {
            assert_eq!(found, 5);
            assert_eq!(max_supported, 4);
        }
        other => panic!("unexpected {other:?}"),
    }
    j.format_version = 4;
    assert!(base_policy().evaluate(&j).unwrap().is_pass());
}

#[test]
fn understated_fee_is_rejected() {
    let mut j = v1_journal();
    j.fee_bps = 6;
    match base_policy().evaluate(&j) {
        Err(VerifyError::CostFloorViolated { fee_bps, slippage_bps }) => {
            assert_eq!(fee_bps, 6);
            assert_eq!(slippage_bps, 3);
        }
        other => panic!("unexpected {other:?}"),
    }
}

#[test]
fn understated_slippage_is_rejected() {
    let mut j = v1_journal();
    j.fee_bps = 25;
    j.slippage_bps = 2;
    assert!(matches!(
        base_policy().evaluate(&j),
        Err(VerifyError::CostFloorViolated { fee_bps: 25, slippage_bps: 2 })
    ));
    j.slippage_bps = 3;
    assert!(base_policy().evaluate(&j).unwrap().is_pass());
}

#[test]
fn v1_journal_is_accepted_under_base_policy() {
    let rep = base_policy().evaluate(&v1_journal()).unwrap();
    assert!(rep.is_pass());
    let mut j = v1_journal();
    j.verdict_pass = false;
    assert_eq!(base_policy().evaluate(&j).unwrap().verdict, Verdict::Fail);
}

#[test]
fn disclosure_fields_do_not_matter_under_base_policy() {
    let mut j = disclosing_journal();
    let mut broken = card();
    broken.bars_flat = 0;
    j.exposure_card = Some(broken);
    j.regime_panel = Some(RegimePanel { policy_id: "vol10-shopped".into(), buckets: vec![] });
    assert!(base_policy().evaluate(&j).unwrap().is_pass());
}

#[test]
fn exposure_card_required() {
    let p = policy_with(&[Condition::ExposureDisclosed]);
    let mut j = disclosing_journal();
    j.exposure_card = None;
    assert!(matches!(p.evaluate(&j), Err(VerifyError::ExposureCardRequired)));
}

#[test]
fn exposure_card_consistent_passes() {
    let p = policy_with(&[Condition::ExposureDisclosed]);
    assert!(p.evaluate(&disclosing_journal()).unwrap().is_pass());
}

#[test]
fn exposure_card_inconsistent_is_rejected() {
    let p = policy_with(&[Condition::ExposureDisclosed]);
    let mut j = disclosing_journal();
    let mut c = card();
    c.gross_max_x100 = 250;
    j.exposure_card = Some(c);
    assert!(matches!(p.evaluate(&j), Err(VerifyError::ExposureCardInconsistent)));
}

#[test]
fn exposure_card_needs_a_window() {
    let p = policy_with(&[Condition::ExposureDisclosed]);
    let mut j = disclosing_journal();
    j.window_bars = 0;
    let mut c = card();
    c.bars_long = 0;
    c.bars_short = 0;
    c.bars_flat = 0;
    assert!(c.is_consistent(0));
    j.exposure_card = Some(c);
    assert!(matches!(p.evaluate(&j), Err(VerifyError::ExposureCardInconsistent)));
}

#[test]
fn exposure_card_consistency_rules() {
    assert!(card().is_consistent(1000));
    assert!(!card().is_consistent(999));
    let mut c = card();
    c.net_avg_x100 = -121;
    assert!(!c.is_consistent(1000));
    let mut c = card();
    c.net_avg_x100 = 151;
    assert!(!c.is_consistent(1000));
    let mut c = card();
    c.gross_avg_x100 = 151;
    assert!(!c.is_consistent(1000));
    let mut c = card();
    c.net_min_x100 = -151;
    assert!(!c.is_consistent(1000));
    let mut c = card();
    c.net_max_x100 = 160;
    c.net_avg_x100 = 155;
    assert!(!c.is_consistent(1000));
    let mut c = card();
    c.instruments = 0;
    assert!(!c.is_consistent(1000));
    let mut c = card();
    c.net_min_x100 = i32::MIN;
    assert!(!c.is_consistent(1000));
}

#[test]
fn exposure_card_bar_accounting_does_not_wrap() {
    let mut c = card();
    c.bars_long = u64::MAX;
    c.bars_short = 2;
    c.bars_flat = 0;
    assert!(!c.is_consistent(1));
}

#[test]
fn regime_panel_required() {
    let p = policy_with(&[Condition::RegimePinned]);
    let mut j = disclosing_journal();
    j.regime_panel = None;
    assert!(matches!(p.evaluate(&j), Err(VerifyError::RegimePanelRequired)));
}

#[test]
fn regime_panel_must_be_pinned() {
    let p = policy_with(&[Condition::RegimePinned]);
    let mut j = disclosing_journal();
    let mut pan = panel([100, 100, 150, 150, 200, 200]);
    pan.policy_id = "vol20-trend50".into();
    j.regime_panel = Some(pan);
    match p.evaluate(&j) {
        Err(VerifyError::RegimePolicyNotPinned { found }) => assert_eq!(found, "vol20-trend50"),
        other => panic!("unexpected {other:?}"),
    }
}

#[test]
fn regime_panel_consistent_passes() {
    let p = policy_with(&[Condition::RegimePinned, Condition::ExposureDisclosed]);
    assert!(p.evaluate(&disclosing_journal()).unwrap().is_pass());
}

#[test]
fn regime_panel_inconsistent_is_rejected() {
    let p = policy_with(&[Condition::RegimePinned]);
    let mut j = disclosing_journal();
    j.regime_panel = Some(panel([0, 0, 0, 0, 0, 0]));
    assert!(matches!(p.evaluate(&j), Err(VerifyError::RegimePanelInconsistent)));
}

#[test]
fn regime_panel_consistency_rules() {
    assert!(panel([1, 0, 0, 0, 0, 0]).is_consistent(1));
    assert!(!panel([0, 0, 0, 0, 0, 0]).is_consistent(10));
    assert!(panel([100, 100, 150, 150, 200, 200]).is_consistent(900));
    assert!(!panel([100, 100, 150, 150, 200, 200]).is_consistent(899));
    let mut five = panel([1, 1, 1, 1, 1, 1]);
    five.buckets.pop();
    assert!(!five.is_consistent(10));
    let mut seven = panel([1, 1, 1, 1, 1, 1]);
    seven.buckets.push(RegimeBucket { mean_return_bps_x100: -4, bars: 1 });
    assert!(!seven.is_consistent(10));
}

#[test]
fn regime_panel_total_does_not_wrap() {
    let pan = panel([u64::MAX, 2, 0, 0, 0, 0]);
    assert!(!pan.is_consistent(u64::MAX));
    assert!(!pan.is_consistent(1));
}

#[test]
fn verify_decodes_and_evaluates() {
    let rep = verify(&ReplayBackend, &base_policy(), b"clean", decoder(v1_journal())).unwrap();
    assert!(rep.is_pass());
    assert_eq!(rep.digest, "0xclean");
    let mut bad = v1_journal();
    bad.strategy_hidden = false;
    assert!(matches!(
        verify(&ReplayBackend, &base_policy(), b"clean", decoder(bad)),
        Err(VerifyError::StrategyRevealed)
    ));
}

#[test]
fn verify_passes_on_decode_errors() {
    assert!(matches!(
        verify(&ReplayBackend, &base_policy(), b"garbled", decoder(v1_journal())),
        Err(VerifyError::JournalDecode(_))
    ));
}

#[test]
fn verify_passes_on_receipt_errors() {
    assert!(matches!(
        verify(&RefusingBackend, &base_policy(), b"clean", decoder(v1_journal())),
        Err(VerifyError::UnknownImage(_))
    ));
}

#[test]
fn risc0_backend_is_unimplemented() {
    assert!(matches!(
        Risc0Verifier.verify_receipt(&["img".to_string()], b"clean"),
        Err(VerifyError::Unimplemented)
    ));
    assert!(matches!(
        verify(&Risc0Verifier, &base_policy(), b"clean", decoder(v1_journal())),
        Err(VerifyError::Unimplemented)
    ));
}

#[test]
fn verify_committed_cases() {
    let p = base_policy();
    assert!(verify_committed(&p, Ok(b"clean".to_vec()), decoder(v1_journal()))
        .unwrap()
        .is_pass());
    assert!(matches!(
        verify_committed(&p, Err(VerifyError::Receipt("bad seal".into())), decoder(v1_journal())),
        Err(VerifyError::Receipt(_))
    ));
    assert!(matches!(
        verify_committed(&p, Ok(b"other".to_vec()), decoder(v1_journal())),
        Err(VerifyError::JournalDecode(_))
    ));
}

#[test]
fn unknown_image_is_rejected() {
    let mut j = v1_journal();
    j.image_id = "img-rogue".into();
    match base_policy().evaluate(&j) {
        Err(VerifyError::UnknownImage(found)) => assert_eq!(found, "img-rogue"),
        other => panic!("unexpected {other:?}"),
    }
    let mut p = base_policy();
    p.allowed_image_ids.push("img-rogue".into());
    assert!(p.evaluate(&j).unwrap().is_pass());
    p.allowed_image_ids.clear();
    assert!(matches!(
        p.evaluate(&v1_journal()),
        Err(VerifyError::UnknownImage(_))
    ));
}

#[test]
fn image_check_follows_commitment_checks() {
    let mut j = v1_journal();
    j.image_id = "img-rogue".into();
    j.dataset_canonicalization = "other".into();
    assert!(matches!(
        base_policy().evaluate(&j),
        Err(VerifyError::CanonicalizationMismatch)
    ));
    let mut j = v1_journal();
    j.image_id = "img-rogue".into();
    j.strategy_hidden = false;
    assert!(matches!(
        base_policy().evaluate(&j),
        Err(VerifyError::UnknownImage(_))
    ));
}
