//! Reference verifier for zero-knowledge integrity proofs of systematic strategies.
//!
//! A verifier checks a proof; it never generates one and learns nothing about the
//! strategy. The JSON encoding of the public types lives with the command-line
//! front end, which hands the journal decoder to [`verify`].
use vstd::prelude::*;

pub mod error;
pub mod laws;
pub mod journal;
pub mod policy;
pub mod receipt;
pub mod verdict;

pub use error::VerifyError;
pub use journal::{ExposureCard, Journal, RegimeBucket, RegimePanel};
pub use policy::{Condition, GatePolicy, PINNED_REGIME_POLICY_ID};
pub use receipt::{ReceiptVerifier, Risc0Verifier};
pub use verdict::{Verdict, VerificationReport};

use crate::policy::evaluation;

verus! {

/// What becomes of the committed journal bytes that a receipt check returned:
/// a receipt error is passed on unchanged; otherwise the bytes are decoded with
/// `decode`, a decode error is passed on unchanged, and a decoded journal is
/// evaluated against `policy`.
pub open spec fn committed_outcome<D: Fn(&[u8]) -> Result<Journal, VerifyError>>(
    policy: GatePolicy,
    committed: Result<Vec<u8>, VerifyError>,
    decode: D,
    r: Result<VerificationReport, VerifyError>,
) -> bool {
    match committed {
        Err(e) => r == Err::<VerificationReport, VerifyError>(e),
        Ok(bytes) => exists|b: &[u8], d: Result<Journal, VerifyError>|
            {
                &&& b@ == bytes@
                &&& call_ensures(decode, (b,), d)
                &&& match d {
                    Err(e) => r == Err::<VerificationReport, VerifyError>(e),
                    Ok(j) => evaluation(policy, j, r),
                }
            },
    }
}

/// Carry the committed journal bytes that a receipt check returned through
/// decoding and evaluation (see [`committed_outcome`]).
pub fn verify_committed<D: Fn(&[u8]) -> Result<Journal, VerifyError>>(
    policy: &GatePolicy,
    committed: Result<Vec<u8>, VerifyError>,
    decode: D,
) -> (r: Result<VerificationReport, VerifyError>)
    requires
        forall|b: &[u8]| call_requires(decode, (b,)),
    ensures
        committed_outcome(*policy, committed, decode, r),
{
    match committed {
        Err(e) => Err(e),
        Ok(bytes) => {
            let b = bytes.as_slice();
            let d = decode(b);
            match d {
                Err(e) => Err(e),
                Ok(journal) => policy.evaluate(&journal),
            }
        },
    }
}

/// Verify a receipt against a declared gate policy.
///
/// 1. cryptographically verify the receipt against `policy.allowed_image_ids`
///    with `backend`, recovering the committed journal bytes;
/// 2. decode the journal with `decode`;
/// 3. check the journal's commitments against the declared policy and report
///    the in-circuit verdict.
///
/// The receipt check is the backend's own. The backend is handed the policy's
/// allowed image ids and the receipt bytes, and its answer is carried through
/// decoding and evaluation as [`committed_outcome`] says: a receipt the backend
/// refuses is refused with the backend's error, and a report is returned only
/// for journal bytes the backend committed to.
pub fn verify<V: ReceiptVerifier, D: Fn(&[u8]) -> Result<Journal, VerifyError>>(
    backend: &V,
    policy: &GatePolicy,
    receipt_bytes: &[u8],
    decode: D,
) -> (r: Result<VerificationReport, VerifyError>)
    requires
        forall|b: &[u8]| call_requires(decode, (b,)),
    ensures
        exists|ids: &[String], committed: Result<Vec<u8>, VerifyError>|
            {
                &&& ids@ == policy.allowed_image_ids@
                &&& call_ensures(V::verify_receipt, (backend, ids, receipt_bytes), committed)
                &&& committed_outcome(*policy, committed, decode, r)
            },
        r matches Ok(rep) ==> exists|b: &[u8], j: Journal|
            call_ensures(decode, (b,), Ok::<Journal, VerifyError>(j)) && evaluation(
                *policy,
                j,
                Ok::<VerificationReport, VerifyError>(rep),
            ),
{
    let ids = policy.allowed_image_ids.as_slice();
    let committed = backend.verify_receipt(ids, receipt_bytes);
    verify_committed(policy, committed, decode)
}

/// Carrying the backend's answer through never invents an outcome: a receipt
/// error comes back unchanged, and a report exists only for a journal that
/// `decode` produced from exactly the committed bytes and that evaluates to it.
pub proof fn lemma_committed_outcome_faithful<D: Fn(&[u8]) -> Result<Journal, VerifyError>>(
    policy: GatePolicy,
    committed: Result<Vec<u8>, VerifyError>,
    decode: D,
    r: Result<VerificationReport, VerifyError>,
)
    requires
        committed_outcome(policy, committed, decode, r),
    ensures
        committed matches Err(e) ==> r matches Err(e2) && e2 == e,
        r matches Ok(rep) ==> committed matches Ok(bytes) && exists|b: &[u8], j: Journal|
            b@ == bytes@ && call_ensures(decode, (b,), Ok::<Journal, VerifyError>(j))
                && evaluation(policy, j, Ok::<VerificationReport, VerifyError>(rep)),
{
}

} // verus!
