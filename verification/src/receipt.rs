use vstd::prelude::*;

use crate::error::VerifyError;

verus! {

/// Abstraction over the cryptographic receipt verifier.
///
/// The library is generic over this trait so that the policy and journal logic
/// can be exercised deterministically without a zkVM. Implementations decide on
/// their own whether a receipt is valid; nothing is assumed of their answer.
pub trait ReceiptVerifier {
    /// Cryptographically verify `receipt_bytes` against one of
    /// `allowed_image_ids`, returning the committed journal bytes on success.
    fn verify_receipt(&self, allowed_image_ids: &[String], receipt_bytes: &[u8]) -> Result<
        Vec<u8>,
        VerifyError,
    >;
}

/// RISC Zero backend. Its receipt check is not yet available, so every receipt
/// is refused with [`VerifyError::Unimplemented`].
pub struct Risc0Verifier;

impl ReceiptVerifier for Risc0Verifier {
    fn verify_receipt(&self, _allowed_image_ids: &[String], _receipt_bytes: &[u8]) -> (r: Result<
        Vec<u8>,
        VerifyError,
    >)
        ensures
            r matches Err(VerifyError::Unimplemented),
    {
        Err(VerifyError::Unimplemented)
    }
}

} // verus!
