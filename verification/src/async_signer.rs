use crate::error::Error;
use crate::placeholder::{invalid_signature, invalid_signature_bytes, PLACEHOLDER_RESERVE_SIZE};
use vstd::prelude::*;

verus! {

/// Produces a detached signature for a caller that must not block.
///
/// This is the narrow contract of a remote signer, such as a signing service
/// or a hardware module across a network: a signature and its reserved size,
/// nothing else. Algorithm, certificates, timestamping and revocation are set
/// when such a signer is built and are not asked of it here.
///
/// The methods are plain functions: this trait says what a signature must
/// satisfy once it is there, and leaves the suspension of the calling task
/// to the adapter that puts a signer before a scheduler. The result that a
/// task resumes with is thereby held to the same contract as a blocking
/// signer's.
pub trait AsyncSigner: Sync {
    /// The largest signature, in bytes, that this signer will ever hand out.
    /// A signer that does not say otherwise reserves nothing.
    open spec fn reserve_bound(&self) -> usize {
        0
    }

    /// Signs `data`.
    ///
    /// A signature that comes back fits into the reserved size; a signer
    /// that cannot produce one of that size fails instead of truncating.
    fn sign(&self, data: &[u8]) -> (r: Result<Vec<u8>, Error>)
        ensures
            r matches Ok(sig) ==> sig@.len() <= self.reserve_bound(),
            r matches Err(e) ==> e == Error::Signing,
    ;

    /// The number of bytes to set aside for a signature before it exists.
    fn reserve_size(&self) -> (n: usize)
        ensures
            n == self.reserve_bound(),
    ;
}

/// A non-blocking signer for tests and development, where no valid signature
/// is needed. A claim signed by it does not verify.
pub struct AsyncPlaceholder {}

impl AsyncSigner for AsyncPlaceholder {
    open spec fn reserve_bound(&self) -> usize {
        PLACEHOLDER_RESERVE_SIZE
    }

    /// Never fails, and ignores `data`.
    fn sign(&self, data: &[u8]) -> (r: Result<Vec<u8>, Error>)
        ensures
            r matches Ok(sig) && sig@ == invalid_signature(),
    {
        Ok(invalid_signature_bytes())
    }

    fn reserve_size(&self) -> (n: usize)
        ensures
            n == 128,
    {
        PLACEHOLDER_RESERVE_SIZE
    }
}

/// Two calls of `reserve_size` on one non-blocking signer give the same
/// number.
pub proof fn reserve_size_is_stable<S: AsyncSigner>(signer: S, first: usize, second: usize)
    requires
        call_ensures(S::reserve_size, (&signer,), first),
        call_ensures(S::reserve_size, (&signer,), second),
    ensures
        first == second,
{
}

/// A signature that `sign` returned is no longer than any size that
/// `reserve_size` reports for the same signer.
pub proof fn signature_fits_reserve<S: AsyncSigner>(
    signer: S,
    data: &[u8],
    sig: Vec<u8>,
    reserved: usize,
)
    requires
        call_ensures(S::sign, (&signer, data), Ok(sig)),
        call_ensures(S::reserve_size, (&signer,), reserved),
    ensures
        sig@.len() <= reserved,
{
}

} // verus!
