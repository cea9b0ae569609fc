use crate::error::Error;
use vstd::prelude::*;

verus! {

/// The text of an optional string, as contracts speak of it.
pub open spec fn text_of(s: Option<String>) -> Option<Seq<char>> {
    match s {
        Some(t) => Some(t@),
        None => None,
    }
}

/// The certificates of a chain, each as its DER bytes, in order.
pub open spec fn chain_of(certs: Vec<Vec<u8>>) -> Seq<Seq<u8>> {
    certs@.map_values(|c: Vec<u8>| c@)
}

/// Produces a detached signature over a byte payload.
///
/// A signer is built once and used many times. Nothing in this contract
/// changes what a signer shows of itself: its reserved size, its algorithm
/// and its certificate chain are values of the instance.
pub trait Signer {
    /// The largest signature, in bytes, that this signer will ever hand out.
    /// A signer that does not say otherwise reserves nothing.
    open spec fn reserve_bound(&self) -> usize {
        0
    }

    /// The name of the signature algorithm, where the signer asserts one.
    /// A signer that does not say otherwise asserts none.
    open spec fn algorithm(&self) -> Option<Seq<char>> {
        None
    }

    /// The certificate chain: intermediates first, the signing certificate
    /// last. A signer that does not say otherwise has an empty chain.
    open spec fn chain(&self) -> Seq<Seq<u8>> {
        Seq::empty()
    }

    /// Signs `data`.
    ///
    /// A signature that comes back fits into the reserved size; a signer
    /// that cannot produce one of that size fails instead of truncating.
    fn sign(&self, data: &[u8]) -> (r: Result<Vec<u8>, Error>)
        ensures
            r matches Ok(sig) ==> sig@.len() <= self.reserve_bound(),
            r matches Err(e) ==> e == Error::Signing,
    ;

    /// The name of the signature algorithm, or `None` for a signer that
    /// asserts none.
    fn alg(&self) -> (name: Option<String>)
        ensures
            text_of(name) == self.algorithm(),
    ;

    /// The certificate chain as DER buffers, the signing certificate last.
    fn certs(&self) -> (r: Result<Vec<Vec<u8>>, Error>)
        ensures
            r matches Ok(certs) ==> chain_of(certs) == self.chain(),
            r matches Err(e) ==> e == Error::CertificateLoad,
    ;

    /// The number of bytes to set aside for a signature before it exists.
    fn reserve_size(&self) -> (n: usize)
        ensures
            n == self.reserve_bound(),
    ;

    /// The timestamp authority that countersigns the signing time. A signer
    /// that does not override this has none.
    fn time_authority_url(&self) -> (url: Option<String>)
        default_ensures
            url is None,
    {
        None
    }

    /// A revocation proof for the signing certificate, fetched ahead of
    /// time. `None` means that no proof is at hand, not that the certificate
    /// is revoked. A signer that does not override this has none.
    fn ocsp_val(&self) -> (ocsp: Option<Vec<u8>>)
        default_ensures
            ocsp is None,
    {
        None
    }
}

/// Two calls of `reserve_size` on one signer give the same number.
pub proof fn reserve_size_is_stable<S: Signer>(signer: S, first: usize, second: usize)
    requires
        call_ensures(S::reserve_size, (&signer,), first),
        call_ensures(S::reserve_size, (&signer,), second),
    ensures
        first == second,
{
}

/// A signature that `sign` returned is no longer than any size that
/// `reserve_size` reports for the same signer.
pub proof fn signature_fits_reserve<S: Signer>(
    signer: S,
    data: &[u8],
    sig: Vec<u8>,
    reserved: usize,
)
    requires
        call_ensures(S::sign, (&signer, data), Ok(sig)),
        call_ensures(S::reserve_size, (&signer,), reserved),
    ensures
        sig@.len() <= reserved,
{
}

} // verus!
