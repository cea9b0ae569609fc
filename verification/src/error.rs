use vstd::prelude::*;

verus! {

/// Why an operation of a signer failed.
///
/// Every fallible operation reports exactly one of these kinds; which one is
/// fixed by the operation, so a caller can tell a failed signature from
/// unusable credentials without inspecting any message.
#[derive(Debug, Clone, Copy, PartialEq, Eq, Structural)]
pub enum Error {
    /// The key is unusable, the backend rejected the payload, or the
    /// signature it produced is larger than the reserved size.
    Signing,
    /// The certificate chain is missing, malformed or unreadable.
    CertificateLoad,
    /// A credential source is unreadable, or the certificate and key are not
    /// valid material for the declared algorithm.
    CredentialConstruction,
}

} // verus!
