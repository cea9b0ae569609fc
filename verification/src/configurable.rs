use crate::error::Error;
use crate::signer::{text_of, Signer};
use vstd::prelude::*;

verus! {

/// What credentials make of a signer: the algorithm it names and the chain
/// it presents.
pub struct Identity {
    pub algorithm: Option<Seq<char>>,
    pub chain: Seq<Seq<u8>>,
}

/// The identity that a signer shows.
pub open spec fn identity_of<S: Signer>(signer: S) -> Identity {
    Identity { algorithm: signer.algorithm(), chain: signer.chain() }
}

/// Whether `signer` reports `tsa_url`, and nothing else, whenever it is
/// asked for its timestamp authority.
pub open spec fn reports_time_authority<S: Signer>(signer: S, tsa_url: Option<Seq<char>>) -> bool {
    forall|url: Option<String>| #[trigger]
        call_ensures(S::time_authority_url, (&signer,), url) ==> text_of(url) == tsa_url
}

/// Whether `r` is a fit outcome of building a signer from material with the
/// identity `identity` (`None` for material that is not accepted) and the
/// timestamp authority `tsa_url`.
///
/// A failure is a credential failure. Material that is not accepted yields
/// no signer. A signer that is built shows the identity of the material and
/// reports the given timestamp authority.
pub open spec fn built<S: Signer>(
    r: Result<S, Error>,
    identity: Option<Identity>,
    tsa_url: Option<Seq<char>>,
) -> bool {
    match r {
        Ok(signer) => identity == Some(identity_of(signer)) && reports_time_authority(
            signer,
            tsa_url,
        ),
        Err(e) => e == Error::CredentialConstruction,
    }
}

/// A signer that is built from credentials: a signing certificate and its
/// private key, for an algorithm that the caller names.
pub trait ConfigurableSigner: Signer + Sized {
    /// The identity that a certificate and a key give a signer of this type
    /// for `alg`, or `None` where they are no valid material for it. A type
    /// that does not say otherwise accepts no material.
    open spec fn identity(signcert: Seq<u8>, pkey: Seq<u8>, alg: Seq<char>) -> Option<Identity> {
        None
    }

    /// Builds a signer from the content of a certificate file and of a key
    /// file. `None` stands for a file that could not be read, and fails the
    /// construction; with both at hand the outcome is that of
    /// `from_signcert_and_pkey` on their bytes.
    fn from_files(
        signcert_file: Option<Vec<u8>>,
        pkey_file: Option<Vec<u8>>,
        alg: String,
        tsa_url: Option<String>,
    ) -> (r: Result<Self, Error>)
        ensures
            signcert_file is None || pkey_file is None ==> r == Err::<Self, Error>(
                Error::CredentialConstruction,
            ),
            signcert_file is Some && pkey_file is Some ==> built(
                r,
                Self::identity(signcert_file->0@, pkey_file->0@, alg@),
                text_of(tsa_url),
            ),
    {
        match (signcert_file, pkey_file) {
            (Some(signcert), Some(pkey)) => Self::from_signcert_and_pkey(
                signcert.as_slice(),
                pkey.as_slice(),
                alg,
                tsa_url,
            ),
            _ => Err(Error::CredentialConstruction),
        }
    }

    /// Builds a signer from credential bytes, without touching any file.
    fn from_signcert_and_pkey(
        signcert: &[u8],
        pkey: &[u8],
        alg: String,
        tsa_url: Option<String>,
    ) -> (r: Result<Self, Error>)
        ensures
            built(r, Self::identity(signcert@, pkey@, alg@), text_of(tsa_url)),
    ;
}

/// Built from the same certificate, key, algorithm and timestamp authority,
/// once from file contents and once from bytes, two signers name the same
/// algorithm, present the same chain and report the same timestamp
/// authority.
pub proof fn constructors_agree<S: ConfigurableSigner>(
    signcert_file: Vec<u8>,
    pkey_file: Vec<u8>,
    signcert: &[u8],
    pkey: &[u8],
    alg: String,
    tsa_url: Option<String>,
    from_files: S,
    from_bytes: S,
    files_url: Option<String>,
    bytes_url: Option<String>,
)
    requires
        signcert_file@ == signcert@,
        pkey_file@ == pkey@,
        call_ensures(
            S::from_files,
            (Some(signcert_file), Some(pkey_file), alg, tsa_url),
            Ok(from_files),
        ),
        call_ensures(S::from_signcert_and_pkey, (signcert, pkey, alg, tsa_url), Ok(from_bytes)),
        call_ensures(S::time_authority_url, (&from_files,), files_url),
        call_ensures(S::time_authority_url, (&from_bytes,), bytes_url),
    ensures
        from_files.algorithm() == from_bytes.algorithm(),
        from_files.chain() == from_bytes.chain(),
        text_of(files_url) == text_of(bytes_url),
{
}

} // verus!
