use crate::error::Error;
use crate::signer::Signer;
use vstd::prelude::*;
use vstd::string::StringSliceAdditionalSpecFns;

verus! {

/// What every placeholder hands out for a signature: the bytes of the text
/// `invalid signature`. No algorithm accepts them.
pub open spec fn invalid_signature() -> Seq<u8> {
    seq![
        0x69u8, 0x6e, 0x76, 0x61, 0x6c, 0x69, 0x64, 0x20,
        0x73, 0x69, 0x67, 0x6e, 0x61, 0x74, 0x75, 0x72, 0x65,
    ]
}

/// The size that a placeholder reserves.
pub const PLACEHOLDER_RESERVE_SIZE: usize = 128;

/// `invalid_signature` spells its text in UTF-8 and has 17 bytes.
pub proof fn invalid_signature_is_text()
    ensures
        invalid_signature() == "invalid signature".spec_bytes(),
        invalid_signature().len() == 17,
{
    reveal_strlit("invalid signature");
    assert(vstd::string::is_ascii("invalid signature"));
    vstd::string::is_ascii_spec_bytes("invalid signature");
    assert(invalid_signature() =~= "invalid signature".spec_bytes());
}

/// The bytes of `invalid_signature`, as a fresh buffer.
pub fn invalid_signature_bytes() -> (sig: Vec<u8>)
    ensures
        sig@ == invalid_signature(),
{
    proof {
        invalid_signature_is_text();
    }
    "invalid signature".as_bytes_vec()
}

/// A signer for tests and development, where no valid signature is needed.
/// A claim signed by it does not verify.
pub struct Placeholder {}

impl Signer for Placeholder {
    open spec fn reserve_bound(&self) -> usize {
        PLACEHOLDER_RESERVE_SIZE
    }

    open spec fn algorithm(&self) -> Option<Seq<char>> {
        None
    }

    open spec fn chain(&self) -> Seq<Seq<u8>> {
        Seq::empty()
    }

    /// Never fails, and ignores `data`.
    fn sign(&self, data: &[u8]) -> (r: Result<Vec<u8>, Error>)
        ensures
            r matches Ok(sig) && sig@ == invalid_signature(),
    {
        Ok(invalid_signature_bytes())
    }

    fn alg(&self) -> (name: Option<String>)
        ensures
            name is None,
    {
        None
    }

    fn certs(&self) -> (r: Result<Vec<Vec<u8>>, Error>)
        ensures
            r matches Ok(certs) && certs@.len() == 0,
    {
        let certs: Vec<Vec<u8>> = Vec::new();
        assert(crate::signer::chain_of(certs) =~= Seq::empty());
        Ok(certs)
    }

    fn reserve_size(&self) -> (n: usize)
        ensures
            n == 128,
    {
        PLACEHOLDER_RESERVE_SIZE
    }
}

} // verus!
