use vstd::prelude::*;

verus! {

/// The Soroban host environment, carried through to the hash function it provides.
#[verifier::external_type_specification]
#[verifier::external_body]
pub struct ExEnv(soroban_sdk::Env);

/// The SHA-256 digest of `data`.
pub uninterp spec fn sha256_of(data: Seq<u8>) -> Seq<u8>;

/// Calls `Crypto::sha256` of `soroban_sdk` on the bytes of `data` and returns the
/// digest as an array.  The claim is that the result is the SHA-256 digest of `data`,
/// which depends on `data` alone.  Left unsaid: the host meters the call against its
/// budget and stops the contract when the budget is spent.
#[verifier::external_body]
pub(crate) fn sha256_digest(env: &soroban_sdk::Env, data: &[u8]) -> (digest: [u8; 32])
    ensures
        digest@ == sha256_of(data@),
{
    env.crypto().sha256(&soroban_sdk::Bytes::from_slice(env, data)).to_array()
}

} // verus!
