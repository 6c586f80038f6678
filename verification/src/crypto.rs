use vstd::prelude::*;
use crate::Bytes32;

verus! {

#[verifier::external_type_specification]
#[verifier::external_body]
pub struct ExEnv(soroban_sdk::Env);

/// The SHA-256 digest of a byte string. The digest is a function of the
/// input bytes alone; nothing but its length is stated about it.
pub uninterp spec fn sha256_of(data: Seq<u8>) -> Seq<u8>;

/// Relies on soroban_sdk's `Crypto::sha256`: the host's SHA-256 hash of the
/// input bytes, a 32-byte digest that depends on the input bytes alone.
#[verifier::external_body]
pub(crate) fn sha256(env: &soroban_sdk::Env, data: &[u8]) -> (r: Bytes32)
    ensures
        r@ == sha256_of(data@),
        r@.len() == 32,
{
    let bytes = soroban_sdk::Bytes::from_slice(env, data);
    env.crypto().sha256(&bytes).to_array()
}

/// The byte-wise XOR of two byte strings of equal length.
pub open spec fn xor_bytes(a: Seq<u8>, b: Seq<u8>) -> Seq<u8>
    recommends
        a.len() == b.len(),
{
    Seq::new(a.len(), |i: int| a[i] ^ b[i])
}

/// The final shuffle seed two revealed seeds determine: the byte-wise XOR of
/// their SHA-256 digests.
pub open spec fn final_seed_of(s1: Seq<u8>, s2: Seq<u8>) -> Seq<u8> {
    xor_bytes(sha256_of(s1), sha256_of(s2))
}

/// XORs two 32-byte strings byte by byte.
pub fn xor_bytes32(a: &Bytes32, b: &Bytes32) -> (r: Bytes32)
    ensures
        r@ == xor_bytes(a@, b@),
{
    let mut r: Bytes32 = [0u8; 32];
    let mut i: usize = 0;
    while i < 32
        invariant
            i <= 32,
            forall|k: int| 0 <= k < i ==> r@[k] == (a@[k] ^ b@[k]),
        decreases 32 - i,
    {
        r[i] = a[i] ^ b[i];
        i += 1;
    }
    proof {
        assert(r@ =~= xor_bytes(a@, b@));
    }
    r
}

} // verus!
