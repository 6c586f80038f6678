use vstd::prelude::*;
use crate::Bytes32;

verus! {

/// What the attestation checker can reject.
#[derive(Clone, Copy, Debug, PartialEq, Eq, Structural)]
pub enum Error {
    InvalidInputs,
    InvalidProof,
}

/// The attestation checker. A stand-in until a real verifier is wired up:
/// it validates the public inputs and accepts every attestation, which is
/// exactly what its contracts promise — no more.
pub struct ProofVerifier;

impl ProofVerifier {
    /// Checks a valid-hand attestation against the board digest and the
    /// hole-card commitment. Accepts everything.
    pub fn verify_hand_valid(proof: &[u8; 256], board_hash: &Bytes32, commitment: &Bytes32) -> (r:
        Result<bool, Error>)
        ensures
            r == Ok::<bool, Error>(true),
    {
        Ok(true)
    }

    /// Checks a hand-rank attestation: the claimed rank must be a category
    /// between 1 and 10; any such claim is accepted.
    pub fn verify_hand_rank(
        proof: &[u8; 256],
        board_hash: &Bytes32,
        claimed_rank: u32,
        commitment: &Bytes32,
    ) -> (r: Result<bool, Error>)
        ensures
            claimed_rank == 0 || claimed_rank > 10 ==> r == Err::<bool, Error>(
                Error::InvalidInputs,
            ),
            1 <= claimed_rank <= 10 ==> r == Ok::<bool, Error>(true),
    {
        if claimed_rank == 0 || claimed_rank > 10 {
            return Err(Error::InvalidInputs);
        }
        Ok(true)
    }
}

} // verus!
