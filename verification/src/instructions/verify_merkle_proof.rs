//! Asking whether an address is on a whitelist.

use crate::errors::XNomadError;
use crate::utils::{hashes_view, leaf_hash, leaf_of, merkle_verifies, verify_proof};
use vstd::prelude::*;

verus! {

/// Succeeds where `proof` shows that the leaf of `address` lies under
/// `root`, and fails with `InvalidMerkleProof` where it does not.
pub fn verify_merkle_proof(root: [u8; 32], proof: Vec<[u8; 32]>, address: [u8; 32]) -> (result:
    Result<(), XNomadError>)
    ensures
        result == if merkle_verifies(hashes_view(proof@), root@, leaf_of(address@)) {
            Ok::<(), XNomadError>(())
        } else {
            Err::<(), XNomadError>(XNomadError::InvalidMerkleProof)
        },
{
    let leaf = leaf_hash(&address);
    if verify_proof(proof.as_slice(), root, leaf) {
        Ok(())
    } else {
        Err(XNomadError::InvalidMerkleProof)
    }
}

} // verus!
