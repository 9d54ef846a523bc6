use anchor_lang::solana_program::keccak;
use xnomad_launch::errors::XNomadError;
use xnomad_launch::instructions::verify_merkle_proof::verify_merkle_proof;
use xnomad_launch::utils::{fold_proof, hash_eq, hash_le, hash_pair, leaf_hash, verify_proof};

fn hex32(text: &str) -> [u8; 32] {
    assert_eq!(text.len(), 64);
    let digits: Vec<u8> = text
        .bytes()
        .map(|c| match c {
            b'0'..=b'9' => c - b'0',
            b'a'..=b'f' => c - b'a' + 10,
            _ => panic!("not a hex digit"),
        })
        .collect();
    let mut out = [0u8; 32];
    for i in 0..32 {
        out[i] = digits[2 * i] * 16 + digits[2 * i + 1];
    }
    out
}

fn filled(byte: u8) -> [u8; 32] {
    [byte; 32]
}

#[test]
fn leaf_hash_of_zero_identity_is_keccak256_of_32_zero_bytes() {
    let expected = hex32("290decd9548b62a8d60345a988386fc84ba6bc95484008f6362f93160ef3e563");
    assert_eq!(leaf_hash(&[0u8; 32]), expected);
}

#[test]
fn hash_pair_of_zero_nodes_is_keccak256_of_64_zero_bytes() {
    let expected = hex32("ad3228b676f7d3cd4284a5443f17f1962b36e491b30a40b2405849e597ba5fb5");
    assert_eq!(hash_pair(&[0u8; 32], &[0u8; 32]), expected);
}

#[test]
fn leaf_hash_is_the_digest_of_the_raw_identity_bytes() {
    let identity = filled(7);
    assert_eq!(leaf_hash(&identity), keccak::hash(&identity).to_bytes());
    assert_ne!(leaf_hash(&identity), identity);
}

#[test]
fn hash_pair_puts_the_smaller_node_first() {
    let small = filled(1);
    let large = filled(2);
    let mut joined = Vec::new();
    joined.extend_from_slice(&small);
    joined.extend_from_slice(&large);
    let expected = keccak::hash(&joined).to_bytes();
    assert_eq!(hash_pair(&small, &large), expected);
    assert_eq!(hash_pair(&large, &small), expected);
}

#[test]
fn hash_pair_orders_by_the_first_byte_that_differs() {
    let mut a = filled(9);
    let mut b = filled(9);
    a[0] = 1;
    a[31] = 255;
    b[0] = 2;
    b[31] = 0;
    let expected = keccak::hashv(&[&a, &b]).to_bytes();
    assert_eq!(hash_pair(&a, &b), expected);
    assert_eq!(hash_pair(&b, &a), expected);
}

#[test]
fn hash_le_compares_as_big_endian_numbers() {
    let zero = filled(0);
    let mut one = filled(0);
    one[31] = 1;
    let mut high = filled(0);
    high[0] = 1;
    assert!(hash_le(&zero, &zero));
    assert!(hash_le(&zero, &one));
    assert!(!hash_le(&one, &zero));
    assert!(hash_le(&one, &high));
    assert!(!hash_le(&high, &one));
    assert!(hash_le(&filled(255), &filled(255)));
    assert!(!hash_le(&filled(255), &high));
}

#[test]
fn hash_le_agrees_with_array_ordering() {
    let samples = [
        filled(0),
        filled(1),
        filled(128),
        filled(255),
        hex32("290decd9548b62a8d60345a988386fc84ba6bc95484008f6362f93160ef3e563"),
        hex32("ad3228b676f7d3cd4284a5443f17f1962b36e491b30a40b2405849e597ba5fb5"),
    ];
    for a in samples.iter() {
        for b in samples.iter() {
            assert_eq!(hash_le(a, b), a <= b);
            assert_eq!(hash_eq(a, b), a == b);
        }
    }
}

#[test]
fn hash_eq_sees_a_difference_in_the_last_byte() {
    let a = filled(4);
    let mut b = filled(4);
    assert!(hash_eq(&a, &b));
    b[31] = 5;
    assert!(!hash_eq(&a, &b));
    b[31] = 4;
    b[0] = 5;
    assert!(!hash_eq(&a, &b));
}

#[test]
fn empty_proof_verifies_only_the_leaf_itself() {
    let leaf = filled(3);
    assert!(verify_proof(&[], leaf, leaf));
    assert!(!verify_proof(&[], filled(4), leaf));
    assert_eq!(fold_proof(&[], leaf), leaf);
}

/// A tree over four identities; returns the root and the proof of the first.
fn four_leaf_tree(ids: &[[u8; 32]; 4]) -> ([u8; 32], Vec<[u8; 32]>) {
    let l0 = leaf_hash(&ids[0]);
    let l1 = leaf_hash(&ids[1]);
    let l2 = leaf_hash(&ids[2]);
    let l3 = leaf_hash(&ids[3]);
    let n01 = hash_pair(&l0, &l1);
    let n23 = hash_pair(&l2, &l3);
    let root = hash_pair(&n01, &n23);
    (root, vec![l1, n23])
}

#[test]
fn proof_in_the_order_generated_verifies() {
    let ids = [filled(10), filled(20), filled(30), filled(40)];
    let (root, proof) = four_leaf_tree(&ids);
    let leaf = leaf_hash(&ids[0]);
    assert!(verify_proof(&proof, root, leaf));
    assert_eq!(fold_proof(&proof, leaf), root);
}

#[test]
fn verify_proof_gives_the_same_verdict_each_time() {
    let ids = [filled(10), filled(20), filled(30), filled(40)];
    let (root, proof) = four_leaf_tree(&ids);
    let leaf = leaf_hash(&ids[0]);
    let first = verify_proof(&proof, root, leaf);
    for _ in 0..5 {
        assert_eq!(verify_proof(&proof, root, leaf), first);
    }
    let other = leaf_hash(&filled(99));
    let refused = verify_proof(&proof, root, other);
    for _ in 0..5 {
        assert_eq!(verify_proof(&proof, root, other), refused);
    }
    assert!(first);
    assert!(!refused);
}

#[test]
fn proof_with_siblings_out_of_order_is_refused() {
    let ids = [filled(10), filled(20), filled(30), filled(40)];
    let (root, proof) = four_leaf_tree(&ids);
    let leaf = leaf_hash(&ids[0]);
    let swapped = vec![proof[1], proof[0]];
    assert!(!verify_proof(&swapped, root, leaf));
}

#[test]
fn exchanging_equal_siblings_changes_nothing() {
    let leaf = leaf_hash(&filled(1));
    let sibling = filled(77);
    let proof = vec![sibling, sibling];
    let root = fold_proof(&proof, leaf);
    let exchanged = vec![proof[1], proof[0]];
    assert!(verify_proof(&proof, root, leaf));
    assert!(verify_proof(&exchanged, root, leaf));
}

#[test]
fn proof_against_another_root_or_leaf_is_refused() {
    let ids = [filled(10), filled(20), filled(30), filled(40)];
    let (root, proof) = four_leaf_tree(&ids);
    let leaf = leaf_hash(&ids[0]);
    let mut other_root = root;
    other_root[31] ^= 1;
    assert!(!verify_proof(&proof, other_root, leaf));
    assert!(!verify_proof(&proof, root, leaf_hash(&ids[2])));
    assert!(!verify_proof(&proof[..1], root, leaf));
}

#[test]
fn fold_proof_matches_a_fold_written_with_the_hasher() {
    let leaf = keccak::hash(&filled(5)).to_bytes();
    let proof = vec![filled(200), filled(3), filled(100)];
    let mut current = leaf;
    for sibling in proof.iter() {
        current = if current <= *sibling {
            keccak::hashv(&[&current, sibling]).to_bytes()
        } else {
            keccak::hashv(&[sibling, &current]).to_bytes()
        };
    }
    assert_eq!(fold_proof(&proof, leaf), current);
    assert!(verify_proof(&proof, current, leaf));
}

#[test]
fn verify_merkle_proof_accepts_a_member() {
    let ids = [filled(10), filled(20), filled(30), filled(40)];
    let (root, proof) = four_leaf_tree(&ids);
    assert_eq!(verify_merkle_proof(root, proof, ids[0]), Ok(()));
}

#[test]
fn verify_merkle_proof_refuses_a_stranger() {
    let ids = [filled(10), filled(20), filled(30), filled(40)];
    let (root, proof) = four_leaf_tree(&ids);
    assert_eq!(
        verify_merkle_proof(root, proof.clone(), filled(11)),
        Err(XNomadError::InvalidMerkleProof)
    );
    assert_eq!(
        verify_merkle_proof(root, Vec::new(), ids[0]),
        Err(XNomadError::InvalidMerkleProof)
    );
}

#[test]
fn verify_merkle_proof_hashes_the_address_with_a_fresh_hasher() {
    let address = filled(42);
    let mut hasher = keccak::Hasher::default();
    hasher.hash(address.as_ref());
    let leaf = hasher.result().to_bytes();
    assert_eq!(leaf_hash(&address), leaf);
    assert_eq!(verify_merkle_proof(leaf, Vec::new(), address), Ok(()));
}
