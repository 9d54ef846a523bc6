//! Merkle membership proofs over Keccak-256 with sorted pairs.

use vstd::prelude::*;

verus! {

/// The Keccak-256 digest of the byte strings `parts`, absorbed in order.
pub uninterp spec fn keccak_hashv(parts: Seq<Seq<u8>>) -> Seq<u8>;

/// The byte strings that a list of slices stands for.
pub open spec fn slices_view(parts: Seq<&[u8]>) -> Seq<Seq<u8>> {
    parts.map_values(|part: &[u8]| part@)
}

/// The byte strings that a list of 32-byte hashes stands for.
pub open spec fn hashes_view(hashes: Seq<[u8; 32]>) -> Seq<Seq<u8>> {
    hashes.map_values(|hash: [u8; 32]| hash@)
}

/// Calls `anchor_lang::solana_program::keccak::hashv` and takes the digest's
/// bytes. Trusted: the digest is the one that `keccak_hashv` names for the
/// same byte strings in the same order.
#[verifier::external_body]
fn hashv(parts: &[&[u8]]) -> (digest: [u8; 32])
    ensures
        digest@ == keccak_hashv(slices_view(parts@)),
{
    anchor_lang::solana_program::keccak::hashv(parts).to_bytes()
}

/// `a` comes strictly before `b` when both are read as big-endian numbers of
/// the same width: they agree up to some position, where `a` holds the
/// smaller byte.
pub open spec fn bytes_lt(a: Seq<u8>, b: Seq<u8>) -> bool {
    exists|i: int|
        0 <= i < a.len() && i < b.len() && #[trigger] a[i] < b[i] && a.take(i) == b.take(i)
}

/// `a` is numerically no larger than `b`.
pub open spec fn bytes_le(a: Seq<u8>, b: Seq<u8>) -> bool {
    a == b || bytes_lt(a, b)
}

/// The leaf that stands for `identity` in a whitelist tree: the digest of its
/// raw bytes, with no tag in front.
pub open spec fn leaf_of(identity: Seq<u8>) -> Seq<u8> {
    keccak_hashv(seq![identity])
}

/// The parent of two nodes: the digest of the smaller followed by the larger.
pub open spec fn merkle_parent(a: Seq<u8>, b: Seq<u8>) -> Seq<u8> {
    if bytes_le(a, b) {
        keccak_hashv(seq![a, b])
    } else {
        keccak_hashv(seq![b, a])
    }
}

/// The node reached from `leaf` by pairing it with each sibling of `proof`
/// in turn, first sibling first.
pub open spec fn merkle_fold(proof: Seq<Seq<u8>>, leaf: Seq<u8>) -> Seq<u8>
    decreases proof.len(),
{
    if proof.len() == 0 {
        leaf
    } else {
        merkle_parent(merkle_fold(proof.drop_last(), leaf), proof.last())
    }
}

/// `proof` shows that `leaf` lies under `root`.
pub open spec fn merkle_verifies(proof: Seq<Seq<u8>>, root: Seq<u8>, leaf: Seq<u8>) -> bool {
    merkle_fold(proof, leaf) == root
}

/// Whether two 32-byte values are the same.
pub fn hash_eq(a: &[u8; 32], b: &[u8; 32]) -> (same: bool)
    ensures
        same == (a@ == b@),
{
    let mut i: usize = 0;
    while i < 32
        invariant
            i <= 32,
            a@.take(i as int) == b@.take(i as int),
        decreases 32 - i,
    {
        if a[i] != b[i] {
            assert(a@[i as int] != b@[i as int]);
            return false;
        }
        assert(a@.take(i + 1) =~= a@.take(i as int).push(a@[i as int]));
        assert(b@.take(i + 1) =~= b@.take(i as int).push(b@[i as int]));
        i += 1;
    }
    assert(a@.take(32) =~= a@);
    assert(b@.take(32) =~= b@);
    true
}

/// Whether `a` is numerically no larger than `b`.
pub fn hash_le(a: &[u8; 32], b: &[u8; 32]) -> (le: bool)
    ensures
        le == bytes_le(a@, b@),
{
    let mut i: usize = 0;
    while i < 32
        invariant
            i <= 32,
            a@.take(i as int) == b@.take(i as int),
        decreases 32 - i,
    {
        if a[i] != b[i] {
            proof {
                lemma_first_difference(a@, b@, i as int);
            }
            return a[i] < b[i];
        }
        assert(a@.take(i + 1) =~= a@.take(i as int).push(a@[i as int]));
        assert(b@.take(i + 1) =~= b@.take(i as int).push(b@[i as int]));
        i += 1;
    }
    assert(a@.take(32) =~= a@);
    assert(b@.take(32) =~= b@);
    true
}

/// Where two byte strings first differ, that byte alone orders them.
pub proof fn lemma_first_difference(a: Seq<u8>, b: Seq<u8>, i: int)
    requires
        0 <= i < a.len(),
        i < b.len(),
        a.take(i) == b.take(i),
        a[i] != b[i],
    ensures
        a != b,
        bytes_lt(a, b) == (a[i] < b[i]),
        bytes_lt(b, a) == (b[i] < a[i]),
{
    assert forall|k: int| 0 <= k < i implies a[k] == b[k] by {
        assert(a.take(i)[k] == a[k]);
        assert(b.take(i)[k] == b[k]);
    }
    if bytes_lt(a, b) {
        let k = choose|k: int|
            0 <= k < a.len() && k < b.len() && #[trigger] a[k] < b[k] && a.take(k) == b.take(k);
        if k > i {
            assert(a.take(k)[i] == a[i]);
            assert(b.take(k)[i] == b[i]);
        }
    }
    if bytes_lt(b, a) {
        let k = choose|k: int|
            0 <= k < b.len() && k < a.len() && #[trigger] b[k] < a[k] && b.take(k) == a.take(k);
        if k > i {
            assert(a.take(k)[i] == a[i]);
            assert(b.take(k)[i] == b[i]);
        }
    }
}

/// Two different byte strings of one length differ first somewhere at or
/// after `from`, if they agree before it.
proof fn lemma_difference_exists(a: Seq<u8>, b: Seq<u8>, from: int)
    requires
        a.len() == b.len(),
        a != b,
        0 <= from <= a.len(),
        a.take(from) == b.take(from),
    ensures
        exists|i: int| 0 <= i < a.len() && a.take(i) == b.take(i) && #[trigger] a[i] != b[i],
    decreases a.len() - from,
{
    if from == a.len() {
        assert(a.take(from) =~= a);
        assert(b.take(from) =~= b);
    } else if a[from] == b[from] {
        assert(a.take(from + 1) =~= a.take(from).push(a[from]));
        assert(b.take(from + 1) =~= b.take(from).push(b[from]));
        lemma_difference_exists(a, b, from + 1);
    }
}

/// Of two byte strings of one length, one is no larger than the other, and
/// only equal ones are each no larger than the other.
pub proof fn lemma_bytes_le_total(a: Seq<u8>, b: Seq<u8>)
    requires
        a.len() == b.len(),
    ensures
        bytes_le(a, b) || bytes_le(b, a),
        bytes_le(a, b) && bytes_le(b, a) ==> a == b,
{
    if a != b {
        assert(a.take(0) =~= b.take(0));
        lemma_difference_exists(a, b, 0);
        let i = choose|i: int| 0 <= i < a.len() && a.take(i) == b.take(i) && #[trigger] a[i] != b[i];
        lemma_first_difference(a, b, i);
    }
}

/// The number that `bytes` spell, most significant byte first.
pub open spec fn be_value(bytes: Seq<u8>) -> nat
    decreases bytes.len(),
{
    if bytes.len() == 0 {
        0
    } else {
        be_value(bytes.drop_last()) * 256 + bytes.last() as nat
    }
}

/// Between byte strings of one length, `bytes_lt` is the order of the
/// numbers they spell.
pub proof fn lemma_bytes_lt_is_numeric(a: Seq<u8>, b: Seq<u8>)
    requires
        a.len() == b.len(),
    ensures
        bytes_lt(a, b) == (be_value(a) < be_value(b)),
        bytes_le(a, b) == (be_value(a) <= be_value(b)),
    decreases a.len(),
{
    if a.len() > 0 {
        let n = a.len() - 1;
        let (front_a, front_b) = (a.drop_last(), b.drop_last());
        lemma_bytes_lt_is_numeric(front_a, front_b);
        lemma_bytes_le_total(front_a, front_b);
        if front_a == front_b {
            assert(a.take(n) =~= front_a);
            assert(b.take(n) =~= front_b);
            if a[n] != b[n] {
                lemma_first_difference(a, b, n);
            } else {
                assert(a =~= front_a.push(a[n]));
                assert(b =~= front_b.push(b[n]));
            }
        } else if bytes_lt(front_a, front_b) {
            lemma_front_decides(a, b);
        } else {
            lemma_front_decides(b, a);
        }
    } else {
        assert(a =~= b);
    }
}

/// Where the fronts of two byte strings are ordered, the strings are
/// ordered the same way, whatever their last bytes.
proof fn lemma_front_decides(a: Seq<u8>, b: Seq<u8>)
    requires
        a.len() == b.len(),
        a.len() > 0,
        bytes_lt(a.drop_last(), b.drop_last()),
        be_value(a.drop_last()) < be_value(b.drop_last()),
    ensures
        bytes_lt(a, b),
        !bytes_lt(b, a),
        be_value(a) < be_value(b),
{
    let (front_a, front_b) = (a.drop_last(), b.drop_last());
    let i = choose|i: int|
        0 <= i < front_a.len() && i < front_b.len() && #[trigger] front_a[i] < front_b[i]
            && front_a.take(i) == front_b.take(i);
    assert(a.take(i) =~= front_a.take(i));
    assert(b.take(i) =~= front_b.take(i));
    assert(a[i] == front_a[i] && b[i] == front_b[i]);
    lemma_first_difference(a, b, i);
}

/// The parent of two nodes does not depend on which of them is the left
/// one: a proof need only list the siblings, not their sides.
pub proof fn lemma_parent_commutes(a: Seq<u8>, b: Seq<u8>)
    requires
        a.len() == b.len(),
    ensures
        merkle_parent(a, b) == merkle_parent(b, a),
{
    lemma_bytes_le_total(a, b);
}

/// A proof verifies against the root that its own siblings lead to, and
/// against no other.
pub proof fn lemma_verifies_own_root(siblings: Seq<Seq<u8>>, root: Seq<u8>, leaf: Seq<u8>)
    ensures
        merkle_verifies(siblings, merkle_fold(siblings, leaf), leaf),
        merkle_verifies(siblings, root, leaf) ==> root == merkle_fold(siblings, leaf),
{
}

/// Exchanging two siblings of equal value changes nothing: the verdict
/// depends on the siblings' values in their order, and on nothing else.
pub proof fn lemma_equal_siblings_exchange(
    siblings: Seq<Seq<u8>>,
    i: int,
    j: int,
    root: Seq<u8>,
    leaf: Seq<u8>,
)
    requires
        0 <= i < siblings.len(),
        0 <= j < siblings.len(),
        siblings[i] == siblings[j],
    ensures
        merkle_verifies(siblings.update(i, siblings[j]).update(j, siblings[i]), root, leaf)
            == merkle_verifies(siblings, root, leaf),
{
    assert(siblings.update(i, siblings[j]).update(j, siblings[i]) =~= siblings);
}

/// The leaf of `identity`.
pub fn leaf_hash(identity: &[u8; 32]) -> (leaf: [u8; 32])
    ensures
        leaf@ == leaf_of(identity@),
{
    let parts: [&[u8]; 1] = [identity.as_slice()];
    let leaf = hashv(parts.as_slice());
    assert(slices_view(parts@) =~= seq![identity@]);
    leaf
}

/// The parent of the nodes `a` and `b`, whichever side each stands on.
pub fn hash_pair(a: &[u8; 32], b: &[u8; 32]) -> (parent: [u8; 32])
    ensures
        parent@ == merkle_parent(a@, b@),
{
    if hash_le(a, b) {
        let parts: [&[u8]; 2] = [a.as_slice(), b.as_slice()];
        let parent = hashv(parts.as_slice());
        assert(slices_view(parts@) =~= seq![a@, b@]);
        parent
    } else {
        let parts: [&[u8]; 2] = [b.as_slice(), a.as_slice()];
        let parent = hashv(parts.as_slice());
        assert(slices_view(parts@) =~= seq![b@, a@]);
        parent
    }
}

/// The node reached from `leaf` along `proof`.
pub fn fold_proof(proof: &[[u8; 32]], leaf: [u8; 32]) -> (node: [u8; 32])
    ensures
        node@ == merkle_fold(hashes_view(proof@), leaf@),
{
    let ghost siblings = hashes_view(proof@);
    let mut current: [u8; 32] = leaf;
    let mut i: usize = 0;
    while i < proof.len()
        invariant
            i <= proof.len(),
            siblings == hashes_view(proof@),
            current@ == merkle_fold(siblings.take(i as int), leaf@),
        decreases proof.len() - i,
    {
        current = hash_pair(&current, &proof[i]);
        proof {
            let next = siblings.take(i + 1);
            assert(next.drop_last() =~= siblings.take(i as int));
            assert(next.last() == proof@[i as int]@);
        }
        i += 1;
    }
    assert(siblings.take(proof.len() as int) =~= siblings);
    current
}

/// Whether `proof` shows that `leaf` lies under `root`.
pub fn verify_proof(proof: &[[u8; 32]], root: [u8; 32], leaf: [u8; 32]) -> (ok: bool)
    ensures
        ok == merkle_verifies(hashes_view(proof@), root@, leaf@),
{
    let node = fold_proof(proof, leaf);
    hash_eq(&node, &root)
}

} // verus!
