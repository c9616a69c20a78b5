use vstd::prelude::*;

verus! {

/// Byte put before a leaf's data when it is hashed.
pub const LEAF_PREFIX: u8 = 0x00;

/// Byte put before two child hashes when their parent is hashed.
pub const NODE_PREFIX: u8 = 0x01;

/// The Keccak-256 digest of `data`.
pub uninterp spec fn keccak_of(data: Seq<u8>) -> Seq<u8>;

/// Relies on solana_program::keccak::hash, which computes the Keccak-256 digest
/// of its argument (a function of the bytes alone).
#[verifier::external_body]
#[allow(deprecated)]
fn keccak256(data: &[u8]) -> (r: [u8; 32])
    ensures
        r@ == keccak_of(data@),
{
    solana_program::keccak::hash(data).to_bytes()
}

/// The bytes hashed for a leaf: the leaf prefix, then the data.
pub open spec fn leaf_input(data: Seq<u8>) -> Seq<u8> {
    seq![LEAF_PREFIX] + data
}

/// The bytes hashed for an inner node: the node prefix, then both children.
pub open spec fn node_input(left: Seq<u8>, right: Seq<u8>) -> Seq<u8> {
    seq![NODE_PREFIX] + left + right
}

pub open spec fn leaf_hash(data: Seq<u8>) -> Seq<u8> {
    keccak_of(leaf_input(data))
}

pub open spec fn node_hash(left: Seq<u8>, right: Seq<u8>) -> Seq<u8> {
    keccak_of(node_input(left, right))
}

/// One level up the tree: an even index means the current hash is the left child.
pub open spec fn path_step(current: Seq<u8>, sibling: Seq<u8>, index: nat) -> Seq<u8> {
    if index % 2 == 0 {
        node_hash(current, sibling)
    } else {
        node_hash(sibling, current)
    }
}

/// The root reached from `current` at position `index` by walking up the
/// siblings of `proof`, nearest first.
pub open spec fn proof_root(proof: Seq<[u8; 32]>, current: Seq<u8>, index: nat) -> Seq<u8>
    decreases proof.len(),
{
    if proof.len() == 0 {
        current
    } else {
        proof_root(proof.drop_first(), path_step(current, proof[0]@, index), index / 2)
    }
}

/// Hash of a leaf: keccak256(0x00 || data).
pub fn hash_leaf(data: &[u8]) -> (r: [u8; 32])
    ensures
        r@ == leaf_hash(data@),
{
    let mut input: Vec<u8> = Vec::new();
    input.push(LEAF_PREFIX);
    input.extend_from_slice(data);
    proof {
        assert(input@ =~= leaf_input(data@));
    }
    keccak256(input.as_slice())
}

/// Hash of an inner node: keccak256(0x01 || left || right).
pub fn hash_nodes(left: &[u8; 32], right: &[u8; 32]) -> (r: [u8; 32])
    ensures
        r@ == node_hash(left@, right@),
{
    let mut input: Vec<u8> = Vec::new();
    input.push(NODE_PREFIX);
    input.extend_from_slice(left);
    input.extend_from_slice(right);
    proof {
        assert(input@ =~= node_input(left@, right@));
    }
    keccak256(input.as_slice())
}

/// Whether two 32-byte values (hashes or identities) are the same.
pub fn same_bytes(a: &[u8; 32], b: &[u8; 32]) -> (r: bool)
    ensures
        r == (a@ == b@),
{
    let mut i: usize = 0;
    while i < 32
        invariant
            i <= 32,
            a@.len() == 32,
            b@.len() == 32,
            forall|j: int| 0 <= j < i ==> a@[j] == b@[j],
        decreases 32 - i,
    {
        if a[i] != b[i] {
            return false;
        }
        i = i + 1;
    }
    proof {
        assert(a@ =~= b@);
    }
    true
}

/// Checks that `proof` leads from `leaf`, at position `index`, up to `root`.
pub fn verify_proof(proof: &[[u8; 32]], root: &[u8; 32], leaf: &[u8; 32], index: u32) -> (r: bool)
    ensures
        r == (proof_root(proof@, leaf@, index as nat) == root@),
{
    let mut computed: [u8; 32] = *leaf;
    let mut idx: u32 = index;
    let mut i: usize = 0;
    proof {
        assert(proof@.skip(0) =~= proof@);
    }
    while i < proof.len()
        invariant
            i <= proof@.len(),
            proof_root(proof@.skip(i as int), computed@, idx as nat) == proof_root(
                proof@,
                leaf@,
                index as nat,
            ),
        decreases proof@.len() - i,
    {
        let sibling: &[u8; 32] = &proof[i];
        proof {
            assert(proof@.skip(i as int).drop_first() =~= proof@.skip(i + 1));
        }
        if idx % 2 == 0 {
            computed = hash_nodes(&computed, sibling);
        } else {
            computed = hash_nodes(sibling, &computed);
        }
        idx = idx / 2;
        i = i + 1;
    }
    proof {
        assert(proof@.skip(i as int) =~= Seq::<[u8; 32]>::empty());
    }
    same_bytes(&computed, root)
}

/// Domain separation: the bytes hashed for a leaf never equal the data itself,
/// nor the bytes hashed for any inner node; and swapping two different children
/// changes the bytes hashed for their parent. So two hashes that agree here are
/// hashes of different inputs.
pub proof fn lemma_domain_separation(data: Seq<u8>, left: Seq<u8>, right: Seq<u8>)
    requires
        left.len() == 32,
        right.len() == 32,
    ensures
        leaf_input(data) != data,
        leaf_input(data) != node_input(left, right),
        left != right ==> node_input(left, right) != node_input(right, left),
{
    assert(leaf_input(data).len() != data.len());
    assert(leaf_input(data)[0] != node_input(left, right)[0]);
    if left != right && node_input(left, right) == node_input(right, left) {
        assert(left =~= node_input(left, right).subrange(1, 33));
        assert(right =~= node_input(right, left).subrange(1, 33));
    }
}

/// A tree of one leaf: the empty proof at index 0 leads from the leaf to itself.
pub proof fn lemma_single_leaf(leaf: [u8; 32])
    ensures
        proof_root(Seq::<[u8; 32]>::empty(), leaf@, 0) == leaf@,
{
}

/// A tree of two leaves, with its root the hash of both: each leaf reaches the
/// root with the other leaf as its only sibling.
pub proof fn lemma_two_leaves(leaf0: [u8; 32], leaf1: [u8; 32])
    ensures
        proof_root(seq![leaf1], leaf0@, 0) == node_hash(leaf0@, leaf1@),
        proof_root(seq![leaf0], leaf1@, 1) == node_hash(leaf0@, leaf1@),
{
    lemma_one_step(leaf1, leaf0@, 0);
    lemma_one_step(leaf0, leaf1@, 1);
}

/// A one-sibling proof takes a single step up.
proof fn lemma_one_step(sibling: [u8; 32], current: Seq<u8>, index: nat)
    ensures
        proof_root(seq![sibling], current, index) == path_step(current, sibling@, index),
{
    let p = seq![sibling];
    assert(p.len() == 1 && p[0] == sibling);
    assert(p.drop_first() =~= Seq::<[u8; 32]>::empty());
    assert(proof_root(p.drop_first(), path_step(current, sibling@, index), index / 2) == path_step(
        current,
        sibling@,
        index,
    ));
}

/// A two-sibling proof takes two steps up.
proof fn lemma_two_steps(first: [u8; 32], second: [u8; 32], current: Seq<u8>, index: nat)
    ensures
        proof_root(seq![first, second], current, index) == path_step(
            path_step(current, first@, index),
            second@,
            index / 2,
        ),
{
    let p = seq![first, second];
    assert(p.len() == 2 && p[0] == first);
    assert(p.drop_first() =~= seq![second]);
    lemma_one_step(second, path_step(current, first@, index), index / 2);
}

/// A balanced tree of four leaves built bottom up: every leaf reaches the root
/// with a proof of two siblings, its neighbour and then the other half's node.
pub proof fn lemma_four_leaves(
    leaf0: [u8; 32],
    leaf1: [u8; 32],
    leaf2: [u8; 32],
    leaf3: [u8; 32],
    node01: [u8; 32],
    node23: [u8; 32],
)
    requires
        node01@ == node_hash(leaf0@, leaf1@),
        node23@ == node_hash(leaf2@, leaf3@),
    ensures
        proof_root(seq![leaf1, node23], leaf0@, 0) == node_hash(node01@, node23@),
        proof_root(seq![leaf0, node23], leaf1@, 1) == node_hash(node01@, node23@),
        proof_root(seq![leaf3, node01], leaf2@, 2) == node_hash(node01@, node23@),
        proof_root(seq![leaf2, node01], leaf3@, 3) == node_hash(node01@, node23@),
{
    lemma_two_steps(leaf1, node23, leaf0@, 0);
    lemma_two_steps(leaf0, node23, leaf1@, 1);
    lemma_two_steps(leaf3, node01, leaf2@, 2);
    lemma_two_steps(leaf2, node01, leaf3@, 3);
}

} // verus!
