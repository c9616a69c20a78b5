#![allow(deprecated)]

use lattice::state::merkle::{hash_leaf, hash_nodes, verify_proof};
use solana_program::keccak;

#[test]
fn test_leaf_hash_domain_separation() {
    let data = b"test_data";
    let leaf = hash_leaf(data);
    // A leaf hash should differ from a raw keccak of the same data
    let raw = keccak::hash(data).to_bytes();
    assert_ne!(leaf, raw);
}

#[test]
fn test_node_hash_domain_separation() {
    let left = [1u8; 32];
    let right = [2u8; 32];
    let node = hash_nodes(&left, &right);
    // Should differ from hashing without the prefix
    let mut raw_input = Vec::new();
    raw_input.extend_from_slice(&left);
    raw_input.extend_from_slice(&right);
    let raw = keccak::hash(&raw_input).to_bytes();
    assert_ne!(node, raw);
}

#[test]
fn test_verify_single_leaf_tree() {
    // A tree with a single leaf: root == leaf_hash, empty proof
    let data = b"single_leaf";
    let leaf = hash_leaf(data);
    let root = leaf;
    assert!(verify_proof(&[], &root, &leaf, 0));
}

#[test]
fn test_verify_two_leaf_tree() {
    let leaf0 = hash_leaf(b"leaf_0");
    let leaf1 = hash_leaf(b"leaf_1");
    let root = hash_nodes(&leaf0, &leaf1);

    // Prove leaf0 (index 0): sibling is leaf1
    assert!(verify_proof(&[leaf1], &root, &leaf0, 0));
    // Prove leaf1 (index 1): sibling is leaf0
    assert!(verify_proof(&[leaf0], &root, &leaf1, 1));
}

#[test]
fn test_verify_invalid_proof() {
    let leaf0 = hash_leaf(b"leaf_0");
    let leaf1 = hash_leaf(b"leaf_1");
    let root = hash_nodes(&leaf0, &leaf1);

    // Wrong sibling
    let fake_sibling = [0u8; 32];
    assert!(!verify_proof(&[fake_sibling], &root, &leaf0, 0));
}

#[test]
fn test_verify_four_leaf_tree() {
    let leaf0 = hash_leaf(b"leaf_0");
    let leaf1 = hash_leaf(b"leaf_1");
    let leaf2 = hash_leaf(b"leaf_2");
    let leaf3 = hash_leaf(b"leaf_3");

    let node01 = hash_nodes(&leaf0, &leaf1);
    let node23 = hash_nodes(&leaf2, &leaf3);
    let root = hash_nodes(&node01, &node23);

    // Prove leaf0 (index 0): siblings are leaf1, node23
    assert!(verify_proof(&[leaf1, node23], &root, &leaf0, 0));
    // Prove leaf2 (index 2): siblings are leaf3, node01
    assert!(verify_proof(&[leaf3, node01], &root, &leaf2, 2));
    // Prove leaf3 (index 3): siblings are leaf2, node01
    assert!(verify_proof(&[leaf2, node01], &root, &leaf3, 3));
}

#[test]
fn leaf_hash_is_keccak_of_prefixed_data() {
    let data = b"abc";
    let expected = keccak::hash(&[0u8, b'a', b'b', b'c']).to_bytes();
    assert_eq!(hash_leaf(data), expected);
    assert_ne!(hash_leaf(data), [0u8; 32]);
}

#[test]
fn empty_leaf_hash_known_value() {
    // keccak256 of the single byte 0x00
    let expected: [u8; 32] = [
        0xbc, 0x36, 0x78, 0x9e, 0x7a, 0x1e, 0x28, 0x14, 0x36, 0x46, 0x42, 0x29, 0x82, 0x8f, 0x81,
        0x7d, 0x66, 0x12, 0xf7, 0xb4, 0x77, 0xd6, 0x65, 0x91, 0xff, 0x96, 0xa9, 0xe0, 0x64, 0xbc,
        0xc9, 0x8a,
    ];
    assert_eq!(hash_leaf(&[]), expected);
}

#[test]
fn node_hash_is_keccak_of_prefixed_children() {
    let left = [1u8; 32];
    let right = [2u8; 32];
    let mut input = vec![1u8];
    input.extend_from_slice(&left);
    input.extend_from_slice(&right);
    assert_eq!(hash_nodes(&left, &right), keccak::hash(&input).to_bytes());
}

#[test]
fn node_hash_is_not_commutative() {
    let a = hash_leaf(b"a");
    let b = hash_leaf(b"b");
    assert_ne!(hash_nodes(&a, &b), hash_nodes(&b, &a));
}

#[test]
fn single_leaf_with_other_index_or_root() {
    let leaf = hash_leaf(b"x");
    assert!(verify_proof(&[], &leaf, &leaf, 5));
    let other = hash_leaf(b"y");
    assert!(!verify_proof(&[], &other, &leaf, 0));
}

#[test]
fn two_leaf_tree_rejects_other_siblings() {
    let leaf0 = hash_leaf(b"leaf_0");
    let leaf1 = hash_leaf(b"leaf_1");
    let root = hash_nodes(&leaf0, &leaf1);
    let mut sibling = leaf1;
    sibling[31] ^= 1;
    assert!(!verify_proof(&[sibling], &root, &leaf0, 0));
    assert!(!verify_proof(&[leaf1], &root, &leaf1, 1));
    // the wrong side: index 1 puts leaf0 on the right
    assert!(!verify_proof(&[leaf1], &root, &leaf0, 1));
}

#[test]
fn four_leaf_tree_every_index_and_flips() {
    let leaves = [
        hash_leaf(b"leaf_0"),
        hash_leaf(b"leaf_1"),
        hash_leaf(b"leaf_2"),
        hash_leaf(b"leaf_3"),
    ];
    let node01 = hash_nodes(&leaves[0], &leaves[1]);
    let node23 = hash_nodes(&leaves[2], &leaves[3]);
    let root = hash_nodes(&node01, &node23);
    let proofs = [
        [leaves[1], node23],
        [leaves[0], node23],
        [leaves[3], node01],
        [leaves[2], node01],
    ];
    for i in 0..4usize {
        assert!(verify_proof(&proofs[i], &root, &leaves[i], i as u32));
        for j in 0..2usize {
            let mut bad = proofs[i];
            bad[j][0] ^= 0x80;
            assert!(!verify_proof(&bad, &root, &leaves[i], i as u32));
        }
    }
    // a proof one level short does not reach the root
    assert!(!verify_proof(&[leaves[1]], &root, &leaves[0], 0));
}
