use lcore_node::identifier::derive_identifiers;

#[test]
fn identifiers_are_deterministic() {
    let ciphertext = b"the very same ciphertext".to_vec();
    let (task_a, proof_a) = derive_identifiers(&ciphertext);
    let (task_b, proof_b) = derive_identifiers(&ciphertext);
    assert_eq!(task_a.bytes, task_b.bytes);
    assert_eq!(proof_a.bytes, proof_b.bytes);
}

#[test]
fn different_ciphertext_gives_different_identifiers() {
    let (task_a, proof_a) = derive_identifiers(b"ciphertext one");
    let (task_b, proof_b) = derive_identifiers(b"ciphertext two");
    assert_ne!(task_a.bytes, task_b.bytes);
    assert_ne!(proof_a.bytes, proof_b.bytes);
}

#[test]
fn task_identifier_and_proof_hash_agree() {
    let (task, proof) = derive_identifiers(b"any ciphertext");
    assert_eq!(task.bytes, proof.bytes);
    assert_eq!(task.bytes.len(), 32);
}

#[test]
fn sha256_known_value() {
    // SHA-256 of the ASCII bytes of "hello".
    let expected: [u8; 32] = [
        0x2c, 0xf2, 0x4d, 0xba, 0x5f, 0xb0, 0xa3, 0x0e, 0x26, 0xe8, 0x3b, 0x2a, 0xc5, 0xb9, 0xe2,
        0x9e, 0x1b, 0x16, 0x1e, 0x5c, 0x1f, 0xa7, 0x42, 0x5e, 0x73, 0x04, 0x33, 0x62, 0x93, 0x8b,
        0x98, 0x24,
    ];
    let (task, _) = derive_identifiers(b"hello");
    assert_eq!(task.bytes, expected.to_vec());
}
