use jumpring::dna::cyborg_dna_generator;
use jumpring::error::ContractError;
use sha3::{Digest, Keccak256};

fn reference_dna(value: &str, length: usize, modulus: u8) -> Vec<u8> {
    let mut hasher = Keccak256::new();
    hasher.update(value.as_bytes());
    let digest = hasher.finalize();
    digest[0..length].iter().map(|b| b % modulus).collect()
}

#[test]
fn dna_is_deterministic() {
    let identity = String::from("bob_the_imbiber");
    let first = cyborg_dna_generator(&identity, 10, 7).unwrap();
    let second = cyborg_dna_generator(&identity, 10, 7).unwrap();
    assert_eq!(first, second);
}

#[test]
fn dna_length_matches_request() {
    let identity = String::from("alice");
    for length in 0..=32usize {
        let dna = cyborg_dna_generator(&identity, length, 17).unwrap();
        assert_eq!(dna.len(), length);
    }
}

#[test]
fn dna_bytes_are_below_modulus() {
    let identity = String::from("zaphod");
    for modulus in 1..=16u8 {
        let dna = cyborg_dna_generator(&identity, 32, modulus).unwrap();
        assert!(dna.iter().all(|b| *b < modulus));
    }
}

#[test]
fn dna_matches_keccak_reference() {
    let identity = String::from("bob");
    let dna = cyborg_dna_generator(&identity, 32, 251).unwrap();
    assert_eq!(dna, reference_dna("bob", 32, 251));
}

#[test]
fn dna_known_vector() {
    // Keccak-256("hello") begins with 1c 8a ff 95.
    let identity = String::from("hello");
    let dna = cyborg_dna_generator(&identity, 4, 10).unwrap();
    assert_eq!(dna, vec![0x1c % 10, 0x8a % 10, 0xff % 10, 0x95 % 10]);
}

#[test]
fn dna_with_large_modulus() {
    let identity = String::from("trillian");
    let reduced = cyborg_dna_generator(&identity, 8, 255).unwrap();
    let reference = reference_dna("trillian", 8, 255);
    assert_eq!(reduced, reference);
}

#[test]
fn dna_rejects_overlong_length() {
    let identity = String::from("bob");
    match cyborg_dna_generator(&identity, 33, 10) {
        Err(e) => assert_eq!(e, ContractError::DnaOutOfRange),
        Ok(_) => panic!("expected a rejection"),
    }
}

#[test]
fn dna_rejects_zero_modulus() {
    let identity = String::from("bob");
    match cyborg_dna_generator(&identity, 4, 0) {
        Err(e) => assert_eq!(e, ContractError::DnaOutOfRange),
        Ok(_) => panic!("expected a rejection"),
    }
}
