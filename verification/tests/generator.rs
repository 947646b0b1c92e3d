use ed25519_dalek::{Keypair, PublicKey, SecretKey, Signer, Verifier};
use keystore::{generate, Keystore, Progress, Session, Store, KEY_LENGTH};
use std::path::PathBuf;

#[test]
fn generate_binds_the_keypair_to_the_name() {
    let record = generate(String::from("alice"));
    assert_eq!(record.name, "alice");
    assert_eq!(record.keypair.len(), 64);
}

#[test]
fn generate_draws_a_new_keypair_each_time() {
    let first = generate(String::from("alice"));
    let second = generate(String::from("alice"));
    assert_eq!(first.name, second.name);
    assert_ne!(first.keypair, second.keypair);
    assert_ne!(first.keypair[..32], second.keypair[..32]);
}

#[test]
fn generated_bytes_are_a_signing_key_and_its_public_key() {
    let record = generate(String::from("signer"));
    assert_ne!(record.keypair, [0u8; 64]);
    let keypair = Keypair::from_bytes(&record.keypair).unwrap();
    assert_eq!(keypair.to_bytes(), record.keypair);
    let signature = keypair.sign(b"message");
    assert!(keypair.public.verify(b"message", &signature).is_ok());
}

#[test]
fn a_generated_record_survives_its_file() {
    let record = generate(String::from("bob"));
    let text = record.encode().unwrap();
    assert_eq!(Keystore::decode(&text), Ok(record));
}

#[test]
fn the_second_half_is_the_public_key_of_the_first() {
    assert_eq!(KEY_LENGTH, 32);
    for _ in 0..4 {
        let record = generate(String::from("alice"));
        let secret = SecretKey::from_bytes(&record.keypair[..32]).unwrap();
        let public = PublicKey::from(&secret);
        assert_eq!(record.keypair[32..], public.to_bytes());
    }
}

#[test]
fn generate_and_save_saves_a_key_with_its_public_key() {
    let store = Store::at(PathBuf::from("/data/dclient"));
    match store.generate_and_save(String::from("bob")) {
        Progress::Next(Session::Saving { record, .. }, _) => {
            let secret = SecretKey::from_bytes(&record.keypair[..32]).unwrap();
            assert_eq!(record.keypair[32..], PublicKey::from(&secret).to_bytes());
        }
        other => panic!("unexpected start: {:?}", other),
    }
}
