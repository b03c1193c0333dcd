use solana_sdk::pubkey::Pubkey;
use solana_sdk::signature::{keypair_from_seed_phrase_and_passphrase, Keypair};
use solana_sdk::signer::{SeedDerivable, Signer};
use timelock_client::context::Config;
use timelock_client::error::ClientError;
use timelock_client::keys::{
    key_file_from_phrase, load_keypair_from_file, make_key_file, parse_address, validate_phrase,
    KeyFile,
};

const PHRASE: &str =
    "abandon abandon abandon abandon abandon abandon abandon abandon abandon abandon abandon about";

#[test]
fn key_file_round_trips() {
    let seed = [42u8; 32];
    let file = make_key_file(&seed).unwrap();
    assert_eq!(file.private_key, seed.to_vec());
    let expected = Keypair::from_seed(&seed).unwrap().pubkey();
    assert_eq!(file.pubkey, expected.to_string());
    let identity = load_keypair_from_file(&file).unwrap();
    assert_eq!(identity.seed, seed);
    assert_eq!(identity.pubkey.bytes, expected.to_bytes());
    assert_eq!(Pubkey::new_from_array(identity.pubkey.bytes).to_string(), file.pubkey);
}

#[test]
fn phrase_gives_the_same_identity_every_time() {
    let file = key_file_from_phrase(PHRASE).unwrap();
    let again = key_file_from_phrase(PHRASE).unwrap();
    assert_eq!(file, again);
    assert_eq!(file.private_key.len(), 32);
    let expected = keypair_from_seed_phrase_and_passphrase(PHRASE, "").unwrap().pubkey();
    assert_eq!(file.pubkey, expected.to_string());
    let identity = load_keypair_from_file(&file).unwrap();
    assert_eq!(Pubkey::new_from_array(identity.pubkey.bytes).to_string(), file.pubkey);
    assert_ne!(identity.pubkey.bytes, identity.seed);
}

#[test]
fn long_private_key_is_read_by_its_seed() {
    let seed = [7u8; 32];
    let short = make_key_file(&seed).unwrap();
    let pair = Keypair::from_seed(&seed).unwrap();
    let long = KeyFile { private_key: pair.to_bytes().to_vec(), pubkey: short.pubkey.clone() };
    assert_eq!(long.private_key.len(), 64);
    assert_eq!(load_keypair_from_file(&long), load_keypair_from_file(&short));
    let mut wrong_tail = long.clone();
    wrong_tail.private_key[63] ^= 1;
    assert_eq!(load_keypair_from_file(&wrong_tail), Err(ClientError::ConfigError));
}

#[test]
fn malformed_key_files_are_refused() {
    let good = make_key_file(&[42u8; 32]).unwrap();
    let short = KeyFile { private_key: vec![1u8; 31], pubkey: good.pubkey.clone() };
    assert_eq!(load_keypair_from_file(&short), Err(ClientError::ConfigError));
    let odd = KeyFile { private_key: vec![1u8; 33], pubkey: good.pubkey.clone() };
    assert_eq!(load_keypair_from_file(&odd), Err(ClientError::ConfigError));
    let empty = KeyFile { private_key: Vec::new(), pubkey: good.pubkey.clone() };
    assert_eq!(load_keypair_from_file(&empty), Err(ClientError::ConfigError));
    let other = make_key_file(&[43u8; 32]).unwrap();
    let mixed = KeyFile { private_key: good.private_key.clone(), pubkey: other.pubkey };
    assert_eq!(load_keypair_from_file(&mixed), Err(ClientError::ConfigError));
}

#[test]
fn phrases_are_checked() {
    assert!(validate_phrase(PHRASE.as_bytes()));
    assert!(validate_phrase(b"  a b c d e f g h i j k  l "));
    assert!(!validate_phrase(b"a b c d e f g h i j k"));
    assert!(!validate_phrase(b"a b c d e f g h i j k l m"));
    assert!(!validate_phrase(b"A b c d e f g h i j k l"));
    assert!(!validate_phrase(b"a b c d e f g h i j k l1"));
    assert!(!validate_phrase(b"a,b c d e f g h i j k l m"));
    assert!(!validate_phrase(b""));
    assert_eq!(key_file_from_phrase("too short"), Err(ClientError::ConfigError));
    assert_eq!(
        key_file_from_phrase("Abandon abandon abandon abandon abandon abandon abandon abandon abandon abandon abandon about"),
        Err(ClientError::ConfigError)
    );
}

#[test]
fn addresses_are_read_from_text() {
    assert_eq!(parse_address("11111111111111111111111111111111").unwrap().bytes, [0u8; 32]);
    let mint = parse_address("kinXdEcpDQeHPEuQnqmUgtYykqKGVFq6CeVX5iAHJq6").unwrap();
    assert_eq!(
        Pubkey::new_from_array(mint.bytes).to_string(),
        "kinXdEcpDQeHPEuQnqmUgtYykqKGVFq6CeVX5iAHJq6"
    );
    assert_eq!(parse_address("not an address"), Err(ClientError::ConfigError));
    assert_eq!(parse_address(""), Err(ClientError::ConfigError));
    assert_eq!(parse_address("1111"), Err(ClientError::ConfigError));
}

#[test]
fn configuration_needs_every_address() {
    let ok = Config::from_text(
        "11111111111111111111111111111111",
        "TokenkegQfeZyiNwAJbNbGKPFXCWuBvf9Ss623VQ5DA",
        "FDrssd3RVeCkgHAT2NkEpkxC5UgfJpKHeebXUMnuzD6D",
        "kinXdEcpDQeHPEuQnqmUgtYykqKGVFq6CeVX5iAHJq6",
        "f1ipC31qd2u88MjNYp1T4Cc7rnWfM9ivYpTV1Z8FHnD",
        21,
    )
    .unwrap();
    assert_eq!(ok.lock_duration, 21);
    assert_eq!(ok.vm_program.bytes, [0u8; 32]);
    assert_eq!(
        Pubkey::new_from_array(ok.vm_state.bytes).to_string(),
        "FDrssd3RVeCkgHAT2NkEpkxC5UgfJpKHeebXUMnuzD6D"
    );
    assert_eq!(
        Pubkey::new_from_array(ok.vm_authority.bytes).to_string(),
        "f1ipC31qd2u88MjNYp1T4Cc7rnWfM9ivYpTV1Z8FHnD"
    );
    let bad = Config::from_text(
        "11111111111111111111111111111111",
        "TokenkegQfeZyiNwAJbNbGKPFXCWuBvf9Ss623VQ5DA",
        "FDrssd3RVeCkgHAT2NkEpkxC5UgfJpKHeebXUMnuzD6D",
        "kinXdEcpDQeHPEuQnqmUgtYykqKGVFq6CeVX5iAHJq6",
        "0OIl",
        21,
    );
    assert_eq!(bad, Err(ClientError::ConfigError));
}
