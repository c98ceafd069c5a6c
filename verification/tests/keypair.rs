use remote_signer::error::Error;
use remote_signer::signer::keypair::{Keypair, Pubkey, Signature};

// A secret key, its public key and its signature of the empty message.
const SECRET: [u8; 32] = [
    0x9d, 0x61, 0xb1, 0x9d, 0xef, 0xfd, 0x5a, 0x60, 0xba, 0x84, 0x4a, 0xf4, 0x92, 0xec, 0x2c, 0xc4,
    0x44, 0x49, 0xc5, 0x69, 0x7b, 0x32, 0x69, 0x19, 0x70, 0x3b, 0xac, 0x03, 0x1c, 0xae, 0x7f, 0x60,
];
const PUBLIC: [u8; 32] = [
    0xd7, 0x5a, 0x98, 0x01, 0x82, 0xb1, 0x0a, 0xb7, 0xd5, 0x4b, 0xfe, 0xd3, 0xc9, 0x64, 0x07, 0x3a,
    0x0e, 0xe1, 0x72, 0xf3, 0xda, 0xa6, 0x23, 0x25, 0xaf, 0x02, 0x1a, 0x68, 0xf7, 0x07, 0x51, 0x1a,
];
const SIGNATURE_OF_EMPTY: [u8; 64] = [
    0xe5, 0x56, 0x43, 0x00, 0xc3, 0x60, 0xac, 0x72, 0x90, 0x86, 0xe2, 0xcc, 0x80, 0x6e, 0x82, 0x8a,
    0x84, 0x87, 0x7f, 0x1e, 0xb8, 0xe5, 0xd9, 0x74, 0xd8, 0x73, 0xe0, 0x65, 0x22, 0x49, 0x01, 0x55,
    0x5f, 0xb8, 0x82, 0x15, 0x90, 0xa3, 0x3b, 0xac, 0xc6, 0x1e, 0x39, 0x70, 0x1c, 0xf9, 0xb4, 0x6b,
    0xd2, 0x5b, 0xf5, 0xf0, 0x59, 0x5b, 0xbe, 0x24, 0x65, 0x51, 0x41, 0x43, 0x8e, 0x7a, 0x10, 0x0b,
];
const KEYPAIR_TEXT: &str =
    "49W385L4rePHy6PAaQUovbD2aacgN4HsKXSMeUzRg4fmwXszN91JuMFrQRj3vMDpZuRF3ZknQBuRBoWQJEfXstMw";

#[test]
fn key_pair_from_base58_text() {
    let pair = Keypair::from_base58_string(KEYPAIR_TEXT).expect("the text holds a key pair");
    assert_eq!(pair.pubkey().to_bytes(), PUBLIC);
}

#[test]
fn key_pair_text_agrees_with_the_sdk() {
    let mut bytes = SECRET.to_vec();
    bytes.extend_from_slice(&PUBLIC);
    assert_eq!(bs58::encode(&bytes).into_string(), KEYPAIR_TEXT);
    let theirs = solana_sdk::signer::keypair::Keypair::from_base58_string(KEYPAIR_TEXT);
    let ours = Keypair::from_base58_string(KEYPAIR_TEXT).expect("the text holds a key pair");
    assert_eq!(
        ours.pubkey().to_bytes(),
        solana_sdk::signer::Signer::pubkey(&theirs).to_bytes()
    );
}

#[test]
fn key_pair_whose_public_key_is_not_its_own_is_refused() {
    // The secret key above, followed by the public key of another secret key.
    let text =
        "49W385L4rePHy6PAaQUovbD2aacgN4HsKXSMeUzRg4fmmAKmRtx9Zv4guQziLvixpzbwmuov52LhLMddT2YyY2gT";
    assert_eq!(Keypair::from_base58_string(text).err(), Some(Error::InvalidKeyFormat));
}

#[test]
fn key_pair_text_of_the_wrong_length_is_refused() {
    let short =
        "iMAznqj7GGUQaqyYasFi9CnfsfSgfMb4Hs9kqUxtSkgBYTxbF3nk8JsAPNJt4DsepDk4JPcD3vZfhShAo9H4Nc";
    let long =
        "EtXANE7A281PtakqGSdk7Xz5yDNUjwXT6mLv8SYTuRC9MhJ4CJLN24QZ4Q8btUFaxEMzzKaFPM8MkgGmq5K5HbhPN";
    assert_eq!(Keypair::from_base58_string(short).err(), Some(Error::InvalidKeyFormat));
    assert_eq!(Keypair::from_base58_string(long).err(), Some(Error::InvalidKeyFormat));
    assert_eq!(Keypair::from_base58_string("").err(), Some(Error::InvalidKeyFormat));
    // A public key alone is no key pair.
    assert_eq!(
        Keypair::from_base58_string("FVen3X669xLzsi6N2V91DoiyzHzg1uAgqiT8jZ9nS96Z").err(),
        Some(Error::InvalidKeyFormat)
    );
}

#[test]
fn key_pair_text_that_is_not_base58_is_refused() {
    // '0', 'O', 'I' and 'l' are not base58 digits.
    let zero = KEYPAIR_TEXT.replacen('4', "0", 1);
    let letter_l = KEYPAIR_TEXT.replacen('9', "l", 1);
    assert_eq!(Keypair::from_base58_string(&zero).err(), Some(Error::InvalidKeyFormat));
    assert_eq!(Keypair::from_base58_string(&letter_l).err(), Some(Error::InvalidKeyFormat));
    assert_eq!(Keypair::from_base58_string("not a key").err(), Some(Error::InvalidKeyFormat));
}

#[test]
fn invalid_key_error_does_not_repeat_the_secret() {
    let err = Keypair::from_base58_string("s3cr3t-with-a-typ0").err().expect("not base58");
    assert_eq!(err.message(), "Invalid private key format");
}

#[test]
fn public_key_is_the_second_half_of_the_pair() {
    let pair = Keypair::from_base58_string(
        "111111111111111111111111111111114zvwRjXUKGfvwnParsHAS3HuSVzV5cA4McphgmoCtajS",
    )
    .expect("the all-zero secret key with its public key");
    assert_eq!(pair.pubkey().to_string(), "4zvwRjXUKGfvwnParsHAS3HuSVzV5cA4McphgmoCtajS");
}

#[test]
fn signature_of_the_empty_message() {
    let pair = Keypair::from_base58_string(KEYPAIR_TEXT).expect("the text holds a key pair");
    let signature = pair.sign_message(&Vec::new());
    assert_eq!(signature.to_bytes(), SIGNATURE_OF_EMPTY);
    assert_eq!(
        signature.to_string(),
        "5awYiUvGiDFA33EJjj4TXJG44a5afJc8QjWRpGgQiu6b23jCr7yndW2fmp9ujwqJVe32J456wV3VF78Asb1obnTc"
    );
}

#[test]
fn signature_of_one_byte() {
    let seed: Vec<u8> = vec![
        0x4c, 0xcd, 0x08, 0x9b, 0x28, 0xff, 0x96, 0xda, 0x9d, 0xb6, 0xc3, 0x46, 0xec, 0x11, 0x4e,
        0x0f, 0x5b, 0x8a, 0x31, 0x9f, 0x35, 0xab, 0xa6, 0x24, 0xda, 0x8c, 0xf6, 0xed, 0x4f, 0xb8,
        0xa6, 0xfb,
    ];
    let pair = Keypair::from_seed(&seed).expect("a seed of 32 bytes");
    let signature = pair.sign_message(&vec![0x72]).to_bytes();
    let expected: [u8; 64] = [
        0x92, 0xa0, 0x09, 0xa9, 0xf0, 0xd4, 0xca, 0xb8, 0x72, 0x0e, 0x82, 0x0b, 0x5f, 0x64, 0x25,
        0x40, 0xa2, 0xb2, 0x7b, 0x54, 0x16, 0x50, 0x3f, 0x8f, 0xb3, 0x76, 0x22, 0x23, 0xeb, 0xdb,
        0x69, 0xda, 0x08, 0x5a, 0xc1, 0xe4, 0x3e, 0x15, 0x99, 0x6e, 0x45, 0x8f, 0x36, 0x13, 0xd0,
        0xf1, 0x1d, 0x8c, 0x38, 0x7b, 0x2e, 0xae, 0xb4, 0x30, 0x2a, 0xee, 0xb0, 0x0d, 0x29, 0x16,
        0x12, 0xbb, 0x0c, 0x00,
    ];
    assert_eq!(signature, expected);
}

#[test]
fn signing_twice_gives_the_same_signature() {
    let pair = Keypair::from_base58_string(KEYPAIR_TEXT).expect("the text holds a key pair");
    let message = b"the same bytes".to_vec();
    assert_eq!(pair.sign_message(&message), pair.sign_message(&message));
    assert_ne!(pair.sign_message(&message), pair.sign_message(&Vec::new()));
}

#[test]
fn signature_verifies_under_the_public_key() {
    let pair = Keypair::from_base58_string(KEYPAIR_TEXT).expect("the text holds a key pair");
    let message = b"pay 5 to bob".to_vec();
    let signature = pair.sign_message(&message);
    let checked = solana_sdk::signature::Signature::from(signature.to_bytes());
    assert!(checked.verify(&pair.pubkey().to_bytes(), &message));
    assert!(!checked.verify(&pair.pubkey().to_bytes(), b"pay 6 to bob"));
}

#[test]
fn seed_of_32_bytes_gives_the_pair_of_that_secret_key() {
    let pair = Keypair::from_seed(&SECRET.to_vec()).expect("a seed of 32 bytes");
    assert_eq!(pair.pubkey().to_bytes(), PUBLIC);
    assert_eq!(pair.pubkey().to_string(), "FVen3X669xLzsi6N2V91DoiyzHzg1uAgqiT8jZ9nS96Z");
}

#[test]
fn seed_longer_than_32_bytes_is_cut() {
    let mut seed = SECRET.to_vec();
    seed.extend_from_slice(&[0xaa; 32]);
    let pair = Keypair::from_seed(&seed).expect("a seed of 64 bytes");
    assert_eq!(pair.pubkey().to_bytes(), PUBLIC);
}

#[test]
fn seed_shorter_than_32_bytes_is_refused() {
    for len in [0usize, 1, 16, 31] {
        let err = Keypair::from_seed(&vec![7u8; len]).err().expect("the seed is too short");
        assert_eq!(err, Error::CustomizeError("Seed is too short".to_string()));
        assert_eq!(err.message(), "Customize error: Seed is too short");
    }
}

#[test]
fn public_key_text_is_base58() {
    assert_eq!(
        Pubkey::new_from_array([0; 32]).to_string(),
        "11111111111111111111111111111111"
    );
    assert_eq!(
        Pubkey::new_from_array([1; 32]).to_string(),
        "4vJ9JU1bJJE96FWSJKvHsmmFADCg4gpZQff4P3bkLKi"
    );
    assert_eq!(Pubkey::new_from_array(PUBLIC).to_bytes(), PUBLIC);
}

#[test]
fn signature_text_is_base58() {
    assert_eq!(
        Signature::new_from_array([0; 64]).to_string(),
        "1111111111111111111111111111111111111111111111111111111111111111"
    );
    let mut bytes = [0u8; 64];
    for i in 0..64 {
        bytes[i] = i as u8 + 1;
    }
    assert_eq!(
        Signature::new_from_array(bytes).to_string(),
        "2Ana1pUpv2ZbMVkwF5FXapYeBEjdxDatLn7nvJkhgTSXbs59SyZSx866bXirPgj8QQVB57uxHJBG1YFvkRbFj4T"
    );
    assert_eq!(Signature::new_from_array(bytes).to_bytes(), bytes);
}
