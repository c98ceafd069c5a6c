//! Ed25519 key pairs held in this process, their public keys and signatures.
//!
//! The cryptography is the Solana SDK's. This module holds keys and
//! signatures as plain bytes and states what the SDK is trusted to compute.
use crate::bytes::to_array;
use crate::error::{Error, ErrorView};
use crate::view::result_view;
use solana_sdk::signer::keypair::Keypair as SdkKeypair;
use solana_sdk::signer::{SeedDerivable, Signer};
use vstd::prelude::*;

verus! {

/// The bytes that a base58 text stands for, if it is one.
pub uninterp spec fn base58_decoding(text: Seq<char>) -> Option<Seq<u8>>;

/// Whether these bytes are a secret key followed by its own public key.
pub uninterp spec fn keypair_accepts(bytes: Seq<u8>) -> bool;

/// The key pair whose secret key is the first 32 bytes of a seed.
pub uninterp spec fn seed_keypair(seed: Seq<u8>) -> Seq<u8>;

/// The Ed25519 signature of a message under a key pair.
pub uninterp spec fn ed25519_signature(keypair: Seq<u8>, message: Seq<u8>) -> Seq<u8>;

/// The text form of a public key.
pub uninterp spec fn pubkey_text(key: Seq<u8>) -> Seq<char>;

/// The text form of a signature.
pub uninterp spec fn signature_text(signature: Seq<u8>) -> Seq<char>;

/// The key pair that a base58 text holds, if it holds one.
pub open spec fn keypair_of_text(text: Seq<char>) -> Option<Seq<u8>> {
    match base58_decoding(text) {
        Some(bytes) => if bytes.len() == 64 && keypair_accepts(bytes) {
            Some(bytes)
        } else {
            None
        },
        None => None,
    }
}

/// What [`Keypair::from_seed`] gives for a seed: a key pair if the seed has
/// at least 32 bytes.
pub open spec fn keypair_of_seed(seed: Seq<u8>) -> Result<Seq<u8>, ErrorView> {
    if seed.len() >= 32 {
        Ok(seed_keypair(seed))
    } else {
        Err(ErrorView::CustomizeError("Seed is too short"@))
    }
}

/// A public key: the identity under which a signer is known.
#[derive(Clone, Copy, Debug, PartialEq, Eq)]
pub struct Pubkey {
    bytes: [u8; 32],
}

/// An Ed25519 signature.
#[derive(Clone, Copy, Debug, PartialEq, Eq)]
pub struct Signature {
    bytes: [u8; 64],
}

/// An Ed25519 key pair: 32 bytes of secret key, then the 32 bytes of the
/// public key that belongs to it.
pub struct Keypair {
    bytes: [u8; 64],
}

impl View for Pubkey {
    type V = Seq<u8>;

    closed spec fn view(&self) -> Seq<u8> {
        self.bytes@
    }
}

impl View for Signature {
    type V = Seq<u8>;

    closed spec fn view(&self) -> Seq<u8> {
        self.bytes@
    }
}

impl View for Keypair {
    type V = Seq<u8>;

    closed spec fn view(&self) -> Seq<u8> {
        self.bytes@
    }
}

impl Pubkey {
    /// The public key with these bytes.
    pub fn new_from_array(bytes: [u8; 32]) -> (key: Pubkey)
        ensures
            key@ == bytes@,
    {
        Pubkey { bytes }
    }

    /// The 32 bytes of the key.
    pub fn to_bytes(&self) -> (bytes: [u8; 32])
        ensures
            bytes@ == self@,
    {
        self.bytes
    }

    /// The key as base58 text.
    pub fn to_string(&self) -> (text: String)
        ensures
            text@ == pubkey_text(self@),
    {
        pubkey_to_text(&self.bytes)
    }
}

impl Signature {
    /// The signature with these bytes.
    pub fn new_from_array(bytes: [u8; 64]) -> (signature: Signature)
        ensures
            signature@ == bytes@,
    {
        Signature { bytes }
    }

    /// The 64 bytes of the signature.
    pub fn to_bytes(&self) -> (bytes: [u8; 64])
        ensures
            bytes@ == self@,
    {
        self.bytes
    }

    /// The signature as base58 text.
    pub fn to_string(&self) -> (text: String)
        ensures
            text@ == signature_text(self@),
    {
        signature_to_text(&self.bytes)
    }
}

impl Keypair {
    #[verifier::type_invariant]
    spec fn valid(&self) -> bool {
        keypair_accepts(self.bytes@)
    }

    /// Reads a key pair from base58 text.
    ///
    /// Succeeds exactly when the text decodes to 64 bytes that are a secret
    /// key followed by its own public key.
    pub fn from_base58_string(text: &str) -> (res: Result<Keypair, Error>)
        ensures
            match res {
                Ok(keypair) => keypair_of_text(text@) == Some(keypair@),
                Err(e) => keypair_of_text(text@) is None && e@ == ErrorView::InvalidKeyFormat,
            },
    {
        let decoded = match decode_base58(text) {
            Some(v) => v,
            None => {
                return Err(Error::InvalidKeyFormat);
            },
        };
        let bytes = match to_array::<64>(&decoded) {
            Some(a) => a,
            None => {
                return Err(Error::InvalidKeyFormat);
            },
        };
        if !is_keypair(&bytes) {
            return Err(Error::InvalidKeyFormat);
        }
        Ok(Keypair { bytes })
    }

    /// Derives the key pair whose secret key is the first 32 bytes of `seed`.
    ///
    /// Fails exactly when the seed is shorter than that. The pair begins
    /// with its secret key.
    pub fn from_seed(seed: &[u8]) -> (res: Result<Keypair, Error>)
        ensures
            result_view(res) == keypair_of_seed(seed@),
            res matches Ok(keypair) ==> keypair@.subrange(0, 32) == seed@.subrange(0, 32),
    {
        match keypair_from_seed(seed) {
            Ok(bytes) => Ok(Keypair { bytes }),
            Err(reason) => Err(Error::CustomizeError(reason)),
        }
    }

    /// The public key of the pair: its last 32 bytes.
    pub fn pubkey(&self) -> (key: Pubkey)
        ensures
            key@ == self@.subrange(32, 64),
    {
        proof {
            use_type_invariant(self);
        }
        Pubkey { bytes: keypair_pubkey(&self.bytes) }
    }

    /// Signs `message`.
    pub fn sign_message(&self, message: &[u8]) -> (signature: Signature)
        ensures
            signature@ == ed25519_signature(self@, message@),
    {
        proof {
            use_type_invariant(self);
        }
        Signature { bytes: keypair_sign(&self.bytes, message) }
    }
}

/// Calls `bs58::decode(..).into_vec()`, which the Solana SDK re-exports as
/// `solana_sdk::bs58`.
///
/// Trusted: whether the text decodes, and to which bytes, depends on the
/// text alone; [`base58_decoding`] names that result.
#[verifier::external_body]
fn decode_base58(text: &str) -> (res: Option<Vec<u8>>)
    ensures
        match res {
            Some(bytes) => base58_decoding(text@) == Some(bytes@),
            None => base58_decoding(text@) is None,
        },
{
    solana_sdk::bs58::decode(text).into_vec().ok()
}

/// Calls `solana_sdk::signer::keypair::Keypair::try_from(&[u8])` and keeps
/// whether it succeeded.
///
/// Trusted: acceptance depends on the bytes alone; [`keypair_accepts`]
/// names it.
#[verifier::external_body]
fn is_keypair(bytes: &[u8; 64]) -> (ok: bool)
    ensures
        ok == keypair_accepts(bytes@),
{
    SdkKeypair::try_from(&bytes[..]).is_ok()
}

/// Calls `SeedDerivable::from_seed` of the Solana SDK's `Keypair` and takes
/// the pair's bytes.
///
/// Trusted: the call fails exactly on a seed of fewer than 32 bytes, with
/// the text "Seed is too short"; otherwise the pair depends on the seed
/// alone, is named [`seed_keypair`], begins with the first 32 bytes of the
/// seed as its secret key, and is one that `Keypair::try_from` accepts.
#[verifier::external_body]
fn keypair_from_seed(seed: &[u8]) -> (res: Result<[u8; 64], String>)
    ensures
        match res {
            Ok(bytes) => {
                &&& seed@.len() >= 32
                &&& bytes@ == seed_keypair(seed@)
                &&& bytes@.subrange(0, 32) == seed@.subrange(0, 32)
                &&& keypair_accepts(bytes@)
            },
            Err(reason) => seed@.len() < 32 && reason@ == "Seed is too short"@,
        },
{
    match <SdkKeypair as SeedDerivable>::from_seed(seed) {
        Ok(keypair) => Ok(keypair.to_bytes()),
        Err(e) => Err(e.to_string()),
    }
}

/// Calls `Signer::pubkey` of the Solana SDK's `Keypair` with these bytes.
///
/// Trusted: the public key of an accepted pair is its last 32 bytes.
#[verifier::external_body]
fn keypair_pubkey(keypair: &[u8; 64]) -> (key: [u8; 32])
    requires
        keypair_accepts(keypair@),
    ensures
        key@ == keypair@.subrange(32, 64),
{
    let pair = SdkKeypair::try_from(&keypair[..]).unwrap();
    Signer::pubkey(&pair).to_bytes()
}

/// Calls `Signer::sign_message` of the Solana SDK's `Keypair` with these
/// bytes.
///
/// Trusted: Ed25519 signing is deterministic, so the signature depends on
/// the pair and the message alone; [`ed25519_signature`] names it.
#[verifier::external_body]
fn keypair_sign(keypair: &[u8; 64], message: &[u8]) -> (signature: [u8; 64])
    requires
        keypair_accepts(keypair@),
    ensures
        signature@ == ed25519_signature(keypair@, message@),
{
    let pair = SdkKeypair::try_from(&keypair[..]).unwrap();
    Signer::sign_message(&pair, message).into()
}

/// Calls `to_string` on `solana_sdk::pubkey::Pubkey` with these bytes.
///
/// Trusted: the text depends on the bytes alone; [`pubkey_text`] names it.
#[verifier::external_body]
fn pubkey_to_text(key: &[u8; 32]) -> (text: String)
    ensures
        text@ == pubkey_text(key@),
{
    solana_sdk::pubkey::Pubkey::from(*key).to_string()
}

/// Calls `to_string` on `solana_sdk::signature::Signature` with these bytes.
///
/// Trusted: the text depends on the bytes alone; [`signature_text`] names it.
#[verifier::external_body]
fn signature_to_text(signature: &[u8; 64]) -> (text: String)
    ensures
        text@ == signature_text(signature@),
{
    solana_sdk::signature::Signature::from(*signature).to_string()
}

} // verus!
