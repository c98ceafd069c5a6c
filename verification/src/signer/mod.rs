//! The signer backends: from a [`SignerConfig`] to a signer and its identity.
//!
//! A key pair given as text, or derived from a mnemonic phrase, is held in
//! this process and signs here. A key in Google Cloud KMS never leaves the
//! service: resolving it yields the key's name, and whoever runs the
//! library asks the service to sign. The other backends can be configured
//! but not resolved.
pub mod config;
pub mod keypair;
pub mod mnemonic;

pub use config::SignerConfig;

use crate::error::{Error, ErrorCategory, ErrorView};
use crate::view::result_view;
use keypair::{keypair_of_seed, keypair_of_text, Keypair, Pubkey};
use mnemonic::{mnemonic_entropy, phrase_to_entropy};
use vstd::prelude::*;

verus! {

/// The name of one key version in Google Cloud KMS.
#[derive(Debug, PartialEq, Eq)]
pub struct KeySpecifier {
    pub project_id: String,
    pub location: String,
    pub key_ring: String,
    pub key: String,
    pub version: u64,
}

/// The mathematical value of a [`KeySpecifier`].
pub struct KeySpecifierView {
    pub project_id: Seq<char>,
    pub location: Seq<char>,
    pub key_ring: Seq<char>,
    pub key: Seq<char>,
    pub version: u64,
}

impl View for KeySpecifier {
    type V = KeySpecifierView;

    open spec fn view(&self) -> KeySpecifierView {
        KeySpecifierView {
            project_id: self.project_id@,
            location: self.location@,
            key_ring: self.key_ring@,
            key: self.key@,
            version: self.version,
        }
    }
}

/// A signer, resolved from the configuration for one request.
pub enum ResolvedSigner {
    /// A key pair held in this process.
    Local(Keypair),
    /// A key that Google Cloud KMS holds and signs with.
    GoogleKms(KeySpecifier),
}

/// The mathematical value of a [`ResolvedSigner`].
pub enum SignerView {
    /// The 64 bytes of a key pair.
    Local(Seq<u8>),
    GoogleKms(KeySpecifierView),
}

impl View for ResolvedSigner {
    type V = SignerView;

    open spec fn view(&self) -> SignerView {
        match self {
            ResolvedSigner::Local(keypair) => SignerView::Local(keypair@),
            ResolvedSigner::GoogleKms(key) => SignerView::GoogleKms(key@),
        }
    }
}

/// The public identity of a signer.
#[derive(Debug, PartialEq, Eq)]
pub enum Identity {
    /// The public key of a key pair held in this process.
    Known(Pubkey),
    /// The public key must be asked of Google Cloud KMS, for this key.
    HeldByKms(KeySpecifier),
}

/// The mathematical value of an [`Identity`].
pub enum IdentityView {
    /// The 32 bytes of a public key.
    Known(Seq<u8>),
    HeldByKms(KeySpecifierView),
}

impl View for Identity {
    type V = IdentityView;

    open spec fn view(&self) -> IdentityView {
        match self {
            Identity::Known(key) => IdentityView::Known(key@),
            Identity::HeldByKms(key) => IdentityView::HeldByKms(key@),
        }
    }
}

impl SignerView {
    /// The identity of this signer.
    pub open spec fn identity(self) -> IdentityView {
        match self {
            SignerView::Local(keypair) => IdentityView::Known(keypair.subrange(32, 64)),
            SignerView::GoogleKms(key) => IdentityView::HeldByKms(key),
        }
    }
}

impl ResolvedSigner {
    /// The identity of the signer. No signature is made for it.
    pub fn identity(self) -> (identity: Identity)
        ensures
            identity@ == self@.identity(),
    {
        match self {
            ResolvedSigner::Local(keypair) => Identity::Known(keypair.pubkey()),
            ResolvedSigner::GoogleKms(key) => Identity::HeldByKms(key),
        }
    }
}

impl SignerConfig {
    /// The signer that this configuration resolves to, or why it resolves
    /// to none.
    ///
    /// - A private key must be base58 text of a valid key pair.
    /// - A mnemonic must be a valid phrase; its entropy is the seed of the
    ///   key pair, and must have 32 bytes for that.
    /// - A Google Cloud KMS key resolves to its name.
    /// - Every other backend is unsupported.
    pub open spec fn resolution(self) -> Result<SignerView, ErrorView> {
        match self {
            SignerConfig::PrivateKey(text) => match keypair_of_text(text@) {
                Some(keypair) => Ok(SignerView::Local(keypair)),
                None => Err(ErrorView::InvalidKeyFormat),
            },
            SignerConfig::Mnemonic(phrase) => match mnemonic_entropy(phrase@) {
                Ok(entropy) => match keypair_of_seed(entropy) {
                    Ok(keypair) => Ok(SignerView::Local(keypair)),
                    Err(e) => Err(e),
                },
                Err(reason) => Err(ErrorView::Bip39Error(reason)),
            },
            SignerConfig::GoogleKms { project_id, location, key_ring, key, version } => Ok(
                SignerView::GoogleKms(
                    KeySpecifierView {
                        project_id: project_id@,
                        location: location@,
                        key_ring: key_ring@,
                        key: key@,
                        version,
                    },
                ),
            ),
            SignerConfig::KeyStore { .. } => Err(ErrorView::UnsupportedBackendKind("keystore"@)),
            SignerConfig::AzureKeyVault { .. } => Err(
                ErrorView::UnsupportedBackendKind("azurekeyvault"@),
            ),
            SignerConfig::AwsKms { .. } => Err(ErrorView::UnsupportedBackendKind("awskms"@)),
            SignerConfig::AlicloudKms { .. } => Err(
                ErrorView::UnsupportedBackendKind("alicloudkms"@),
            ),
        }
    }

    /// The identity that this configuration resolves to: that of its
    /// signer, and none where there is no signer.
    pub open spec fn identity(self) -> Result<IdentityView, ErrorView> {
        match self.resolution() {
            Ok(signer) => Ok(signer.identity()),
            Err(e) => Err(e),
        }
    }

    /// Resolves the configuration to a signer.
    pub fn signer(&self) -> (res: Result<ResolvedSigner, Error>)
        ensures
            result_view(res) == self.resolution(),
    {
        match self {
            SignerConfig::PrivateKey(text) => {
                match Keypair::from_base58_string(text.as_str()) {
                    Ok(keypair) => Ok(ResolvedSigner::Local(keypair)),
                    Err(e) => Err(e),
                }
            },
            SignerConfig::Mnemonic(phrase) => {
                let entropy = match phrase_to_entropy(phrase.as_str()) {
                    Ok(entropy) => entropy,
                    Err(reason) => {
                        return Err(Error::Bip39Error(reason));
                    },
                };
                match Keypair::from_seed(entropy.as_slice()) {
                    Ok(keypair) => Ok(ResolvedSigner::Local(keypair)),
                    Err(e) => Err(e),
                }
            },
            SignerConfig::GoogleKms { project_id, location, key_ring, key, version } => Ok(
                ResolvedSigner::GoogleKms(
                    KeySpecifier {
                        project_id: project_id.clone(),
                        location: location.clone(),
                        key_ring: key_ring.clone(),
                        key: key.clone(),
                        version: *version,
                    },
                ),
            ),
            SignerConfig::KeyStore { .. } => Err(Error::UnsupportedBackendKind("keystore")),
            SignerConfig::AzureKeyVault { .. } => Err(
                Error::UnsupportedBackendKind("azurekeyvault"),
            ),
            SignerConfig::AwsKms { .. } => Err(Error::UnsupportedBackendKind("awskms")),
            SignerConfig::AlicloudKms { .. } => Err(Error::UnsupportedBackendKind("alicloudkms")),
        }
    }

    /// The public identity of the configured signer.
    ///
    /// No signature is made for it. Where no signer can be resolved there
    /// is no identity either, and the error is that of the resolution.
    pub fn address(&self) -> (res: Result<Identity, Error>)
        ensures
            result_view(res) == self.identity(),
    {
        match self.signer() {
            Ok(signer) => Ok(signer.identity()),
            Err(e) => Err(e),
        }
    }
}

/// The identity of a signer is stable: whatever [`SignerConfig::address`]
/// may return for one configuration, by its contract, is one and the same
/// outcome, however often it is called.
///
/// For a key in Google Cloud KMS that outcome is the key to ask for; what
/// the service then replies is not in the hands of this library.
pub proof fn identity_is_stable(
    config: SignerConfig,
    first: Result<IdentityView, ErrorView>,
    second: Result<IdentityView, ErrorView>,
)
    requires
        config.identity() == first,
        config.identity() == second,
    ensures
        first == second,
{
}

/// A private key that is not the text of a valid key pair (because it is
/// not base58, or does not decode to 64 bytes, or its two halves do not
/// belong together) resolves to no signer and reports no identity, not
/// even part of one: both fail, with an error of the class
/// [`ErrorCategory::BackendResolution`].
pub proof fn invalid_private_key_has_no_identity(text: String)
    requires
        keypair_of_text(text@) is None,
    ensures
        SignerConfig::PrivateKey(text).resolution() == Err::<SignerView, ErrorView>(
            ErrorView::InvalidKeyFormat,
        ),
        SignerConfig::PrivateKey(text).identity() == Err::<IdentityView, ErrorView>(
            ErrorView::InvalidKeyFormat,
        ),
        ErrorView::InvalidKeyFormat.category() == ErrorCategory::BackendResolution,
{
}

/// Whatever keeps a configuration from resolving to a signer is an error
/// of the class [`ErrorCategory::BackendResolution`], and then there is no
/// identity either.
pub proof fn resolution_fails_as_backend_error(config: SignerConfig)
    ensures
        config.resolution() matches Err(e) ==> e.category() == ErrorCategory::BackendResolution
            && config.identity() == Err::<IdentityView, ErrorView>(e),
        config.resolution() is Ok ==> config.identity() is Ok,
{
}

} // verus!
