//! The descriptor that selects and parameterises the signer backend.
use vstd::prelude::*;

verus! {

/// Which backend holds the key, and what it needs to get at it.
///
/// One value is fixed when the process starts and never changes.
#[derive(Clone, Debug, PartialEq, Eq)]
pub enum SignerConfig {
    /// A key pair written as base58 text.
    PrivateKey(String),
    /// A mnemonic phrase from which the key is derived.
    Mnemonic(String),
    /// An encrypted key store on disk.
    KeyStore { path: String, password: String },
    /// A key in Azure Key Vault.
    AzureKeyVault { key: String, secret: String },
    /// A key in AWS KMS.
    AwsKms { key: String },
    /// A key version in Google Cloud KMS.
    GoogleKms { project_id: String, location: String, key_ring: String, key: String, version: u64 },
    /// A key in Alibaba Cloud KMS.
    AlicloudKms { key: String, secret: String },
}

/// The mathematical value of a [`SignerConfig`].
pub enum SignerConfigView {
    PrivateKey(Seq<char>),
    Mnemonic(Seq<char>),
    KeyStore { path: Seq<char>, password: Seq<char> },
    AzureKeyVault { key: Seq<char>, secret: Seq<char> },
    AwsKms { key: Seq<char> },
    GoogleKms {
        project_id: Seq<char>,
        location: Seq<char>,
        key_ring: Seq<char>,
        key: Seq<char>,
        version: u64,
    },
    AlicloudKms { key: Seq<char>, secret: Seq<char> },
}

impl View for SignerConfig {
    type V = SignerConfigView;

    open spec fn view(&self) -> SignerConfigView {
        match self {
            SignerConfig::PrivateKey(key) => SignerConfigView::PrivateKey(key@),
            SignerConfig::Mnemonic(phrase) => SignerConfigView::Mnemonic(phrase@),
            SignerConfig::KeyStore { path, password } => SignerConfigView::KeyStore {
                path: path@,
                password: password@,
            },
            SignerConfig::AzureKeyVault { key, secret } => SignerConfigView::AzureKeyVault {
                key: key@,
                secret: secret@,
            },
            SignerConfig::AwsKms { key } => SignerConfigView::AwsKms { key: key@ },
            SignerConfig::GoogleKms {
                project_id,
                location,
                key_ring,
                key,
                version,
            } => SignerConfigView::GoogleKms {
                project_id: project_id@,
                location: location@,
                key_ring: key_ring@,
                key: key@,
                version: *version,
            },
            SignerConfig::AlicloudKms { key, secret } => SignerConfigView::AlicloudKms {
                key: key@,
                secret: secret@,
            },
        }
    }
}

/// What stands in the place of a secret when a configuration is shown.
pub open spec fn redaction() -> Seq<char> {
    "[redacted]"@
}

impl SignerConfigView {
    /// The configuration with every secret replaced by [`redaction`]: the
    /// private key, the mnemonic phrase, the key store's password and the
    /// cloud secrets. What only names a key stays.
    pub open spec fn redacted(self) -> SignerConfigView {
        match self {
            SignerConfigView::PrivateKey(_) => SignerConfigView::PrivateKey(redaction()),
            SignerConfigView::Mnemonic(_) => SignerConfigView::Mnemonic(redaction()),
            SignerConfigView::KeyStore { path, password } => SignerConfigView::KeyStore {
                path,
                password: redaction(),
            },
            SignerConfigView::AzureKeyVault { key, secret } => SignerConfigView::AzureKeyVault {
                key,
                secret: redaction(),
            },
            SignerConfigView::AlicloudKms { key, secret } => SignerConfigView::AlicloudKms {
                key,
                secret: redaction(),
            },
            SignerConfigView::AwsKms { .. } | SignerConfigView::GoogleKms { .. } => self,
        }
    }
}

impl SignerConfig {
    /// A copy of the configuration that can be shown or written down: it
    /// holds no secret.
    pub fn redacted(&self) -> (shown: SignerConfig)
        ensures
            shown@ == self@.redacted(),
    {
        match self {
            SignerConfig::PrivateKey(_) => SignerConfig::PrivateKey(String::from_str("[redacted]")),
            SignerConfig::Mnemonic(_) => SignerConfig::Mnemonic(String::from_str("[redacted]")),
            SignerConfig::KeyStore { path, .. } => SignerConfig::KeyStore {
                path: path.clone(),
                password: String::from_str("[redacted]"),
            },
            SignerConfig::AzureKeyVault { key, .. } => SignerConfig::AzureKeyVault {
                key: key.clone(),
                secret: String::from_str("[redacted]"),
            },
            SignerConfig::AlicloudKms { key, .. } => SignerConfig::AlicloudKms {
                key: key.clone(),
                secret: String::from_str("[redacted]"),
            },
            SignerConfig::AwsKms { key } => SignerConfig::AwsKms { key: key.clone() },
            SignerConfig::GoogleKms {
                project_id,
                location,
                key_ring,
                key,
                version,
            } => SignerConfig::GoogleKms {
                project_id: project_id.clone(),
                location: location.clone(),
                key_ring: key_ring.clone(),
                key: key.clone(),
                version: *version,
            },
        }
    }
}

/// What is shown of a configuration does not depend on its secrets: two
/// configurations that differ in their secrets alone are shown alike.
pub proof fn redaction_hides_secrets(a: SignerConfigView, b: SignerConfigView)
    requires
        match (a, b) {
            (SignerConfigView::PrivateKey(_), SignerConfigView::PrivateKey(_)) => true,
            (SignerConfigView::Mnemonic(_), SignerConfigView::Mnemonic(_)) => true,
            (
                SignerConfigView::KeyStore { path: p, .. },
                SignerConfigView::KeyStore { path: q, .. },
            ) => p == q,
            (
                SignerConfigView::AzureKeyVault { key: p, .. },
                SignerConfigView::AzureKeyVault { key: q, .. },
            ) => p == q,
            (
                SignerConfigView::AlicloudKms { key: p, .. },
                SignerConfigView::AlicloudKms { key: q, .. },
            ) => p == q,
            _ => a == b,
        },
    ensures
        a.redacted() == b.redacted(),
{
}

} // verus!
