//! The settings given at start-up, and how they become a [`SignerConfig`].
use crate::error::{Error, ErrorCategory};
use crate::signer::SignerConfig;
use vstd::prelude::*;

verus! {

/// The settings as they were given on the command line or in environment
/// variables.
#[derive(Clone, Debug)]
pub struct SignerOpts {
    /// Whether diagnostics are written for a human reader.
    pub debug: bool,
    /// The name of the signer type.
    pub _type: String,
    pub private_key: Option<String>,
    pub mnemonic: Option<String>,
    pub keystore_path: Option<String>,
    pub keystore_password: Option<String>,
    pub azurekeyvault_key: Option<String>,
    pub awskms_key: Option<String>,
    pub gcpkms_project_id: Option<String>,
    pub gcpkms_location: Option<String>,
    pub gcpkms_key_ring: Option<String>,
    pub gcpkms_key: Option<String>,
    pub gcpkms_version: Option<u64>,
}

impl SignerOpts {
    /// The signer configuration that these settings describe.
    ///
    /// The type name selects the variant; each setting that the variant needs
    /// must be present, and the first one missing, in the order of the
    /// variant's fields, is the one reported. A setting is reported by the
    /// name of its command-line flag, except the key store's password,
    /// which is reported as `keytore.password`.
    pub open spec fn spec_try_into(self) -> Result<SignerConfig, Error> {
        if self._type@ == "private_key"@ {
            match self.private_key {
                Some(key) => Ok(SignerConfig::PrivateKey(key)),
                None => Err(Error::RequireConfigKeyNotFound("private_key")),
            }
        } else if self._type@ == "mnemonic"@ {
            match self.mnemonic {
                Some(phrase) => Ok(SignerConfig::Mnemonic(phrase)),
                None => Err(Error::RequireConfigKeyNotFound("mnemonic")),
            }
        } else if self._type@ == "keystore"@ {
            match (self.keystore_path, self.keystore_password) {
                (None, _) => Err(Error::RequireConfigKeyNotFound("keystore.path")),
                (Some(_), None) => Err(Error::RequireConfigKeyNotFound("keytore.password")),
                (Some(path), Some(password)) => Ok(SignerConfig::KeyStore { path, password }),
            }
        } else if self._type@ == "gcpkms"@ {
            match (
                self.gcpkms_project_id,
                self.gcpkms_location,
                self.gcpkms_key_ring,
                self.gcpkms_key,
                self.gcpkms_version,
            ) {
                (None, _, _, _, _) => Err(Error::RequireConfigKeyNotFound("gcpkms.project_id")),
                (Some(_), None, _, _, _) => Err(Error::RequireConfigKeyNotFound("gcpkms.location")),
                (Some(_), Some(_), None, _, _) => Err(
                    Error::RequireConfigKeyNotFound("gcpkms.key_ring"),
                ),
                (Some(_), Some(_), Some(_), None, _) => Err(
                    Error::RequireConfigKeyNotFound("gcpkms.key"),
                ),
                (Some(_), Some(_), Some(_), Some(_), None) => Err(
                    Error::RequireConfigKeyNotFound("gcpkms.version"),
                ),
                (Some(project_id), Some(location), Some(key_ring), Some(key), Some(version)) => Ok(
                    SignerConfig::GoogleKms { project_id, location, key_ring, key, version },
                ),
            }
        } else {
            Err(Error::InvalidSignerType(self._type))
        }
    }

    /// Turns the settings into the signer configuration, or says which
    /// setting is missing or that the type name is unknown.
    pub fn try_into(self) -> (res: Result<SignerConfig, Error>)
        ensures
            res == self.spec_try_into(),
    {
        if is_name(&self._type, "private_key") {
            match self.private_key {
                Some(key) => Ok(SignerConfig::PrivateKey(key)),
                None => Err(Error::RequireConfigKeyNotFound("private_key")),
            }
        } else if is_name(&self._type, "mnemonic") {
            match self.mnemonic {
                Some(phrase) => Ok(SignerConfig::Mnemonic(phrase)),
                None => Err(Error::RequireConfigKeyNotFound("mnemonic")),
            }
        } else if is_name(&self._type, "keystore") {
            let path = match self.keystore_path {
                Some(p) => p,
                None => { return Err(Error::RequireConfigKeyNotFound("keystore.path")); },
            };
            let password = match self.keystore_password {
                Some(p) => p,
                None => { return Err(Error::RequireConfigKeyNotFound("keytore.password")); },
            };
            Ok(SignerConfig::KeyStore { path, password })
        } else if is_name(&self._type, "gcpkms") {
            let project_id = match self.gcpkms_project_id {
                Some(v) => v,
                None => { return Err(Error::RequireConfigKeyNotFound("gcpkms.project_id")); },
            };
            let location = match self.gcpkms_location {
                Some(v) => v,
                None => { return Err(Error::RequireConfigKeyNotFound("gcpkms.location")); },
            };
            let key_ring = match self.gcpkms_key_ring {
                Some(v) => v,
                None => { return Err(Error::RequireConfigKeyNotFound("gcpkms.key_ring")); },
            };
            let key = match self.gcpkms_key {
                Some(v) => v,
                None => { return Err(Error::RequireConfigKeyNotFound("gcpkms.key")); },
            };
            let version = match self.gcpkms_version {
                Some(v) => v,
                None => { return Err(Error::RequireConfigKeyNotFound("gcpkms.version")); },
            };
            Ok(SignerConfig::GoogleKms { project_id, location, key_ring, key, version })
        } else {
            Err(Error::InvalidSignerType(self._type))
        }
    }
}

/// Whether `text` is exactly `name`.
fn is_name(text: &String, name: &str) -> (same: bool)
    ensures
        same == (text@ == name@),
{
    *text == String::from_str(name)
}

impl SignerOpts {
    /// Whether a setting that the named signer type needs is missing.
    pub open spec fn lacks_required(self) -> bool {
        ||| self._type@ == "private_key"@ && self.private_key is None
        ||| self._type@ == "mnemonic"@ && self.mnemonic is None
        ||| self._type@ == "keystore"@ && (self.keystore_path is None
            || self.keystore_password is None)
        ||| self._type@ == "gcpkms"@ && (self.gcpkms_project_id is None
            || self.gcpkms_location is None || self.gcpkms_key_ring is None
            || self.gcpkms_key is None || self.gcpkms_version is None)
    }
}

/// The four type names are four different texts.
pub proof fn type_names_differ()
    ensures
        "private_key"@ != "mnemonic"@,
        "private_key"@ != "keystore"@,
        "private_key"@ != "gcpkms"@,
        "mnemonic"@ != "keystore"@,
        "mnemonic"@ != "gcpkms"@,
        "keystore"@ != "gcpkms"@,
{
    reveal_strlit("private_key");
    reveal_strlit("mnemonic");
    reveal_strlit("keystore");
    reveal_strlit("gcpkms");
    assert("private_key"@.len() == 11);
    assert("mnemonic"@.len() == 8);
    assert("keystore"@.len() == 8);
    assert("gcpkms"@.len() == 6);
    assert("mnemonic"@[0] == 'm');
    assert("keystore"@[0] == 'k');
}

/// Settings that lack what their signer type needs give no configuration:
/// they fail with the error that names a missing setting, which is of the
/// class [`ErrorCategory::Configuration`].
pub proof fn missing_setting_is_refused(opts: SignerOpts)
    requires
        opts.lacks_required(),
    ensures
        opts.spec_try_into() matches Err(e) && e is RequireConfigKeyNotFound && e@.category()
            == ErrorCategory::Configuration,
{
    type_names_differ();
}

/// A key store configured without its password is refused, and the error
/// names the password.
pub proof fn keystore_needs_password(opts: SignerOpts)
    requires
        opts._type@ == "keystore"@,
        opts.keystore_path is Some,
        opts.keystore_password is None,
    ensures
        opts.spec_try_into() == Err::<SignerConfig, Error>(
            Error::RequireConfigKeyNotFound("keytore.password"),
        ),
{
    type_names_differ();
}

/// A type name that is none of the four known gives no configuration: it
/// fails with the error that holds the name.
pub proof fn unknown_type_is_refused(opts: SignerOpts)
    requires
        opts._type@ != "private_key"@,
        opts._type@ != "mnemonic"@,
        opts._type@ != "keystore"@,
        opts._type@ != "gcpkms"@,
    ensures
        opts.spec_try_into() == Err::<SignerConfig, Error>(Error::InvalidSignerType(opts._type)),
{
}

} // verus!
