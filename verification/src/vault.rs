//! The rotation secret as it is stored in Vault, the conditions it has to
//! meet, and the requests that read and write it.

use vstd::prelude::*;
use vstd::string::*;
use crate::config::{Config, VaultConfig};
use crate::error::{missing_vault_token_text, RotationError, RotationErrorView};

verus! {

/// The secrets engine that holds the rotation secret.
pub const SECRET_MOUNT: &'static str = "secret";

/// The environment variable that holds the token for Vault.
pub const VAULT_TOKEN: &'static str = "VAULT_TOKEN";

/// The rotation secret: the user the application connects with, and the two
/// users that take turns in that role.
#[derive(Debug, PartialEq, Eq)]
pub struct VaultStructure {
    pub postgresql_active_user: String,
    pub postgresql_active_user_password: String,
    pub postgresql_user_1: String,
    pub postgresql_user_1_password: String,
    pub postgresql_user_2: String,
    pub postgresql_user_2_password: String,
}

/// The six texts of a [`VaultStructure`].
pub struct SecretView {
    pub active_user: Seq<char>,
    pub active_user_password: Seq<char>,
    pub user_1: Seq<char>,
    pub user_1_password: Seq<char>,
    pub user_2: Seq<char>,
    pub user_2_password: Seq<char>,
}

impl View for VaultStructure {
    type V = SecretView;

    open spec fn view(&self) -> SecretView {
        SecretView {
            active_user: self.postgresql_active_user@,
            active_user_password: self.postgresql_active_user_password@,
            user_1: self.postgresql_user_1@,
            user_1_password: self.postgresql_user_1_password@,
            user_2: self.postgresql_user_2@,
            user_2_password: self.postgresql_user_2_password@,
        }
    }
}

impl SecretView {
    /// The active user is one of the two rotation users.
    pub open spec fn active_is_rotation_user(self) -> bool {
        self.active_user == self.user_1 || self.active_user == self.user_2
    }

    /// The password of the active user is the one recorded for the rotation
    /// user of that name.
    pub open spec fn active_password_is_current(self) -> bool {
        &&& self.active_user == self.user_1 ==> self.active_user_password == self.user_1_password
        &&& self.active_user == self.user_2 ==> self.active_user_password == self.user_2_password
    }

    /// The two rotation users are two users.
    pub open spec fn rotation_users_differ(self) -> bool {
        self.user_1 != self.user_2
    }

    /// All that has to hold of a secret once it is in use.
    pub open spec fn well_formed(self) -> bool {
        &&& self.active_is_rotation_user()
        &&& self.active_password_is_current()
        &&& self.rotation_users_differ()
    }
}

/// The text every field holds until an operator fills the secret in.
pub open spec fn placeholder_text() -> Seq<char> {
    "TBD"@
}

/// The secret as it is first written: every field a placeholder.
pub open spec fn placeholder_secret() -> SecretView {
    SecretView {
        active_user: placeholder_text(),
        active_user_password: placeholder_text(),
        user_1: placeholder_text(),
        user_1_password: placeholder_text(),
        user_2: placeholder_text(),
        user_2_password: placeholder_text(),
    }
}

impl Clone for VaultStructure {
    fn clone(&self) -> (copy: Self)
        ensures
            copy == *self,
    {
        VaultStructure {
            postgresql_active_user: self.postgresql_active_user.clone(),
            postgresql_active_user_password: self.postgresql_active_user_password.clone(),
            postgresql_user_1: self.postgresql_user_1.clone(),
            postgresql_user_1_password: self.postgresql_user_1_password.clone(),
            postgresql_user_2: self.postgresql_user_2.clone(),
            postgresql_user_2_password: self.postgresql_user_2_password.clone(),
        }
    }
}

impl VaultStructure {
    /// The secret as it is first written: every field a placeholder.
    pub fn placeholder() -> (secret: VaultStructure)
        ensures
            secret@ == placeholder_secret(),
    {
        VaultStructure {
            postgresql_active_user: String::from_str("TBD"),
            postgresql_active_user_password: String::from_str("TBD"),
            postgresql_user_1: String::from_str("TBD"),
            postgresql_user_1_password: String::from_str("TBD"),
            postgresql_user_2: String::from_str("TBD"),
            postgresql_user_2_password: String::from_str("TBD"),
        }
    }

    /// Whether the active user is one of the two rotation users.
    pub fn has_known_active_user(&self) -> (known: bool)
        ensures
            known == self@.active_is_rotation_user(),
    {
        self.postgresql_active_user == self.postgresql_user_1 || self.postgresql_active_user
            == self.postgresql_user_2
    }
}

/// A request to read the secret at a path.
#[derive(Debug)]
pub struct SecretRead {
    pub mount: String,
    pub path: String,
}

/// A request to replace the secret at a path.
#[derive(Debug)]
pub struct SecretWrite {
    pub mount: String,
    pub path: String,
    pub secret: VaultStructure,
}

/// The text printed once the path holds the placeholder secret.
pub open spec fn initialized_text(path: Seq<char>) -> Seq<char> {
    "Successfully initialized Vault path '"@ + path + "'"@
}

/// The text shown when the placeholder secret could not be written.
pub open spec fn init_failed_text(detail: Seq<char>) -> Seq<char> {
    "Failed to create initial Vault structure: "@ + detail
}

/// The Vault side of a rotation: the server, the path of the secret and the
/// token that opens it.
#[derive(Debug)]
pub struct Vault {
    pub vault_config: VaultConfig,
    pub token: String,
}

impl Vault {
    /// Takes the settings and the token found in the environment, if any.
    /// Without a token nothing can be read or written, so there is no `Vault`.
    pub fn connect(config: &Config, token: Option<String>) -> (vault: Result<Vault, RotationError>)
        ensures
            match token {
                Some(token) => vault matches Ok(vault) && vault.vault_config == config.vault
                    && vault.token == token,
                None => vault matches Err(error) && error@ == (RotationErrorView::ConfigError {
                    message: missing_vault_token_text(),
                }),
            },
    {
        match token {
            Some(token) => Ok(Vault { vault_config: config.vault.clone(), token }),
            None => Err(RotationError::missing_vault_token()),
        }
    }

    /// The request that reads the secret.
    pub fn read_secret(&self) -> (request: SecretRead)
        ensures
            request.mount@ == SECRET_MOUNT@,
            request.path@ == self.vault_config.path@,
    {
        SecretRead { mount: String::from_str(SECRET_MOUNT), path: self.vault_config.path.clone() }
    }

    /// The request that stores `vault_structure` in place of the secret.
    pub fn write_secret(&self, vault_structure: &VaultStructure) -> (request: SecretWrite)
        ensures
            request.mount@ == SECRET_MOUNT@,
            request.path@ == self.vault_config.path@,
            request.secret@ == vault_structure@,
    {
        SecretWrite {
            mount: String::from_str(SECRET_MOUNT),
            path: self.vault_config.path.clone(),
            secret: vault_structure.clone(),
        }
    }

    /// The request that gives the path its first content: the placeholder
    /// secret. Whatever the path held before is replaced.
    pub fn init_secret_path(&self) -> (request: SecretWrite)
        ensures
            request.mount@ == SECRET_MOUNT@,
            request.path@ == self.vault_config.path@,
            request.secret@ == placeholder_secret(),
    {
        let vault_structure = VaultStructure::placeholder();
        self.write_secret(&vault_structure)
    }

    /// The text to print once the placeholder secret is written.
    pub fn initialized_message(&self) -> (text: String)
        ensures
            text@ == initialized_text(self.vault_config.path@),
    {
        let mut text = String::from_str("Successfully initialized Vault path '");
        text.append(self.vault_config.path.as_str());
        text.append("'");
        text
    }

    /// The failure to report when the placeholder secret could not be written.
    pub fn init_failed(detail: &str) -> (error: RotationError)
        ensures
            error@ == (RotationErrorView::SecretStoreError { message: init_failed_text(detail@) }),
    {
        let mut message = String::from_str("Failed to create initial Vault structure: ");
        message.append(detail);
        RotationError::SecretStoreError { message }
    }
}

/// A freshly initialised secret is not yet fit for a rotation: its active
/// user is a rotation user in name only, and its two rotation users are one.
pub proof fn law_placeholder_secret(secret: SecretView)
    requires
        secret == placeholder_secret(),
    ensures
        secret.active_user == "TBD"@,
        secret.active_user_password == "TBD"@,
        secret.user_1 == "TBD"@,
        secret.user_1_password == "TBD"@,
        secret.user_2 == "TBD"@,
        secret.user_2_password == "TBD"@,
        !secret.rotation_users_differ(),
        !secret.well_formed(),
{
}

} // verus!
