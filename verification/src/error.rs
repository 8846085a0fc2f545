//! Why a rotation stops, and what the operator is told.

use vstd::prelude::*;
use vstd::string::*;

verus! {

/// Which of the two writes of the secret a failure belongs to.
#[derive(Clone, Copy, Debug, PartialEq, Eq)]
pub enum WriteStage {
    /// The write that makes the rotated user the active one.
    KickOff,
    /// The write that records the new password of the formerly active user.
    Final,
}

/// Every way a rotation can fail. All of them are fatal: nothing is retried
/// and nothing is rolled back.
#[derive(Debug, PartialEq, Eq)]
pub enum RotationError {
    /// The configuration or the environment is incomplete.
    ConfigError { message: String },
    /// The secret store could not be read or written.
    SecretStoreError { message: String },
    /// The active user of the secret is neither of its two rotation users.
    InvariantViolation,
    /// PostgreSQL refused the connection or the password change.
    DatabaseError { message: String },
    /// Argo CD refused a request or could not be reached.
    DeploymentSyncError { message: String },
    /// The application did not reach the awaited status in time.
    DeploymentTimeout,
    /// The secret could not be written after a password had been changed in
    /// the database, so the two disagree.
    InconsistentWrite { stage: WriteStage, detail: String },
    /// A result was reported that the rotation had not asked for.
    UnexpectedEvent,
}

/// A [`RotationError`] with its texts as sequences of characters.
pub enum RotationErrorView {
    ConfigError { message: Seq<char> },
    SecretStoreError { message: Seq<char> },
    InvariantViolation,
    DatabaseError { message: Seq<char> },
    DeploymentSyncError { message: Seq<char> },
    DeploymentTimeout,
    InconsistentWrite { stage: WriteStage, detail: Seq<char> },
    UnexpectedEvent,
}

impl View for RotationError {
    type V = RotationErrorView;

    open spec fn view(&self) -> RotationErrorView {
        match self {
            RotationError::ConfigError { message } => RotationErrorView::ConfigError {
                message: message@,
            },
            RotationError::SecretStoreError { message } => RotationErrorView::SecretStoreError {
                message: message@,
            },
            RotationError::InvariantViolation => RotationErrorView::InvariantViolation,
            RotationError::DatabaseError { message } => RotationErrorView::DatabaseError {
                message: message@,
            },
            RotationError::DeploymentSyncError { message } => RotationErrorView::DeploymentSyncError {
                message: message@,
            },
            RotationError::DeploymentTimeout => RotationErrorView::DeploymentTimeout,
            RotationError::InconsistentWrite { stage, detail } => RotationErrorView::InconsistentWrite {
                stage: *stage,
                detail: detail@,
            },
            RotationError::UnexpectedEvent => RotationErrorView::UnexpectedEvent,
        }
    }
}

/// The text shown when the token of the secret store is not set.
pub open spec fn missing_vault_token_text() -> Seq<char> {
    "Missing VAULT_TOKEN environment variable"@
}

/// The text shown when the active user matches neither rotation user.
pub open spec fn invariant_violation_text() -> Seq<char> {
    "Failed to detect active user - did neither match user 1 nor 2"@
}

/// The text shown when the application did not reach the awaited status.
pub open spec fn timeout_text() -> Seq<char> {
    "Timeout reached while waiting for ArgoCD sync status"@
}

/// The text shown when the secret at `path` could not be read.
pub open spec fn unreadable_path_text(path: Seq<char>) -> Seq<char> {
    "Failed to read path '"@ + path + "' - did you init Vault?"@
}

/// The text shown when a write of the secret failed.
pub open spec fn inconsistent_write_text(stage: WriteStage, detail: Seq<char>) -> Seq<char> {
    match stage {
        WriteStage::KickOff =>
            "Failed to kick-off rotation workflow by switching active user - Vault is in an invalid state: "@
                + detail,
        WriteStage::Final =>
            "Failed to update PASSIVE user password after sync - Vault is in an invalid state: "@
                + detail,
    }
}

/// The text shown when a result arrived that was not asked for.
pub open spec fn unexpected_event_text() -> Seq<char> {
    "Unexpected result for the current step of the rotation"@
}

impl RotationErrorView {
    /// The diagnostic for the operator.
    pub open spec fn message(self) -> Seq<char> {
        match self {
            RotationErrorView::ConfigError { message } => message,
            RotationErrorView::SecretStoreError { message } => message,
            RotationErrorView::InvariantViolation => invariant_violation_text(),
            RotationErrorView::DatabaseError { message } => message,
            RotationErrorView::DeploymentSyncError { message } => message,
            RotationErrorView::DeploymentTimeout => timeout_text(),
            RotationErrorView::InconsistentWrite { stage, detail } => inconsistent_write_text(
                stage,
                detail,
            ),
            RotationErrorView::UnexpectedEvent => unexpected_event_text(),
        }
    }
}

impl RotationError {
    /// The failure reported when the token of the secret store is not set.
    pub fn missing_vault_token() -> (error: RotationError)
        ensures
            error@ == (RotationErrorView::ConfigError { message: missing_vault_token_text() }),
    {
        RotationError::ConfigError {
            message: String::from_str("Missing VAULT_TOKEN environment variable"),
        }
    }

    /// The failure reported when the secret at `path` could not be read.
    pub fn unreadable_path(path: &str) -> (error: RotationError)
        ensures
            error@ == (RotationErrorView::SecretStoreError { message: unreadable_path_text(path@) }),
    {
        let mut message = String::from_str("Failed to read path '");
        message.append(path);
        message.append("' - did you init Vault?");
        RotationError::SecretStoreError { message }
    }

    /// The diagnostic for the operator.
    pub fn message(&self) -> (text: String)
        ensures
            text@ == self@.message(),
    {
        match self {
            RotationError::ConfigError { message } => message.clone(),
            RotationError::SecretStoreError { message } => message.clone(),
            RotationError::InvariantViolation => String::from_str(
                "Failed to detect active user - did neither match user 1 nor 2",
            ),
            RotationError::DatabaseError { message } => message.clone(),
            RotationError::DeploymentSyncError { message } => message.clone(),
            RotationError::DeploymentTimeout => String::from_str(
                "Timeout reached while waiting for ArgoCD sync status",
            ),
            RotationError::InconsistentWrite { stage, detail } => {
                let mut text = match stage {
                    WriteStage::KickOff => String::from_str(
                        "Failed to kick-off rotation workflow by switching active user - Vault is in an invalid state: ",
                    ),
                    WriteStage::Final => String::from_str(
                        "Failed to update PASSIVE user password after sync - Vault is in an invalid state: ",
                    ),
                };
                text.append(detail.as_str());
                text
            },
            RotationError::UnexpectedEvent => String::from_str(
                "Unexpected result for the current step of the rotation",
            ),
        }
    }

}

impl Clone for RotationError {
    fn clone(&self) -> (copy: RotationError)
        ensures
            copy == *self,
    {
        match self {
            RotationError::ConfigError { message } => RotationError::ConfigError {
                message: message.clone(),
            },
            RotationError::SecretStoreError { message } => RotationError::SecretStoreError {
                message: message.clone(),
            },
            RotationError::InvariantViolation => RotationError::InvariantViolation,
            RotationError::DatabaseError { message } => RotationError::DatabaseError {
                message: message.clone(),
            },
            RotationError::DeploymentSyncError { message } => RotationError::DeploymentSyncError {
                message: message.clone(),
            },
            RotationError::DeploymentTimeout => RotationError::DeploymentTimeout,
            RotationError::InconsistentWrite { stage, detail } => RotationError::InconsistentWrite {
                stage: *stage,
                detail: detail.clone(),
            },
            RotationError::UnexpectedEvent => RotationError::UnexpectedEvent,
        }
    }
}

} // verus!
