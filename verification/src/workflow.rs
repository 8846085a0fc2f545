//! The rotation itself: the passive user gets a new password, the two users
//! change roles, the application is rolled out with the new active user, and
//! the user that was active gets a new password as well.

use vstd::prelude::*;
use vstd::string::*;
use crate::config::Config;
use crate::error::{unreadable_path_text, RotationError, RotationErrorView, WriteStage};
use crate::password::{generate_random_password, is_alphanumeric_text, is_password};
use crate::vault::{SecretRead, SecretView, SecretWrite, VaultStructure, SECRET_MOUNT};

verus! {

impl SecretView {
    /// The name of the rotation user the application does not connect with.
    /// The first rotation user is taken to be the active one whenever it
    /// bears the active user's name.
    pub open spec fn passive_user(self) -> Seq<char> {
        if self.active_user == self.user_1 {
            self.user_2
        } else {
            self.user_1
        }
    }

    /// The password recorded for the passive user.
    pub open spec fn passive_user_password(self) -> Seq<char> {
        if self.active_user == self.user_1 {
            self.user_2_password
        } else {
            self.user_1_password
        }
    }

    /// The secret with `password` recorded for the passive user.
    pub open spec fn with_passive_user_password(self, password: Seq<char>) -> SecretView {
        if self.active_user == self.user_1 {
            SecretView { user_2_password: password, ..self }
        } else {
            SecretView { user_1_password: password, ..self }
        }
    }

    /// The secret with the passive user, and the password recorded for it,
    /// in the place of the active user.
    pub open spec fn switched(self) -> SecretView {
        SecretView {
            active_user: self.passive_user(),
            active_user_password: self.passive_user_password(),
            ..self
        }
    }

    /// The secret as it is written first: the passive user has the password
    /// `first` and is the active user now.
    pub open spec fn handed_over(self, first: Seq<char>) -> SecretView {
        self.with_passive_user_password(first).switched()
    }

    /// The secret as it is written last: after the hand-over, the user that
    /// was active has the password `second`.
    pub open spec fn rotated(self, first: Seq<char>, second: Seq<char>) -> SecretView {
        self.handed_over(first).with_passive_user_password(second)
    }
}

/// Makes the passive user the active one, with the password recorded for it.
pub fn switch_active_user(secret: &mut VaultStructure)
    ensures
        final(secret)@ == old(secret)@.switched(),
{
    if secret.postgresql_active_user == secret.postgresql_user_1 {
        secret.postgresql_active_user = secret.postgresql_user_2.clone();
        secret.postgresql_active_user_password = secret.postgresql_user_2_password.clone();
    } else {
        secret.postgresql_active_user = secret.postgresql_user_1.clone();
        secret.postgresql_active_user_password = secret.postgresql_user_1_password.clone();
    }
}

/// A text as it stands between single quotes in a statement: every single
/// quote is doubled.
pub open spec fn quoted(text: Seq<char>) -> Seq<char>
    decreases text.len(),
{
    if text.len() == 0 {
        Seq::empty()
    } else if text.last() == '\'' {
        quoted(text.drop_last()) + seq!['\'', '\'']
    } else {
        quoted(text.drop_last()).push(text.last())
    }
}

/// The statement that gives `username` the password `password`.
pub open spec fn alter_role_statement(username: Seq<char>, password: Seq<char>) -> Seq<char> {
    "ALTER ROLE "@ + username + " WITH PASSWORD '"@ + quoted(password) + "'"@
}

/// The text shown when the statement was refused.
pub open spec fn update_failed_text(username: Seq<char>, detail: Seq<char>) -> Seq<char> {
    "Failed to update password of '"@ + username + "': "@ + detail
}

/// A change of password for the caller to make in PostgreSQL: connect as
/// `username` with `password`, then execute `statement`. A user may change
/// its own password, so the role of the statement is the connected user.
#[derive(Debug)]
pub struct PasswordChange {
    pub username: String,
    pub password: String,
    pub new_password: String,
    pub statement: String,
}

pub struct PasswordChangeView {
    pub username: Seq<char>,
    pub password: Seq<char>,
    pub new_password: Seq<char>,
    pub statement: Seq<char>,
}

impl View for PasswordChange {
    type V = PasswordChangeView;

    open spec fn view(&self) -> PasswordChangeView {
        PasswordChangeView {
            username: self.username@,
            password: self.password@,
            new_password: self.new_password@,
            statement: self.statement@,
        }
    }
}

/// The change that gives the passive user of `secret` the password `fresh`.
pub open spec fn passive_user_change(secret: SecretView, fresh: Seq<char>) -> PasswordChangeView {
    PasswordChangeView {
        username: secret.passive_user(),
        password: secret.passive_user_password(),
        new_password: fresh,
        statement: alter_role_statement(secret.passive_user(), fresh),
    }
}

/// Appends `text` to `out`, every single quote doubled.
fn push_quoted(out: &mut String, text: &str)
    ensures
        final(out)@ == old(out)@ + quoted(text@),
{
    let length = text.unicode_len();
    let mut done: usize = 0;
    while done < length
        invariant
            done <= length,
            length == text@.len(),
            out@ == old(out)@ + quoted(text@.subrange(0, done as int)),
        decreases length - done,
    {
        let c = text.get_char(done);
        proof {
            let before = text@.subrange(0, done as int);
            let after = text@.subrange(0, done + 1);
            assert(after.drop_last() == before);
            assert(after.last() == c);
        }
        if c == '\'' {
            out.push('\'');
            out.push('\'');
        } else {
            out.push(c);
        }
        done = done + 1;
    }
    proof {
        assert(text@.subrange(0, length as int) == text@);
    }
}

impl PasswordChange {
    /// The failure to report when PostgreSQL refused the statement.
    pub fn update_failed(&self, detail: &str) -> (error: RotationError)
        ensures
            error@ == (RotationErrorView::DatabaseError {
                message: update_failed_text(self.username@, detail@),
            }),
    {
        let mut message = String::from_str("Failed to update password of '");
        message.append(self.username.as_str());
        message.append("': ");
        message.append(detail);
        RotationError::DatabaseError { message }
    }
}

/// Records `new_password` for the passive user of `secret`, and returns the
/// change that is to be made in PostgreSQL for the record to be true: the
/// passive user connects with the password it had so far and gives itself
/// the new one.
pub fn update_passive_user_postgres_password(
    secret: &mut VaultStructure,
    new_password: String,
) -> (change: PasswordChange)
    ensures
        final(secret)@ == old(secret)@.with_passive_user_password(new_password@),
        change@ == passive_user_change(old(secret)@, new_password@),
{
    let first_is_active = secret.postgresql_active_user == secret.postgresql_user_1;
    let (passive_user, passive_user_password) = if first_is_active {
        let current_password = secret.postgresql_user_2_password.clone();
        secret.postgresql_user_2_password = new_password.clone();
        (secret.postgresql_user_2.clone(), current_password)
    } else {
        let current_password = secret.postgresql_user_1_password.clone();
        secret.postgresql_user_1_password = new_password.clone();
        (secret.postgresql_user_1.clone(), current_password)
    };
    let mut statement = String::from_str("ALTER ROLE ");
    statement.append(passive_user.as_str());
    statement.append(" WITH PASSWORD '");
    push_quoted(&mut statement, new_password.as_str());
    statement.append("'");
    PasswordChange {
        username: passive_user,
        password: passive_user_password,
        new_password,
        statement,
    }
}

/// A text of letters and digits stands between quotes as it is.
pub proof fn law_alphanumeric_needs_no_quoting(text: Seq<char>)
    requires
        is_alphanumeric_text(text),
    ensures
        quoted(text) == text,
    decreases text.len(),
{
    if text.len() > 0 {
        law_alphanumeric_needs_no_quoting(text.drop_last());
        assert(quoted(text) == text);
    }
}


/// Why the secret could not be read.
#[derive(Clone, Copy, Debug, PartialEq, Eq)]
pub enum ReadFailure {
    /// Nothing is stored at the path.
    NotFound,
    /// The secret store could not be reached, or refused the token.
    Unavailable,
}

/// How far a rotation has come. The secret a stage holds is the secret as
/// the rotation knows it at that point, which is ahead of Vault between a
/// change in PostgreSQL and the write that follows it.
#[derive(Debug)]
pub enum Stage {
    /// The secret has been asked for.
    Start,
    /// The secret is fit for a rotation; the first change of password has
    /// been asked for.
    Validated { secret: VaultStructure },
    /// The passive user has its new password in PostgreSQL; the write of the
    /// secret with the roles changed has been asked for.
    PassiveRotated { secret: VaultStructure },
    /// Vault names the new active user; the sync has been asked for.
    SwapWritten { secret: VaultStructure },
    /// Argo CD has taken up the sync; the wait for the rollout has been
    /// asked for.
    SyncTriggered { secret: VaultStructure },
    /// The application runs with the new active user; the second change of
    /// password has been asked for.
    AppReconciled { secret: VaultStructure },
    /// The user that was active has its new password in PostgreSQL; the
    /// last write of the secret has been asked for.
    PreviousRotated { secret: VaultStructure },
    /// Both users have new passwords, and Vault says so.
    Done { secret: VaultStructure },
    /// The rotation has stopped where it stood.
    Failed,
}

pub enum StageView {
    Start,
    Validated { secret: SecretView },
    PassiveRotated { secret: SecretView },
    SwapWritten { secret: SecretView },
    SyncTriggered { secret: SecretView },
    AppReconciled { secret: SecretView },
    PreviousRotated { secret: SecretView },
    Done { secret: SecretView },
    Failed,
}

impl View for Stage {
    type V = StageView;

    open spec fn view(&self) -> StageView {
        match self {
            Stage::Start => StageView::Start,
            Stage::Validated { secret } => StageView::Validated { secret: secret@ },
            Stage::PassiveRotated { secret } => StageView::PassiveRotated { secret: secret@ },
            Stage::SwapWritten { secret } => StageView::SwapWritten { secret: secret@ },
            Stage::SyncTriggered { secret } => StageView::SyncTriggered { secret: secret@ },
            Stage::AppReconciled { secret } => StageView::AppReconciled { secret: secret@ },
            Stage::PreviousRotated { secret } => StageView::PreviousRotated { secret: secret@ },
            Stage::Done { secret } => StageView::Done { secret: secret@ },
            Stage::Failed => StageView::Failed,
        }
    }
}

/// A rotation under way.
#[derive(Debug)]
pub struct Rotation {
    /// The path of the secret in Vault.
    pub path: String,
    /// The length of the passwords to generate.
    pub password_length: usize,
    pub stage: Stage,
}

pub struct RotationView {
    pub path: Seq<char>,
    pub password_length: nat,
    pub stage: StageView,
}

impl View for Rotation {
    type V = RotationView;

    open spec fn view(&self) -> RotationView {
        RotationView {
            path: self.path@,
            password_length: self.password_length as nat,
            stage: self.stage@,
        }
    }
}

/// What the caller reports back to a rotation: how the last request went.
#[derive(Debug)]
pub enum Event {
    SecretRead(Result<VaultStructure, ReadFailure>),
    /// The failure, if any, is the one [`crate::database::PostgresClient`]
    /// or [`PasswordChange`] made of the driver's words.
    PasswordChanged(Result<(), RotationError>),
    /// The failure, if any, in the words of the secret store.
    SecretWritten(Result<(), String>),
    /// The failure, if any, is the one [`crate::argo_cd::ArgoCD::sync`] or
    /// the wait that follows it ended with.
    SyncFinished(Result<(), RotationError>),
    /// The failure, if any, is the one the wait ended with.
    RolloutFinished(Result<(), RotationError>),
}

pub enum EventView {
    SecretRead(Result<SecretView, ReadFailure>),
    PasswordChanged(Result<(), RotationErrorView>),
    SecretWritten(Result<(), Seq<char>>),
    SyncFinished(Result<(), RotationErrorView>),
    RolloutFinished(Result<(), RotationErrorView>),
}

/// The view of the outcome of a request that hands nothing back.
pub open spec fn outcome_view(outcome: Result<(), RotationError>) -> Result<(), RotationErrorView> {
    match outcome {
        Ok(_) => Ok(()),
        Err(error) => Err(error@),
    }
}

impl View for Event {
    type V = EventView;

    open spec fn view(&self) -> EventView {
        match self {
            Event::SecretRead(outcome) => EventView::SecretRead(
                match outcome {
                    Ok(secret) => Ok(secret@),
                    Err(failure) => Err(*failure),
                },
            ),
            Event::PasswordChanged(outcome) => EventView::PasswordChanged(outcome_view(*outcome)),
            Event::SecretWritten(outcome) => EventView::SecretWritten(
                match outcome {
                    Ok(_) => Ok(()),
                    Err(detail) => Err(detail@),
                },
            ),
            Event::SyncFinished(outcome) => EventView::SyncFinished(outcome_view(*outcome)),
            Event::RolloutFinished(outcome) => EventView::RolloutFinished(outcome_view(*outcome)),
        }
    }
}

/// What a rotation asks the caller to do next.
#[derive(Debug)]
pub enum Action {
    ReadSecret(SecretRead),
    ChangePassword(PasswordChange),
    WriteSecret(SecretWrite),
    /// Trigger a sync of the application and wait until it shows as running.
    Sync,
    /// Wait until the application is fully reconciled.
    WaitForRollout,
    /// Report success: nothing is left to do.
    Finish,
    /// Report the failure and stop.
    Fail(RotationError),
}

pub struct SecretReadView {
    pub mount: Seq<char>,
    pub path: Seq<char>,
}

pub struct SecretWriteView {
    pub mount: Seq<char>,
    pub path: Seq<char>,
    pub secret: SecretView,
}

pub enum ActionView {
    ReadSecret(SecretReadView),
    ChangePassword(PasswordChangeView),
    WriteSecret(SecretWriteView),
    Sync,
    WaitForRollout,
    Finish,
    Fail(RotationErrorView),
}

impl View for Action {
    type V = ActionView;

    open spec fn view(&self) -> ActionView {
        match self {
            Action::ReadSecret(request) => ActionView::ReadSecret(
                SecretReadView { mount: request.mount@, path: request.path@ },
            ),
            Action::ChangePassword(change) => ActionView::ChangePassword(change@),
            Action::WriteSecret(request) => ActionView::WriteSecret(
                SecretWriteView {
                    mount: request.mount@,
                    path: request.path@,
                    secret: request.secret@,
                },
            ),
            Action::Sync => ActionView::Sync,
            Action::WaitForRollout => ActionView::WaitForRollout,
            Action::Finish => ActionView::Finish,
            Action::Fail(error) => ActionView::Fail(error@),
        }
    }
}

/// The text printed when a rotation is complete.
pub open spec fn success_text() -> Seq<char> {
    "Successfully rotated all secrets"@
}

impl RotationView {
    /// This rotation at another stage.
    pub open spec fn at(self, stage: StageView) -> RotationView {
        RotationView { stage, ..self }
    }

    /// This rotation, stopped for the given reason.
    pub open spec fn stopped(self, error: RotationErrorView) -> (RotationView, ActionView) {
        (self.at(StageView::Failed), ActionView::Fail(error))
    }

    /// The request to store `secret` at the path of this rotation.
    pub open spec fn write_of(self, secret: SecretView) -> ActionView {
        ActionView::WriteSecret(SecretWriteView { mount: SECRET_MOUNT@, path: self.path, secret })
    }

    /// The request to read the secret at the path of this rotation.
    pub open spec fn read(self) -> ActionView {
        ActionView::ReadSecret(SecretReadView { mount: SECRET_MOUNT@, path: self.path })
    }

    /// Whether the step for `event` draws a new password.
    pub open spec fn draws_password(self, event: EventView) -> bool {
        match (self.stage, event) {
            (StageView::Start, EventView::SecretRead(Ok(secret))) => secret.active_is_rotation_user(),
            (StageView::SyncTriggered { .. }, EventView::RolloutFinished(Ok(_))) => true,
            _ => false,
        }
    }

    /// The rotation after `event`, and what it asks for next; `fresh` is the
    /// password drawn for this step, where the step draws one.
    ///
    /// Every failure is final. A secret whose active user is neither of its
    /// rotation users is refused before anything is changed. An event that
    /// does not answer the last request stops the rotation, too; only a
    /// rotation that is done ignores what it is told.
    pub open spec fn step(self, event: EventView, fresh: Seq<char>) -> (RotationView, ActionView) {
        match (self.stage, event) {
            (StageView::Start, EventView::SecretRead(Ok(secret))) => {
                if secret.active_is_rotation_user() {
                    (
                        self.at(
                            StageView::Validated { secret: secret.with_passive_user_password(fresh) },
                        ),
                        ActionView::ChangePassword(passive_user_change(secret, fresh)),
                    )
                } else {
                    self.stopped(RotationErrorView::InvariantViolation)
                }
            },
            (StageView::Start, EventView::SecretRead(Err(_))) => self.stopped(
                RotationErrorView::SecretStoreError { message: unreadable_path_text(self.path) },
            ),
            (StageView::Validated { secret }, EventView::PasswordChanged(Ok(_))) => (
                self.at(StageView::PassiveRotated { secret: secret.switched() }),
                self.write_of(secret.switched()),
            ),
            (StageView::Validated { .. }, EventView::PasswordChanged(Err(error))) => self.stopped(
                error,
            ),
            (StageView::PassiveRotated { secret }, EventView::SecretWritten(Ok(_))) => (
                self.at(StageView::SwapWritten { secret }),
                ActionView::Sync,
            ),
            (StageView::PassiveRotated { .. }, EventView::SecretWritten(Err(detail))) => self.stopped(
                RotationErrorView::InconsistentWrite { stage: WriteStage::KickOff, detail },
            ),
            (StageView::SwapWritten { secret }, EventView::SyncFinished(Ok(_))) => (
                self.at(StageView::SyncTriggered { secret }),
                ActionView::WaitForRollout,
            ),
            (StageView::SwapWritten { .. }, EventView::SyncFinished(Err(error))) => self.stopped(
                error,
            ),
            (StageView::SyncTriggered { secret }, EventView::RolloutFinished(Ok(_))) => (
                self.at(
                    StageView::AppReconciled { secret: secret.with_passive_user_password(fresh) },
                ),
                ActionView::ChangePassword(passive_user_change(secret, fresh)),
            ),
            (StageView::SyncTriggered { .. }, EventView::RolloutFinished(Err(error))) => self.stopped(
                error,
            ),
            (StageView::AppReconciled { secret }, EventView::PasswordChanged(Ok(_))) => (
                self.at(StageView::PreviousRotated { secret }),
                self.write_of(secret),
            ),
            (StageView::AppReconciled { .. }, EventView::PasswordChanged(Err(error))) => self.stopped(
                error,
            ),
            (StageView::PreviousRotated { secret }, EventView::SecretWritten(Ok(_))) => (
                self.at(StageView::Done { secret }),
                ActionView::Finish,
            ),
            (StageView::PreviousRotated { .. }, EventView::SecretWritten(Err(detail))) => self.stopped(
                RotationErrorView::InconsistentWrite { stage: WriteStage::Final, detail },
            ),
            (StageView::Done { .. }, _) => (self, ActionView::Finish),
            _ => self.stopped(RotationErrorView::UnexpectedEvent),
        }
    }
}


/// Begins a rotation of the secret that `config` names, with new passwords
/// of `password_length` characters. The first thing asked for is the secret.
pub fn rotate_secrets_using_switch_method(password_length: usize, config: &Config) -> (start: (
    Rotation,
    Action,
))
    ensures
        start.0@ == (RotationView {
            path: config.vault.path@,
            password_length: password_length as nat,
            stage: StageView::Start,
        }),
        start.1@ == start.0@.read(),
{
    let rotation = Rotation { path: config.vault.path.clone(), password_length, stage: Stage::Start };
    let request = SecretRead {
        mount: String::from_str(SECRET_MOUNT),
        path: config.vault.path.clone(),
    };
    (rotation, Action::ReadSecret(request))
}

/// The text to print when a rotation is complete.
pub fn success_message() -> (text: String)
    ensures
        text@ == success_text(),
{
    String::from_str("Successfully rotated all secrets")
}

impl Rotation {
    fn at(path: String, password_length: usize, stage: Stage, action: Action) -> (next: (
        Rotation,
        Action,
    ))
        ensures
            next.0@ == (RotationView {
                path: path@,
                password_length: password_length as nat,
                stage: stage@,
            }),
            next.1 == action,
    {
        (Rotation { path, password_length, stage }, action)
    }

    fn stopped(path: String, password_length: usize, error: RotationError) -> (next: (
        Rotation,
        Action,
    ))
        ensures
            next.0@ == (RotationView {
                path: path@,
                password_length: password_length as nat,
                stage: StageView::Failed,
            }),
            next.1@ == ActionView::Fail(error@),
    {
        (Rotation { path, password_length, stage: Stage::Failed }, Action::Fail(error))
    }

    fn write_of(path: &String, secret: &VaultStructure) -> (action: Action)
        ensures
            action@ == ActionView::WriteSecret(
                SecretWriteView { mount: SECRET_MOUNT@, path: path@, secret: secret@ },
            ),
    {
        Action::WriteSecret(
            SecretWrite {
                mount: String::from_str(SECRET_MOUNT),
                path: path.clone(),
                secret: secret.clone(),
            },
        )
    }

    /// Whether the step for `event` draws a new password.
    pub fn draws_password(&self, event: &Event) -> (drawn: bool)
        ensures
            drawn == self@.draws_password(event@),
    {
        match &self.stage {
            Stage::Start => match event {
                Event::SecretRead(Ok(secret)) => secret.has_known_active_user(),
                _ => false,
            },
            Stage::SyncTriggered { .. } => match event {
                Event::RolloutFinished(Ok(_)) => true,
                _ => false,
            },
            _ => false,
        }
    }

    /// Takes the outcome of the last request and decides what comes next,
    /// with `fresh` as the new password where the step needs one.
    pub fn advance(self, event: Event, fresh: String) -> (next: (Rotation, Action))
        ensures
            (next.0@, next.1@) == self@.step(event@, fresh@),
    {
        let Rotation { path, password_length, stage } = self;
        match stage {
            Stage::Start => match event {
                Event::SecretRead(Ok(secret)) => {
                    if secret.has_known_active_user() {
                        let mut secret = secret;
                        let change = update_passive_user_postgres_password(&mut secret, fresh);
                        Self::at(
                            path,
                            password_length,
                            Stage::Validated { secret },
                            Action::ChangePassword(change),
                        )
                    } else {
                        Self::stopped(path, password_length, RotationError::InvariantViolation)
                    }
                },
                Event::SecretRead(Err(_)) => {
                    let error = RotationError::unreadable_path(path.as_str());
                    Self::stopped(path, password_length, error)
                },
                _ => Self::stopped(path, password_length, RotationError::UnexpectedEvent),
            },
            Stage::Validated { secret } => match event {
                Event::PasswordChanged(Ok(_)) => {
                    let mut secret = secret;
                    switch_active_user(&mut secret);
                    let action = Self::write_of(&path, &secret);
                    Self::at(path, password_length, Stage::PassiveRotated { secret }, action)
                },
                Event::PasswordChanged(Err(error)) => Self::stopped(path, password_length, error),
                _ => Self::stopped(path, password_length, RotationError::UnexpectedEvent),
            },
            Stage::PassiveRotated { secret } => match event {
                Event::SecretWritten(Ok(_)) => Self::at(
                    path,
                    password_length,
                    Stage::SwapWritten { secret },
                    Action::Sync,
                ),
                Event::SecretWritten(Err(detail)) => Self::stopped(
                    path,
                    password_length,
                    RotationError::InconsistentWrite { stage: WriteStage::KickOff, detail },
                ),
                _ => Self::stopped(path, password_length, RotationError::UnexpectedEvent),
            },
            Stage::SwapWritten { secret } => match event {
                Event::SyncFinished(Ok(_)) => Self::at(
                    path,
                    password_length,
                    Stage::SyncTriggered { secret },
                    Action::WaitForRollout,
                ),
                Event::SyncFinished(Err(error)) => Self::stopped(path, password_length, error),
                _ => Self::stopped(path, password_length, RotationError::UnexpectedEvent),
            },
            Stage::SyncTriggered { secret } => match event {
                Event::RolloutFinished(Ok(_)) => {
                    let mut secret = secret;
                    let change = update_passive_user_postgres_password(&mut secret, fresh);
                    Self::at(
                        path,
                        password_length,
                        Stage::AppReconciled { secret },
                        Action::ChangePassword(change),
                    )
                },
                Event::RolloutFinished(Err(error)) => Self::stopped(path, password_length, error),
                _ => Self::stopped(path, password_length, RotationError::UnexpectedEvent),
            },
            Stage::AppReconciled { secret } => match event {
                Event::PasswordChanged(Ok(_)) => {
                    let action = Self::write_of(&path, &secret);
                    Self::at(path, password_length, Stage::PreviousRotated { secret }, action)
                },
                Event::PasswordChanged(Err(error)) => Self::stopped(path, password_length, error),
                _ => Self::stopped(path, password_length, RotationError::UnexpectedEvent),
            },
            Stage::PreviousRotated { secret } => match event {
                Event::SecretWritten(Ok(_)) => Self::at(
                    path,
                    password_length,
                    Stage::Done { secret },
                    Action::Finish,
                ),
                Event::SecretWritten(Err(detail)) => Self::stopped(
                    path,
                    password_length,
                    RotationError::InconsistentWrite { stage: WriteStage::Final, detail },
                ),
                _ => Self::stopped(path, password_length, RotationError::UnexpectedEvent),
            },
            Stage::Done { secret } => Self::at(
                path,
                password_length,
                Stage::Done { secret },
                Action::Finish,
            ),
            Stage::Failed => Self::stopped(path, password_length, RotationError::UnexpectedEvent),
        }
    }

    /// Takes the outcome of the last request and decides what comes next.
    /// Where the step needs a new password, it is drawn at random; so the
    /// result is that of [`Rotation::advance`] for a password nobody chose.
    pub fn step(self, event: Event) -> (next: (Rotation, Action))
        ensures
            exists|fresh: Seq<char>|
                is_password(fresh, self@.password_length) && (next.0@, next.1@) == #[trigger] self@.step(
                    event@,
                    fresh,
                ),
    {
        if self.draws_password(&event) {
            let fresh = generate_random_password(self.password_length);
            self.advance(event, fresh)
        } else {
            proof {
                let length = self@.password_length;
                let filler = Seq::new(length, |i: int| 'x');
                assert(is_password(filler, length));
                assert(self@.step(event@, filler) == self@.step(event@, Seq::<char>::empty()));
            }
            self.advance(event, String::new())
        }
    }
}


/// Whatever the secret was, after the hand-over its active user is one of
/// its two rotation users, and it stays so when the other user gets its new
/// password. The rotation users themselves are never renamed.
pub proof fn law_rotation_keeps_active_identity(
    secret: SecretView,
    first: Seq<char>,
    second: Seq<char>,
)
    ensures
        secret.handed_over(first).active_is_rotation_user(),
        secret.rotated(first, second).active_is_rotation_user(),
        secret.rotated(first, second).user_1 == secret.user_1,
        secret.rotated(first, second).user_2 == secret.user_2,
{
}

/// A secret whose rotation users are two users is well formed both times it
/// is written: its active user is a rotation user and has that user's
/// current password.
pub proof fn law_rotation_keeps_secret_well_formed(
    secret: SecretView,
    first: Seq<char>,
    second: Seq<char>,
)
    requires
        secret.rotation_users_differ(),
    ensures
        secret.handed_over(first).well_formed(),
        secret.rotated(first, second).well_formed(),
{
}

/// A rotation replaces both recorded passwords: the passive user's by the
/// first new password, the active user's by the second. So both differ from
/// what they were, provided that neither new password happens to be the one
/// it replaces.
pub proof fn law_rotation_changes_both_passwords(
    secret: SecretView,
    first: Seq<char>,
    second: Seq<char>,
)
    requires
        secret.active_is_rotation_user(),
        secret.rotation_users_differ(),
        first != secret.passive_user_password(),
        second != secret.handed_over(first).passive_user_password(),
    ensures
        secret.rotated(first, second).user_1_password != secret.user_1_password,
        secret.rotated(first, second).user_2_password != secret.user_2_password,
        secret.rotated(first, second).active_user_password == first,
{
}

/// A rotation makes the other rotation user the active one.
pub proof fn law_rotation_swaps_active_user(secret: SecretView, first: Seq<char>, second: Seq<char>)
    requires
        secret.active_is_rotation_user(),
        secret.rotation_users_differ(),
    ensures
        secret.rotated(first, second).active_user != secret.active_user,
        secret.rotated(first, second).active_user == secret.passive_user(),
        secret.handed_over(first).passive_user() == secret.active_user,
{
}

/// Two rotations in a row bring the first active user back.
pub proof fn law_two_rotations_restore_active_user(
    secret: SecretView,
    first: Seq<char>,
    second: Seq<char>,
    third: Seq<char>,
    fourth: Seq<char>,
)
    requires
        secret.active_is_rotation_user(),
        secret.rotation_users_differ(),
    ensures
        secret.rotated(first, second).rotated(third, fourth).active_user == secret.active_user,
        secret.rotated(first, second).rotated(third, fourth).active_user_password == third,
{
}

/// The passwords PostgreSQL holds, by role.
pub open spec fn accepts(
    roles: Map<Seq<char>, Seq<char>>,
    username: Seq<char>,
    password: Seq<char>,
) -> bool {
    roles.contains_key(username) && roles[username] == password
}

/// The passwords PostgreSQL holds once `change` has been made.
pub open spec fn after_change(
    roles: Map<Seq<char>, Seq<char>>,
    change: PasswordChangeView,
) -> Map<Seq<char>, Seq<char>> {
    roles.insert(change.username, change.new_password)
}

/// Take PostgreSQL to hold one password per role, which a change of
/// password replaces. If it accepts both rotation users with the passwords
/// of the secret when a rotation begins, then
/// - each of the two changes is made by a user with a password that
///   PostgreSQL accepts at that moment,
/// - each time the secret is written, PostgreSQL accepts its active user
///   with the password the secret gives for it, and
/// - in the end PostgreSQL accepts both rotation users with the passwords of
///   the secret.
pub proof fn law_secret_opens_database(
    secret: SecretView,
    first: Seq<char>,
    second: Seq<char>,
    roles: Map<Seq<char>, Seq<char>>,
)
    requires
        secret.active_is_rotation_user(),
        secret.rotation_users_differ(),
        accepts(roles, secret.user_1, secret.user_1_password),
        accepts(roles, secret.user_2, secret.user_2_password),
    ensures
        ({
            let first_change = passive_user_change(secret, first);
            let roles_at_hand_over = after_change(roles, first_change);
            let handed_over = secret.handed_over(first);
            let second_change = passive_user_change(handed_over, second);
            let roles_at_end = after_change(roles_at_hand_over, second_change);
            let rotated = secret.rotated(first, second);
            &&& accepts(roles, first_change.username, first_change.password)
            &&& accepts(
                roles_at_hand_over,
                handed_over.active_user,
                handed_over.active_user_password,
            )
            &&& accepts(roles_at_hand_over, second_change.username, second_change.password)
            &&& accepts(roles_at_end, rotated.active_user, rotated.active_user_password)
            &&& accepts(roles_at_end, rotated.user_1, rotated.user_1_password)
            &&& accepts(roles_at_end, rotated.user_2, rotated.user_2_password)
        }),
{
}


/// The rotation after all of `events`, the step for `events[i]` drawing
/// `fresh[i]` where it draws a password.
pub open spec fn run_end(
    rotation: RotationView,
    events: Seq<EventView>,
    fresh: Seq<Seq<char>>,
) -> RotationView
    decreases events.len(),
{
    if events.len() == 0 {
        rotation
    } else {
        run_end(rotation.step(events[0], fresh[0]).0, events.drop_first(), fresh.drop_first())
    }
}

/// What the rotation asks for in answer to each of `events`.
pub open spec fn run_actions(
    rotation: RotationView,
    events: Seq<EventView>,
    fresh: Seq<Seq<char>>,
) -> Seq<ActionView>
    decreases events.len(),
{
    if events.len() == 0 {
        Seq::empty()
    } else {
        seq![rotation.step(events[0], fresh[0]).1] + run_actions(
            rotation.step(events[0], fresh[0]).0,
            events.drop_first(),
            fresh.drop_first(),
        )
    }
}

/// A rotation that has failed stays failed and asks for nothing more: all
/// it answers is that it has stopped.
pub proof fn law_failure_is_final(
    rotation: RotationView,
    events: Seq<EventView>,
    fresh: Seq<Seq<char>>,
)
    requires
        rotation.stage is Failed,
    ensures
        run_end(rotation, events, fresh).stage is Failed,
        run_actions(rotation, events, fresh).len() == events.len(),
        forall|i: int|
            0 <= i < events.len() ==> #[trigger] run_actions(rotation, events, fresh)[i]
                == ActionView::Fail(RotationErrorView::UnexpectedEvent),
    decreases events.len(),
{
    if events.len() > 0 {
        let next = rotation.step(events[0], fresh[0]).0;
        law_failure_is_final(next, events.drop_first(), fresh.drop_first());
        let actions = run_actions(rotation, events, fresh);
        let tail = run_actions(next, events.drop_first(), fresh.drop_first());
        assert forall|i: int| 0 <= i < events.len() implies #[trigger] actions[i]
            == ActionView::Fail(RotationErrorView::UnexpectedEvent) by {
            if i > 0 {
                assert(actions[i] == tail[i - 1]);
            }
        }
    }
}

/// A secret whose active user is neither of its rotation users is refused
/// with the text that says so, and nothing is ever asked of PostgreSQL,
/// Vault or Argo CD on its account.
pub proof fn law_unfit_secret_is_refused(
    rotation: RotationView,
    secret: SecretView,
    events: Seq<EventView>,
    fresh: Seq<Seq<char>>,
)
    requires
        rotation.stage is Start,
        events.len() > 0,
        events[0] == EventView::SecretRead(Ok(secret)),
        !secret.active_is_rotation_user(),
    ensures
        run_end(rotation, events, fresh).stage is Failed,
        run_actions(rotation, events, fresh).len() == events.len(),
        run_actions(rotation, events, fresh)[0] == ActionView::Fail(
            RotationErrorView::InvariantViolation,
        ),
        RotationErrorView::InvariantViolation.message()
            == "Failed to detect active user - did neither match user 1 nor 2"@,
        forall|i: int|
            0 <= i < events.len() ==> #[trigger] run_actions(rotation, events, fresh)[i] is Fail,
{
    let next = rotation.step(events[0], fresh[0]).0;
    law_failure_is_final(next, events.drop_first(), fresh.drop_first());
    let actions = run_actions(rotation, events, fresh);
    let tail = run_actions(next, events.drop_first(), fresh.drop_first());
    assert forall|i: int| 0 <= i < events.len() implies #[trigger] actions[i] is Fail by {
        if i > 0 {
            assert(actions[i] == tail[i - 1]);
        }
    }
}

/// One step of a run that ends well: there is an event, the step for it
/// does not fail, and the rest of the run is the run from there.
proof fn lemma_next_step_of_completed_run(
    rotation: RotationView,
    events: Seq<EventView>,
    fresh: Seq<Seq<char>>,
)
    requires
        run_end(rotation, events, fresh).stage is Done,
        !(rotation.stage is Done),
    ensures
        events.len() > 0,
        !(rotation.step(events[0], fresh[0]).0.stage is Failed),
        run_end(rotation, events, fresh) == run_end(
            rotation.step(events[0], fresh[0]).0,
            events.drop_first(),
            fresh.drop_first(),
        ),
        run_actions(rotation, events, fresh) == seq![rotation.step(events[0], fresh[0]).1]
            + run_actions(
            rotation.step(events[0], fresh[0]).0,
            events.drop_first(),
            fresh.drop_first(),
        ),
{
    if events.len() > 0 {
        let next = rotation.step(events[0], fresh[0]).0;
        if next.stage is Failed {
            law_failure_is_final(next, events.drop_first(), fresh.drop_first());
        }
    }
}

/// A rotation completes in one way only. The secret is read and found fit;
/// then, each request answered with success, the passive user's password is
/// changed, the secret is written with the roles changed, the application is
/// synced and rolled out, the password of the user that was active is
/// changed, and the secret is written again. What is written is
/// [`SecretView::handed_over`] and [`SecretView::rotated`] of the secret
/// that was read, with the two passwords drawn on the way.
pub proof fn law_completed_rotation(
    rotation: RotationView,
    events: Seq<EventView>,
    fresh: Seq<Seq<char>>,
)
    requires
        rotation.stage is Start,
        fresh.len() == events.len(),
        run_end(rotation, events, fresh).stage is Done,
    ensures
        events.len() >= 7,
        events[0] matches EventView::SecretRead(Ok(secret)) && {
            let actions = run_actions(rotation, events, fresh);
            let handed_over = secret.handed_over(fresh[0]);
            let rotated = secret.rotated(fresh[0], fresh[4]);
            &&& secret.active_is_rotation_user()
            &&& events[1] matches EventView::PasswordChanged(Ok(_))
            &&& events[2] matches EventView::SecretWritten(Ok(_))
            &&& events[3] matches EventView::SyncFinished(Ok(_))
            &&& events[4] matches EventView::RolloutFinished(Ok(_))
            &&& events[5] matches EventView::PasswordChanged(Ok(_))
            &&& events[6] matches EventView::SecretWritten(Ok(_))
            &&& actions.len() == events.len()
            &&& actions[0] == ActionView::ChangePassword(passive_user_change(secret, fresh[0]))
            &&& actions[1] == rotation.write_of(handed_over)
            &&& actions[2] == ActionView::Sync
            &&& actions[3] == ActionView::WaitForRollout
            &&& actions[4] == ActionView::ChangePassword(
                passive_user_change(handed_over, fresh[4]),
            )
            &&& actions[5] == rotation.write_of(rotated)
            &&& actions[6] == ActionView::Finish
            &&& run_end(rotation, events, fresh).stage == (StageView::Done { secret: rotated })
        },
{
    lemma_next_step_of_completed_run(rotation, events, fresh);
    let secret = events[0]->SecretRead_0->Ok_0;
    let handed_over = secret.handed_over(fresh[0]);
    let rotated = secret.rotated(fresh[0], fresh[4]);
    let e1 = events.drop_first();
    let f1 = fresh.drop_first();
    let r1 = rotation.step(events[0], fresh[0]).0;
    let a0 = rotation.step(events[0], fresh[0]).1;
    assert(events[0] == EventView::SecretRead(Ok(secret)));
    assert(r1.stage == (StageView::Validated {
        secret: secret.with_passive_user_password(fresh[0]),
    }));

    lemma_next_step_of_completed_run(r1, e1, f1);
    let e2 = e1.drop_first();
    let f2 = f1.drop_first();
    assert(e1[0] == events[1] && f1[0] == fresh[1]);
    let r2 = r1.step(e1[0], f1[0]).0;
    let a1 = r1.step(e1[0], f1[0]).1;
    assert(events[1] matches EventView::PasswordChanged(Ok(_)));
    assert(r2.stage == (StageView::PassiveRotated { secret: handed_over }));

    lemma_next_step_of_completed_run(r2, e2, f2);
    let e3 = e2.drop_first();
    let f3 = f2.drop_first();
    assert(e2[0] == events[2] && f2[0] == fresh[2]);
    let r3 = r2.step(e2[0], f2[0]).0;
    let a2 = r2.step(e2[0], f2[0]).1;
    assert(events[2] matches EventView::SecretWritten(Ok(_)));
    assert(r3.stage == (StageView::SwapWritten { secret: handed_over }));

    lemma_next_step_of_completed_run(r3, e3, f3);
    let e4 = e3.drop_first();
    let f4 = f3.drop_first();
    assert(e3[0] == events[3] && f3[0] == fresh[3]);
    let r4 = r3.step(e3[0], f3[0]).0;
    let a3 = r3.step(e3[0], f3[0]).1;
    assert(events[3] matches EventView::SyncFinished(Ok(_)));
    assert(r4.stage == (StageView::SyncTriggered { secret: handed_over }));

    lemma_next_step_of_completed_run(r4, e4, f4);
    let e5 = e4.drop_first();
    let f5 = f4.drop_first();
    assert(e4[0] == events[4] && f4[0] == fresh[4]);
    let r5 = r4.step(e4[0], f4[0]).0;
    let a4 = r4.step(e4[0], f4[0]).1;
    assert(events[4] matches EventView::RolloutFinished(Ok(_)));
    assert(r5.stage == (StageView::AppReconciled { secret: rotated }));

    lemma_next_step_of_completed_run(r5, e5, f5);
    let e6 = e5.drop_first();
    let f6 = f5.drop_first();
    assert(e5[0] == events[5] && f5[0] == fresh[5]);
    let r6 = r5.step(e5[0], f5[0]).0;
    let a5 = r5.step(e5[0], f5[0]).1;
    assert(events[5] matches EventView::PasswordChanged(Ok(_)));
    assert(r6.stage == (StageView::PreviousRotated { secret: rotated }));

    lemma_next_step_of_completed_run(r6, e6, f6);
    let e7 = e6.drop_first();
    let f7 = f6.drop_first();
    assert(e6[0] == events[6] && f6[0] == fresh[6]);
    let r7 = r6.step(e6[0], f6[0]).0;
    let a6 = r6.step(e6[0], f6[0]).1;
    assert(events[6] matches EventView::SecretWritten(Ok(_)));
    assert(r7.stage == (StageView::Done { secret: rotated }));

    lemma_done_is_final(r7, e7, f7);
    let actions = run_actions(rotation, events, fresh);
    let t1 = run_actions(r1, e1, f1);
    let t2 = run_actions(r2, e2, f2);
    let t3 = run_actions(r3, e3, f3);
    let t4 = run_actions(r4, e4, f4);
    let t5 = run_actions(r5, e5, f5);
    let t6 = run_actions(r6, e6, f6);
    let t7 = run_actions(r7, e7, f7);
    assert(t7.len() == e7.len());
    assert(t6[0] == a6);
    assert(t5[0] == a5 && t5[1] == t6[0]);
    assert(t4[0] == a4 && t4[1] == t5[0] && t4[2] == t5[1]);
    assert(t3[0] == a3 && t3[1] == t4[0] && t3[2] == t4[1] && t3[3] == t4[2]);
    assert(t2[0] == a2 && t2[1] == t3[0] && t2[2] == t3[1] && t2[3] == t3[2] && t2[4] == t3[3]);
    assert(t1[0] == a1 && t1[1] == t2[0] && t1[2] == t2[1] && t1[3] == t2[2] && t1[4] == t2[3]
        && t1[5] == t2[4]);
    assert(actions[0] == a0 && actions[1] == t1[0] && actions[2] == t1[1] && actions[3] == t1[2]
        && actions[4] == t1[3] && actions[5] == t1[4] && actions[6] == t1[5]);
    assert(actions.len() == events.len());
    assert(r1.path == rotation.path && r2.path == rotation.path && r5.path == rotation.path);
    assert(a1 == rotation.write_of(handed_over));
    assert(a5 == rotation.write_of(rotated));
}

/// A rotation that is done stays as it is, whatever it is told.
proof fn lemma_done_is_final(rotation: RotationView, events: Seq<EventView>, fresh: Seq<Seq<char>>)
    requires
        rotation.stage is Done,
    ensures
        run_end(rotation, events, fresh) == rotation,
        run_actions(rotation, events, fresh).len() == events.len(),
    decreases events.len(),
{
    if events.len() > 0 {
        lemma_done_is_final(rotation, events.drop_first(), fresh.drop_first());
    }
}


/// What a completed rotation leaves behind. The secret written last has an
/// active user that is one of its rotation users. Where the secret that was
/// read had two different rotation users, the secret written last is well
/// formed, names the other of the two as active user, and holds the two
/// drawn passwords; these differ from the passwords that were read unless a
/// drawn password happens to be the one it replaces.
pub proof fn law_completed_rotation_leaves_fit_secret(
    rotation: RotationView,
    events: Seq<EventView>,
    fresh: Seq<Seq<char>>,
)
    requires
        rotation.stage is Start,
        fresh.len() == events.len(),
        run_end(rotation, events, fresh).stage is Done,
    ensures
        events.len() >= 7,
        events[0] matches EventView::SecretRead(Ok(read)) && run_end(
            rotation,
            events,
            fresh,
        ).stage matches StageView::Done { secret: written } && {
            &&& run_actions(rotation, events, fresh)[5] == rotation.write_of(written)
            &&& written.active_is_rotation_user()
            &&& written.user_1 == read.user_1
            &&& written.user_2 == read.user_2
            &&& read.rotation_users_differ() ==> {
                &&& written.well_formed()
                &&& written.active_user != read.active_user
                &&& written.active_user_password == fresh[0]
                &&& fresh[0] != read.passive_user_password() && fresh[4]
                    != read.handed_over(fresh[0]).passive_user_password() ==> {
                    &&& written.user_1_password != read.user_1_password
                    &&& written.user_2_password != read.user_2_password
                }
            }
        },
{
    law_completed_rotation(rotation, events, fresh);
}

} // verus!
