use propeller::config::{ArgoConfig, Config, PostgresConfig, VaultConfig};
use propeller::error::RotationError;
use propeller::vault::VaultStructure;
use propeller::workflow::{
    rotate_secrets_using_switch_method, success_message, switch_active_user,
    update_passive_user_postgres_password, Action, Event, ReadFailure, Rotation, Stage,
};
use std::collections::HashMap;

fn create_vault_structure_active_user_1() -> VaultStructure {
    let secret = VaultStructure {
        postgresql_active_user: "user1".to_string(),
        postgresql_active_user_password: "password1".to_string(),
        postgresql_user_1: "user1".to_string(),
        postgresql_user_1_password: "password1".to_string(),
        postgresql_user_2: "user2".to_string(),
        postgresql_user_2_password: "password2".to_string(),
    };
    secret
}

fn create_vault_structure_active_user_2() -> VaultStructure {
    let secret = VaultStructure {
        postgresql_active_user: "user2".to_string(),
        postgresql_active_user_password: "password2".to_string(),
        postgresql_user_1: "user1".to_string(),
        postgresql_user_1_password: "password1".to_string(),
        postgresql_user_2: "user2".to_string(),
        postgresql_user_2_password: "password2".to_string(),
    };
    secret
}

fn initial_secret(active_user: &str) -> VaultStructure {
    VaultStructure {
        postgresql_active_user: active_user.to_string(),
        postgresql_active_user_password: "initialpw".to_string(),
        postgresql_user_1: "user1".to_string(),
        postgresql_user_1_password: "initialpw".to_string(),
        postgresql_user_2: "user2".to_string(),
        postgresql_user_2_password: "initialpw".to_string(),
    }
}

fn config_for(path: &str) -> Config {
    Config {
        argo_cd: ArgoConfig::default(),
        postgres: PostgresConfig::default(),
        vault: VaultConfig { base_url: "http://localhost:8200".to_string(), path: path.to_string() },
    }
}

/// Vault, PostgreSQL and Argo CD, as far as a rotation can tell them apart
/// from the real ones.
struct World {
    vault: HashMap<String, VaultStructure>,
    roles: HashMap<String, String>,
    rollout: Result<(), RotationError>,
    asked: Vec<String>,
}

impl World {
    fn new() -> World {
        World { vault: HashMap::new(), roles: HashMap::new(), rollout: Ok(()), asked: Vec::new() }
    }

    fn with_secret(path: &str, secret: VaultStructure) -> World {
        let mut world = World::new();
        world.roles.insert(secret.postgresql_user_1.clone(), secret.postgresql_user_1_password.clone());
        world.roles.insert(secret.postgresql_user_2.clone(), secret.postgresql_user_2_password.clone());
        world.vault.insert(path.to_string(), secret);
        world
    }

    fn accepts(&self, username: &str, password: &str) -> bool {
        self.roles.get(username).map(|current| current == password).unwrap_or(false)
    }

    fn perform(&mut self, action: Action) -> Option<Event> {
        match action {
            Action::ReadSecret(request) => {
                self.asked.push("read".to_string());
                assert_eq!(request.mount, "secret");
                Some(Event::SecretRead(
                    self.vault.get(&request.path).cloned().ok_or(ReadFailure::NotFound),
                ))
            }
            Action::ChangePassword(change) => {
                self.asked.push(format!("change {}", change.username));
                if !self.accepts(&change.username, &change.password) {
                    return Some(Event::PasswordChanged(Err(
                        propeller::database::PostgresClient::connection_failed(
                            "password authentication failed",
                        ),
                    )));
                }
                assert_eq!(
                    change.statement,
                    format!(
                        "ALTER ROLE {} WITH PASSWORD '{}'",
                        change.username, change.new_password
                    )
                );
                self.roles.insert(change.username.clone(), change.new_password.clone());
                Some(Event::PasswordChanged(Ok(())))
            }
            Action::WriteSecret(request) => {
                self.asked.push("write".to_string());
                assert_eq!(request.mount, "secret");
                // Whoever reads the secret now must be let in by the database.
                assert!(self.accepts(
                    &request.secret.postgresql_active_user,
                    &request.secret.postgresql_active_user_password
                ));
                self.vault.insert(request.path, request.secret);
                Some(Event::SecretWritten(Ok(())))
            }
            Action::Sync => {
                self.asked.push("sync".to_string());
                Some(Event::SyncFinished(Ok(())))
            }
            Action::WaitForRollout => {
                self.asked.push("rollout".to_string());
                Some(Event::RolloutFinished(self.rollout.clone()))
            }
            Action::Finish => None,
            Action::Fail(_) => None,
        }
    }

    /// Runs a rotation to its end and hands back how it ended.
    fn rotate(&mut self, path: &str, password_length: usize) -> Result<String, RotationError> {
        let (mut rotation, mut action) =
            rotate_secrets_using_switch_method(password_length, &config_for(path));
        loop {
            match action {
                Action::Finish => {
                    assert!(matches!(rotation.stage, Stage::Done { .. }));
                    return Ok(success_message());
                }
                Action::Fail(error) => {
                    assert!(matches!(rotation.stage, Stage::Failed));
                    return Err(error);
                }
                other => {
                    let event = self.perform(other).unwrap();
                    let next = rotation.step(event);
                    rotation = next.0;
                    action = next.1;
                }
            }
        }
    }
}

#[test]
fn switch_active_user_user1_active() {
    let mut secret: VaultStructure = create_vault_structure_active_user_1();

    switch_active_user(&mut secret);

    assert_eq!(secret.postgresql_active_user, "user2");
    assert_eq!(secret.postgresql_active_user_password, "password2");
}

#[test]
fn switch_active_user_user2_active() {
    let mut secret: VaultStructure = create_vault_structure_active_user_2();

    switch_active_user(&mut secret);

    assert_eq!(secret.postgresql_active_user, "user1");
    assert_eq!(secret.postgresql_active_user_password, "password1");
}

#[test]
fn switch_active_user_leaves_the_rotation_users_alone() {
    let mut secret = create_vault_structure_active_user_1();
    switch_active_user(&mut secret);
    assert_eq!(secret.postgresql_user_1, "user1");
    assert_eq!(secret.postgresql_user_1_password, "password1");
    assert_eq!(secret.postgresql_user_2, "user2");
    assert_eq!(secret.postgresql_user_2_password, "password2");
    switch_active_user(&mut secret);
    assert_eq!(secret, create_vault_structure_active_user_1());
}

#[test]
fn switch_active_user_takes_an_unknown_active_user_for_the_second() {
    let mut secret = create_vault_structure_active_user_1();
    secret.postgresql_active_user = "userX".to_string();
    switch_active_user(&mut secret);
    assert_eq!(secret.postgresql_active_user, "user1");
    assert_eq!(secret.postgresql_active_user_password, "password1");
}

#[test]
fn update_passive_user_password_user1_active() {
    let mut secret: VaultStructure = create_vault_structure_active_user_1();
    let new_password = "new_password".to_string();

    let change = update_passive_user_postgres_password(&mut secret, new_password.clone());

    assert_eq!(secret.postgresql_active_user, "user1");
    assert_eq!(secret.postgresql_active_user_password, "password1");
    assert_eq!(secret.postgresql_user_1_password, "password1");
    assert_eq!(secret.postgresql_user_2_password, new_password);
    assert_eq!(change.username, "user2");
    assert_eq!(change.password, "password2");
    assert_eq!(change.new_password, "new_password");
    assert_eq!(change.statement, "ALTER ROLE user2 WITH PASSWORD 'new_password'");
}

#[test]
fn update_passive_user_password_user2_active() {
    let mut secret: VaultStructure = create_vault_structure_active_user_2();
    let new_password = "new_password".to_string();

    let change = update_passive_user_postgres_password(&mut secret, new_password.clone());

    assert_eq!(secret.postgresql_active_user, "user2");
    assert_eq!(secret.postgresql_active_user_password, "password2");
    assert_eq!(secret.postgresql_user_2_password, "password2");
    assert_eq!(secret.postgresql_user_1_password, new_password);
    assert_eq!(change.username, "user1");
    assert_eq!(change.password, "password1");
    assert_eq!(change.statement, "ALTER ROLE user1 WITH PASSWORD 'new_password'");
}

#[test]
fn single_quotes_in_a_password_are_doubled_in_the_statement() {
    let mut secret = create_vault_structure_active_user_1();
    let change = update_passive_user_postgres_password(&mut secret, "it's'".to_string());
    assert_eq!(change.statement, "ALTER ROLE user2 WITH PASSWORD 'it''s'''");
    assert_eq!(change.new_password, "it's'");
    assert_eq!(secret.postgresql_user_2_password, "it's'");

    let change = update_passive_user_postgres_password(&mut secret, String::new());
    assert_eq!(change.statement, "ALTER ROLE user2 WITH PASSWORD ''");
    let change = update_passive_user_postgres_password(&mut secret, "pä'ß".to_string());
    assert_eq!(change.statement, "ALTER ROLE user2 WITH PASSWORD 'pä''ß'");
}

#[test]
fn update_failure_names_the_user_and_keeps_the_reason() {
    let mut secret = create_vault_structure_active_user_1();
    let change = update_passive_user_postgres_password(&mut secret, "x".to_string());
    let error = change.update_failed("permission denied");
    assert!(matches!(error, RotationError::DatabaseError { .. }));
    assert_eq!(error.message(), "Failed to update password of 'user2': permission denied");
}

#[test]
fn rotation_begins_by_reading_the_secret() {
    let (rotation, action) = rotate_secrets_using_switch_method(20, &config_for("rotate/secrets"));
    assert_eq!(rotation.path, "rotate/secrets");
    assert_eq!(rotation.password_length, 20);
    assert!(matches!(rotation.stage, Stage::Start));
    match action {
        Action::ReadSecret(request) => {
            assert_eq!(request.mount, "secret");
            assert_eq!(request.path, "rotate/secrets");
        }
        _ => panic!("the secret is read first"),
    }
}

#[test]
fn rotation_with_given_passwords_goes_through_every_stage() {
    let (rotation, _) = rotate_secrets_using_switch_method(20, &config_for("rotate/secrets"));

    let (rotation, action) =
        rotation.advance(Event::SecretRead(Ok(initial_secret("user1"))), "first".to_string());
    match (&rotation.stage, action) {
        (Stage::Validated { secret }, Action::ChangePassword(change)) => {
            assert_eq!(secret.postgresql_active_user, "user1");
            assert_eq!(secret.postgresql_user_2_password, "first");
            assert_eq!(change.username, "user2");
            assert_eq!(change.password, "initialpw");
            assert_eq!(change.statement, "ALTER ROLE user2 WITH PASSWORD 'first'");
        }
        _ => panic!("the passive user's password is changed first"),
    }

    let (rotation, action) = rotation.advance(Event::PasswordChanged(Ok(())), "unused".to_string());
    match (&rotation.stage, action) {
        (Stage::PassiveRotated { secret }, Action::WriteSecret(request)) => {
            assert_eq!(request.path, "rotate/secrets");
            assert_eq!(&request.secret, secret);
            assert_eq!(secret.postgresql_active_user, "user2");
            assert_eq!(secret.postgresql_active_user_password, "first");
            assert_eq!(secret.postgresql_user_1_password, "initialpw");
            assert_eq!(secret.postgresql_user_2_password, "first");
        }
        _ => panic!("the roles are changed and written"),
    }

    let (rotation, action) = rotation.advance(Event::SecretWritten(Ok(())), String::new());
    assert!(matches!(rotation.stage, Stage::SwapWritten { .. }));
    assert!(matches!(action, Action::Sync));

    let (rotation, action) = rotation.advance(Event::SyncFinished(Ok(())), String::new());
    assert!(matches!(rotation.stage, Stage::SyncTriggered { .. }));
    assert!(matches!(action, Action::WaitForRollout));

    let (rotation, action) = rotation.advance(Event::RolloutFinished(Ok(())), "second".to_string());
    match (&rotation.stage, action) {
        (Stage::AppReconciled { secret }, Action::ChangePassword(change)) => {
            assert_eq!(secret.postgresql_user_1_password, "second");
            assert_eq!(change.username, "user1");
            assert_eq!(change.password, "initialpw");
            assert_eq!(change.statement, "ALTER ROLE user1 WITH PASSWORD 'second'");
        }
        _ => panic!("the password of the user that was active is changed"),
    }

    let (rotation, action) = rotation.advance(Event::PasswordChanged(Ok(())), String::new());
    match (&rotation.stage, action) {
        (Stage::PreviousRotated { secret }, Action::WriteSecret(request)) => {
            assert_eq!(&request.secret, secret);
            assert_eq!(
                request.secret,
                VaultStructure {
                    postgresql_active_user: "user2".to_string(),
                    postgresql_active_user_password: "first".to_string(),
                    postgresql_user_1: "user1".to_string(),
                    postgresql_user_1_password: "second".to_string(),
                    postgresql_user_2: "user2".to_string(),
                    postgresql_user_2_password: "first".to_string(),
                }
            );
        }
        _ => panic!("the secret is written last"),
    }

    let (rotation, action) = rotation.advance(Event::SecretWritten(Ok(())), String::new());
    assert!(matches!(rotation.stage, Stage::Done { .. }));
    assert!(matches!(action, Action::Finish));

    let (rotation, action) = rotation.advance(Event::SyncFinished(Ok(())), String::new());
    assert!(matches!(rotation.stage, Stage::Done { .. }));
    assert!(matches!(action, Action::Finish));
}

#[test]
fn happy_path_rotation() {
    let mut world = World::with_secret("rotate/secrets", initial_secret("user1"));

    let outcome = world.rotate("rotate/secrets", 20);

    assert_eq!(outcome, Ok("Successfully rotated all secrets".to_string()));
    assert_eq!(
        world.asked,
        vec!["read", "change user2", "write", "sync", "rollout", "change user1", "write"]
    );
    let secret = world.vault.get("rotate/secrets").unwrap();
    assert_eq!(secret.postgresql_active_user, "user2");
    assert_ne!(secret.postgresql_active_user_password, "initialpw");
    assert_eq!(secret.postgresql_user_1, "user1");
    assert_ne!(secret.postgresql_user_1_password, "initialpw");
    assert_eq!(secret.postgresql_user_2, "user2");
    assert_ne!(secret.postgresql_user_2_password, "initialpw");
    assert_eq!(secret.postgresql_active_user_password, secret.postgresql_user_2_password);
    assert_eq!(secret.postgresql_user_1_password.len(), 20);
    assert_eq!(secret.postgresql_user_2_password.len(), 20);
    assert!(world.accepts("user1", &secret.postgresql_user_1_password));
    assert!(world.accepts("user2", &secret.postgresql_user_2_password));
    assert!(!world.accepts("user1", "initialpw"));
    assert!(!world.accepts("user2", "initialpw"));
}

#[test]
fn double_rotation() {
    let mut world = World::with_secret("rotate/secrets", initial_secret("user1"));

    assert!(world.rotate("rotate/secrets", 20).is_ok());
    let once = world.vault.get("rotate/secrets").unwrap().clone();
    assert!(world.rotate("rotate/secrets", 20).is_ok());
    let twice = world.vault.get("rotate/secrets").unwrap().clone();

    assert_eq!(once.postgresql_active_user, "user2");
    assert_eq!(twice.postgresql_active_user, "user1");
    assert_eq!(twice.postgresql_active_user_password, twice.postgresql_user_1_password);
    assert_ne!(twice.postgresql_user_1_password, "initialpw");
    assert_ne!(twice.postgresql_user_2_password, "initialpw");
    assert_ne!(twice.postgresql_user_1_password, once.postgresql_user_1_password);
    assert_ne!(twice.postgresql_user_2_password, once.postgresql_user_2_password);
    assert!(world.accepts("user1", &twice.postgresql_user_1_password));
    assert!(world.accepts("user2", &twice.postgresql_user_2_password));
}

#[test]
fn rotation_of_a_missing_secret_fails() {
    let mut world = World::new();

    let outcome = world.rotate("rotate/non/existing/path", 20);

    let error = outcome.unwrap_err();
    assert!(matches!(error, RotationError::SecretStoreError { .. }));
    assert!(error
        .message()
        .contains("Failed to read path 'rotate/non/existing/path' - did you init Vault?"));
    assert_eq!(world.asked, vec!["read"]);
}

#[test]
fn rotation_of_an_unreachable_secret_fails_the_same_way() {
    let (rotation, _) = rotate_secrets_using_switch_method(20, &config_for("some/path"));
    let (rotation, action) = rotation.step(Event::SecretRead(Err(ReadFailure::Unavailable)));
    assert!(matches!(rotation.stage, Stage::Failed));
    match action {
        Action::Fail(error) => {
            assert_eq!(error.message(), "Failed to read path 'some/path' - did you init Vault?")
        }
        _ => panic!("a secret that cannot be read stops the rotation"),
    }
}

#[test]
fn rotation_refuses_a_secret_with_an_unknown_active_user() {
    let mut world = World::with_secret("rotate/invalid/initialized/secret", initial_secret("userX"));
    let before = world.vault.get("rotate/invalid/initialized/secret").unwrap().clone();

    let outcome = world.rotate("rotate/invalid/initialized/secret", 20);

    let error = outcome.unwrap_err();
    assert_eq!(error, RotationError::InvariantViolation);
    assert!(error
        .message()
        .contains("Failed to detect active user - did neither match user 1 nor 2"));
    assert_eq!(world.asked, vec!["read"]);
    assert_eq!(world.vault.get("rotate/invalid/initialized/secret"), Some(&before));
    assert!(world.accepts("user1", "initialpw"));
    assert!(world.accepts("user2", "initialpw"));
}

#[test]
fn rotation_after_init_without_provisioning_changes_nothing() {
    // The placeholder secret names "TBD" as active user and as both rotation
    // users, so there is an active user to be found; it is PostgreSQL that
    // knows no such role.
    let mut world = World::new();
    world.vault.insert("fresh/path".to_string(), VaultStructure::placeholder());

    let outcome = world.rotate("fresh/path", 20);

    let error = outcome.unwrap_err();
    assert!(matches!(error, RotationError::DatabaseError { .. }));
    assert!(error.message().contains("Failed to build PostgreSQL connection"));
    assert_eq!(world.asked, vec!["read", "change TBD"]);
    assert_eq!(world.vault.get("fresh/path"), Some(&VaultStructure::placeholder()));
}

#[test]
fn rotation_surfaces_a_sync_timeout() {
    let mut world = World::with_secret("rotate/secrets/timeout", initial_secret("user1"));
    world.rollout = Err(RotationError::DeploymentTimeout);

    let outcome = world.rotate("rotate/secrets/timeout", 20);

    let error = outcome.unwrap_err();
    assert_eq!(error, RotationError::DeploymentTimeout);
    assert!(error.message().contains("Timeout reached while waiting for ArgoCD sync status"));
    assert_eq!(world.asked, vec!["read", "change user2", "write", "sync", "rollout"]);
    // The hand-over is written and stays: a later rotation starts from it.
    let secret = world.vault.get("rotate/secrets/timeout").unwrap();
    assert_eq!(secret.postgresql_active_user, "user2");
    assert_eq!(secret.postgresql_user_1_password, "initialpw");
    assert!(world.accepts("user2", &secret.postgresql_user_2_password));
    assert!(world.accepts("user1", "initialpw"));

    world.rollout = Ok(());
    assert!(world.rotate("rotate/secrets/timeout", 20).is_ok());
    assert_eq!(
        world.vault.get("rotate/secrets/timeout").unwrap().postgresql_active_user,
        "user1"
    );
}

#[test]
fn rotation_stops_at_every_failure() {
    let fail_at = |stage: usize| -> (Rotation, Action) {
        let (mut rotation, _) = rotate_secrets_using_switch_method(8, &config_for("p"));
        let events = vec![
            Event::SecretRead(Ok(initial_secret("user2"))),
            Event::PasswordChanged(Ok(())),
            Event::SecretWritten(Ok(())),
            Event::SyncFinished(Ok(())),
            Event::RolloutFinished(Ok(())),
            Event::PasswordChanged(Ok(())),
            Event::SecretWritten(Ok(())),
        ];
        for event in events.into_iter().take(stage) {
            rotation = rotation.step(event).0;
        }
        let failure = match stage {
            0 => Event::SecretRead(Err(ReadFailure::NotFound)),
            1 | 5 => Event::PasswordChanged(Err(RotationError::DatabaseError {
                message: "db".to_string(),
            })),
            2 | 6 => Event::SecretWritten(Err("sealed".to_string())),
            3 => Event::SyncFinished(Err(RotationError::DeploymentSyncError {
                message: "Failed to sync ArgoCD: no".to_string(),
            })),
            _ => Event::RolloutFinished(Err(RotationError::DeploymentTimeout)),
        };
        rotation.step(failure)
    };
    let expected = vec![
        "Failed to read path 'p' - did you init Vault?",
        "db",
        "Failed to kick-off rotation workflow by switching active user - Vault is in an invalid state: sealed",
        "Failed to sync ArgoCD: no",
        "Timeout reached while waiting for ArgoCD sync status",
        "db",
        "Failed to update PASSIVE user password after sync - Vault is in an invalid state: sealed",
    ];
    for (stage, text) in expected.into_iter().enumerate() {
        let (rotation, action) = fail_at(stage);
        assert!(matches!(rotation.stage, Stage::Failed));
        match action {
            Action::Fail(error) => assert_eq!(error.message(), text),
            _ => panic!("a failure stops the rotation"),
        }
        let (rotation, action) = rotation.step(Event::SecretWritten(Ok(())));
        assert!(matches!(rotation.stage, Stage::Failed));
        assert!(matches!(action, Action::Fail(RotationError::UnexpectedEvent)));
    }
}

#[test]
fn rotation_refuses_events_it_did_not_ask_for() {
    let (rotation, _) = rotate_secrets_using_switch_method(8, &config_for("p"));
    let (rotation, action) = rotation.step(Event::PasswordChanged(Ok(())));
    assert!(matches!(rotation.stage, Stage::Failed));
    assert!(matches!(action, Action::Fail(RotationError::UnexpectedEvent)));

    let (rotation, _) = rotate_secrets_using_switch_method(8, &config_for("p"));
    let (rotation, _) = rotation.step(Event::SecretRead(Ok(initial_secret("user1"))));
    let (rotation, action) = rotation.step(Event::SecretWritten(Ok(())));
    assert!(matches!(rotation.stage, Stage::Failed));
    assert!(matches!(action, Action::Fail(RotationError::UnexpectedEvent)));
}

#[test]
fn a_password_is_drawn_where_one_is_needed() {
    let (rotation, _) = rotate_secrets_using_switch_method(12, &config_for("p"));
    assert!(rotation.draws_password(&Event::SecretRead(Ok(initial_secret("user1")))));
    assert!(!rotation.draws_password(&Event::SecretRead(Ok(initial_secret("userX")))));
    assert!(!rotation.draws_password(&Event::SecretRead(Err(ReadFailure::NotFound))));
    assert!(!rotation.draws_password(&Event::RolloutFinished(Ok(()))));

    let (rotation, action) = rotation.step(Event::SecretRead(Ok(initial_secret("user1"))));
    match action {
        Action::ChangePassword(change) => {
            assert_eq!(change.new_password.len(), 12);
            assert!(change.new_password.chars().all(|c| c.is_ascii_alphanumeric()));
            assert_eq!(
                change.statement,
                format!("ALTER ROLE user2 WITH PASSWORD '{}'", change.new_password)
            );
        }
        _ => panic!("the passive user's password is changed first"),
    }
    assert!(!rotation.draws_password(&Event::PasswordChanged(Ok(()))));
}
