use propeller::internal::argocd::ArgoCDConfig;
use propeller::internal::database::DatabaseConfig;
use propeller::internal::vault::VaultConfig;
use propeller::internal::workflow::WorkflowKind;

#[test]
fn argocd_settings_keep_what_they_are_given() {
    let config = ArgoCDConfig::new("https://argo.example", "demo", "t0ken");
    assert_eq!(config.api_url, "https://argo.example");
    assert_eq!(config.namespace, "demo");
    assert_eq!(config.token, "t0ken");
    assert_eq!(config.sync_endpoint(), "https://argo.example/api/v1/applications/demo/sync");
    assert_eq!(config.rollout_endpoint(), "https://argo.example/api/v1/applications/demo");
    assert_eq!(config.authorization(), "Bearer t0ken");
}

#[test]
fn database_settings_keep_the_url() {
    let config = DatabaseConfig::new("postgresql://demo:pw@localhost:5432/demo");
    assert_eq!(config.url, "postgresql://demo:pw@localhost:5432/demo");
    assert_eq!(DatabaseConfig::default().url, "");
}

#[test]
fn vault_settings_keep_url_and_token() {
    let config = VaultConfig::new("http://localhost:8200", "root-token");
    assert_eq!(config.url, "http://localhost:8200");
    assert_eq!(config.token, "root-token");
}

#[test]
fn workflows_are_found_by_name() {
    assert_eq!(WorkflowKind::parse("exchange"), Ok(WorkflowKind::EXCHANGE));
    assert_eq!(WorkflowKind::parse("rotate"), Ok(WorkflowKind::ROTATE));
    assert_eq!(WorkflowKind::parse("Rotate"), Err("unknown color: Rotate".to_string()));
    assert_eq!(WorkflowKind::parse(""), Err("unknown color: ".to_string()));
    assert_eq!("exchange".parse::<WorkflowKind>(), Ok(WorkflowKind::EXCHANGE));
    assert_eq!("switch".parse::<WorkflowKind>(), Err("unknown color: switch".to_string()));
}
