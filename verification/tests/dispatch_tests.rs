use validator_cli::dispatch::{
    client_params, complete_bootstrap, plan_persistence, resolve_identity, Command,
    CommandHandler, DispatchAction, HandlerUtils,
};
use validator_cli::error::ErrorKind;
use validator_cli::identity::Hotkey;

const VALID_CONFIG: &str = "network=finney\nnetuid=3\nburn_uid=7\nburn_percentage=12.5\nweight_set_interval_blocks=360\ndatabase_url=sqlite://validator.db\n";

/// Counts how often each collaborator would have been called, were the
/// returned decision executed.
struct CollaboratorStub {
    calls: usize,
}

impl CollaboratorStub {
    fn new() -> Self {
        CollaboratorStub { calls: 0 }
    }

    fn run(&mut self, action: DispatchAction) {
        match action {
            DispatchAction::StartService { .. }
            | DispatchAction::StopService
            | DispatchAction::StatusService
            | DispatchAction::GenerateConfig { .. }
            | DispatchAction::DatabaseAction { .. }
            | DispatchAction::RentalBootstrap { .. } => self.calls += 1,
        }
    }
}

#[test]
fn retired_connect_always_fails_without_collaborator() {
    let handler = CommandHandler::new();
    let mut stub = CollaboratorStub::new();
    match handler.route(Command::Connect, None, false) {
        Ok(action) => stub.run(action),
        Err(e) => {
            assert_eq!(e.kind(), ErrorKind::RemovedFeature);
            assert_eq!(
                e.message(),
                "Hardware validation commands have been removed. Use the verification engine API instead."
            );
        }
    }
    assert_eq!(stub.calls, 0);
}

#[test]
fn retired_verify_always_fails_without_collaborator() {
    let handler = CommandHandler::new();
    let mut stub = CollaboratorStub::new();
    match handler.route(Command::Verify, Some("/etc/v.toml".to_string()), true) {
        Ok(action) => stub.run(action),
        Err(e) => assert_eq!(e.kind(), ErrorKind::RemovedFeature),
    }
    assert_eq!(stub.calls, 0);
}

#[test]
fn retired_verify_legacy_always_fails_without_collaborator() {
    let handler = CommandHandler::new();
    let mut stub = CollaboratorStub::new();
    match handler.route(Command::VerifyLegacy, None, false) {
        Ok(action) => stub.run(action),
        Err(e) => {
            assert_eq!(e.kind(), ErrorKind::RemovedFeature);
            assert_eq!(
                e.message(),
                "Legacy validation commands have been removed. Use the verification engine API instead."
            );
        }
    }
    assert_eq!(stub.calls, 0);
}

#[test]
fn start_prefers_global_config_path() {
    let handler = CommandHandler::new();
    let r = handler.route(
        Command::Start {
            config: Some("./local.toml".to_string()),
        },
        Some("/etc/v.toml".to_string()),
        false,
    );
    match r {
        Ok(DispatchAction::StartService { config, local_test }) => {
            assert_eq!(config.as_deref(), Some("/etc/v.toml"));
            assert!(!local_test);
        }
        other => panic!("start routed wrongly: {:?}", other.map(|_| ()).map_err(|e| e.kind())),
    }
}

#[test]
fn start_falls_back_to_command_config_path() {
    let handler = CommandHandler::new();
    let r = handler.route(
        Command::Start {
            config: Some("./local.toml".to_string()),
        },
        None,
        true,
    );
    match r {
        Ok(DispatchAction::StartService { config, local_test }) => {
            assert_eq!(config.as_deref(), Some("./local.toml"));
            assert!(local_test);
        }
        _ => panic!("start routed wrongly"),
    }
}

#[test]
fn stop_status_and_gen_config_forward_directly() {
    let handler = CommandHandler::new();
    assert!(matches!(
        handler.route(Command::Stop, None, false),
        Ok(DispatchAction::StopService)
    ));
    assert!(matches!(
        handler.route(Command::Status, None, false),
        Ok(DispatchAction::StatusService)
    ));
    match handler.route(
        Command::GenConfig {
            output: "validator.toml".to_string(),
        },
        None,
        false,
    ) {
        Ok(DispatchAction::GenerateConfig { output }) => assert_eq!(output, "validator.toml"),
        _ => panic!("gen-config routed wrongly"),
    }
}

#[test]
fn database_forwards_action_unchanged() {
    let handler = CommandHandler::new();
    match handler.route(
        Command::Database {
            action: "migrate".to_string(),
        },
        None,
        false,
    ) {
        Ok(DispatchAction::DatabaseAction { action }) => assert_eq!(action, "migrate"),
        _ => panic!("database routed wrongly"),
    }
}

#[test]
fn rental_without_global_config_fails_before_any_bootstrap() {
    let handler = CommandHandler::new();
    let mut stub = CollaboratorStub::new();
    match handler.route(
        Command::Rental {
            action: "list".to_string(),
        },
        None,
        false,
    ) {
        Ok(action) => stub.run(action),
        Err(e) => {
            assert_eq!(e.kind(), ErrorKind::ConfigRequired);
            assert_eq!(e.message(), "Configuration required for rental commands");
        }
    }
    assert_eq!(stub.calls, 0);
}

#[test]
fn rental_with_global_config_begins_bootstrap() {
    let handler = CommandHandler::new();
    match handler.route(
        Command::Rental {
            action: "list".to_string(),
        },
        Some("/etc/v.toml".to_string()),
        false,
    ) {
        Ok(DispatchAction::RentalBootstrap {
            action,
            config_path,
        }) => {
            assert_eq!(action, "list");
            assert_eq!(config_path, "/etc/v.toml");
        }
        _ => panic!("rental routed wrongly"),
    }
}

#[test]
fn invalid_identity_blocks_persistence_open() {
    let config = HandlerUtils::load_config(Some("/etc/v.toml"), Some(VALID_CONFIG)).unwrap();
    let _client = client_params(&config);
    let mut persistence_opens = 0usize;
    // The client session came up, but its account renders to a malformed
    // address: `0` and `l` are outside the base-58 alphabet.
    match resolve_identity(Ok("0xl0address".to_string())) {
        Ok(hotkey) => {
            let _req = plan_persistence(&config, &hotkey);
            persistence_opens += 1;
        }
        Err(e) => assert_eq!(e.kind(), ErrorKind::InvalidIdentity),
    }
    assert_eq!(persistence_opens, 0);
}

#[test]
fn client_failure_maps_to_client_init_failed() {
    match resolve_identity(Err("connection refused".to_string())) {
        Err(e) => {
            assert_eq!(e.kind(), ErrorKind::ClientInitFailed);
            assert_eq!(
                e.message(),
                "Failed to create blockchain client: connection refused"
            );
        }
        Ok(_) => panic!("client failure must short-circuit"),
    }
}

#[test]
fn full_bootstrap_chain_succeeds() {
    let config = HandlerUtils::load_config(Some("/etc/v.toml"), Some(VALID_CONFIG)).unwrap();
    let client = client_params(&config);
    assert_eq!(client.network, "finney");
    assert_eq!(client.netuid, 3);
    let hotkey = resolve_identity(Ok("5GrwvaEF5zXb26Fz9rcQpDWS57CtERHpNehXCPcNoHGKutQY".to_string()))
        .unwrap();
    let req = plan_persistence(&config, &hotkey);
    assert_eq!(req.database_url, "sqlite://validator.db");
    assert_eq!(
        req.identity,
        "5GrwvaEF5zXb26Fz9rcQpDWS57CtERHpNehXCPcNoHGKutQY"
    );
    let session = complete_bootstrap(hotkey, req, Ok(())).unwrap();
    assert_eq!(
        session.hotkey.as_str(),
        "5GrwvaEF5zXb26Fz9rcQpDWS57CtERHpNehXCPcNoHGKutQY"
    );
    assert_eq!(session.persistence.database_url, "sqlite://validator.db");
    assert_eq!(
        session.persistence.identity,
        "5GrwvaEF5zXb26Fz9rcQpDWS57CtERHpNehXCPcNoHGKutQY"
    );
}

#[test]
fn persistence_failure_maps_to_persistence_init_failed() {
    let config = HandlerUtils::load_config(Some("/etc/v.toml"), Some(VALID_CONFIG)).unwrap();
    let hotkey = resolve_identity(Ok("5GrwvaEF5zXb26Fz9rcQpDWS57CtERHpNehXCPcNoHGKutQY".to_string()))
        .unwrap();
    let req = plan_persistence(&config, &hotkey);
    match complete_bootstrap(hotkey, req, Err("disk full".to_string())) {
        Err(e) => {
            assert_eq!(e.kind(), ErrorKind::PersistenceInitFailed);
            assert_eq!(e.message(), "Failed to open persistence: disk full");
        }
        Ok(_) => panic!("persistence failure must short-circuit"),
    }
}

#[test]
fn hotkey_rejects_malformed_addresses() {
    assert_eq!(
        Hotkey::new(String::new()).unwrap_err().kind(),
        ErrorKind::InvalidIdentity
    );
    assert_eq!(
        Hotkey::new("has space".to_string()).unwrap_err().kind(),
        ErrorKind::InvalidIdentity
    );
    assert_eq!(
        Hotkey::new("zero0uid".to_string()).unwrap_err().kind(),
        ErrorKind::InvalidIdentity
    );
    let long = "1".repeat(65);
    assert_eq!(
        Hotkey::new(long).unwrap_err().kind(),
        ErrorKind::InvalidIdentity
    );
}

#[test]
fn hotkey_keeps_canonical_form() {
    let hk = Hotkey::new("5GrwvaEF5zXb26Fz9rcQpDWS57CtERHpNehXCPcNoHGKutQY".to_string()).unwrap();
    assert_eq!(
        hk.canonical(),
        "5GrwvaEF5zXb26Fz9rcQpDWS57CtERHpNehXCPcNoHGKutQY"
    );
}
