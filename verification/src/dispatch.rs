//! The command router and the rental session bootstrap.
//!
//! `CommandHandler::route` maps one command to exactly one handler decision:
//! either the collaborator call to make, or the failure to surface. The
//! caller performs the chosen call. For the rental family the decision is a
//! bootstrap, driven step by step: the caller reads the configuration file,
//! constructs the blockchain client and opens the persistence handle, and
//! feeds each outcome back into the functions here, which decide how the
//! chain continues and short-circuit on the first failure.

use vstd::prelude::*;
use vstd::string::StrSliceExecFns;
use vstd::string::StringExecFns;

use crate::config::ValidatorConfig;
use crate::config::config_valid;
use crate::config::config_warnings;
use crate::config::invalid_cause;
use crate::config::parse_config_spec;
use crate::error::ConfigNeed;
use crate::error::HandlerError;
use crate::identity::Hotkey;
use crate::identity::valid_address;

verus! {

/// A parsed command, one variant per command kind. Produced by an external
/// parser; immutable once constructed.
pub enum Command {
    /// Start the validator service, with an optional per-command
    /// configuration path.
    Start { config: Option<String> },
    /// Stop the running service.
    Stop,
    /// Report service status.
    Status,
    /// Write a template configuration to `output`.
    GenConfig { output: String },
    /// Retired hardware-validation command.
    Connect,
    /// Retired hardware-validation command.
    Verify,
    /// Retired legacy verification command.
    VerifyLegacy,
    /// Forward `action` to the database collaborator.
    Database { action: String },
    /// Bootstrap a session, then forward `action` to the rental
    /// collaborator.
    Rental { action: String },
}

/// The single collaborator call that a routed command asks for.
pub enum DispatchAction {
    /// Call the service-start collaborator with the effective configuration
    /// path and the test-mode flag.
    StartService { config: Option<String>, local_test: bool },
    /// Call the service-stop collaborator.
    StopService,
    /// Call the service-status collaborator.
    StatusService,
    /// Call the template-writing collaborator with the output path.
    GenerateConfig { output: String },
    /// Forward the action payload to the database collaborator.
    DatabaseAction { action: String },
    /// Begin the rental session bootstrap from the given configuration
    /// path, then forward the action to the rental collaborator.
    RentalBootstrap { action: String, config_path: String },
}

/// Routes commands to handler decisions.
pub struct CommandHandler;

impl CommandHandler {
    pub fn new() -> (h: CommandHandler)
        ensures
            h == (CommandHandler {  }),
    {
        CommandHandler {  }
    }

    /// Maps `command` to exactly one decision.
    ///
    /// Start resolves its effective configuration path as the global path
    /// when one is supplied, else the command's own; Stop, Status, GenConfig
    /// and Database forward directly; the retired variants always fail with
    /// `RemovedFeature` and ask for no collaborator call; Rental demands a
    /// global configuration path and fails with `ConfigRequired` without
    /// one.
    pub fn route(&self, command: Command, global_config: Option<String>, local_test: bool) -> (r:
        Result<DispatchAction, HandlerError>)
        ensures
            match command {
                Command::Start { config } => r == Ok::<DispatchAction, HandlerError>(
                    (DispatchAction::StartService {
                        config: if global_config is Some {
                            global_config
                        } else {
                            config
                        },
                        local_test,
                    }),
                ),
                Command::Stop => r == Ok::<DispatchAction, HandlerError>(
                    DispatchAction::StopService,
                ),
                Command::Status => r == Ok::<DispatchAction, HandlerError>(
                    DispatchAction::StatusService,
                ),
                Command::GenConfig { output } => r == Ok::<DispatchAction, HandlerError>(
                    (DispatchAction::GenerateConfig { output }),
                ),
                Command::Connect | Command::Verify => r matches Err(HandlerError::RemovedFeature {
                    message,
                }) && message@
                    == "Hardware validation commands have been removed. Use the verification engine API instead."@,
                Command::VerifyLegacy => r matches Err(HandlerError::RemovedFeature { message })
                    && message@
                    == "Legacy validation commands have been removed. Use the verification engine API instead."@,
                Command::Database { action } => r == Ok::<DispatchAction, HandlerError>(
                    (DispatchAction::DatabaseAction { action }),
                ),
                Command::Rental { action } => match global_config {
                    Some(path) => r == Ok::<DispatchAction, HandlerError>(
                        (DispatchAction::RentalBootstrap { action, config_path: path }),
                    ),
                    None => r matches Err(HandlerError::ConfigRequired { needed_for })
                        && needed_for == ConfigNeed::RentalCommands,
                },
            },
    {
        match command {
            Command::Start { config } => {
                let effective = match global_config {
                    Some(g) => Some(g),
                    None => config,
                };
                Ok(DispatchAction::StartService { config: effective, local_test })
            },
            Command::Stop => Ok(DispatchAction::StopService),
            Command::Status => Ok(DispatchAction::StatusService),
            Command::GenConfig { output } => Ok(DispatchAction::GenerateConfig { output }),
            Command::Connect | Command::Verify => Err(
                HandlerError::RemovedFeature {
                    message: String::from_str(
                        "Hardware validation commands have been removed. Use the verification engine API instead.",
                    ),
                },
            ),
            Command::VerifyLegacy => Err(
                HandlerError::RemovedFeature {
                    message: String::from_str(
                        "Legacy validation commands have been removed. Use the verification engine API instead.",
                    ),
                },
            ),
            Command::Database { action } => Ok(DispatchAction::DatabaseAction { action }),
            Command::Rental { action } => match global_config {
                Some(path) => Ok(DispatchAction::RentalBootstrap { action, config_path: path }),
                None => Err(
                    HandlerError::ConfigRequired { needed_for: ConfigNeed::RentalCommands },
                ),
            },
        }
    }
}

impl Default for CommandHandler {
    fn default() -> (h: Self)
        ensures
            h == (CommandHandler {  }),
    {
        CommandHandler::new()
    }
}

/// Shared helpers used by every handler: configuration load and
/// validate-and-warn.
pub struct HandlerUtils;

impl HandlerUtils {
    /// Loads a configuration document.
    ///
    /// `config_path` is the path the caller was given, `file` the contents
    /// of the file at that path, or `None` where no such file exists. Fails
    /// with `ConfigRequired` when no path was supplied at all, with
    /// `ConfigNotFound` when the path references no file, and with
    /// `ConfigInvalid` when the text has no meaning as a configuration;
    /// otherwise returns exactly the configuration the text means.
    pub fn load_config(config_path: Option<&str>, file: Option<&str>) -> (r: Result<
        ValidatorConfig,
        HandlerError,
    >)
        ensures
            match (config_path, file) {
                (None, _) => r matches Err(HandlerError::ConfigRequired { needed_for })
                    && needed_for == ConfigNeed::ValidatorOperation,
                (Some(p), None) => r matches Err(HandlerError::ConfigNotFound { path }) && path@
                    == p@,
                (Some(_), Some(text)) => match parse_config_spec(text@) {
                    Some(m) => r matches Ok(c) && c@ == m,
                    None => r matches Err(HandlerError::ConfigInvalid { cause }) && cause@
                        == "configuration text is malformed"@,
                },
            },
    {
        match config_path {
            None => Err(
                HandlerError::ConfigRequired { needed_for: ConfigNeed::ValidatorOperation },
            ),
            Some(path) => match file {
                None => Err(HandlerError::ConfigNotFound { path: path.to_owned() }),
                Some(text) => ValidatorConfig::parse(text),
            },
        }
    }

    /// Runs validation and collects the warning reports.
    ///
    /// Fails exactly when the configuration is semantically invalid.
    /// Warnings never fail the call: on success the result carries one
    /// message per warning of the configuration, in order.
    pub fn validate_config(config: &ValidatorConfig) -> (r: Result<Vec<String>, HandlerError>)
        ensures
            r is Ok <==> config_valid(config@),
            r matches Ok(w) ==> w@.len() == config_warnings(config@).len() && (forall|i: int|
                0 <= i < w@.len() ==> (#[trigger] w@[i])@ == "Configuration warning: "@
                    + config_warnings(config@)[i]),
            r matches Err(e) ==> (e matches HandlerError::ConfigInvalid { cause } && cause@
                == invalid_cause(config@)),
    {
        match config.validate() {
            Err(e) => Err(e),
            Ok(_) => {
                let raw = config.warnings();
                let mut out: Vec<String> = Vec::new();
                let mut i: usize = 0;
                while i < raw.len()
                    invariant
                        0 <= i <= raw.len(),
                        raw@.len() == config_warnings(config@).len(),
                        forall|j: int|
                            0 <= j < raw@.len() ==> (#[trigger] raw@[j])@ == config_warnings(
                                config@,
                            )[j],
                        out@.len() == i,
                        forall|j: int|
                            0 <= j < i ==> (#[trigger] out@[j])@ == "Configuration warning: "@
                                + config_warnings(config@)[j],
                    decreases raw.len() - i,
                {
                    out.push(String::from_str("Configuration warning: ").concat(raw[i].as_str()));
                    i = i + 1;
                }
                Ok(out)
            },
        }
    }
}

/// The network parameters a blockchain client session is constructed from.
pub struct ClientParams {
    pub network: String,
    pub netuid: u16,
}

/// The network parameters of `config`, handed to the blockchain client
/// collaborator.
pub fn client_params(config: &ValidatorConfig) -> (p: ClientParams)
    ensures
        p.network@ == config@.network,
        p.netuid == config@.netuid,
{
    ClientParams { network: config.network.clone(), netuid: config.netuid }
}

/// Turns the client collaborator's outcome into the bootstrap's identity
/// step.
///
/// A client failure short-circuits as `ClientInitFailed` with the wrapped
/// cause. On success the account's canonical string form becomes the
/// network identity, which fails as `InvalidIdentity` exactly on malformed
/// addresses — and then no persistence request is ever produced, since only
/// a resolved identity can be planned for.
pub fn resolve_identity(client_result: Result<String, String>) -> (r: Result<Hotkey, HandlerError>)
    ensures
        match client_result {
            Ok(account) => match r {
                Ok(h) => h@ == account@ && h.wf(),
                Err(e) => !valid_address(account@) && (e matches HandlerError::InvalidIdentity {
                    cause,
                } && cause@ == "address is not a canonical base-58 string"@),
            },
            Err(cause) => r matches Err(HandlerError::ClientInitFailed { cause: c }) && c@
                == cause@,
        },
{
    match client_result {
        Ok(account) => Hotkey::new(account),
        Err(cause) => Err(HandlerError::ClientInitFailed { cause }),
    }
}

/// What the persistence collaborator is asked to open: the configuration's
/// database URL and the identity's canonical string form.
pub struct PersistenceRequest {
    pub database_url: String,
    pub identity: String,
}

/// Plans the persistence-open step from a loaded configuration and a
/// resolved identity.
pub fn plan_persistence(config: &ValidatorConfig, hotkey: &Hotkey) -> (req: PersistenceRequest)
    ensures
        req.database_url@ == config@.database_url,
        req.identity@ == hotkey@,
{
    PersistenceRequest { database_url: config.database_url.clone(), identity: hotkey.canonical() }
}

/// A persistence handle, recorded by the URL and identity it was opened
/// for. The underlying connection is owned by the caller that opened it.
pub struct PersistenceHandle {
    pub database_url: String,
    pub identity: String,
}

/// A fully bootstrapped rental session: the resolved identity and the
/// persistence handle opened for it, shared read-only by the rental
/// collaborator.
pub struct RentalSession {
    pub hotkey: Hotkey,
    pub persistence: PersistenceHandle,
}

impl RentalSession {
    /// A resolved session: the identity is well formed and the persistence
    /// handle was opened for exactly that identity.
    pub open spec fn wf(&self) -> bool {
        self.hotkey.wf() && self.persistence.identity@ == self.hotkey@
    }
}

/// Completes the bootstrap from the persistence collaborator's outcome.
///
/// A failure to open short-circuits as `PersistenceInitFailed` with the
/// wrapped cause, and no session is exposed. On success the session holds
/// exactly the identity and the request that was opened, so a session built
/// from a resolved identity and its own request is well formed.
pub fn complete_bootstrap(
    hotkey: Hotkey,
    request: PersistenceRequest,
    open_result: Result<(), String>,
) -> (r: Result<RentalSession, HandlerError>)
    ensures
        match open_result {
            Ok(u) => r matches Ok(s) && s.hotkey == hotkey && s.persistence.database_url@
                == request.database_url@ && s.persistence.identity@ == request.identity@,
            Err(cause) => r matches Err(HandlerError::PersistenceInitFailed { cause: c }) && c@
                == cause@,
        },
        (hotkey.wf() && request.identity@ == hotkey@ && open_result is Ok) ==> (r matches Ok(s)
            && s.wf()),
{
    match open_result {
        Ok(_) => Ok(
            RentalSession {
                hotkey,
                persistence: PersistenceHandle {
                    database_url: request.database_url,
                    identity: request.identity,
                },
            },
        ),
        Err(cause) => Err(HandlerError::PersistenceInitFailed { cause }),
    }
}

} // verus!
