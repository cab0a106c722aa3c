use vstd::prelude::*;

use crate::core_config::{ConfirmationMode, CoreConfig};
use crate::entities::{AwsBuilderConfig, BuilderConfig, ResourceTarget, TimeSpan};

verus! {

/// A request of the read API.
pub trait KomodoReadRequest {}

/// Get the version of the Komodo Core API.
#[derive(Debug, Clone)]
pub struct GetVersion {}

/// Response for [GetVersion].
#[derive(Debug, Clone)]
pub struct GetVersionResponse {
    /// The version of the Komodo Core API.
    pub version: String,
}

/// Get information about the Komodo Core API configuration.
#[derive(Debug, Clone)]
pub struct GetCoreInfo {}

/// Response for [GetCoreInfo].
#[derive(Debug)]
pub struct GetCoreInfoResponse {
    /// The title assigned to this core api.
    pub title: String,
    /// The monitoring interval of this core api.
    pub monitoring_interval: TimeSpan,
    /// The webhook base url.
    pub webhook_base_url: String,
    /// Whether transparent mode is enabled, which gives all users read access to all resources.
    pub transparent_mode: bool,
    /// Whether UI write access should be disabled.
    pub ui_write_disabled: bool,
    /// Whether non admins can create resources.
    pub disable_non_admin_create: bool,
    /// Whether confirm dialog should be disabled.
    pub disable_confirm_dialog: bool,
    /// Interaction used to confirm mutating UI actions.
    pub confirm_mode: ConfirmationMode,
    /// Seconds the button must be held when `confirm_mode` is `Hold`.
    pub confirm_hold_seconds: u64,
    /// Whether to disable websocket automatic reconnect.
    pub disable_websocket_reconnect: bool,
    /// Whether to enable fancy toml highlighting.
    pub enable_fancy_toml: bool,
    /// TZ identifier Core is using, if manually set.
    pub timezone: String,
    /// Public key for Core / Periphery authentication.
    pub public_key: String,
}

/// List the git providers available in Core / Periphery config files.
///
/// Includes the providers in the core config, those configured on builds,
/// repos and syncs, and those on the optional Server or Builder.
#[derive(Debug, Clone)]
pub struct ListGitProvidersFromConfig {
    /// Accepts an optional Server or Builder target to expand the core list with
    /// providers available on that specific resource.
    pub target: Option<ResourceTarget>,
}

/// List the docker registry providers available in Core / Periphery config files.
///
/// Includes the registries in the core config, those configured on builds
/// and deployments, and those on the optional Server or Builder.
#[derive(Debug, Clone)]
pub struct ListDockerRegistriesFromConfig {
    /// Accepts an optional Server or Builder target to expand the core list with
    /// providers available on that specific resource.
    pub target: Option<ResourceTarget>,
}

/// List the secret keys (not values) in the core configuration file.
#[derive(Debug, Clone)]
pub struct ListSecrets {
    /// Accepts an optional Server or Builder target to expand the core list with
    /// providers available on that specific resource.
    pub target: Option<ResourceTarget>,
}

impl KomodoReadRequest for GetVersion {}

impl KomodoReadRequest for GetCoreInfo {}

impl KomodoReadRequest for ListGitProvidersFromConfig {}

impl KomodoReadRequest for ListDockerRegistriesFromConfig {}

impl KomodoReadRequest for ListSecrets {}

/// The answer to [GetVersion] for a Core of the given version.
pub fn version_response(version: &str) -> (r: GetVersionResponse)
    ensures
        r.version@ == version@,
{
    GetVersionResponse { version: version.to_string() }
}

/// The confirmation mode the UI uses: the configured one, else double
/// click when the confirm dialog is disabled, else hold.
pub open spec fn effective_confirm_mode(config: CoreConfig) -> ConfirmationMode {
    match config.confirm_mode {
        Some(mode) => mode,
        None => if config.disable_confirm_dialog {
            ConfirmationMode::DoubleClick
        } else {
            ConfirmationMode::Hold
        },
    }
}

/// The base url webhooks are sent to: the configured one, else the host.
pub open spec fn effective_webhook_base_url(config: CoreConfig) -> Seq<char> {
    if config.webhook_base_url@.len() == 0 {
        config.host@
    } else {
        config.webhook_base_url@
    }
}

/// The answer to [GetCoreInfo] for a configuration and the public key of Core.
pub fn core_info(config: &CoreConfig, public_key: String) -> (r: GetCoreInfoResponse)
    ensures
        r.title == config.title,
        r.monitoring_interval == config.monitoring_interval,
        r.webhook_base_url@ == effective_webhook_base_url(*config),
        r.transparent_mode == config.transparent_mode,
        r.ui_write_disabled == config.ui_write_disabled,
        r.disable_confirm_dialog == config.disable_confirm_dialog,
        r.confirm_mode == effective_confirm_mode(*config),
        config.confirm_mode is Some ==> r.confirm_mode == config.confirm_mode->0,
        config.confirm_mode is None && config.disable_confirm_dialog ==> r.confirm_mode
            == ConfirmationMode::DoubleClick,
        config.confirm_mode is None && !config.disable_confirm_dialog ==> r.confirm_mode
            == ConfirmationMode::Hold,
        config.webhook_base_url@.len() > 0 ==> r.webhook_base_url == config.webhook_base_url,
        config.webhook_base_url@.len() == 0 ==> r.webhook_base_url == config.host,
        r.confirm_hold_seconds == config.confirm_hold_seconds,
        r.disable_non_admin_create == config.disable_non_admin_create,
        r.disable_websocket_reconnect == config.disable_websocket_reconnect,
        r.enable_fancy_toml == config.enable_fancy_toml,
        r.timezone == config.timezone,
        r.public_key == public_key,
{
    let webhook_base_url = if config.webhook_base_url.as_str().is_empty() {
        config.host.clone()
    } else {
        config.webhook_base_url.clone()
    };
    let confirm_mode = match config.confirm_mode {
        Some(mode) => mode,
        None => if config.disable_confirm_dialog {
            ConfirmationMode::DoubleClick
        } else {
            ConfirmationMode::Hold
        },
    };
    GetCoreInfoResponse {
        title: config.title.clone(),
        monitoring_interval: config.monitoring_interval,
        webhook_base_url,
        transparent_mode: config.transparent_mode,
        ui_write_disabled: config.ui_write_disabled,
        disable_confirm_dialog: config.disable_confirm_dialog,
        confirm_mode,
        confirm_hold_seconds: config.confirm_hold_seconds,
        disable_non_admin_create: config.disable_non_admin_create,
        disable_websocket_reconnect: config.disable_websocket_reconnect,
        enable_fancy_toml: config.enable_fancy_toml,
        timezone: config.timezone.clone(),
        public_key,
    }
}

/// What a listing request needs fetched for its target.
#[derive(Debug, PartialEq, Eq)]
pub enum TargetRequest {
    /// No target: the core configuration alone is listed.
    NoTarget,
    /// The server with this id.
    Server(String),
    /// The builder with this id.
    Builder(String),
}

/// A read request that cannot be answered.
#[derive(Debug, Clone, Copy, PartialEq, Eq, Structural)]
pub enum ReadError {
    /// The target is neither a server nor a builder.
    InvalidTarget,
}

impl ReadError {
    /// The HTTP status the refusal is answered with: 400, Bad Request.
    pub fn status(&self) -> (r: u16)
        ensures
            r == 400,
    {
        400
    }

    /// The message the error is reported with.
    pub fn message(&self) -> (r: String)
        ensures
            r@ == "target must be `Server` or `Builder`"@,
    {
        "target must be `Server` or `Builder`".to_string()
    }
}

/// What a listing request with `target` needs fetched: the server or builder
/// it names, or nothing without a target. Any other kind of target is
/// refused.
pub fn target_request(target: Option<ResourceTarget>) -> (r: Result<TargetRequest, ReadError>)
    ensures
        match target {
            None => r == Ok::<TargetRequest, ReadError>(TargetRequest::NoTarget),
            Some(ResourceTarget::Server(id)) => r == Ok::<TargetRequest, ReadError>(
                TargetRequest::Server(id),
            ),
            Some(ResourceTarget::Builder(id)) => r == Ok::<TargetRequest, ReadError>(
                TargetRequest::Builder(id),
            ),
            Some(_) => r == Err::<TargetRequest, ReadError>(ReadError::InvalidTarget),
        },
{
    match target {
        None => Ok(TargetRequest::NoTarget),
        Some(ResourceTarget::Server(id)) => Ok(TargetRequest::Server(id)),
        Some(ResourceTarget::Builder(id)) => Ok(TargetRequest::Builder(id)),
        Some(_) => Err(ReadError::InvalidTarget),
    }
}

/// Where the settings a builder target adds to a listing come from.
#[derive(Debug)]
pub enum BuilderSource {
    /// Nowhere: the builder reaches a periphery agent by url.
    Nothing,
    /// The periphery agent of the server with this id.
    Server(String),
    /// The builder itself, which carries them (an AWS builder).
    Own(AwsBuilderConfig),
}

/// Where the settings of a builder with configuration `config` come from
/// when it is the target of a listing: nowhere for a url builder, the
/// server of a server builder, the builder's own for an AWS builder.
pub fn builder_source(config: BuilderConfig) -> (r: BuilderSource)
    ensures
        match config {
            BuilderConfig::Url(_) => r == BuilderSource::Nothing,
            BuilderConfig::Server(c) => r == BuilderSource::Server(c.server_id),
            BuilderConfig::Aws(c) => r == BuilderSource::Own(c),
        },
{
    match config {
        BuilderConfig::Url(_) => BuilderSource::Nothing,
        BuilderConfig::Server(c) => BuilderSource::Server(c.server_id),
        BuilderConfig::Aws(c) => BuilderSource::Own(c),
    }
}

/// The UI confirms as configured when a confirmation mode is configured,
/// whatever the confirm dialog setting; only without one does the disabled
/// dialog select double click, and otherwise the UI holds.
pub proof fn law_effective_confirm_mode(config: CoreConfig)
    ensures
        config.confirm_mode is Some ==> effective_confirm_mode(config) == config.confirm_mode->0,
        config.confirm_mode is None && config.disable_confirm_dialog ==> effective_confirm_mode(
            config,
        ) == ConfirmationMode::DoubleClick,
        config.confirm_mode is None && !config.disable_confirm_dialog ==> effective_confirm_mode(
            config,
        ) == ConfirmationMode::Hold,
{
}

/// Webhooks go to the configured base url when one is configured, and to
/// the host otherwise.
pub proof fn law_effective_webhook_base_url(config: CoreConfig)
    ensures
        config.webhook_base_url@.len() > 0 ==> effective_webhook_base_url(config)
            == config.webhook_base_url@,
        config.webhook_base_url@.len() == 0 ==> effective_webhook_base_url(config) == config.host@,
{
}

} // verus!
