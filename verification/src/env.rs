use vstd::prelude::*;

use crate::core_config::{AwsCredentials, ConfirmationMode, CoreConfig};
use crate::entities::{DatabaseConfig, LogConfig, LogLevel, NamedOauthConfig, StdioLogMode, TimeSpan};

verus! {

/// Settings read from the environment, each of which overrides a setting of
/// the configuration files. Variables are named like the fields, in upper
/// case.
///
/// A `*_file` field names a file holding the value (a docker secret, say).
/// Reading it is the caller's part: the value it holds is put in the
/// matching value field (eg. `komodo_private_key`) before the overrides are
/// applied, where it takes precedence over a value given directly.
#[derive(Debug)]
pub struct Env {
    /// Configuration files or folders to read. Default: `/config/config.toml`.
    pub komodo_config_paths: Vec<String>,
    /// Keywords a file inside a configuration folder must match to be read.
    pub komodo_config_keywords: Vec<String>,
    /// Merge nested tables (secrets, providers) across configuration files.
    pub komodo_merge_nested_config: bool,
    /// Extend arrays across configuration files.
    pub komodo_extend_config_arrays: bool,
    /// Print extra logs while reading configuration.
    pub komodo_config_debug: bool,
    /// Override `title`.
    pub komodo_title: Option<String>,
    /// Override `host`.
    pub komodo_host: Option<String>,
    /// Override `port`.
    pub komodo_port: Option<u16>,
    /// Override `bind_ip`.
    pub komodo_bind_ip: Option<String>,
    /// Override `private_key`.
    pub komodo_private_key: Option<String>,
    /// Override `private_key` with the contents of a file.
    pub komodo_private_key_file: Option<String>,
    /// Override `periphery_public_keys`.
    pub komodo_periphery_public_keys: Option<Vec<String>>,
    /// Override `passkey`.
    pub komodo_passkey: Option<String>,
    /// Override `passkey` with the contents of a file.
    pub komodo_passkey_file: Option<String>,
    /// Override `timezone`.
    pub komodo_timezone: Option<String>,
    /// Override `first_server_name`.
    pub komodo_first_server_name: Option<String>,
    /// Override `first_server_address`.
    pub komodo_first_server_address: Option<String>,
    /// Override `jwt_secret`.
    pub komodo_jwt_secret: Option<String>,
    /// Override `jwt_secret` with the contents of a file.
    pub komodo_jwt_secret_file: Option<String>,
    /// Override `jwt_ttl`.
    pub komodo_jwt_ttl: Option<TimeSpan>,
    /// Override `resource_poll_interval`.
    pub komodo_resource_poll_interval: Option<TimeSpan>,
    /// Override `monitoring_interval`.
    pub komodo_monitoring_interval: Option<TimeSpan>,
    /// Override `keep_stats_for_days`.
    pub komodo_keep_stats_for_days: Option<u64>,
    /// Override `keep_alerts_for_days`.
    pub komodo_keep_alerts_for_days: Option<u64>,
    /// Override `webhook_secret`.
    pub komodo_webhook_secret: Option<String>,
    /// Override `webhook_secret` with the contents of a file.
    pub komodo_webhook_secret_file: Option<String>,
    /// Override `webhook_base_url`.
    pub komodo_webhook_base_url: Option<String>,
    /// Override `transparent_mode`.
    pub komodo_transparent_mode: Option<bool>,
    /// Override `ui_write_disabled`.
    pub komodo_ui_write_disabled: Option<bool>,
    /// Override `enable_new_users`.
    pub komodo_enable_new_users: Option<bool>,
    /// Override `disable_user_registration`.
    pub komodo_disable_user_registration: Option<bool>,
    /// Override `disable_local_user_registration`.
    pub komodo_disable_local_user_registration: Option<bool>,
    /// Override `disable_oidc_user_registration`.
    pub komodo_disable_oidc_user_registration: Option<bool>,
    /// Override `lock_login_credentials_for`.
    pub komodo_lock_login_credentials_for: Option<Vec<String>>,
    /// Override `disable_confirm_dialog`.
    pub komodo_disable_confirm_dialog: Option<bool>,
    /// Override `confirm_mode`.
    pub komodo_confirm_mode: Option<ConfirmationMode>,
    /// Override `confirm_hold_seconds`.
    pub komodo_confirm_hold_seconds: Option<u64>,
    /// Override `disable_non_admin_create`.
    pub komodo_disable_non_admin_create: Option<bool>,
    /// Override `disable_websocket_reconnect`.
    pub komodo_disable_websocket_reconnect: Option<bool>,
    /// Override `disable_init_resources`.
    pub komodo_disable_init_resources: Option<bool>,
    /// Override `enable_fancy_toml`.
    pub komodo_enable_fancy_toml: Option<bool>,
    /// Override `local_auth`.
    pub komodo_local_auth: Option<bool>,
    /// Override `min_password_length`.
    pub komodo_min_password_length: Option<u16>,
    /// Override `init_admin_username`.
    pub komodo_init_admin_username: Option<String>,
    /// Override `init_admin_username` with the contents of a file.
    pub komodo_init_admin_username_file: Option<String>,
    /// Override `init_admin_password`.
    pub komodo_init_admin_password: Option<String>,
    /// Override `init_admin_password` with the contents of a file.
    pub komodo_init_admin_password_file: Option<String>,
    /// Override `oidc_enabled`.
    pub komodo_oidc_enabled: Option<bool>,
    /// Override `oidc_provider`.
    pub komodo_oidc_provider: Option<String>,
    /// Override `oidc_redirect_host`.
    pub komodo_oidc_redirect_host: Option<String>,
    /// Override `oidc_client_id`.
    pub komodo_oidc_client_id: Option<String>,
    /// Override `oidc_client_id` with the contents of a file.
    pub komodo_oidc_client_id_file: Option<String>,
    /// Override `oidc_client_secret`.
    pub komodo_oidc_client_secret: Option<String>,
    /// Override `oidc_client_secret` with the contents of a file.
    pub komodo_oidc_client_secret_file: Option<String>,
    /// Override `oidc_use_full_email`.
    pub komodo_oidc_use_full_email: Option<bool>,
    /// Override `oidc_additional_audiences`.
    pub komodo_oidc_additional_audiences: Option<Vec<String>>,
    /// Override `oidc_additional_audiences` with the comma separated list in a file.
    pub komodo_oidc_additional_audiences_file: Option<String>,
    /// Override `oidc_auto_redirect`.
    pub komodo_oidc_auto_redirect: Option<bool>,
    /// Override `google_oauth.enabled`.
    pub komodo_google_oauth_enabled: Option<bool>,
    /// Override `google_oauth.client_id`.
    pub komodo_google_oauth_id: Option<String>,
    /// Override `google_oauth.client_id` with the contents of a file.
    pub komodo_google_oauth_id_file: Option<String>,
    /// Override `google_oauth.client_secret`.
    pub komodo_google_oauth_secret: Option<String>,
    /// Override `google_oauth.client_secret` with the contents of a file.
    pub komodo_google_oauth_secret_file: Option<String>,
    /// Override `github_oauth.enabled`.
    pub komodo_github_oauth_enabled: Option<bool>,
    /// Override `github_oauth.client_id`.
    pub komodo_github_oauth_id: Option<String>,
    /// Override `github_oauth.client_id` with the contents of a file.
    pub komodo_github_oauth_id_file: Option<String>,
    /// Override `github_oauth.client_secret`.
    pub komodo_github_oauth_secret: Option<String>,
    /// Override `github_oauth.client_secret` with the contents of a file.
    pub komodo_github_oauth_secret_file: Option<String>,
    /// Override `auth_rate_limit_disabled`.
    pub komodo_auth_rate_limit_disabled: Option<bool>,
    /// Override `auth_rate_limit_max_attempts`.
    pub komodo_auth_rate_limit_max_attempts: Option<u16>,
    /// Override `auth_rate_limit_window_seconds`.
    pub komodo_auth_rate_limit_window_seconds: Option<u64>,
    /// Override `cors_allowed_origins`.
    pub komodo_cors_allowed_origins: Option<Vec<String>>,
    /// Override `cors_allow_credentials`.
    pub komodo_cors_allow_credentials: Option<bool>,
    /// Override `session_allow_cross_site`.
    pub komodo_session_allow_cross_site: Option<bool>,
    /// Override `x_content_type_options`.
    pub komodo_x_content_type_options: Option<String>,
    /// Override `x_frame_options`.
    pub komodo_x_frame_options: Option<String>,
    /// Override `x_xss_protection`.
    pub komodo_x_xss_protection: Option<String>,
    /// Override `referrer_policy`.
    pub komodo_referrer_policy: Option<String>,
    /// Override `content_security_policy`.
    pub komodo_content_security_policy: Option<String>,
    /// Override `database.uri`.
    pub komodo_database_uri: Option<String>,
    /// Override `database.uri` with the contents of a file.
    pub komodo_database_uri_file: Option<String>,
    /// Override `database.address`.
    pub komodo_database_address: Option<String>,
    /// Override `database.username`.
    pub komodo_database_username: Option<String>,
    /// Override `database.username` with the contents of a file.
    pub komodo_database_username_file: Option<String>,
    /// Override `database.password`.
    pub komodo_database_password: Option<String>,
    /// Override `database.password` with the contents of a file.
    pub komodo_database_password_file: Option<String>,
    /// Override `database.app_name`.
    pub komodo_database_app_name: Option<String>,
    /// Override `database.db_name`.
    pub komodo_database_db_name: Option<String>,
    /// Override `aws.access_key_id`.
    pub komodo_aws_access_key_id: Option<String>,
    /// Override `aws.access_key_id` with the contents of a file.
    pub komodo_aws_access_key_id_file: Option<String>,
    /// Override `aws.secret_access_key`.
    pub komodo_aws_secret_access_key: Option<String>,
    /// Override `aws.secret_access_key` with the contents of a file.
    pub komodo_aws_secret_access_key_file: Option<String>,
    /// Override `logging.level`.
    pub komodo_logging_level: Option<LogLevel>,
    /// Override `logging.stdio`.
    pub komodo_logging_stdio: Option<StdioLogMode>,
    /// Override `logging.pretty`.
    pub komodo_logging_pretty: Option<bool>,
    /// Override `logging.location`.
    pub komodo_logging_location: Option<bool>,
    /// Override `logging.ansi`.
    pub komodo_logging_ansi: Option<bool>,
    /// Override `logging.timestamps`.
    pub komodo_logging_timestamps: Option<bool>,
    /// Override `logging.otlp_endpoint`.
    pub komodo_logging_otlp_endpoint: Option<String>,
    /// Override `logging.opentelemetry_service_name`.
    pub komodo_logging_opentelemetry_service_name: Option<String>,
    /// Override `logging.opentelemetry_scope_name`.
    pub komodo_logging_opentelemetry_scope_name: Option<String>,
    /// Override `pretty_startup_config`.
    pub komodo_pretty_startup_config: Option<bool>,
    /// Override `unsafe_unsanitized_startup_config`.
    pub komodo_unsafe_unsanitized_startup_config: Option<bool>,
    /// Override `internet_interface`.
    pub komodo_internet_interface: Option<String>,
    /// Override `ssl_enabled`.
    pub komodo_ssl_enabled: Option<bool>,
    /// Override `ssl_key_file`.
    pub komodo_ssl_key_file: Option<String>,
    /// Override `ssl_cert_file`.
    pub komodo_ssl_cert_file: Option<String>,
    /// Override `ui_path`.
    pub komodo_ui_path: Option<String>,
    /// Override `ui_index_force_no_cache`.
    pub komodo_ui_index_force_no_cache: Option<bool>,
    /// Override `sync_directory`.
    pub komodo_sync_directory: Option<String>,
    /// Override `repo_directory`.
    pub komodo_repo_directory: Option<String>,
    /// Override `action_directory`.
    pub komodo_action_directory: Option<String>,
}

/// The first of `a` and `b` that holds a value.
pub open spec fn either<T>(a: Option<T>, b: Option<T>) -> Option<T> {
    match a {
        Some(x) => Some(x),
        None => b,
    }
}

fn first_given<T>(a: Option<T>, b: Option<T>) -> (r: Option<T>)
    ensures
        r == either(a, b),
{
    match a {
        Some(x) => Some(x),
        None => b,
    }
}

/// The confirmation mode the environment selects: `komodo_confirm_mode`,
/// else double click when `komodo_disable_confirm_dialog` is set to true.
pub open spec fn env_confirm_mode(env: Env) -> Option<ConfirmationMode> {
    match env.komodo_confirm_mode {
        Some(mode) => Some(mode),
        None => match env.komodo_disable_confirm_dialog {
            Some(true) => Some(ConfirmationMode::DoubleClick),
            _ => None,
        },
    }
}

/// `r` takes each server, TLS and directory setting from the environment where it is given there, else from `config`.
#[verifier::opaque]
pub open spec fn overrides_server(env: Env, config: CoreConfig, r: CoreConfig) -> bool {
    &&& r.title == env.komodo_title.unwrap_or(config.title)
    &&& r.host == env.komodo_host.unwrap_or(config.host)
    &&& r.port == env.komodo_port.unwrap_or(config.port)
    &&& r.bind_ip == env.komodo_bind_ip.unwrap_or(config.bind_ip)
    &&& r.internet_interface == env.komodo_internet_interface.unwrap_or(config.internet_interface)
    &&& r.periphery_public_keys == either(env.komodo_periphery_public_keys, config.periphery_public_keys)
    &&& r.timezone == env.komodo_timezone.unwrap_or(config.timezone)
    &&& r.first_server_name == either(env.komodo_first_server_name, config.first_server_name)
    &&& r.first_server_address == either(env.komodo_first_server_address, config.first_server_address)
    &&& r.ssl_enabled == env.komodo_ssl_enabled.unwrap_or(config.ssl_enabled)
    &&& r.ssl_key_file == env.komodo_ssl_key_file.unwrap_or(config.ssl_key_file)
    &&& r.ssl_cert_file == env.komodo_ssl_cert_file.unwrap_or(config.ssl_cert_file)
    &&& r.sync_directory == env.komodo_sync_directory.unwrap_or(config.sync_directory)
    &&& r.repo_directory == env.komodo_repo_directory.unwrap_or(config.repo_directory)
    &&& r.action_directory == env.komodo_action_directory.unwrap_or(config.action_directory)
    &&& r.ui_path == env.komodo_ui_path.unwrap_or(config.ui_path)
    &&& r.ui_index_force_no_cache == env.komodo_ui_index_force_no_cache.unwrap_or(config.ui_index_force_no_cache)
}

/// `r` takes each UI and startup setting from the environment where it is given there, else from `config`; the confirmation mode is the one the environment selects, else the one of `config`.
#[verifier::opaque]
pub open spec fn overrides_interface(env: Env, config: CoreConfig, r: CoreConfig) -> bool {
    &&& r.ui_write_disabled == env.komodo_ui_write_disabled.unwrap_or(config.ui_write_disabled)
    &&& r.disable_confirm_dialog == env.komodo_disable_confirm_dialog.unwrap_or(config.disable_confirm_dialog)
    &&& r.confirm_mode == either(env_confirm_mode(env), config.confirm_mode)
    &&& r.confirm_hold_seconds == env.komodo_confirm_hold_seconds.unwrap_or(config.confirm_hold_seconds)
    &&& r.disable_websocket_reconnect == env.komodo_disable_websocket_reconnect.unwrap_or(config.disable_websocket_reconnect)
    &&& r.disable_init_resources == env.komodo_disable_init_resources.unwrap_or(config.disable_init_resources)
    &&& r.enable_fancy_toml == env.komodo_enable_fancy_toml.unwrap_or(config.enable_fancy_toml)
    &&& r.transparent_mode == env.komodo_transparent_mode.unwrap_or(config.transparent_mode)
    &&& r.pretty_startup_config == env.komodo_pretty_startup_config.unwrap_or(config.pretty_startup_config)
    &&& r.unsafe_unsanitized_startup_config == env.komodo_unsafe_unsanitized_startup_config.unwrap_or(config.unsafe_unsanitized_startup_config)
}

/// `r` takes each user, token and rate limit setting from the environment where it is given there, else from `config`.
#[verifier::opaque]
pub open spec fn overrides_users(env: Env, config: CoreConfig, r: CoreConfig) -> bool {
    &&& r.local_auth == env.komodo_local_auth.unwrap_or(config.local_auth)
    &&& r.min_password_length == env.komodo_min_password_length.unwrap_or(config.min_password_length)
    &&& r.enable_new_users == env.komodo_enable_new_users.unwrap_or(config.enable_new_users)
    &&& r.disable_user_registration == env.komodo_disable_user_registration.unwrap_or(config.disable_user_registration)
    &&& r.disable_local_user_registration == either(env.komodo_disable_local_user_registration, config.disable_local_user_registration)
    &&& r.disable_oidc_user_registration == either(env.komodo_disable_oidc_user_registration, config.disable_oidc_user_registration)
    &&& r.lock_login_credentials_for == env.komodo_lock_login_credentials_for.unwrap_or(config.lock_login_credentials_for)
    &&& r.disable_non_admin_create == env.komodo_disable_non_admin_create.unwrap_or(config.disable_non_admin_create)
    &&& r.jwt_ttl == env.komodo_jwt_ttl.unwrap_or(config.jwt_ttl)
    &&& r.auth_rate_limit_disabled == env.komodo_auth_rate_limit_disabled.unwrap_or(config.auth_rate_limit_disabled)
    &&& r.auth_rate_limit_max_attempts == env.komodo_auth_rate_limit_max_attempts.unwrap_or(config.auth_rate_limit_max_attempts)
    &&& r.auth_rate_limit_window_seconds == env.komodo_auth_rate_limit_window_seconds.unwrap_or(config.auth_rate_limit_window_seconds)
}

/// `r` takes each CORS, header, webhook, pruning and polling setting from the environment where it is given there, else from `config`.
#[verifier::opaque]
pub open spec fn overrides_web(env: Env, config: CoreConfig, r: CoreConfig) -> bool {
    &&& r.cors_allowed_origins == env.komodo_cors_allowed_origins.unwrap_or(config.cors_allowed_origins)
    &&& r.cors_allow_credentials == env.komodo_cors_allow_credentials.unwrap_or(config.cors_allow_credentials)
    &&& r.session_allow_cross_site == env.komodo_session_allow_cross_site.unwrap_or(config.session_allow_cross_site)
    &&& r.x_content_type_options == env.komodo_x_content_type_options.unwrap_or(config.x_content_type_options)
    &&& r.x_frame_options == env.komodo_x_frame_options.unwrap_or(config.x_frame_options)
    &&& r.x_xss_protection == env.komodo_x_xss_protection.unwrap_or(config.x_xss_protection)
    &&& r.referrer_policy == env.komodo_referrer_policy.unwrap_or(config.referrer_policy)
    &&& r.content_security_policy == env.komodo_content_security_policy.unwrap_or(config.content_security_policy)
    &&& r.webhook_base_url == env.komodo_webhook_base_url.unwrap_or(config.webhook_base_url)
    &&& r.keep_stats_for_days == env.komodo_keep_stats_for_days.unwrap_or(config.keep_stats_for_days)
    &&& r.keep_alerts_for_days == env.komodo_keep_alerts_for_days.unwrap_or(config.keep_alerts_for_days)
    &&& r.resource_poll_interval == env.komodo_resource_poll_interval.unwrap_or(config.resource_poll_interval)
    &&& r.monitoring_interval == env.komodo_monitoring_interval.unwrap_or(config.monitoring_interval)
}

/// `r` takes each secret, database, login and OIDC setting from the environment where it is given there, else from `config`.
#[verifier::opaque]
pub open spec fn overrides_secrets_and_auth(env: Env, config: CoreConfig, r: CoreConfig) -> bool {
    &&& r.private_key == env.komodo_private_key.unwrap_or(config.private_key)
    &&& r.passkey == either(env.komodo_passkey, config.passkey)
    &&& r.database.uri == env.komodo_database_uri.unwrap_or(config.database.uri)
    &&& r.database.address == env.komodo_database_address.unwrap_or(config.database.address)
    &&& r.database.username == env.komodo_database_username.unwrap_or(config.database.username)
    &&& r.database.password == env.komodo_database_password.unwrap_or(config.database.password)
    &&& r.database.app_name == env.komodo_database_app_name.unwrap_or(config.database.app_name)
    &&& r.database.db_name == env.komodo_database_db_name.unwrap_or(config.database.db_name)
    &&& r.init_admin_username == either(env.komodo_init_admin_username, config.init_admin_username)
    &&& r.init_admin_password == env.komodo_init_admin_password.unwrap_or(config.init_admin_password)
    &&& r.jwt_secret == env.komodo_jwt_secret.unwrap_or(config.jwt_secret)
    &&& r.oidc_enabled == env.komodo_oidc_enabled.unwrap_or(config.oidc_enabled)
    &&& r.oidc_provider == env.komodo_oidc_provider.unwrap_or(config.oidc_provider)
    &&& r.oidc_redirect_host == env.komodo_oidc_redirect_host.unwrap_or(config.oidc_redirect_host)
    &&& r.oidc_client_id == env.komodo_oidc_client_id.unwrap_or(config.oidc_client_id)
    &&& r.oidc_client_secret == env.komodo_oidc_client_secret.unwrap_or(config.oidc_client_secret)
    &&& r.oidc_use_full_email == env.komodo_oidc_use_full_email.unwrap_or(config.oidc_use_full_email)
    &&& r.oidc_additional_audiences == env.komodo_oidc_additional_audiences.unwrap_or(config.oidc_additional_audiences)
    &&& r.oidc_auto_redirect == env.komodo_oidc_auto_redirect.unwrap_or(config.oidc_auto_redirect)
    &&& r.google_oauth.enabled == env.komodo_google_oauth_enabled.unwrap_or(config.google_oauth.enabled)
    &&& r.google_oauth.client_id == env.komodo_google_oauth_id.unwrap_or(config.google_oauth.client_id)
    &&& r.google_oauth.client_secret == env.komodo_google_oauth_secret.unwrap_or(config.google_oauth.client_secret)
    &&& r.github_oauth.enabled == env.komodo_github_oauth_enabled.unwrap_or(config.github_oauth.enabled)
    &&& r.github_oauth.client_id == env.komodo_github_oauth_id.unwrap_or(config.github_oauth.client_id)
    &&& r.github_oauth.client_secret == env.komodo_github_oauth_secret.unwrap_or(config.github_oauth.client_secret)
    &&& r.webhook_secret == env.komodo_webhook_secret.unwrap_or(config.webhook_secret)
    &&& r.aws.access_key_id == env.komodo_aws_access_key_id.unwrap_or(config.aws.access_key_id)
    &&& r.aws.secret_access_key == env.komodo_aws_secret_access_key.unwrap_or(config.aws.secret_access_key)
}

/// `r` takes each logging setting from the environment where it is given there, else from `config`; secrets, git providers and docker registries come from `config` alone.
#[verifier::opaque]
pub open spec fn overrides_nested(env: Env, config: CoreConfig, r: CoreConfig) -> bool {
    &&& r.logging.level == env.komodo_logging_level.unwrap_or(config.logging.level)
    &&& r.logging.stdio == env.komodo_logging_stdio.unwrap_or(config.logging.stdio)
    &&& r.logging.pretty == env.komodo_logging_pretty.unwrap_or(config.logging.pretty)
    &&& r.logging.location == env.komodo_logging_location.unwrap_or(config.logging.location)
    &&& r.logging.ansi == env.komodo_logging_ansi.unwrap_or(config.logging.ansi)
    &&& r.logging.timestamps == env.komodo_logging_timestamps.unwrap_or(config.logging.timestamps)
    &&& r.logging.otlp_endpoint == env.komodo_logging_otlp_endpoint.unwrap_or(config.logging.otlp_endpoint)
    &&& r.logging.opentelemetry_service_name == env.komodo_logging_opentelemetry_service_name.unwrap_or(config.logging.opentelemetry_service_name)
    &&& r.logging.opentelemetry_scope_name == env.komodo_logging_opentelemetry_scope_name.unwrap_or(config.logging.opentelemetry_scope_name)
    &&& r.git_providers == config.git_providers
    &&& r.docker_registries == config.docker_registries
    &&& r.secrets == config.secrets
}

/// Applies the overrides of the environment to the configuration read from
/// the configuration files: every setting given in the environment replaces
/// the one of the files, the others are kept. Secrets, git providers and
/// docker registries are read from the files alone.
#[verifier::rlimit(100)]
pub fn apply_env_overrides(env: Env, config: CoreConfig) -> (r: CoreConfig)
    ensures
        overrides_server(env, config, r),
        overrides_interface(env, config, r),
        overrides_users(env, config, r),
        overrides_web(env, config, r),
        overrides_secrets_and_auth(env, config, r),
        overrides_nested(env, config, r),
        config.well_formed() ==> r.well_formed(),
{
    let ghost env0 = env;
    let ghost config0 = config;
    let confirm_mode = match env.komodo_confirm_mode {
        Some(mode) => Some(mode),
        None => match env.komodo_disable_confirm_dialog {
            Some(true) => Some(ConfirmationMode::DoubleClick),
            _ => None,
        },
    };
    let confirm_mode = first_given(confirm_mode, config.confirm_mode);
    let title = env.komodo_title.unwrap_or(config.title);
    let host = env.komodo_host.unwrap_or(config.host);
    let port = env.komodo_port.unwrap_or(config.port);
    let bind_ip = env.komodo_bind_ip.unwrap_or(config.bind_ip);
    let internet_interface = env.komodo_internet_interface.unwrap_or(config.internet_interface);
    let private_key = env.komodo_private_key.unwrap_or(config.private_key);
    let periphery_public_keys = first_given(env.komodo_periphery_public_keys, config.periphery_public_keys);
    let passkey = first_given(env.komodo_passkey, config.passkey);
    let timezone = env.komodo_timezone.unwrap_or(config.timezone);
    let ui_write_disabled = env.komodo_ui_write_disabled.unwrap_or(config.ui_write_disabled);
    let disable_confirm_dialog = env.komodo_disable_confirm_dialog.unwrap_or(config.disable_confirm_dialog);
    let confirm_hold_seconds = env.komodo_confirm_hold_seconds.unwrap_or(config.confirm_hold_seconds);
    let disable_websocket_reconnect = env.komodo_disable_websocket_reconnect.unwrap_or(config.disable_websocket_reconnect);
    let disable_init_resources = env.komodo_disable_init_resources.unwrap_or(config.disable_init_resources);
    let enable_fancy_toml = env.komodo_enable_fancy_toml.unwrap_or(config.enable_fancy_toml);
    let first_server_name = first_given(env.komodo_first_server_name, config.first_server_name);
    let first_server_address = first_given(env.komodo_first_server_address, config.first_server_address);
    let database = DatabaseConfig { uri: env.komodo_database_uri.unwrap_or(config.database.uri), address: env.komodo_database_address.unwrap_or(config.database.address), username: env.komodo_database_username.unwrap_or(config.database.username), password: env.komodo_database_password.unwrap_or(config.database.password), app_name: env.komodo_database_app_name.unwrap_or(config.database.app_name), db_name: env.komodo_database_db_name.unwrap_or(config.database.db_name) };
    let local_auth = env.komodo_local_auth.unwrap_or(config.local_auth);
    let min_password_length = env.komodo_min_password_length.unwrap_or(config.min_password_length);
    let init_admin_username = first_given(env.komodo_init_admin_username, config.init_admin_username);
    let init_admin_password = env.komodo_init_admin_password.unwrap_or(config.init_admin_password);
    let transparent_mode = env.komodo_transparent_mode.unwrap_or(config.transparent_mode);
    let enable_new_users = env.komodo_enable_new_users.unwrap_or(config.enable_new_users);
    let disable_user_registration = env.komodo_disable_user_registration.unwrap_or(config.disable_user_registration);
    let disable_local_user_registration = first_given(env.komodo_disable_local_user_registration, config.disable_local_user_registration);
    let disable_oidc_user_registration = first_given(env.komodo_disable_oidc_user_registration, config.disable_oidc_user_registration);
    let lock_login_credentials_for = env.komodo_lock_login_credentials_for.unwrap_or(config.lock_login_credentials_for);
    let disable_non_admin_create = env.komodo_disable_non_admin_create.unwrap_or(config.disable_non_admin_create);
    let jwt_secret = env.komodo_jwt_secret.unwrap_or(config.jwt_secret);
    let jwt_ttl = env.komodo_jwt_ttl.unwrap_or(config.jwt_ttl);
    let oidc_enabled = env.komodo_oidc_enabled.unwrap_or(config.oidc_enabled);
    let oidc_provider = env.komodo_oidc_provider.unwrap_or(config.oidc_provider);
    let oidc_redirect_host = env.komodo_oidc_redirect_host.unwrap_or(config.oidc_redirect_host);
    let oidc_client_id = env.komodo_oidc_client_id.unwrap_or(config.oidc_client_id);
    let oidc_client_secret = env.komodo_oidc_client_secret.unwrap_or(config.oidc_client_secret);
    let oidc_use_full_email = env.komodo_oidc_use_full_email.unwrap_or(config.oidc_use_full_email);
    let oidc_additional_audiences = env.komodo_oidc_additional_audiences.unwrap_or(config.oidc_additional_audiences);
    let oidc_auto_redirect = env.komodo_oidc_auto_redirect.unwrap_or(config.oidc_auto_redirect);
    let google_oauth = NamedOauthConfig { enabled: env.komodo_google_oauth_enabled.unwrap_or(config.google_oauth.enabled), client_id: env.komodo_google_oauth_id.unwrap_or(config.google_oauth.client_id), client_secret: env.komodo_google_oauth_secret.unwrap_or(config.google_oauth.client_secret) };
    let github_oauth = NamedOauthConfig { enabled: env.komodo_github_oauth_enabled.unwrap_or(config.github_oauth.enabled), client_id: env.komodo_github_oauth_id.unwrap_or(config.github_oauth.client_id), client_secret: env.komodo_github_oauth_secret.unwrap_or(config.github_oauth.client_secret) };
    let auth_rate_limit_disabled = env.komodo_auth_rate_limit_disabled.unwrap_or(config.auth_rate_limit_disabled);
    let auth_rate_limit_max_attempts = env.komodo_auth_rate_limit_max_attempts.unwrap_or(config.auth_rate_limit_max_attempts);
    let auth_rate_limit_window_seconds = env.komodo_auth_rate_limit_window_seconds.unwrap_or(config.auth_rate_limit_window_seconds);
    let cors_allowed_origins = env.komodo_cors_allowed_origins.unwrap_or(config.cors_allowed_origins);
    let cors_allow_credentials = env.komodo_cors_allow_credentials.unwrap_or(config.cors_allow_credentials);
    let session_allow_cross_site = env.komodo_session_allow_cross_site.unwrap_or(config.session_allow_cross_site);
    let x_content_type_options = env.komodo_x_content_type_options.unwrap_or(config.x_content_type_options);
    let x_frame_options = env.komodo_x_frame_options.unwrap_or(config.x_frame_options);
    let x_xss_protection = env.komodo_x_xss_protection.unwrap_or(config.x_xss_protection);
    let referrer_policy = env.komodo_referrer_policy.unwrap_or(config.referrer_policy);
    let content_security_policy = env.komodo_content_security_policy.unwrap_or(config.content_security_policy);
    let webhook_secret = env.komodo_webhook_secret.unwrap_or(config.webhook_secret);
    let webhook_base_url = env.komodo_webhook_base_url.unwrap_or(config.webhook_base_url);
    let logging = LogConfig { level: env.komodo_logging_level.unwrap_or(config.logging.level), stdio: env.komodo_logging_stdio.unwrap_or(config.logging.stdio), pretty: env.komodo_logging_pretty.unwrap_or(config.logging.pretty), location: env.komodo_logging_location.unwrap_or(config.logging.location), ansi: env.komodo_logging_ansi.unwrap_or(config.logging.ansi), timestamps: env.komodo_logging_timestamps.unwrap_or(config.logging.timestamps), otlp_endpoint: env.komodo_logging_otlp_endpoint.unwrap_or(config.logging.otlp_endpoint), opentelemetry_service_name: env.komodo_logging_opentelemetry_service_name.unwrap_or(config.logging.opentelemetry_service_name), opentelemetry_scope_name: env.komodo_logging_opentelemetry_scope_name.unwrap_or(config.logging.opentelemetry_scope_name) };
    let pretty_startup_config = env.komodo_pretty_startup_config.unwrap_or(config.pretty_startup_config);
    let unsafe_unsanitized_startup_config = env.komodo_unsafe_unsanitized_startup_config.unwrap_or(config.unsafe_unsanitized_startup_config);
    let keep_stats_for_days = env.komodo_keep_stats_for_days.unwrap_or(config.keep_stats_for_days);
    let keep_alerts_for_days = env.komodo_keep_alerts_for_days.unwrap_or(config.keep_alerts_for_days);
    let resource_poll_interval = env.komodo_resource_poll_interval.unwrap_or(config.resource_poll_interval);
    let monitoring_interval = env.komodo_monitoring_interval.unwrap_or(config.monitoring_interval);
    let aws = AwsCredentials { access_key_id: env.komodo_aws_access_key_id.unwrap_or(config.aws.access_key_id), secret_access_key: env.komodo_aws_secret_access_key.unwrap_or(config.aws.secret_access_key) };
    let git_providers = config.git_providers;
    let docker_registries = config.docker_registries;
    let secrets = config.secrets;
    let ssl_enabled = env.komodo_ssl_enabled.unwrap_or(config.ssl_enabled);
    let ssl_key_file = env.komodo_ssl_key_file.unwrap_or(config.ssl_key_file);
    let ssl_cert_file = env.komodo_ssl_cert_file.unwrap_or(config.ssl_cert_file);
    let sync_directory = env.komodo_sync_directory.unwrap_or(config.sync_directory);
    let repo_directory = env.komodo_repo_directory.unwrap_or(config.repo_directory);
    let action_directory = env.komodo_action_directory.unwrap_or(config.action_directory);
    let ui_path = env.komodo_ui_path.unwrap_or(config.ui_path);
    let ui_index_force_no_cache = env.komodo_ui_index_force_no_cache.unwrap_or(config.ui_index_force_no_cache);
    let r = CoreConfig {
        title,
        host,
        port,
        bind_ip,
        internet_interface,
        private_key,
        periphery_public_keys,
        passkey,
        timezone,
        ui_write_disabled,
        disable_confirm_dialog,
        confirm_mode,
        confirm_hold_seconds,
        disable_websocket_reconnect,
        disable_init_resources,
        enable_fancy_toml,
        first_server_name,
        first_server_address,
        database,
        local_auth,
        min_password_length,
        init_admin_username,
        init_admin_password,
        transparent_mode,
        enable_new_users,
        disable_user_registration,
        disable_local_user_registration,
        disable_oidc_user_registration,
        lock_login_credentials_for,
        disable_non_admin_create,
        jwt_secret,
        jwt_ttl,
        oidc_enabled,
        oidc_provider,
        oidc_redirect_host,
        oidc_client_id,
        oidc_client_secret,
        oidc_use_full_email,
        oidc_additional_audiences,
        oidc_auto_redirect,
        google_oauth,
        github_oauth,
        auth_rate_limit_disabled,
        auth_rate_limit_max_attempts,
        auth_rate_limit_window_seconds,
        cors_allowed_origins,
        cors_allow_credentials,
        session_allow_cross_site,
        x_content_type_options,
        x_frame_options,
        x_xss_protection,
        referrer_policy,
        content_security_policy,
        webhook_secret,
        webhook_base_url,
        logging,
        pretty_startup_config,
        unsafe_unsanitized_startup_config,
        keep_stats_for_days,
        keep_alerts_for_days,
        resource_poll_interval,
        monitoring_interval,
        aws,
        git_providers,
        docker_registries,
        secrets,
        ssl_enabled,
        ssl_key_file,
        ssl_cert_file,
        sync_directory,
        repo_directory,
        action_directory,
        ui_path,
        ui_index_force_no_cache,
    };
    assert(overrides_server(env0, config0, r)) by {
        reveal(overrides_server);
    }
    assert(overrides_interface(env0, config0, r)) by {
        reveal(overrides_interface);
    }
    assert(overrides_users(env0, config0, r)) by {
        reveal(overrides_users);
    }
    assert(overrides_web(env0, config0, r)) by {
        reveal(overrides_web);
    }
    assert(overrides_secrets_and_auth(env0, config0, r)) by {
        reveal(overrides_secrets_and_auth);
    }
    assert(overrides_nested(env0, config0, r)) by {
        reveal(overrides_nested);
    }
    assert(config0.well_formed() ==> r.well_formed()) by {
        reveal(overrides_nested);
    }
    r
}

/// The environment overrides no setting.
pub open spec fn no_overrides(env: Env) -> bool {
    &&& env.komodo_action_directory is None
    &&& env.komodo_auth_rate_limit_disabled is None
    &&& env.komodo_auth_rate_limit_max_attempts is None
    &&& env.komodo_auth_rate_limit_window_seconds is None
    &&& env.komodo_aws_access_key_id is None
    &&& env.komodo_aws_secret_access_key is None
    &&& env.komodo_bind_ip is None
    &&& env.komodo_confirm_hold_seconds is None
    &&& env.komodo_confirm_mode is None
    &&& env.komodo_content_security_policy is None
    &&& env.komodo_cors_allow_credentials is None
    &&& env.komodo_cors_allowed_origins is None
    &&& env.komodo_database_address is None
    &&& env.komodo_database_app_name is None
    &&& env.komodo_database_db_name is None
    &&& env.komodo_database_password is None
    &&& env.komodo_database_uri is None
    &&& env.komodo_database_username is None
    &&& env.komodo_disable_confirm_dialog is None
    &&& env.komodo_disable_init_resources is None
    &&& env.komodo_disable_local_user_registration is None
    &&& env.komodo_disable_non_admin_create is None
    &&& env.komodo_disable_oidc_user_registration is None
    &&& env.komodo_disable_user_registration is None
    &&& env.komodo_disable_websocket_reconnect is None
    &&& env.komodo_enable_fancy_toml is None
    &&& env.komodo_enable_new_users is None
    &&& env.komodo_first_server_address is None
    &&& env.komodo_first_server_name is None
    &&& env.komodo_github_oauth_enabled is None
    &&& env.komodo_github_oauth_id is None
    &&& env.komodo_github_oauth_secret is None
    &&& env.komodo_google_oauth_enabled is None
    &&& env.komodo_google_oauth_id is None
    &&& env.komodo_google_oauth_secret is None
    &&& env.komodo_host is None
    &&& env.komodo_init_admin_password is None
    &&& env.komodo_init_admin_username is None
    &&& env.komodo_internet_interface is None
    &&& env.komodo_jwt_secret is None
    &&& env.komodo_jwt_ttl is None
    &&& env.komodo_keep_alerts_for_days is None
    &&& env.komodo_keep_stats_for_days is None
    &&& env.komodo_local_auth is None
    &&& env.komodo_lock_login_credentials_for is None
    &&& env.komodo_logging_ansi is None
    &&& env.komodo_logging_level is None
    &&& env.komodo_logging_location is None
    &&& env.komodo_logging_opentelemetry_scope_name is None
    &&& env.komodo_logging_opentelemetry_service_name is None
    &&& env.komodo_logging_otlp_endpoint is None
    &&& env.komodo_logging_pretty is None
    &&& env.komodo_logging_stdio is None
    &&& env.komodo_logging_timestamps is None
    &&& env.komodo_min_password_length is None
    &&& env.komodo_monitoring_interval is None
    &&& env.komodo_oidc_additional_audiences is None
    &&& env.komodo_oidc_auto_redirect is None
    &&& env.komodo_oidc_client_id is None
    &&& env.komodo_oidc_client_secret is None
    &&& env.komodo_oidc_enabled is None
    &&& env.komodo_oidc_provider is None
    &&& env.komodo_oidc_redirect_host is None
    &&& env.komodo_oidc_use_full_email is None
    &&& env.komodo_passkey is None
    &&& env.komodo_periphery_public_keys is None
    &&& env.komodo_port is None
    &&& env.komodo_pretty_startup_config is None
    &&& env.komodo_private_key is None
    &&& env.komodo_referrer_policy is None
    &&& env.komodo_repo_directory is None
    &&& env.komodo_resource_poll_interval is None
    &&& env.komodo_session_allow_cross_site is None
    &&& env.komodo_ssl_cert_file is None
    &&& env.komodo_ssl_enabled is None
    &&& env.komodo_ssl_key_file is None
    &&& env.komodo_sync_directory is None
    &&& env.komodo_timezone is None
    &&& env.komodo_title is None
    &&& env.komodo_transparent_mode is None
    &&& env.komodo_ui_index_force_no_cache is None
    &&& env.komodo_ui_path is None
    &&& env.komodo_ui_write_disabled is None
    &&& env.komodo_unsafe_unsanitized_startup_config is None
    &&& env.komodo_webhook_base_url is None
    &&& env.komodo_webhook_secret is None
    &&& env.komodo_x_content_type_options is None
    &&& env.komodo_x_frame_options is None
    &&& env.komodo_x_xss_protection is None
    &&& env.komodo_disable_confirm_dialog is None
}

/// `r` is `config` with the overrides of `env` applied.
pub open spec fn applies_env_overrides(env: Env, config: CoreConfig, r: CoreConfig) -> bool {
    &&& overrides_server(env, config, r)
    &&& overrides_interface(env, config, r)
    &&& overrides_users(env, config, r)
    &&& overrides_web(env, config, r)
    &&& overrides_secrets_and_auth(env, config, r)
    &&& overrides_nested(env, config, r)
}

/// An environment that overrides nothing leaves the configuration as it is.
pub proof fn law_no_overrides_keep_config(env: Env, config: CoreConfig, r: CoreConfig)
    requires
        no_overrides(env),
        applies_env_overrides(env, config, r),
    ensures
        r == config,
{
    reveal(overrides_server);
    reveal(overrides_interface);
    reveal(overrides_users);
    reveal(overrides_web);
    reveal(overrides_secrets_and_auth);
    reveal(overrides_nested);
}

/// Applying the same overrides a second time changes nothing.
pub proof fn law_overrides_idempotent(env: Env, config: CoreConfig, r1: CoreConfig, r2: CoreConfig)
    requires
        applies_env_overrides(env, config, r1),
        applies_env_overrides(env, r1, r2),
    ensures
        r2 == r1,
{
    reveal(overrides_server);
    reveal(overrides_interface);
    reveal(overrides_users);
    reveal(overrides_web);
    reveal(overrides_secrets_and_auth);
    reveal(overrides_nested);
}

/// A confirmation mode given in the environment is the one used, whatever
/// the confirm dialog setting; without one, a disabled confirm dialog in the
/// environment selects double click; otherwise the mode of the files stays.
pub proof fn law_env_confirm_mode(env: Env, config: CoreConfig, r: CoreConfig)
    requires
        applies_env_overrides(env, config, r),
    ensures
        env.komodo_confirm_mode is Some ==> r.confirm_mode == env.komodo_confirm_mode,
        env.komodo_confirm_mode is None && env.komodo_disable_confirm_dialog == Some(true)
            ==> r.confirm_mode == Some(ConfirmationMode::DoubleClick),
        env.komodo_confirm_mode is None && env.komodo_disable_confirm_dialog != Some(true)
            ==> r.confirm_mode == config.confirm_mode,
{
    reveal(overrides_interface);
}

/// Each server, TLS and directory setting given in the environment is the one used, and
/// each one the environment does not give keeps the value of the files.
pub proof fn law_env_wins_server(env: Env, config: CoreConfig, r: CoreConfig)
    requires
        applies_env_overrides(env, config, r),
    ensures
        env.komodo_title is Some ==> r.title == env.komodo_title->0,
        env.komodo_title is None ==> r.title == config.title,
        env.komodo_host is Some ==> r.host == env.komodo_host->0,
        env.komodo_host is None ==> r.host == config.host,
        env.komodo_port is Some ==> r.port == env.komodo_port->0,
        env.komodo_port is None ==> r.port == config.port,
        env.komodo_bind_ip is Some ==> r.bind_ip == env.komodo_bind_ip->0,
        env.komodo_bind_ip is None ==> r.bind_ip == config.bind_ip,
        env.komodo_internet_interface is Some ==> r.internet_interface == env.komodo_internet_interface->0,
        env.komodo_internet_interface is None ==> r.internet_interface == config.internet_interface,
        env.komodo_periphery_public_keys is Some ==> r.periphery_public_keys == env.komodo_periphery_public_keys,
        env.komodo_periphery_public_keys is None ==> r.periphery_public_keys == config.periphery_public_keys,
        env.komodo_timezone is Some ==> r.timezone == env.komodo_timezone->0,
        env.komodo_timezone is None ==> r.timezone == config.timezone,
        env.komodo_first_server_name is Some ==> r.first_server_name == env.komodo_first_server_name,
        env.komodo_first_server_name is None ==> r.first_server_name == config.first_server_name,
        env.komodo_first_server_address is Some ==> r.first_server_address == env.komodo_first_server_address,
        env.komodo_first_server_address is None ==> r.first_server_address == config.first_server_address,
        env.komodo_ssl_enabled is Some ==> r.ssl_enabled == env.komodo_ssl_enabled->0,
        env.komodo_ssl_enabled is None ==> r.ssl_enabled == config.ssl_enabled,
        env.komodo_ssl_key_file is Some ==> r.ssl_key_file == env.komodo_ssl_key_file->0,
        env.komodo_ssl_key_file is None ==> r.ssl_key_file == config.ssl_key_file,
        env.komodo_ssl_cert_file is Some ==> r.ssl_cert_file == env.komodo_ssl_cert_file->0,
        env.komodo_ssl_cert_file is None ==> r.ssl_cert_file == config.ssl_cert_file,
        env.komodo_sync_directory is Some ==> r.sync_directory == env.komodo_sync_directory->0,
        env.komodo_sync_directory is None ==> r.sync_directory == config.sync_directory,
        env.komodo_repo_directory is Some ==> r.repo_directory == env.komodo_repo_directory->0,
        env.komodo_repo_directory is None ==> r.repo_directory == config.repo_directory,
        env.komodo_action_directory is Some ==> r.action_directory == env.komodo_action_directory->0,
        env.komodo_action_directory is None ==> r.action_directory == config.action_directory,
        env.komodo_ui_path is Some ==> r.ui_path == env.komodo_ui_path->0,
        env.komodo_ui_path is None ==> r.ui_path == config.ui_path,
        env.komodo_ui_index_force_no_cache is Some ==> r.ui_index_force_no_cache == env.komodo_ui_index_force_no_cache->0,
        env.komodo_ui_index_force_no_cache is None ==> r.ui_index_force_no_cache == config.ui_index_force_no_cache,
{
    reveal(overrides_server);
}

/// Each UI and startup setting given in the environment is the one used, and
/// each one the environment does not give keeps the value of the files.
pub proof fn law_env_wins_interface(env: Env, config: CoreConfig, r: CoreConfig)
    requires
        applies_env_overrides(env, config, r),
    ensures
        env.komodo_ui_write_disabled is Some ==> r.ui_write_disabled == env.komodo_ui_write_disabled->0,
        env.komodo_ui_write_disabled is None ==> r.ui_write_disabled == config.ui_write_disabled,
        env.komodo_disable_confirm_dialog is Some ==> r.disable_confirm_dialog == env.komodo_disable_confirm_dialog->0,
        env.komodo_disable_confirm_dialog is None ==> r.disable_confirm_dialog == config.disable_confirm_dialog,
        env.komodo_confirm_hold_seconds is Some ==> r.confirm_hold_seconds == env.komodo_confirm_hold_seconds->0,
        env.komodo_confirm_hold_seconds is None ==> r.confirm_hold_seconds == config.confirm_hold_seconds,
        env.komodo_disable_websocket_reconnect is Some ==> r.disable_websocket_reconnect == env.komodo_disable_websocket_reconnect->0,
        env.komodo_disable_websocket_reconnect is None ==> r.disable_websocket_reconnect == config.disable_websocket_reconnect,
        env.komodo_disable_init_resources is Some ==> r.disable_init_resources == env.komodo_disable_init_resources->0,
        env.komodo_disable_init_resources is None ==> r.disable_init_resources == config.disable_init_resources,
        env.komodo_enable_fancy_toml is Some ==> r.enable_fancy_toml == env.komodo_enable_fancy_toml->0,
        env.komodo_enable_fancy_toml is None ==> r.enable_fancy_toml == config.enable_fancy_toml,
        env.komodo_transparent_mode is Some ==> r.transparent_mode == env.komodo_transparent_mode->0,
        env.komodo_transparent_mode is None ==> r.transparent_mode == config.transparent_mode,
        env.komodo_pretty_startup_config is Some ==> r.pretty_startup_config == env.komodo_pretty_startup_config->0,
        env.komodo_pretty_startup_config is None ==> r.pretty_startup_config == config.pretty_startup_config,
        env.komodo_unsafe_unsanitized_startup_config is Some ==> r.unsafe_unsanitized_startup_config == env.komodo_unsafe_unsanitized_startup_config->0,
        env.komodo_unsafe_unsanitized_startup_config is None ==> r.unsafe_unsanitized_startup_config == config.unsafe_unsanitized_startup_config,
{
    reveal(overrides_interface);
}

/// Each user, token and rate limit setting given in the environment is the one used, and
/// each one the environment does not give keeps the value of the files.
pub proof fn law_env_wins_users(env: Env, config: CoreConfig, r: CoreConfig)
    requires
        applies_env_overrides(env, config, r),
    ensures
        env.komodo_local_auth is Some ==> r.local_auth == env.komodo_local_auth->0,
        env.komodo_local_auth is None ==> r.local_auth == config.local_auth,
        env.komodo_min_password_length is Some ==> r.min_password_length == env.komodo_min_password_length->0,
        env.komodo_min_password_length is None ==> r.min_password_length == config.min_password_length,
        env.komodo_enable_new_users is Some ==> r.enable_new_users == env.komodo_enable_new_users->0,
        env.komodo_enable_new_users is None ==> r.enable_new_users == config.enable_new_users,
        env.komodo_disable_user_registration is Some ==> r.disable_user_registration == env.komodo_disable_user_registration->0,
        env.komodo_disable_user_registration is None ==> r.disable_user_registration == config.disable_user_registration,
        env.komodo_disable_local_user_registration is Some ==> r.disable_local_user_registration == env.komodo_disable_local_user_registration,
        env.komodo_disable_local_user_registration is None ==> r.disable_local_user_registration == config.disable_local_user_registration,
        env.komodo_disable_oidc_user_registration is Some ==> r.disable_oidc_user_registration == env.komodo_disable_oidc_user_registration,
        env.komodo_disable_oidc_user_registration is None ==> r.disable_oidc_user_registration == config.disable_oidc_user_registration,
        env.komodo_lock_login_credentials_for is Some ==> r.lock_login_credentials_for == env.komodo_lock_login_credentials_for->0,
        env.komodo_lock_login_credentials_for is None ==> r.lock_login_credentials_for == config.lock_login_credentials_for,
        env.komodo_disable_non_admin_create is Some ==> r.disable_non_admin_create == env.komodo_disable_non_admin_create->0,
        env.komodo_disable_non_admin_create is None ==> r.disable_non_admin_create == config.disable_non_admin_create,
        env.komodo_jwt_ttl is Some ==> r.jwt_ttl == env.komodo_jwt_ttl->0,
        env.komodo_jwt_ttl is None ==> r.jwt_ttl == config.jwt_ttl,
        env.komodo_auth_rate_limit_disabled is Some ==> r.auth_rate_limit_disabled == env.komodo_auth_rate_limit_disabled->0,
        env.komodo_auth_rate_limit_disabled is None ==> r.auth_rate_limit_disabled == config.auth_rate_limit_disabled,
        env.komodo_auth_rate_limit_max_attempts is Some ==> r.auth_rate_limit_max_attempts == env.komodo_auth_rate_limit_max_attempts->0,
        env.komodo_auth_rate_limit_max_attempts is None ==> r.auth_rate_limit_max_attempts == config.auth_rate_limit_max_attempts,
        env.komodo_auth_rate_limit_window_seconds is Some ==> r.auth_rate_limit_window_seconds == env.komodo_auth_rate_limit_window_seconds->0,
        env.komodo_auth_rate_limit_window_seconds is None ==> r.auth_rate_limit_window_seconds == config.auth_rate_limit_window_seconds,
{
    reveal(overrides_users);
}

/// Each CORS, header, webhook, pruning and polling setting given in the environment is the one used, and
/// each one the environment does not give keeps the value of the files.
pub proof fn law_env_wins_web(env: Env, config: CoreConfig, r: CoreConfig)
    requires
        applies_env_overrides(env, config, r),
    ensures
        env.komodo_cors_allowed_origins is Some ==> r.cors_allowed_origins == env.komodo_cors_allowed_origins->0,
        env.komodo_cors_allowed_origins is None ==> r.cors_allowed_origins == config.cors_allowed_origins,
        env.komodo_cors_allow_credentials is Some ==> r.cors_allow_credentials == env.komodo_cors_allow_credentials->0,
        env.komodo_cors_allow_credentials is None ==> r.cors_allow_credentials == config.cors_allow_credentials,
        env.komodo_session_allow_cross_site is Some ==> r.session_allow_cross_site == env.komodo_session_allow_cross_site->0,
        env.komodo_session_allow_cross_site is None ==> r.session_allow_cross_site == config.session_allow_cross_site,
        env.komodo_x_content_type_options is Some ==> r.x_content_type_options == env.komodo_x_content_type_options->0,
        env.komodo_x_content_type_options is None ==> r.x_content_type_options == config.x_content_type_options,
        env.komodo_x_frame_options is Some ==> r.x_frame_options == env.komodo_x_frame_options->0,
        env.komodo_x_frame_options is None ==> r.x_frame_options == config.x_frame_options,
        env.komodo_x_xss_protection is Some ==> r.x_xss_protection == env.komodo_x_xss_protection->0,
        env.komodo_x_xss_protection is None ==> r.x_xss_protection == config.x_xss_protection,
        env.komodo_referrer_policy is Some ==> r.referrer_policy == env.komodo_referrer_policy->0,
        env.komodo_referrer_policy is None ==> r.referrer_policy == config.referrer_policy,
        env.komodo_content_security_policy is Some ==> r.content_security_policy == env.komodo_content_security_policy->0,
        env.komodo_content_security_policy is None ==> r.content_security_policy == config.content_security_policy,
        env.komodo_webhook_base_url is Some ==> r.webhook_base_url == env.komodo_webhook_base_url->0,
        env.komodo_webhook_base_url is None ==> r.webhook_base_url == config.webhook_base_url,
        env.komodo_keep_stats_for_days is Some ==> r.keep_stats_for_days == env.komodo_keep_stats_for_days->0,
        env.komodo_keep_stats_for_days is None ==> r.keep_stats_for_days == config.keep_stats_for_days,
        env.komodo_keep_alerts_for_days is Some ==> r.keep_alerts_for_days == env.komodo_keep_alerts_for_days->0,
        env.komodo_keep_alerts_for_days is None ==> r.keep_alerts_for_days == config.keep_alerts_for_days,
        env.komodo_resource_poll_interval is Some ==> r.resource_poll_interval == env.komodo_resource_poll_interval->0,
        env.komodo_resource_poll_interval is None ==> r.resource_poll_interval == config.resource_poll_interval,
        env.komodo_monitoring_interval is Some ==> r.monitoring_interval == env.komodo_monitoring_interval->0,
        env.komodo_monitoring_interval is None ==> r.monitoring_interval == config.monitoring_interval,
{
    reveal(overrides_web);
}

/// Each secret, database, login and OIDC setting given in the environment is the one used, and
/// each one the environment does not give keeps the value of the files.
pub proof fn law_env_wins_secrets_and_auth(env: Env, config: CoreConfig, r: CoreConfig)
    requires
        applies_env_overrides(env, config, r),
    ensures
        env.komodo_private_key is Some ==> r.private_key == env.komodo_private_key->0,
        env.komodo_private_key is None ==> r.private_key == config.private_key,
        env.komodo_passkey is Some ==> r.passkey == env.komodo_passkey,
        env.komodo_passkey is None ==> r.passkey == config.passkey,
        env.komodo_database_uri is Some ==> r.database.uri == env.komodo_database_uri->0,
        env.komodo_database_uri is None ==> r.database.uri == config.database.uri,
        env.komodo_database_address is Some ==> r.database.address == env.komodo_database_address->0,
        env.komodo_database_address is None ==> r.database.address == config.database.address,
        env.komodo_database_username is Some ==> r.database.username == env.komodo_database_username->0,
        env.komodo_database_username is None ==> r.database.username == config.database.username,
        env.komodo_database_password is Some ==> r.database.password == env.komodo_database_password->0,
        env.komodo_database_password is None ==> r.database.password == config.database.password,
        env.komodo_database_app_name is Some ==> r.database.app_name == env.komodo_database_app_name->0,
        env.komodo_database_app_name is None ==> r.database.app_name == config.database.app_name,
        env.komodo_database_db_name is Some ==> r.database.db_name == env.komodo_database_db_name->0,
        env.komodo_database_db_name is None ==> r.database.db_name == config.database.db_name,
        env.komodo_init_admin_username is Some ==> r.init_admin_username == env.komodo_init_admin_username,
        env.komodo_init_admin_username is None ==> r.init_admin_username == config.init_admin_username,
        env.komodo_init_admin_password is Some ==> r.init_admin_password == env.komodo_init_admin_password->0,
        env.komodo_init_admin_password is None ==> r.init_admin_password == config.init_admin_password,
        env.komodo_jwt_secret is Some ==> r.jwt_secret == env.komodo_jwt_secret->0,
        env.komodo_jwt_secret is None ==> r.jwt_secret == config.jwt_secret,
        env.komodo_oidc_enabled is Some ==> r.oidc_enabled == env.komodo_oidc_enabled->0,
        env.komodo_oidc_enabled is None ==> r.oidc_enabled == config.oidc_enabled,
        env.komodo_oidc_provider is Some ==> r.oidc_provider == env.komodo_oidc_provider->0,
        env.komodo_oidc_provider is None ==> r.oidc_provider == config.oidc_provider,
        env.komodo_oidc_redirect_host is Some ==> r.oidc_redirect_host == env.komodo_oidc_redirect_host->0,
        env.komodo_oidc_redirect_host is None ==> r.oidc_redirect_host == config.oidc_redirect_host,
        env.komodo_oidc_client_id is Some ==> r.oidc_client_id == env.komodo_oidc_client_id->0,
        env.komodo_oidc_client_id is None ==> r.oidc_client_id == config.oidc_client_id,
        env.komodo_oidc_client_secret is Some ==> r.oidc_client_secret == env.komodo_oidc_client_secret->0,
        env.komodo_oidc_client_secret is None ==> r.oidc_client_secret == config.oidc_client_secret,
        env.komodo_oidc_use_full_email is Some ==> r.oidc_use_full_email == env.komodo_oidc_use_full_email->0,
        env.komodo_oidc_use_full_email is None ==> r.oidc_use_full_email == config.oidc_use_full_email,
        env.komodo_oidc_additional_audiences is Some ==> r.oidc_additional_audiences == env.komodo_oidc_additional_audiences->0,
        env.komodo_oidc_additional_audiences is None ==> r.oidc_additional_audiences == config.oidc_additional_audiences,
        env.komodo_oidc_auto_redirect is Some ==> r.oidc_auto_redirect == env.komodo_oidc_auto_redirect->0,
        env.komodo_oidc_auto_redirect is None ==> r.oidc_auto_redirect == config.oidc_auto_redirect,
        env.komodo_google_oauth_enabled is Some ==> r.google_oauth.enabled == env.komodo_google_oauth_enabled->0,
        env.komodo_google_oauth_enabled is None ==> r.google_oauth.enabled == config.google_oauth.enabled,
        env.komodo_google_oauth_id is Some ==> r.google_oauth.client_id == env.komodo_google_oauth_id->0,
        env.komodo_google_oauth_id is None ==> r.google_oauth.client_id == config.google_oauth.client_id,
        env.komodo_google_oauth_secret is Some ==> r.google_oauth.client_secret == env.komodo_google_oauth_secret->0,
        env.komodo_google_oauth_secret is None ==> r.google_oauth.client_secret == config.google_oauth.client_secret,
        env.komodo_github_oauth_enabled is Some ==> r.github_oauth.enabled == env.komodo_github_oauth_enabled->0,
        env.komodo_github_oauth_enabled is None ==> r.github_oauth.enabled == config.github_oauth.enabled,
        env.komodo_github_oauth_id is Some ==> r.github_oauth.client_id == env.komodo_github_oauth_id->0,
        env.komodo_github_oauth_id is None ==> r.github_oauth.client_id == config.github_oauth.client_id,
        env.komodo_github_oauth_secret is Some ==> r.github_oauth.client_secret == env.komodo_github_oauth_secret->0,
        env.komodo_github_oauth_secret is None ==> r.github_oauth.client_secret == config.github_oauth.client_secret,
        env.komodo_webhook_secret is Some ==> r.webhook_secret == env.komodo_webhook_secret->0,
        env.komodo_webhook_secret is None ==> r.webhook_secret == config.webhook_secret,
        env.komodo_aws_access_key_id is Some ==> r.aws.access_key_id == env.komodo_aws_access_key_id->0,
        env.komodo_aws_access_key_id is None ==> r.aws.access_key_id == config.aws.access_key_id,
        env.komodo_aws_secret_access_key is Some ==> r.aws.secret_access_key == env.komodo_aws_secret_access_key->0,
        env.komodo_aws_secret_access_key is None ==> r.aws.secret_access_key == config.aws.secret_access_key,
{
    reveal(overrides_secrets_and_auth);
}

/// Each logging setting given in the environment is the one used, and
/// each one the environment does not give keeps the value of the files.
/// Secrets, git providers and docker registries always come from the files.
pub proof fn law_env_wins_nested(env: Env, config: CoreConfig, r: CoreConfig)
    requires
        applies_env_overrides(env, config, r),
    ensures
        env.komodo_logging_level is Some ==> r.logging.level == env.komodo_logging_level->0,
        env.komodo_logging_level is None ==> r.logging.level == config.logging.level,
        env.komodo_logging_stdio is Some ==> r.logging.stdio == env.komodo_logging_stdio->0,
        env.komodo_logging_stdio is None ==> r.logging.stdio == config.logging.stdio,
        env.komodo_logging_pretty is Some ==> r.logging.pretty == env.komodo_logging_pretty->0,
        env.komodo_logging_pretty is None ==> r.logging.pretty == config.logging.pretty,
        env.komodo_logging_location is Some ==> r.logging.location == env.komodo_logging_location->0,
        env.komodo_logging_location is None ==> r.logging.location == config.logging.location,
        env.komodo_logging_ansi is Some ==> r.logging.ansi == env.komodo_logging_ansi->0,
        env.komodo_logging_ansi is None ==> r.logging.ansi == config.logging.ansi,
        env.komodo_logging_timestamps is Some ==> r.logging.timestamps == env.komodo_logging_timestamps->0,
        env.komodo_logging_timestamps is None ==> r.logging.timestamps == config.logging.timestamps,
        env.komodo_logging_otlp_endpoint is Some ==> r.logging.otlp_endpoint == env.komodo_logging_otlp_endpoint->0,
        env.komodo_logging_otlp_endpoint is None ==> r.logging.otlp_endpoint == config.logging.otlp_endpoint,
        env.komodo_logging_opentelemetry_service_name is Some ==> r.logging.opentelemetry_service_name == env.komodo_logging_opentelemetry_service_name->0,
        env.komodo_logging_opentelemetry_service_name is None ==> r.logging.opentelemetry_service_name == config.logging.opentelemetry_service_name,
        env.komodo_logging_opentelemetry_scope_name is Some ==> r.logging.opentelemetry_scope_name == env.komodo_logging_opentelemetry_scope_name->0,
        env.komodo_logging_opentelemetry_scope_name is None ==> r.logging.opentelemetry_scope_name == config.logging.opentelemetry_scope_name,
        r.git_providers == config.git_providers,
        r.docker_registries == config.docker_registries,
        r.secrets == config.secrets,
{
    reveal(overrides_nested);
}

} // verus!
