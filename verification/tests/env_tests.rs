use komodo_core_config::core_config::ConfirmationMode;
use komodo_core_config::entities::{LogLevel, StdioLogMode, TimeSpan};
use komodo_core_config::env::Env;

/// An environment that overrides nothing.
pub fn empty_env() -> Env {
    Env {
        komodo_config_paths: Vec::new(),
        komodo_config_keywords: Vec::new(),
        komodo_merge_nested_config: false,
        komodo_extend_config_arrays: false,
        komodo_config_debug: false,
        komodo_title: None,
        komodo_host: None,
        komodo_port: None,
        komodo_bind_ip: None,
        komodo_private_key: None,
        komodo_private_key_file: None,
        komodo_periphery_public_keys: None,
        komodo_passkey: None,
        komodo_passkey_file: None,
        komodo_timezone: None,
        komodo_first_server_name: None,
        komodo_first_server_address: None,
        komodo_jwt_secret: None,
        komodo_jwt_secret_file: None,
        komodo_jwt_ttl: None,
        komodo_resource_poll_interval: None,
        komodo_monitoring_interval: None,
        komodo_keep_stats_for_days: None,
        komodo_keep_alerts_for_days: None,
        komodo_webhook_secret: None,
        komodo_webhook_secret_file: None,
        komodo_webhook_base_url: None,
        komodo_transparent_mode: None,
        komodo_ui_write_disabled: None,
        komodo_enable_new_users: None,
        komodo_disable_user_registration: None,
        komodo_disable_local_user_registration: None,
        komodo_disable_oidc_user_registration: None,
        komodo_lock_login_credentials_for: None,
        komodo_disable_confirm_dialog: None,
        komodo_confirm_mode: None,
        komodo_confirm_hold_seconds: None,
        komodo_disable_non_admin_create: None,
        komodo_disable_websocket_reconnect: None,
        komodo_disable_init_resources: None,
        komodo_enable_fancy_toml: None,
        komodo_local_auth: None,
        komodo_min_password_length: None,
        komodo_init_admin_username: None,
        komodo_init_admin_username_file: None,
        komodo_init_admin_password: None,
        komodo_init_admin_password_file: None,
        komodo_oidc_enabled: None,
        komodo_oidc_provider: None,
        komodo_oidc_redirect_host: None,
        komodo_oidc_client_id: None,
        komodo_oidc_client_id_file: None,
        komodo_oidc_client_secret: None,
        komodo_oidc_client_secret_file: None,
        komodo_oidc_use_full_email: None,
        komodo_oidc_additional_audiences: None,
        komodo_oidc_additional_audiences_file: None,
        komodo_oidc_auto_redirect: None,
        komodo_google_oauth_enabled: None,
        komodo_google_oauth_id: None,
        komodo_google_oauth_id_file: None,
        komodo_google_oauth_secret: None,
        komodo_google_oauth_secret_file: None,
        komodo_github_oauth_enabled: None,
        komodo_github_oauth_id: None,
        komodo_github_oauth_id_file: None,
        komodo_github_oauth_secret: None,
        komodo_github_oauth_secret_file: None,
        komodo_auth_rate_limit_disabled: None,
        komodo_auth_rate_limit_max_attempts: None,
        komodo_auth_rate_limit_window_seconds: None,
        komodo_cors_allowed_origins: None,
        komodo_cors_allow_credentials: None,
        komodo_session_allow_cross_site: None,
        komodo_x_content_type_options: None,
        komodo_x_frame_options: None,
        komodo_x_xss_protection: None,
        komodo_referrer_policy: None,
        komodo_content_security_policy: None,
        komodo_database_uri: None,
        komodo_database_uri_file: None,
        komodo_database_address: None,
        komodo_database_username: None,
        komodo_database_username_file: None,
        komodo_database_password: None,
        komodo_database_password_file: None,
        komodo_database_app_name: None,
        komodo_database_db_name: None,
        komodo_aws_access_key_id: None,
        komodo_aws_access_key_id_file: None,
        komodo_aws_secret_access_key: None,
        komodo_aws_secret_access_key_file: None,
        komodo_logging_level: None,
        komodo_logging_stdio: None,
        komodo_logging_pretty: None,
        komodo_logging_location: None,
        komodo_logging_ansi: None,
        komodo_logging_timestamps: None,
        komodo_logging_otlp_endpoint: None,
        komodo_logging_opentelemetry_service_name: None,
        komodo_logging_opentelemetry_scope_name: None,
        komodo_pretty_startup_config: None,
        komodo_unsafe_unsanitized_startup_config: None,
        komodo_internet_interface: None,
        komodo_ssl_enabled: None,
        komodo_ssl_key_file: None,
        komodo_ssl_cert_file: None,
        komodo_ui_path: None,
        komodo_ui_index_force_no_cache: None,
        komodo_sync_directory: None,
        komodo_repo_directory: None,
        komodo_action_directory: None,
    }
}
use komodo_core_config::core_config::CoreConfig;
use komodo_core_config::env::apply_env_overrides;

#[test]
fn empty_environment_keeps_config() {
    let mut base = CoreConfig::default();
    base.title = "From file".to_string();
    base.confirm_mode = Some(ConfirmationMode::Type);
    let r = apply_env_overrides(empty_env(), base);
    assert_eq!(r.title, "From file");
    assert_eq!(r.port, 9120);
    assert_eq!(r.confirm_mode, Some(ConfirmationMode::Type));
    assert_eq!(r.database.address, "localhost:27017");
}

#[test]
fn environment_overrides_win() {
    let mut env = empty_env();
    env.komodo_title = Some("Env title".to_string());
    env.komodo_port = Some(8000);
    env.komodo_passkey = Some("pass".to_string());
    env.komodo_database_address = Some("mongo:27017".to_string());
    env.komodo_google_oauth_enabled = Some(true);
    env.komodo_logging_level = Some(LogLevel::Debug);
    env.komodo_logging_stdio = Some(StdioLogMode::Json);
    env.komodo_monitoring_interval = Some(TimeSpan::OneMinute);
    env.komodo_cors_allowed_origins = Some(vec!["https://x.example.com".to_string()]);
    env.komodo_sync_directory = Some("/data/syncs".to_string());
    let mut base = CoreConfig::default();
    base.host = "https://file.example.com".to_string();
    base.secrets = vec![("A".to_string(), "1".to_string())];
    let r = apply_env_overrides(env, base);
    assert_eq!(r.title, "Env title");
    assert_eq!(r.port, 8000);
    assert_eq!(r.passkey, Some("pass".to_string()));
    assert_eq!(r.database.address, "mongo:27017");
    assert_eq!(r.database.db_name, "komodo");
    assert!(r.google_oauth.enabled);
    assert_eq!(r.logging.level, LogLevel::Debug);
    assert_eq!(r.logging.stdio, StdioLogMode::Json);
    assert_eq!(r.monitoring_interval, TimeSpan::OneMinute);
    assert_eq!(r.cors_allowed_origins, vec!["https://x.example.com".to_string()]);
    assert_eq!(r.sync_directory, "/data/syncs");
    // Not given in the environment: kept from the file.
    assert_eq!(r.host, "https://file.example.com");
    // Secrets come from the files alone.
    assert_eq!(r.secrets, vec![("A".to_string(), "1".to_string())]);
}

#[test]
fn disabled_confirm_dialog_selects_double_click() {
    let mut env = empty_env();
    env.komodo_disable_confirm_dialog = Some(true);
    let mut base = CoreConfig::default();
    base.confirm_mode = Some(ConfirmationMode::Type);
    let r = apply_env_overrides(env, base);
    assert_eq!(r.confirm_mode, Some(ConfirmationMode::DoubleClick));
    assert!(r.disable_confirm_dialog);
}

#[test]
fn explicit_confirm_mode_wins() {
    let mut env = empty_env();
    env.komodo_disable_confirm_dialog = Some(true);
    env.komodo_confirm_mode = Some(ConfirmationMode::Hold);
    let r = apply_env_overrides(env, CoreConfig::default());
    assert_eq!(r.confirm_mode, Some(ConfirmationMode::Hold));
}

#[test]
fn confirm_dialog_set_false_keeps_file_mode() {
    let mut env = empty_env();
    env.komodo_disable_confirm_dialog = Some(false);
    let mut base = CoreConfig::default();
    base.confirm_mode = Some(ConfirmationMode::Type);
    let r = apply_env_overrides(env, base);
    assert_eq!(r.confirm_mode, Some(ConfirmationMode::Type));
    assert!(!r.disable_confirm_dialog);
}

#[test]
fn overriding_twice_changes_nothing() {
    let mut env = empty_env();
    env.komodo_title = Some("T".to_string());
    env.komodo_disable_confirm_dialog = Some(true);
    let once = apply_env_overrides(env, CoreConfig::default());
    let mut env2 = empty_env();
    env2.komodo_title = Some("T".to_string());
    env2.komodo_disable_confirm_dialog = Some(true);
    let twice = apply_env_overrides(env2, once);
    assert_eq!(twice.title, "T");
    assert_eq!(twice.confirm_mode, Some(ConfirmationMode::DoubleClick));
}
