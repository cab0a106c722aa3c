use komodo_core_config::core_config::{
    default_action_directory, default_auth_rate_limit_max_attempts,
    default_auth_rate_limit_window_seconds, default_confirm_hold_seconds, default_core_bind_ip,
    default_core_config_paths, default_core_port, default_host, default_init_admin_password,
    default_jwt_ttl, default_min_password_length, default_monitoring_interval,
    default_poll_interval, default_private_key, default_prune_days, default_referrer_policy,
    default_repo_directory, default_ssl_cert_file, default_ssl_key_file, default_sync_directory,
    default_title, default_ui_path, default_x_content_type_options, default_x_frame_options,
    default_x_xss_protection, ConfirmationMode, CoreConfig,
};
use komodo_core_config::entities::{LogLevel, StdioLogMode, TimeSpan};
use komodo_core_config::providers::{DockerRegistry, GitProvider, ProviderAccount};
use komodo_core_config::redact::empty_or_redacted;

const REDACTED: &str = "##############";

#[test]
fn defaults_have_documented_values() {
    assert_eq!(default_core_config_paths(), vec!["/config/config.toml".to_string()]);
    assert_eq!(default_confirm_hold_seconds(), 3);
    assert_eq!(default_title(), "Komodo");
    assert_eq!(default_host(), "https://komodo.example.com");
    assert_eq!(default_core_port(), 9120);
    assert_eq!(default_core_bind_ip(), "[::]");
    assert_eq!(default_private_key(), "file:/config/keys/core.key");
    assert_eq!(default_ui_path(), "/app/ui");
    assert_eq!(default_jwt_ttl(), TimeSpan::OneDay);
    assert_eq!(default_min_password_length(), 1);
    assert_eq!(default_init_admin_password(), "changeme");
    assert_eq!(default_auth_rate_limit_max_attempts(), 5);
    assert_eq!(default_auth_rate_limit_window_seconds(), 15);
    assert_eq!(default_x_content_type_options(), "nosniff");
    assert_eq!(default_x_frame_options(), "DENY");
    assert_eq!(default_x_xss_protection(), "1; mode=block");
    assert_eq!(default_referrer_policy(), "strict-origin-when-cross-origin");
    assert_eq!(default_sync_directory(), "/syncs");
    assert_eq!(default_repo_directory(), "/repo-cache");
    assert_eq!(default_action_directory(), "/action-cache");
    assert_eq!(default_prune_days(), 14);
    assert_eq!(default_poll_interval(), TimeSpan::FiveMinutes);
    assert_eq!(default_monitoring_interval(), TimeSpan::FifteenSeconds);
    assert_eq!(default_ssl_key_file(), "/config/ssl/key.pem");
    assert_eq!(default_ssl_cert_file(), "/config/ssl/cert.pem");
}

#[test]
fn default_config_fields() {
    let c = CoreConfig::default();
    assert_eq!(c.title, "Komodo");
    assert_eq!(c.port, 9120);
    assert_eq!(c.bind_ip, "[::]");
    // The record default leaves the private key empty.
    assert_eq!(c.private_key, "file:/config/keys/core.key");
    assert_eq!(c.confirm_mode, None);
    assert_eq!(c.confirm_hold_seconds, 3);
    assert_eq!(c.jwt_ttl, TimeSpan::OneDay);
    assert_eq!(c.min_password_length, 1);
    assert_eq!(c.init_admin_password, "changeme");
    assert_eq!(c.keep_stats_for_days, 14);
    assert_eq!(c.keep_alerts_for_days, 14);
    assert_eq!(c.resource_poll_interval, TimeSpan::FiveMinutes);
    assert_eq!(c.monitoring_interval, TimeSpan::FifteenSeconds);
    assert_eq!(c.database.address, "localhost:27017");
    assert_eq!(c.database.app_name, "komodo_core");
    assert_eq!(c.database.db_name, "komodo");
    assert_eq!(c.logging.level, LogLevel::Info);
    assert_eq!(c.logging.stdio, StdioLogMode::Standard);
    assert!(c.git_providers.is_empty());
    assert!(c.secrets.is_empty());
    assert_eq!(c.ui_path, "/app/ui");
    assert!(!c.ssl_enabled);
}

#[test]
fn redaction_hides_values_but_not_emptiness() {
    assert_eq!(empty_or_redacted(""), "");
    assert_eq!(empty_or_redacted("hunter2"), REDACTED);
    assert_eq!(empty_or_redacted(REDACTED), REDACTED);
}

fn config_with_secrets() -> CoreConfig {
    let mut c = CoreConfig::default();
    c.private_key = "MC4CAQAwBQYDK2VuBCIEI".to_string();
    c.passkey = Some("legacy".to_string());
    c.jwt_secret = "jwt".to_string();
    c.webhook_secret = String::new();
    c.init_admin_username = Some("admin".to_string());
    c.oidc_client_id = "client".to_string();
    c.oidc_client_secret = "secret".to_string();
    c.oidc_additional_audiences = vec!["aud".to_string(), String::new()];
    c.google_oauth.enabled = true;
    c.google_oauth.client_id = "gid".to_string();
    c.database.uri = "mongodb://u:p@h".to_string();
    c.database.password = "pw".to_string();
    c.aws.secret_access_key = "aws".to_string();
    c.secrets = vec![("TOKEN".to_string(), "value".to_string())];
    c.git_providers = vec![GitProvider {
        domain: "github.com".to_string(),
        https: true,
        accounts: vec![ProviderAccount { username: "me".to_string(), token: "tok".to_string() }],
    }];
    c.docker_registries = vec![DockerRegistry {
        domain: "docker.io".to_string(),
        accounts: vec![ProviderAccount { username: "me".to_string(), token: String::new() }],
        organizations: vec!["org".to_string()],
    }];
    c
}

#[test]
fn sanitized_hides_every_secret() {
    let c = config_with_secrets();
    let s = c.sanitized();
    assert_eq!(s.private_key, REDACTED);
    assert_eq!(s.passkey, Some(REDACTED.to_string()));
    assert_eq!(s.jwt_secret, REDACTED);
    assert_eq!(s.webhook_secret, "");
    assert_eq!(s.init_admin_username, Some(REDACTED.to_string()));
    assert_eq!(s.init_admin_password, REDACTED);
    assert_eq!(s.oidc_client_id, REDACTED);
    assert_eq!(s.oidc_client_secret, REDACTED);
    assert_eq!(s.oidc_additional_audiences, vec![REDACTED.to_string(), String::new()]);
    assert!(s.google_oauth.enabled);
    assert_eq!(s.google_oauth.client_id, REDACTED);
    assert_eq!(s.google_oauth.client_secret, "");
    assert_eq!(s.database.uri, REDACTED);
    assert_eq!(s.database.password, REDACTED);
    assert_eq!(s.database.username, "");
    assert_eq!(s.database.address, "localhost:27017");
    assert_eq!(s.aws.secret_access_key, REDACTED);
    assert_eq!(s.aws.access_key_id, "");
    assert_eq!(s.secrets, vec![("TOKEN".to_string(), REDACTED.to_string())]);
    assert_eq!(s.git_providers[0].accounts[0].username, "me");
    assert_eq!(s.git_providers[0].accounts[0].token, REDACTED);
    assert_eq!(s.docker_registries[0].accounts[0].token, "");
    assert_eq!(s.docker_registries[0].organizations, vec!["org".to_string()]);
    // Settings that are no secrets are kept.
    assert_eq!(s.title, "Komodo");
    assert_eq!(s.port, 9120);
}

#[test]
fn sanitized_keeps_key_file_path() {
    let mut c = CoreConfig::default();
    c.private_key = "file:/config/keys/core.key".to_string();
    assert_eq!(c.sanitized().private_key, "file:/config/keys/core.key");
}

#[test]
fn sanitizing_twice_shows_the_same() {
    let c = config_with_secrets();
    let once = c.sanitized();
    let twice = once.sanitized();
    assert_eq!(twice.private_key, once.private_key);
    assert_eq!(twice.passkey, once.passkey);
    assert_eq!(twice.secrets, once.secrets);
    assert_eq!(twice.oidc_additional_audiences, once.oidc_additional_audiences);
    assert_eq!(twice.git_providers[0].accounts[0].token, once.git_providers[0].accounts[0].token);
}

#[test]
fn oidc_enabled_needs_provider_and_client_id() {
    let mut c = CoreConfig::default();
    assert!(!c.oidc_enabled());
    c.oidc_enabled = true;
    assert!(!c.oidc_enabled());
    c.oidc_provider = "https://accounts.example.internal".to_string();
    assert!(!c.oidc_enabled());
    c.oidc_client_id = "komodo".to_string();
    assert!(c.oidc_enabled());
    c.oidc_enabled = false;
    assert!(!c.oidc_enabled());
}

#[test]
fn server_settings_getters() {
    let mut c = CoreConfig::default();
    c.cors_allowed_origins = vec!["https://a.example.com".to_string()];
    c.session_allow_cross_site = true;
    assert_eq!(c.bind_ip(), "[::]");
    assert_eq!(c.port(), 9120);
    assert!(!c.ssl_enabled());
    assert_eq!(c.ssl_key_file(), "/config/ssl/key.pem");
    assert_eq!(c.ssl_cert_file(), "/config/ssl/cert.pem");
    assert_eq!(c.x_content_type_options(), "nosniff");
    assert_eq!(c.x_frame_options(), "DENY");
    assert_eq!(c.x_xss_protection(), "1; mode=block");
    assert_eq!(c.referrer_policy(), "strict-origin-when-cross-origin");
    assert_eq!(c.content_security_policy(), "");
    assert_eq!(c.allowed_origins(), &["https://a.example.com".to_string()]);
    assert!(!c.allow_credentials());
    assert_eq!(c.host(), "https://komodo.example.com");
    assert_eq!(c.host_env_field(), "KOMODO_HOST");
    assert_eq!(c.expiry_seconds(), 180);
    assert!(c.allow_cross_site());
}

#[test]
fn confirmation_mode_default_is_hold() {
    assert_eq!(ConfirmationMode::default(), ConfirmationMode::Hold);
}

#[test]
fn time_span_names() {
    assert_eq!(TimeSpan::FifteenSeconds.name(), "15-sec");
    assert_eq!(TimeSpan::OneDay.name(), "1-day");
    assert_eq!(TimeSpan::ThreeDay.name(), "3-day");
    assert_eq!(TimeSpan::ThirtyDays.name(), "30-day");
}

#[test]
fn time_span_from_name_reads_back_every_name() {
    let all = [
        TimeSpan::OneSecond,
        TimeSpan::FiveSeconds,
        TimeSpan::TenSeconds,
        TimeSpan::FifteenSeconds,
        TimeSpan::ThirtySeconds,
        TimeSpan::OneMinute,
        TimeSpan::TwoMinutes,
        TimeSpan::FiveMinutes,
        TimeSpan::TenMinutes,
        TimeSpan::FifteenMinutes,
        TimeSpan::ThirtyMinutes,
        TimeSpan::OneHour,
        TimeSpan::TwoHours,
        TimeSpan::SixHours,
        TimeSpan::EightHours,
        TimeSpan::TwelveHours,
        TimeSpan::OneDay,
        TimeSpan::ThreeDay,
        TimeSpan::OneWeek,
        TimeSpan::TwoWeeks,
        TimeSpan::ThirtyDays,
    ];
    for t in all {
        assert_eq!(TimeSpan::from_name(t.name()), Some(t));
    }
    assert_eq!(TimeSpan::from_name("1-hr"), Some(TimeSpan::OneHour));
}

#[test]
fn time_span_from_unknown_name_is_none() {
    assert_eq!(TimeSpan::from_name("15-secs"), None);
    assert_eq!(TimeSpan::from_name(""), None);
    assert_eq!(TimeSpan::from_name("1-SEC"), None);
    assert_eq!(TimeSpan::from_name("4-hr"), None);
}

#[test]
fn sanitized_keeps_secret_names() {
    let c = config_with_secrets();
    let names: Vec<String> = c.secrets.iter().map(|(n, _)| n.clone()).collect();
    let shown: Vec<String> = c.sanitized().secrets.iter().map(|(n, _)| n.clone()).collect();
    assert_eq!(shown, names);
}

#[test]
fn default_private_key_is_the_key_file() {
    let c = CoreConfig::default();
    assert_eq!(c.private_key, default_private_key());
    assert_eq!(c.sanitized().private_key, "file:/config/keys/core.key");
    assert!(c.secrets.is_empty());
}
