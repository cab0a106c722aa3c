use vstd::prelude::*;

use crate::entities::{DatabaseConfig, LogConfig, LogLevel, NamedOauthConfig, StdioLogMode, TimeSpan};
use crate::providers::{
    AccountView, DockerRegistry, DockerRegistryView, GitProvider, GitProviderView, ProviderAccount,
};
use crate::redact::{empty_or_redacted, spec_empty_or_redacted};
use crate::text::{copy_optional_text, copy_optional_texts, copy_texts, has_prefix, starts_with_text};

verus! {

/// How the UI confirms actions that change resources.
#[derive(Debug, Clone, Copy, PartialEq, Eq, Structural)]
pub enum ConfirmationMode {
    /// Hold the confirmation button until its countdown completes.
    Hold,
    /// Enter the resource name in the confirmation dialog.
    Type,
    /// Skip the dialog and require two clicks on the action button.
    DoubleClick,
}

impl Default for ConfirmationMode {
    fn default() -> (r: Self)
        ensures
            r == ConfirmationMode::Hold,
    {
        ConfirmationMode::Hold
    }
}

/// AWS credentials used for AWS builders and server launches.
#[derive(Debug)]
pub struct AwsCredentials {
    /// The access key id.
    pub access_key_id: String,
    /// The secret access key.
    pub secret_access_key: String,
}

impl Default for AwsCredentials {
    fn default() -> (r: Self)
        ensures
            r.access_key_id@ == Seq::<char>::empty(),
            r.secret_access_key@ == Seq::<char>::empty(),
    {
        AwsCredentials { access_key_id: String::new(), secret_access_key: String::new() }
    }
}

/// Configuration of the Komodo Core API.
#[derive(Debug)]
pub struct CoreConfig {
    /// The title of this deployment, shown as the browser page title.
    pub title: String,
    /// The address users reach the deployment at, used for login redirects.
    pub host: String,
    /// Port the web server listens on.
    pub port: u16,
    /// IP address the web server binds to.
    pub bind_ip: String,
    /// Interface to use as the default route on hosts with several networks.
    pub internet_interface: String,
    /// Private key used to authenticate with Periphery agents, inline or as `file:/path`.
    pub private_key: String,
    /// Public keys Periphery agents may connect with, inline or as `file:/path`.
    pub periphery_public_keys: Option<Vec<String>>,
    /// Legacy passkey.
    pub passkey: Option<String>,
    /// Timezone identifier, empty for the local timezone.
    pub timezone: String,
    /// Disable changing resource configuration from the UI.
    pub ui_write_disabled: bool,
    /// Disable the confirmation dialogs (superseded by `confirm_mode`).
    pub disable_confirm_dialog: bool,
    /// How the UI confirms actions that change resources.
    pub confirm_mode: Option<ConfirmationMode>,
    /// Seconds the confirmation button is held in `Hold` mode.
    pub confirm_hold_seconds: u64,
    /// Disable automatic reconnection of the UI websocket.
    pub disable_websocket_reconnect: bool,
    /// Disable creating the initial system resources on a fresh launch.
    pub disable_init_resources: bool,
    /// Enable TOML syntax highlighting.
    pub enable_fancy_toml: bool,
    /// Name of a server to ensure on startup.
    pub first_server_name: Option<String>,
    /// Address of a server to ensure on startup.
    pub first_server_address: Option<String>,
    /// Database connection.
    pub database: DatabaseConfig,
    /// Enable login with username and password.
    pub local_auth: bool,
    /// Minimum password length.
    pub min_password_length: u16,
    /// Username of an admin created on a fresh launch.
    pub init_admin_username: Option<String>,
    /// Password of the admin created on a fresh launch.
    pub init_admin_password: String,
    /// Give all enabled users read access to all resources.
    pub transparent_mode: bool,
    /// Enable new users on registration.
    pub enable_new_users: bool,
    /// Only the first user to log in is registered.
    pub disable_user_registration: bool,
    /// Disable registration with username and password.
    pub disable_local_user_registration: Option<bool>,
    /// Disable registration through OIDC.
    pub disable_oidc_user_registration: Option<bool>,
    /// Usernames whose username and password cannot be changed.
    pub lock_login_credentials_for: Vec<String>,
    /// Only admins can create resources.
    pub disable_non_admin_create: bool,
    /// Secret that signs tokens, generated when empty.
    pub jwt_secret: String,
    /// How long issued tokens stay valid.
    pub jwt_ttl: TimeSpan,
    /// Enable login through the OIDC provider.
    pub oidc_enabled: bool,
    /// Address of the OIDC provider, as reached from Core.
    pub oidc_provider: String,
    /// Host users are redirected to for OIDC login.
    pub oidc_redirect_host: String,
    /// OIDC client id.
    pub oidc_client_id: String,
    /// OIDC client secret.
    pub oidc_client_secret: String,
    /// Use the full email as username.
    pub oidc_use_full_email: bool,
    /// Further audiences accepted in OIDC claims.
    pub oidc_additional_audiences: Vec<String>,
    /// Send users straight to the OIDC provider to log in.
    pub oidc_auto_redirect: bool,
    /// Google login.
    pub google_oauth: NamedOauthConfig,
    /// Github login.
    pub github_oauth: NamedOauthConfig,
    /// Disable the login rate limiter.
    pub auth_rate_limit_disabled: bool,
    /// Login attempts allowed per address in a window.
    pub auth_rate_limit_max_attempts: u16,
    /// Length of the rate limiter window in seconds.
    pub auth_rate_limit_window_seconds: u64,
    /// Allowed CORS origins, all when empty.
    pub cors_allowed_origins: Vec<String>,
    /// Allow credentials in CORS requests.
    pub cors_allow_credentials: bool,
    /// Use `SameSite=None` session cookies.
    pub session_allow_cross_site: bool,
    /// `X-Content-Type-Options` header value, none when empty.
    pub x_content_type_options: String,
    /// `X-Frame-Options` header value, none when empty.
    pub x_frame_options: String,
    /// `X-XSS-Protection` header value, none when empty.
    pub x_xss_protection: String,
    /// `Referrer-Policy` header value, none when empty.
    pub referrer_policy: String,
    /// `Content-Security-Policy` header value, none when empty.
    pub content_security_policy: String,
    /// Secret that webhooks are verified with.
    pub webhook_secret: String,
    /// Base url of the webhook listener, `host` when empty.
    pub webhook_base_url: String,
    /// Logging.
    pub logging: LogConfig,
    /// Log the startup configuration over several lines.
    pub pretty_startup_config: bool,
    /// Log the startup configuration with its secrets.
    pub unsafe_unsanitized_startup_config: bool,
    /// Days stats are kept, 0 to keep them.
    pub keep_stats_for_days: u64,
    /// Days alerts are kept, 0 to keep them.
    pub keep_alerts_for_days: u64,
    /// Interval at which resources are polled.
    pub resource_poll_interval: TimeSpan,
    /// Interval at which server stats are collected.
    pub monitoring_interval: TimeSpan,
    /// AWS credentials.
    pub aws: AwsCredentials,
    /// Git providers and their accounts.
    pub git_providers: Vec<GitProvider>,
    /// Docker registries and their accounts.
    pub docker_registries: Vec<DockerRegistry>,
    /// Secrets by name.
    pub secrets: Vec<(String, String)>,
    /// Serve over TLS.
    pub ssl_enabled: bool,
    /// Path of the TLS key.
    pub ssl_key_file: String,
    /// Path of the TLS certificate.
    pub ssl_cert_file: String,
    /// Directory for sync files.
    pub sync_directory: String,
    /// Directory repositories are cloned to.
    pub repo_directory: String,
    /// Directory for action scripts.
    pub action_directory: String,
    /// Path of the built UI.
    pub ui_path: String,
    /// Serve `index.html` with `Cache-Control: no-cache`.
    pub ui_index_force_no_cache: bool,
}

/// The configuration paths read when none is given.
pub fn default_core_config_paths() -> (r: Vec<String>)
    ensures
        r@.len() == 1,
        r@[0]@ == "/config/config.toml"@,
{
    let mut r: Vec<String> = Vec::new();
    r.push("/config/config.toml".to_string());
    r
}

/// Default `confirm_hold_seconds`.
pub fn default_confirm_hold_seconds() -> (r: u64)
    ensures
        r == 3,
{
    3
}

/// Default `title`.
pub fn default_title() -> (r: String)
    ensures
        r@ == "Komodo"@,
{
    "Komodo".to_string()
}

/// Default `host`.
pub fn default_host() -> (r: String)
    ensures
        r@ == "https://komodo.example.com"@,
{
    "https://komodo.example.com".to_string()
}

/// Default `port`.
pub fn default_core_port() -> (r: u16)
    ensures
        r == 9120,
{
    9120
}

/// Default `bind_ip`.
pub fn default_core_bind_ip() -> (r: String)
    ensures
        r@ == "[::]"@,
{
    "[::]".to_string()
}

/// Default `private_key`: the key file Core reads, or creates when it is missing.
pub fn default_private_key() -> (r: String)
    ensures
        r@ == "file:/config/keys/core.key"@,
{
    "file:/config/keys/core.key".to_string()
}

/// Default `ui_path`.
pub fn default_ui_path() -> (r: String)
    ensures
        r@ == "/app/ui"@,
{
    "/app/ui".to_string()
}

/// Default `jwt_ttl`.
pub fn default_jwt_ttl() -> (r: TimeSpan)
    ensures
        r == TimeSpan::OneDay,
{
    TimeSpan::OneDay
}

/// Default `min_password_length`.
pub fn default_min_password_length() -> (r: u16)
    ensures
        r == 1,
{
    1
}

/// Default `init_admin_password`.
pub fn default_init_admin_password() -> (r: String)
    ensures
        r@ == "changeme"@,
{
    "changeme".to_string()
}

/// Default `auth_rate_limit_max_attempts`.
pub fn default_auth_rate_limit_max_attempts() -> (r: u16)
    ensures
        r == 5,
{
    5
}

/// Default `auth_rate_limit_window_seconds`.
pub fn default_auth_rate_limit_window_seconds() -> (r: u64)
    ensures
        r == 15,
{
    15
}

/// Default `x_content_type_options`.
pub fn default_x_content_type_options() -> (r: String)
    ensures
        r@ == "nosniff"@,
{
    "nosniff".to_string()
}

/// Default `x_frame_options`.
pub fn default_x_frame_options() -> (r: String)
    ensures
        r@ == "DENY"@,
{
    "DENY".to_string()
}

/// Default `x_xss_protection`.
pub fn default_x_xss_protection() -> (r: String)
    ensures
        r@ == "1; mode=block"@,
{
    "1; mode=block".to_string()
}

/// Default `referrer_policy`.
pub fn default_referrer_policy() -> (r: String)
    ensures
        r@ == "strict-origin-when-cross-origin"@,
{
    "strict-origin-when-cross-origin".to_string()
}

/// Default `sync_directory`.
pub fn default_sync_directory() -> (r: String)
    ensures
        r@ == "/syncs"@,
{
    "/syncs".to_string()
}

/// Default `repo_directory`.
pub fn default_repo_directory() -> (r: String)
    ensures
        r@ == "/repo-cache"@,
{
    "/repo-cache".to_string()
}

/// Default `action_directory`.
pub fn default_action_directory() -> (r: String)
    ensures
        r@ == "/action-cache"@,
{
    "/action-cache".to_string()
}

/// Default `keep_stats_for_days` and `keep_alerts_for_days`.
pub fn default_prune_days() -> (r: u64)
    ensures
        r == 14,
{
    14
}

/// Default `resource_poll_interval`.
pub fn default_poll_interval() -> (r: TimeSpan)
    ensures
        r == TimeSpan::FiveMinutes,
{
    TimeSpan::FiveMinutes
}

/// Default `monitoring_interval`.
pub fn default_monitoring_interval() -> (r: TimeSpan)
    ensures
        r == TimeSpan::FifteenSeconds,
{
    TimeSpan::FifteenSeconds
}

/// Default `ssl_key_file`.
pub fn default_ssl_key_file() -> (r: String)
    ensures
        r@ == "/config/ssl/key.pem"@,
{
    "/config/ssl/key.pem".to_string()
}

/// Default `ssl_cert_file`.
pub fn default_ssl_cert_file() -> (r: String)
    ensures
        r@ == "/config/ssl/cert.pem"@,
{
    "/config/ssl/cert.pem".to_string()
}

/// An account with its token hidden.
pub open spec fn redacted_account(a: AccountView) -> AccountView {
    AccountView { username: a.username, token: spec_empty_or_redacted(a.token) }
}

/// A git provider with the tokens of its accounts hidden.
pub open spec fn redacted_git_provider(p: GitProviderView) -> GitProviderView {
    GitProviderView { accounts: p.accounts.map_values(|a: AccountView| redacted_account(a)), ..p }
}

/// A docker registry with the tokens of its accounts hidden.
pub open spec fn redacted_docker_registry(r: DockerRegistryView) -> DockerRegistryView {
    DockerRegistryView {
        accounts: r.accounts.map_values(|a: AccountView| redacted_account(a)),
        ..r
    }
}

/// A named secret with its value hidden.
pub open spec fn redacted_secret(s: (Seq<char>, Seq<char>)) -> (Seq<char>, Seq<char>) {
    (s.0, spec_empty_or_redacted(s.1))
}

/// How the private key is shown: a key file path as it is, an inline key
/// hidden.
pub open spec fn shown_private_key(key: Seq<char>) -> Seq<char> {
    if has_prefix(key, "file:"@) {
        key
    } else {
        spec_empty_or_redacted(key)
    }
}

fn redact_texts(v: &Vec<String>) -> (r: Vec<String>)
    ensures
        r.deep_view() == v.deep_view().map_values(|s: Seq<char>| spec_empty_or_redacted(s)),
{
    let mut r: Vec<String> = Vec::new();
    let mut i: usize = 0;
    while i < v.len()
        invariant
            i <= v.len(),
            r.deep_view().len() == i,
            forall|k: int| 0 <= k < i ==> #[trigger] r.deep_view()[k] == spec_empty_or_redacted(v.deep_view()[k]),
        decreases v.len() - i,
    {
        let ghost before = r.deep_view();
        r.push(empty_or_redacted(v[i].as_str()));
        assert(r.deep_view() =~= before.push(r@[i as int].deep_view()));
        i = i + 1;
    }
    assert(r.deep_view() =~= v.deep_view().map_values(|s: Seq<char>| spec_empty_or_redacted(s)));
    r
}

fn redact_accounts(v: &Vec<ProviderAccount>) -> (r: Vec<ProviderAccount>)
    ensures
        r.deep_view() == v.deep_view().map_values(|a: AccountView| redacted_account(a)),
{
    let mut r: Vec<ProviderAccount> = Vec::new();
    let mut i: usize = 0;
    while i < v.len()
        invariant
            i <= v.len(),
            r.deep_view().len() == i,
            forall|k: int| 0 <= k < i ==> #[trigger] r.deep_view()[k] == redacted_account(v.deep_view()[k]),
        decreases v.len() - i,
    {
        let a = ProviderAccount {
            username: v[i].username.clone(),
            token: empty_or_redacted(v[i].token.as_str()),
        };
        let ghost before = r.deep_view();
        r.push(a);
        assert(r.deep_view() =~= before.push(r@[i as int].deep_view()));
        i = i + 1;
    }
    assert(r.deep_view() =~= v.deep_view().map_values(|a: AccountView| redacted_account(a)));
    r
}

fn redact_git_providers(v: &Vec<GitProvider>) -> (r: Vec<GitProvider>)
    ensures
        r.deep_view() == v.deep_view().map_values(|p: GitProviderView| redacted_git_provider(p)),
{
    let mut r: Vec<GitProvider> = Vec::new();
    let mut i: usize = 0;
    while i < v.len()
        invariant
            i <= v.len(),
            r.deep_view().len() == i,
            forall|k: int| 0 <= k < i ==> #[trigger] r.deep_view()[k] == redacted_git_provider(v.deep_view()[k]),
        decreases v.len() - i,
    {
        let p = GitProvider {
            domain: v[i].domain.clone(),
            https: v[i].https,
            accounts: redact_accounts(&v[i].accounts),
        };
        let ghost before = r.deep_view();
        r.push(p);
        assert(r.deep_view() =~= before.push(r@[i as int].deep_view()));
        i = i + 1;
    }
    assert(r.deep_view() =~= v.deep_view().map_values(|p: GitProviderView| redacted_git_provider(p)));
    r
}

fn redact_docker_registries(v: &Vec<DockerRegistry>) -> (r: Vec<DockerRegistry>)
    ensures
        r.deep_view() == v.deep_view().map_values(
            |d: DockerRegistryView| redacted_docker_registry(d),
        ),
{
    let mut r: Vec<DockerRegistry> = Vec::new();
    let mut i: usize = 0;
    while i < v.len()
        invariant
            i <= v.len(),
            r.deep_view().len() == i,
            forall|k: int| 0 <= k < i ==> #[trigger] r.deep_view()[k] == redacted_docker_registry(v.deep_view()[k]),
        decreases v.len() - i,
    {
        let orgs = copy_texts(&v[i].organizations);
        let d = DockerRegistry {
            domain: v[i].domain.clone(),
            accounts: redact_accounts(&v[i].accounts),
            organizations: orgs,
        };
        assert(d.organizations.deep_view() =~= v[i as int].organizations.deep_view());
        let ghost before = r.deep_view();
        r.push(d);
        assert(r.deep_view() =~= before.push(r@[i as int].deep_view()));
        i = i + 1;
    }
    assert(r.deep_view() =~= v.deep_view().map_values(|d: DockerRegistryView| redacted_docker_registry(d)));
    r
}

fn redact_secrets(v: &Vec<(String, String)>) -> (r: Vec<(String, String)>)
    ensures
        r.deep_view() == v.deep_view().map_values(
            |s: (Seq<char>, Seq<char>)| redacted_secret(s),
        ),
{
    let mut r: Vec<(String, String)> = Vec::new();
    let mut i: usize = 0;
    while i < v.len()
        invariant
            i <= v.len(),
            r.deep_view().len() == i,
            forall|k: int| 0 <= k < i ==> #[trigger] r.deep_view()[k] == redacted_secret(v.deep_view()[k]),
        decreases v.len() - i,
    {
        let s = (v[i].0.clone(), empty_or_redacted(v[i].1.as_str()));
        let ghost before = r.deep_view();
        r.push(s);
        assert(r.deep_view() =~= before.push(r@[i as int].deep_view()));
        i = i + 1;
    }
    assert(r.deep_view() =~= v.deep_view().map_values(|s: (Seq<char>, Seq<char>)| redacted_secret(s)));
    r
}

/// The names of named secrets, in order.
pub open spec fn secret_names(s: Seq<(Seq<char>, Seq<char>)>) -> Seq<Seq<char>> {
    s.map_values(|p: (Seq<char>, Seq<char>)| p.0)
}

/// No name is given to two secrets, as in the table of secrets a
/// configuration file holds.
pub open spec fn secret_names_unique(s: Seq<(Seq<char>, Seq<char>)>) -> bool {
    secret_names(s).no_duplicates()
}

impl CoreConfig {
    /// The configuration is well formed: each secret has a name of its own.
    pub open spec fn well_formed(self) -> bool {
        secret_names_unique(self.secrets.deep_view())
    }
}

impl Default for CoreConfig {
    fn default() -> (r: Self)
        ensures
            r.title@ == "Komodo"@,
            r.host@ == "https://komodo.example.com"@,
            r.port == 9120,
            r.bind_ip@ == "[::]"@,
            r.internet_interface@ == Seq::<char>::empty(),
            r.private_key@ == "file:/config/keys/core.key"@,
            r.periphery_public_keys is None,
            r.passkey is None,
            r.timezone@ == Seq::<char>::empty(),
            !r.ui_write_disabled,
            !r.disable_confirm_dialog,
            r.confirm_mode is None,
            r.confirm_hold_seconds == 3,
            !r.disable_websocket_reconnect,
            !r.disable_init_resources,
            !r.enable_fancy_toml,
            r.first_server_name is None,
            r.first_server_address is None,
            r.database.address@ == "localhost:27017"@ && r.database.uri@ == Seq::<char>::empty() && r.database.username@ == Seq::<char>::empty() && r.database.password@ == Seq::<char>::empty() && r.database.app_name@ == "komodo_core"@ && r.database.db_name@ == "komodo"@,
            !r.local_auth,
            r.min_password_length == 1,
            r.init_admin_username is None,
            r.init_admin_password@ == "changeme"@,
            !r.transparent_mode,
            !r.enable_new_users,
            !r.disable_user_registration,
            r.disable_local_user_registration is None,
            r.disable_oidc_user_registration is None,
            r.lock_login_credentials_for@ == Seq::<String>::empty(),
            !r.disable_non_admin_create,
            r.jwt_secret@ == Seq::<char>::empty(),
            r.jwt_ttl == TimeSpan::OneDay,
            !r.oidc_enabled,
            r.oidc_provider@ == Seq::<char>::empty(),
            r.oidc_redirect_host@ == Seq::<char>::empty(),
            r.oidc_client_id@ == Seq::<char>::empty(),
            r.oidc_client_secret@ == Seq::<char>::empty(),
            !r.oidc_use_full_email,
            r.oidc_additional_audiences@ == Seq::<String>::empty(),
            !r.oidc_auto_redirect,
            !r.google_oauth.enabled && r.google_oauth.client_id@ == Seq::<char>::empty() && r.google_oauth.client_secret@ == Seq::<char>::empty(),
            !r.github_oauth.enabled && r.github_oauth.client_id@ == Seq::<char>::empty() && r.github_oauth.client_secret@ == Seq::<char>::empty(),
            !r.auth_rate_limit_disabled,
            r.auth_rate_limit_max_attempts == 5,
            r.auth_rate_limit_window_seconds == 15,
            r.cors_allowed_origins@ == Seq::<String>::empty(),
            !r.cors_allow_credentials,
            !r.session_allow_cross_site,
            r.x_content_type_options@ == "nosniff"@,
            r.x_frame_options@ == "DENY"@,
            r.x_xss_protection@ == "1; mode=block"@,
            r.referrer_policy@ == "strict-origin-when-cross-origin"@,
            r.content_security_policy@ == Seq::<char>::empty(),
            r.webhook_secret@ == Seq::<char>::empty(),
            r.webhook_base_url@ == Seq::<char>::empty(),
            r.logging.level == LogLevel::Info && r.logging.stdio == StdioLogMode::Standard && !r.logging.pretty && !r.logging.location && !r.logging.ansi && !r.logging.timestamps && r.logging.otlp_endpoint@ == Seq::<char>::empty() && r.logging.opentelemetry_service_name@ == Seq::<char>::empty() && r.logging.opentelemetry_scope_name@ == Seq::<char>::empty(),
            !r.pretty_startup_config,
            !r.unsafe_unsanitized_startup_config,
            r.keep_stats_for_days == 14,
            r.keep_alerts_for_days == 14,
            r.resource_poll_interval == TimeSpan::FiveMinutes,
            r.monitoring_interval == TimeSpan::FifteenSeconds,
            r.aws.access_key_id@ == Seq::<char>::empty() && r.aws.secret_access_key@ == Seq::<char>::empty(),
            r.git_providers.deep_view() == Seq::<GitProviderView>::empty(),
            r.docker_registries.deep_view() == Seq::<DockerRegistryView>::empty(),
            r.secrets.deep_view() == Seq::<(Seq<char>, Seq<char>)>::empty(),
            !r.ssl_enabled,
            r.ssl_key_file@ == "/config/ssl/key.pem"@,
            r.ssl_cert_file@ == "/config/ssl/cert.pem"@,
            r.sync_directory@ == "/syncs"@,
            r.repo_directory@ == "/repo-cache"@,
            r.action_directory@ == "/action-cache"@,
            r.ui_path@ == "/app/ui"@,
            !r.ui_index_force_no_cache,
            r.well_formed(),
    {
        CoreConfig {
            title: default_title(),
            host: default_host(),
            port: default_core_port(),
            bind_ip: default_core_bind_ip(),
            internet_interface: String::new(),
            private_key: default_private_key(),
            periphery_public_keys: None,
            passkey: None,
            timezone: String::new(),
            ui_write_disabled: false,
            disable_confirm_dialog: false,
            confirm_mode: None,
            confirm_hold_seconds: default_confirm_hold_seconds(),
            disable_websocket_reconnect: false,
            disable_init_resources: false,
            enable_fancy_toml: false,
            first_server_name: None,
            first_server_address: None,
            database: DatabaseConfig::default(),
            local_auth: false,
            min_password_length: default_min_password_length(),
            init_admin_username: None,
            init_admin_password: default_init_admin_password(),
            transparent_mode: false,
            enable_new_users: false,
            disable_user_registration: false,
            disable_local_user_registration: None,
            disable_oidc_user_registration: None,
            lock_login_credentials_for: Vec::new(),
            disable_non_admin_create: false,
            jwt_secret: String::new(),
            jwt_ttl: default_jwt_ttl(),
            oidc_enabled: false,
            oidc_provider: String::new(),
            oidc_redirect_host: String::new(),
            oidc_client_id: String::new(),
            oidc_client_secret: String::new(),
            oidc_use_full_email: false,
            oidc_additional_audiences: Vec::new(),
            oidc_auto_redirect: false,
            google_oauth: NamedOauthConfig::default(),
            github_oauth: NamedOauthConfig::default(),
            auth_rate_limit_disabled: false,
            auth_rate_limit_max_attempts: default_auth_rate_limit_max_attempts(),
            auth_rate_limit_window_seconds: default_auth_rate_limit_window_seconds(),
            cors_allowed_origins: Vec::new(),
            cors_allow_credentials: false,
            session_allow_cross_site: false,
            x_content_type_options: default_x_content_type_options(),
            x_frame_options: default_x_frame_options(),
            x_xss_protection: default_x_xss_protection(),
            referrer_policy: default_referrer_policy(),
            content_security_policy: String::new(),
            webhook_secret: String::new(),
            webhook_base_url: String::new(),
            logging: LogConfig::default(),
            pretty_startup_config: false,
            unsafe_unsanitized_startup_config: false,
            keep_stats_for_days: default_prune_days(),
            keep_alerts_for_days: default_prune_days(),
            resource_poll_interval: default_poll_interval(),
            monitoring_interval: default_monitoring_interval(),
            aws: AwsCredentials::default(),
            git_providers: Vec::new(),
            docker_registries: Vec::new(),
            secrets: Vec::new(),
            ssl_enabled: false,
            ssl_key_file: default_ssl_key_file(),
            ssl_cert_file: default_ssl_cert_file(),
            sync_directory: default_sync_directory(),
            repo_directory: default_repo_directory(),
            action_directory: default_action_directory(),
            ui_path: default_ui_path(),
            ui_index_force_no_cache: false,
        }
    }
}

/// `r` holds every setting of `c` that is no secret, unchanged.
#[verifier::opaque]
pub open spec fn keeps_plain_settings(c: CoreConfig, r: CoreConfig) -> bool {
    &&& r.title == c.title
    &&& r.host == c.host
    &&& r.port == c.port
    &&& r.bind_ip == c.bind_ip
    &&& r.internet_interface == c.internet_interface
    &&& r.periphery_public_keys is Some == c.periphery_public_keys is Some
    &&& r.periphery_public_keys is Some ==> r.periphery_public_keys.unwrap()@ == c.periphery_public_keys.unwrap()@
    &&& r.timezone == c.timezone
    &&& r.ui_write_disabled == c.ui_write_disabled
    &&& r.disable_confirm_dialog == c.disable_confirm_dialog
    &&& r.confirm_mode == c.confirm_mode
    &&& r.confirm_hold_seconds == c.confirm_hold_seconds
    &&& r.disable_websocket_reconnect == c.disable_websocket_reconnect
    &&& r.disable_init_resources == c.disable_init_resources
    &&& r.enable_fancy_toml == c.enable_fancy_toml
    &&& r.first_server_name == c.first_server_name
    &&& r.first_server_address == c.first_server_address
    &&& r.database.address == c.database.address
    &&& r.database.app_name == c.database.app_name
    &&& r.database.db_name == c.database.db_name
    &&& r.local_auth == c.local_auth
    &&& r.min_password_length == c.min_password_length
    &&& r.transparent_mode == c.transparent_mode
    &&& r.enable_new_users == c.enable_new_users
    &&& r.disable_user_registration == c.disable_user_registration
    &&& r.disable_local_user_registration == c.disable_local_user_registration
    &&& r.disable_oidc_user_registration == c.disable_oidc_user_registration
    &&& r.lock_login_credentials_for@ == c.lock_login_credentials_for@
    &&& r.disable_non_admin_create == c.disable_non_admin_create
    &&& r.jwt_ttl == c.jwt_ttl
    &&& r.oidc_enabled == c.oidc_enabled
    &&& r.oidc_provider == c.oidc_provider
    &&& r.oidc_redirect_host == c.oidc_redirect_host
    &&& r.oidc_use_full_email == c.oidc_use_full_email
    &&& r.oidc_auto_redirect == c.oidc_auto_redirect
    &&& r.google_oauth.enabled == c.google_oauth.enabled
    &&& r.github_oauth.enabled == c.github_oauth.enabled
    &&& r.auth_rate_limit_disabled == c.auth_rate_limit_disabled
    &&& r.auth_rate_limit_max_attempts == c.auth_rate_limit_max_attempts
    &&& r.auth_rate_limit_window_seconds == c.auth_rate_limit_window_seconds
    &&& r.cors_allowed_origins@ == c.cors_allowed_origins@
    &&& r.cors_allow_credentials == c.cors_allow_credentials
    &&& r.session_allow_cross_site == c.session_allow_cross_site
    &&& r.x_content_type_options == c.x_content_type_options
    &&& r.x_frame_options == c.x_frame_options
    &&& r.x_xss_protection == c.x_xss_protection
    &&& r.referrer_policy == c.referrer_policy
    &&& r.content_security_policy == c.content_security_policy
    &&& r.webhook_base_url == c.webhook_base_url
    &&& r.logging == c.logging
    &&& r.pretty_startup_config == c.pretty_startup_config
    &&& r.unsafe_unsanitized_startup_config == c.unsafe_unsanitized_startup_config
    &&& r.keep_stats_for_days == c.keep_stats_for_days
    &&& r.keep_alerts_for_days == c.keep_alerts_for_days
    &&& r.resource_poll_interval == c.resource_poll_interval
    &&& r.monitoring_interval == c.monitoring_interval
    &&& r.ssl_enabled == c.ssl_enabled
    &&& r.ssl_key_file == c.ssl_key_file
    &&& r.ssl_cert_file == c.ssl_cert_file
    &&& r.sync_directory == c.sync_directory
    &&& r.repo_directory == c.repo_directory
    &&& r.action_directory == c.action_directory
    &&& r.ui_path == c.ui_path
    &&& r.ui_index_force_no_cache == c.ui_index_force_no_cache
}

/// `r` holds every secret of `c` hidden (`spec_empty_or_redacted`), account
/// tokens and secret values included; a key file path is kept.
#[verifier::opaque]
pub open spec fn hides_secrets(c: CoreConfig, r: CoreConfig) -> bool {
    &&& r.private_key@ == shown_private_key(c.private_key@)
    &&& r.passkey is Some == c.passkey is Some
    &&& r.passkey is Some ==> r.passkey.unwrap()@ == spec_empty_or_redacted(c.passkey.unwrap()@)
    &&& r.database.uri@ == spec_empty_or_redacted(c.database.uri@)
    &&& r.database.username@ == spec_empty_or_redacted(c.database.username@)
    &&& r.database.password@ == spec_empty_or_redacted(c.database.password@)
    &&& r.init_admin_username is Some == c.init_admin_username is Some
    &&& r.init_admin_username is Some ==> r.init_admin_username.unwrap()@ == spec_empty_or_redacted(c.init_admin_username.unwrap()@)
    &&& r.init_admin_password@ == spec_empty_or_redacted(c.init_admin_password@)
    &&& r.jwt_secret@ == spec_empty_or_redacted(c.jwt_secret@)
    &&& r.oidc_client_id@ == spec_empty_or_redacted(c.oidc_client_id@)
    &&& r.oidc_client_secret@ == spec_empty_or_redacted(c.oidc_client_secret@)
    &&& r.oidc_additional_audiences.deep_view() == c.oidc_additional_audiences.deep_view().map_values(|s: Seq<char>| spec_empty_or_redacted(s))
    &&& r.google_oauth.client_id@ == spec_empty_or_redacted(c.google_oauth.client_id@)
    &&& r.google_oauth.client_secret@ == spec_empty_or_redacted(c.google_oauth.client_secret@)
    &&& r.github_oauth.client_id@ == spec_empty_or_redacted(c.github_oauth.client_id@)
    &&& r.github_oauth.client_secret@ == spec_empty_or_redacted(c.github_oauth.client_secret@)
    &&& r.webhook_secret@ == spec_empty_or_redacted(c.webhook_secret@)
    &&& r.aws.access_key_id@ == spec_empty_or_redacted(c.aws.access_key_id@)
    &&& r.aws.secret_access_key@ == spec_empty_or_redacted(c.aws.secret_access_key@)
    &&& r.git_providers.deep_view() == c.git_providers.deep_view().map_values(|p: GitProviderView| redacted_git_provider(p))
    &&& r.docker_registries.deep_view() == c.docker_registries.deep_view().map_values(|d: DockerRegistryView| redacted_docker_registry(d))
    &&& r.secrets.deep_view() == c.secrets.deep_view().map_values(|s: (Seq<char>, Seq<char>)| redacted_secret(s))
}

impl CoreConfig {
    /// The configuration as it may be shown: every secret is hidden, keeping
    /// only whether it was set; an inline private key is hidden, a key file
    /// path is kept.
    pub fn sanitized(&self) -> (r: CoreConfig)
        ensures
            keeps_plain_settings(*self, r),
            hides_secrets(*self, r),
            secret_names(r.secrets.deep_view()) == secret_names(self.secrets.deep_view()),
            self.well_formed() ==> r.well_formed(),
    {
        let shown_key = if starts_with_text(self.private_key.as_str(), "file:") {
            self.private_key.clone()
        } else {
            empty_or_redacted(self.private_key.as_str())
        };
        let title = self.title.clone();
        let host = self.host.clone();
        let port = self.port;
        let bind_ip = self.bind_ip.clone();
        let internet_interface = self.internet_interface.clone();
        let private_key = shown_key;
        let periphery_public_keys = copy_optional_texts(&self.periphery_public_keys);
        let passkey = match &self.passkey { Some(v) => Some(empty_or_redacted(v.as_str())), None => None };
        let timezone = self.timezone.clone();
        let ui_write_disabled = self.ui_write_disabled;
        let disable_confirm_dialog = self.disable_confirm_dialog;
        let confirm_mode = self.confirm_mode;
        let confirm_hold_seconds = self.confirm_hold_seconds;
        let disable_websocket_reconnect = self.disable_websocket_reconnect;
        let disable_init_resources = self.disable_init_resources;
        let enable_fancy_toml = self.enable_fancy_toml;
        let first_server_name = copy_optional_text(&self.first_server_name);
        let first_server_address = copy_optional_text(&self.first_server_address);
        let database = self.database.sanitized();
        let local_auth = self.local_auth;
        let min_password_length = self.min_password_length;
        let init_admin_username = match &self.init_admin_username { Some(v) => Some(empty_or_redacted(v.as_str())), None => None };
        let init_admin_password = empty_or_redacted(self.init_admin_password.as_str());
        let transparent_mode = self.transparent_mode;
        let enable_new_users = self.enable_new_users;
        let disable_user_registration = self.disable_user_registration;
        let disable_local_user_registration = self.disable_local_user_registration;
        let disable_oidc_user_registration = self.disable_oidc_user_registration;
        let lock_login_credentials_for = copy_texts(&self.lock_login_credentials_for);
        let disable_non_admin_create = self.disable_non_admin_create;
        let jwt_secret = empty_or_redacted(self.jwt_secret.as_str());
        let jwt_ttl = self.jwt_ttl;
        let oidc_enabled = self.oidc_enabled;
        let oidc_provider = self.oidc_provider.clone();
        let oidc_redirect_host = self.oidc_redirect_host.clone();
        let oidc_client_id = empty_or_redacted(self.oidc_client_id.as_str());
        let oidc_client_secret = empty_or_redacted(self.oidc_client_secret.as_str());
        let oidc_use_full_email = self.oidc_use_full_email;
        let oidc_additional_audiences = redact_texts(&self.oidc_additional_audiences);
        let oidc_auto_redirect = self.oidc_auto_redirect;
        let google_oauth = self.google_oauth.sanitized();
        let github_oauth = self.github_oauth.sanitized();
        let auth_rate_limit_disabled = self.auth_rate_limit_disabled;
        let auth_rate_limit_max_attempts = self.auth_rate_limit_max_attempts;
        let auth_rate_limit_window_seconds = self.auth_rate_limit_window_seconds;
        let cors_allowed_origins = copy_texts(&self.cors_allowed_origins);
        let cors_allow_credentials = self.cors_allow_credentials;
        let session_allow_cross_site = self.session_allow_cross_site;
        let x_content_type_options = self.x_content_type_options.clone();
        let x_frame_options = self.x_frame_options.clone();
        let x_xss_protection = self.x_xss_protection.clone();
        let referrer_policy = self.referrer_policy.clone();
        let content_security_policy = self.content_security_policy.clone();
        let webhook_secret = empty_or_redacted(self.webhook_secret.as_str());
        let webhook_base_url = self.webhook_base_url.clone();
        let logging = self.logging.duplicate();
        let pretty_startup_config = self.pretty_startup_config;
        let unsafe_unsanitized_startup_config = self.unsafe_unsanitized_startup_config;
        let keep_stats_for_days = self.keep_stats_for_days;
        let keep_alerts_for_days = self.keep_alerts_for_days;
        let resource_poll_interval = self.resource_poll_interval;
        let monitoring_interval = self.monitoring_interval;
        let aws = AwsCredentials { access_key_id: empty_or_redacted(self.aws.access_key_id.as_str()), secret_access_key: empty_or_redacted(self.aws.secret_access_key.as_str()) };
        let git_providers = redact_git_providers(&self.git_providers);
        let docker_registries = redact_docker_registries(&self.docker_registries);
        let secrets = redact_secrets(&self.secrets);
        let ssl_enabled = self.ssl_enabled;
        let ssl_key_file = self.ssl_key_file.clone();
        let ssl_cert_file = self.ssl_cert_file.clone();
        let sync_directory = self.sync_directory.clone();
        let repo_directory = self.repo_directory.clone();
        let action_directory = self.action_directory.clone();
        let ui_path = self.ui_path.clone();
        let ui_index_force_no_cache = self.ui_index_force_no_cache;
        let r = CoreConfig {
            title,
            host,
            port,
            bind_ip,
            internet_interface,
            private_key,
            periphery_public_keys,
            passkey,
            timezone,
            ui_write_disabled,
            disable_confirm_dialog,
            confirm_mode,
            confirm_hold_seconds,
            disable_websocket_reconnect,
            disable_init_resources,
            enable_fancy_toml,
            first_server_name,
            first_server_address,
            database,
            local_auth,
            min_password_length,
            init_admin_username,
            init_admin_password,
            transparent_mode,
            enable_new_users,
            disable_user_registration,
            disable_local_user_registration,
            disable_oidc_user_registration,
            lock_login_credentials_for,
            disable_non_admin_create,
            jwt_secret,
            jwt_ttl,
            oidc_enabled,
            oidc_provider,
            oidc_redirect_host,
            oidc_client_id,
            oidc_client_secret,
            oidc_use_full_email,
            oidc_additional_audiences,
            oidc_auto_redirect,
            google_oauth,
            github_oauth,
            auth_rate_limit_disabled,
            auth_rate_limit_max_attempts,
            auth_rate_limit_window_seconds,
            cors_allowed_origins,
            cors_allow_credentials,
            session_allow_cross_site,
            x_content_type_options,
            x_frame_options,
            x_xss_protection,
            referrer_policy,
            content_security_policy,
            webhook_secret,
            webhook_base_url,
            logging,
            pretty_startup_config,
            unsafe_unsanitized_startup_config,
            keep_stats_for_days,
            keep_alerts_for_days,
            resource_poll_interval,
            monitoring_interval,
            aws,
            git_providers,
            docker_registries,
            secrets,
            ssl_enabled,
            ssl_key_file,
            ssl_cert_file,
            sync_directory,
            repo_directory,
            action_directory,
            ui_path,
            ui_index_force_no_cache,
        };
        assert(keeps_plain_settings(*self, r)) by {
            reveal(keeps_plain_settings);
        }
        assert(hides_secrets(*self, r)) by {
            reveal(hides_secrets);
        }
        assert(secret_names(r.secrets.deep_view()) =~= secret_names(self.secrets.deep_view()));
        r
    }

    /// Whether OIDC login is usable: enabled, with a provider and a client id.
    pub fn oidc_enabled(&self) -> (r: bool)
        ensures
            r == (self.oidc_enabled && self.oidc_provider@.len() > 0 && self.oidc_client_id@.len()
                > 0),
    {
        self.oidc_enabled && !self.oidc_provider.as_str().is_empty()
            && !self.oidc_client_id.as_str().is_empty()
    }

    /// IP address the web server binds to.
    pub fn bind_ip(&self) -> (r: &str)
        ensures
            r@ == self.bind_ip@,
    {
        self.bind_ip.as_str()
    }

    /// Port the web server listens on.
    pub fn port(&self) -> (r: u16)
        ensures
            r == self.port,
    {
        self.port
    }

    /// Whether the web server serves over TLS.
    pub fn ssl_enabled(&self) -> (r: bool)
        ensures
            r == self.ssl_enabled,
    {
        self.ssl_enabled
    }

    /// Path of the TLS key.
    pub fn ssl_key_file(&self) -> (r: &str)
        ensures
            r@ == self.ssl_key_file@,
    {
        self.ssl_key_file.as_str()
    }

    /// Path of the TLS certificate.
    pub fn ssl_cert_file(&self) -> (r: &str)
        ensures
            r@ == self.ssl_cert_file@,
    {
        self.ssl_cert_file.as_str()
    }

    /// `X-Content-Type-Options` header value.
    pub fn x_content_type_options(&self) -> (r: &str)
        ensures
            r@ == self.x_content_type_options@,
    {
        self.x_content_type_options.as_str()
    }

    /// `X-Frame-Options` header value.
    pub fn x_frame_options(&self) -> (r: &str)
        ensures
            r@ == self.x_frame_options@,
    {
        self.x_frame_options.as_str()
    }

    /// `X-XSS-Protection` header value.
    pub fn x_xss_protection(&self) -> (r: &str)
        ensures
            r@ == self.x_xss_protection@,
    {
        self.x_xss_protection.as_str()
    }

    /// `Referrer-Policy` header value.
    pub fn referrer_policy(&self) -> (r: &str)
        ensures
            r@ == self.referrer_policy@,
    {
        self.referrer_policy.as_str()
    }

    /// `Content-Security-Policy` header value.
    pub fn content_security_policy(&self) -> (r: &str)
        ensures
            r@ == self.content_security_policy@,
    {
        self.content_security_policy.as_str()
    }

    /// Allowed CORS origins, all when empty.
    pub fn allowed_origins(&self) -> (r: &[String])
        ensures
            r@ == self.cors_allowed_origins@,
    {
        self.cors_allowed_origins.as_slice()
    }

    /// Whether CORS requests may carry credentials.
    pub fn allow_credentials(&self) -> (r: bool)
        ensures
            r == self.cors_allow_credentials,
    {
        self.cors_allow_credentials
    }

    /// The address users reach the deployment at.
    pub fn host(&self) -> (r: &str)
        ensures
            r@ == self.host@,
    {
        self.host.as_str()
    }

    /// The environment variable that sets the host.
    pub fn host_env_field(&self) -> (r: &'static str)
        ensures
            r@ == "KOMODO_HOST"@,
    {
        "KOMODO_HOST"
    }

    /// Seconds a login session lasts.
    pub fn expiry_seconds(&self) -> (r: i64)
        ensures
            r == 180,
    {
        60 * 3
    }

    /// Whether session cookies are sent cross site.
    pub fn allow_cross_site(&self) -> (r: bool)
        ensures
            r == self.session_allow_cross_site,
    {
        self.session_allow_cross_site
    }
}


/// A shown private key is shown as it is.
pub proof fn law_shown_private_key_idempotent(key: Seq<char>)
    ensures
        shown_private_key(shown_private_key(key)) == shown_private_key(key),
{
    reveal_strlit("file:");
    if !has_prefix(key, "file:"@) && key.len() > 0 {
        let shown = spec_empty_or_redacted(key);
        assert(shown[0] == '#');
        assert(shown.subrange(0, 5)[0] == '#');
        assert(!has_prefix(shown, "file:"@));
    }
}

proof fn lemma_redacted_accounts_idempotent(s: Seq<AccountView>)
    ensures
        s.map_values(|a: AccountView| redacted_account(a)).map_values(
            |a: AccountView| redacted_account(a),
        ) == s.map_values(|a: AccountView| redacted_account(a)),
{
    assert(s.map_values(|a: AccountView| redacted_account(a)).map_values(
        |a: AccountView| redacted_account(a),
    ) =~= s.map_values(|a: AccountView| redacted_account(a)));
}

/// Sanitizing a sanitized configuration shows it as sanitizing the original
/// did: whatever `r2` is made of `r1`, it stands to `c` as `r1` does.
pub proof fn law_sanitize_idempotent(c: CoreConfig, r1: CoreConfig, r2: CoreConfig)
    requires
        keeps_plain_settings(c, r1),
        hides_secrets(c, r1),
        keeps_plain_settings(r1, r2),
        hides_secrets(r1, r2),
    ensures
        keeps_plain_settings(c, r2),
        hides_secrets(c, r2),
{
    reveal(keeps_plain_settings);
    reveal(hides_secrets);
    law_shown_private_key_idempotent(c.private_key@);
    assert(r2.oidc_additional_audiences.deep_view() =~= c.oidc_additional_audiences.deep_view().map_values(
        |s: Seq<char>| spec_empty_or_redacted(s),
    ));
    assert(r2.git_providers.deep_view() =~= c.git_providers.deep_view().map_values(
        |p: GitProviderView| redacted_git_provider(p),
    )) by {
        assert forall|i: int| 0 <= i < c.git_providers.deep_view().len() implies #[trigger] r2.git_providers.deep_view()[i]
            == redacted_git_provider(c.git_providers.deep_view()[i]) by {
            lemma_redacted_accounts_idempotent(c.git_providers.deep_view()[i].accounts);
        }
    }
    assert(r2.docker_registries.deep_view() =~= c.docker_registries.deep_view().map_values(
        |d: DockerRegistryView| redacted_docker_registry(d),
    )) by {
        assert forall|i: int| 0 <= i < c.docker_registries.deep_view().len() implies #[trigger] r2.docker_registries.deep_view()[i]
            == redacted_docker_registry(c.docker_registries.deep_view()[i]) by {
            lemma_redacted_accounts_idempotent(c.docker_registries.deep_view()[i].accounts);
        }
    }
    assert(r2.secrets.deep_view() =~= c.secrets.deep_view().map_values(
        |s: (Seq<char>, Seq<char>)| redacted_secret(s),
    ));
}

/// Sanitizing changes nothing but the secrets: the shown configuration is
/// the original one with its secret fields, its lists of texts and its
/// provider and registry lists put in place, and those lists hold the same
/// texts.
pub proof fn law_sanitized_changes_only_secrets(c: CoreConfig, r: CoreConfig)
    requires
        keeps_plain_settings(c, r),
        hides_secrets(c, r),
    ensures
        r == (CoreConfig {
            private_key: r.private_key,
            passkey: r.passkey,
            jwt_secret: r.jwt_secret,
            webhook_secret: r.webhook_secret,
            init_admin_username: r.init_admin_username,
            init_admin_password: r.init_admin_password,
            oidc_client_id: r.oidc_client_id,
            oidc_client_secret: r.oidc_client_secret,
            oidc_additional_audiences: r.oidc_additional_audiences,
            google_oauth: NamedOauthConfig {
                client_id: r.google_oauth.client_id,
                client_secret: r.google_oauth.client_secret,
                ..c.google_oauth
            },
            github_oauth: NamedOauthConfig {
                client_id: r.github_oauth.client_id,
                client_secret: r.github_oauth.client_secret,
                ..c.github_oauth
            },
            database: DatabaseConfig {
                uri: r.database.uri,
                username: r.database.username,
                password: r.database.password,
                ..c.database
            },
            aws: r.aws,
            git_providers: r.git_providers,
            docker_registries: r.docker_registries,
            secrets: r.secrets,
            periphery_public_keys: r.periphery_public_keys,
            lock_login_credentials_for: r.lock_login_credentials_for,
            cors_allowed_origins: r.cors_allowed_origins,
            ..c
        }),
        r.periphery_public_keys is Some == c.periphery_public_keys is Some,
        r.periphery_public_keys is Some ==> r.periphery_public_keys->0@
            == c.periphery_public_keys->0@,
        r.lock_login_credentials_for@ == c.lock_login_credentials_for@,
        r.cors_allowed_origins@ == c.cors_allowed_origins@,
{
    reveal(keeps_plain_settings);
    reveal(hides_secrets);
}

/// Every secret value of a sanitized configuration shows only whether it
/// was set: an inline private key, the passkey, the token and webhook
/// secrets, the initial admin, the login client ids and secrets, the extra
/// OIDC audiences, the database uri and credentials and the AWS keys. Only a
/// private key that names a key file is shown as it is.
pub proof fn law_sanitized_hides_secret_values(c: CoreConfig, r: CoreConfig)
    requires
        hides_secrets(c, r),
    ensures
        has_prefix(c.private_key@, "file:"@) ==> r.private_key@ == c.private_key@,
        !has_prefix(c.private_key@, "file:"@) ==> r.private_key@ == spec_empty_or_redacted(
            c.private_key@,
        ),
        r.passkey is Some == c.passkey is Some,
        c.passkey is Some ==> r.passkey->0@ == spec_empty_or_redacted(c.passkey->0@),
        r.jwt_secret@ == spec_empty_or_redacted(c.jwt_secret@),
        r.webhook_secret@ == spec_empty_or_redacted(c.webhook_secret@),
        r.init_admin_username is Some == c.init_admin_username is Some,
        c.init_admin_username is Some ==> r.init_admin_username->0@ == spec_empty_or_redacted(
            c.init_admin_username->0@,
        ),
        r.init_admin_password@ == spec_empty_or_redacted(c.init_admin_password@),
        r.oidc_client_id@ == spec_empty_or_redacted(c.oidc_client_id@),
        r.oidc_client_secret@ == spec_empty_or_redacted(c.oidc_client_secret@),
        r.oidc_additional_audiences.deep_view().len() == c.oidc_additional_audiences.deep_view().len(),
        forall|i: int|
            0 <= i < c.oidc_additional_audiences.deep_view().len() ==> (
            #[trigger] r.oidc_additional_audiences.deep_view()[i]) == spec_empty_or_redacted(
                c.oidc_additional_audiences.deep_view()[i],
            ),
        r.google_oauth.client_id@ == spec_empty_or_redacted(c.google_oauth.client_id@),
        r.google_oauth.client_secret@ == spec_empty_or_redacted(c.google_oauth.client_secret@),
        r.github_oauth.client_id@ == spec_empty_or_redacted(c.github_oauth.client_id@),
        r.github_oauth.client_secret@ == spec_empty_or_redacted(c.github_oauth.client_secret@),
        r.database.uri@ == spec_empty_or_redacted(c.database.uri@),
        r.database.username@ == spec_empty_or_redacted(c.database.username@),
        r.database.password@ == spec_empty_or_redacted(c.database.password@),
        r.aws.access_key_id@ == spec_empty_or_redacted(c.aws.access_key_id@),
        r.aws.secret_access_key@ == spec_empty_or_redacted(c.aws.secret_access_key@),
{
    reveal(hides_secrets);
}

/// Every account token of every git provider and docker registry of a
/// sanitized configuration, and every secret value, shows only whether it
/// was set; the providers and registries keep their places, domains, https
/// setting, usernames and organizations, and the secrets their names.
pub proof fn law_sanitized_hides_account_tokens(c: CoreConfig, r: CoreConfig)
    requires
        hides_secrets(c, r),
    ensures
        r.git_providers.deep_view().len() == c.git_providers.deep_view().len(),
        forall|i: int|
            0 <= i < c.git_providers.deep_view().len() ==> {
                &&& (#[trigger] r.git_providers.deep_view()[i]).domain
                    == c.git_providers.deep_view()[i].domain
                &&& r.git_providers.deep_view()[i].https == c.git_providers.deep_view()[i].https
                &&& r.git_providers.deep_view()[i].accounts.len()
                    == c.git_providers.deep_view()[i].accounts.len()
            },
        forall|i: int, j: int|
            0 <= i < c.git_providers.deep_view().len() && 0 <= j
                < c.git_providers.deep_view()[i].accounts.len() ==> {
                &&& (#[trigger] r.git_providers.deep_view()[i].accounts[j]).username
                    == c.git_providers.deep_view()[i].accounts[j].username
                &&& r.git_providers.deep_view()[i].accounts[j].token == spec_empty_or_redacted(
                    c.git_providers.deep_view()[i].accounts[j].token,
                )
            },
        r.docker_registries.deep_view().len() == c.docker_registries.deep_view().len(),
        forall|i: int|
            0 <= i < c.docker_registries.deep_view().len() ==> {
                &&& (#[trigger] r.docker_registries.deep_view()[i]).domain
                    == c.docker_registries.deep_view()[i].domain
                &&& r.docker_registries.deep_view()[i].organizations
                    == c.docker_registries.deep_view()[i].organizations
                &&& r.docker_registries.deep_view()[i].accounts.len()
                    == c.docker_registries.deep_view()[i].accounts.len()
            },
        forall|i: int, j: int|
            0 <= i < c.docker_registries.deep_view().len() && 0 <= j
                < c.docker_registries.deep_view()[i].accounts.len() ==> {
                &&& (#[trigger] r.docker_registries.deep_view()[i].accounts[j]).username
                    == c.docker_registries.deep_view()[i].accounts[j].username
                &&& r.docker_registries.deep_view()[i].accounts[j].token
                    == spec_empty_or_redacted(c.docker_registries.deep_view()[i].accounts[j].token)
            },
        r.secrets.deep_view().len() == c.secrets.deep_view().len(),
        forall|i: int|
            0 <= i < c.secrets.deep_view().len() ==> {
                &&& (#[trigger] r.secrets.deep_view()[i]).0 == c.secrets.deep_view()[i].0
                &&& r.secrets.deep_view()[i].1 == spec_empty_or_redacted(c.secrets.deep_view()[i].1)
            },
{
    reveal(hides_secrets);
}

} // verus!
