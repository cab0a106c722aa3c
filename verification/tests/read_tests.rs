use komodo_core_config::core_config::{ConfirmationMode, CoreConfig};
use komodo_core_config::entities::{
    AwsBuilderConfig, BuilderConfig, ResourceTarget, ServerBuilderConfig, TimeSpan,
};
use komodo_core_config::listing::{
    list_docker_registries, list_git_providers, list_secret_names, ResourceGitSource,
};
use komodo_core_config::merge::{merge_docker_registries, merge_git_providers};
use komodo_core_config::order::{compare_text, sort_by_view, Comparison};
use komodo_core_config::providers::{DockerRegistry, GitProvider, ProviderAccount};
use komodo_core_config::read_api::{
    builder_source, core_info, target_request, version_response, BuilderSource, ReadError,
    TargetRequest,
};

fn account(username: &str, token: &str) -> ProviderAccount {
    ProviderAccount { username: username.to_string(), token: token.to_string() }
}

fn git(domain: &str, https: bool, accounts: Vec<ProviderAccount>) -> GitProvider {
    GitProvider { domain: domain.to_string(), https, accounts }
}

fn registry(domain: &str, accounts: Vec<ProviderAccount>) -> DockerRegistry {
    DockerRegistry { domain: domain.to_string(), accounts, organizations: Vec::new() }
}

fn usernames(p: &GitProvider) -> Vec<String> {
    p.accounts.iter().map(|a| a.username.clone()).collect()
}

fn domains(ps: &[GitProvider]) -> Vec<String> {
    ps.iter().map(|p| p.domain.clone()).collect()
}

#[test]
fn version_is_reported() {
    assert_eq!(version_response("2.0.0").version, "2.0.0");
}

#[test]
fn core_info_from_config() {
    let mut c = CoreConfig::default();
    c.title = "Mine".to_string();
    c.timezone = "Europe/Paris".to_string();
    let info = core_info(&c, "PUBKEY".to_string());
    assert_eq!(info.title, "Mine");
    assert_eq!(info.webhook_base_url, "https://komodo.example.com");
    assert_eq!(info.confirm_mode, ConfirmationMode::Hold);
    assert_eq!(info.confirm_hold_seconds, 3);
    assert_eq!(info.monitoring_interval, TimeSpan::FifteenSeconds);
    assert_eq!(info.timezone, "Europe/Paris");
    assert_eq!(info.public_key, "PUBKEY");
}

#[test]
fn core_info_webhook_base_url_and_confirm_mode() {
    let mut c = CoreConfig::default();
    c.webhook_base_url = "https://webhooks.example.com".to_string();
    c.disable_confirm_dialog = true;
    let info = core_info(&c, String::new());
    assert_eq!(info.webhook_base_url, "https://webhooks.example.com");
    assert_eq!(info.confirm_mode, ConfirmationMode::DoubleClick);
    assert!(info.disable_confirm_dialog);
    c.confirm_mode = Some(ConfirmationMode::Type);
    assert_eq!(core_info(&c, String::new()).confirm_mode, ConfirmationMode::Type);
}

#[test]
fn targets_must_be_server_or_builder() {
    assert_eq!(target_request(None), Ok(TargetRequest::NoTarget));
    assert_eq!(
        target_request(Some(ResourceTarget::Server("s1".to_string()))),
        Ok(TargetRequest::Server("s1".to_string()))
    );
    assert_eq!(
        target_request(Some(ResourceTarget::Builder("b1".to_string()))),
        Ok(TargetRequest::Builder("b1".to_string()))
    );
    assert_eq!(
        target_request(Some(ResourceTarget::Stack("x".to_string()))),
        Err(ReadError::InvalidTarget)
    );
    assert_eq!(ReadError::InvalidTarget.message(), "target must be `Server` or `Builder`");
    assert_eq!(ReadError::InvalidTarget.status(), 400);
}

#[test]
fn merge_git_providers_joins_accounts_of_same_domain() {
    let mut providers = vec![
        git("github.com", true, vec![account("a", "1")]),
        git("gitlab.com", true, vec![]),
    ];
    let more = vec![
        git("github.com", false, vec![account("a", "1"), account("b", "2")]),
        git("codeberg.org", true, vec![account("c", "3")]),
    ];
    merge_git_providers(&mut providers, more);
    assert_eq!(domains(&providers), vec!["github.com", "gitlab.com", "codeberg.org"]);
    assert_eq!(usernames(&providers[0]), vec!["a", "b"]);
    // The existing provider keeps its https setting.
    assert!(providers[0].https);
    assert_eq!(usernames(&providers[2]), vec!["c"]);
}

#[test]
fn merge_git_providers_uses_first_of_a_domain() {
    let mut providers = vec![
        git("github.com", true, vec![account("a", "1")]),
        git("github.com", true, vec![account("z", "9")]),
    ];
    merge_git_providers(&mut providers, vec![git("github.com", true, vec![account("b", "2")])]);
    assert_eq!(usernames(&providers[0]), vec!["a", "b"]);
    assert_eq!(usernames(&providers[1]), vec!["z"]);
}

#[test]
fn merge_git_providers_twice_changes_nothing() {
    let more = || {
        vec![
            git("github.com", true, vec![account("b", "2")]),
            git("new.org", true, vec![account("c", "3")]),
            git("new.org", true, vec![account("d", "4")]),
        ]
    };
    let mut providers = vec![git("github.com", true, vec![account("a", "1")])];
    merge_git_providers(&mut providers, more());
    let first = providers.clone();
    merge_git_providers(&mut providers, more());
    assert_eq!(domains(&providers), domains(&first));
    for (p, q) in providers.iter().zip(first.iter()) {
        assert_eq!(usernames(p), usernames(q));
    }
    assert_eq!(usernames(&providers[1]), vec!["c", "d"]);
}

#[test]
fn merge_docker_registries_joins_accounts() {
    let mut registries = vec![registry("docker.io", vec![account("a", "1")])];
    merge_docker_registries(
        &mut registries,
        vec![
            registry("docker.io", vec![account("a", "1"), account("b", "2")]),
            registry("ghcr.io", vec![]),
        ],
    );
    assert_eq!(registries.len(), 2);
    assert_eq!(registries[0].accounts.len(), 2);
    assert_eq!(registries[0].accounts[1].username, "b");
    assert_eq!(registries[1].domain, "ghcr.io");
}

#[test]
fn list_git_providers_adds_resource_domains_and_sorts() {
    let config = vec![git("gitlab.com", true, vec![account("g", "1")])];
    let target = vec![git("github.com", true, vec![account("t", "2")])];
    let resources = vec![
        ResourceGitSource { git_provider: "github.com".to_string(), git_https: false },
        ResourceGitSource { git_provider: "git.internal".to_string(), git_https: false },
        ResourceGitSource { git_provider: "git.internal".to_string(), git_https: true },
    ];
    let listed = list_git_providers(config, target, resources);
    assert_eq!(domains(&listed), vec!["git.internal", "github.com", "gitlab.com"]);
    assert!(!listed[0].https);
    assert!(listed[0].accounts.is_empty());
    assert_eq!(usernames(&listed[1]), vec!["t"]);
}

#[test]
fn list_git_providers_orders_by_https_then_accounts() {
    let config = vec![
        git("a.com", true, vec![account("y", "")]),
        git("a.com", true, vec![account("x", "")]),
        git("a.com", false, vec![]),
    ];
    let listed = list_git_providers(config, vec![], vec![]);
    assert!(!listed[0].https);
    assert_eq!(usernames(&listed[1]), vec!["x"]);
    assert_eq!(usernames(&listed[2]), vec!["y"]);
}

#[test]
fn list_docker_registries_sorts() {
    let listed = list_docker_registries(
        vec![registry("quay.io", vec![]), registry("docker.io", vec![])],
        vec![registry("ghcr.io", vec![])],
        Vec::new(),
    );
    let names: Vec<String> = listed.iter().map(|r| r.domain.clone()).collect();
    assert_eq!(names, vec!["docker.io", "ghcr.io", "quay.io"]);
}

#[test]
fn secret_names_are_unique_and_sorted() {
    let config = vec!["b".to_string(), "a".to_string(), "c".to_string()];
    let target = vec!["c".to_string(), "A".to_string(), "a".to_string()];
    assert_eq!(list_secret_names(config, target), vec!["A", "a", "b", "c"]);
    assert_eq!(list_secret_names(vec![], vec![]), Vec::<String>::new());
}

#[test]
fn text_comparison_is_by_code_point() {
    assert_eq!(compare_text("abc", "abd"), Comparison::Less);
    assert_eq!(compare_text("abc", "ab"), Comparison::Greater);
    assert_eq!(compare_text("", ""), Comparison::Equal);
    assert_eq!(compare_text("Z", "a"), Comparison::Less);
    assert_eq!(compare_text("é", "z"), Comparison::Greater);
    assert_eq!(compare_text("ab", "ab"), Comparison::Equal);
}

#[test]
fn sorting_texts_matches_std_order() {
    let input = vec!["pear", "apple", "fig", "apple", "Äpfel", ""];
    let sorted = sort_by_view(input.iter().map(|s| s.to_string()).collect());
    let mut expected: Vec<String> = input.iter().map(|s| s.to_string()).collect();
    expected.sort();
    assert_eq!(sorted, expected);
}

#[test]
fn builder_targets_take_settings_from_their_kind() {
    assert!(matches!(
        builder_source(BuilderConfig::Url("https://periphery:8120".to_string())),
        BuilderSource::Nothing
    ));
    match builder_source(BuilderConfig::Server(ServerBuilderConfig {
        server_id: "server-1".to_string(),
    })) {
        BuilderSource::Server(id) => assert_eq!(id, "server-1"),
        other => panic!("unexpected {other:?}"),
    }
    let aws = AwsBuilderConfig {
        secrets: vec!["GH_TOKEN".to_string()],
        git_providers: vec![git("github.com", true, vec![account("bot", "t")])],
        docker_registries: Vec::new(),
    };
    match builder_source(BuilderConfig::Aws(aws)) {
        BuilderSource::Own(c) => {
            assert_eq!(c.secrets, vec!["GH_TOKEN".to_string()]);
            assert_eq!(c.git_providers.len(), 1);
            assert_eq!(c.git_providers[0].domain, "github.com");
            assert!(c.docker_registries.is_empty());
        }
        other => panic!("unexpected {other:?}"),
    }
}

#[test]
fn list_docker_registries_adds_domains_of_builds_and_deployments() {
    let listed = list_docker_registries(
        vec![registry("quay.io", vec![account("q", "1")])],
        vec![registry("ghcr.io", vec![account("g", "2")])],
        vec![
            "ghcr.io".to_string(),
            "docker.io".to_string(),
            "registry.example.com".to_string(),
            "docker.io".to_string(),
        ],
    );
    let names: Vec<String> = listed.iter().map(|r| r.domain.clone()).collect();
    assert_eq!(names, vec!["docker.io", "ghcr.io", "quay.io", "registry.example.com"]);
    assert!(listed[0].accounts.is_empty());
    assert!(listed[0].organizations.is_empty());
    assert_eq!(listed[1].accounts.len(), 1);
    assert_eq!(listed[1].accounts[0].username, "g");
    assert_eq!(listed[2].accounts[0].username, "q");
    assert!(listed[3].accounts.is_empty());
}

#[test]
fn resource_provider_takes_https_of_first_resource() {
    let listed = list_git_providers(
        vec![git("github.com", true, vec![account("a", "1")])],
        Vec::new(),
        vec![
            ResourceGitSource { git_provider: "git.example.com".to_string(), git_https: false },
            ResourceGitSource { git_provider: "git.example.com".to_string(), git_https: true },
            ResourceGitSource { git_provider: "github.com".to_string(), git_https: false },
        ],
    );
    assert_eq!(domains(&listed), vec!["git.example.com", "github.com"]);
    assert!(!listed[0].https);
    assert!(listed[0].accounts.is_empty());
    assert!(listed[1].https);
    assert_eq!(usernames(&listed[1]), vec!["a"]);
}
