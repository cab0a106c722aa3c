use vstd::prelude::*;

use crate::order::{
    compare_text, compare_vecs, comparison_agrees, lemma_lex_strict_total,
    lemma_text_strict_total, lex_lt, lex_order, strict_total, text_lt, text_order, Comparison, ViewOrder,
};

verus! {

/// A login on a git provider or docker registry.
#[derive(Debug, Clone, Default)]
pub struct ProviderAccount {
    /// The account username.
    pub username: String,
    /// The account token.
    pub token: String,
}

/// A configured git provider and the accounts that can use it.
#[derive(Debug, Clone)]
pub struct GitProvider {
    /// The git provider domain, eg `github.com`.
    pub domain: String,
    /// Whether to clone over https.
    pub https: bool,
    /// The accounts on the provider.
    pub accounts: Vec<ProviderAccount>,
}

/// A configured docker registry and the accounts that can use it.
#[derive(Debug, Clone)]
pub struct DockerRegistry {
    /// The registry domain, eg `docker.io`.
    pub domain: String,
    /// The accounts on the registry.
    pub accounts: Vec<ProviderAccount>,
    /// Organizations available on the registry.
    pub organizations: Vec<String>,
}

/// The mathematical value of a [ProviderAccount].
pub struct AccountView {
    pub username: Seq<char>,
    pub token: Seq<char>,
}

/// The mathematical value of a [GitProvider].
pub struct GitProviderView {
    pub domain: Seq<char>,
    pub https: bool,
    pub accounts: Seq<AccountView>,
}

/// The mathematical value of a [DockerRegistry].
pub struct DockerRegistryView {
    pub domain: Seq<char>,
    pub accounts: Seq<AccountView>,
    pub organizations: Seq<Seq<char>>,
}

impl DeepView for ProviderAccount {
    type V = AccountView;

    open spec fn deep_view(&self) -> AccountView {
        AccountView { username: self.username@, token: self.token@ }
    }
}

impl DeepView for GitProvider {
    type V = GitProviderView;

    open spec fn deep_view(&self) -> GitProviderView {
        GitProviderView {
            domain: self.domain@,
            https: self.https,
            accounts: self.accounts.deep_view(),
        }
    }
}

impl DeepView for DockerRegistry {
    type V = DockerRegistryView;

    open spec fn deep_view(&self) -> DockerRegistryView {
        DockerRegistryView {
            domain: self.domain@,
            accounts: self.accounts.deep_view(),
            organizations: self.organizations.deep_view(),
        }
    }
}

/// Accounts are ordered by username, then token.
pub open spec fn account_lt(a: AccountView, b: AccountView) -> bool {
    ||| text_order()(a.username, b.username)
    ||| a.username == b.username && text_order()(a.token, b.token)
}

/// `false` comes before `true`.
pub open spec fn bool_lt(a: bool, b: bool) -> bool {
    !a && b
}

/// Git providers are ordered by domain, then https, then accounts.
pub open spec fn git_provider_lt(a: GitProviderView, b: GitProviderView) -> bool {
    ||| text_order()(a.domain, b.domain)
    ||| a.domain == b.domain && bool_lt(a.https, b.https)
    ||| a.domain == b.domain && a.https == b.https && lex_order(account_order())(
        a.accounts,
        b.accounts,
    )
}

/// Docker registries are ordered by domain, then accounts, then organizations.
pub open spec fn docker_registry_lt(a: DockerRegistryView, b: DockerRegistryView) -> bool {
    ||| text_order()(a.domain, b.domain)
    ||| a.domain == b.domain && lex_order(account_order())(a.accounts, b.accounts)
    ||| a.domain == b.domain && a.accounts == b.accounts && lex_order(text_order())(
        a.organizations,
        b.organizations,
    )
}

pub open spec fn account_order() -> spec_fn(AccountView, AccountView) -> bool {
    |a: AccountView, b: AccountView| account_lt(a, b)
}

pub open spec fn git_provider_order() -> spec_fn(GitProviderView, GitProviderView) -> bool {
    |a: GitProviderView, b: GitProviderView| git_provider_lt(a, b)
}

pub open spec fn docker_registry_order() -> spec_fn(
    DockerRegistryView,
    DockerRegistryView,
) -> bool {
    |a: DockerRegistryView, b: DockerRegistryView| docker_registry_lt(a, b)
}

proof fn lemma_account_strict_total()
    ensures
        strict_total(account_order()),
{
    lemma_text_strict_total();
}

proof fn lemma_account_list_strict_total()
    ensures
        strict_total(lex_order(account_order())),
{
    lemma_account_strict_total();
    lemma_lex_strict_total(account_order());
}

proof fn lemma_git_provider_strict_total()
    ensures
        strict_total(git_provider_order()),
{
    lemma_text_strict_total();
    lemma_account_list_strict_total();
}

proof fn lemma_text_list_strict_total()
    ensures
        strict_total(lex_order(text_order())),
{
    lemma_text_strict_total();
    lemma_lex_strict_total(text_order());
}

proof fn lemma_docker_registry_strict_total()
    ensures
        strict_total(docker_registry_order()),
{
    lemma_text_strict_total();
    lemma_account_list_strict_total();
    lemma_text_list_strict_total();
}

impl ViewOrder for ProviderAccount {
    open spec fn view_lt() -> spec_fn(AccountView, AccountView) -> bool {
        account_order()
    }

    proof fn lemma_view_lt_strict_total() {
        lemma_account_strict_total();
    }

    fn compare(&self, other: &Self) -> (c: Comparison) {
        proof {
            lemma_text_strict_total();
        }
        match compare_text(self.username.as_str(), other.username.as_str()) {
            Comparison::Less => Comparison::Less,
            Comparison::Greater => Comparison::Greater,
            Comparison::Equal => compare_text(self.token.as_str(), other.token.as_str()),
        }
    }
}

impl ViewOrder for GitProvider {
    open spec fn view_lt() -> spec_fn(GitProviderView, GitProviderView) -> bool {
        git_provider_order()
    }

    proof fn lemma_view_lt_strict_total() {
        lemma_git_provider_strict_total();
    }

    fn compare(&self, other: &Self) -> (c: Comparison) {
        proof {
            lemma_text_strict_total();
            lemma_account_list_strict_total();
        }
        match compare_text(self.domain.as_str(), other.domain.as_str()) {
            Comparison::Less => Comparison::Less,
            Comparison::Greater => Comparison::Greater,
            Comparison::Equal => {
                if !self.https && other.https {
                    Comparison::Less
                } else if self.https && !other.https {
                    Comparison::Greater
                } else {
                    compare_vecs(&self.accounts, &other.accounts)
                }
            },
        }
    }
}

impl ViewOrder for DockerRegistry {
    open spec fn view_lt() -> spec_fn(DockerRegistryView, DockerRegistryView) -> bool {
        docker_registry_order()
    }

    proof fn lemma_view_lt_strict_total() {
        lemma_docker_registry_strict_total();
    }

    fn compare(&self, other: &Self) -> (c: Comparison) {
        proof {
            lemma_text_strict_total();
            lemma_account_list_strict_total();
            lemma_text_list_strict_total();
        }
        match compare_text(self.domain.as_str(), other.domain.as_str()) {
            Comparison::Less => Comparison::Less,
            Comparison::Greater => Comparison::Greater,
            Comparison::Equal => match compare_vecs(&self.accounts, &other.accounts) {
                Comparison::Less => Comparison::Less,
                Comparison::Greater => Comparison::Greater,
                Comparison::Equal => compare_vecs(&self.organizations, &other.organizations),
            },
        }
    }
}

/// Accounts are ordered by username first: an account whose username comes
/// earlier in text order comes first, and of two accounts in order the first
/// has the earlier or the same username.
pub proof fn law_account_order_by_username(a: AccountView, b: AccountView)
    ensures
        text_lt(a.username, b.username) ==> account_lt(a, b),
        account_lt(a, b) ==> a.username == b.username || text_lt(a.username, b.username),
        a.username == b.username ==> (account_lt(a, b) <==> text_lt(a.token, b.token)),
{
    lemma_text_strict_total();
}

/// Git providers are ordered by domain first, then plain http before https:
/// a provider whose domain comes earlier in text order comes first, and of
/// two providers in order the first has the earlier or the same domain.
pub proof fn law_git_provider_order_by_domain(a: GitProviderView, b: GitProviderView)
    ensures
        text_lt(a.domain, b.domain) ==> git_provider_lt(a, b),
        git_provider_lt(a, b) ==> a.domain == b.domain || text_lt(a.domain, b.domain),
        a.domain == b.domain && !a.https && b.https ==> git_provider_lt(a, b),
        git_provider_lt(a, b) && a.domain == b.domain ==> !a.https || b.https,
        a.domain == b.domain && a.https == b.https && lex_lt(a.accounts, b.accounts, account_order())
            ==> git_provider_lt(a, b),
{
    lemma_text_strict_total();
}

/// Docker registries are ordered by domain first: a registry whose domain
/// comes earlier in text order comes first, and of two registries in order
/// the first has the earlier or the same domain.
pub proof fn law_docker_registry_order_by_domain(a: DockerRegistryView, b: DockerRegistryView)
    ensures
        text_lt(a.domain, b.domain) ==> docker_registry_lt(a, b),
        docker_registry_lt(a, b) ==> a.domain == b.domain || text_lt(a.domain, b.domain),
        a.domain == b.domain && lex_lt(a.accounts, b.accounts, account_order()) ==> docker_registry_lt(
            a,
            b,
        ),
        a.domain == b.domain && a.accounts == b.accounts && lex_lt(
            a.organizations,
            b.organizations,
            text_order(),
        ) ==> docker_registry_lt(a, b),
{
    lemma_text_strict_total();
}

} // verus!
