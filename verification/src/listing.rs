use vstd::prelude::*;

use crate::merge_laws::{
    is_prefix_of, law_merge_docker_registries, law_merge_git_providers, lemma_first_git_domain,
    lemma_first_registry_domain, names_domain, names_registry_domain,
};
use crate::merge::{
    has_git_domain, has_registry_domain, merge_docker_registries, merge_docker_registry,
    merge_git_provider, merge_docker_registry_list, merge_git_provider_list,
    merge_git_providers,
};
use crate::order::{
    lemma_text_strict_total, sort_by_view, sorted_by, strict_total, text_lt, text_order, Comparison,
    ViewOrder,
};
use crate::providers::{
    git_provider_order, docker_registry_order, law_docker_registry_order_by_domain,
    law_git_provider_order_by_domain, DockerRegistry, DockerRegistryView, GitProvider,
    GitProviderView, ProviderAccount,
};

verus! {

/// The git provider settings of a build, repo or resource sync.
#[derive(Debug, Clone)]
pub struct ResourceGitSource {
    /// The git provider domain the resource clones from.
    pub git_provider: String,
    /// Whether the resource clones over https.
    pub git_https: bool,
}

/// The git provider a resource clones from, with no accounts.
pub open spec fn resource_provider_view(domain: Seq<char>, https: bool) -> GitProviderView {
    GitProviderView { domain, https, accounts: Seq::empty() }
}

/// Appends a provider, without accounts, for each resource whose domain no
/// provider has yet, in the order the resources come.
pub open spec fn add_resource_providers(
    ps: Seq<GitProviderView>,
    resources: Seq<(Seq<char>, bool)>,
) -> Seq<GitProviderView>
    decreases resources.len(),
{
    if resources.len() == 0 {
        ps
    } else {
        let next = if has_git_domain(ps, resources[0].0) {
            ps
        } else {
            ps.push(resource_provider_view(resources[0].0, resources[0].1))
        };
        add_resource_providers(next, resources.drop_first())
    }
}

/// The domain and https setting of each resource.
pub open spec fn resource_sources(resources: Seq<ResourceGitSource>) -> Seq<(Seq<char>, bool)> {
    resources.map_values(|r: ResourceGitSource| (r.git_provider@, r.git_https))
}

/// Appends a provider for each resource whose domain no provider has yet.
pub fn add_resource_git_providers(
    providers: &mut Vec<GitProvider>,
    resources: Vec<ResourceGitSource>,
)
    ensures
        final(providers).deep_view() == add_resource_providers(
            old(providers).deep_view(),
            resource_sources(resources@),
        ),
{
    let ghost start = providers.deep_view();
    let ghost srcs = resource_sources(resources@);
    let n = resources.len();
    let mut i: usize = 0;
    assert(srcs.skip(0) =~= srcs);
    while i < n
        invariant
            n == resources.len(),
            i <= n,
            srcs == resource_sources(resources@),
            add_resource_providers(start, srcs) == add_resource_providers(
                providers.deep_view(),
                srcs.skip(i as int),
            ),
        decreases n - i,
    {
        let ghost before = providers.deep_view();
        let r = &resources[i];
        assert(srcs.skip(i as int)[0] == (r.git_provider@, r.git_https));
        assert(srcs.skip(i as int).drop_first() =~= srcs.skip(i + 1));
        let found = crate::merge::find_git_domain(providers, &r.git_provider);
        if found.is_none() {
            let provider = GitProvider {
                domain: r.git_provider.clone(),
                https: r.git_https,
                accounts: Vec::new(),
            };
            assert(provider.accounts.deep_view() =~= Seq::<crate::providers::AccountView>::empty());
            assert(provider.deep_view() == resource_provider_view(r.git_provider@, r.git_https));
            providers.push(provider);
            assert(providers.deep_view() =~= before.push(
                resource_provider_view(r.git_provider@, r.git_https),
            ));
        }
        i = i + 1;
    }
}

/// The git providers the read API lists: those of the core configuration,
/// merged with those of the target, then one for each domain used by a
/// resource, in sorted order.
pub open spec fn git_providers_listing(
    config_providers: Seq<GitProviderView>,
    target_providers: Seq<GitProviderView>,
    resources: Seq<(Seq<char>, bool)>,
) -> Seq<GitProviderView> {
    add_resource_providers(
        merge_git_provider_list(config_providers, target_providers),
        resources,
    )
}

/// Lists git providers: the configured ones, merged with the providers of
/// the target (none when there is no target), completed with one provider
/// for each domain a build, repo or sync uses, sorted.
pub fn list_git_providers(
    config_providers: Vec<GitProvider>,
    target_providers: Vec<GitProvider>,
    resources: Vec<ResourceGitSource>,
) -> (res: Vec<GitProvider>)
    ensures
        sorted_by(res.deep_view(), git_provider_order()),
        res.deep_view().to_multiset() == git_providers_listing(
            config_providers.deep_view(),
            target_providers.deep_view(),
            resource_sources(resources@),
        ).to_multiset(),
        distinct_git_domains(config_providers.deep_view()) ==> distinct_git_domains(
            res.deep_view(),
        ),
        forall|i: int, j: int|
            0 <= i < j < res.deep_view().len() ==> !text_lt(
                #[trigger] res.deep_view()[j].domain,
                #[trigger] res.deep_view()[i].domain,
            ),
{
    let ghost cv = config_providers.deep_view();
    let ghost tv = target_providers.deep_view();
    let ghost rv = resource_sources(resources@);
    let mut providers = config_providers;
    merge_git_providers(&mut providers, target_providers);
    add_resource_git_providers(&mut providers, resources);
    let res = sort_by_view(providers);
    proof {
        if distinct_git_domains(cv) {
            law_git_listing_distinct_domains(cv, tv, rv);
            lemma_permutation_keeps_distinct_git(git_providers_listing(cv, tv, rv), res.deep_view());
        }
        assert forall|i: int, j: int| 0 <= i < j < res.deep_view().len() implies !text_lt(
            #[trigger] res.deep_view()[j].domain,
            #[trigger] res.deep_view()[i].domain,
        ) by {
            law_git_provider_order_by_domain(res.deep_view()[j], res.deep_view()[i]);
        }
    }
    res
}

/// The docker registry a build or deployment uses, with no accounts and no
/// organizations.
pub open spec fn resource_registry_view(domain: Seq<char>) -> DockerRegistryView {
    DockerRegistryView { domain, accounts: Seq::empty(), organizations: Seq::empty() }
}

/// Appends a registry, without accounts, for each domain used by a resource
/// that no registry has yet, in the order the domains come.
pub open spec fn add_resource_registries(
    rs: Seq<DockerRegistryView>,
    domains: Seq<Seq<char>>,
) -> Seq<DockerRegistryView>
    decreases domains.len(),
{
    if domains.len() == 0 {
        rs
    } else {
        let next = if has_registry_domain(rs, domains[0]) {
            rs
        } else {
            rs.push(resource_registry_view(domains[0]))
        };
        add_resource_registries(next, domains.drop_first())
    }
}

/// Appends a registry for each domain used by a build or deployment that no
/// registry has yet.
pub fn add_resource_docker_registries(registries: &mut Vec<DockerRegistry>, domains: Vec<String>)
    ensures
        final(registries).deep_view() == add_resource_registries(
            old(registries).deep_view(),
            domains.deep_view(),
        ),
{
    let ghost start = registries.deep_view();
    let ghost ds = domains.deep_view();
    let n = domains.len();
    let mut i: usize = 0;
    assert(ds.skip(0) =~= ds);
    while i < n
        invariant
            n == domains.len(),
            i <= n,
            ds == domains.deep_view(),
            add_resource_registries(start, ds) == add_resource_registries(
                registries.deep_view(),
                ds.skip(i as int),
            ),
        decreases n - i,
    {
        let ghost before = registries.deep_view();
        let d = &domains[i];
        assert(ds.skip(i as int)[0] == d@);
        assert(ds.skip(i as int).drop_first() =~= ds.skip(i + 1));
        let found = crate::merge::find_registry_domain(registries, d);
        if found.is_none() {
            let registry = DockerRegistry {
                domain: d.clone(),
                accounts: Vec::new(),
                organizations: Vec::new(),
            };
            assert(registry.accounts.deep_view() =~= Seq::<crate::providers::AccountView>::empty());
            assert(registry.organizations.deep_view() =~= Seq::<Seq<char>>::empty());
            assert(registry.deep_view() == resource_registry_view(d@));
            registries.push(registry);
            assert(registries.deep_view() =~= before.push(resource_registry_view(d@)));
        }
        i = i + 1;
    }
}

/// The docker registries the read API lists: those of the core
/// configuration, merged with those of the target, then one for each domain
/// used by a build or deployment, in sorted order.
pub open spec fn docker_registries_listing(
    config_registries: Seq<DockerRegistryView>,
    target_registries: Seq<DockerRegistryView>,
    domains: Seq<Seq<char>>,
) -> Seq<DockerRegistryView> {
    add_resource_registries(
        merge_docker_registry_list(config_registries, target_registries),
        domains,
    )
}

/// Lists docker registries: the configured ones, merged with the registries
/// of the target (none when there is no target), completed with one registry
/// for each domain a build or deployment uses, sorted.
pub fn list_docker_registries(
    config_registries: Vec<DockerRegistry>,
    target_registries: Vec<DockerRegistry>,
    resource_domains: Vec<String>,
) -> (res: Vec<DockerRegistry>)
    ensures
        sorted_by(res.deep_view(), docker_registry_order()),
        res.deep_view().to_multiset() == docker_registries_listing(
            config_registries.deep_view(),
            target_registries.deep_view(),
            resource_domains.deep_view(),
        ).to_multiset(),
        distinct_registry_domains(config_registries.deep_view()) ==> distinct_registry_domains(
            res.deep_view(),
        ),
        forall|i: int, j: int|
            0 <= i < j < res.deep_view().len() ==> !text_lt(
                #[trigger] res.deep_view()[j].domain,
                #[trigger] res.deep_view()[i].domain,
            ),
{
    let ghost cv = config_registries.deep_view();
    let ghost tv = target_registries.deep_view();
    let ghost dv = resource_domains.deep_view();
    let mut registries = config_registries;
    merge_docker_registries(&mut registries, target_registries);
    add_resource_docker_registries(&mut registries, resource_domains);
    let res = sort_by_view(registries);
    proof {
        if distinct_registry_domains(cv) {
            law_docker_listing_distinct_domains(cv, tv, dv);
            lemma_permutation_keeps_distinct_registries(
                docker_registries_listing(cv, tv, dv),
                res.deep_view(),
            );
        }
        assert forall|i: int, j: int| 0 <= i < j < res.deep_view().len() implies !text_lt(
            #[trigger] res.deep_view()[j].domain,
            #[trigger] res.deep_view()[i].domain,
        ) by {
            law_docker_registry_order_by_domain(res.deep_view()[j], res.deep_view()[i]);
        }
    }
    res
}

/// `s` is in strictly increasing text order: sorted, with no value twice.
pub open spec fn strictly_sorted_texts(s: Seq<Seq<char>>) -> bool {
    forall|i: int, j: int| 0 <= i < j < s.len() ==> text_order()(#[trigger] s[i], #[trigger] s[j])
}

/// Texts strictly sorted come in increasing order of code points, each
/// before every later one.
pub proof fn law_strictly_sorted_texts(s: Seq<Seq<char>>)
    requires
        strictly_sorted_texts(s),
    ensures
        forall|i: int, j: int| 0 <= i < j < s.len() ==> text_lt(#[trigger] s[i], #[trigger] s[j]),
        s.no_duplicates(),
{
    lemma_text_strict_total();
    assert forall|i: int, j: int| 0 <= i < s.len() && 0 <= j < s.len() && i != j implies s[i]
        != s[j] by {
        if i < j {
            assert(text_order()(s[i], s[j]));
        } else {
            assert(text_order()(s[j], s[i]));
        }
    }
}

/// The secret names the read API lists: every name of the core
/// configuration and of the target, each once, in sorted order.
pub fn list_secret_names(config_keys: Vec<String>, target_keys: Vec<String>) -> (res: Vec<String>)
    ensures
        strictly_sorted_texts(res.deep_view()),
        res.deep_view().to_set() == config_keys.deep_view().to_set() + target_keys.deep_view().to_set(),
{
    broadcast use vstd::seq_lib::group_to_multiset_ensures;

    proof {
        lemma_text_strict_total();
    }
    let ghost cv = config_keys.deep_view();
    let ghost tv = target_keys.deep_view();
    let mut all = config_keys;
    let mut rest = target_keys;
    let ghost all0 = all.deep_view();
    let mut more = crate::merge::reversed(rest);
    while more.len() > 0
        invariant
            all.deep_view() + more.deep_view().reverse() =~= cv + tv,
        decreases more.len(),
    {
        let ghost a0 = all.deep_view();
        let ghost m0 = more.deep_view();
        let x = more.pop().unwrap();
        all.push(x);
        assert(all.deep_view() =~= a0.push(x.deep_view()));
        assert(m0 =~= more.deep_view().push(x.deep_view()));
        assert(m0.reverse() =~= seq![x.deep_view()] + more.deep_view().reverse());
    }
    assert(more.deep_view().reverse() =~= Seq::<Seq<char>>::empty());
    let sorted = sort_by_view(all);
    let ghost sv = sorted.deep_view();
    let ghost union = cv + tv;
    proof {
        assert(sv.to_multiset() == union.to_multiset());
        assert forall|x: Seq<char>| sv.contains(x) <==> union.contains(x) by {
            vstd::seq_lib::to_multiset_contains(sv, x);
            vstd::seq_lib::to_multiset_contains(union, x);
        }
    }
    let mut res: Vec<String> = Vec::new();
    let n = sorted.len();
    let mut i: usize = 0;
    while i < n
        invariant
            n == sorted.len(),
            i <= n,
            sv == sorted.deep_view(),
            sorted_by(sv, text_order()),
            strict_total(text_order()),
            strictly_sorted_texts(res.deep_view()),
            forall|x: Seq<char>| res.deep_view().contains(x) <==> sv.take(i as int).contains(x),
            res.len() > 0 ==> res.deep_view().last() == sv[i - 1],
            i == 0 <==> res.len() == 0,
        decreases n - i,
    {
        let ghost r0 = res.deep_view();
        let ghost x = sv[i as int];
        let keep = if res.len() == 0 {
            true
        } else {
            let last = res.len() - 1;
            match res[last].compare(&sorted[i]) {
                Comparison::Equal => false,
                _ => true,
            }
        };
        let ghost t0 = sv.take(i as int);
        let ghost t1 = sv.take(i + 1);
        assert(t1 =~= t0.push(x));
        if !keep {
            assert(r0[r0.len() - 1] == x);
            assert forall|y: Seq<char>| res.deep_view().contains(y) <==> t1.contains(y) by {
                if t1.contains(y) && !t0.contains(y) {
                    let k = choose|k: int| 0 <= k < i + 1 && t1[k] == y;
                    if k < i {
                        assert(t0[k] == y);
                    }
                    assert(r0.contains(y));
                }
                if t0.contains(y) {
                    let k = choose|k: int| 0 <= k < i && t0[k] == y;
                    assert(t1[k] == y);
                }
            }
        }
        if keep {
            let s = sorted[i].clone();
            res.push(s);
            assert(res.deep_view() =~= r0.push(x));
            assert forall|y: Seq<char>| res.deep_view().contains(y) <==> t1.contains(y) by {
                if res.deep_view().contains(y) && y != x {
                    let k = choose|k: int| 0 <= k < res.deep_view().len() && res.deep_view()[k] == y;
                    assert(r0[k] == y);
                }
                if t1.contains(y) && y != x {
                    let k = choose|k: int| 0 <= k < i + 1 && t1[k] == y;
                    assert(t0[k] == y);
                }
                if t0.contains(y) {
                    let k = choose|k: int| 0 <= k < i && t0[k] == y;
                    assert(t1[k] == y);
                }
                if r0.contains(y) {
                    let k = choose|k: int| 0 <= k < r0.len() && r0[k] == y;
                    assert(res.deep_view()[k] == y);
                }
                if y == x {
                    assert(res.deep_view()[r0.len() as int] == y);
                    assert(t1[i as int] == y);
                }
            }
            assert forall|a: int, b: int| 0 <= a < b < res.deep_view().len() implies text_order()(
                #[trigger] res.deep_view()[a],
                #[trigger] res.deep_view()[b],
            ) by {
                if b == r0.len() && a < b - 1 {
                    assert(text_order()(r0[a], r0.last()));
                }
                if b == r0.len() {
                    assert(r0.last() == sv[i - 1]);
                    assert(!text_order()(x, sv[i - 1]));
                }
            }
        }
        i = i + 1;
    }
    assert(sv.take(n as int) =~= sv);
    assert(res.deep_view().to_set() =~= cv.to_set() + tv.to_set()) by {
        assert forall|x: Seq<char>| res.deep_view().to_set().contains(x) <==> (cv.to_set()
            + tv.to_set()).contains(x) by {
            assert(union.contains(x) <==> (cv.contains(x) || tv.contains(x))) by {
                if union.contains(x) {
                    let k = choose|k: int| 0 <= k < union.len() && union[k] == x;
                    if k >= cv.len() {
                        assert(tv[k - cv.len()] == x);
                    }
                }
                if cv.contains(x) {
                    let k = choose|k: int| 0 <= k < cv.len() && cv[k] == x;
                    assert(union[k] == x);
                }
                if tv.contains(x) {
                    let k = choose|k: int| 0 <= k < tv.len() && tv[k] == x;
                    assert(union[cv.len() + k] == x);
                }
            }
        }
    }
    res
}

/// Some resource uses the domain `d`.
pub open spec fn resource_uses_domain(resources: Seq<(Seq<char>, bool)>, d: Seq<char>) -> bool {
    exists|k: int| 0 <= k < resources.len() && #[trigger] resources[k].0 == d
}

/// Adding the providers of resources keeps the existing providers in front,
/// as they were, and has a provider of a domain exactly when one was there or
/// a resource uses it.
pub proof fn law_add_resource_providers(ps: Seq<GitProviderView>, resources: Seq<(Seq<char>, bool)>)
    ensures
        is_prefix_of(ps, add_resource_providers(ps, resources)),
        forall|d: Seq<char>|
            #[trigger] has_git_domain(add_resource_providers(ps, resources), d) <==> has_git_domain(
                ps,
                d,
            ) || resource_uses_domain(resources, d),
    decreases resources.len(),
{
    let r = add_resource_providers(ps, resources);
    if resources.len() == 0 {
        assert(ps.subrange(0, ps.len() as int) =~= ps);
    } else {
        let x = resources[0];
        let next = if has_git_domain(ps, x.0) {
            ps
        } else {
            ps.push(resource_provider_view(x.0, x.1))
        };
        let rest = resources.drop_first();
        law_add_resource_providers(next, rest);
        assert(r == add_resource_providers(next, rest));
        assert(next.subrange(0, ps.len() as int) =~= ps);
        assert(r.subrange(0, ps.len() as int) =~= next.subrange(0, ps.len() as int));
        assert forall|d: Seq<char>| #[trigger] has_git_domain(r, d) <==> has_git_domain(ps, d)
            || resource_uses_domain(resources, d) by {
            if has_git_domain(next, d) {
                let k = choose|k: int| 0 <= k < next.len() && #[trigger] next[k].domain == d;
                if k < ps.len() {
                    assert(ps[k].domain == d);
                } else {
                    assert(resources[0].0 == d);
                }
            }
            if has_git_domain(ps, d) {
                let k = choose|k: int| 0 <= k < ps.len() && #[trigger] ps[k].domain == d;
                assert(next[k].domain == d);
            }
            if resource_uses_domain(resources, d) {
                let k = choose|k: int| 0 <= k < resources.len() && #[trigger] resources[k].0 == d;
                if k == 0 {
                    if !has_git_domain(ps, d) {
                        assert(next[ps.len() as int].domain == d);
                    }
                } else {
                    assert(rest[k - 1].0 == d);
                }
            }
            if resource_uses_domain(rest, d) {
                let k = choose|k: int| 0 <= k < rest.len() && #[trigger] rest[k].0 == d;
                assert(resources[k + 1].0 == d);
            }
        }
    }
}

/// The git provider listing has a provider of a domain exactly when the core
/// configuration or the target has one, or a resource uses it.
pub proof fn law_git_listing_domains(
    config_providers: Seq<GitProviderView>,
    target_providers: Seq<GitProviderView>,
    resources: Seq<(Seq<char>, bool)>,
)
    ensures
        forall|d: Seq<char>|
            #[trigger] has_git_domain(
                git_providers_listing(config_providers, target_providers, resources),
                d,
            ) <==> has_git_domain(config_providers, d) || names_domain(target_providers, d)
                || resource_uses_domain(resources, d),
{
    law_merge_git_providers(config_providers, target_providers);
    law_add_resource_providers(
        merge_git_provider_list(config_providers, target_providers),
        resources,
    );
}

/// Two lists with the same providers, in any order, have the same domains.
pub proof fn law_same_providers_same_domains(a: Seq<GitProviderView>, b: Seq<GitProviderView>)
    requires
        a.to_multiset() == b.to_multiset(),
    ensures
        forall|d: Seq<char>| #[trigger] has_git_domain(a, d) <==> has_git_domain(b, d),
{
    assert forall|d: Seq<char>| #[trigger] has_git_domain(a, d) implies has_git_domain(b, d) by {
        let k = choose|k: int| 0 <= k < a.len() && #[trigger] a[k].domain == d;
        vstd::seq_lib::to_multiset_contains(a, a[k]);
        vstd::seq_lib::to_multiset_contains(b, a[k]);
        assert(a.contains(a[k]));
        let j = choose|j: int| 0 <= j < b.len() && b[j] == a[k];
        assert(b[j].domain == d);
    }
    assert forall|d: Seq<char>| #[trigger] has_git_domain(b, d) implies has_git_domain(a, d) by {
        let k = choose|k: int| 0 <= k < b.len() && #[trigger] b[k].domain == d;
        vstd::seq_lib::to_multiset_contains(a, b[k]);
        vstd::seq_lib::to_multiset_contains(b, b[k]);
        assert(b.contains(b[k]));
        let j = choose|j: int| 0 <= j < a.len() && a[j] == b[k];
        assert(a[j].domain == d);
    }
}

/// Some build or deployment uses the registry domain `d`.
pub open spec fn resource_uses_registry(domains: Seq<Seq<char>>, d: Seq<char>) -> bool {
    exists|k: int| 0 <= k < domains.len() && #[trigger] domains[k] == d
}

/// Adding the registries of builds and deployments keeps the existing
/// registries in front, as they were, and has a registry of a domain exactly
/// when one was there or a resource uses it.
pub proof fn law_add_resource_registries(rs: Seq<DockerRegistryView>, domains: Seq<Seq<char>>)
    ensures
        is_prefix_of(rs, add_resource_registries(rs, domains)),
        forall|d: Seq<char>|
            #[trigger] has_registry_domain(add_resource_registries(rs, domains), d)
                <==> has_registry_domain(rs, d) || resource_uses_registry(domains, d),
    decreases domains.len(),
{
    let r = add_resource_registries(rs, domains);
    if domains.len() == 0 {
        assert(rs.subrange(0, rs.len() as int) =~= rs);
    } else {
        let x = domains[0];
        let next = if has_registry_domain(rs, x) {
            rs
        } else {
            rs.push(resource_registry_view(x))
        };
        let rest = domains.drop_first();
        law_add_resource_registries(next, rest);
        assert(r == add_resource_registries(next, rest));
        assert(next.subrange(0, rs.len() as int) =~= rs);
        assert(r.subrange(0, rs.len() as int) =~= next.subrange(0, rs.len() as int));
        assert forall|d: Seq<char>| #[trigger] has_registry_domain(r, d) <==> has_registry_domain(
            rs,
            d,
        ) || resource_uses_registry(domains, d) by {
            if has_registry_domain(next, d) {
                let k = choose|k: int| 0 <= k < next.len() && #[trigger] next[k].domain == d;
                if k < rs.len() {
                    assert(rs[k].domain == d);
                } else {
                    assert(domains[0] == d);
                }
            }
            if has_registry_domain(rs, d) {
                let k = choose|k: int| 0 <= k < rs.len() && #[trigger] rs[k].domain == d;
                assert(next[k].domain == d);
            }
            if resource_uses_registry(domains, d) {
                let k = choose|k: int| 0 <= k < domains.len() && #[trigger] domains[k] == d;
                if k == 0 {
                    if !has_registry_domain(rs, d) {
                        assert(next[rs.len() as int].domain == d);
                    }
                } else {
                    assert(rest[k - 1] == d);
                }
            }
            if resource_uses_registry(rest, d) {
                let k = choose|k: int| 0 <= k < rest.len() && #[trigger] rest[k] == d;
                assert(domains[k + 1] == d);
            }
        }
    }
}

/// The docker registry listing has a registry of a domain exactly when the
/// core configuration or the target has one, or a build or deployment uses
/// it.
pub proof fn law_docker_listing_domains(
    config_registries: Seq<DockerRegistryView>,
    target_registries: Seq<DockerRegistryView>,
    domains: Seq<Seq<char>>,
)
    ensures
        forall|d: Seq<char>|
            #[trigger] has_registry_domain(
                docker_registries_listing(config_registries, target_registries, domains),
                d,
            ) <==> has_registry_domain(config_registries, d) || names_registry_domain(
                target_registries,
                d,
            ) || resource_uses_registry(domains, d),
{
    law_merge_docker_registries(config_registries, target_registries);
    law_add_resource_registries(
        merge_docker_registry_list(config_registries, target_registries),
        domains,
    );
}

/// No two providers of `ps` have the same domain.
pub open spec fn distinct_git_domains(ps: Seq<GitProviderView>) -> bool {
    forall|i: int, j: int|
        0 <= i < ps.len() && 0 <= j < ps.len() && i != j ==> #[trigger] ps[i].domain
            != #[trigger] ps[j].domain
}

proof fn lemma_merge_git_keeps_distinct(ps: Seq<GitProviderView>, more: Seq<GitProviderView>)
    requires
        distinct_git_domains(ps),
    ensures
        distinct_git_domains(merge_git_provider_list(ps, more)),
    decreases more.len(),
{
    if more.len() > 0 {
        let x = more[0];
        let step = merge_git_provider(ps, x);
        if has_git_domain(ps, x.domain) {
            lemma_first_git_domain(ps, x.domain);
            assert forall|k: int| 0 <= k < ps.len() implies #[trigger] step[k].domain
                == ps[k].domain by {}
        } else {
            assert forall|i: int, j: int|
                0 <= i < step.len() && 0 <= j < step.len() && i != j implies #[trigger] step[i].domain
                != #[trigger] step[j].domain by {
                if i == ps.len() {
                    assert(ps[j].domain != x.domain);
                } else if j == ps.len() {
                    assert(ps[i].domain != x.domain);
                }
            }
        }
        lemma_merge_git_keeps_distinct(step, more.drop_first());
    }
}

proof fn lemma_add_resources_keeps_distinct(ps: Seq<GitProviderView>, resources: Seq<(Seq<char>, bool)>)
    requires
        distinct_git_domains(ps),
    ensures
        distinct_git_domains(add_resource_providers(ps, resources)),
    decreases resources.len(),
{
    if resources.len() > 0 {
        let x = resources[0];
        let next = if has_git_domain(ps, x.0) {
            ps
        } else {
            ps.push(resource_provider_view(x.0, x.1))
        };
        if !has_git_domain(ps, x.0) {
            assert forall|i: int, j: int|
                0 <= i < next.len() && 0 <= j < next.len() && i != j implies #[trigger] next[i].domain
                != #[trigger] next[j].domain by {
                if i == ps.len() {
                    assert(ps[j].domain != x.0);
                } else if j == ps.len() {
                    assert(ps[i].domain != x.0);
                }
            }
        }
        lemma_add_resources_keeps_distinct(next, resources.drop_first());
    }
}

proof fn lemma_permutation_keeps_distinct_git(a: Seq<GitProviderView>, b: Seq<GitProviderView>)
    requires
        distinct_git_domains(a),
        a.to_multiset() == b.to_multiset(),
    ensures
        distinct_git_domains(b),
{
    assert forall|i: int, j: int| 0 <= i < a.len() && 0 <= j < a.len() && i != j implies a[i]
        != a[j] by {
        assert(a[i].domain != a[j].domain);
    }
    assert(a.no_duplicates());
    a.lemma_multiset_has_no_duplicates();
    b.lemma_multiset_has_no_duplicates_conv();
    assert forall|i: int, j: int|
        0 <= i < b.len() && 0 <= j < b.len() && i != j implies #[trigger] b[i].domain
        != #[trigger] b[j].domain by {
        vstd::seq_lib::to_multiset_contains(b, b[i]);
        vstd::seq_lib::to_multiset_contains(b, b[j]);
        vstd::seq_lib::to_multiset_contains(a, b[i]);
        vstd::seq_lib::to_multiset_contains(a, b[j]);
        assert(b.contains(b[i]));
        assert(b.contains(b[j]));
        let p = choose|p: int| 0 <= p < a.len() && a[p] == b[i];
        let q = choose|q: int| 0 <= q < a.len() && a[q] == b[j];
        assert(a[p].domain != a[q].domain || p == q);
    }
}

/// Where the configured providers have distinct domains, so does the git
/// provider listing: merging and completing it adds no domain twice.
pub proof fn law_git_listing_distinct_domains(
    config_providers: Seq<GitProviderView>,
    target_providers: Seq<GitProviderView>,
    resources: Seq<(Seq<char>, bool)>,
)
    requires
        distinct_git_domains(config_providers),
    ensures
        distinct_git_domains(git_providers_listing(config_providers, target_providers, resources)),
{
    lemma_merge_git_keeps_distinct(config_providers, target_providers);
    lemma_add_resources_keeps_distinct(
        merge_git_provider_list(config_providers, target_providers),
        resources,
    );
}

/// No two registries of `ps` have the same domain.
pub open spec fn distinct_registry_domains(ps: Seq<DockerRegistryView>) -> bool {
    forall|i: int, j: int|
        0 <= i < ps.len() && 0 <= j < ps.len() && i != j ==> #[trigger] ps[i].domain
            != #[trigger] ps[j].domain
}

proof fn lemma_merge_registries_keeps_distinct(ps: Seq<DockerRegistryView>, more: Seq<DockerRegistryView>)
    requires
        distinct_registry_domains(ps),
    ensures
        distinct_registry_domains(merge_docker_registry_list(ps, more)),
    decreases more.len(),
{
    if more.len() > 0 {
        let x = more[0];
        let step = merge_docker_registry(ps, x);
        if has_registry_domain(ps, x.domain) {
            lemma_first_registry_domain(ps, x.domain);
            assert forall|k: int| 0 <= k < ps.len() implies #[trigger] step[k].domain
                == ps[k].domain by {}
        } else {
            assert forall|i: int, j: int|
                0 <= i < step.len() && 0 <= j < step.len() && i != j implies #[trigger] step[i].domain
                != #[trigger] step[j].domain by {
                if i == ps.len() {
                    assert(ps[j].domain != x.domain);
                } else if j == ps.len() {
                    assert(ps[i].domain != x.domain);
                }
            }
        }
        lemma_merge_registries_keeps_distinct(step, more.drop_first());
    }
}

proof fn lemma_add_registries_keeps_distinct(ps: Seq<DockerRegistryView>, domains: Seq<Seq<char>>)
    requires
        distinct_registry_domains(ps),
    ensures
        distinct_registry_domains(add_resource_registries(ps, domains)),
    decreases domains.len(),
{
    if domains.len() > 0 {
        let x = domains[0];
        let next = if has_registry_domain(ps, x) {
            ps
        } else {
            ps.push(resource_registry_view(x))
        };
        if !has_registry_domain(ps, x) {
            assert forall|i: int, j: int|
                0 <= i < next.len() && 0 <= j < next.len() && i != j implies #[trigger] next[i].domain
                != #[trigger] next[j].domain by {
                if i == ps.len() {
                    assert(ps[j].domain != x);
                } else if j == ps.len() {
                    assert(ps[i].domain != x);
                }
            }
        }
        lemma_add_registries_keeps_distinct(next, domains.drop_first());
    }
}

proof fn lemma_permutation_keeps_distinct_registries(a: Seq<DockerRegistryView>, b: Seq<DockerRegistryView>)
    requires
        distinct_registry_domains(a),
        a.to_multiset() == b.to_multiset(),
    ensures
        distinct_registry_domains(b),
{
    assert forall|i: int, j: int| 0 <= i < a.len() && 0 <= j < a.len() && i != j implies a[i]
        != a[j] by {
        assert(a[i].domain != a[j].domain);
    }
    assert(a.no_duplicates());
    a.lemma_multiset_has_no_duplicates();
    b.lemma_multiset_has_no_duplicates_conv();
    assert forall|i: int, j: int|
        0 <= i < b.len() && 0 <= j < b.len() && i != j implies #[trigger] b[i].domain
        != #[trigger] b[j].domain by {
        vstd::seq_lib::to_multiset_contains(b, b[i]);
        vstd::seq_lib::to_multiset_contains(b, b[j]);
        vstd::seq_lib::to_multiset_contains(a, b[i]);
        vstd::seq_lib::to_multiset_contains(a, b[j]);
        assert(b.contains(b[i]));
        assert(b.contains(b[j]));
        let p = choose|p: int| 0 <= p < a.len() && a[p] == b[i];
        let q = choose|q: int| 0 <= q < a.len() && a[q] == b[j];
        assert(a[p].domain != a[q].domain || p == q);
    }
}

/// Where the configured registries have distinct domains, so does the
/// docker registry listing: merging and completing it adds no domain twice.
pub proof fn law_docker_listing_distinct_domains(
    config_registries: Seq<DockerRegistryView>,
    target_registries: Seq<DockerRegistryView>,
    domains: Seq<Seq<char>>,
)
    requires
        distinct_registry_domains(config_registries),
    ensures
        distinct_registry_domains(
            docker_registries_listing(config_registries, target_registries, domains),
        ),
{
    lemma_merge_registries_keeps_distinct(config_registries, target_registries);
    lemma_add_registries_keeps_distinct(
        merge_docker_registry_list(config_registries, target_registries),
        domains,
    );
}

/// `j` is the first resource that uses the domain `d`.
pub open spec fn first_resource_of(resources: Seq<(Seq<char>, bool)>, d: Seq<char>, j: int) -> bool {
    &&& 0 <= j < resources.len()
    &&& resources[j].0 == d
    &&& forall|i: int| 0 <= i < j ==> #[trigger] resources[i].0 != d
}

/// A domain no provider had, which a resource uses, gets a provider without
/// accounts, cloning over https as the first resource that uses it does.
pub proof fn law_added_provider_of_resource(
    ps: Seq<GitProviderView>,
    resources: Seq<(Seq<char>, bool)>,
    d: Seq<char>,
)
    requires
        !has_git_domain(ps, d),
        resource_uses_domain(resources, d),
    ensures
        exists|k: int, j: int|
            0 <= k < add_resource_providers(ps, resources).len() && first_resource_of(resources, d, j)
                && #[trigger] add_resource_providers(ps, resources)[k] == resource_provider_view(
                d,
                #[trigger] resources[j].1,
            ),
    decreases resources.len(),
{
    let r = add_resource_providers(ps, resources);
    let x = resources[0];
    let rest = resources.drop_first();
    if x.0 == d {
        let next = ps.push(resource_provider_view(d, x.1));
        law_add_resource_providers(next, rest);
        assert(r == add_resource_providers(next, rest));
        assert(r.subrange(0, next.len() as int)[ps.len() as int] == next[ps.len() as int]);
        assert(first_resource_of(resources, d, 0));
        assert(r[ps.len() as int] == resource_provider_view(d, resources[0].1));
    } else {
        let next = if has_git_domain(ps, x.0) {
            ps
        } else {
            ps.push(resource_provider_view(x.0, x.1))
        };
        assert(r == add_resource_providers(next, rest));
        assert(!has_git_domain(next, d)) by {
            if has_git_domain(next, d) {
                let k = choose|k: int| 0 <= k < next.len() && #[trigger] next[k].domain == d;
                if k < ps.len() {
                    assert(ps[k].domain == d);
                }
            }
        }
        let k0 = choose|k: int| 0 <= k < resources.len() && #[trigger] resources[k].0 == d;
        assert(rest[k0 - 1].0 == d);
        law_added_provider_of_resource(next, rest, d);
        let (k, j) = choose|k: int, j: int|
            0 <= k < r.len() && first_resource_of(rest, d, j) && #[trigger] r[k]
                == resource_provider_view(d, #[trigger] rest[j].1);
        assert(resources[j + 1] == rest[j]);
        assert forall|i: int| 0 <= i < j + 1 implies #[trigger] resources[i].0 != d by {
            if i > 0 {
                assert(resources[i] == rest[i - 1]);
            }
        }
        assert(first_resource_of(resources, d, j + 1));
        assert(r[k] == resource_provider_view(d, resources[j + 1].1));
    }
}

/// In the git provider listing, a domain that neither the core configuration
/// nor the target has a provider of, which a resource uses, has a provider
/// without accounts, cloning over https as the first resource that uses it
/// does.
pub proof fn law_git_listing_resource_provider(
    config_providers: Seq<GitProviderView>,
    target_providers: Seq<GitProviderView>,
    resources: Seq<(Seq<char>, bool)>,
    d: Seq<char>,
)
    requires
        !has_git_domain(config_providers, d),
        !names_domain(target_providers, d),
        resource_uses_domain(resources, d),
    ensures
        exists|k: int, j: int|
            0 <= k < git_providers_listing(config_providers, target_providers, resources).len()
                && first_resource_of(resources, d, j) && #[trigger] git_providers_listing(
                config_providers,
                target_providers,
                resources,
            )[k] == resource_provider_view(d, #[trigger] resources[j].1) && git_providers_listing(
                config_providers,
                target_providers,
                resources,
            )[k].domain == d && git_providers_listing(config_providers, target_providers, resources)[k].https
                == resources[j].1 && git_providers_listing(
                config_providers,
                target_providers,
                resources,
            )[k].accounts.len() == 0,
{
    let merged = merge_git_provider_list(config_providers, target_providers);
    law_merge_git_providers(config_providers, target_providers);
    assert(!has_git_domain(merged, d));
    law_added_provider_of_resource(merged, resources, d);
    let r = add_resource_providers(merged, resources);
    let (k, j) = choose|k: int, j: int|
        0 <= k < r.len() && first_resource_of(resources, d, j) && #[trigger] r[k]
            == resource_provider_view(d, #[trigger] resources[j].1);
    assert(git_providers_listing(config_providers, target_providers, resources)[k]
        == resource_provider_view(d, resources[j].1));
}

/// A registry domain no registry had, which a build or deployment uses, gets
/// a registry without accounts or organizations.
pub proof fn law_added_registry_of_resource(
    rs: Seq<DockerRegistryView>,
    domains: Seq<Seq<char>>,
    d: Seq<char>,
)
    requires
        !has_registry_domain(rs, d),
        resource_uses_registry(domains, d),
    ensures
        exists|k: int|
            0 <= k < add_resource_registries(rs, domains).len() && #[trigger] add_resource_registries(
                rs,
                domains,
            )[k] == resource_registry_view(d),
    decreases domains.len(),
{
    let r = add_resource_registries(rs, domains);
    let x = domains[0];
    let rest = domains.drop_first();
    if x == d {
        let next = rs.push(resource_registry_view(d));
        law_add_resource_registries(next, rest);
        assert(r == add_resource_registries(next, rest));
        assert(r.subrange(0, next.len() as int)[rs.len() as int] == next[rs.len() as int]);
        assert(r[rs.len() as int] == resource_registry_view(d));
    } else {
        let next = if has_registry_domain(rs, x) {
            rs
        } else {
            rs.push(resource_registry_view(x))
        };
        assert(r == add_resource_registries(next, rest));
        assert(!has_registry_domain(next, d)) by {
            if has_registry_domain(next, d) {
                let k = choose|k: int| 0 <= k < next.len() && #[trigger] next[k].domain == d;
                if k < rs.len() {
                    assert(rs[k].domain == d);
                }
            }
        }
        let k0 = choose|k: int| 0 <= k < domains.len() && #[trigger] domains[k] == d;
        assert(rest[k0 - 1] == d);
        law_added_registry_of_resource(next, rest, d);
    }
}

/// In the docker registry listing, a domain that neither the core
/// configuration nor the target has a registry of, which a build or
/// deployment uses, has a registry without accounts or organizations.
pub proof fn law_docker_listing_resource_registry(
    config_registries: Seq<DockerRegistryView>,
    target_registries: Seq<DockerRegistryView>,
    domains: Seq<Seq<char>>,
    d: Seq<char>,
)
    requires
        !has_registry_domain(config_registries, d),
        !names_registry_domain(target_registries, d),
        resource_uses_registry(domains, d),
    ensures
        exists|k: int|
            0 <= k < docker_registries_listing(config_registries, target_registries, domains).len()
                && #[trigger] docker_registries_listing(
                config_registries,
                target_registries,
                domains,
            )[k] == resource_registry_view(d) && docker_registries_listing(
                config_registries,
                target_registries,
                domains,
            )[k].domain == d && docker_registries_listing(config_registries, target_registries, domains)[k].accounts.len()
                == 0 && docker_registries_listing(
                config_registries,
                target_registries,
                domains,
            )[k].organizations.len() == 0,
{
    let merged = merge_docker_registry_list(config_registries, target_registries);
    law_merge_docker_registries(config_registries, target_registries);
    assert(!has_registry_domain(merged, d));
    law_added_registry_of_resource(merged, domains, d);
    let r = add_resource_registries(merged, domains);
    let k = choose|k: int| 0 <= k < r.len() && #[trigger] r[k] == resource_registry_view(d);
    assert(docker_registries_listing(config_registries, target_registries, domains)[k]
        == resource_registry_view(d));
}

} // verus!
