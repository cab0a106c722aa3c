use vstd::prelude::*;

use crate::merge::{
    first_git_domain, first_registry_domain, has_git_domain, has_registry_domain, merge_accounts,
    merge_docker_registry, merge_docker_registry_list, merge_git_provider, merge_git_provider_list,
};
use crate::providers::{AccountView, DockerRegistryView, GitProviderView};

verus! {

/// `a` begins `b`.
pub open spec fn is_prefix_of<A>(a: Seq<A>, b: Seq<A>) -> bool {
    a.len() <= b.len() && b.subrange(0, a.len() as int) == a
}

/// Every account of `incoming` is in `accounts`.
pub open spec fn holds_accounts(accounts: Seq<AccountView>, incoming: Seq<AccountView>) -> bool {
    forall|a: AccountView| incoming.contains(a) ==> accounts.contains(a)
}

/// `ps` has a provider of the domain of `p` whose accounts hold those of
/// `p`: merging `p` adds nothing.
pub open spec fn covers_git_provider(ps: Seq<GitProviderView>, p: GitProviderView) -> bool {
    has_git_domain(ps, p.domain) && holds_accounts(
        ps[first_git_domain(ps, p.domain)].accounts,
        p.accounts,
    )
}

/// Some provider of `more` has the domain `d`.
pub open spec fn names_domain(more: Seq<GitProviderView>, d: Seq<char>) -> bool {
    exists|j: int| 0 <= j < more.len() && #[trigger] more[j].domain == d
}

proof fn lemma_min_git_index(ps: Seq<GitProviderView>, d: Seq<char>, k: int)
    requires
        0 <= k < ps.len(),
        ps[k].domain == d,
    ensures
        exists|i: int|
            0 <= i < ps.len() && #[trigger] ps[i].domain == d && forall|j: int|
                0 <= j < i ==> #[trigger] ps[j].domain != d,
    decreases k,
{
    if exists|j: int| 0 <= j < k && #[trigger] ps[j].domain == d {
        let j = choose|j: int| 0 <= j < k && #[trigger] ps[j].domain == d;
        lemma_min_git_index(ps, d, j);
    } else {
        assert(forall|j: int| 0 <= j < k ==> #[trigger] ps[j].domain != d);
    }
}

/// The first provider of a domain that `ps` has is where `first_git_domain`
/// says.
pub proof fn lemma_first_git_domain(ps: Seq<GitProviderView>, d: Seq<char>)
    requires
        has_git_domain(ps, d),
    ensures
        0 <= first_git_domain(ps, d) < ps.len(),
        ps[first_git_domain(ps, d)].domain == d,
        forall|j: int| 0 <= j < first_git_domain(ps, d) ==> #[trigger] ps[j].domain != d,
{
    let k = choose|k: int| 0 <= k < ps.len() && #[trigger] ps[k].domain == d;
    lemma_min_git_index(ps, d, k);
}

/// A position holding the domain `d`, with no earlier one, is the first.
proof fn lemma_first_git_domain_at(ps: Seq<GitProviderView>, d: Seq<char>, i: int)
    requires
        0 <= i < ps.len(),
        ps[i].domain == d,
        forall|j: int| 0 <= j < i ==> #[trigger] ps[j].domain != d,
    ensures
        has_git_domain(ps, d),
        first_git_domain(ps, d) == i,
{
    assert(ps[i].domain == d);
    lemma_first_git_domain(ps, d);
    let f = first_git_domain(ps, d);
    if f < i {
        assert(ps[f].domain != d);
    } else if f > i {
        assert(ps[i].domain != d);
    }
}

/// Merging accounts keeps the existing ones in front, in order; the result
/// holds exactly the accounts of both; and no account is there twice unless
/// it was twice among the existing ones.
pub proof fn law_merge_accounts(existing: Seq<AccountView>, incoming: Seq<AccountView>)
    ensures
        is_prefix_of(existing, merge_accounts(existing, incoming)),
        forall|a: AccountView|
            #[trigger] merge_accounts(existing, incoming).contains(a) <==> existing.contains(a)
                || incoming.contains(a),
        existing.no_duplicates() ==> merge_accounts(existing, incoming).no_duplicates(),
    decreases incoming.len(),
{
    if incoming.len() > 0 {
        let x = incoming[0];
        let next = if existing.contains(x) {
            existing
        } else {
            existing.push(x)
        };
        law_merge_accounts(next, incoming.drop_first());
        let r = merge_accounts(existing, incoming);
        assert(r == merge_accounts(next, incoming.drop_first()));
        assert(next.subrange(0, existing.len() as int) =~= existing);
        assert(r.subrange(0, existing.len() as int) =~= next.subrange(0, existing.len() as int));
        assert forall|a: AccountView| r.contains(a) <==> existing.contains(a) || incoming.contains(
            a,
        ) by {
            if incoming.contains(a) && !incoming.drop_first().contains(a) {
                let k = choose|k: int| 0 <= k < incoming.len() && incoming[k] == a;
                if k > 0 {
                    assert(incoming.drop_first()[k - 1] == a);
                }
                assert(next.contains(a)) by {
                    if !existing.contains(a) {
                        assert(next[existing.len() as int] == a);
                    }
                }
            }
            if incoming.drop_first().contains(a) {
                let k = choose|k: int| 0 <= k < incoming.drop_first().len() && incoming.drop_first()[k] == a;
                assert(incoming[k + 1] == a);
            }
            if next.contains(a) {
                let k = choose|k: int| 0 <= k < next.len() && next[k] == a;
                if k == existing.len() {
                    assert(incoming[0] == a);
                } else {
                    assert(existing[k] == a);
                }
            }
            if existing.contains(a) {
                let k = choose|k: int| 0 <= k < existing.len() && existing[k] == a;
                assert(next[k] == a);
            }
        }
        if existing.no_duplicates() {
            assert(next.no_duplicates());
        }
    } else {
        assert(existing.subrange(0, existing.len() as int) =~= existing);
    }
}

/// Merging accounts that are all there already changes nothing.
pub proof fn lemma_merge_held_accounts(existing: Seq<AccountView>, incoming: Seq<AccountView>)
    requires
        holds_accounts(existing, incoming),
    ensures
        merge_accounts(existing, incoming) == existing,
    decreases incoming.len(),
{
    if incoming.len() > 0 {
        assert(incoming.contains(incoming[0]));
        assert forall|a: AccountView| incoming.drop_first().contains(a) implies existing.contains(
            a,
        ) by {
            let k = choose|k: int| 0 <= k < incoming.drop_first().len() && incoming.drop_first()[k] == a;
            assert(incoming[k + 1] == a);
        }
        lemma_merge_held_accounts(existing, incoming.drop_first());
    }
}

/// One merge step keeps every provider in place: same domain and https,
/// accounts only extended; it adds at most one provider, at the end.
proof fn lemma_merge_git_provider_step(ps: Seq<GitProviderView>, x: GitProviderView)
    ensures
        ps.len() <= merge_git_provider(ps, x).len() <= ps.len() + 1,
        forall|i: int|
            0 <= i < ps.len() ==> {
                &&& (#[trigger] merge_git_provider(ps, x)[i]).domain == ps[i].domain
                &&& merge_git_provider(ps, x)[i].https == ps[i].https
                &&& is_prefix_of(ps[i].accounts, merge_git_provider(ps, x)[i].accounts)
            },
        merge_git_provider(ps, x).len() == ps.len() + 1 ==> merge_git_provider(ps, x)[ps.len() as int]
            == x,
        covers_git_provider(merge_git_provider(ps, x), x),
{
    let r = merge_git_provider(ps, x);
    if has_git_domain(ps, x.domain) {
        lemma_first_git_domain(ps, x.domain);
        let i = first_git_domain(ps, x.domain);
        law_merge_accounts(ps[i].accounts, x.accounts);
        assert forall|k: int| 0 <= k < ps.len() implies is_prefix_of(ps[k].accounts, r[k].accounts) by {
            if k != i {
                assert(r[k] == ps[k]);
                assert(ps[k].accounts.subrange(0, ps[k].accounts.len() as int) =~= ps[k].accounts);
            }
        }
        lemma_first_git_domain_at(r, x.domain, i);
    } else {
        assert forall|k: int| 0 <= k < ps.len() implies is_prefix_of(ps[k].accounts, r[k].accounts) by {
            assert(r[k] == ps[k]);
            assert(ps[k].accounts.subrange(0, ps[k].accounts.len() as int) =~= ps[k].accounts);
        }
        assert forall|j: int| 0 <= j < ps.len() implies #[trigger] r[j].domain != x.domain by {
            assert(r[j] == ps[j]);
        }
        lemma_first_git_domain_at(r, x.domain, ps.len() as int);
        law_merge_accounts(x.accounts, Seq::empty());
        assert(holds_accounts(x.accounts, x.accounts));
    }
}

/// What a later merge step keeps of a provider that is covered.
proof fn lemma_covers_kept_by_step(ps: Seq<GitProviderView>, y: GitProviderView, p: GitProviderView)
    requires
        covers_git_provider(ps, p),
    ensures
        covers_git_provider(merge_git_provider(ps, y), p),
{
    lemma_merge_git_provider_step(ps, y);
    lemma_first_git_domain(ps, p.domain);
    let r = merge_git_provider(ps, y);
    let i = first_git_domain(ps, p.domain);
    assert(r[i].domain == p.domain);
    assert forall|j: int| 0 <= j < i implies #[trigger] r[j].domain != p.domain by {
        assert(ps[j].domain != p.domain);
    }
    lemma_first_git_domain_at(r, p.domain, i);
    assert forall|a: AccountView| p.accounts.contains(a) implies r[i].accounts.contains(a) by {
        assert(ps[i].accounts.contains(a));
        let k = choose|k: int| 0 <= k < ps[i].accounts.len() && ps[i].accounts[k] == a;
        assert(r[i].accounts.subrange(0, ps[i].accounts.len() as int)[k] == a);
        assert(r[i].accounts[k] == a);
    }
}

proof fn lemma_covers_kept_by_list(
    ps: Seq<GitProviderView>,
    more: Seq<GitProviderView>,
    p: GitProviderView,
)
    requires
        covers_git_provider(ps, p),
    ensures
        covers_git_provider(merge_git_provider_list(ps, more), p),
    decreases more.len(),
{
    if more.len() > 0 {
        lemma_covers_kept_by_step(ps, more[0], p);
        lemma_covers_kept_by_list(merge_git_provider(ps, more[0]), more.drop_first(), p);
    }
}

/// Merging git providers keeps each existing provider in place (same domain
/// and https, its accounts first and in order), adds at most one provider per
/// incoming one, has a provider of a domain exactly when one was there or
/// came in, and the provider of each incoming domain holds every incoming
/// account of it.
pub proof fn law_merge_git_providers(ps: Seq<GitProviderView>, more: Seq<GitProviderView>)
    ensures
        ps.len() <= merge_git_provider_list(ps, more).len() <= ps.len() + more.len(),
        forall|i: int|
            0 <= i < ps.len() ==> {
                &&& (#[trigger] merge_git_provider_list(ps, more)[i]).domain == ps[i].domain
                &&& merge_git_provider_list(ps, more)[i].https == ps[i].https
                &&& is_prefix_of(ps[i].accounts, merge_git_provider_list(ps, more)[i].accounts)
            },
        forall|d: Seq<char>|
            #[trigger] has_git_domain(merge_git_provider_list(ps, more), d) <==> has_git_domain(ps, d)
                || names_domain(more, d),
        forall|j: int|
            0 <= j < more.len() ==> covers_git_provider(
                merge_git_provider_list(ps, more),
                #[trigger] more[j],
            ),
    decreases more.len(),
{
    let r = merge_git_provider_list(ps, more);
    if more.len() == 0 {
        assert forall|i: int| 0 <= i < ps.len() implies is_prefix_of(ps[i].accounts, r[i].accounts) by {
            assert(ps[i].accounts.subrange(0, ps[i].accounts.len() as int) =~= ps[i].accounts);
        }
    } else {
        let x = more[0];
        let step = merge_git_provider(ps, x);
        let rest = more.drop_first();
        lemma_merge_git_provider_step(ps, x);
        law_merge_git_providers(step, rest);
        assert(r == merge_git_provider_list(step, rest));
        assert forall|i: int| 0 <= i < ps.len() implies {
            &&& (#[trigger] r[i]).domain == ps[i].domain
            &&& r[i].https == ps[i].https
            &&& is_prefix_of(ps[i].accounts, r[i].accounts)
        } by {
            let a = ps[i].accounts;
            let b = step[i].accounts;
            let c = r[i].accounts;
            assert(c.subrange(0, a.len() as int) =~= b.subrange(0, a.len() as int));
        }
        assert forall|d: Seq<char>| #[trigger] has_git_domain(r, d) <==> has_git_domain(ps, d)
            || names_domain(more, d) by {
            if has_git_domain(step, d) {
                let k = choose|k: int| 0 <= k < step.len() && #[trigger] step[k].domain == d;
                if k < ps.len() {
                    assert(ps[k].domain == d);
                } else {
                    assert(more[0].domain == d);
                }
            }
            if has_git_domain(ps, d) {
                let k = choose|k: int| 0 <= k < ps.len() && #[trigger] ps[k].domain == d;
                assert(step[k].domain == d);
            }
            if names_domain(more, d) {
                let k = choose|k: int| 0 <= k < more.len() && #[trigger] more[k].domain == d;
                if k == 0 {
                    assert(has_git_domain(step, d));
                } else {
                    assert(rest[k - 1].domain == d);
                }
            }
            if names_domain(rest, d) {
                let k = choose|k: int| 0 <= k < rest.len() && #[trigger] rest[k].domain == d;
                assert(more[k + 1].domain == d);
            }
        }
        assert forall|j: int| 0 <= j < more.len() implies covers_git_provider(r, #[trigger] more[j]) by {
            if j == 0 {
                lemma_covers_kept_by_list(step, rest, x);
            } else {
                assert(more[j] == rest[j - 1]);
            }
        }
    }
}

proof fn lemma_merge_covered(ps: Seq<GitProviderView>, more: Seq<GitProviderView>)
    requires
        forall|j: int| 0 <= j < more.len() ==> covers_git_provider(ps, #[trigger] more[j]),
    ensures
        merge_git_provider_list(ps, more) == ps,
    decreases more.len(),
{
    if more.len() > 0 {
        let x = more[0];
        assert(covers_git_provider(ps, x));
        lemma_first_git_domain(ps, x.domain);
        let i = first_git_domain(ps, x.domain);
        lemma_merge_held_accounts(ps[i].accounts, x.accounts);
        assert(merge_git_provider(ps, x) =~= ps);
        assert forall|j: int| 0 <= j < more.drop_first().len() implies covers_git_provider(
            ps,
            #[trigger] more.drop_first()[j],
        ) by {
            assert(more.drop_first()[j] == more[j + 1]);
        }
        lemma_merge_covered(ps, more.drop_first());
    }
}

/// Merging the same git providers a second time changes nothing.
pub proof fn law_merge_git_providers_idempotent(ps: Seq<GitProviderView>, more: Seq<GitProviderView>)
    ensures
        merge_git_provider_list(merge_git_provider_list(ps, more), more) == merge_git_provider_list(
            ps,
            more,
        ),
{
    law_merge_git_providers(ps, more);
    lemma_merge_covered(merge_git_provider_list(ps, more), more);
}

/// `ps` has a registry of the domain of `p` whose accounts hold those of
/// `p`: merging `p` adds nothing.
pub open spec fn covers_docker_registry(ps: Seq<DockerRegistryView>, p: DockerRegistryView) -> bool {
    has_registry_domain(ps, p.domain) && holds_accounts(
        ps[first_registry_domain(ps, p.domain)].accounts,
        p.accounts,
    )
}

/// Some registry of `more` has the domain `d`.
pub open spec fn names_registry_domain(more: Seq<DockerRegistryView>, d: Seq<char>) -> bool {
    exists|j: int| 0 <= j < more.len() && #[trigger] more[j].domain == d
}

proof fn lemma_min_registry_index(ps: Seq<DockerRegistryView>, d: Seq<char>, k: int)
    requires
        0 <= k < ps.len(),
        ps[k].domain == d,
    ensures
        exists|i: int|
            0 <= i < ps.len() && #[trigger] ps[i].domain == d && forall|j: int|
                0 <= j < i ==> #[trigger] ps[j].domain != d,
    decreases k,
{
    if exists|j: int| 0 <= j < k && #[trigger] ps[j].domain == d {
        let j = choose|j: int| 0 <= j < k && #[trigger] ps[j].domain == d;
        lemma_min_registry_index(ps, d, j);
    } else {
        assert(forall|j: int| 0 <= j < k ==> #[trigger] ps[j].domain != d);
    }
}

/// The first registry of a domain that `ps` has is where `first_registry_domain`
/// says.
pub proof fn lemma_first_registry_domain(ps: Seq<DockerRegistryView>, d: Seq<char>)
    requires
        has_registry_domain(ps, d),
    ensures
        0 <= first_registry_domain(ps, d) < ps.len(),
        ps[first_registry_domain(ps, d)].domain == d,
        forall|j: int| 0 <= j < first_registry_domain(ps, d) ==> #[trigger] ps[j].domain != d,
{
    let k = choose|k: int| 0 <= k < ps.len() && #[trigger] ps[k].domain == d;
    lemma_min_registry_index(ps, d, k);
}

/// A position holding the domain `d`, with no earlier one, is the first.
proof fn lemma_first_registry_domain_at(ps: Seq<DockerRegistryView>, d: Seq<char>, i: int)
    requires
        0 <= i < ps.len(),
        ps[i].domain == d,
        forall|j: int| 0 <= j < i ==> #[trigger] ps[j].domain != d,
    ensures
        has_registry_domain(ps, d),
        first_registry_domain(ps, d) == i,
{
    assert(ps[i].domain == d);
    lemma_first_registry_domain(ps, d);
    let f = first_registry_domain(ps, d);
    if f < i {
        assert(ps[f].domain != d);
    } else if f > i {
        assert(ps[i].domain != d);
    }
}

/// One merge step keeps every registry in place: same domain and organizations,
/// accounts only extended; it adds at most one registry, at the end.
proof fn lemma_merge_docker_registry_step(ps: Seq<DockerRegistryView>, x: DockerRegistryView)
    ensures
        ps.len() <= merge_docker_registry(ps, x).len() <= ps.len() + 1,
        forall|i: int|
            0 <= i < ps.len() ==> {
                &&& (#[trigger] merge_docker_registry(ps, x)[i]).domain == ps[i].domain
                &&& merge_docker_registry(ps, x)[i].organizations == ps[i].organizations
                &&& is_prefix_of(ps[i].accounts, merge_docker_registry(ps, x)[i].accounts)
            },
        merge_docker_registry(ps, x).len() == ps.len() + 1 ==> merge_docker_registry(ps, x)[ps.len() as int]
            == x,
        covers_docker_registry(merge_docker_registry(ps, x), x),
{
    let r = merge_docker_registry(ps, x);
    if has_registry_domain(ps, x.domain) {
        lemma_first_registry_domain(ps, x.domain);
        let i = first_registry_domain(ps, x.domain);
        law_merge_accounts(ps[i].accounts, x.accounts);
        assert forall|k: int| 0 <= k < ps.len() implies is_prefix_of(ps[k].accounts, r[k].accounts) by {
            if k != i {
                assert(r[k] == ps[k]);
                assert(ps[k].accounts.subrange(0, ps[k].accounts.len() as int) =~= ps[k].accounts);
            }
        }
        lemma_first_registry_domain_at(r, x.domain, i);
    } else {
        assert forall|k: int| 0 <= k < ps.len() implies is_prefix_of(ps[k].accounts, r[k].accounts) by {
            assert(r[k] == ps[k]);
            assert(ps[k].accounts.subrange(0, ps[k].accounts.len() as int) =~= ps[k].accounts);
        }
        assert forall|j: int| 0 <= j < ps.len() implies #[trigger] r[j].domain != x.domain by {
            assert(r[j] == ps[j]);
        }
        lemma_first_registry_domain_at(r, x.domain, ps.len() as int);
        law_merge_accounts(x.accounts, Seq::empty());
        assert(holds_accounts(x.accounts, x.accounts));
    }
}

/// What a later merge step keeps of a registry that is covered.
proof fn lemma_registry_covers_kept_by_step(ps: Seq<DockerRegistryView>, y: DockerRegistryView, p: DockerRegistryView)
    requires
        covers_docker_registry(ps, p),
    ensures
        covers_docker_registry(merge_docker_registry(ps, y), p),
{
    lemma_merge_docker_registry_step(ps, y);
    lemma_first_registry_domain(ps, p.domain);
    let r = merge_docker_registry(ps, y);
    let i = first_registry_domain(ps, p.domain);
    assert(r[i].domain == p.domain);
    assert forall|j: int| 0 <= j < i implies #[trigger] r[j].domain != p.domain by {
        assert(ps[j].domain != p.domain);
    }
    lemma_first_registry_domain_at(r, p.domain, i);
    assert forall|a: AccountView| p.accounts.contains(a) implies r[i].accounts.contains(a) by {
        assert(ps[i].accounts.contains(a));
        let k = choose|k: int| 0 <= k < ps[i].accounts.len() && ps[i].accounts[k] == a;
        assert(r[i].accounts.subrange(0, ps[i].accounts.len() as int)[k] == a);
        assert(r[i].accounts[k] == a);
    }
}

proof fn lemma_registry_covers_kept_by_list(
    ps: Seq<DockerRegistryView>,
    more: Seq<DockerRegistryView>,
    p: DockerRegistryView,
)
    requires
        covers_docker_registry(ps, p),
    ensures
        covers_docker_registry(merge_docker_registry_list(ps, more), p),
    decreases more.len(),
{
    if more.len() > 0 {
        lemma_registry_covers_kept_by_step(ps, more[0], p);
        lemma_registry_covers_kept_by_list(merge_docker_registry(ps, more[0]), more.drop_first(), p);
    }
}

#[verifier::rlimit(60)]
/// Merging docker registries keeps each existing registry in place (same domain
/// and organizations, its accounts first and in order), adds at most one registry per
/// incoming one, has a registry of a domain exactly when one was there or
/// came in, and the registry of each incoming domain holds every incoming
/// account of it.
pub proof fn law_merge_docker_registries(ps: Seq<DockerRegistryView>, more: Seq<DockerRegistryView>)
    ensures
        ps.len() <= merge_docker_registry_list(ps, more).len() <= ps.len() + more.len(),
        forall|i: int|
            0 <= i < ps.len() ==> {
                &&& (#[trigger] merge_docker_registry_list(ps, more)[i]).domain == ps[i].domain
                &&& merge_docker_registry_list(ps, more)[i].organizations == ps[i].organizations
                &&& is_prefix_of(ps[i].accounts, merge_docker_registry_list(ps, more)[i].accounts)
            },
        forall|d: Seq<char>|
            #[trigger] has_registry_domain(merge_docker_registry_list(ps, more), d) <==> has_registry_domain(ps, d)
                || names_registry_domain(more, d),
        forall|j: int|
            0 <= j < more.len() ==> covers_docker_registry(
                merge_docker_registry_list(ps, more),
                #[trigger] more[j],
            ),
    decreases more.len(),
{
    let r = merge_docker_registry_list(ps, more);
    if more.len() == 0 {
        assert forall|i: int| 0 <= i < ps.len() implies is_prefix_of(ps[i].accounts, r[i].accounts) by {
            assert(ps[i].accounts.subrange(0, ps[i].accounts.len() as int) =~= ps[i].accounts);
        }
    } else {
        let x = more[0];
        let step = merge_docker_registry(ps, x);
        let rest = more.drop_first();
        lemma_merge_docker_registry_step(ps, x);
        law_merge_docker_registries(step, rest);
        assert(r == merge_docker_registry_list(step, rest));
        assert forall|i: int| 0 <= i < ps.len() implies {
            &&& (#[trigger] r[i]).domain == ps[i].domain
            &&& r[i].organizations == ps[i].organizations
            &&& is_prefix_of(ps[i].accounts, r[i].accounts)
        } by {
            let a = ps[i].accounts;
            let b = step[i].accounts;
            let c = r[i].accounts;
            assert(c.subrange(0, a.len() as int) =~= b.subrange(0, a.len() as int));
        }
        assert forall|d: Seq<char>| #[trigger] has_registry_domain(r, d) <==> has_registry_domain(ps, d)
            || names_registry_domain(more, d) by {
            if has_registry_domain(step, d) {
                let k = choose|k: int| 0 <= k < step.len() && #[trigger] step[k].domain == d;
                if k < ps.len() {
                    assert(ps[k].domain == d);
                } else {
                    assert(more[0].domain == d);
                }
            }
            if has_registry_domain(ps, d) {
                let k = choose|k: int| 0 <= k < ps.len() && #[trigger] ps[k].domain == d;
                assert(step[k].domain == d);
            }
            if names_registry_domain(more, d) {
                let k = choose|k: int| 0 <= k < more.len() && #[trigger] more[k].domain == d;
                if k == 0 {
                    assert(has_registry_domain(step, d));
                } else {
                    assert(rest[k - 1].domain == d);
                }
            }
            if names_registry_domain(rest, d) {
                let k = choose|k: int| 0 <= k < rest.len() && #[trigger] rest[k].domain == d;
                assert(more[k + 1].domain == d);
            }
        }
        assert forall|j: int| 0 <= j < more.len() implies covers_docker_registry(r, #[trigger] more[j]) by {
            if j == 0 {
                lemma_registry_covers_kept_by_list(step, rest, x);
            } else {
                assert(more[j] == rest[j - 1]);
            }
        }
    }
}

proof fn lemma_registry_merge_covered(ps: Seq<DockerRegistryView>, more: Seq<DockerRegistryView>)
    requires
        forall|j: int| 0 <= j < more.len() ==> covers_docker_registry(ps, #[trigger] more[j]),
    ensures
        merge_docker_registry_list(ps, more) == ps,
    decreases more.len(),
{
    if more.len() > 0 {
        let x = more[0];
        assert(covers_docker_registry(ps, x));
        lemma_first_registry_domain(ps, x.domain);
        let i = first_registry_domain(ps, x.domain);
        lemma_merge_held_accounts(ps[i].accounts, x.accounts);
        assert(merge_docker_registry(ps, x) =~= ps);
        assert forall|j: int| 0 <= j < more.drop_first().len() implies covers_docker_registry(
            ps,
            #[trigger] more.drop_first()[j],
        ) by {
            assert(more.drop_first()[j] == more[j + 1]);
        }
        lemma_registry_merge_covered(ps, more.drop_first());
    }
}

/// Merging the same docker registries a second time changes nothing.
pub proof fn law_merge_docker_registries_idempotent(ps: Seq<DockerRegistryView>, more: Seq<DockerRegistryView>)
    ensures
        merge_docker_registry_list(merge_docker_registry_list(ps, more), more) == merge_docker_registry_list(
            ps,
            more,
        ),
{
    law_merge_docker_registries(ps, more);
    lemma_registry_merge_covered(merge_docker_registry_list(ps, more), more);
}

} // verus!
