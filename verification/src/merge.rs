use vstd::prelude::*;

use crate::providers::{
    AccountView, DockerRegistry, DockerRegistryView, GitProvider, GitProviderView,
    ProviderAccount,
};

verus! {

/// `existing` extended with each account of `incoming` it does not hold
/// yet, in the order they come.
pub open spec fn merge_accounts(existing: Seq<AccountView>, incoming: Seq<AccountView>) -> Seq<
    AccountView,
>
    decreases incoming.len(),
{
    if incoming.len() == 0 {
        existing
    } else {
        let next = if existing.contains(incoming[0]) {
            existing
        } else {
            existing.push(incoming[0])
        };
        merge_accounts(next, incoming.drop_first())
    }
}

/// Some git provider of `ps` has the domain `d`.
pub open spec fn has_git_domain(ps: Seq<GitProviderView>, d: Seq<char>) -> bool {
    exists|i: int| 0 <= i < ps.len() && #[trigger] ps[i].domain == d
}

/// The first position of a git provider of `ps` with the domain `d`.
pub open spec fn first_git_domain(ps: Seq<GitProviderView>, d: Seq<char>) -> int {
    choose|i: int|
        0 <= i < ps.len() && #[trigger] ps[i].domain == d && forall|j: int|
            0 <= j < i ==> #[trigger] ps[j].domain != d
}

/// Merges one incoming git provider: its accounts join those of the first
/// provider with the same domain, or it is appended when there is none.
pub open spec fn merge_git_provider(ps: Seq<GitProviderView>, incoming: GitProviderView) -> Seq<
    GitProviderView,
> {
    if has_git_domain(ps, incoming.domain) {
        let i = first_git_domain(ps, incoming.domain);
        ps.update(
            i,
            GitProviderView {
                accounts: merge_accounts(ps[i].accounts, incoming.accounts),
                ..ps[i]
            },
        )
    } else {
        ps.push(incoming)
    }
}

/// Merges each of `more`, in order, into `ps`.
pub open spec fn merge_git_provider_list(
    ps: Seq<GitProviderView>,
    more: Seq<GitProviderView>,
) -> Seq<GitProviderView>
    decreases more.len(),
{
    if more.len() == 0 {
        ps
    } else {
        merge_git_provider_list(merge_git_provider(ps, more[0]), more.drop_first())
    }
}

/// Some docker registry of `rs` has the domain `d`.
pub open spec fn has_registry_domain(rs: Seq<DockerRegistryView>, d: Seq<char>) -> bool {
    exists|i: int| 0 <= i < rs.len() && #[trigger] rs[i].domain == d
}

/// The first position of a docker registry of `rs` with the domain `d`.
pub open spec fn first_registry_domain(rs: Seq<DockerRegistryView>, d: Seq<char>) -> int {
    choose|i: int|
        0 <= i < rs.len() && #[trigger] rs[i].domain == d && forall|j: int|
            0 <= j < i ==> #[trigger] rs[j].domain != d
}

/// Merges one incoming docker registry: its accounts join those of the
/// first registry with the same domain, or it is appended when there is none.
pub open spec fn merge_docker_registry(
    rs: Seq<DockerRegistryView>,
    incoming: DockerRegistryView,
) -> Seq<DockerRegistryView> {
    if has_registry_domain(rs, incoming.domain) {
        let i = first_registry_domain(rs, incoming.domain);
        rs.update(
            i,
            DockerRegistryView {
                accounts: merge_accounts(rs[i].accounts, incoming.accounts),
                ..rs[i]
            },
        )
    } else {
        rs.push(incoming)
    }
}

/// Merges each of `more`, in order, into `rs`.
pub open spec fn merge_docker_registry_list(
    rs: Seq<DockerRegistryView>,
    more: Seq<DockerRegistryView>,
) -> Seq<DockerRegistryView>
    decreases more.len(),
{
    if more.len() == 0 {
        rs
    } else {
        merge_docker_registry_list(merge_docker_registry(rs, more[0]), more.drop_first())
    }
}

/// The values of `v` in reverse order, so that popping takes them in their
/// original order.
pub fn reversed<T: DeepView>(v: Vec<T>) -> (r: Vec<T>)
    ensures
        r.deep_view().reverse() == v.deep_view(),
        r.len() == v.len(),
{
    let ghost orig = v.deep_view();
    let mut rest = v;
    let mut queue: Vec<T> = Vec::new();
    while rest.len() > 0
        invariant
            orig =~= rest.deep_view() + queue.deep_view().reverse(),
            orig.len() == rest.len() + queue.len(),
        decreases rest.len(),
    {
        let ghost before_rest = rest.deep_view();
        let ghost before_queue = queue.deep_view();
        let a = rest.pop().unwrap();
        queue.push(a);
        assert(before_rest =~= rest.deep_view().push(a.deep_view()));
        assert(queue.deep_view() =~= before_queue.push(a.deep_view()));
    }
    assert(orig =~= queue.deep_view().reverse());
    queue
}

/// Position of the first git provider of `ps` with the domain `domain`.
pub fn find_git_domain(ps: &Vec<GitProvider>, domain: &String) -> (r: Option<usize>)
    ensures
        match r {
            Some(i) => i < ps.len() && has_git_domain(ps.deep_view(), domain@) && i
                == first_git_domain(ps.deep_view(), domain@),
            None => !has_git_domain(ps.deep_view(), domain@),
        },
{
    let ghost pv = ps.deep_view();
    let mut i: usize = 0;
    while i < ps.len()
        invariant
            i <= ps.len(),
            pv == ps.deep_view(),
            forall|j: int| 0 <= j < i ==> #[trigger] pv[j].domain != domain@,
        decreases ps.len() - i,
    {
        if ps[i].domain == *domain {
            assert(pv[i as int].domain == domain@);
            let ghost q = first_git_domain(pv, domain@);
            assert(q == i) by {
                if q < i {
                    assert(pv[q].domain != domain@);
                } else if q > i {
                    assert(pv[i as int].domain != domain@);
                }
            }
            return Some(i);
        }
        i = i + 1;
    }
    None
}

/// Position of the first docker registry of `rs` with the domain `domain`.
pub fn find_registry_domain(rs: &Vec<DockerRegistry>, domain: &String) -> (r: Option<usize>)
    ensures
        match r {
            Some(i) => i < rs.len() && has_registry_domain(rs.deep_view(), domain@) && i
                == first_registry_domain(rs.deep_view(), domain@),
            None => !has_registry_domain(rs.deep_view(), domain@),
        },
{
    let ghost rv = rs.deep_view();
    let mut i: usize = 0;
    while i < rs.len()
        invariant
            i <= rs.len(),
            rv == rs.deep_view(),
            forall|j: int| 0 <= j < i ==> #[trigger] rv[j].domain != domain@,
        decreases rs.len() - i,
    {
        if rs[i].domain == *domain {
            assert(rv[i as int].domain == domain@);
            let ghost q = first_registry_domain(rv, domain@);
            assert(q == i) by {
                if q < i {
                    assert(rv[q].domain != domain@);
                } else if q > i {
                    assert(rv[i as int].domain != domain@);
                }
            }
            return Some(i);
        }
        i = i + 1;
    }
    None
}

/// Whether `accounts` holds an account equal to `account`.
pub fn contains_account(accounts: &Vec<ProviderAccount>, account: &ProviderAccount) -> (res: bool)
    ensures
        res == accounts.deep_view().contains(account.deep_view()),
{
    let mut i: usize = 0;
    while i < accounts.len()
        invariant
            i <= accounts.len(),
            forall|k: int| 0 <= k < i ==> accounts.deep_view()[k] != account.deep_view(),
        decreases accounts.len() - i,
    {
        let a = &accounts[i];
        if a.username == account.username && a.token == account.token {
            assert(accounts.deep_view()[i as int] == account.deep_view());
            return true;
        }
        i = i + 1;
    }
    false
}

/// Adds each account of `incoming` that `accounts` does not hold yet.
pub fn merge_accounts_into(accounts: &mut Vec<ProviderAccount>, incoming: Vec<ProviderAccount>)
    ensures
        final(accounts).deep_view() == merge_accounts(old(accounts).deep_view(), incoming.deep_view()),
{
    let ghost start = accounts.deep_view();
    let ghost inc = incoming.deep_view();
    assert(inc.skip(0) =~= inc);
    assert(inc.len() == incoming.len());
    let mut queue = reversed(incoming);
    let mut taken: usize = 0;
    while queue.len() > 0
        invariant
            taken + queue.len() == inc.len(),
            inc.len() <= usize::MAX,
            queue.deep_view().reverse() =~= inc.skip(taken as int),
            merge_accounts(start, inc) == merge_accounts(accounts.deep_view(), inc.skip(taken as int)),
        decreases queue.len(),
    {
        let ghost before = accounts.deep_view();
        let ghost rest_view = inc.skip(taken as int);
        let a = queue.pop().unwrap();
        assert(rest_view[0] == a.deep_view());
        assert(rest_view.drop_first() =~= inc.skip(taken + 1));
        if !contains_account(accounts, &a) {
            accounts.push(a);
            assert(accounts.deep_view() =~= before.push(rest_view[0]));
        }
        taken = taken + 1;
    }
}

fn merge_one_git_provider(providers: &mut Vec<GitProvider>, incoming: GitProvider)
    ensures
        final(providers).deep_view() == merge_git_provider(old(providers).deep_view(), incoming.deep_view()),
{
    let ghost before = providers.deep_view();
    let ghost iv = incoming.deep_view();
    match find_git_domain(providers, &incoming.domain) {
        Some(i) => {
            let mut provider = providers.remove(i);
            assert(providers.deep_view() =~= before.remove(i as int));
            merge_accounts_into(&mut provider.accounts, incoming.accounts);
            let ghost merged = provider.deep_view();
            assert(merged == GitProviderView {
                accounts: merge_accounts(before[i as int].accounts, iv.accounts),
                ..before[i as int]
            });
            providers.insert(i, provider);
            assert(providers.deep_view() =~= before.update(i as int, merged));
        },
        None => {
            providers.push(incoming);
            assert(providers.deep_view() =~= before.push(iv));
        },
    }
}

fn merge_one_registry(registries: &mut Vec<DockerRegistry>, incoming: DockerRegistry)
    ensures
        final(registries).deep_view() == merge_docker_registry(
            old(registries).deep_view(),
            incoming.deep_view(),
        ),
{
    let ghost before = registries.deep_view();
    let ghost iv = incoming.deep_view();
    match find_registry_domain(registries, &incoming.domain) {
        Some(i) => {
            let mut registry = registries.remove(i);
            assert(registries.deep_view() =~= before.remove(i as int));
            merge_accounts_into(&mut registry.accounts, incoming.accounts);
            let ghost merged = registry.deep_view();
            assert(merged == DockerRegistryView {
                accounts: merge_accounts(before[i as int].accounts, iv.accounts),
                ..before[i as int]
            });
            registries.insert(i, registry);
            assert(registries.deep_view() =~= before.update(i as int, merged));
        },
        None => {
            registries.push(incoming);
            assert(registries.deep_view() =~= before.push(iv));
        },
    }
}

/// Merges git providers into `providers`: each incoming provider's accounts
/// join those of the first provider with its domain, accounts already there
/// are not added twice, and a provider of a new domain is appended.
pub fn merge_git_providers(providers: &mut Vec<GitProvider>, more: Vec<GitProvider>)
    ensures
        final(providers).deep_view() == merge_git_provider_list(
            old(providers).deep_view(),
            more.deep_view(),
        ),
{
    let ghost start = providers.deep_view();
    let ghost inc = more.deep_view();
    assert(inc.skip(0) =~= inc);
    assert(inc.len() == more.len());
    let mut queue = reversed(more);
    let mut taken: usize = 0;
    while queue.len() > 0
        invariant
            taken + queue.len() == inc.len(),
            inc.len() <= usize::MAX,
            queue.deep_view().reverse() =~= inc.skip(taken as int),
            merge_git_provider_list(start, inc) == merge_git_provider_list(
                providers.deep_view(),
                inc.skip(taken as int),
            ),
        decreases queue.len(),
    {
        let ghost before = providers.deep_view();
        let ghost rest_view = inc.skip(taken as int);
        let incoming = queue.pop().unwrap();
        assert(rest_view[0] == incoming.deep_view());
        assert(rest_view.drop_first() =~= inc.skip(taken + 1));
        merge_one_git_provider(providers, incoming);
        taken = taken + 1;
    }
}

/// Merges docker registries into `registries`, as `merge_git_providers`
/// does git providers.
pub fn merge_docker_registries(registries: &mut Vec<DockerRegistry>, more: Vec<DockerRegistry>)
    ensures
        final(registries).deep_view() == merge_docker_registry_list(
            old(registries).deep_view(),
            more.deep_view(),
        ),
{
    let ghost start = registries.deep_view();
    let ghost inc = more.deep_view();
    assert(inc.skip(0) =~= inc);
    assert(inc.len() == more.len());
    let mut queue = reversed(more);
    let mut taken: usize = 0;
    while queue.len() > 0
        invariant
            taken + queue.len() == inc.len(),
            inc.len() <= usize::MAX,
            queue.deep_view().reverse() =~= inc.skip(taken as int),
            merge_docker_registry_list(start, inc) == merge_docker_registry_list(
                registries.deep_view(),
                inc.skip(taken as int),
            ),
        decreases queue.len(),
    {
        let ghost before = registries.deep_view();
        let ghost rest_view = inc.skip(taken as int);
        let incoming = queue.pop().unwrap();
        assert(rest_view[0] == incoming.deep_view());
        assert(rest_view.drop_first() =~= inc.skip(taken + 1));
        merge_one_registry(registries, incoming);
        taken = taken + 1;
    }
}

} // verus!
