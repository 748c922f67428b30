//! Which addresses a listing of the remote side yields, and which owners a
//! path filter covers.

use vstd::prelude::*;
use vstd::string::*;

use crate::addr::{
    address_path, meaningful, meaningful_pieces, split_path, split_slash, AddressModel,
    GitHubResourceAddress,
};
use crate::remote::GitHubBranch;
use crate::config::{ConfigModel, GitHubConnectorConfig, GithubRepositoryOwner};
use crate::text::{copy_string, str_eq, strings_view};

verus! {

/// Whether a path filter covers the directory of `owner`, `github/<owner>`.
/// The filter is taken piece by piece, empty pieces and `.` left out: it
/// covers the directory if it has no more pieces than the directory and each
/// of its pieces is the directory's piece at that place or `*`. A filter
/// that starts at the root, or steps up with `..`, covers nothing.
pub open spec fn owner_in_scope(owner: Seq<char>, filter: Seq<char>) -> bool {
    let f = meaningful_pieces(split_slash(filter));
    let d = seq!["github"@, owner];
    &&& !(filter.len() > 0 && filter[0] == '/')
    &&& f.len() <= d.len()
    &&& forall|i: int|
        0 <= i < f.len() ==> #[trigger] f[i] != ".."@ && (f[i] == d[i] || f[i] == "*"@)
}

/// Whether the directory of `owner` is covered by the path filter `filter`.
pub fn in_scope(owner: &str, filter: &str) -> (r: bool)
    ensures
        r == owner_in_scope(owner@, filter@),
{
    if filter.unicode_len() > 0 && filter.get_char(0) == '/' {
        return false;
    }
    let pieces = split_path(filter);
    let f = meaningful(&pieces);
    let d: Vec<String> = vec![String::from_str("github"), String::from_str(owner)];
    assert(strings_view(d@) =~= seq!["github"@, owner@]);
    let ghost fv = strings_view(f@);
    let ghost dv = strings_view(d@);
    if f.len() > d.len() {
        return false;
    }
    let mut k: usize = 0;
    while k < f.len()
        invariant
            f@.len() <= d@.len(),
            k <= f@.len(),
            fv == strings_view(f@),
            dv == strings_view(d@),
            fv == meaningful_pieces(split_slash(filter@)),
            dv == seq!["github"@, owner@],
            forall|j: int|
                0 <= j < k ==> #[trigger] fv[j] != ".."@ && (fv[j] == dv[j] || fv[j] == "*"@),
        decreases f@.len() - k,
    {
        let piece = f[k].as_str();
        let fits = !str_eq(piece, "..") && (str_eq(piece, d[k].as_str()) || str_eq(piece, "*"));
        if !fits {
            assert(!(fv[k as int] != ".."@ && (fv[k as int] == dv[k as int] || fv[k as int] == "*"@)));
            return false;
        }
        k = k + 1;
    }
    true
}

/// The protection rules of the protected branches of repository `owner/repo`, in order.
pub open spec fn protected_paths(owner: Seq<char>, repo: Seq<char>, bs: Seq<GitHubBranch>) -> Seq<
    Seq<char>,
>
    decreases bs.len(),
{
    if bs.len() == 0 {
        Seq::empty()
    } else {
        let rest = protected_paths(owner, repo, bs.drop_last());
        if bs.last().protected {
            rest.push(
                address_path(
                    AddressModel::BranchProtection { owner, repo, branch: bs.last().name@ },
                ),
            )
        } else {
            rest
        }
    }
}

/// The paths that a listed repository contributes: the repository itself,
/// then the protection rule of each protected branch, in the order listed.
pub fn repository_paths(owner: &String, repo: &String, branches: &Vec<GitHubBranch>) -> (r: Vec<String>)
    ensures
        strings_view(r@) == seq![address_path(AddressModel::Repository { owner: owner@, repo: repo@ })]
            + protected_paths(owner@, repo@, branches@),
{
    let a = GitHubResourceAddress::Repository { owner: copy_string(owner), repo: copy_string(repo) };
    let mut r: Vec<String> = vec![a.to_path_buf()];
    let ghost first = address_path(AddressModel::Repository { owner: owner@, repo: repo@ });
    assert(strings_view(r@) =~= seq![first] + protected_paths(owner@, repo@, branches@.subrange(0, 0)));
    let mut i: usize = 0;
    while i < branches.len()
        invariant
            i <= branches@.len(),
            strings_view(r@) == seq![first] + protected_paths(
                owner@,
                repo@,
                branches@.subrange(0, i as int),
            ),
        decreases branches@.len() - i,
    {
        let ghost bs = branches@.subrange(0, i as int + 1);
        assert(bs.drop_last() =~= branches@.subrange(0, i as int));
        assert(bs.last() == branches@[i as int]);
        if branches[i].protected {
            let b = GitHubResourceAddress::BranchProtection {
                owner: copy_string(owner),
                repo: copy_string(repo),
                branch: copy_string(&branches[i].name),
            };
            let p = b.to_path_buf();
            let ghost before = r@;
            r.push(p);
            assert(strings_view(r@) =~= strings_view(before).push(p@));
        }
        i = i + 1;
    }
    assert(branches@.subrange(0, i as int) =~= branches@);
    r
}

/// An owner as a pair: whether it is an organization, and its name.
pub open spec fn owner_view(o: GithubRepositoryOwner) -> (bool, Seq<char>) {
    match o {
        GithubRepositoryOwner::User(n) => (false, n@),
        GithubRepositoryOwner::Organization(n) => (true, n@),
    }
}

/// The configured owners in listing order: the users, then the organizations.
pub open spec fn configured_owners(c: ConfigModel) -> Seq<(bool, Seq<char>)> {
    c.users.map_values(|u: Seq<char>| (false, u)) + c.orgs.map_values(|o: Seq<char>| (true, o))
}

/// The owners, in order, whose directories the filter covers.
pub open spec fn owners_covered(owners: Seq<(bool, Seq<char>)>, filter: Seq<char>) -> Seq<
    (bool, Seq<char>),
>
    decreases owners.len(),
{
    if owners.len() == 0 {
        Seq::empty()
    } else {
        let rest = owners_covered(owners.drop_last(), filter);
        if owner_in_scope(owners.last().1, filter) {
            rest.push(owners.last())
        } else {
            rest
        }
    }
}

proof fn lemma_owners_covered_append(
    a: Seq<(bool, Seq<char>)>,
    b: Seq<(bool, Seq<char>)>,
    filter: Seq<char>,
)
    ensures
        owners_covered(a + b, filter) == owners_covered(a, filter) + owners_covered(b, filter),
    decreases b.len(),
{
    if b.len() == 0 {
        assert(a + b =~= a);
        assert(owners_covered(a, filter) + owners_covered(b, filter) =~= owners_covered(a, filter));
    } else {
        lemma_owners_covered_append(a, b.drop_last(), filter);
        assert((a + b).drop_last() =~= a + b.drop_last());
        assert((a + b).last() == b.last());
        let x = owners_covered(a, filter);
        let y = owners_covered(b.drop_last(), filter);
        assert((x + y).push(b.last()) =~= x + y.push(b.last()));
    }
}

/// Appends to `r` the owners named in `names`, organizations if `org`, whose
/// directories the filter covers.
fn push_covered(names: &Vec<String>, org: bool, filter: &str, r: &mut Vec<GithubRepositoryOwner>)
    ensures
        final(r)@.map_values(|o: GithubRepositoryOwner| owner_view(o)) == old(r)@.map_values(
            |o: GithubRepositoryOwner| owner_view(o),
        ) + owners_covered(names@.map_values(|n: String| (org, n@)), filter@),
{
    let ghost start = r@.map_values(|o: GithubRepositoryOwner| owner_view(o));
    let ghost all = names@.map_values(|n: String| (org, n@));
    let mut i: usize = 0;
    while i < names.len()
        invariant
            i <= names@.len(),
            all == names@.map_values(|n: String| (org, n@)),
            r@.map_values(|o: GithubRepositoryOwner| owner_view(o)) == start + owners_covered(
                all.subrange(0, i as int),
                filter@,
            ),
        decreases names@.len() - i,
    {
        let ghost sub = all.subrange(0, i as int + 1);
        assert(sub.drop_last() =~= all.subrange(0, i as int));
        assert(sub.last() == all[i as int]);
        if in_scope(names[i].as_str(), filter) {
            let o = if org {
                GithubRepositoryOwner::Organization(copy_string(&names[i]))
            } else {
                GithubRepositoryOwner::User(copy_string(&names[i]))
            };
            let ghost prev = r@;
            r.push(o);
            assert(r@.map_values(|o: GithubRepositoryOwner| owner_view(o)) =~= prev.map_values(
                |o: GithubRepositoryOwner| owner_view(o),
            ).push(all[i as int]));
        }
        i = i + 1;
    }
    assert(all.subrange(0, i as int) =~= all);
}

/// The owners whose repositories a listing under `filter` visits: the
/// configured users, then the configured organizations, each kept only if
/// the filter covers its directory.
pub fn owners_to_list(config: &GitHubConnectorConfig, filter: &str) -> (r: Vec<GithubRepositoryOwner>)
    ensures
        r@.map_values(|o: GithubRepositoryOwner| owner_view(o)) == owners_covered(
            configured_owners(config@),
            filter@,
        ),
{
    let mut r: Vec<GithubRepositoryOwner> = Vec::new();
    push_covered(&config.users, false, filter, &mut r);
    push_covered(&config.orgs, true, filter, &mut r);
    let ghost us = config.users@.map_values(|n: String| (false, n@));
    let ghost os = config.orgs@.map_values(|n: String| (true, n@));
    assert(us =~= config@.users.map_values(|u: Seq<char>| (false, u)));
    assert(os =~= config@.orgs.map_values(|o: Seq<char>| (true, o)));
    proof {
        lemma_owners_covered_append(us, os, filter@);
    }
    assert(r@.map_values(|o: GithubRepositoryOwner| owner_view(o)) =~= owners_covered(us, filter@)
        + owners_covered(os, filter@));
    r
}

} // verus!
