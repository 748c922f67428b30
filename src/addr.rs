//! Typed resource addresses and their path form.

use vstd::prelude::*;
use vstd::string::*;

use crate::error::ConnectorError;
use crate::text::{str_eq, strings_view};

verus! {

/// What a resource is: the connector's configuration, a repository, or the
/// protection rule of one branch of a repository.
#[derive(Clone, Debug)]
pub enum GitHubResourceAddress {
    Config,
    Repository { owner: String, repo: String },
    BranchProtection { owner: String, repo: String, branch: String },
}

/// The mathematical value of a [`GitHubResourceAddress`].
pub enum AddressModel {
    Config,
    Repository { owner: Seq<char>, repo: Seq<char> },
    BranchProtection { owner: Seq<char>, repo: Seq<char>, branch: Seq<char> },
}

impl View for GitHubResourceAddress {
    type V = AddressModel;

    open spec fn view(&self) -> AddressModel {
        match self {
            GitHubResourceAddress::Config => AddressModel::Config,
            GitHubResourceAddress::Repository { owner, repo } => AddressModel::Repository {
                owner: owner@,
                repo: repo@,
            },
            GitHubResourceAddress::BranchProtection { owner, repo, branch } =>
                AddressModel::BranchProtection { owner: owner@, repo: repo@, branch: branch@ },
        }
    }
}

/// The pieces of a text between slashes, in order; a text without a slash is one piece.
pub open spec fn split_slash(s: Seq<char>) -> Seq<Seq<char>>
    decreases s.len(),
{
    if s.len() == 0 {
        seq![Seq::empty()]
    } else {
        let init = split_slash(s.drop_last());
        if s.last() == '/' {
            init.push(Seq::empty())
        } else {
            init.update(init.len() - 1, init.last().push(s.last()))
        }
    }
}

/// The pieces joined with a slash between each two.
pub open spec fn join_slash(pieces: Seq<Seq<char>>) -> Seq<char>
    decreases pieces.len(),
{
    if pieces.len() <= 1 {
        if pieces.len() == 0 {
            Seq::empty()
        } else {
            pieces[0]
        }
    } else {
        join_slash(pieces.drop_last()) + seq!['/'] + pieces.last()
    }
}

/// A usable path component: not empty, without a slash, and not `.`.
pub open spec fn is_segment(s: Seq<char>) -> bool {
    s.len() > 0 && !s.contains('/') && s != "."@
}

/// The pieces of a path that name something: not empty, and not `.`.
pub open spec fn meaningful_pieces(s: Seq<Seq<char>>) -> Seq<Seq<char>>
    decreases s.len(),
{
    if s.len() == 0 {
        Seq::empty()
    } else {
        let rest = meaningful_pieces(s.drop_last());
        if s.last().len() == 0 || s.last() == "."@ {
            rest
        } else {
            rest.push(s.last())
        }
    }
}

/// The components of a relative path, each a plain name: the pieces between
/// slashes, with empty pieces (from doubled or trailing slashes) and `.`
/// pieces left out. A path that starts at the root or with a `.` component
/// has a component that is no plain name: it has none of this form.
pub open spec fn path_components(p: Seq<char>) -> Option<Seq<Seq<char>>> {
    let pieces = split_slash(p);
    if p.len() > 0 && p[0] == '/' {
        None
    } else if pieces[0] == "."@ {
        None
    } else {
        Some(meaningful_pieces(pieces))
    }
}

/// The path components of an address.
pub open spec fn address_components(a: AddressModel) -> Seq<Seq<char>> {
    match a {
        AddressModel::Config => seq!["github"@, "config.ron"@],
        AddressModel::Repository { owner, repo } => seq!["github"@, owner, repo, "repository.ron"@],
        AddressModel::BranchProtection { owner, repo, branch } => seq![
            "github"@,
            owner,
            repo,
            "branches"@,
            branch,
            "protection.ron"@,
        ],
    }
}

/// The path of an address.
pub open spec fn address_path(a: AddressModel) -> Seq<char> {
    join_slash(address_components(a))
}

/// An address whose owner, repository and branch names are usable path components.
pub open spec fn is_constructible(a: AddressModel) -> bool {
    match a {
        AddressModel::Config => true,
        AddressModel::Repository { owner, repo } => is_segment(owner) && is_segment(repo),
        AddressModel::BranchProtection { owner, repo, branch } => is_segment(owner) && is_segment(
            repo,
        ) && is_segment(branch),
    }
}

/// The address that a path names, if its components have one of the known
/// shapes: `github/config.ron`, `github/<owner>/<repo>/repository.ron` and
/// `github/<owner>/<repo>/branches/<branch>/protection.ron`.
pub open spec fn decode_path(p: Seq<char>) -> Option<AddressModel> {
    match path_components(p) {
        None => None,
        Some(c) => if c.len() == 2 && c[0] == "github"@ && c[1] == "config.ron"@ {
            Some(AddressModel::Config)
        } else if c.len() == 4 && c[0] == "github"@ && c[3] == "repository.ron"@ {
            Some(AddressModel::Repository { owner: c[1], repo: c[2] })
        } else if c.len() == 6 && c[0] == "github"@ && c[3] == "branches"@ && c[5]
            == "protection.ron"@ {
            Some(AddressModel::BranchProtection { owner: c[1], repo: c[2], branch: c[4] })
        } else {
            None
        },
    }
}

pub proof fn lemma_meaningful_keeps_names(s: Seq<Seq<char>>)
    requires
        forall|i: int| 0 <= i < s.len() ==> (#[trigger] s[i]).len() > 0 && s[i] != "."@,
    ensures
        meaningful_pieces(s) == s,
    decreases s.len(),
{
    if s.len() > 0 {
        let init = s.drop_last();
        assert forall|i: int| 0 <= i < init.len() implies (#[trigger] init[i]).len() > 0 && init[i]
            != "."@ by {
            assert(init[i] == s[i]);
        }
        lemma_meaningful_keeps_names(init);
        assert(s.last() == s[s.len() - 1]);
        assert(init.push(s.last()) =~= s);
    } else {
        assert(s =~= Seq::<Seq<char>>::empty());
    }
}

pub proof fn lemma_join_first(pieces: Seq<Seq<char>>)
    requires
        pieces.len() >= 1,
    ensures
        join_slash(pieces).len() >= pieces[0].len(),
        forall|i: int| 0 <= i < pieces[0].len() ==> join_slash(pieces)[i] == pieces[0][i],
    decreases pieces.len(),
{
    if pieces.len() > 1 {
        lemma_join_first(pieces.drop_last());
        assert(pieces.drop_last()[0] == pieces[0]);
    }
}

pub proof fn lemma_join_push(pieces: Seq<Seq<char>>, x: Seq<char>)
    requires
        pieces.len() >= 1,
    ensures
        join_slash(pieces.push(x)) == join_slash(pieces) + seq!['/'] + x,
{
    assert(pieces.push(x).drop_last() =~= pieces);
}

pub proof fn lemma_split_len(s: Seq<char>)
    ensures
        split_slash(s).len() >= 1,
    decreases s.len(),
{
    if s.len() > 0 {
        lemma_split_len(s.drop_last());
    }
}

pub proof fn lemma_split_no_slash(s: Seq<char>)
    requires
        !s.contains('/'),
    ensures
        split_slash(s) == seq![s],
    decreases s.len(),
{
    if s.len() > 0 {
        assert(!s.drop_last().contains('/')) by {
            if s.drop_last().contains('/') {
                let i = choose|i: int| 0 <= i < s.drop_last().len() && s.drop_last()[i] == '/';
                assert(s[i] == '/');
            }
        }
        lemma_split_no_slash(s.drop_last());
        assert(s.last() != '/') by {
            assert(s[s.len() - 1] == s.last());
        }
        assert(s.drop_last().push(s.last()) =~= s);
        assert(seq![s.drop_last()].update(0, s) =~= seq![s]);
    } else {
        assert(s =~= Seq::<char>::empty());
    }
}

pub proof fn lemma_split_at_slash(a: Seq<char>, b: Seq<char>)
    ensures
        split_slash(a + seq!['/'] + b) == split_slash(a) + split_slash(b),
    decreases b.len(),
{
    lemma_split_len(a);
    if b.len() == 0 {
        let s = a + seq!['/'] + b;
        assert(s.drop_last() =~= a);
        assert(split_slash(b) == seq![Seq::<char>::empty()]);
        assert(split_slash(s) =~= split_slash(a) + split_slash(b));
    } else {
        let s = a + seq!['/'] + b;
        lemma_split_at_slash(a, b.drop_last());
        lemma_split_len(b.drop_last());
        assert(s.drop_last() =~= a + seq!['/'] + b.drop_last());
        assert(s.last() == b.last());
        let sa = split_slash(a);
        let sb = split_slash(b.drop_last());
        if b.last() == '/' {
            assert(split_slash(s) =~= sa + split_slash(b));
        } else {
            assert((sa + sb).update((sa + sb).len() - 1, (sa + sb).last().push(b.last())) =~= sa
                + sb.update(sb.len() - 1, sb.last().push(b.last())));
        }
    }
}

pub proof fn lemma_split_join(pieces: Seq<Seq<char>>)
    requires
        pieces.len() >= 1,
        forall|i: int| 0 <= i < pieces.len() ==> !(#[trigger] pieces[i]).contains('/'),
    ensures
        split_slash(join_slash(pieces)) == pieces,
    decreases pieces.len(),
{
    if pieces.len() == 1 {
        lemma_split_no_slash(pieces[0]);
        assert(seq![pieces[0]] =~= pieces);
    } else {
        let init = pieces.drop_last();
        assert forall|i: int| 0 <= i < init.len() implies !(#[trigger] init[i]).contains('/') by {
            assert(init[i] == pieces[i]);
        }
        lemma_split_join(init);
        assert(!pieces.last().contains('/')) by {
            assert(pieces.last() == pieces[pieces.len() - 1]);
        }
        lemma_split_no_slash(pieces.last());
        lemma_split_at_slash(join_slash(init), pieces.last());
        assert(init + seq![pieces.last()] =~= pieces);
    }
}

/// Decoding the path of any constructible address gives that address back.
pub proof fn lemma_address_round_trip(a: AddressModel)
    requires
        is_constructible(a),
    ensures
        decode_path(address_path(a)) == Some(a),
{
    reveal_strlit("github");
    reveal_strlit("config.ron");
    reveal_strlit("repository.ron");
    reveal_strlit("branches");
    reveal_strlit("protection.ron");
    reveal_strlit(".");
    let c = address_components(a);
    assert forall|i: int| 0 <= i < c.len() implies !(#[trigger] c[i]).contains('/') && c[i].len() > 0
        && c[i] != "."@ by {
        if c[i] == "github"@ || c[i] == "config.ron"@ || c[i] == "repository.ron"@ || c[i]
            == "branches"@ || c[i] == "protection.ron"@ {
            if c[i].contains('/') {
                let j = choose|j: int| 0 <= j < c[i].len() && c[i][j] == '/';
                assert(c[i][j] == '/');
            }
            assert(c[i].len() > 1);
        }
    }
    lemma_split_join(c);
    lemma_meaningful_keeps_names(c);
    lemma_join_first(c);
    let p = address_path(a);
    assert(p[0] == c[0][0]);
    assert(c[0][0] == 'g');
    assert(c[0] != "."@) by {
        assert(c[0].len() == 6);
    }
}

impl GitHubResourceAddress {
    /// The path of this address, relative to the configuration tree's root.
    pub fn to_path_buf(&self) -> (r: String)
        ensures
            r@ == address_path(self@),
    {
        let mut r = String::from_str("github");
        match self {
            GitHubResourceAddress::Config => {
                r.append("/");
                r.append("config.ron");
            },
            GitHubResourceAddress::Repository { owner, repo } => {
                r.append("/");
                r.append(owner.as_str());
                r.append("/");
                r.append(repo.as_str());
                r.append("/");
                r.append("repository.ron");
            },
            GitHubResourceAddress::BranchProtection { owner, repo, branch } => {
                r.append("/");
                r.append(owner.as_str());
                r.append("/");
                r.append(repo.as_str());
                r.append("/");
                r.append("branches");
                r.append("/");
                r.append(branch.as_str());
                r.append("/");
                r.append("protection.ron");
            },
        }
        proof {
            reveal_strlit("/");
            let c = address_components(self@);
            let g = "github"@;
            let sl = seq!['/'];
            assert(join_slash(seq![g]) == g);
            match self@ {
                AddressModel::Config => {
                    lemma_join_push(seq![g], "config.ron"@);
                    assert(seq![g].push("config.ron"@) =~= c);
                },
                AddressModel::Repository { owner, repo } => {
                    lemma_join_push(seq![g], owner);
                    lemma_join_push(seq![g, owner], repo);
                    lemma_join_push(seq![g, owner, repo], "repository.ron"@);
                    assert(seq![g].push(owner) =~= seq![g, owner]);
                    assert(seq![g, owner].push(repo) =~= seq![g, owner, repo]);
                    assert(seq![g, owner, repo].push("repository.ron"@) =~= c);
                    assert(r@ =~= g + sl + owner + sl + repo + sl + "repository.ron"@);
                },
                AddressModel::BranchProtection { owner, repo, branch } => {
                    lemma_join_push(seq![g], owner);
                    lemma_join_push(seq![g, owner], repo);
                    lemma_join_push(seq![g, owner, repo], "branches"@);
                    lemma_join_push(seq![g, owner, repo, "branches"@], branch);
                    lemma_join_push(seq![g, owner, repo, "branches"@, branch], "protection.ron"@);
                    assert(seq![g].push(owner) =~= seq![g, owner]);
                    assert(seq![g, owner].push(repo) =~= seq![g, owner, repo]);
                    assert(seq![g, owner, repo].push("branches"@) =~= seq![g, owner, repo, "branches"@]);
                    assert(seq![g, owner, repo, "branches"@].push(branch) =~= seq![g, owner, repo, "branches"@, branch]);
                    assert(seq![g, owner, repo, "branches"@, branch].push("protection.ron"@) =~= c);
                    assert(r@ =~= g + sl + owner + sl + repo + sl + "branches"@ + sl + branch + sl
                        + "protection.ron"@);
                },
            }
        }
        r
    }

    /// The address that a path names; a path of no known shape is an
    /// `InvalidAddress` error carrying the path.
    pub fn from_path(path: &str) -> (r: Result<GitHubResourceAddress, ConnectorError>)
        ensures
            match decode_path(path@) {
                Some(a) => r matches Ok(x) && x@ == a,
                None => r matches Err(ConnectorError::InvalidAddress { path: p }) && p@ == path@,
            },
    {
        let invalid = ConnectorError::InvalidAddress { path: String::from_str(path) };
        if path.unicode_len() > 0 && path.get_char(0) == '/' {
            return Err(invalid);
        }
        let pieces = split_path(path);
        proof {
            lemma_split_len(path@);
            reveal_strlit("github");
        }
        if str_eq(pieces[0].as_str(), ".") {
            return Err(invalid);
        }
        let c = meaningful(&pieces);
        let n = c.len();
        if n == 2 && str_eq(c[0].as_str(), "github") && str_eq(c[1].as_str(), "config.ron") {
            return Ok(GitHubResourceAddress::Config);
        }
        if n == 4 && str_eq(c[0].as_str(), "github") && str_eq(c[3].as_str(), "repository.ron") {
            return Ok(GitHubResourceAddress::Repository { owner: c[1].clone(), repo: c[2].clone() });
        }
        if n == 6 && str_eq(c[0].as_str(), "github") && str_eq(c[3].as_str(), "branches") && str_eq(
            c[5].as_str(),
            "protection.ron",
        ) {
            return Ok(
                GitHubResourceAddress::BranchProtection {
                    owner: c[1].clone(),
                    repo: c[2].clone(),
                    branch: c[4].clone(),
                },
            );
        }
        Err(invalid)
    }
}

/// The pieces that name something: the non-empty ones other than `.`.
pub(crate) fn meaningful(pieces: &Vec<String>) -> (r: Vec<String>)
    ensures
        strings_view(r@) == meaningful_pieces(strings_view(pieces@)),
{
    let mut f: Vec<String> = Vec::new();
    let mut i: usize = 0;
    while i < pieces.len()
        invariant
            i <= pieces@.len(),
            strings_view(f@) == meaningful_pieces(strings_view(pieces@).subrange(0, i as int)),
        decreases pieces@.len() - i,
    {
        let ghost sv = strings_view(pieces@).subrange(0, i as int + 1);
        assert(sv.drop_last() =~= strings_view(pieces@).subrange(0, i as int));
        assert(sv.last() == pieces@[i as int]@);
        let keep = pieces[i].unicode_len() > 0 && !str_eq(pieces[i].as_str(), ".");
        if keep {
            let ghost before = f@;
            f.push(pieces[i].clone());
            assert(strings_view(f@) =~= strings_view(before).push(pieces@[i as int]@));
        }
        i = i + 1;
    }
    assert(strings_view(pieces@).subrange(0, i as int) =~= strings_view(pieces@));
    f
}

/// The pieces of a path between slashes.
pub(crate) fn split_path(path: &str) -> (r: Vec<String>)
    ensures
        r@.map_values(|s: String| s@) == split_slash(path@),
{
    let n = path.unicode_len();
    let mut pieces: Vec<String> = Vec::new();
    let mut start: usize = 0;
    let mut i: usize = 0;
    assert(path@.subrange(0, 0) =~= Seq::<char>::empty());
    assert(path@.subrange(0, 0) =~= Seq::<char>::empty());
    while i < n
        invariant
            n == path@.len(),
            start <= i <= n,
            split_slash(path@.subrange(0, i as int)) == pieces@.map_values(|s: String| s@).push(
                path@.subrange(start as int, i as int),
            ),
        decreases n - i,
    {
        let ch = path.get_char(i);
        let ghost prefix = path@.subrange(0, i as int + 1);
        assert(prefix.drop_last() =~= path@.subrange(0, i as int));
        assert(prefix.last() == ch);
        if ch == '/' {
            let piece = String::from_str(path.substring_char(start, i));
            pieces.push(piece);
            start = i + 1;
            assert(path@.subrange(start as int, i as int + 1) =~= Seq::<char>::empty());
            assert(pieces@.map_values(|s: String| s@) =~= split_slash(path@.subrange(0, i as int)));
        } else {
            assert(path@.subrange(start as int, i as int + 1) =~= path@.subrange(
                start as int,
                i as int,
            ).push(ch));
        }
        i = i + 1;
        assert(split_slash(prefix) =~= pieces@.map_values(|s: String| s@).push(
            path@.subrange(start as int, i as int),
        ));
    }
    let last = String::from_str(path.substring_char(start, n));
    pieces.push(last);
    assert(path@.subrange(0, n as int) =~= path@);
    assert(pieces@.map_values(|s: String| s@) =~= split_slash(path@));
    pieces
}

} // verus!
