//! Resource bodies: repositories, branch protection rules, principals and roles.

use vstd::prelude::*;
use vstd::string::*;

use crate::collab::Collaborators;
use crate::text::{
    chars_lt, copy_opt, copy_string, copy_strings, lemma_chars_lt_irreflexive,
    lemma_chars_lt_transitive, lemma_chars_lt_trichotomy, opt_eq, opt_view, str_cmp, str_eq,
    strings_eq, strings_view,
};

verus! {

/// A permission level on a repository, in the remote API's vocabulary.
#[derive(Clone, Debug)]
pub enum Role {
    /// Read-only access to the repository
    Read,
    /// Triage access: read plus ability to manage issues and pull requests
    Triage,
    /// Write access: triage plus ability to push to the repository
    Write,
    /// Maintain access: write plus ability to manage the repository without sensitive actions
    Maintain,
    /// Administrator access: full control of the repository
    Admin,
    /// A custom repository role defined in the organization
    Custom(String),
}

/// The mathematical value of a [`Role`].
pub enum RoleModel {
    Read,
    Triage,
    Write,
    Maintain,
    Admin,
    Custom(Seq<char>),
}

impl View for Role {
    type V = RoleModel;

    open spec fn view(&self) -> RoleModel {
        match self {
            Role::Read => RoleModel::Read,
            Role::Triage => RoleModel::Triage,
            Role::Write => RoleModel::Write,
            Role::Maintain => RoleModel::Maintain,
            Role::Admin => RoleModel::Admin,
            Role::Custom(s) => RoleModel::Custom(s@),
        }
    }
}

/// The permission string of a role.
pub open spec fn role_name(r: RoleModel) -> Seq<char> {
    match r {
        RoleModel::Read => "read"@,
        RoleModel::Triage => "triage"@,
        RoleModel::Write => "write"@,
        RoleModel::Maintain => "maintain"@,
        RoleModel::Admin => "admin"@,
        RoleModel::Custom(s) => s,
    }
}

/// The role that a permission string denotes: one of the five built-in
/// names, else a custom role that keeps the string verbatim.
pub open spec fn role_of_name(s: Seq<char>) -> RoleModel {
    if s == "read"@ {
        RoleModel::Read
    } else if s == "triage"@ {
        RoleModel::Triage
    } else if s == "write"@ {
        RoleModel::Write
    } else if s == "maintain"@ {
        RoleModel::Maintain
    } else if s == "admin"@ {
        RoleModel::Admin
    } else {
        RoleModel::Custom(s)
    }
}

/// A role whose name does not collide with a built-in role name.
pub open spec fn is_canonical_role(r: RoleModel) -> bool {
    match r {
        RoleModel::Custom(s) => role_of_name(s) == RoleModel::Custom(s),
        _ => true,
    }
}

impl Role {
    pub fn to_string(&self) -> (r: String)
        ensures
            r@ == role_name(self@),
    {
        match self {
            Role::Read => String::from_str("read"),
            Role::Triage => String::from_str("triage"),
            Role::Write => String::from_str("write"),
            Role::Maintain => String::from_str("maintain"),
            Role::Admin => String::from_str("admin"),
            Role::Custom(s) => s.clone(),
        }
    }

    pub fn from_str(s: &str) -> (r: Role)
        ensures
            r@ == role_of_name(s@),
    {
        if str_eq(s, "read") {
            Role::Read
        } else if str_eq(s, "triage") {
            Role::Triage
        } else if str_eq(s, "write") {
            Role::Write
        } else if str_eq(s, "maintain") {
            Role::Maintain
        } else if str_eq(s, "admin") {
            Role::Admin
        } else {
            Role::Custom(String::from_str(s))
        }
    }

    /// A copy of this role.
    pub fn duplicate(&self) -> (r: Role)
        ensures
            r@ == self@,
    {
        match self {
            Role::Read => Role::Read,
            Role::Triage => Role::Triage,
            Role::Write => Role::Write,
            Role::Maintain => Role::Maintain,
            Role::Admin => Role::Admin,
            Role::Custom(s) => Role::Custom(s.clone()),
        }
    }

    /// Whether two roles are the same.
    pub fn same(&self, other: &Role) -> (r: bool)
        ensures
            r == (self@ == other@),
    {
        match (self, other) {
            (Role::Read, Role::Read) => true,
            (Role::Triage, Role::Triage) => true,
            (Role::Write, Role::Write) => true,
            (Role::Maintain, Role::Maintain) => true,
            (Role::Admin, Role::Admin) => true,
            (Role::Custom(a), Role::Custom(b)) => str_eq(a.as_str(), b.as_str()),
            _ => false,
        }
    }
}

/// Reading back the name of any permission string gives that string.
pub proof fn lemma_role_name_round_trip(s: Seq<char>)
    ensures
        role_name(role_of_name(s)) == s,
{
}

/// A role read back from its own name is the same role, unless it is a
/// custom role that carries a built-in name.
pub proof fn lemma_role_round_trip(r: RoleModel)
    requires
        is_canonical_role(r),
    ensures
        role_of_name(role_name(r)) == r,
{
    reveal_strlit("read");
    reveal_strlit("triage");
    reveal_strlit("write");
    reveal_strlit("maintain");
    reveal_strlit("admin");
    assert("read"@.len() == 4 && "read"@[0] == 'r');
    assert("triage"@.len() == 6 && "triage"@[0] == 't');
    assert("write"@.len() == 5 && "write"@[0] == 'w');
    assert("maintain"@.len() == 8);
    assert("admin"@.len() == 5 && "admin"@[0] == 'a');
}


/// A principal that can be granted collaborator access to a repository.
#[derive(Clone, Debug)]
pub enum CollaboratorPrincipal {
    /// A GitHub user account by username
    User(String),
    /// A GitHub team by slug/name
    Team(String),
}

/// The mathematical value of a [`CollaboratorPrincipal`].
pub enum PrincipalModel {
    User(Seq<char>),
    Team(Seq<char>),
}

impl View for CollaboratorPrincipal {
    type V = PrincipalModel;

    open spec fn view(&self) -> PrincipalModel {
        match self {
            CollaboratorPrincipal::User(s) => PrincipalModel::User(s@),
            CollaboratorPrincipal::Team(s) => PrincipalModel::Team(s@),
        }
    }
}

/// The order in which principals are listed: users before teams, each by name.
pub open spec fn principal_lt(a: PrincipalModel, b: PrincipalModel) -> bool {
    match (a, b) {
        (PrincipalModel::User(x), PrincipalModel::User(y)) => chars_lt(x, y),
        (PrincipalModel::Team(x), PrincipalModel::Team(y)) => chars_lt(x, y),
        (PrincipalModel::User(_), PrincipalModel::Team(_)) => true,
        (PrincipalModel::Team(_), PrincipalModel::User(_)) => false,
    }
}

pub proof fn lemma_principal_lt_irreflexive(a: PrincipalModel)
    ensures
        !principal_lt(a, a),
{
    match a {
        PrincipalModel::User(x) => lemma_chars_lt_irreflexive(x),
        PrincipalModel::Team(x) => lemma_chars_lt_irreflexive(x),
    }
}

pub proof fn lemma_principal_lt_trichotomy(a: PrincipalModel, b: PrincipalModel)
    ensures
        a == b || principal_lt(a, b) || principal_lt(b, a),
        !(principal_lt(a, b) && principal_lt(b, a)),
{
    match (a, b) {
        (PrincipalModel::User(x), PrincipalModel::User(y)) => lemma_chars_lt_trichotomy(x, y),
        (PrincipalModel::Team(x), PrincipalModel::Team(y)) => lemma_chars_lt_trichotomy(x, y),
        _ => {},
    }
}

pub proof fn lemma_principal_lt_transitive(a: PrincipalModel, b: PrincipalModel, c: PrincipalModel)
    requires
        principal_lt(a, b),
        principal_lt(b, c),
    ensures
        principal_lt(a, c),
{
    match (a, b, c) {
        (PrincipalModel::User(x), PrincipalModel::User(y), PrincipalModel::User(z)) =>
            lemma_chars_lt_transitive(x, y, z),
        (PrincipalModel::Team(x), PrincipalModel::Team(y), PrincipalModel::Team(z)) =>
            lemma_chars_lt_transitive(x, y, z),
        _ => {},
    }
}

impl CollaboratorPrincipal {
    /// A copy of this principal.
    pub fn duplicate(&self) -> (r: CollaboratorPrincipal)
        ensures
            r@ == self@,
    {
        match self {
            CollaboratorPrincipal::User(s) => CollaboratorPrincipal::User(s.clone()),
            CollaboratorPrincipal::Team(s) => CollaboratorPrincipal::Team(s.clone()),
        }
    }

    /// Three-way comparison in `principal_lt` order: negative, zero or positive.
    pub fn compare(&self, other: &CollaboratorPrincipal) -> (r: i8)
        ensures
            (r < 0) == principal_lt(self@, other@),
            (r == 0) == (self@ == other@),
            (r > 0) == principal_lt(other@, self@),
    {
        match (self, other) {
            (CollaboratorPrincipal::User(x), CollaboratorPrincipal::User(y)) => str_cmp(
                x.as_str(),
                y.as_str(),
            ),
            (CollaboratorPrincipal::Team(x), CollaboratorPrincipal::Team(y)) => str_cmp(
                x.as_str(),
                y.as_str(),
            ),
            (CollaboratorPrincipal::User(_), CollaboratorPrincipal::Team(_)) => -1,
            (CollaboratorPrincipal::Team(_), CollaboratorPrincipal::User(_)) => 1,
        }
    }

    /// A one-line rendering for descriptions, such as `User("alice")`.
    pub fn describe(&self) -> (r: String)
        ensures
            r@ == principal_text(self@),
    {
        let mut r = String::new();
        match self {
            CollaboratorPrincipal::User(s) => {
                r.append("User(\"");
                r.append(s.as_str());
            },
            CollaboratorPrincipal::Team(s) => {
                r.append("Team(\"");
                r.append(s.as_str());
            },
        }
        r.append("\")");
        r
    }
}

/// The rendering of a principal in descriptions.
pub open spec fn principal_text(p: PrincipalModel) -> Seq<char> {
    match p {
        PrincipalModel::User(s) => "User(\""@ + s + "\")"@,
        PrincipalModel::Team(s) => "Team(\""@ + s + "\")"@,
    }
}

/// The rendering of a role in descriptions: its variant name, with the
/// name of a custom role in quotes.
pub open spec fn role_text(r: RoleModel) -> Seq<char> {
    match r {
        RoleModel::Read => "Read"@,
        RoleModel::Triage => "Triage"@,
        RoleModel::Write => "Write"@,
        RoleModel::Maintain => "Maintain"@,
        RoleModel::Admin => "Admin"@,
        RoleModel::Custom(s) => "Custom(\""@ + s + "\")"@,
    }
}

impl Role {
    /// A one-line rendering for descriptions, such as `Write`.
    pub fn describe(&self) -> (r: String)
        ensures
            r@ == role_text(self@),
    {
        match self {
            Role::Read => String::from_str("Read"),
            Role::Triage => String::from_str("Triage"),
            Role::Write => String::from_str("Write"),
            Role::Maintain => String::from_str("Maintain"),
            Role::Admin => String::from_str("Admin"),
            Role::Custom(s) => {
                let mut r = String::from_str("Custom(\"");
                r.append(s.as_str());
                r.append("\")");
                r
            },
        }
    }
}

/// A GitHub repository with its configuration settings.
#[derive(Debug)]
pub struct GitHubRepository {
    /// A short description of the repository
    pub description: Option<String>,
    /// A URL with more information about the repository
    pub homepage: Option<String>,
    /// An array of topics to help categorize the repository
    pub topics: Vec<String>,
    /// Whether the repository is private. If false, the repository is public
    pub private: bool,
    /// Whether issues are enabled for the repository
    pub has_issues: bool,
    /// Whether projects are enabled for the repository
    pub has_projects: bool,
    /// Whether the wiki is enabled for the repository
    pub has_wiki: bool,
    /// Whether to allow squash merges for pull requests
    pub allow_squash_merge: bool,
    /// Whether to allow merge commits for pull requests
    pub allow_merge_commit: bool,
    /// Whether to allow rebase merges for pull requests
    pub allow_rebase_merge: bool,
    /// Whether to allow auto-merge on pull requests
    pub allow_auto_merge: bool,
    /// Whether to delete head branches when pull requests are merged
    pub delete_branch_on_merge: bool,
    /// The default branch for the repository (e.g., "main" or "master")
    pub default_branch: String,
    /// Whether the repository is archived and read-only
    pub archived: bool,
    /// Whether the repository is disabled
    pub disabled: bool,
    /// Collaborators (users or teams) and their permission roles
    pub collaborators: Collaborators,
}

/// The mathematical value of a [`GitHubRepository`].
pub struct RepositoryModel {
    pub description: Option<Seq<char>>,
    pub homepage: Option<Seq<char>>,
    pub topics: Seq<Seq<char>>,
    pub private: bool,
    pub has_issues: bool,
    pub has_projects: bool,
    pub has_wiki: bool,
    pub allow_squash_merge: bool,
    pub allow_merge_commit: bool,
    pub allow_rebase_merge: bool,
    pub allow_auto_merge: bool,
    pub delete_branch_on_merge: bool,
    pub default_branch: Seq<char>,
    pub archived: bool,
    pub disabled: bool,
    pub collaborators: Map<PrincipalModel, RoleModel>,
}

impl View for GitHubRepository {
    type V = RepositoryModel;

    open spec fn view(&self) -> RepositoryModel {
        RepositoryModel {
            description: opt_view(self.description),
            homepage: opt_view(self.homepage),
            topics: strings_view(self.topics@),
            private: self.private,
            has_issues: self.has_issues,
            has_projects: self.has_projects,
            has_wiki: self.has_wiki,
            allow_squash_merge: self.allow_squash_merge,
            allow_merge_commit: self.allow_merge_commit,
            allow_rebase_merge: self.allow_rebase_merge,
            allow_auto_merge: self.allow_auto_merge,
            delete_branch_on_merge: self.delete_branch_on_merge,
            default_branch: self.default_branch@,
            archived: self.archived,
            disabled: self.disabled,
            collaborators: self.collaborators@,
        }
    }
}

/// The settings of a repository apart from its collaborators.
pub open spec fn without_collaborators(r: RepositoryModel) -> RepositoryModel {
    RepositoryModel { collaborators: Map::empty(), ..r }
}

/// Whether each setting of a repository, collaborators apart, differs
/// between two bodies, in the order of [`repository_field_names`].
pub open spec fn repository_field_changes(a: RepositoryModel, b: RepositoryModel) -> Seq<bool> {
    seq![
        a.description != b.description,
        a.homepage != b.homepage,
        a.topics != b.topics,
        a.private != b.private,
        a.has_issues != b.has_issues,
        a.has_projects != b.has_projects,
        a.has_wiki != b.has_wiki,
        a.allow_squash_merge != b.allow_squash_merge,
        a.allow_merge_commit != b.allow_merge_commit,
        a.allow_rebase_merge != b.allow_rebase_merge,
        a.allow_auto_merge != b.allow_auto_merge,
        a.delete_branch_on_merge != b.delete_branch_on_merge,
        a.default_branch != b.default_branch,
        a.archived != b.archived,
        a.disabled != b.disabled,
    ]
}

/// The names of a repository's settings, collaborators apart.
pub open spec fn repository_field_names() -> Seq<Seq<char>> {
    seq![
        "description"@,
        "homepage"@,
        "topics"@,
        "private"@,
        "has_issues"@,
        "has_projects"@,
        "has_wiki"@,
        "allow_squash_merge"@,
        "allow_merge_commit"@,
        "allow_rebase_merge"@,
        "allow_auto_merge"@,
        "delete_branch_on_merge"@,
        "default_branch"@,
        "archived"@,
        "disabled"@,
    ]
}

impl GitHubRepository {
    /// Whether two repository bodies denote the same state, field by field;
    /// collaborators compare as mappings, whatever the order they were added in.
    pub fn same(&self, other: &GitHubRepository) -> (r: bool)
        ensures
            r == (self@ == other@),
    {
        let c = self.collaborators.same(&other.collaborators);
        let s = self.same_settings(other);
        c && s
    }

    /// Whether two repository bodies agree on every setting but collaborators.
    pub fn same_settings(&self, other: &GitHubRepository) -> (r: bool)
        ensures
            r == (without_collaborators(self@) == without_collaborators(other@)),
    {
        let flags = self.changed_settings(other);
        let mut i: usize = 0;
        while i < flags.len()
            invariant
                flags@ == repository_field_changes(self@, other@),
                i <= flags@.len(),
                forall|k: int| 0 <= k < i ==> !flags@[k],
            decreases flags@.len() - i,
        {
            if flags[i] {
                return false;
            }
            i = i + 1;
        }
        assert(flags@.len() == 15);
        assert(!flags@[0] && !flags@[1] && !flags@[2] && !flags@[3] && !flags@[4]);
        assert(!flags@[5] && !flags@[6] && !flags@[7] && !flags@[8] && !flags@[9]);
        assert(!flags@[10] && !flags@[11] && !flags@[12] && !flags@[13] && !flags@[14]);
        true
    }

    /// For each setting but collaborators, whether it differs between the two bodies.
    pub fn changed_settings(&self, other: &GitHubRepository) -> (r: Vec<bool>)
        ensures
            r@ == repository_field_changes(self@, other@),
    {
        let v = vec![
            !opt_eq(&self.description, &other.description),
            !opt_eq(&self.homepage, &other.homepage),
            !strings_eq(&self.topics, &other.topics),
            self.private != other.private,
            self.has_issues != other.has_issues,
            self.has_projects != other.has_projects,
            self.has_wiki != other.has_wiki,
            self.allow_squash_merge != other.allow_squash_merge,
            self.allow_merge_commit != other.allow_merge_commit,
            self.allow_rebase_merge != other.allow_rebase_merge,
            self.allow_auto_merge != other.allow_auto_merge,
            self.delete_branch_on_merge != other.delete_branch_on_merge,
            !str_eq(self.default_branch.as_str(), other.default_branch.as_str()),
            self.archived != other.archived,
            self.disabled != other.disabled,
        ];
        assert(v@ =~= repository_field_changes(self@, other@));
        v
    }

    /// A copy of this body with another set of collaborators.
    pub fn with_collaborators(&self, collaborators: Collaborators) -> (r: GitHubRepository)
        ensures
            r@ == (RepositoryModel { collaborators: collaborators@, ..self@ }),
    {
        GitHubRepository {
            description: copy_opt(&self.description),
            homepage: copy_opt(&self.homepage),
            topics: copy_strings(&self.topics),
            private: self.private,
            has_issues: self.has_issues,
            has_projects: self.has_projects,
            has_wiki: self.has_wiki,
            allow_squash_merge: self.allow_squash_merge,
            allow_merge_commit: self.allow_merge_commit,
            allow_rebase_merge: self.allow_rebase_merge,
            allow_auto_merge: self.allow_auto_merge,
            delete_branch_on_merge: self.delete_branch_on_merge,
            default_branch: copy_string(&self.default_branch),
            archived: self.archived,
            disabled: self.disabled,
            collaborators,
        }
    }
}

impl Default for GitHubRepository {
    /// A private repository with issues, projects, wiki and all three merge
    /// methods on, auto-merge and branch deletion off, default branch `main`,
    /// neither archived nor disabled, and no description, homepage, topics or
    /// collaborators.
    fn default() -> (r: GitHubRepository)
        ensures
            r@ == default_repository(),
    {
        let r = GitHubRepository {
            description: None,
            homepage: None,
            topics: Vec::new(),
            private: true,
            has_issues: true,
            has_projects: true,
            has_wiki: true,
            allow_squash_merge: true,
            allow_merge_commit: true,
            allow_rebase_merge: true,
            allow_auto_merge: false,
            delete_branch_on_merge: false,
            default_branch: String::from_str("main"),
            archived: false,
            disabled: false,
            collaborators: Collaborators::new(),
        };
        assert(r@.topics =~= Seq::<Seq<char>>::empty());
        r
    }
}

/// The value that a repository setting takes where a body leaves it out.
pub open spec fn default_repository() -> RepositoryModel {
    RepositoryModel {
        description: None,
        homepage: None,
        topics: Seq::empty(),
        private: true,
        has_issues: true,
        has_projects: true,
        has_wiki: true,
        allow_squash_merge: true,
        allow_merge_commit: true,
        allow_rebase_merge: true,
        allow_auto_merge: false,
        delete_branch_on_merge: false,
        default_branch: "main"@,
        archived: false,
        disabled: false,
        collaborators: Map::empty(),
    }
}

/// Required status checks that must pass before merging a pull request.
#[derive(Debug)]
pub struct RequiredStatusChecks {
    /// Whether to require branches to be up to date before merging
    pub strict: bool,
    /// The list of status checks that must pass before branches can be merged
    pub contexts: Vec<String>,
}

/// The mathematical value of [`RequiredStatusChecks`].
pub struct StatusChecksModel {
    pub strict: bool,
    pub contexts: Seq<Seq<char>>,
}

impl View for RequiredStatusChecks {
    type V = StatusChecksModel;

    open spec fn view(&self) -> StatusChecksModel {
        StatusChecksModel { strict: self.strict, contexts: strings_view(self.contexts@) }
    }
}

/// Pull request review enforcement settings for branch protection.
#[derive(Clone, Copy, Debug, PartialEq, Eq, Structural)]
pub struct PullRequestReviewEnforcement {
    /// The number of approving reviews required before a pull request can be merged
    pub required_approving_review_count: u32,
    /// Whether to dismiss approving reviews when new commits are pushed
    pub dismiss_stale_reviews: bool,
    /// Whether to require review from code owners
    pub require_code_owner_reviews: bool,
    /// Whether to require approval of the most recent reviewable push
    pub require_last_push_approval: bool,
}

/// Restrictions on who can push to a protected branch.
#[derive(Debug)]
pub struct BranchRestrictions {
    /// Users allowed to push to the branch
    pub users: Vec<String>,
    /// Teams allowed to push to the branch
    pub teams: Vec<String>,
    /// GitHub Apps allowed to push to the branch
    pub apps: Vec<String>,
}

/// The mathematical value of [`BranchRestrictions`].
pub struct RestrictionsModel {
    pub users: Seq<Seq<char>>,
    pub teams: Seq<Seq<char>>,
    pub apps: Seq<Seq<char>>,
}

impl View for BranchRestrictions {
    type V = RestrictionsModel;

    open spec fn view(&self) -> RestrictionsModel {
        RestrictionsModel {
            users: strings_view(self.users@),
            teams: strings_view(self.teams@),
            apps: strings_view(self.apps@),
        }
    }
}

/// Branch protection rules that control how a branch can be modified.
#[derive(Debug)]
pub struct BranchProtection {
    /// Status checks that must pass before merging
    pub required_status_checks: Option<RequiredStatusChecks>,
    /// Whether to enforce all configured restrictions for administrators
    pub enforce_admins: bool,
    /// Pull request review requirements
    pub required_pull_request_reviews: Option<PullRequestReviewEnforcement>,
    /// Restrictions on who can push to the branch
    pub restrictions: Option<BranchRestrictions>,
    /// Whether to require a linear commit history (no merge commits)
    pub required_linear_history: bool,
    /// Whether to allow force pushes to the branch
    pub allow_force_pushes: bool,
    /// Whether to allow branch deletions
    pub allow_deletions: bool,
    /// Whether to block creation of matching branches
    pub block_creations: bool,
    /// Whether to require all conversations on code to be resolved before merging
    pub required_conversation_resolution: bool,
    /// Whether to lock the branch, making it read-only
    pub lock_branch: bool,
    /// Whether to allow users with push access to sync from upstream forks
    pub allow_fork_syncing: bool,
}

/// The mathematical value of a [`BranchProtection`].
pub struct ProtectionModel {
    pub required_status_checks: Option<StatusChecksModel>,
    pub enforce_admins: bool,
    pub required_pull_request_reviews: Option<PullRequestReviewEnforcement>,
    pub restrictions: Option<RestrictionsModel>,
    pub required_linear_history: bool,
    pub allow_force_pushes: bool,
    pub allow_deletions: bool,
    pub block_creations: bool,
    pub required_conversation_resolution: bool,
    pub lock_branch: bool,
    pub allow_fork_syncing: bool,
}

impl View for BranchProtection {
    type V = ProtectionModel;

    open spec fn view(&self) -> ProtectionModel {
        ProtectionModel {
            required_status_checks: match self.required_status_checks {
                Some(c) => Some(c@),
                None => None,
            },
            enforce_admins: self.enforce_admins,
            required_pull_request_reviews: self.required_pull_request_reviews,
            restrictions: match self.restrictions {
                Some(x) => Some(x@),
                None => None,
            },
            required_linear_history: self.required_linear_history,
            allow_force_pushes: self.allow_force_pushes,
            allow_deletions: self.allow_deletions,
            block_creations: self.block_creations,
            required_conversation_resolution: self.required_conversation_resolution,
            lock_branch: self.lock_branch,
            allow_fork_syncing: self.allow_fork_syncing,
        }
    }
}

/// Whether each rule differs between two protection bodies, in the order of
/// [`protection_field_names`].
pub open spec fn protection_field_changes(a: ProtectionModel, b: ProtectionModel) -> Seq<bool> {
    seq![
        a.required_status_checks != b.required_status_checks,
        a.enforce_admins != b.enforce_admins,
        a.required_pull_request_reviews != b.required_pull_request_reviews,
        a.restrictions != b.restrictions,
        a.required_linear_history != b.required_linear_history,
        a.allow_force_pushes != b.allow_force_pushes,
        a.allow_deletions != b.allow_deletions,
        a.block_creations != b.block_creations,
        a.required_conversation_resolution != b.required_conversation_resolution,
        a.lock_branch != b.lock_branch,
        a.allow_fork_syncing != b.allow_fork_syncing,
    ]
}

/// The names of a protection body's rules.
pub open spec fn protection_field_names() -> Seq<Seq<char>> {
    seq![
        "required_status_checks"@,
        "enforce_admins"@,
        "required_pull_request_reviews"@,
        "restrictions"@,
        "required_linear_history"@,
        "allow_force_pushes"@,
        "allow_deletions"@,
        "block_creations"@,
        "required_conversation_resolution"@,
        "lock_branch"@,
        "allow_fork_syncing"@,
    ]
}

fn same_checks(a: &Option<RequiredStatusChecks>, b: &Option<RequiredStatusChecks>) -> (r: bool)
    ensures
        r == ((match *a {
            Some(c) => Some(c@),
            None => None,
        }) == (match *b {
            Some(c) => Some(c@),
            None => None,
        })),
{
    match (a, b) {
        (Some(x), Some(y)) => x.strict == y.strict && strings_eq(&x.contexts, &y.contexts),
        (None, None) => true,
        _ => false,
    }
}

fn same_restrictions(a: &Option<BranchRestrictions>, b: &Option<BranchRestrictions>) -> (r: bool)
    ensures
        r == ((match *a {
            Some(x) => Some(x@),
            None => None,
        }) == (match *b {
            Some(x) => Some(x@),
            None => None,
        })),
{
    match (a, b) {
        (Some(x), Some(y)) => strings_eq(&x.users, &y.users) && strings_eq(&x.teams, &y.teams)
            && strings_eq(&x.apps, &y.apps),
        (None, None) => true,
        _ => false,
    }
}

impl RequiredStatusChecks {
    /// A copy of these checks.
    pub fn duplicate(&self) -> (r: RequiredStatusChecks)
        ensures
            r@ == self@,
    {
        RequiredStatusChecks { strict: self.strict, contexts: copy_strings(&self.contexts) }
    }
}

impl BranchRestrictions {
    /// A copy of these restrictions.
    pub fn duplicate(&self) -> (r: BranchRestrictions)
        ensures
            r@ == self@,
    {
        BranchRestrictions {
            users: copy_strings(&self.users),
            teams: copy_strings(&self.teams),
            apps: copy_strings(&self.apps),
        }
    }
}

impl BranchProtection {
    /// Whether two protection bodies denote the same rules, field by field.
    pub fn same(&self, other: &BranchProtection) -> (r: bool)
        ensures
            r == (self@ == other@),
    {
        let flags = self.changed_rules(other);
        let mut i: usize = 0;
        while i < flags.len()
            invariant
                flags@ == protection_field_changes(self@, other@),
                i <= flags@.len(),
                forall|k: int| 0 <= k < i ==> !flags@[k],
            decreases flags@.len() - i,
        {
            if flags[i] {
                return false;
            }
            i = i + 1;
        }
        assert(flags@.len() == 11);
        assert(!flags@[0] && !flags@[1] && !flags@[2] && !flags@[3] && !flags@[4]);
        assert(!flags@[5] && !flags@[6] && !flags@[7] && !flags@[8] && !flags@[9]);
        assert(!flags@[10]);
        true
    }

    /// For each rule, whether it differs between the two bodies.
    pub fn changed_rules(&self, other: &BranchProtection) -> (r: Vec<bool>)
        ensures
            r@ == protection_field_changes(self@, other@),
    {
        let v = vec![
            !same_checks(&self.required_status_checks, &other.required_status_checks),
            self.enforce_admins != other.enforce_admins,
            self.required_pull_request_reviews != other.required_pull_request_reviews,
            !same_restrictions(&self.restrictions, &other.restrictions),
            self.required_linear_history != other.required_linear_history,
            self.allow_force_pushes != other.allow_force_pushes,
            self.allow_deletions != other.allow_deletions,
            self.block_creations != other.block_creations,
            self.required_conversation_resolution != other.required_conversation_resolution,
            self.lock_branch != other.lock_branch,
            self.allow_fork_syncing != other.allow_fork_syncing,
        ];
        assert(v@ =~= protection_field_changes(self@, other@));
        v
    }

    /// A copy of this body.
    pub fn duplicate(&self) -> (r: BranchProtection)
        ensures
            r@ == self@,
    {
        BranchProtection {
            required_status_checks: match &self.required_status_checks {
                Some(c) => Some(c.duplicate()),
                None => None,
            },
            enforce_admins: self.enforce_admins,
            required_pull_request_reviews: self.required_pull_request_reviews,
            restrictions: match &self.restrictions {
                Some(x) => Some(x.duplicate()),
                None => None,
            },
            required_linear_history: self.required_linear_history,
            allow_force_pushes: self.allow_force_pushes,
            allow_deletions: self.allow_deletions,
            block_creations: self.block_creations,
            required_conversation_resolution: self.required_conversation_resolution,
            lock_branch: self.lock_branch,
            allow_fork_syncing: self.allow_fork_syncing,
        }
    }
}

/// A decoded resource body.
#[derive(Debug)]
pub enum GitHubResource {
    Repository(GitHubRepository),
    BranchProtection(BranchProtection),
}

/// The mathematical value of a [`GitHubResource`].
pub enum ResourceModel {
    Repository(RepositoryModel),
    BranchProtection(ProtectionModel),
}

impl View for GitHubResource {
    type V = ResourceModel;

    open spec fn view(&self) -> ResourceModel {
        match self {
            GitHubResource::Repository(r) => ResourceModel::Repository(r@),
            GitHubResource::BranchProtection(p) => ResourceModel::BranchProtection(p@),
        }
    }
}

impl GitHubResource {
    /// Whether two bodies denote the same resource state: the same kind, and
    /// equal field by field.
    pub fn same(&self, other: &GitHubResource) -> (r: bool)
        ensures
            r == (self@ == other@),
    {
        match (self, other) {
            (GitHubResource::Repository(a), GitHubResource::Repository(b)) => a.same(b),
            (GitHubResource::BranchProtection(a), GitHubResource::BranchProtection(b)) => a.same(b),
            _ => false,
        }
    }
}

} // verus!
