//! The shapes of the remote API's requests and responses, and the mapping
//! between them and resource bodies.

use vstd::prelude::*;
use vstd::string::*;

use crate::collab::Collaborators;
use crate::resource::{
    default_repository, BranchProtection, BranchRestrictions, CollaboratorPrincipal,
    GitHubRepository, PrincipalModel, PullRequestReviewEnforcement, RepositoryModel,
    RequiredStatusChecks, Role, RoleModel, role_of_name,
};
use crate::text::{copy_opt, copy_string, copy_strings, opt_view, strings_view};

verus! {

/// Branch protection as the remote API reports it.
#[derive(Debug)]
pub struct GitHubBranchProtection {
    pub required_status_checks: Option<GitHubRequiredStatusChecks>,
    pub enforce_admins: GitHubEnforceAdmins,
    pub required_pull_request_reviews: Option<GitHubPullRequestReviewEnforcement>,
    pub restrictions: Option<GitHubBranchRestrictions>,
    pub required_linear_history: Option<GitHubBooleanSetting>,
    pub allow_force_pushes: Option<GitHubBooleanSetting>,
    pub allow_deletions: Option<GitHubBooleanSetting>,
    pub block_creations: Option<GitHubBooleanSetting>,
    pub required_conversation_resolution: Option<GitHubBooleanSetting>,
    pub lock_branch: Option<GitHubBooleanSetting>,
    pub allow_fork_syncing: Option<GitHubBooleanSetting>,
}

/// Required status checks as the remote API reports and accepts them.
#[derive(Debug)]
pub struct GitHubRequiredStatusChecks {
    pub strict: bool,
    pub contexts: Vec<String>,
}

/// Whether protection applies to administrators too, as the remote API reports it.
#[derive(Clone, Copy, Debug)]
pub struct GitHubEnforceAdmins {
    pub enabled: bool,
}

/// Review requirements as the remote API reports and accepts them; any may be absent.
#[derive(Clone, Copy, Debug)]
pub struct GitHubPullRequestReviewEnforcement {
    pub required_approving_review_count: Option<u32>,
    pub dismiss_stale_reviews: Option<bool>,
    pub require_code_owner_reviews: Option<bool>,
    pub require_last_push_approval: Option<bool>,
}

/// Who may push to a protected branch, as the remote API reports and accepts it.
#[derive(Debug)]
pub struct GitHubBranchRestrictions {
    pub users: Vec<GitHubUser>,
    pub teams: Vec<GitHubTeam>,
    pub apps: Vec<GitHubApp>,
}

/// A user by login.
#[derive(Debug)]
pub struct GitHubUser {
    pub login: String,
}

/// A team by name.
#[derive(Debug)]
pub struct GitHubTeam {
    pub name: String,
}

/// A GitHub App by name.
#[derive(Debug)]
pub struct GitHubApp {
    pub name: String,
}

/// A protection rule that is only switched on or off.
#[derive(Clone, Copy, Debug)]
pub struct GitHubBooleanSetting {
    pub enabled: bool,
}

/// The permissions of a collaborator as the remote API reports them.
#[derive(Clone, Copy, Debug)]
pub struct GitHubCollaboratorPermissions {
    pub pull: bool,
    pub triage: bool,
    pub push: bool,
    pub maintain: bool,
    pub admin: bool,
}

/// A collaborator's permissions and role name, as the remote API reports them.
#[derive(Debug)]
pub struct GitHubCollaborator {
    pub permissions: GitHubCollaboratorPermissions,
    pub role_name: String,
}

/// A branch of a repository, as listed by the remote API.
#[derive(Debug)]
pub struct GitHubBranch {
    pub name: String,
    pub protected: bool,
}

/// A collaborator of a repository, as listed by the remote API.
#[derive(Debug)]
pub struct GitHubCollaboratorInfo {
    pub login: String,
    pub role_name: String,
}

/// The settings of a repository that the remote API reports and that a
/// repository body holds; absent where the API leaves them out.
#[derive(Debug)]
pub struct RemoteRepository {
    pub description: Option<String>,
    pub homepage: Option<String>,
    pub topics: Option<Vec<String>>,
    pub private: Option<bool>,
    pub has_issues: Option<bool>,
    pub has_projects: Option<bool>,
    pub has_wiki: Option<bool>,
    pub allow_squash_merge: Option<bool>,
    pub allow_merge_commit: Option<bool>,
    pub allow_rebase_merge: Option<bool>,
    pub allow_auto_merge: Option<bool>,
    pub delete_branch_on_merge: Option<bool>,
    pub default_branch: Option<String>,
    pub archived: Option<bool>,
    pub disabled: Option<bool>,
}

/// The request that creates a repository.
#[derive(Debug)]
pub struct CreateRepositoryRequest {
    pub name: String,
    pub description: Option<String>,
    pub homepage: Option<String>,
    pub private: bool,
    pub has_issues: bool,
    pub has_projects: bool,
    pub has_wiki: bool,
    pub allow_squash_merge: bool,
    pub allow_merge_commit: bool,
    pub allow_rebase_merge: bool,
    pub allow_auto_merge: bool,
    pub delete_branch_on_merge: bool,
    pub default_branch: Option<String>,
}

/// The request that patches a repository's settings.
#[derive(Debug)]
pub struct UpdateRepositoryRequest {
    pub name: Option<String>,
    pub description: Option<String>,
    pub homepage: Option<String>,
    pub private: Option<bool>,
    pub has_issues: Option<bool>,
    pub has_projects: Option<bool>,
    pub has_wiki: Option<bool>,
    pub allow_squash_merge: Option<bool>,
    pub allow_merge_commit: Option<bool>,
    pub allow_rebase_merge: Option<bool>,
    pub allow_auto_merge: Option<bool>,
    pub delete_branch_on_merge: Option<bool>,
    pub default_branch: Option<String>,
    pub archived: Option<bool>,
}

/// The request that sets a branch's protection rules.
#[derive(Debug)]
pub struct CreateBranchProtectionRequest {
    pub required_status_checks: Option<GitHubRequiredStatusChecks>,
    pub enforce_admins: bool,
    pub required_pull_request_reviews: Option<GitHubPullRequestReviewEnforcement>,
    pub restrictions: Option<GitHubBranchRestrictions>,
    pub required_linear_history: Option<bool>,
    pub allow_force_pushes: Option<bool>,
    pub allow_deletions: Option<bool>,
    pub block_creations: Option<bool>,
    pub required_conversation_resolution: Option<bool>,
    pub lock_branch: Option<bool>,
    pub allow_fork_syncing: Option<bool>,
}

/// The request that grants a user a permission on a repository.
#[derive(Debug)]
pub struct AddCollaboratorRequest {
    pub permission: String,
}

/// The request that grants a team a permission on a repository.
#[derive(Debug)]
pub struct AddTeamCollaboratorRequest {
    pub permission: String,
}

/// A boolean that the API may leave out, with the value it then takes.
pub open spec fn or_default(o: Option<bool>, d: bool) -> bool {
    match o {
        Some(b) => b,
        None => d,
    }
}

/// A boolean setting that the API may leave out, with the value it then takes.
pub open spec fn setting_or(o: Option<GitHubBooleanSetting>, d: bool) -> bool {
    match o {
        Some(s) => s.enabled,
        None => d,
    }
}

/// The logins of a list of users.
pub open spec fn user_logins(v: Seq<GitHubUser>) -> Seq<Seq<char>> {
    v.map_values(|u: GitHubUser| u.login@)
}

/// The names of a list of teams.
pub open spec fn team_names(v: Seq<GitHubTeam>) -> Seq<Seq<char>> {
    v.map_values(|t: GitHubTeam| t.name@)
}

/// The names of a list of apps.
pub open spec fn app_names(v: Seq<GitHubApp>) -> Seq<Seq<char>> {
    v.map_values(|a: GitHubApp| a.name@)
}

/// The repository body that the API's report of a repository and its
/// collaborators describes; each setting the report leaves out takes the
/// value of the default body.
pub open spec fn repository_of_remote(
    r: RemoteRepository,
    collaborators: Map<PrincipalModel, RoleModel>,
) -> RepositoryModel {
    let d = default_repository();
    RepositoryModel {
        description: opt_view(r.description),
        homepage: opt_view(r.homepage),
        topics: match r.topics {
            Some(t) => strings_view(t@),
            None => Seq::empty(),
        },
        private: or_default(r.private, false),
        has_issues: or_default(r.has_issues, d.has_issues),
        has_projects: or_default(r.has_projects, d.has_projects),
        has_wiki: or_default(r.has_wiki, d.has_wiki),
        allow_squash_merge: or_default(r.allow_squash_merge, d.allow_squash_merge),
        allow_merge_commit: or_default(r.allow_merge_commit, d.allow_merge_commit),
        allow_rebase_merge: or_default(r.allow_rebase_merge, d.allow_rebase_merge),
        allow_auto_merge: or_default(r.allow_auto_merge, d.allow_auto_merge),
        delete_branch_on_merge: or_default(r.delete_branch_on_merge, d.delete_branch_on_merge),
        default_branch: match r.default_branch {
            Some(b) => b@,
            None => d.default_branch,
        },
        archived: or_default(r.archived, d.archived),
        disabled: or_default(r.disabled, d.disabled),
        collaborators,
    }
}

fn bool_or(o: Option<bool>, d: bool) -> (r: bool)
    ensures
        r == or_default(o, d),
{
    match o {
        Some(b) => b,
        None => d,
    }
}

fn enabled_or(o: &Option<GitHubBooleanSetting>, d: bool) -> (r: bool)
    ensures
        r == setting_or(*o, d),
{
    match o {
        Some(s) => s.enabled,
        None => d,
    }
}

impl GitHubRepository {
    /// The repository body that the API's report and the listed collaborators describe.
    pub fn from_remote(r: RemoteRepository, collaborators: Collaborators) -> (b: GitHubRepository)
        ensures
            b@ == repository_of_remote(r, collaborators@),
    {
        let topics = match r.topics {
            Some(t) => t,
            None => Vec::new(),
        };
        let default_branch = match r.default_branch {
            Some(b) => b,
            None => String::from_str("main"),
        };
        let b = GitHubRepository {
            description: r.description,
            homepage: r.homepage,
            topics,
            private: bool_or(r.private, false),
            has_issues: bool_or(r.has_issues, true),
            has_projects: bool_or(r.has_projects, true),
            has_wiki: bool_or(r.has_wiki, true),
            allow_squash_merge: bool_or(r.allow_squash_merge, true),
            allow_merge_commit: bool_or(r.allow_merge_commit, true),
            allow_rebase_merge: bool_or(r.allow_rebase_merge, true),
            allow_auto_merge: bool_or(r.allow_auto_merge, false),
            delete_branch_on_merge: bool_or(r.delete_branch_on_merge, false),
            default_branch,
            archived: bool_or(r.archived, false),
            disabled: bool_or(r.disabled, false),
            collaborators,
        };
        assert(b@.topics =~= repository_of_remote(r, collaborators@).topics);
        b
    }
}

/// The mapping that a listing of users and their role names describes; a
/// user listed twice keeps the role of its last entry.
pub open spec fn listing_map(s: Seq<GitHubCollaboratorInfo>) -> Map<PrincipalModel, RoleModel>
    decreases s.len(),
{
    if s.len() == 0 {
        Map::empty()
    } else {
        listing_map(s.drop_last()).insert(
            PrincipalModel::User(s.last().login@),
            role_of_name(s.last().role_name@),
        )
    }
}

/// The collaborators that a listing of a repository's users describes.
pub fn collaborators_from_listing(users: &Vec<GitHubCollaboratorInfo>) -> (r: Collaborators)
    ensures
        r@ == listing_map(users@),
{
    let mut r = Collaborators::new();
    let mut i: usize = 0;
    while i < users.len()
        invariant
            i <= users@.len(),
            r@ == listing_map(users@.subrange(0, i as int)),
        decreases users@.len() - i,
    {
        let u = &users[i];
        r.insert(
            CollaboratorPrincipal::User(copy_string(&u.login)),
            Role::from_str(u.role_name.as_str()),
        );
        assert(users@.subrange(0, i as int + 1).drop_last() =~= users@.subrange(0, i as int));
        i = i + 1;
    }
    assert(users@.subrange(0, i as int) =~= users@);
    r
}

fn logins(v: &Vec<GitHubUser>) -> (r: Vec<String>)
    ensures
        strings_view(r@) == user_logins(v@),
{
    let mut r: Vec<String> = Vec::new();
    let mut i: usize = 0;
    while i < v.len()
        invariant
            i <= v@.len(),
            strings_view(r@) == user_logins(v@.subrange(0, i as int)),
        decreases v@.len() - i,
    {
        r.push(copy_string(&v[i].login));
        assert(user_logins(v@.subrange(0, i as int + 1)) =~= user_logins(v@.subrange(0, i as int)).push(v@[i as int].login@));
        assert(strings_view(r@) =~= user_logins(v@.subrange(0, i as int + 1)));
        i = i + 1;
    }
    assert(v@.subrange(0, i as int) =~= v@);
    r
}

fn teams_of(v: &Vec<GitHubTeam>) -> (r: Vec<String>)
    ensures
        strings_view(r@) == team_names(v@),
{
    let mut r: Vec<String> = Vec::new();
    let mut i: usize = 0;
    while i < v.len()
        invariant
            i <= v@.len(),
            strings_view(r@) == team_names(v@.subrange(0, i as int)),
        decreases v@.len() - i,
    {
        r.push(copy_string(&v[i].name));
        assert(team_names(v@.subrange(0, i as int + 1)) =~= team_names(v@.subrange(0, i as int)).push(v@[i as int].name@));
        assert(strings_view(r@) =~= team_names(v@.subrange(0, i as int + 1)));
        i = i + 1;
    }
    assert(v@.subrange(0, i as int) =~= v@);
    r
}

fn apps_of(v: &Vec<GitHubApp>) -> (r: Vec<String>)
    ensures
        strings_view(r@) == app_names(v@),
{
    let mut r: Vec<String> = Vec::new();
    let mut i: usize = 0;
    while i < v.len()
        invariant
            i <= v@.len(),
            strings_view(r@) == app_names(v@.subrange(0, i as int)),
        decreases v@.len() - i,
    {
        r.push(copy_string(&v[i].name));
        assert(app_names(v@.subrange(0, i as int + 1)) =~= app_names(v@.subrange(0, i as int)).push(v@[i as int].name@));
        assert(strings_view(r@) =~= app_names(v@.subrange(0, i as int + 1)));
        i = i + 1;
    }
    assert(v@.subrange(0, i as int) =~= v@);
    r
}

fn users_of(v: &Vec<String>) -> (r: Vec<GitHubUser>)
    ensures
        user_logins(r@) == strings_view(v@),
{
    let mut r: Vec<GitHubUser> = Vec::new();
    let mut i: usize = 0;
    while i < v.len()
        invariant
            i <= v@.len(),
            user_logins(r@) == strings_view(v@.subrange(0, i as int)),
        decreases v@.len() - i,
    {
        r.push(GitHubUser { login: copy_string(&v[i]) });
        assert(strings_view(v@.subrange(0, i as int + 1)) =~= strings_view(v@.subrange(0, i as int)).push(v@[i as int]@));
        assert(user_logins(r@) =~= strings_view(v@.subrange(0, i as int + 1)));
        i = i + 1;
    }
    assert(v@.subrange(0, i as int) =~= v@);
    r
}

fn teams_from(v: &Vec<String>) -> (r: Vec<GitHubTeam>)
    ensures
        team_names(r@) == strings_view(v@),
{
    let mut r: Vec<GitHubTeam> = Vec::new();
    let mut i: usize = 0;
    while i < v.len()
        invariant
            i <= v@.len(),
            team_names(r@) == strings_view(v@.subrange(0, i as int)),
        decreases v@.len() - i,
    {
        r.push(GitHubTeam { name: copy_string(&v[i]) });
        assert(strings_view(v@.subrange(0, i as int + 1)) =~= strings_view(v@.subrange(0, i as int)).push(v@[i as int]@));
        assert(team_names(r@) =~= strings_view(v@.subrange(0, i as int + 1)));
        i = i + 1;
    }
    assert(v@.subrange(0, i as int) =~= v@);
    r
}

fn apps_from(v: &Vec<String>) -> (r: Vec<GitHubApp>)
    ensures
        app_names(r@) == strings_view(v@),
{
    let mut r: Vec<GitHubApp> = Vec::new();
    let mut i: usize = 0;
    while i < v.len()
        invariant
            i <= v@.len(),
            app_names(r@) == strings_view(v@.subrange(0, i as int)),
        decreases v@.len() - i,
    {
        r.push(GitHubApp { name: copy_string(&v[i]) });
        assert(strings_view(v@.subrange(0, i as int + 1)) =~= strings_view(v@.subrange(0, i as int)).push(v@[i as int]@));
        assert(app_names(r@) =~= strings_view(v@.subrange(0, i as int + 1)));
        i = i + 1;
    }
    assert(v@.subrange(0, i as int) =~= v@);
    r
}

impl BranchProtection {
    /// The protection body that the API's report describes. A review rule
    /// that the report leaves out asks for one approving review and nothing
    /// else; fork syncing defaults to allowed, every other left-out rule to off.
    pub fn from_api(p: &GitHubBranchProtection) -> (r: BranchProtection)
        ensures
            (r.required_status_checks is Some) == (p.required_status_checks is Some),
            p.required_status_checks is Some ==> {
                &&& r.required_status_checks->Some_0.strict == p.required_status_checks->Some_0.strict
                &&& r.required_status_checks->Some_0@.contexts == strings_view(
                    p.required_status_checks->Some_0.contexts@,
                )
            },
            r.enforce_admins == p.enforce_admins.enabled,
            r.required_pull_request_reviews == match p.required_pull_request_reviews {
                Some(v) => Some(
                    PullRequestReviewEnforcement {
                        required_approving_review_count: match v.required_approving_review_count {
                            Some(n) => n,
                            None => 1,
                        },
                        dismiss_stale_reviews: or_default(v.dismiss_stale_reviews, false),
                        require_code_owner_reviews: or_default(v.require_code_owner_reviews, false),
                        require_last_push_approval: or_default(v.require_last_push_approval, false),
                    },
                ),
                None => None,
            },
            (r.restrictions is Some) == (p.restrictions is Some),
            p.restrictions is Some ==> {
                &&& r.restrictions->Some_0@.users == user_logins(p.restrictions->Some_0.users@)
                &&& r.restrictions->Some_0@.teams == team_names(p.restrictions->Some_0.teams@)
                &&& r.restrictions->Some_0@.apps == app_names(p.restrictions->Some_0.apps@)
            },
            r.required_linear_history == setting_or(p.required_linear_history, false),
            r.allow_force_pushes == setting_or(p.allow_force_pushes, false),
            r.allow_deletions == setting_or(p.allow_deletions, false),
            r.block_creations == setting_or(p.block_creations, false),
            r.required_conversation_resolution == setting_or(
                p.required_conversation_resolution,
                false,
            ),
            r.lock_branch == setting_or(p.lock_branch, false),
            r.allow_fork_syncing == setting_or(p.allow_fork_syncing, true),
    {
        let required_status_checks = match &p.required_status_checks {
            Some(c) => Some(RequiredStatusChecks { strict: c.strict, contexts: copy_strings(&c.contexts) }),
            None => None,
        };
        let required_pull_request_reviews = match &p.required_pull_request_reviews {
            Some(v) => Some(
                PullRequestReviewEnforcement {
                    required_approving_review_count: match v.required_approving_review_count {
                        Some(n) => n,
                        None => 1,
                    },
                    dismiss_stale_reviews: bool_or(v.dismiss_stale_reviews, false),
                    require_code_owner_reviews: bool_or(v.require_code_owner_reviews, false),
                    require_last_push_approval: bool_or(v.require_last_push_approval, false),
                },
            ),
            None => None,
        };
        let restrictions = match &p.restrictions {
            Some(x) => Some(
                BranchRestrictions { users: logins(&x.users), teams: teams_of(&x.teams), apps: apps_of(&x.apps) },
            ),
            None => None,
        };
        BranchProtection {
            required_status_checks,
            enforce_admins: p.enforce_admins.enabled,
            required_pull_request_reviews,
            restrictions,
            required_linear_history: enabled_or(&p.required_linear_history, false),
            allow_force_pushes: enabled_or(&p.allow_force_pushes, false),
            allow_deletions: enabled_or(&p.allow_deletions, false),
            block_creations: enabled_or(&p.block_creations, false),
            required_conversation_resolution: enabled_or(&p.required_conversation_resolution, false),
            lock_branch: enabled_or(&p.lock_branch, false),
            allow_fork_syncing: enabled_or(&p.allow_fork_syncing, true),
        }
    }
}

/// A request that creates repository `name` with the settings of `body`.
pub open spec fn is_create_request(r: CreateRepositoryRequest, name: Seq<char>, body: GitHubRepository) -> bool {
    r.name@ == name
    && opt_view(r.description) == body@.description
    && opt_view(r.homepage) == body@.homepage
    && r.private == body.private
    && r.has_issues == body.has_issues
    && r.has_projects == body.has_projects
    && r.has_wiki == body.has_wiki
    && r.allow_squash_merge == body.allow_squash_merge
    && r.allow_merge_commit == body.allow_merge_commit
    && r.allow_rebase_merge == body.allow_rebase_merge
    && r.allow_auto_merge == body.allow_auto_merge
    && r.delete_branch_on_merge == body.delete_branch_on_merge
    && opt_view(r.default_branch) == Some(body.default_branch@)
}

/// A request that patches a repository to the settings of `body`, without renaming it.
pub open spec fn is_update_request(r: UpdateRepositoryRequest, body: GitHubRepository) -> bool {
    r.name is None
    && opt_view(r.description) == body@.description
    && opt_view(r.homepage) == body@.homepage
    && r.private == Some(body.private)
    && r.has_issues == Some(body.has_issues)
    && r.has_projects == Some(body.has_projects)
    && r.has_wiki == Some(body.has_wiki)
    && r.allow_squash_merge == Some(body.allow_squash_merge)
    && r.allow_merge_commit == Some(body.allow_merge_commit)
    && r.allow_rebase_merge == Some(body.allow_rebase_merge)
    && r.allow_auto_merge == Some(body.allow_auto_merge)
    && r.delete_branch_on_merge == Some(body.delete_branch_on_merge)
    && opt_view(r.default_branch) == Some(body.default_branch@)
    && r.archived == Some(body.archived)
}

/// A request that sets a branch's protection to the rules of `body`.
pub open spec fn is_protection_request(r: CreateBranchProtectionRequest, body: &BranchProtection) -> bool {
    ((r.required_status_checks is Some) == (body.required_status_checks is Some))
    && (body.required_status_checks is Some ==> {
                &&& r.required_status_checks->Some_0.strict == body.required_status_checks->Some_0.strict
                &&& strings_view(r.required_status_checks->Some_0.contexts@)
                    == body.required_status_checks->Some_0@.contexts
            })
    && (r.enforce_admins == body.enforce_admins)
    && ((r.required_pull_request_reviews is Some) == (body.required_pull_request_reviews is Some))
    && (body.required_pull_request_reviews is Some ==> {
                let v = body.required_pull_request_reviews->Some_0;
                let q = r.required_pull_request_reviews->Some_0;
                &&& q.required_approving_review_count == Some(v.required_approving_review_count)
                &&& q.dismiss_stale_reviews == Some(v.dismiss_stale_reviews)
                &&& q.require_code_owner_reviews == Some(v.require_code_owner_reviews)
                &&& q.require_last_push_approval == Some(v.require_last_push_approval)
            })
    && ((r.restrictions is Some) == (body.restrictions is Some))
    && (body.restrictions is Some ==> {
                &&& user_logins(r.restrictions->Some_0.users@) == body.restrictions->Some_0@.users
                &&& team_names(r.restrictions->Some_0.teams@) == body.restrictions->Some_0@.teams
                &&& app_names(r.restrictions->Some_0.apps@) == body.restrictions->Some_0@.apps
            })
    && (r.required_linear_history == Some(body.required_linear_history))
    && (r.allow_force_pushes == Some(body.allow_force_pushes))
    && (r.allow_deletions == Some(body.allow_deletions))
    && (r.block_creations == Some(body.block_creations))
    && (r.required_conversation_resolution == Some(body.required_conversation_resolution))
    && (r.lock_branch == Some(body.lock_branch))
    && (r.allow_fork_syncing == Some(body.allow_fork_syncing))
}

impl CreateRepositoryRequest {
    /// The request that creates repository `name` with the settings of `body`.
    pub fn from_body(name: &String, body: &GitHubRepository) -> (r: CreateRepositoryRequest)
        ensures
            is_create_request(r, name@, *body),
    {
        CreateRepositoryRequest {
            name: copy_string(name),
            description: copy_opt(&body.description),
            homepage: copy_opt(&body.homepage),
            private: body.private,
            has_issues: body.has_issues,
            has_projects: body.has_projects,
            has_wiki: body.has_wiki,
            allow_squash_merge: body.allow_squash_merge,
            allow_merge_commit: body.allow_merge_commit,
            allow_rebase_merge: body.allow_rebase_merge,
            allow_auto_merge: body.allow_auto_merge,
            delete_branch_on_merge: body.delete_branch_on_merge,
            default_branch: Some(copy_string(&body.default_branch)),
        }
    }
}

impl UpdateRepositoryRequest {
    /// The request that patches a repository to the settings of `body`; it
    /// never renames the repository.
    pub fn from_body(body: &GitHubRepository) -> (r: UpdateRepositoryRequest)
        ensures
            is_update_request(r, *body),
    {
        UpdateRepositoryRequest {
            name: None,
            description: copy_opt(&body.description),
            homepage: copy_opt(&body.homepage),
            private: Some(body.private),
            has_issues: Some(body.has_issues),
            has_projects: Some(body.has_projects),
            has_wiki: Some(body.has_wiki),
            allow_squash_merge: Some(body.allow_squash_merge),
            allow_merge_commit: Some(body.allow_merge_commit),
            allow_rebase_merge: Some(body.allow_rebase_merge),
            allow_auto_merge: Some(body.allow_auto_merge),
            delete_branch_on_merge: Some(body.delete_branch_on_merge),
            default_branch: Some(copy_string(&body.default_branch)),
            archived: Some(body.archived),
        }
    }
}

impl CreateBranchProtectionRequest {
    /// The request that sets a branch's protection to the rules of `body`.
    pub fn from_body(body: &BranchProtection) -> (r: CreateBranchProtectionRequest)
        ensures
            is_protection_request(r, body),
    {
        let required_status_checks = match &body.required_status_checks {
            Some(c) => Some(GitHubRequiredStatusChecks { strict: c.strict, contexts: copy_strings(&c.contexts) }),
            None => None,
        };
        let required_pull_request_reviews = match &body.required_pull_request_reviews {
            Some(v) => Some(
                GitHubPullRequestReviewEnforcement {
                    required_approving_review_count: Some(v.required_approving_review_count),
                    dismiss_stale_reviews: Some(v.dismiss_stale_reviews),
                    require_code_owner_reviews: Some(v.require_code_owner_reviews),
                    require_last_push_approval: Some(v.require_last_push_approval),
                },
            ),
            None => None,
        };
        let restrictions = match &body.restrictions {
            Some(x) => Some(
                GitHubBranchRestrictions {
                    users: users_of(&x.users),
                    teams: teams_from(&x.teams),
                    apps: apps_from(&x.apps),
                },
            ),
            None => None,
        };
        CreateBranchProtectionRequest {
            required_status_checks,
            enforce_admins: body.enforce_admins,
            required_pull_request_reviews,
            restrictions,
            required_linear_history: Some(body.required_linear_history),
            allow_force_pushes: Some(body.allow_force_pushes),
            allow_deletions: Some(body.allow_deletions),
            block_creations: Some(body.block_creations),
            required_conversation_resolution: Some(body.required_conversation_resolution),
            lock_branch: Some(body.lock_branch),
            allow_fork_syncing: Some(body.allow_fork_syncing),
        }
    }
}

} // verus!
