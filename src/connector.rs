//! What the connector decides for its host: which paths it manages, which
//! remote call carries out an operation, how bodies compare, what a parse
//! failure tells the user, and which addresses a listing yields.

use vstd::prelude::*;
use vstd::string::*;

use crate::addr::{address_path, decode_path, AddressModel, GitHubResourceAddress};
use crate::collab::Collaborators;
use crate::config::{default_config, ConfigModel, GitHubConnectorConfig};
use crate::error::{ConnectorError, ParseError, Position};
use crate::op::{GitHubConnectorOp, OpModel};
use crate::remote::{
    is_create_request, is_protection_request, is_update_request, AddCollaboratorRequest,
    AddTeamCollaboratorRequest, CreateBranchProtectionRequest,
    CreateRepositoryRequest, UpdateRepositoryRequest,
};
use crate::resource::{
    role_name, BranchProtection, CollaboratorPrincipal, GitHubRepository, GitHubResource,
    PrincipalModel, ProtectionModel, PullRequestReviewEnforcement, RepositoryModel,
    RequiredStatusChecks, ResourceModel, Role, RoleModel, StatusChecksModel,
};
use crate::text::copy_string;

verus! {

/// How the connector treats a path.
#[derive(Clone, Copy, Debug, PartialEq, Eq, Structural)]
pub enum FilterResponse {
    /// The connector's configuration file
    Config,
    /// A resource that the connector manages
    Resource,
    /// A path that the connector does not manage
    Ignored,
}

/// Which schema a body at an address is decoded with.
#[derive(Clone, Copy, Debug, PartialEq, Eq, Structural)]
pub enum BodyKind {
    Config,
    Repository,
    BranchProtection,
}

/// The schema of the bodies at an address.
pub open spec fn kind_of(a: AddressModel) -> BodyKind {
    match a {
        AddressModel::Config => BodyKind::Config,
        AddressModel::Repository { .. } => BodyKind::Repository,
        AddressModel::BranchProtection { .. } => BodyKind::BranchProtection,
    }
}

/// Whether the connector manages a path, and as what.
pub fn filter(path: &str) -> (r: FilterResponse)
    ensures
        r == match decode_path(path@) {
            Some(AddressModel::Config) => FilterResponse::Config,
            Some(_) => FilterResponse::Resource,
            None => FilterResponse::Ignored,
        },
{
    match GitHubResourceAddress::from_path(path) {
        Ok(GitHubResourceAddress::Config) => FilterResponse::Config,
        Ok(_) => FilterResponse::Resource,
        Err(_) => FilterResponse::Ignored,
    }
}

/// The schema of the bodies at a path; a path of no known shape is an
/// `InvalidAddress` error.
pub fn body_kind(path: &str) -> (r: Result<BodyKind, ConnectorError>)
    ensures
        match decode_path(path@) {
            Some(a) => r == Ok::<BodyKind, ConnectorError>(kind_of(a)),
            None => r matches Err(ConnectorError::InvalidAddress { path: p }) && p@ == path@,
        },
{
    match GitHubResourceAddress::from_path(path) {
        Ok(GitHubResourceAddress::Config) => Ok(BodyKind::Config),
        Ok(GitHubResourceAddress::Repository { .. }) => Ok(BodyKind::Repository),
        Ok(GitHubResourceAddress::BranchProtection { .. }) => Ok(BodyKind::BranchProtection),
        Err(e) => Err(e),
    }
}

/// A decoded body of any kind, the configuration included.
#[derive(Debug)]
pub enum Body {
    Config(GitHubConnectorConfig),
    Resource(GitHubResource),
}

/// The mathematical value of a [`Body`].
pub enum BodyModel {
    Config(ConfigModel),
    Resource(ResourceModel),
}

impl View for Body {
    type V = BodyModel;

    open spec fn view(&self) -> BodyModel {
        match self {
            Body::Config(c) => BodyModel::Config(c@),
            Body::Resource(r) => BodyModel::Resource(r@),
        }
    }
}

/// Whether two decoded bodies denote the same state. The first decoding
/// failure, left side first, is the error; there is no tolerance beyond
/// the decoding itself: an absent optional field and its default differ.
pub fn equal(a: Result<Body, ParseError>, b: Result<Body, ParseError>) -> (r: Result<bool, ParseError>)
    ensures
        match (a, b) {
            (Err(e), _) => r == Err::<bool, ParseError>(e),
            (Ok(_), Err(e)) => r == Err::<bool, ParseError>(e),
            (Ok(x), Ok(y)) => r == Ok::<bool, ParseError>(x@ == y@),
        },
{
    let x = a?;
    let y = b?;
    let same = match (&x, &y) {
        (Body::Config(p), Body::Config(q)) => p.same(q),
        (Body::Resource(p), Body::Resource(q)) => p.same(q),
        _ => false,
    };
    Ok(same)
}

/// How serious a diagnostic is.
#[derive(Clone, Copy, Debug, PartialEq, Eq, Structural)]
pub enum Severity {
    Error,
    Warning,
}

/// Feedback on a hand-edited body.
#[derive(Debug)]
pub struct Diagnostic {
    pub severity: Severity,
    pub message: String,
    pub position: Option<Position>,
}

/// The diagnostic for the outcome of decoding a body: none where it
/// decoded, else an error with the parser's message and position.
pub fn diagnose(outcome: Result<(), ParseError>) -> (r: Option<Diagnostic>)
    ensures
        match outcome {
            Ok(_) => r is None,
            Err(e) => r == Some(
                Diagnostic { severity: Severity::Error, message: e.message, position: e.position },
            ),
        },
{
    match outcome {
        Ok(_) => None,
        Err(e) => Some(Diagnostic { severity: Severity::Error, message: e.message, position: e.position }),
    }
}

/// A call on the remote API that carries out one operation.
#[allow(inconsistent_fields)]
#[derive(Debug)]
pub enum RemoteCall {
    CreateRepository { owner: String, request: CreateRepositoryRequest },
    UpdateRepository { owner: String, repo: String, request: UpdateRepositoryRequest },
    DeleteRepository { owner: String, repo: String },
    CreateBranchProtection {
        owner: String,
        repo: String,
        branch: String,
        request: CreateBranchProtectionRequest,
    },
    UpdateBranchProtection {
        owner: String,
        repo: String,
        branch: String,
        request: CreateBranchProtectionRequest,
    },
    DeleteBranchProtection { owner: String, repo: String, branch: String },
    AddCollaborator { owner: String, repo: String, username: String, request: AddCollaboratorRequest },
    UpdateCollaborator {
        owner: String,
        repo: String,
        username: String,
        request: AddCollaboratorRequest,
    },
    RemoveCollaborator { owner: String, repo: String, username: String },
    AddTeam { owner: String, repo: String, team: String, request: AddTeamCollaboratorRequest },
    UpdateTeam { owner: String, repo: String, team: String, request: AddTeamCollaboratorRequest },
    RemoveTeam { owner: String, repo: String, team: String },
}

/// Whether an address supports an operation: repository operations and
/// collaborator operations on a repository, protection operations on a
/// branch protection rule, and nothing on the configuration.
pub open spec fn supports(a: AddressModel, op: OpModel) -> bool {
    match a {
        AddressModel::Repository { .. } => match op {
            OpModel::CreateRepository(_) | OpModel::UpdateRepository(_) | OpModel::DeleteRepository
            | OpModel::AddCollaborator(..) | OpModel::UpdateCollaborator(..)
            | OpModel::RemoveCollaborator(_) => true,
            _ => false,
        },
        AddressModel::BranchProtection { .. } => match op {
            OpModel::CreateBranchProtection(_) | OpModel::UpdateBranchProtection(_)
            | OpModel::DeleteBranchProtection => true,
            _ => false,
        },
        AddressModel::Config => false,
    }
}

/// The name of an operation's kind.
pub open spec fn op_name(op: OpModel) -> Seq<char> {
    match op {
        OpModel::CreateRepository(_) => "CreateRepository"@,
        OpModel::UpdateRepository(_) => "UpdateRepository"@,
        OpModel::DeleteRepository => "DeleteRepository"@,
        OpModel::CreateBranchProtection(_) => "CreateBranchProtection"@,
        OpModel::UpdateBranchProtection(_) => "UpdateBranchProtection"@,
        OpModel::DeleteBranchProtection => "DeleteBranchProtection"@,
        OpModel::AddCollaborator(..) => "AddCollaborator"@,
        OpModel::UpdateCollaborator(..) => "UpdateCollaborator"@,
        OpModel::RemoveCollaborator(_) => "RemoveCollaborator"@,
    }
}

/// The remote call that carries out a supported operation at an address:
/// which endpoint, on which names, with the permission string of the role
/// for collaborator grants. The request bodies are those that the request
/// builders make of the operation's body.
pub open spec fn call_matches(a: AddressModel, op: GitHubConnectorOp, c: RemoteCall) -> bool {
    match (a, op, c) {
        (
            AddressModel::Repository { owner, repo },
            GitHubConnectorOp::CreateRepository(_),
            RemoteCall::CreateRepository { owner: o, request },
        ) => o@ == owner && is_create_request(request, repo, op->CreateRepository_0),
        (
            AddressModel::Repository { owner, repo },
            GitHubConnectorOp::UpdateRepository(_),
            RemoteCall::UpdateRepository { owner: o, repo: r, request },
        ) => o@ == owner && r@ == repo && is_update_request(request, op->UpdateRepository_0),
        (
            AddressModel::Repository { owner, repo },
            GitHubConnectorOp::DeleteRepository,
            RemoteCall::DeleteRepository { owner: o, repo: r },
        ) => o@ == owner && r@ == repo,
        (
            AddressModel::BranchProtection { owner, repo, branch },
            GitHubConnectorOp::CreateBranchProtection(_),
            RemoteCall::CreateBranchProtection { owner: o, repo: r, branch: b, request },
        ) => o@ == owner && r@ == repo && b@ == branch && is_protection_request(
            request,
            &op->CreateBranchProtection_0,
        ),
        (
            AddressModel::BranchProtection { owner, repo, branch },
            GitHubConnectorOp::UpdateBranchProtection(_),
            RemoteCall::UpdateBranchProtection { owner: o, repo: r, branch: b, request },
        ) => o@ == owner && r@ == repo && b@ == branch && is_protection_request(
            request,
            &op->UpdateBranchProtection_0,
        ),
        (
            AddressModel::BranchProtection { owner, repo, branch },
            GitHubConnectorOp::DeleteBranchProtection,
            RemoteCall::DeleteBranchProtection { owner: o, repo: r, branch: b },
        ) => o@ == owner && r@ == repo && b@ == branch,
        (
            AddressModel::Repository { owner, repo },
            GitHubConnectorOp::AddCollaborator(p, role),
            c,
        ) => match (p@, c) {
            (PrincipalModel::User(u), RemoteCall::AddCollaborator { owner: o, repo: r, username, request }) =>
                o@ == owner && r@ == repo && username@ == u && request.permission@ == role_name(role@),
            (PrincipalModel::Team(t), RemoteCall::AddTeam { owner: o, repo: r, team, request }) =>
                o@ == owner && r@ == repo && team@ == t && request.permission@ == role_name(role@),
            _ => false,
        },
        (
            AddressModel::Repository { owner, repo },
            GitHubConnectorOp::UpdateCollaborator(p, role),
            c,
        ) => match (p@, c) {
            (PrincipalModel::User(u), RemoteCall::UpdateCollaborator { owner: o, repo: r, username, request }) =>
                o@ == owner && r@ == repo && username@ == u && request.permission@ == role_name(role@),
            (PrincipalModel::Team(t), RemoteCall::UpdateTeam { owner: o, repo: r, team, request }) =>
                o@ == owner && r@ == repo && team@ == t && request.permission@ == role_name(role@),
            _ => false,
        },
        (
            AddressModel::Repository { owner, repo },
            GitHubConnectorOp::RemoveCollaborator(p),
            c,
        ) => match (p@, c) {
            (PrincipalModel::User(u), RemoteCall::RemoveCollaborator { owner: o, repo: r, username }) =>
                o@ == owner && r@ == repo && username@ == u,
            (PrincipalModel::Team(t), RemoteCall::RemoveTeam { owner: o, repo: r, team }) =>
                o@ == owner && r@ == repo && team@ == t,
            _ => false,
        },
        _ => false,
    }
}

fn op_kind_name(op: &GitHubConnectorOp) -> (r: String)
    ensures
        r@ == op_name(op@),
{
    match op {
        GitHubConnectorOp::CreateRepository(_) => String::from_str("CreateRepository"),
        GitHubConnectorOp::UpdateRepository(_) => String::from_str("UpdateRepository"),
        GitHubConnectorOp::DeleteRepository => String::from_str("DeleteRepository"),
        GitHubConnectorOp::CreateBranchProtection(_) => String::from_str("CreateBranchProtection"),
        GitHubConnectorOp::UpdateBranchProtection(_) => String::from_str("UpdateBranchProtection"),
        GitHubConnectorOp::DeleteBranchProtection => String::from_str("DeleteBranchProtection"),
        GitHubConnectorOp::AddCollaborator(..) => String::from_str("AddCollaborator"),
        GitHubConnectorOp::UpdateCollaborator(..) => String::from_str("UpdateCollaborator"),
        GitHubConnectorOp::RemoveCollaborator(_) => String::from_str("RemoveCollaborator"),
    }
}

/// The remote call that carries out an operation at an address. An
/// operation that the address does not support is an `UnsupportedOperation`
/// error naming the address's path and the operation's kind.
pub fn op_exec(addr: &GitHubResourceAddress, op: &GitHubConnectorOp) -> (r: Result<RemoteCall, ConnectorError>)
    ensures
        supports(addr@, op@) ==> (r matches Ok(c) && call_matches(addr@, *op, c)),
        !supports(addr@, op@) ==> (r matches Err(ConnectorError::UnsupportedOperation { path, operation })
            && path@ == address_path(addr@) && operation@ == op_name(op@)),
{
    match (addr, op) {
        (GitHubResourceAddress::Repository { owner, repo }, GitHubConnectorOp::CreateRepository(body)) => Ok(
            RemoteCall::CreateRepository {
                owner: copy_string(owner),
                request: CreateRepositoryRequest::from_body(repo, body),
            },
        ),
        (GitHubResourceAddress::Repository { owner, repo }, GitHubConnectorOp::UpdateRepository(body)) => Ok(
            RemoteCall::UpdateRepository {
                owner: copy_string(owner),
                repo: copy_string(repo),
                request: UpdateRepositoryRequest::from_body(body),
            },
        ),
        (GitHubResourceAddress::Repository { owner, repo }, GitHubConnectorOp::DeleteRepository) => Ok(
            RemoteCall::DeleteRepository { owner: copy_string(owner), repo: copy_string(repo) },
        ),
        (GitHubResourceAddress::Repository { owner, repo }, GitHubConnectorOp::AddCollaborator(p, role)) => {
            let owner = copy_string(owner);
            let repo = copy_string(repo);
            let permission = role.to_string();
            match p {
                crate::resource::CollaboratorPrincipal::User(u) => Ok(
                    RemoteCall::AddCollaborator {
                        owner,
                        repo,
                        username: copy_string(u),
                        request: AddCollaboratorRequest { permission },
                    },
                ),
                crate::resource::CollaboratorPrincipal::Team(t) => Ok(
                    RemoteCall::AddTeam {
                        owner,
                        repo,
                        team: copy_string(t),
                        request: AddTeamCollaboratorRequest { permission },
                    },
                ),
            }
        },
        (GitHubResourceAddress::Repository { owner, repo }, GitHubConnectorOp::UpdateCollaborator(p, role)) => {
            let owner = copy_string(owner);
            let repo = copy_string(repo);
            let permission = role.to_string();
            match p {
                crate::resource::CollaboratorPrincipal::User(u) => Ok(
                    RemoteCall::UpdateCollaborator {
                        owner,
                        repo,
                        username: copy_string(u),
                        request: AddCollaboratorRequest { permission },
                    },
                ),
                crate::resource::CollaboratorPrincipal::Team(t) => Ok(
                    RemoteCall::UpdateTeam {
                        owner,
                        repo,
                        team: copy_string(t),
                        request: AddTeamCollaboratorRequest { permission },
                    },
                ),
            }
        },
        (GitHubResourceAddress::Repository { owner, repo }, GitHubConnectorOp::RemoveCollaborator(p)) => {
            let owner = copy_string(owner);
            let repo = copy_string(repo);
            match p {
                crate::resource::CollaboratorPrincipal::User(u) => Ok(
                    RemoteCall::RemoveCollaborator { owner, repo, username: copy_string(u) },
                ),
                crate::resource::CollaboratorPrincipal::Team(t) => Ok(
                    RemoteCall::RemoveTeam { owner, repo, team: copy_string(t) },
                ),
            }
        },
        (
            GitHubResourceAddress::BranchProtection { owner, repo, branch },
            GitHubConnectorOp::CreateBranchProtection(body),
        ) => Ok(
            RemoteCall::CreateBranchProtection {
                owner: copy_string(owner),
                repo: copy_string(repo),
                branch: copy_string(branch),
                request: CreateBranchProtectionRequest::from_body(body),
            },
        ),
        (
            GitHubResourceAddress::BranchProtection { owner, repo, branch },
            GitHubConnectorOp::UpdateBranchProtection(body),
        ) => Ok(
            RemoteCall::UpdateBranchProtection {
                owner: copy_string(owner),
                repo: copy_string(repo),
                branch: copy_string(branch),
                request: CreateBranchProtectionRequest::from_body(body),
            },
        ),
        (
            GitHubResourceAddress::BranchProtection { owner, repo, branch },
            GitHubConnectorOp::DeleteBranchProtection,
        ) => Ok(
            RemoteCall::DeleteBranchProtection {
                owner: copy_string(owner),
                repo: copy_string(repo),
                branch: copy_string(branch),
            },
        ),
        _ => Err(
            ConnectorError::UnsupportedOperation {
                path: addr.to_path_buf(),
                operation: op_kind_name(op),
            },
        ),
    }
}

/// The remote call that carries out an operation at a path; a path of no
/// known shape is an `InvalidAddress` error.
pub fn do_op_exec(path: &str, op: &GitHubConnectorOp) -> (r: Result<RemoteCall, ConnectorError>)
    ensures
        match decode_path(path@) {
            Some(a) => (supports(a, op@) ==> (r matches Ok(c) && call_matches(a, *op, c))) && (!supports(a, op@)
                ==> (r matches Err(ConnectorError::UnsupportedOperation { path: p, operation })
                && p@ == address_path(a) && operation@ == op_name(op@))),
            None => r matches Err(ConnectorError::InvalidAddress { path: p }) && p@ == path@,
        },
{
    let addr = GitHubResourceAddress::from_path(path)?;
    op_exec(&addr, op)
}

/// An example body at an example address, offered to users as a template.
#[derive(Debug)]
pub struct Skeleton {
    pub addr: GitHubResourceAddress,
    pub body: Body,
}

/// The example repository body.
pub open spec fn sample_repository() -> RepositoryModel {
    RepositoryModel {
        description: Some("A sample repository"@),
        homepage: None,
        topics: seq!["rust"@, "autoschematic"@],
        private: false,
        has_issues: true,
        has_projects: true,
        has_wiki: true,
        allow_squash_merge: true,
        allow_merge_commit: true,
        allow_rebase_merge: true,
        allow_auto_merge: false,
        delete_branch_on_merge: true,
        default_branch: "main"@,
        archived: false,
        disabled: false,
        collaborators: Map::empty().insert(PrincipalModel::User("alice"@), RoleModel::Admin).insert(
            PrincipalModel::User("bob"@),
            RoleModel::Write,
        ).insert(PrincipalModel::Team("core-team"@), RoleModel::Maintain),
    }
}

/// The example branch protection body.
pub open spec fn sample_protection() -> ProtectionModel {
    ProtectionModel {
        required_status_checks: Some(StatusChecksModel { strict: true, contexts: seq!["ci/tests"@] }),
        enforce_admins: true,
        required_pull_request_reviews: Some(
            PullRequestReviewEnforcement {
                required_approving_review_count: 1,
                dismiss_stale_reviews: true,
                require_code_owner_reviews: false,
                require_last_push_approval: false,
            },
        ),
        restrictions: None,
        required_linear_history: false,
        allow_force_pushes: false,
        allow_deletions: false,
        block_creations: false,
        required_conversation_resolution: true,
        lock_branch: false,
        allow_fork_syncing: true,
    }
}

/// The templates: the default configuration, an example repository of
/// `[owner]/[repo_name]`, and example protection rules for its branch `[branch_name]`.
pub fn get_skeletons() -> (r: Vec<Skeleton>)
    ensures
        r@.len() == 3,
        r@[0].addr@ == AddressModel::Config,
        r@[0].body@ == BodyModel::Config(default_config()),
        r@[1].addr@ == (AddressModel::Repository { owner: "[owner]"@, repo: "[repo_name]"@ }),
        r@[1].body@ == BodyModel::Resource(ResourceModel::Repository(sample_repository())),
        r@[2].addr@ == (AddressModel::BranchProtection {
            owner: "[owner]"@,
            repo: "[repo_name]"@,
            branch: "[branch_name]"@,
        }),
        r@[2].body@ == BodyModel::Resource(ResourceModel::BranchProtection(sample_protection())),
{
    let config = Skeleton {
        addr: GitHubResourceAddress::Config,
        body: Body::Config(GitHubConnectorConfig::default()),
    };
    let mut collaborators = Collaborators::new();
    collaborators.insert(CollaboratorPrincipal::User(String::from_str("alice")), Role::Admin);
    collaborators.insert(CollaboratorPrincipal::User(String::from_str("bob")), Role::Write);
    collaborators.insert(CollaboratorPrincipal::Team(String::from_str("core-team")), Role::Maintain);
    let repository = GitHubRepository {
        description: Some(String::from_str("A sample repository")),
        homepage: None,
        topics: vec![String::from_str("rust"), String::from_str("autoschematic")],
        private: false,
        has_issues: true,
        has_projects: true,
        has_wiki: true,
        allow_squash_merge: true,
        allow_merge_commit: true,
        allow_rebase_merge: true,
        allow_auto_merge: false,
        delete_branch_on_merge: true,
        default_branch: String::from_str("main"),
        archived: false,
        disabled: false,
        collaborators,
    };
    assert(repository@.topics =~= seq!["rust"@, "autoschematic"@]);
    let repo_skeleton = Skeleton {
        addr: GitHubResourceAddress::Repository {
            owner: String::from_str("[owner]"),
            repo: String::from_str("[repo_name]"),
        },
        body: Body::Resource(GitHubResource::Repository(repository)),
    };
    let checks = RequiredStatusChecks { strict: true, contexts: vec![String::from_str("ci/tests")] };
    assert(checks@.contexts =~= seq!["ci/tests"@]);
    let protection = BranchProtection {
        required_status_checks: Some(checks),
        enforce_admins: true,
        required_pull_request_reviews: Some(
            PullRequestReviewEnforcement {
                required_approving_review_count: 1,
                dismiss_stale_reviews: true,
                require_code_owner_reviews: false,
                require_last_push_approval: false,
            },
        ),
        restrictions: None,
        required_linear_history: false,
        allow_force_pushes: false,
        allow_deletions: false,
        block_creations: false,
        required_conversation_resolution: true,
        lock_branch: false,
        allow_fork_syncing: true,
    };
    let protection_skeleton = Skeleton {
        addr: GitHubResourceAddress::BranchProtection {
            owner: String::from_str("[owner]"),
            repo: String::from_str("[repo_name]"),
            branch: String::from_str("[branch_name]"),
        },
        body: Body::Resource(GitHubResource::BranchProtection(protection)),
    };
    vec![config, repo_skeleton, protection_skeleton]
}

} // verus!
