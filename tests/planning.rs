use github_connector::addr::GitHubResourceAddress;
use github_connector::collab::Collaborators;
use github_connector::connector::{do_op_exec, op_exec, RemoteCall};
use github_connector::error::{ConnectorError, ParseError, Side};
use github_connector::op::{GitHubConnectorOp, PlanStep};
use github_connector::plan::{do_plan, plan, Snapshot};
use github_connector::resource::{
    BranchProtection, CollaboratorPrincipal, GitHubRepository, GitHubResource, Role,
};

fn repo_addr() -> GitHubResourceAddress {
    GitHubResourceAddress::Repository { owner: "acme".to_string(), repo: "api".to_string() }
}

fn branch_addr() -> GitHubResourceAddress {
    GitHubResourceAddress::BranchProtection {
        owner: "acme".to_string(),
        repo: "api".to_string(),
        branch: "main".to_string(),
    }
}

fn user(name: &str) -> CollaboratorPrincipal {
    CollaboratorPrincipal::User(name.to_string())
}

fn repo_with(collaborators: Vec<(&str, Role)>) -> GitHubRepository {
    let mut c = Collaborators::new();
    for (name, role) in collaborators {
        c.insert(user(name), role);
    }
    let mut r = GitHubRepository::default();
    r.collaborators = c;
    r
}

fn snap(bytes: &str, body: GitHubResource) -> Snapshot {
    Snapshot { bytes: bytes.as_bytes().to_vec(), body: Ok(body) }
}

fn protection() -> BranchProtection {
    BranchProtection {
        required_status_checks: None,
        enforce_admins: true,
        required_pull_request_reviews: None,
        restrictions: None,
        required_linear_history: false,
        allow_force_pushes: false,
        allow_deletions: false,
        block_creations: false,
        required_conversation_resolution: false,
        lock_branch: false,
        allow_fork_syncing: true,
    }
}

fn steps(r: Result<Vec<PlanStep>, ConnectorError>) -> Vec<PlanStep> {
    match r {
        Ok(v) => v,
        Err(e) => panic!("unexpected error {:?}", e),
    }
}

#[test]
fn identical_bytes_plan_nothing() {
    let bad = ParseError { message: "broken".to_string(), position: None };
    let c = Snapshot { bytes: b"same".to_vec(), body: Err(bad.clone()) };
    let d = Snapshot { bytes: b"same".to_vec(), body: Err(bad) };
    assert!(steps(plan(&repo_addr(), Some(c), Some(d))).is_empty());
}

#[test]
fn formatting_only_change_plans_nothing() {
    let c = snap("(private: true)", GitHubResource::Repository(repo_with(vec![("alice", Role::Write)])));
    let d = snap("( private : true )", GitHubResource::Repository(repo_with(vec![("alice", Role::Write)])));
    assert!(steps(plan(&repo_addr(), Some(c), Some(d))).is_empty());
    let c = snap("a", GitHubResource::BranchProtection(protection()));
    let d = snap("b", GitHubResource::BranchProtection(protection()));
    assert!(steps(plan(&branch_addr(), Some(c), Some(d))).is_empty());
}

#[test]
fn birth_creates_repository_once() {
    let mut body = GitHubRepository::default();
    body.description = Some("service".to_string());
    let d = snap("desired", GitHubResource::Repository(body));
    let v = steps(plan(&repo_addr(), None, Some(d)));
    assert_eq!(v.len(), 1);
    match &v[0].op {
        GitHubConnectorOp::CreateRepository(r) => assert_eq!(r.description.as_deref(), Some("service")),
        other => panic!("unexpected {:?}", other),
    }
    assert_eq!(v[0].description, "Create GitHub repository acme/api");
}

#[test]
fn death_deletes_once() {
    let c = snap("current", GitHubResource::Repository(GitHubRepository::default()));
    let v = steps(plan(&repo_addr(), Some(c), None));
    assert_eq!(v.len(), 1);
    assert!(matches!(v[0].op, GitHubConnectorOp::DeleteRepository));
    assert_eq!(v[0].description, "Delete GitHub repository acme/api");
    let c = snap("current", GitHubResource::BranchProtection(protection()));
    let v = steps(plan(&branch_addr(), Some(c), None));
    assert_eq!(v.len(), 1);
    assert!(matches!(v[0].op, GitHubConnectorOp::DeleteBranchProtection));
    assert_eq!(v[0].description, "Delete branch protection for acme/api branch main");
}

#[test]
fn birth_creates_branch_protection_once() {
    let d = snap("desired", GitHubResource::BranchProtection(protection()));
    let v = steps(plan(&branch_addr(), None, Some(d)));
    assert_eq!(v.len(), 1);
    assert!(matches!(&v[0].op, GitHubConnectorOp::CreateBranchProtection(p) if p.enforce_admins));
    assert_eq!(v[0].description, "Create branch protection for acme/api branch main");
}

#[test]
fn neither_side_plans_nothing() {
    assert!(steps(plan(&repo_addr(), None, None)).is_empty());
}

#[test]
fn config_plans_nothing() {
    let d = snap("x", GitHubResource::Repository(GitHubRepository::default()));
    assert!(steps(plan(&GitHubResourceAddress::Config, None, Some(d))).is_empty());
}

#[test]
fn collaborator_changes_are_decomposed() {
    let c = snap("old", GitHubResource::Repository(repo_with(vec![("alice", Role::Write)])));
    let d = snap(
        "new",
        GitHubResource::Repository(repo_with(vec![("alice", Role::Admin), ("bob", Role::Read)])),
    );
    let v = steps(plan(&repo_addr(), Some(c), Some(d)));
    assert_eq!(v.len(), 2);
    match &v[0].op {
        GitHubConnectorOp::UpdateCollaborator(CollaboratorPrincipal::User(u), Role::Admin) => {
            assert_eq!(u, "alice")
        }
        other => panic!("unexpected {:?}", other),
    }
    match &v[1].op {
        GitHubConnectorOp::AddCollaborator(CollaboratorPrincipal::User(u), Role::Read) => assert_eq!(u, "bob"),
        other => panic!("unexpected {:?}", other),
    }
    assert!(!v.iter().any(|s| matches!(s.op, GitHubConnectorOp::UpdateRepository(_))));
    assert_eq!(v[0].description, "Update Collaborator User(\"alice\") on repo acme/api to role Admin");
    assert_eq!(v[1].description, "Add Collaborator User(\"bob\") to repo acme/api with role Read");
}

#[test]
fn collaborator_removal() {
    let c = snap(
        "old",
        GitHubResource::Repository(repo_with(vec![("alice", Role::Write), ("carol", Role::Read)])),
    );
    let d = snap("new", GitHubResource::Repository(repo_with(vec![("alice", Role::Write)])));
    let v = steps(plan(&repo_addr(), Some(c), Some(d)));
    assert_eq!(v.len(), 1);
    match &v[0].op {
        GitHubConnectorOp::RemoveCollaborator(CollaboratorPrincipal::User(u)) => assert_eq!(u, "carol"),
        other => panic!("unexpected {:?}", other),
    }
    assert_eq!(v[0].description, "Remove Collaborator User(\"carol\") from repo acme/api");
}

#[test]
fn setting_change_updates_repository_after_collaborators() {
    let c = snap("old", GitHubResource::Repository(repo_with(vec![("zed", Role::Read)])));
    let mut new = repo_with(vec![("zed", Role::Read), ("amy", Role::Maintain)]);
    new.private = false;
    new.topics = vec!["rust".to_string()];
    let d = snap("new", GitHubResource::Repository(new));
    let v = steps(plan(&repo_addr(), Some(c), Some(d)));
    assert_eq!(v.len(), 2);
    assert!(matches!(v[0].op, GitHubConnectorOp::AddCollaborator(..)));
    match &v[1].op {
        GitHubConnectorOp::UpdateRepository(r) => {
            assert!(!r.private);
            assert_eq!(r.collaborators.len(), 2);
        }
        other => panic!("unexpected {:?}", other),
    }
    assert_eq!(v[1].description, "Update GitHub repository acme/api\nchanged: topics, private");
}

#[test]
fn branch_protection_change_updates_once() {
    let c = snap("old", GitHubResource::BranchProtection(protection()));
    let mut p = protection();
    p.lock_branch = true;
    p.enforce_admins = false;
    let d = snap("new", GitHubResource::BranchProtection(p));
    let v = steps(plan(&branch_addr(), Some(c), Some(d)));
    assert_eq!(v.len(), 1);
    assert!(matches!(&v[0].op, GitHubConnectorOp::UpdateBranchProtection(p) if p.lock_branch));
    assert_eq!(
        v[0].description,
        "Update branch protection for acme/api branch main\nchanged: enforce_admins, lock_branch"
    );
}

#[test]
fn desired_parse_failure_surfaces() {
    let c = snap("old", GitHubResource::Repository(GitHubRepository::default()));
    let d = Snapshot {
        bytes: b"(colour: 1)".to_vec(),
        body: Err(ParseError { message: "Unexpected field named `colour`".to_string(), position: None }),
    };
    match plan(&repo_addr(), Some(c), Some(d)) {
        Err(ConnectorError::Parse { side: Side::Desired, error }) => assert!(error.message.contains("colour")),
        other => panic!("unexpected {:?}", other),
    }
}

#[test]
fn current_parse_failure_comes_first() {
    let bad = |m: &str| Snapshot {
        bytes: m.as_bytes().to_vec(),
        body: Err(ParseError { message: m.to_string(), position: None }),
    };
    match plan(&repo_addr(), Some(bad("one")), Some(bad("two"))) {
        Err(ConnectorError::Parse { side: Side::Current, error }) => assert_eq!(error.message, "one"),
        other => panic!("unexpected {:?}", other),
    }
}

#[test]
fn body_of_other_kind_is_type_mismatch() {
    let d = snap("x", GitHubResource::BranchProtection(protection()));
    assert!(matches!(
        plan(&repo_addr(), None, Some(d)),
        Err(ConnectorError::TypeMismatch { side: Side::Desired })
    ));
}

#[test]
fn plan_by_path_checks_the_address() {
    assert!(matches!(
        do_plan("github/not/a/known/shape", None, None),
        Err(ConnectorError::InvalidAddress { .. })
    ));
    let d = snap("x", GitHubResource::Repository(GitHubRepository::default()));
    assert_eq!(steps(do_plan("github/acme/api/repository.ron", None, Some(d))).len(), 1);
}

#[test]
fn collaborator_ops_become_user_or_team_calls() {
    let op = GitHubConnectorOp::AddCollaborator(user("bob"), Role::Maintain);
    match op_exec(&repo_addr(), &op) {
        Ok(RemoteCall::AddCollaborator { owner, repo, username, request }) => {
            assert_eq!((owner.as_str(), repo.as_str(), username.as_str()), ("acme", "api", "bob"));
            assert_eq!(request.permission, "maintain");
        }
        other => panic!("unexpected {:?}", other),
    }
    let op = GitHubConnectorOp::UpdateCollaborator(
        CollaboratorPrincipal::Team("core".to_string()),
        Role::Custom("auditor".to_string()),
    );
    match op_exec(&repo_addr(), &op) {
        Ok(RemoteCall::UpdateTeam { team, request, .. }) => {
            assert_eq!(team, "core");
            assert_eq!(request.permission, "auditor");
        }
        other => panic!("unexpected {:?}", other),
    }
    let op = GitHubConnectorOp::RemoveCollaborator(user("carol"));
    assert!(matches!(op_exec(&repo_addr(), &op), Ok(RemoteCall::RemoveCollaborator { .. })));
}

#[test]
fn repository_ops_carry_request_bodies() {
    let mut body = GitHubRepository::default();
    body.homepage = Some("https://example.com".to_string());
    body.archived = true;
    match op_exec(&repo_addr(), &GitHubConnectorOp::UpdateRepository(body)) {
        Ok(RemoteCall::UpdateRepository { owner, repo, request }) => {
            assert_eq!((owner.as_str(), repo.as_str()), ("acme", "api"));
            assert!(request.name.is_none());
            assert_eq!(request.homepage.as_deref(), Some("https://example.com"));
            assert_eq!(request.archived, Some(true));
            assert_eq!(request.default_branch.as_deref(), Some("main"));
        }
        other => panic!("unexpected {:?}", other),
    }
    match op_exec(&repo_addr(), &GitHubConnectorOp::CreateRepository(GitHubRepository::default())) {
        Ok(RemoteCall::CreateRepository { owner, request }) => {
            assert_eq!(owner, "acme");
            assert_eq!(request.name, "api");
            assert!(request.private);
        }
        other => panic!("unexpected {:?}", other),
    }
    match op_exec(&branch_addr(), &GitHubConnectorOp::UpdateBranchProtection(protection())) {
        Ok(RemoteCall::UpdateBranchProtection { branch, request, .. }) => {
            assert_eq!(branch, "main");
            assert!(request.enforce_admins);
            assert_eq!(request.allow_fork_syncing, Some(true));
        }
        other => panic!("unexpected {:?}", other),
    }
}

#[test]
fn unsupported_operations_are_refused() {
    match op_exec(&GitHubResourceAddress::Config, &GitHubConnectorOp::DeleteRepository) {
        Err(ConnectorError::UnsupportedOperation { path, operation }) => {
            assert_eq!(path, "github/config.ron");
            assert_eq!(operation, "DeleteRepository");
        }
        other => panic!("unexpected {:?}", other),
    }
    assert!(matches!(
        op_exec(&branch_addr(), &GitHubConnectorOp::DeleteRepository),
        Err(ConnectorError::UnsupportedOperation { .. })
    ));
    assert!(matches!(
        do_op_exec("github/x", &GitHubConnectorOp::DeleteRepository),
        Err(ConnectorError::InvalidAddress { .. })
    ));
}
