use github_connector::collab::Collaborators;
use github_connector::config::GitHubConnectorConfig;
use github_connector::connector::{diagnose, equal, get_skeletons, Body, Severity};
use github_connector::error::{ParseError, Position};
use github_connector::remote::{
    collaborators_from_listing, GitHubBooleanSetting, GitHubBranchProtection, GitHubCollaboratorInfo,
    GitHubEnforceAdmins, GitHubPullRequestReviewEnforcement, RemoteRepository,
};
use github_connector::resource::{
    BranchProtection, CollaboratorPrincipal, GitHubRepository, GitHubResource, Role,
};

fn user(name: &str) -> CollaboratorPrincipal {
    CollaboratorPrincipal::User(name.to_string())
}

#[test]
fn role_names_map_both_ways() {
    assert_eq!(Role::Read.to_string(), "read");
    assert_eq!(Role::Triage.to_string(), "triage");
    assert_eq!(Role::Write.to_string(), "write");
    assert_eq!(Role::Maintain.to_string(), "maintain");
    assert_eq!(Role::Admin.to_string(), "admin");
    assert_eq!(Role::Custom("auditor".to_string()).to_string(), "auditor");
    assert!(matches!(Role::from_str("admin"), Role::Admin));
    assert!(matches!(Role::from_str("maintain"), Role::Maintain));
    match Role::from_str("auditor") {
        Role::Custom(s) => assert_eq!(s, "auditor"),
        other => panic!("unexpected {:?}", other),
    }
    for name in ["read", "triage", "write", "maintain", "admin", "Admin", ""] {
        assert_eq!(Role::from_str(name).to_string(), name);
    }
}

#[test]
fn collaborators_keep_one_role_per_principal_in_order() {
    let mut c = Collaborators::new();
    c.insert(CollaboratorPrincipal::Team("ops".to_string()), Role::Read);
    c.insert(user("carol"), Role::Read);
    c.insert(user("alice"), Role::Write);
    c.insert(user("carol"), Role::Admin);
    assert_eq!(c.len(), 3);
    assert!(matches!(c.get(&user("carol")), Some(Role::Admin)));
    assert!(c.get(&user("bob")).is_none());
    let order: Vec<String> = (0..c.len()).map(|i| c.entry(i).0.describe()).collect();
    assert_eq!(order, vec!["User(\"alice\")", "User(\"carol\")", "Team(\"ops\")"]);
}

#[test]
fn collaborator_equality_ignores_insertion_order() {
    let mut a = Collaborators::new();
    a.insert(user("alice"), Role::Write);
    a.insert(user("bob"), Role::Read);
    let mut b = Collaborators::new();
    b.insert(user("bob"), Role::Read);
    b.insert(user("alice"), Role::Write);
    assert!(a.same(&b));
    b.insert(user("bob"), Role::Triage);
    assert!(!a.same(&b));
}

#[test]
fn default_repository_settings() {
    let r = GitHubRepository::default();
    assert!(r.private && r.has_issues && r.has_projects && r.has_wiki);
    assert!(r.allow_squash_merge && r.allow_merge_commit && r.allow_rebase_merge);
    assert!(!r.allow_auto_merge && !r.delete_branch_on_merge && !r.archived && !r.disabled);
    assert_eq!(r.default_branch, "main");
    assert!(r.description.is_none() && r.homepage.is_none() && r.topics.is_empty());
    assert_eq!(r.collaborators.len(), 0);
}

#[test]
fn default_config_has_five_requests() {
    let c = GitHubConnectorConfig::default();
    assert_eq!(c.concurrent_requests, 5);
    assert!(c.orgs.is_empty() && c.users.is_empty() && c.enterprise_url.is_none());
    let u = GitHubConnectorConfig::for_authenticated_user("octocat".to_string());
    assert_eq!(u.users, vec!["octocat".to_string()]);
    assert_eq!(u.concurrent_requests, 5);
}

#[test]
fn equality_is_field_by_field() {
    let a = GitHubRepository::default();
    let mut b = GitHubRepository::default();
    assert!(a.same(&b));
    b.description = Some(String::new());
    assert!(!a.same(&b));
    let r = equal(
        Ok(Body::Resource(GitHubResource::Repository(GitHubRepository::default()))),
        Ok(Body::Resource(GitHubResource::Repository(GitHubRepository::default()))),
    );
    assert!(matches!(r, Ok(true)));
    let c = GitHubConnectorConfig::default();
    let r = equal(Ok(Body::Config(c)), Ok(Body::Resource(GitHubResource::Repository(a))));
    assert!(matches!(r, Ok(false)));
}

#[test]
fn equality_reports_first_parse_failure() {
    let e = ParseError { message: "unexpected field `colour`".to_string(), position: None };
    let r = equal(Err(e), Ok(Body::Config(GitHubConnectorConfig::default())));
    match r {
        Err(e) => assert_eq!(e.message, "unexpected field `colour`"),
        Ok(_) => panic!("expected an error"),
    }
}

#[test]
fn diagnostic_carries_parser_message_and_position() {
    assert!(diagnose(Ok(())).is_none());
    let e = ParseError {
        message: "Unexpected field named `colour`".to_string(),
        position: Some(Position { line: 3, col: 5 }),
    };
    let d = diagnose(Err(e)).expect("a diagnostic");
    assert_eq!(d.severity, Severity::Error);
    assert!(d.message.contains("colour"));
    assert_eq!(d.position, Some(Position { line: 3, col: 5 }));
}

#[test]
fn remote_repository_fills_defaults() {
    let r = RemoteRepository {
        description: Some("d".to_string()),
        homepage: None,
        topics: None,
        private: None,
        has_issues: Some(false),
        has_projects: None,
        has_wiki: None,
        allow_squash_merge: None,
        allow_merge_commit: None,
        allow_rebase_merge: None,
        allow_auto_merge: None,
        delete_branch_on_merge: Some(true),
        default_branch: None,
        archived: None,
        disabled: None,
    };
    let b = GitHubRepository::from_remote(r, Collaborators::new());
    assert_eq!(b.description.as_deref(), Some("d"));
    assert!(!b.private);
    assert!(!b.has_issues && b.has_projects && b.delete_branch_on_merge);
    assert_eq!(b.default_branch, "main");
    assert!(b.topics.is_empty());
}

#[test]
fn remote_protection_fills_defaults() {
    let p = GitHubBranchProtection {
        required_status_checks: None,
        enforce_admins: GitHubEnforceAdmins { enabled: true },
        required_pull_request_reviews: Some(GitHubPullRequestReviewEnforcement {
            required_approving_review_count: None,
            dismiss_stale_reviews: Some(true),
            require_code_owner_reviews: None,
            require_last_push_approval: None,
        }),
        restrictions: None,
        required_linear_history: Some(GitHubBooleanSetting { enabled: true }),
        allow_force_pushes: None,
        allow_deletions: None,
        block_creations: None,
        required_conversation_resolution: None,
        lock_branch: None,
        allow_fork_syncing: None,
    };
    let b = BranchProtection::from_api(&p);
    assert!(b.enforce_admins && b.required_linear_history && b.allow_fork_syncing);
    assert!(!b.allow_force_pushes && !b.lock_branch);
    let r = b.required_pull_request_reviews.expect("reviews");
    assert_eq!(r.required_approving_review_count, 1);
    assert!(r.dismiss_stale_reviews && !r.require_code_owner_reviews);
}

#[test]
fn listing_maps_role_names() {
    let users = vec![
        GitHubCollaboratorInfo { login: "alice".to_string(), role_name: "admin".to_string() },
        GitHubCollaboratorInfo { login: "bob".to_string(), role_name: "auditor".to_string() },
        GitHubCollaboratorInfo { login: "alice".to_string(), role_name: "write".to_string() },
    ];
    let c = collaborators_from_listing(&users);
    assert_eq!(c.len(), 2);
    assert!(matches!(c.get(&user("alice")), Some(Role::Write)));
    match c.get(&user("bob")) {
        Some(Role::Custom(s)) => assert_eq!(s, "auditor"),
        other => panic!("unexpected {:?}", other),
    }
}

#[test]
fn skeletons_cover_every_kind() {
    let s = get_skeletons();
    assert_eq!(s.len(), 3);
    assert_eq!(s[0].addr.to_path_buf(), "github/config.ron");
    assert_eq!(s[1].addr.to_path_buf(), "github/[owner]/[repo_name]/repository.ron");
    assert_eq!(s[2].addr.to_path_buf(), "github/[owner]/[repo_name]/branches/[branch_name]/protection.ron");
    match &s[1].body {
        Body::Resource(GitHubResource::Repository(r)) => {
            assert_eq!(r.collaborators.len(), 3);
            assert!(matches!(r.collaborators.get(&user("alice")), Some(Role::Admin)));
        }
        other => panic!("unexpected {:?}", other),
    }
}
