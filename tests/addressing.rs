use github_connector::addr::GitHubResourceAddress;
use github_connector::connector::{body_kind, filter, BodyKind, FilterResponse};
use github_connector::error::ConnectorError;
use github_connector::config::{GitHubConnectorConfig, GithubRepositoryOwner};
use github_connector::listing::{in_scope, owners_to_list, repository_paths};
use github_connector::remote::GitHubBranch;

fn repo(owner: &str, name: &str) -> GitHubResourceAddress {
    GitHubResourceAddress::Repository { owner: owner.to_string(), repo: name.to_string() }
}

#[test]
fn config_path_round_trip() {
    let a = GitHubResourceAddress::Config;
    let p = a.to_path_buf();
    assert_eq!(p, "github/config.ron");
    assert!(matches!(GitHubResourceAddress::from_path(&p), Ok(GitHubResourceAddress::Config)));
}

#[test]
fn repository_path_round_trip() {
    let p = repo("alice", "widgets").to_path_buf();
    assert_eq!(p, "github/alice/widgets/repository.ron");
    match GitHubResourceAddress::from_path(&p) {
        Ok(GitHubResourceAddress::Repository { owner, repo }) => {
            assert_eq!(owner, "alice");
            assert_eq!(repo, "widgets");
        }
        other => panic!("unexpected {:?}", other),
    }
}

#[test]
fn branch_protection_path_round_trip() {
    let a = GitHubResourceAddress::BranchProtection {
        owner: "acme".to_string(),
        repo: "api".to_string(),
        branch: "main".to_string(),
    };
    let p = a.to_path_buf();
    assert_eq!(p, "github/acme/api/branches/main/protection.ron");
    match GitHubResourceAddress::from_path(&p) {
        Ok(GitHubResourceAddress::BranchProtection { owner, repo, branch }) => {
            assert_eq!((owner.as_str(), repo.as_str(), branch.as_str()), ("acme", "api", "main"));
        }
        other => panic!("unexpected {:?}", other),
    }
}

#[test]
fn unknown_shape_is_invalid_address() {
    match GitHubResourceAddress::from_path("github/not/a/known/shape") {
        Err(ConnectorError::InvalidAddress { path }) => assert_eq!(path, "github/not/a/known/shape"),
        other => panic!("unexpected {:?}", other),
    }
}

#[test]
fn empty_component_is_invalid_address() {
    assert!(matches!(
        GitHubResourceAddress::from_path("github//widgets/repository.ron"),
        Err(ConnectorError::InvalidAddress { .. })
    ));
    assert!(matches!(GitHubResourceAddress::from_path(""), Err(ConnectorError::InvalidAddress { .. })));
    assert!(matches!(
        GitHubResourceAddress::from_path("gitlab/config.ron"),
        Err(ConnectorError::InvalidAddress { .. })
    ));
}

#[test]
fn filter_classifies_paths() {
    assert_eq!(filter("github/config.ron"), FilterResponse::Config);
    assert_eq!(filter("github/a/b/repository.ron"), FilterResponse::Resource);
    assert_eq!(filter("github/a/b/branches/c/protection.ron"), FilterResponse::Resource);
    assert_eq!(filter("aws/config.ron"), FilterResponse::Ignored);
}

#[test]
fn body_kind_follows_address() {
    assert!(matches!(body_kind("github/config.ron"), Ok(BodyKind::Config)));
    assert!(matches!(body_kind("github/a/b/repository.ron"), Ok(BodyKind::Repository)));
    assert!(matches!(body_kind("github/a/b/branches/c/protection.ron"), Ok(BodyKind::BranchProtection)));
    assert!(matches!(body_kind("github/a"), Err(ConnectorError::InvalidAddress { .. })));
}

#[test]
fn scope_filter_covers_owner_directories() {
    assert!(in_scope("alice", ""));
    assert!(in_scope("alice", "."));
    assert!(in_scope("alice", "github"));
    assert!(in_scope("alice", "github/alice/"));
    assert!(in_scope("alice", "./github/*"));
    assert!(in_scope("alice", "github//alice"));
    assert!(!in_scope("alice", "github/alice/widgets/repository.ron"));
    assert!(!in_scope("alice", "github/bob"));
    assert!(!in_scope("alice", "aws"));
    assert!(!in_scope("alice", "/github"));
    assert!(!in_scope("alice", "github/.."));
}

#[test]
fn listing_yields_repository_then_protected_branches() {
    let branches = vec![
        GitHubBranch { name: "main".to_string(), protected: true },
        GitHubBranch { name: "dev".to_string(), protected: false },
        GitHubBranch { name: "release".to_string(), protected: true },
    ];
    let paths = repository_paths(&"acme".to_string(), &"api".to_string(), &branches);
    assert_eq!(
        paths,
        vec![
            "github/acme/api/repository.ron".to_string(),
            "github/acme/api/branches/main/protection.ron".to_string(),
            "github/acme/api/branches/release/protection.ron".to_string(),
        ]
    );
}

#[test]
fn listing_visits_covered_users_then_orgs() {
    let mut c = GitHubConnectorConfig::default();
    c.users = vec!["alice".to_string(), "bob".to_string()];
    c.orgs = vec!["acme".to_string()];
    let all = owners_to_list(&c, "./");
    assert_eq!(all.len(), 3);
    assert!(matches!(&all[0], GithubRepositoryOwner::User(n) if n == "alice"));
    assert!(matches!(&all[1], GithubRepositoryOwner::User(n) if n == "bob"));
    assert!(matches!(&all[2], GithubRepositoryOwner::Organization(n) if n == "acme"));
    let some = owners_to_list(&c, "github/acme");
    assert_eq!(some.len(), 1);
    assert!(matches!(&some[0], GithubRepositoryOwner::Organization(n) if n == "acme"));
    assert!(owners_to_list(&c, "github/zed").is_empty());
}

#[test]
fn decoding_reads_path_components() {
    assert!(matches!(GitHubResourceAddress::from_path("github/config.ron/"), Ok(GitHubResourceAddress::Config)));
    assert!(matches!(GitHubResourceAddress::from_path("github//config.ron"), Ok(GitHubResourceAddress::Config)));
    assert!(matches!(
        GitHubResourceAddress::from_path("github/./config.ron"),
        Ok(GitHubResourceAddress::Config)
    ));
    match GitHubResourceAddress::from_path("github/acme//api/./repository.ron/") {
        Ok(GitHubResourceAddress::Repository { owner, repo }) => {
            assert_eq!((owner.as_str(), repo.as_str()), ("acme", "api"));
        }
        other => panic!("unexpected {:?}", other),
    }
    assert!(matches!(
        GitHubResourceAddress::from_path("github/o/./repository.ron"),
        Err(ConnectorError::InvalidAddress { .. })
    ));
    assert!(matches!(
        GitHubResourceAddress::from_path("./github/config.ron"),
        Err(ConnectorError::InvalidAddress { .. })
    ));
    assert!(matches!(
        GitHubResourceAddress::from_path("/github/config.ron"),
        Err(ConnectorError::InvalidAddress { .. })
    ));
}
