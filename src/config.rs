//! The connector's configuration.

use vstd::prelude::*;

use crate::text::{copy_opt, copy_strings, opt_eq, opt_view, strings_eq, strings_view};

verus! {

/// Whose repositories an owner name refers to.
#[derive(Clone, Debug)]
pub enum GithubRepositoryOwner {
    User(String),
    Organization(String),
}

/// The primary configuration block for the connector.
#[derive(Debug)]
pub struct GitHubConnectorConfig {
    /// Organization slugs whose repositories the connector manages
    pub orgs: Vec<String>,
    /// User logins whose repositories the connector manages
    pub users: Vec<String>,
    /// The base URL of a GitHub Enterprise server, if one is used
    pub enterprise_url: Option<String>,
    /// The number of requests to make in parallel
    pub concurrent_requests: usize,
}

/// The mathematical value of a [`GitHubConnectorConfig`].
pub struct ConfigModel {
    pub orgs: Seq<Seq<char>>,
    pub users: Seq<Seq<char>>,
    pub enterprise_url: Option<Seq<char>>,
    pub concurrent_requests: usize,
}

impl View for GitHubConnectorConfig {
    type V = ConfigModel;

    open spec fn view(&self) -> ConfigModel {
        ConfigModel {
            orgs: strings_view(self.orgs@),
            users: strings_view(self.users@),
            enterprise_url: opt_view(self.enterprise_url),
            concurrent_requests: self.concurrent_requests,
        }
    }
}

/// The number of parallel requests when the configuration names none.
pub const DEFAULT_CONCURRENT_REQUESTS: usize = 5;

/// The configuration that applies where none is given: no owners, the
/// public server, and the default number of parallel requests.
pub open spec fn default_config() -> ConfigModel {
    ConfigModel {
        orgs: Seq::empty(),
        users: Seq::empty(),
        enterprise_url: None,
        concurrent_requests: DEFAULT_CONCURRENT_REQUESTS,
    }
}

impl Default for GitHubConnectorConfig {
    fn default() -> (r: GitHubConnectorConfig)
        ensures
            r@ == default_config(),
    {
        let r = GitHubConnectorConfig {
            orgs: Vec::new(),
            users: Vec::new(),
            enterprise_url: None,
            concurrent_requests: DEFAULT_CONCURRENT_REQUESTS,
        };
        assert(r@.orgs =~= Seq::<Seq<char>>::empty());
        assert(r@.users =~= Seq::<Seq<char>>::empty());
        r
    }
}

impl GitHubConnectorConfig {
    /// The configuration used when the tree holds none: the default one,
    /// managing the repositories of the authenticated user `login`.
    pub fn for_authenticated_user(login: String) -> (r: GitHubConnectorConfig)
        ensures
            r@ == (ConfigModel { users: seq![login@], ..default_config() }),
    {
        let mut r = GitHubConnectorConfig::default();
        r.users = vec![login];
        assert(r@.users =~= seq![login@]);
        r
    }

    /// Whether two configurations are the same, field by field.
    pub fn same(&self, other: &GitHubConnectorConfig) -> (r: bool)
        ensures
            r == (self@ == other@),
    {
        strings_eq(&self.orgs, &other.orgs) && strings_eq(&self.users, &other.users) && opt_eq(
            &self.enterprise_url,
            &other.enterprise_url,
        ) && self.concurrent_requests == other.concurrent_requests
    }

    /// A copy of this configuration.
    pub fn duplicate(&self) -> (r: GitHubConnectorConfig)
        ensures
            r@ == self@,
    {
        GitHubConnectorConfig {
            orgs: copy_strings(&self.orgs),
            users: copy_strings(&self.users),
            enterprise_url: copy_opt(&self.enterprise_url),
            concurrent_requests: self.concurrent_requests,
        }
    }
}

} // verus!
