//! Addressing and reconciliation engine for a GitHub resource connector.
//!
//! Resources (repositories, branch protection rules and the connector's own
//! configuration) are identified by typed addresses that map one to one onto
//! slash separated paths. The planner compares an observed and a desired body
//! for one address and yields the remote operations that reconcile them.

mod text;

pub mod resource;
pub mod addr;
pub mod error;
pub mod collab;
pub mod op;
pub mod plan;
pub mod config;
pub mod remote;
pub mod connector;
pub mod listing;
