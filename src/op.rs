//! The operations that a plan is made of.

use vstd::prelude::*;

use crate::resource::{
    BranchProtection, CollaboratorPrincipal, GitHubRepository, PrincipalModel, ProtectionModel,
    RepositoryModel, Role, RoleModel,
};

verus! {

/// One remote operation on one address. Each carries what the remote API
/// needs to execute it without fetching anything: a create or an update
/// carries the complete new body, and the remote side patches only the
/// fields that differ from its own state.
#[derive(Debug)]
pub enum GitHubConnectorOp {
    CreateRepository(GitHubRepository),
    UpdateRepository(GitHubRepository),
    DeleteRepository,
    CreateBranchProtection(BranchProtection),
    UpdateBranchProtection(BranchProtection),
    DeleteBranchProtection,
    AddCollaborator(CollaboratorPrincipal, Role),
    UpdateCollaborator(CollaboratorPrincipal, Role),
    RemoveCollaborator(CollaboratorPrincipal),
}

/// The mathematical value of a [`GitHubConnectorOp`].
pub enum OpModel {
    CreateRepository(RepositoryModel),
    UpdateRepository(RepositoryModel),
    DeleteRepository,
    CreateBranchProtection(ProtectionModel),
    UpdateBranchProtection(ProtectionModel),
    DeleteBranchProtection,
    AddCollaborator(PrincipalModel, RoleModel),
    UpdateCollaborator(PrincipalModel, RoleModel),
    RemoveCollaborator(PrincipalModel),
}

impl View for GitHubConnectorOp {
    type V = OpModel;

    open spec fn view(&self) -> OpModel {
        match self {
            GitHubConnectorOp::CreateRepository(r) => OpModel::CreateRepository(r@),
            GitHubConnectorOp::UpdateRepository(r) => OpModel::UpdateRepository(r@),
            GitHubConnectorOp::DeleteRepository => OpModel::DeleteRepository,
            GitHubConnectorOp::CreateBranchProtection(p) => OpModel::CreateBranchProtection(p@),
            GitHubConnectorOp::UpdateBranchProtection(p) => OpModel::UpdateBranchProtection(p@),
            GitHubConnectorOp::DeleteBranchProtection => OpModel::DeleteBranchProtection,
            GitHubConnectorOp::AddCollaborator(p, r) => OpModel::AddCollaborator(p@, r@),
            GitHubConnectorOp::UpdateCollaborator(p, r) => OpModel::UpdateCollaborator(p@, r@),
            GitHubConnectorOp::RemoveCollaborator(p) => OpModel::RemoveCollaborator(p@),
        }
    }
}

/// One element of a plan: an operation and a one-line description of it for
/// logs. The description is for people; nothing should parse it.
#[derive(Debug)]
pub struct PlanStep {
    pub op: GitHubConnectorOp,
    pub description: String,
}

} // verus!
