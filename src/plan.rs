//! The reconciliation planner: from an observed and a desired body for one
//! address, the ordered operations that take the first to the second.

use vstd::prelude::*;
use vstd::string::*;

use crate::addr::{decode_path, AddressModel, GitHubResourceAddress};
use crate::collab::{apply_ops, is_collaborator_diff, is_justified, lemma_diff_reconciles, ops_view};
use crate::error::{ConnectorError, ParseError, Side};
use crate::op::{GitHubConnectorOp, OpModel, PlanStep};
use crate::resource::{
    principal_text, protection_field_changes, protection_field_names, repository_field_changes,
    repository_field_names, role_text, without_collaborators, GitHubResource, RepositoryModel,
    ResourceModel,
};
use crate::text::{bytes_eq, join_strings, join_with, select, select_names};

verus! {

/// A body handed to the planner: its bytes, and what the bytes decode to
/// under the schema of the address's kind.
#[derive(Debug)]
pub struct Snapshot {
    pub bytes: Vec<u8>,
    pub body: Result<GitHubResource, ParseError>,
}

/// What a side's body is for the planner: its decoding error, a kind other
/// than the address names, or the decoded body.
pub open spec fn decoded_as(
    a: AddressModel,
    body: Result<GitHubResource, ParseError>,
    side: Side,
) -> Result<ResourceModel, ConnectorError> {
    match body {
        Err(e) => Err(ConnectorError::Parse { side, error: e }),
        Ok(b) => match (a, b) {
            (AddressModel::Repository { .. }, GitHubResource::Repository(r)) => Ok(
                ResourceModel::Repository(r@),
            ),
            (AddressModel::BranchProtection { .. }, GitHubResource::BranchProtection(p)) => Ok(
                ResourceModel::BranchProtection(p@),
            ),
            _ => Err(ConnectorError::TypeMismatch { side }),
        },
    }
}

/// The text that names a repository or a branch in descriptions.
pub open spec fn target_text(a: AddressModel) -> Seq<char> {
    match a {
        AddressModel::Repository { owner, repo } => "GitHub repository "@ + owner + "/"@ + repo,
        AddressModel::BranchProtection { owner, repo, branch } => "branch protection for "@ + owner
            + "/"@ + repo + " branch "@ + branch,
        AddressModel::Config => Seq::empty(),
    }
}

/// The operation that creates a decoded body.
pub open spec fn create_op(b: ResourceModel) -> OpModel {
    match b {
        ResourceModel::Repository(r) => OpModel::CreateRepository(r),
        ResourceModel::BranchProtection(p) => OpModel::CreateBranchProtection(p),
    }
}

/// The operation that deletes what an address names.
pub open spec fn delete_op(a: AddressModel) -> OpModel {
    match a {
        AddressModel::BranchProtection { .. } => OpModel::DeleteBranchProtection,
        _ => OpModel::DeleteRepository,
    }
}

/// The description of a collaborator operation on repository `owner/repo`.
pub open spec fn collaborator_text(owner: Seq<char>, repo: Seq<char>, op: OpModel) -> Seq<char> {
    match op {
        OpModel::AddCollaborator(p, r) => "Add Collaborator "@ + principal_text(p) + " to repo "@
            + owner + "/"@ + repo + " with role "@ + role_text(r),
        OpModel::UpdateCollaborator(p, r) => "Update Collaborator "@ + principal_text(p)
            + " on repo "@ + owner + "/"@ + repo + " to role "@ + role_text(r),
        OpModel::RemoveCollaborator(p) => "Remove Collaborator "@ + principal_text(p)
            + " from repo "@ + owner + "/"@ + repo,
        _ => Seq::empty(),
    }
}

/// The description of an update: the target, then on a second line the
/// names of the fields that changed.
pub open spec fn update_text(a: AddressModel, changed: Seq<Seq<char>>) -> Seq<char> {
    "Update "@ + target_text(a) + "\nchanged: "@ + join_with(changed, ", "@)
}

/// The steps that take decoded body `o` to decoded body `n` at address `a`.
///
/// For a repository: one collaborator operation per principal whose access
/// changed, in increasing order of principal, then, only if some other
/// setting differs, one update carrying the complete new body. For a branch
/// protection rule: nothing if the bodies are equal, else one update
/// carrying the new body.
pub open spec fn update_steps_hold(
    a: AddressModel,
    o: ResourceModel,
    n: ResourceModel,
    v: Seq<PlanStep>,
) -> bool {
    match (a, o, n) {
        (
            AddressModel::Repository { owner, repo },
            ResourceModel::Repository(ro),
            ResourceModel::Repository(rn),
        ) => {
            let settings_changed = without_collaborators(ro) != without_collaborators(rn);
            let m = if settings_changed {
                v.len() - 1
            } else {
                v.len() as int
            };
            &&& 0 <= m
            &&& is_collaborator_diff(
                ro.collaborators,
                rn.collaborators,
                v.subrange(0, m).map_values(|s: PlanStep| s.op@),
            )
            &&& forall|i: int|
                0 <= i < m ==> (#[trigger] v[i]).description@ == collaborator_text(
                    owner,
                    repo,
                    v[i].op@,
                )
            &&& settings_changed ==> {
                &&& v[m].op@ == OpModel::UpdateRepository(rn)
                &&& v[m].description@ == update_text(
                    a,
                    select(repository_field_names(), repository_field_changes(ro, rn)),
                )
            }
        },
        (
            AddressModel::BranchProtection { .. },
            ResourceModel::BranchProtection(po),
            ResourceModel::BranchProtection(pn),
        ) => if po == pn {
            v.len() == 0
        } else {
            &&& v.len() == 1
            &&& v[0].op@ == OpModel::UpdateBranchProtection(pn)
            &&& v[0].description@ == update_text(
                a,
                select(protection_field_names(), protection_field_changes(po, pn)),
            )
        },
        _ => false,
    }
}

/// What planning at address `a` yields for the given sides.
///
/// The configuration has no lifecycle of its own: nothing is ever planned
/// for it. Otherwise, by which sides are present: neither, nothing; only the
/// desired one, its creation; only the current one, the deletion; both with
/// identical bytes, nothing, without decoding; both with other bytes, the
/// current side is decoded first, then the desired one, and the first
/// failure is the error; else the update steps.
pub open spec fn plan_holds(
    a: AddressModel,
    current: Option<Snapshot>,
    desired: Option<Snapshot>,
    r: Result<Vec<PlanStep>, ConnectorError>,
) -> bool {
    match a {
        AddressModel::Config => r matches Ok(v) && v@.len() == 0,
        _ => match (current, desired) {
            (None, None) => r matches Ok(v) && v@.len() == 0,
            (None, Some(d)) => match decoded_as(a, d.body, Side::Desired) {
                Err(e) => r == Err::<Vec<PlanStep>, ConnectorError>(e),
                Ok(b) => r matches Ok(v) && v@.len() == 1 && v@[0].op@ == create_op(b)
                    && v@[0].description@ == "Create "@ + target_text(a),
            },
            (Some(_), None) => r matches Ok(v) && v@.len() == 1 && v@[0].op@ == delete_op(a)
                && v@[0].description@ == "Delete "@ + target_text(a),
            (Some(c), Some(d)) => if c.bytes@ == d.bytes@ {
                r matches Ok(v) && v@.len() == 0
            } else {
                match (decoded_as(a, c.body, Side::Current), decoded_as(a, d.body, Side::Desired)) {
                    (Err(e), _) => r == Err::<Vec<PlanStep>, ConnectorError>(e),
                    (Ok(_), Err(e)) => r == Err::<Vec<PlanStep>, ConnectorError>(e),
                    (Ok(o), Ok(n)) => r matches Ok(v) && update_steps_hold(a, o, n, v@),
                }
            },
        },
    }
}

/// Plans the operations that take the current body at a path to the desired
/// one; a path of no known shape is an `InvalidAddress` error.
pub fn do_plan(path: &str, current: Option<Snapshot>, desired: Option<Snapshot>) -> (r: Result<
    Vec<PlanStep>,
    ConnectorError,
>)
    ensures
        match decode_path(path@) {
            Some(a) => plan_holds(a, current, desired, r),
            None => r matches Err(ConnectorError::InvalidAddress { path: p }) && p@ == path@,
        },
{
    match GitHubResourceAddress::from_path(path) {
        Ok(addr) => plan(&addr, current, desired),
        Err(e) => Err(e),
    }
}

/// Plans the operations that take the current body at an address to the
/// desired one.
pub fn plan(addr: &GitHubResourceAddress, current: Option<Snapshot>, desired: Option<Snapshot>) -> (r:
    Result<Vec<PlanStep>, ConnectorError>)
    ensures
        plan_holds(addr@, current, desired, r),
{
    if let GitHubResourceAddress::Config = addr {
        return Ok(Vec::new());
    }
    match (current, desired) {
        (None, None) => Ok(Vec::new()),
        (None, Some(d)) => {
            let b = decode_side(addr, d.body, Side::Desired)?;
            let description = describe(addr, "Create ");
            let op = match b {
                GitHubResource::Repository(r) => GitHubConnectorOp::CreateRepository(r),
                GitHubResource::BranchProtection(p) => GitHubConnectorOp::CreateBranchProtection(p),
            };
            Ok(vec![PlanStep { op, description }])
        },
        (Some(_), None) => {
            let description = describe(addr, "Delete ");
            let op = match addr {
                GitHubResourceAddress::BranchProtection { .. } => GitHubConnectorOp::DeleteBranchProtection,
                _ => GitHubConnectorOp::DeleteRepository,
            };
            Ok(vec![PlanStep { op, description }])
        },
        (Some(c), Some(d)) => {
            if bytes_eq(&c.bytes, &d.bytes) {
                return Ok(Vec::new());
            }
            let o = decode_side(addr, c.body, Side::Current)?;
            let n = decode_side(addr, d.body, Side::Desired)?;
            Ok(update_steps(addr, o, n))
        },
    }
}

/// A side's decoded body, checked against the address's kind.
fn decode_side(addr: &GitHubResourceAddress, body: Result<GitHubResource, ParseError>, side: Side) -> (r:
    Result<GitHubResource, ConnectorError>)
    requires
        !(addr@ is Config),
    ensures
        match decoded_as(addr@, body, side) {
            Ok(m) => r matches Ok(b) && b@ == m && body == Ok::<GitHubResource, ParseError>(b),
            Err(e) => r == Err::<GitHubResource, ConnectorError>(e),
        },
{
    match body {
        Err(e) => Err(ConnectorError::Parse { side, error: e }),
        Ok(b) => {
            let fits = match (addr, &b) {
                (GitHubResourceAddress::Repository { .. }, GitHubResource::Repository(_)) => true,
                (
                    GitHubResourceAddress::BranchProtection { .. },
                    GitHubResource::BranchProtection(_),
                ) => true,
                _ => false,
            };
            if fits {
                Ok(b)
            } else {
                Err(ConnectorError::TypeMismatch { side })
            }
        },
    }
}

/// `prefix` followed by the address's target text.
fn describe(addr: &GitHubResourceAddress, prefix: &str) -> (r: String)
    ensures
        r@ == prefix@ + target_text(addr@),
{
    let mut r = String::from_str(prefix);
    match addr {
        GitHubResourceAddress::Repository { owner, repo } => {
            r.append("GitHub repository ");
            r.append(owner.as_str());
            r.append("/");
            r.append(repo.as_str());
            assert(r@ =~= prefix@ + target_text(addr@));
        },
        GitHubResourceAddress::BranchProtection { owner, repo, branch } => {
            r.append("branch protection for ");
            r.append(owner.as_str());
            r.append("/");
            r.append(repo.as_str());
            r.append(" branch ");
            r.append(branch.as_str());
            assert(r@ =~= prefix@ + target_text(addr@));
        },
        GitHubResourceAddress::Config => {
            assert(r@ =~= prefix@ + target_text(addr@));
        },
    }
    r
}

/// The description of an update whose changed fields are the names in `names` with a set flag.
fn describe_update(addr: &GitHubResourceAddress, names: &Vec<&str>, flags: &Vec<bool>) -> (r: String)
    requires
        names@.len() == flags@.len(),
    ensures
        r@ == update_text(addr@, select(names@.map_values(|s: &str| s@), flags@)),
{
    let mut r = describe(addr, "Update ");
    r.append("\nchanged: ");
    let changed = select_names(names, flags);
    let summary = join_strings(&changed, ", ");
    r.append(summary.as_str());
    assert(r@ =~= update_text(addr@, select(names@.map_values(|s: &str| s@), flags@)));
    r
}

fn repository_names() -> (r: Vec<&'static str>)
    ensures
        r@.map_values(|s: &str| s@) == repository_field_names(),
{
    let r = vec![
        "description",
        "homepage",
        "topics",
        "private",
        "has_issues",
        "has_projects",
        "has_wiki",
        "allow_squash_merge",
        "allow_merge_commit",
        "allow_rebase_merge",
        "allow_auto_merge",
        "delete_branch_on_merge",
        "default_branch",
        "archived",
        "disabled",
    ];
    assert(r@.map_values(|s: &str| s@) =~= repository_field_names());
    r
}

fn protection_names() -> (r: Vec<&'static str>)
    ensures
        r@.map_values(|s: &str| s@) == protection_field_names(),
{
    let r = vec![
        "required_status_checks",
        "enforce_admins",
        "required_pull_request_reviews",
        "restrictions",
        "required_linear_history",
        "allow_force_pushes",
        "allow_deletions",
        "block_creations",
        "required_conversation_resolution",
        "lock_branch",
        "allow_fork_syncing",
    ];
    assert(r@.map_values(|s: &str| s@) =~= protection_field_names());
    r
}

/// The plan step for one collaborator operation on repository `owner/repo`.
fn collaborator_step(owner: &String, repo: &String, op: &GitHubConnectorOp) -> (r: PlanStep)
    requires
        op@ is AddCollaborator || op@ is UpdateCollaborator || op@ is RemoveCollaborator,
    ensures
        r.op@ == op@,
        r.description@ == collaborator_text(owner@, repo@, op@),
{
    let mut d = String::new();
    let copy = match op {
        GitHubConnectorOp::AddCollaborator(p, role) => {
            d.append("Add Collaborator ");
            d.append(p.describe().as_str());
            d.append(" to repo ");
            d.append(owner.as_str());
            d.append("/");
            d.append(repo.as_str());
            d.append(" with role ");
            d.append(role.describe().as_str());
            GitHubConnectorOp::AddCollaborator(p.duplicate(), role.duplicate())
        },
        GitHubConnectorOp::UpdateCollaborator(p, role) => {
            d.append("Update Collaborator ");
            d.append(p.describe().as_str());
            d.append(" on repo ");
            d.append(owner.as_str());
            d.append("/");
            d.append(repo.as_str());
            d.append(" to role ");
            d.append(role.describe().as_str());
            GitHubConnectorOp::UpdateCollaborator(p.duplicate(), role.duplicate())
        },
        GitHubConnectorOp::RemoveCollaborator(p) => {
            d.append("Remove Collaborator ");
            d.append(p.describe().as_str());
            d.append(" from repo ");
            d.append(owner.as_str());
            d.append("/");
            d.append(repo.as_str());
            GitHubConnectorOp::RemoveCollaborator(p.duplicate())
        },
        _ => GitHubConnectorOp::DeleteRepository,
    };
    assert(d@ =~= collaborator_text(owner@, repo@, op@));
    PlanStep { op: copy, description: d }
}

/// The update steps between two decoded bodies of the address's kind.
fn update_steps(addr: &GitHubResourceAddress, o: GitHubResource, n: GitHubResource) -> (r: Vec<
    PlanStep,
>)
    requires
        decoded_as(addr@, Ok(o), Side::Current) is Ok,
        decoded_as(addr@, Ok(n), Side::Current) is Ok,
    ensures
        update_steps_hold(addr@, o@, n@, r@),
{
    match (addr, o, n) {
        (
            GitHubResourceAddress::Repository { owner, repo },
            GitHubResource::Repository(ro),
            GitHubResource::Repository(rn),
        ) => {
            let cops = ro.collaborators.diff(&rn.collaborators);
            let mut steps: Vec<PlanStep> = Vec::new();
            let mut i: usize = 0;
            while i < cops.len()
                invariant
                    i <= cops@.len(),
                    is_collaborator_diff(ro@.collaborators, rn@.collaborators, ops_view(cops@)),
                    steps@.len() == i,
                    forall|k: int| 0 <= k < i ==> (#[trigger] steps@[k]).op@ == cops@[k]@,
                    forall|k: int|
                        0 <= k < i ==> (#[trigger] steps@[k]).description@ == collaborator_text(
                            owner@,
                            repo@,
                            steps@[k].op@,
                        ),
                decreases cops@.len() - i,
            {
                assert(is_justified(ro@.collaborators, rn@.collaborators, ops_view(cops@)[i as int]));
                let step = collaborator_step(owner, repo, &cops[i]);
                steps.push(step);
                i = i + 1;
            }
            let m = steps.len();
            assert(steps@.subrange(0, m as int).map_values(|s: PlanStep| s.op@) =~= ops_view(cops@));
            if !ro.same_settings(&rn) {
                let flags = ro.changed_settings(&rn);
                let names = repository_names();
                assert(names@.map_values(|s: &str| s@).len() == names@.len());
                assert(flags@.len() == repository_field_names().len());
                let description = describe_update(addr, &names, &flags);
                steps.push(PlanStep { op: GitHubConnectorOp::UpdateRepository(rn), description });
                assert(steps@.subrange(0, m as int) =~= steps@.subrange(0, m as int).push(steps@[m as int]).drop_last());
                assert(steps@.subrange(0, m as int).map_values(|s: PlanStep| s.op@) =~= ops_view(cops@));
            }
            steps
        },
        (
            GitHubResourceAddress::BranchProtection { .. },
            GitHubResource::BranchProtection(po),
            GitHubResource::BranchProtection(pn),
        ) => {
            if po.same(&pn) {
                return Vec::new();
            }
            let flags = po.changed_rules(&pn);
            let names = protection_names();
            assert(names@.map_values(|s: &str| s@).len() == names@.len());
            assert(flags@.len() == protection_field_names().len());
            let description = describe_update(addr, &names, &flags);
            vec![PlanStep { op: GitHubConnectorOp::UpdateBranchProtection(pn), description }]
        },
        _ => Vec::new(),
    }
}

/// Planning with a current and a desired body of identical bytes yields no
/// operation, whatever the bytes are.
pub proof fn lemma_identical_bodies_plan_nothing(
    a: AddressModel,
    current: Snapshot,
    desired: Snapshot,
    r: Result<Vec<PlanStep>, ConnectorError>,
)
    requires
        plan_holds(a, Some(current), Some(desired), r),
        current.bytes@ == desired.bytes@,
    ensures
        r matches Ok(v) && v@.len() == 0,
{
}

/// Planning with bodies whose bytes differ but which decode to equal
/// structures of the address's kind yields no operation. (Equal structures
/// are also what `GitHubResource::same` reports as the same.)
pub proof fn lemma_equal_structures_plan_nothing(
    a: AddressModel,
    current: Snapshot,
    desired: Snapshot,
    r: Result<Vec<PlanStep>, ConnectorError>,
)
    requires
        plan_holds(a, Some(current), Some(desired), r),
        decoded_as(a, current.body, Side::Current) is Ok,
        decoded_as(a, desired.body, Side::Desired) is Ok,
        decoded_as(a, current.body, Side::Current)->Ok_0 == decoded_as(
            a,
            desired.body,
            Side::Desired,
        )->Ok_0,
    ensures
        r matches Ok(v) && v@.len() == 0,
{
    if current.bytes@ != desired.bytes@ {
        let v = r->Ok_0@;
        match (a, decoded_as(a, current.body, Side::Current)->Ok_0) {
            (AddressModel::Repository { .. }, ResourceModel::Repository(ro)) => {
                let ops = v.subrange(0, v.len() as int).map_values(|s: PlanStep| s.op@);
                if v.len() > 0 {
                    assert(is_justified(ro.collaborators, ro.collaborators, ops[0]));
                }
            },
            _ => {},
        }
    }
}

/// Planning a body that exists only on the desired side, for a repository
/// or a branch protection rule, yields exactly one creation, of that body.
pub proof fn lemma_birth_creates_once(
    a: AddressModel,
    desired: Snapshot,
    r: Result<Vec<PlanStep>, ConnectorError>,
)
    requires
        plan_holds(a, None, Some(desired), r),
        !(a is Config),
        decoded_as(a, desired.body, Side::Desired) is Ok,
    ensures
        r matches Ok(v) && v@.len() == 1 && v@[0].op@ == create_op(
            decoded_as(a, desired.body, Side::Desired)->Ok_0,
        ),
        r matches Ok(v) && (v@[0].op@ is CreateRepository || v@[0].op@ is CreateBranchProtection),
{
}

/// Planning a body that exists only on the current side, for a repository
/// or a branch protection rule, yields exactly one deletion, of that kind.
pub proof fn lemma_death_deletes_once(
    a: AddressModel,
    current: Snapshot,
    r: Result<Vec<PlanStep>, ConnectorError>,
)
    requires
        plan_holds(a, Some(current), None, r),
        !(a is Config),
    ensures
        r matches Ok(v) && v@.len() == 1 && v@[0].op@ == delete_op(a),
        a is Repository ==> (r matches Ok(v) && v@[0].op@ is DeleteRepository),
        a is BranchProtection ==> (r matches Ok(v) && v@[0].op@ is DeleteBranchProtection),
{
}

/// A desired body that fails to decode is never planned around: where the
/// current side is absent, or decodes as the address's kind with other
/// bytes, planning fails with that very parse error, tagged as the desired side's.
pub proof fn lemma_desired_parse_failure_surfaces(
    a: AddressModel,
    current: Option<Snapshot>,
    desired: Snapshot,
    e: ParseError,
    r: Result<Vec<PlanStep>, ConnectorError>,
)
    requires
        plan_holds(a, current, Some(desired), r),
        !(a is Config),
        desired.body == Err::<GitHubResource, ParseError>(e),
        current is Some ==> (current->Some_0.bytes@ != desired.bytes@ && decoded_as(
            a,
            current->Some_0.body,
            Side::Current,
        ) is Ok),
    ensures
        r == Err::<Vec<PlanStep>, ConnectorError>(ConnectorError::Parse { side: Side::Desired, error: e }),
{
}

/// Carrying out a repository plan reaches the desired body: its
/// collaborator steps, applied in order to the current collaborators, give
/// the desired ones, and a final update carrying the desired body comes
/// exactly when some other setting differs.
pub proof fn lemma_repository_plan_reconciles(
    a: AddressModel,
    current: Snapshot,
    desired: Snapshot,
    ro: RepositoryModel,
    rn: RepositoryModel,
    r: Result<Vec<PlanStep>, ConnectorError>,
)
    requires
        a is Repository,
        plan_holds(a, Some(current), Some(desired), r),
        current.bytes@ != desired.bytes@,
        decoded_as(a, current.body, Side::Current) == Ok::<ResourceModel, ConnectorError>(
            ResourceModel::Repository(ro),
        ),
        decoded_as(a, desired.body, Side::Desired) == Ok::<ResourceModel, ConnectorError>(
            ResourceModel::Repository(rn),
        ),
    ensures
        r is Ok,
        ({
            let v = r->Ok_0@;
            let changed = without_collaborators(ro) != without_collaborators(rn);
            let m = if changed {
                v.len() - 1
            } else {
                v.len() as int
            };
            &&& 0 <= m
            &&& apply_ops(ro.collaborators, v.subrange(0, m).map_values(|s: PlanStep| s.op@))
                == rn.collaborators
            &&& changed ==> v[m].op@ == OpModel::UpdateRepository(rn)
        }),
{
    let v = r->Ok_0@;
    let changed = without_collaborators(ro) != without_collaborators(rn);
    let m = if changed {
        v.len() - 1
    } else {
        v.len() as int
    };
    lemma_diff_reconciles(
        ro.collaborators,
        rn.collaborators,
        v.subrange(0, m).map_values(|s: PlanStep| s.op@),
    );
}

} // verus!
