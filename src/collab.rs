//! The collaborators of a repository: a mapping from principal to role, kept
//! sorted by principal, and the difference between two such mappings.

use vstd::prelude::*;

use crate::op::{GitHubConnectorOp, OpModel};
use crate::resource::{
    lemma_principal_lt_irreflexive, lemma_principal_lt_transitive, lemma_principal_lt_trichotomy,
    principal_lt, CollaboratorPrincipal, PrincipalModel, Role, RoleModel,
};

verus! {

/// Keys in strictly increasing `principal_lt` order.
pub open spec fn keys_sorted(s: Seq<(PrincipalModel, RoleModel)>) -> bool {
    forall|i: int, j: int| 0 <= i < j < s.len() ==> principal_lt(#[trigger] s[i].0, #[trigger] s[j].0)
}

/// Whether a key occurs in a list of pairs.
pub open spec fn has_key(s: Seq<(PrincipalModel, RoleModel)>, k: PrincipalModel) -> bool {
    exists|i: int| 0 <= i < s.len() && #[trigger] s[i].0 == k
}

/// The mapping that a list of pairs with distinct keys denotes.
pub open spec fn pairs_to_map(s: Seq<(PrincipalModel, RoleModel)>) -> Map<PrincipalModel, RoleModel> {
    Map::new(
        |k: PrincipalModel| has_key(s, k),
        |k: PrincipalModel| s[choose|i: int| 0 <= i < s.len() && #[trigger] s[i].0 == k].1,
    )
}

pub proof fn lemma_sorted_lookup(s: Seq<(PrincipalModel, RoleModel)>, i: int)
    requires
        keys_sorted(s),
        0 <= i < s.len(),
    ensures
        pairs_to_map(s).contains_key(s[i].0),
        pairs_to_map(s)[s[i].0] == s[i].1,
{
    assert(has_key(s, s[i].0));
    let j = choose|j: int| 0 <= j < s.len() && #[trigger] s[j].0 == s[i].0;
    if j < i {
        lemma_principal_lt_irreflexive(s[i].0);
    } else if i < j {
        lemma_principal_lt_irreflexive(s[i].0);
    }
}

/// Whether a principal's access differs between two mappings: granted,
/// revoked, or granted with another role.
pub open spec fn access_changed(
    o: Map<PrincipalModel, RoleModel>,
    n: Map<PrincipalModel, RoleModel>,
    k: PrincipalModel,
) -> bool {
    (o.contains_key(k) || n.contains_key(k)) && !(o.contains_key(k) && n.contains_key(k) && o[k]
        == n[k])
}

/// The principal that a collaborator operation concerns.
pub open spec fn op_principal(op: OpModel) -> PrincipalModel {
    match op {
        OpModel::AddCollaborator(p, _) => p,
        OpModel::UpdateCollaborator(p, _) => p,
        OpModel::RemoveCollaborator(p) => p,
        _ => arbitrary(),
    }
}

/// A collaborator operation that takes mapping `o` toward mapping `n`:
/// adding a principal that `o` lacks with its role in `n`, updating one whose
/// role differs to its role in `n`, or removing one that `n` lacks.
pub open spec fn is_justified(
    o: Map<PrincipalModel, RoleModel>,
    n: Map<PrincipalModel, RoleModel>,
    op: OpModel,
) -> bool {
    match op {
        OpModel::AddCollaborator(p, r) => !o.contains_key(p) && n.contains_key(p) && n[p] == r,
        OpModel::UpdateCollaborator(p, r) => o.contains_key(p) && n.contains_key(p) && n[p] == r
            && o[p] != r,
        OpModel::RemoveCollaborator(p) => o.contains_key(p) && !n.contains_key(p),
        _ => false,
    }
}

/// The collaborator operations that take `o` to `n`: each one justified,
/// one for every principal whose access changed, in increasing order of principal.
pub open spec fn is_collaborator_diff(
    o: Map<PrincipalModel, RoleModel>,
    n: Map<PrincipalModel, RoleModel>,
    ops: Seq<OpModel>,
) -> bool {
    &&& forall|t: int| 0 <= t < ops.len() ==> is_justified(o, n, #[trigger] ops[t])
    &&& forall|t1: int, t2: int|
        0 <= t1 < t2 < ops.len() ==> principal_lt(
            op_principal(#[trigger] ops[t1]),
            op_principal(#[trigger] ops[t2]),
        )
    &&& forall|k: PrincipalModel|
        #[trigger] access_changed(o, n, k) ==> exists|t: int|
            0 <= t < ops.len() && op_principal(#[trigger] ops[t]) == k
}

/// The mapping after one collaborator operation.
pub open spec fn apply_op(m: Map<PrincipalModel, RoleModel>, op: OpModel) -> Map<PrincipalModel, RoleModel> {
    match op {
        OpModel::AddCollaborator(p, r) => m.insert(p, r),
        OpModel::UpdateCollaborator(p, r) => m.insert(p, r),
        OpModel::RemoveCollaborator(p) => m.remove(p),
        _ => m,
    }
}

/// The mapping after a list of collaborator operations, applied in order.
pub open spec fn apply_ops(m: Map<PrincipalModel, RoleModel>, ops: Seq<OpModel>) -> Map<
    PrincipalModel,
    RoleModel,
>
    decreases ops.len(),
{
    if ops.len() == 0 {
        m
    } else {
        apply_op(apply_ops(m, ops.drop_last()), ops.last())
    }
}

/// Operations on distinct principals, none of which is anything but a
/// collaborator operation.
pub open spec fn distinct_collaborator_ops(ops: Seq<OpModel>) -> bool {
    &&& forall|t: int|
        0 <= t < ops.len() ==> (#[trigger] ops[t] is AddCollaborator || ops[t] is UpdateCollaborator
            || ops[t] is RemoveCollaborator)
    &&& forall|t1: int, t2: int|
        0 <= t1 < t2 < ops.len() ==> op_principal(#[trigger] ops[t1]) != op_principal(
            #[trigger] ops[t2],
        )
}

proof fn lemma_apply_ops_at(m: Map<PrincipalModel, RoleModel>, ops: Seq<OpModel>, k: PrincipalModel)
    requires
        distinct_collaborator_ops(ops),
    ensures
        (forall|t: int| 0 <= t < ops.len() ==> op_principal(#[trigger] ops[t]) != k) ==> {
            &&& apply_ops(m, ops).contains_key(k) == m.contains_key(k)
            &&& m.contains_key(k) ==> apply_ops(m, ops)[k] == m[k]
        },
        forall|t: int|
            0 <= t < ops.len() && op_principal(#[trigger] ops[t]) == k ==> match ops[t] {
                OpModel::AddCollaborator(_, r) => apply_ops(m, ops).contains_key(k) && apply_ops(
                    m,
                    ops,
                )[k] == r,
                OpModel::UpdateCollaborator(_, r) => apply_ops(m, ops).contains_key(k) && apply_ops(
                    m,
                    ops,
                )[k] == r,
                _ => !apply_ops(m, ops).contains_key(k),
            },
    decreases ops.len(),
{
    if ops.len() > 0 {
        let init = ops.drop_last();
        assert(distinct_collaborator_ops(init)) by {
            assert forall|t: int| 0 <= t < init.len() implies (#[trigger] init[t] is AddCollaborator
                || init[t] is UpdateCollaborator || init[t] is RemoveCollaborator) by {
                assert(init[t] == ops[t]);
            }
            assert forall|t1: int, t2: int| 0 <= t1 < t2 < init.len() implies op_principal(
                #[trigger] init[t1],
            ) != op_principal(#[trigger] init[t2]) by {
                assert(init[t1] == ops[t1] && init[t2] == ops[t2]);
            }
        }
        lemma_apply_ops_at(m, init, k);
        let last = ops.last();
        assert(last == ops[ops.len() - 1]);
        assert forall|t: int| 0 <= t < init.len() implies #[trigger] init[t] == ops[t] by {}
        let prev = apply_ops(m, init);
        assert(apply_ops(m, ops) == apply_op(prev, last));
        if op_principal(last) == k {
            assert forall|t: int| 0 <= t < init.len() implies op_principal(#[trigger] init[t]) != k by {
                assert(op_principal(ops[t]) != op_principal(ops[ops.len() - 1]));
            }
            assert forall|t: int|
                0 <= t < ops.len() && op_principal(#[trigger] ops[t]) == k implies t == ops.len() - 1 by {
                if t < ops.len() - 1 {
                    assert(op_principal(ops[t]) != op_principal(ops[ops.len() - 1]));
                }
            }
            assert(last is AddCollaborator || last is UpdateCollaborator || last is RemoveCollaborator);
        } else {
            assert(last is AddCollaborator || last is UpdateCollaborator || last is RemoveCollaborator);
            assert(apply_op(prev, last).contains_key(k) == prev.contains_key(k));
            assert(prev.contains_key(k) ==> apply_op(prev, last)[k] == prev[k]);
            assert forall|t: int|
                0 <= t < ops.len() && op_principal(#[trigger] ops[t]) == k implies match ops[t] {
                OpModel::AddCollaborator(_, r) => apply_ops(m, ops).contains_key(k) && apply_ops(
                    m,
                    ops,
                )[k] == r,
                OpModel::UpdateCollaborator(_, r) => apply_ops(m, ops).contains_key(k) && apply_ops(
                    m,
                    ops,
                )[k] == r,
                _ => !apply_ops(m, ops).contains_key(k),
            } by {
                assert(t < init.len());
                assert(init[t] == ops[t]);
                assert(op_principal(init[t]) == k);
            }
        }
    }
}

/// Applying the operations of a collaborator diff to the current mapping
/// gives the desired mapping.
pub proof fn lemma_diff_reconciles(
    o: Map<PrincipalModel, RoleModel>,
    n: Map<PrincipalModel, RoleModel>,
    ops: Seq<OpModel>,
)
    requires
        is_collaborator_diff(o, n, ops),
    ensures
        apply_ops(o, ops) == n,
{
    assert(distinct_collaborator_ops(ops)) by {
        assert forall|t: int| 0 <= t < ops.len() implies (#[trigger] ops[t] is AddCollaborator
            || ops[t] is UpdateCollaborator || ops[t] is RemoveCollaborator) by {
            assert(is_justified(o, n, ops[t]));
        }
        assert forall|t1: int, t2: int| 0 <= t1 < t2 < ops.len() implies op_principal(
            #[trigger] ops[t1],
        ) != op_principal(#[trigger] ops[t2]) by {
            lemma_principal_lt_irreflexive(op_principal(ops[t1]));
        }
    }
    let r = apply_ops(o, ops);
    assert forall|k: PrincipalModel| #[trigger] r.contains_key(k) == n.contains_key(k) && (r.contains_key(
        k,
    ) ==> r[k] == n[k]) by {
        lemma_apply_ops_at(o, ops, k);
        if exists|t: int| 0 <= t < ops.len() && op_principal(#[trigger] ops[t]) == k {
            let t = choose|t: int| 0 <= t < ops.len() && op_principal(#[trigger] ops[t]) == k;
            assert(is_justified(o, n, ops[t]));
        } else {
            assert(!access_changed(o, n, k));
        }
    }
    assert(r =~= n);
}

/// The views of a list of operations.
pub open spec fn ops_view(v: Seq<GitHubConnectorOp>) -> Seq<OpModel> {
    v.map_values(|o: GitHubConnectorOp| o@)
}

/// The views of a list of entries.
pub open spec fn entries_view(v: Seq<(CollaboratorPrincipal, Role)>) -> Seq<(PrincipalModel, RoleModel)> {
    v.map_values(|e: (CollaboratorPrincipal, Role)| (e.0@, e.1@))
}

/// Appends copies of `src[from..to]` to `dst`.
fn copy_entries(
    src: &Vec<(CollaboratorPrincipal, Role)>,
    from: usize,
    to: usize,
    dst: &mut Vec<(CollaboratorPrincipal, Role)>,
)
    requires
        from <= to <= src@.len(),
    ensures
        entries_view(final(dst)@) == entries_view(old(dst)@) + entries_view(src@).subrange(
            from as int,
            to as int,
        ),
{
    let ghost start = entries_view(dst@);
    let mut k: usize = from;
    while k < to
        invariant
            from <= k <= to,
            to <= src@.len(),
            entries_view(dst@) == start + entries_view(src@).subrange(from as int, k as int),
        decreases to - k,
    {
        let e = (src[k].0.duplicate(), src[k].1.duplicate());
        assert(entries_view(src@)[k as int] == (e.0@, e.1@));
        let ghost before = dst@;
        let ghost eg = e;
        dst.push(e);
        assert(dst@ == before.push(eg));
        assert(entries_view(dst@) =~= entries_view(before).push((eg.0@, eg.1@)));
        assert(entries_view(dst@) =~= start + entries_view(src@).subrange(from as int, k as int + 1));
        k = k + 1;
    }
}

/// Principals and their roles. Each principal occurs once; the entries are
/// kept in increasing order of principal, users before teams, each by name.
#[derive(Debug)]
pub struct Collaborators {
    entries: Vec<(CollaboratorPrincipal, Role)>,
}

impl View for Collaborators {
    type V = Map<PrincipalModel, RoleModel>;

    open spec fn view(&self) -> Map<PrincipalModel, RoleModel> {
        pairs_to_map(self.pairs())
    }
}

impl Collaborators {
    /// The entries as mathematical pairs, in order.
    pub closed spec fn pairs(&self) -> Seq<(PrincipalModel, RoleModel)> {
        entries_view(self.entries@)
    }

    #[verifier::type_invariant]
    spec fn sorted(&self) -> bool {
        keys_sorted(self.pairs())
    }

    /// No collaborators.
    pub fn new() -> (r: Collaborators)
        ensures
            r@ == Map::<PrincipalModel, RoleModel>::empty(),
    {
        let r = Collaborators { entries: Vec::new() };
        assert(r@ =~= Map::<PrincipalModel, RoleModel>::empty());
        r
    }

    /// The number of principals.
    pub fn len(&self) -> (r: usize)
        ensures
            r == self.pairs().len(),
            r == self@.dom().len(),
            self@.dom().finite(),
    {
        proof {
            use_type_invariant(self);
            let s = self.pairs();
            let keys = s.map_values(|e: (PrincipalModel, RoleModel)| e.0);
            assert(keys.no_duplicates()) by {
                assert forall|i: int, j: int| 0 <= i < keys.len() && 0 <= j < keys.len() && i != j
                    implies keys[i] != keys[j] by {
                    lemma_principal_lt_irreflexive(s[i].0);
                    if i > j {
                        assert(principal_lt(s[j].0, s[i].0));
                    }
                }
            }
            keys.unique_seq_to_set();
            assert(self@.dom() =~= keys.to_set()) by {
                assert forall|k: PrincipalModel| self@.dom().contains(k) implies keys.to_set().contains(k) by {
                    let i = choose|i: int| 0 <= i < s.len() && #[trigger] s[i].0 == k;
                    assert(keys[i] == k);
                }
                assert forall|k: PrincipalModel| keys.to_set().contains(k) implies self@.dom().contains(k) by {
                    let i = choose|i: int| 0 <= i < keys.len() && keys[i] == k;
                    assert(s[i].0 == k);
                }
            }
        }
        self.entries.len()
    }

    /// The principal and role at a position of the order.
    pub fn entry(&self, i: usize) -> (r: &(CollaboratorPrincipal, Role))
        requires
            i < self.pairs().len(),
        ensures
            (r.0@, r.1@) == self.pairs()[i as int],
            self@.contains_key(r.0@),
            self@[r.0@] == r.1@,
    {
        proof {
            use_type_invariant(self);
            lemma_sorted_lookup(self.pairs(), i as int);
        }
        &self.entries[i]
    }

    /// The role of a principal, if it has one.
    pub fn get(&self, p: &CollaboratorPrincipal) -> (r: Option<&Role>)
        ensures
            match r {
                Some(x) => self@.contains_key(p@) && self@[p@] == x@,
                None => !self@.contains_key(p@),
            },
    {
        proof {
            use_type_invariant(self);
        }
        let mut i: usize = 0;
        while i < self.entries.len()
            invariant
                i <= self.pairs().len(),
                self.pairs().len() == self.entries@.len(),
                keys_sorted(self.pairs()),
                forall|j: int| 0 <= j < i ==> self.pairs()[j].0 != p@,
            decreases self.entries@.len() - i,
        {
            if self.entries[i].0.compare(p) == 0 {
                proof {
                    lemma_sorted_lookup(self.pairs(), i as int);
                }
                return Some(&self.entries[i].1);
            }
            i = i + 1;
        }
        None
    }

    /// Grants a principal a role, replacing the role it had.
    pub fn insert(&mut self, p: CollaboratorPrincipal, role: Role)
        ensures
            final(self)@ == old(self)@.insert(p@, role@),
    {
        proof {
            use_type_invariant(&*self);
        }
        let ghost s = self.pairs();
        let n = self.entries.len();
        let mut i: usize = 0;
        let mut done = false;
        while !done && i < n
            invariant
                n == s.len(),
                s == self.pairs(),
                i <= n,
                keys_sorted(s),
                forall|j: int| 0 <= j < i ==> principal_lt(#[trigger] s[j].0, p@),
                done ==> i < n && !principal_lt(s[i as int].0, p@),
            decreases n - i + (if done { 0int } else { 1int }),
        {
            let c = self.entries[i].0.compare(&p);
            if c >= 0 {
                done = true;
            } else {
                i = i + 1;
            }
        }
        let ghost key = p@;
        let ghost val = role@;
        if i < n && self.entries[i].0.compare(&p) == 0 {
            let mut v: Vec<(CollaboratorPrincipal, Role)> = Vec::new();
            copy_entries(&self.entries, 0, i, &mut v);
            let ghost before = v@;
            let ghost eg = (p, role);
            v.push((p, role));
            assert(v@ == before.push(eg));
            assert(entries_view(v@) =~= entries_view(before).push((key, val)));
            copy_entries(&self.entries, i + 1, n, &mut v);
            let ghost t = s.update(i as int, (key, val));
            assert(entries_view(v@) =~= t);
            assert(keys_sorted(t)) by {
                assert forall|a: int, b: int| 0 <= a < b < t.len() implies principal_lt(
                    #[trigger] t[a].0,
                    #[trigger] t[b].0,
                ) by {
                    assert(s[a].0 == t[a].0 && s[b].0 == t[b].0);
                }
            }
            proof {
                assert forall|k: PrincipalModel| #[trigger]
                    pairs_to_map(t).contains_key(k) == pairs_to_map(s).insert(
                    key,
                    val,
                ).contains_key(k) by {
                    if has_key(t, k) && k != key {
                        let j = choose|j: int| 0 <= j < t.len() && #[trigger] t[j].0 == k;
                        assert(s[j].0 == k);
                    }
                    if has_key(s, k) {
                        let j = choose|j: int| 0 <= j < s.len() && #[trigger] s[j].0 == k;
                        assert(t[j].0 == k);
                    }
                }
                assert forall|k: PrincipalModel| #[trigger]
                    pairs_to_map(t).contains_key(k) implies pairs_to_map(t)[k] == pairs_to_map(
                    s,
                ).insert(key, val)[k] by {
                    let j = choose|j: int| 0 <= j < t.len() && #[trigger] t[j].0 == k;
                    lemma_sorted_lookup(t, j);
                    if j != i {
                        lemma_sorted_lookup(s, j);
                    }
                }
                assert(pairs_to_map(t) =~= pairs_to_map(s).insert(key, val));
            }
            *self = Collaborators { entries: v };
        } else {
            proof {
                if i < n {
                    lemma_principal_lt_trichotomy(s[i as int].0, key);
                    assert(principal_lt(key, s[i as int].0));
                }
            }
            let ghost t = s.insert(i as int, (key, val));
            let mut v: Vec<(CollaboratorPrincipal, Role)> = Vec::new();
            copy_entries(&self.entries, 0, i, &mut v);
            let ghost before = v@;
            let ghost eg = (p, role);
            v.push((p, role));
            assert(v@ == before.push(eg));
            assert(entries_view(v@) =~= entries_view(before).push((key, val)));
            copy_entries(&self.entries, i, n, &mut v);
            assert(entries_view(v@) =~= t);
            assert(keys_sorted(t)) by {
                assert forall|a: int, b: int| 0 <= a < b < t.len() implies principal_lt(
                    #[trigger] t[a].0,
                    #[trigger] t[b].0,
                ) by {
                    if b < i {
                    } else if b == i {
                    } else if a < i {
                        assert(t[b] == s[b - 1]);
                        if b - 1 > i {
                            lemma_principal_lt_transitive(key, s[i as int].0, s[b - 1].0);
                        }
                        lemma_principal_lt_transitive(s[a].0, key, s[b - 1].0);
                    } else if a == i {
                        assert(t[b] == s[b - 1]);
                        if b - 1 > i {
                            lemma_principal_lt_transitive(key, s[i as int].0, s[b - 1].0);
                        }
                    } else {
                        assert(t[a] == s[a - 1] && t[b] == s[b - 1]);
                    }
                }
            }
            proof {
                assert forall|k: PrincipalModel| #[trigger]
                    pairs_to_map(t).contains_key(k) == pairs_to_map(s).insert(
                    key,
                    val,
                ).contains_key(k) by {
                    if has_key(t, k) {
                        let j = choose|j: int| 0 <= j < t.len() && #[trigger] t[j].0 == k;
                        if j < i {
                            assert(s[j].0 == k);
                        } else if j > i {
                            assert(s[j - 1].0 == k);
                        }
                    }
                    if has_key(s, k) {
                        let j = choose|j: int| 0 <= j < s.len() && #[trigger] s[j].0 == k;
                        if j < i {
                            assert(t[j].0 == k);
                        } else {
                            assert(t[j + 1].0 == k);
                        }
                    }
                    if k == key {
                        assert(t[i as int].0 == k);
                    }
                }
                assert forall|k: PrincipalModel| #[trigger]
                    pairs_to_map(t).contains_key(k) implies pairs_to_map(t)[k] == pairs_to_map(
                    s,
                ).insert(key, val)[k] by {
                    let j = choose|j: int| 0 <= j < t.len() && #[trigger] t[j].0 == k;
                    lemma_sorted_lookup(t, j);
                    if j < i {
                        lemma_sorted_lookup(s, j);
                        assert(t[j] == s[j]);
                        lemma_principal_lt_irreflexive(key);
                    } else if j > i {
                        lemma_sorted_lookup(s, j - 1);
                        assert(t[j] == s[j - 1]);
                        lemma_principal_lt_irreflexive(key);
                        if j - 1 > i {
                            lemma_principal_lt_transitive(key, s[i as int].0, s[j - 1].0);
                        }
                    }
                }
                assert(pairs_to_map(t) =~= pairs_to_map(s).insert(key, val));
            }
            *self = Collaborators { entries: v };
        }
    }

    /// Whether two mappings grant the same principals the same roles.
    pub fn same(&self, other: &Collaborators) -> (r: bool)
        ensures
            r == (self@ == other@),
    {
        let d = self.diff(other);
        if d.len() == 0 {
            assert(self@ =~= other@) by {
                assert forall|k: PrincipalModel| !#[trigger] access_changed(self@, other@, k) by {
                    if access_changed(self@, other@, k) {
                        let t = choose|t: int|
                            0 <= t < ops_view(d@).len() && op_principal(#[trigger] ops_view(d@)[t]) == k;
                    }
                }
                assert forall|k: PrincipalModel| self@.contains_key(k) == other@.contains_key(k) by {
                    assert(!access_changed(self@, other@, k));
                }
                assert forall|k: PrincipalModel| #[trigger] self@.contains_key(k) implies self@[k]
                    == other@[k] by {
                    assert(!access_changed(self@, other@, k));
                }
            }
            true
        } else {
            assert(is_justified(self@, other@, ops_view(d@)[0]));
            false
        }
    }

    /// The collaborator operations that take this mapping to `desired`: one
    /// add, update or remove for each principal whose access differs, in
    /// increasing order of principal.
    pub fn diff(&self, desired: &Collaborators) -> (r: Vec<GitHubConnectorOp>)
        ensures
            is_collaborator_diff(self@, desired@, ops_view(r@)),
    {
        proof {
            use_type_invariant(self);
            use_type_invariant(desired);
        }
        let ghost a = self.pairs();
        let ghost b = desired.pairs();
        let ghost om = self@;
        let ghost nm = desired@;
        let na = self.entries.len();
        let nb = desired.entries.len();
        let mut ops: Vec<GitHubConnectorOp> = Vec::new();
        let mut i: usize = 0;
        let mut j: usize = 0;
        while i < na || j < nb
            invariant
                a == self.pairs(),
                b == desired.pairs(),
                om == pairs_to_map(a),
                nm == pairs_to_map(b),
                na == a.len(),
                nb == b.len(),
                keys_sorted(a),
                keys_sorted(b),
                i <= na,
                j <= nb,
                forall|t: int| 0 <= t < ops@.len() ==> is_justified(om, nm, #[trigger] ops@[t]@),
                forall|t1: int, t2: int|
                    0 <= t1 < t2 < ops@.len() ==> principal_lt(
                        op_principal(#[trigger] ops@[t1]@),
                        op_principal(#[trigger] ops@[t2]@),
                    ),
                forall|t: int, x: int|
                    0 <= t < ops@.len() && i <= x < na ==> principal_lt(
                        op_principal(#[trigger] ops@[t]@),
                        #[trigger] a[x].0,
                    ),
                forall|t: int, y: int|
                    0 <= t < ops@.len() && j <= y < nb ==> principal_lt(
                        op_principal(#[trigger] ops@[t]@),
                        #[trigger] b[y].0,
                    ),
                forall|x: int, y: int|
                    0 <= x < i && j <= y < nb ==> principal_lt(#[trigger] a[x].0, #[trigger] b[y].0),
                forall|y: int, x: int|
                    0 <= y < j && i <= x < na ==> principal_lt(#[trigger] b[y].0, #[trigger] a[x].0),
                forall|k: PrincipalModel|
                    #[trigger] access_changed(om, nm, k) ==> (exists|t: int|
                        0 <= t < ops@.len() && op_principal(#[trigger] ops@[t]@) == k) || (exists|
                        x: int,
                    |
                        i <= x < na && #[trigger] a[x].0 == k) || (exists|y: int|
                        j <= y < nb && #[trigger] b[y].0 == k),
            decreases na + nb - i - j,
        {
            let c: i8 = if i == na {
                1
            } else if j == nb {
                -1
            } else {
                self.entries[i].0.compare(&desired.entries[j].0)
            };
            let ghost old_ops = ops@;
            if c < 0 {
                // a principal that only the current mapping has
                let ghost k = a[i as int].0;
                proof {
                    lemma_sorted_lookup(a, i as int);
                    lemma_principal_lt_irreflexive(k);
                    assert(!nm.contains_key(k)) by {
                        if has_key(b, k) {
                            let y = choose|y: int| 0 <= y < b.len() && #[trigger] b[y].0 == k;
                            if y > j {
                                lemma_principal_lt_transitive(k, b[j as int].0, b[y].0);
                            }
                        }
                    }
                    assert forall|y: int| j <= y < nb implies principal_lt(k, #[trigger] b[y].0) by {
                        if y > j {
                            lemma_principal_lt_transitive(k, b[j as int].0, b[y].0);
                        }
                    }
                }
                ops.push(GitHubConnectorOp::RemoveCollaborator(self.entries[i].0.duplicate()));
                proof {
                    assert(op_principal(ops@[old_ops.len() as int]@) == k);
                    assert forall|kk: PrincipalModel| #[trigger] access_changed(om, nm, kk) implies (exists|t: int|
                        0 <= t < ops@.len() && op_principal(#[trigger] ops@[t]@) == kk) || (exists|x: int|
                        i + 1 <= x < na && #[trigger] a[x].0 == kk) || (exists|y: int|
                        j <= y < nb && #[trigger] b[y].0 == kk) by {
                        if exists|t: int| 0 <= t < old_ops.len() && op_principal(#[trigger] old_ops[t]@) == kk {
                            let t = choose|t: int| 0 <= t < old_ops.len() && op_principal(#[trigger] old_ops[t]@) == kk;
                            assert(ops@[t] == old_ops[t]);
                        } else if exists|x: int| i <= x < na && #[trigger] a[x].0 == kk {
                            let x = choose|x: int| i <= x < na && #[trigger] a[x].0 == kk;
                            if x == i {
                                assert(op_principal(ops@[old_ops.len() as int]@) == kk);
                            } else {
                                assert(a[x].0 == kk);
                            }
                        }
                    }
                    assert forall|t: int, x: int|
                        0 <= t < ops@.len() && i + 1 <= x < na implies principal_lt(
                        op_principal(#[trigger] ops@[t]@),
                        #[trigger] a[x].0,
                    ) by {
                        if t < old_ops.len() {
                            assert(ops@[t] == old_ops[t]);
                        }
                    }
                    assert forall|t: int| 0 <= t < old_ops.len() implies #[trigger] ops@[t] == old_ops[t] by {}
                }
                i = i + 1;
            } else if c > 0 {
                // a principal that only the desired mapping has
                let ghost k = b[j as int].0;
                proof {
                    lemma_sorted_lookup(b, j as int);
                    lemma_principal_lt_irreflexive(k);
                    assert(!om.contains_key(k)) by {
                        if has_key(a, k) {
                            let x = choose|x: int| 0 <= x < a.len() && #[trigger] a[x].0 == k;
                            if x > i {
                                lemma_principal_lt_transitive(k, a[i as int].0, a[x].0);
                            }
                        }
                    }
                    assert forall|x: int| i <= x < na implies principal_lt(k, #[trigger] a[x].0) by {
                        if x > i {
                            lemma_principal_lt_transitive(k, a[i as int].0, a[x].0);
                        }
                    }
                }
                ops.push(
                    GitHubConnectorOp::AddCollaborator(
                        desired.entries[j].0.duplicate(),
                        desired.entries[j].1.duplicate(),
                    ),
                );
                proof {
                    assert(op_principal(ops@[old_ops.len() as int]@) == k);
                    assert forall|kk: PrincipalModel| #[trigger] access_changed(om, nm, kk) implies (exists|t: int|
                        0 <= t < ops@.len() && op_principal(#[trigger] ops@[t]@) == kk) || (exists|x: int|
                        i <= x < na && #[trigger] a[x].0 == kk) || (exists|y: int|
                        j + 1 <= y < nb && #[trigger] b[y].0 == kk) by {
                        if exists|t: int| 0 <= t < old_ops.len() && op_principal(#[trigger] old_ops[t]@) == kk {
                            let t = choose|t: int| 0 <= t < old_ops.len() && op_principal(#[trigger] old_ops[t]@) == kk;
                            assert(ops@[t] == old_ops[t]);
                        } else if exists|y: int| j <= y < nb && #[trigger] b[y].0 == kk {
                            let y = choose|y: int| j <= y < nb && #[trigger] b[y].0 == kk;
                            if y == j {
                                assert(op_principal(ops@[old_ops.len() as int]@) == kk);
                            } else {
                                assert(b[y].0 == kk);
                            }
                        }
                    }
                    assert forall|t: int, x: int|
                        0 <= t < ops@.len() && i <= x < na implies principal_lt(
                        op_principal(#[trigger] ops@[t]@),
                        #[trigger] a[x].0,
                    ) by {
                        if t < old_ops.len() {
                            assert(ops@[t] == old_ops[t]);
                        }
                    }
                    assert forall|t: int| 0 <= t < old_ops.len() implies #[trigger] ops@[t] == old_ops[t] by {}
                }
                j = j + 1;
            } else {
                // a principal that both have
                let ghost k = a[i as int].0;
                proof {
                    lemma_sorted_lookup(a, i as int);
                    lemma_sorted_lookup(b, j as int);
                    lemma_principal_lt_irreflexive(k);
                    assert forall|x: int| i < x < na implies principal_lt(k, #[trigger] a[x].0) by {}
                    assert forall|y: int| j < y < nb implies principal_lt(k, #[trigger] b[y].0) by {}
                }
                let differs = !self.entries[i].1.same(&desired.entries[j].1);
                if differs {
                    ops.push(
                        GitHubConnectorOp::UpdateCollaborator(
                            desired.entries[j].0.duplicate(),
                            desired.entries[j].1.duplicate(),
                        ),
                    );
                }
                proof {
                    if differs {
                        assert(op_principal(ops@[old_ops.len() as int]@) == k);
                    }
                    assert forall|kk: PrincipalModel| #[trigger] access_changed(om, nm, kk) implies (exists|t: int|
                        0 <= t < ops@.len() && op_principal(#[trigger] ops@[t]@) == kk) || (exists|x: int|
                        i + 1 <= x < na && #[trigger] a[x].0 == kk) || (exists|y: int|
                        j + 1 <= y < nb && #[trigger] b[y].0 == kk) by {
                        if exists|t: int| 0 <= t < old_ops.len() && op_principal(#[trigger] old_ops[t]@) == kk {
                            let t = choose|t: int| 0 <= t < old_ops.len() && op_principal(#[trigger] old_ops[t]@) == kk;
                            assert(ops@[t] == old_ops[t]);
                        } else if exists|x: int| i <= x < na && #[trigger] a[x].0 == kk {
                            let x = choose|x: int| i <= x < na && #[trigger] a[x].0 == kk;
                            if x == i {
                                if differs {
                                    assert(op_principal(ops@[old_ops.len() as int]@) == kk);
                                }
                            } else {
                                assert(a[x].0 == kk);
                            }
                        } else if exists|y: int| j <= y < nb && #[trigger] b[y].0 == kk {
                            let y = choose|y: int| j <= y < nb && #[trigger] b[y].0 == kk;
                            if y == j {
                                if differs {
                                    assert(op_principal(ops@[old_ops.len() as int]@) == kk);
                                }
                            } else {
                                assert(b[y].0 == kk);
                            }
                        }
                    }
                    assert forall|t: int, x: int|
                        0 <= t < ops@.len() && i + 1 <= x < na implies principal_lt(
                        op_principal(#[trigger] ops@[t]@),
                        #[trigger] a[x].0,
                    ) by {
                        if t < old_ops.len() {
                            assert(ops@[t] == old_ops[t]);
                        }
                    }
                    assert forall|t: int, y: int|
                        0 <= t < ops@.len() && j + 1 <= y < nb implies principal_lt(
                        op_principal(#[trigger] ops@[t]@),
                        #[trigger] b[y].0,
                    ) by {
                        if t < old_ops.len() {
                            assert(ops@[t] == old_ops[t]);
                        }
                    }
                    assert forall|t: int| 0 <= t < old_ops.len() implies #[trigger] ops@[t] == old_ops[t] by {}
                }
                i = i + 1;
                j = j + 1;
            }
        }
        proof {
            assert forall|k: PrincipalModel| #[trigger] access_changed(om, nm, k) implies exists|t: int|
                0 <= t < ops_view(ops@).len() && op_principal(#[trigger] ops_view(ops@)[t]) == k by {
                let t = choose|t: int| 0 <= t < ops@.len() && op_principal(#[trigger] ops@[t]@) == k;
                assert(ops_view(ops@)[t] == ops@[t]@);
            }
            assert forall|t: int| 0 <= t < ops_view(ops@).len() implies is_justified(
                om,
                nm,
                #[trigger] ops_view(ops@)[t],
            ) by {
                assert(ops_view(ops@)[t] == ops@[t]@);
            }
            assert forall|t1: int, t2: int|
                0 <= t1 < t2 < ops_view(ops@).len() implies principal_lt(
                op_principal(#[trigger] ops_view(ops@)[t1]),
                op_principal(#[trigger] ops_view(ops@)[t2]),
            ) by {
                assert(ops_view(ops@)[t1] == ops@[t1]@);
                assert(ops_view(ops@)[t2] == ops@[t2]@);
            }
        }
        ops
    }
}

} // verus!
