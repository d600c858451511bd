//! The resource manager for developer records: sole owner of the
//! collection, it enforces identifier uniqueness and implements the
//! partial-update (merge) semantics.

use vstd::prelude::*;
use crate::developer::{Developer, DevView, Role, has_skill, merged};
use crate::filtering;

verus! {

/// Outcome of an update: either the record was found and merged, or no
/// record carries the requested identifier.
#[derive(Clone, Copy, PartialEq, Eq, Structural, Debug)]
pub enum UpdateOutcome {
    Updated,
    NotFound,
}

/// Outcome of a delete: either the record was removed, or no record carries
/// the requested identifier.
#[derive(Clone, Copy, PartialEq, Eq, Structural, Debug)]
pub enum DeleteOutcome {
    Deleted,
    NotFound,
}

/// The views of a sequence of records, in the same order.
pub open spec fn dev_views(s: Seq<Developer>) -> Seq<DevView> {
    Seq::new(s.len(), |i: int| s[i]@)
}

/// The predicate a record's view satisfies when it lists `skill` under
/// ASCII case-insensitive comparison.
pub open spec fn matches_skill(skill: Seq<char>) -> spec_fn(DevView) -> bool {
    |dv: DevView| has_skill(dv, skill)
}

/// The predicate a record's view satisfies when it survives a delete of
/// `id`.
pub open spec fn id_differs(id: u128) -> spec_fn(DevView) -> bool {
    |dv: DevView| dv.id != id
}

/// Owns the collection of developer records. Identifiers are assigned from
/// a counter that only grows, so an identifier is never reused, not even
/// after the record carrying it is deleted.
pub struct DeveloperManager {
    pub developers: Vec<Developer>,
    pub next_id: u128,
}

impl View for DeveloperManager {
    type V = Seq<DevView>;

    open spec fn view(&self) -> Seq<DevView> {
        dev_views(self.developers@)
    }
}

impl DeveloperManager {
    /// Well-formedness: identifiers are pairwise distinct and every
    /// identifier in the collection was drawn from the counter.
    pub open spec fn wf(&self) -> bool {
        &&& forall|i: int, j: int|
            0 <= i < self@.len() && 0 <= j < self@.len() && i != j ==> #[trigger] self@[i].id
                != #[trigger] self@[j].id
        &&& forall|i: int| 0 <= i < self@.len() ==> #[trigger] self@[i].id < self.next_id
    }

    /// An empty manager.
    pub fn new() -> (m: DeveloperManager)
        ensures
            m.wf(),
            m@.len() == 0,
            m.next_id == 1,
    {
        DeveloperManager { developers: Vec::new(), next_id: 1 }
    }

    /// The index of the record carrying `id`, if any.
    fn find_index(v: &Vec<Developer>, id: u128) -> (r: Option<usize>)
        ensures
            match r {
                Some(j) => j < v@.len() && dev_views(v@)[j as int].id == id,
                None => forall|k: int| 0 <= k < v@.len() ==> dev_views(v@)[k].id != id,
            },
    {
        let mut j: usize = 0;
        while j < v.len()
            invariant
                j <= v@.len(),
                forall|k: int| 0 <= k < j ==> dev_views(v@)[k].id != id,
            decreases v@.len() - j,
        {
            if v[j].id == id {
                return Some(j);
            }
            j += 1;
        }
        None
    }

    /// Creates a record with the given name, a fresh identifier, no role
    /// and no skills, appends it to the collection and returns a copy of
    /// it. The new identifier differs from that of every existing record.
    pub fn create(&mut self, name: String) -> (d: Developer)
        requires
            old(self).wf(),
            old(self).next_id < u128::MAX,
        ensures
            final(self).wf(),
            final(self).next_id == old(self).next_id + 1,
            d@.id == old(self).next_id,
            d@.name == name@,
            d@.role == Role::Unknown,
            d@.skills.len() == 0,
            final(self)@ =~= old(self)@.push(d@),
            forall|i: int| 0 <= i < old(self)@.len() ==> old(self)@[i].id != d@.id,
    {
        let d = Developer::new(self.next_id, name);
        let out = d.duplicate();
        self.developers.push(d);
        self.next_id = self.next_id + 1;
        proof {
            assert(self@ =~= old(self)@.push(out@));
        }
        out
    }

    /// The whole collection, in insertion order.
    pub fn read_all(&self) -> (r: &Vec<Developer>)
        ensures
            dev_views(r@) == self@,
    {
        &self.developers
    }

    /// Copies of exactly the records that list `skill` under ASCII
    /// case-insensitive comparison, in insertion order.
    pub fn read_by_skill(&self, skill: &str) -> (r: Vec<Developer>)
        ensures
            dev_views(r@) =~= self@.filter(matches_skill(skill@)),
    {
        let mut out: Vec<Developer> = Vec::new();
        let n = self.developers.len();
        let mut i: usize = 0;
        while i < n
            invariant
                i <= n,
                n == self.developers@.len(),
                dev_views(out@) =~= self@.take(i as int).filter(matches_skill(skill@)),
            decreases n - i,
        {
            proof {
                filtering::lemma_filter_take_step(self@, matches_skill(skill@), i as int);
                assert(self@[i as int] == self.developers@[i as int]@);
            }
            if self.developers[i].lists_skill(skill) {
                let copy = self.developers[i].duplicate();
                out.push(copy);
                proof {
                    assert(dev_views(out@) =~= self@.take(i + 1).filter(matches_skill(skill@)));
                }
            }
            i += 1;
        }
        proof {
            assert(self@.take(n as int) =~= self@);
        }
        out
    }

    /// Merges the supplied field values into the record carrying `id`: a
    /// field is overwritten exactly when a new value for it is supplied.
    /// When no record carries `id`, the collection is left unchanged and
    /// `NotFound` is reported; in particular an update that supplies no
    /// field values leaves the collection unchanged either way.
    pub fn update(
        &mut self,
        id: u128,
        new_name: Option<String>,
        new_role: Option<Role>,
        new_skills: Option<Vec<String>>,
    ) -> (r: UpdateOutcome)
        requires
            old(self).wf(),
        ensures
            final(self).wf(),
            final(self).next_id == old(self).next_id,
            final(self)@.len() == old(self)@.len(),
            (r == UpdateOutcome::Updated <==> (exists|i: int|
                0 <= i < old(self)@.len() && old(self)@[i].id == id)),
            r == UpdateOutcome::NotFound ==> final(self)@ =~= old(self)@,
            forall|i: int|
                0 <= i < old(self)@.len() && old(self)@[i].id != id ==> final(self)@[i] == old(
                    self,
                )@[i],
            forall|i: int|
                0 <= i < old(self)@.len() && old(self)@[i].id == id ==> final(self)@[i] =~= merged(
                    old(self)@[i],
                    new_name.deep_view(),
                    new_role,
                    new_skills.deep_view(),
                ),
            (new_name is None && new_role is None && new_skills is None) ==> final(self)@ =~= old(
                self,
            )@,
    {
        match Self::find_index(&self.developers, id) {
            None => UpdateOutcome::NotFound,
            Some(j) => {
                let mut d = self.developers.remove(j);
                if let Some(nm) = new_name {
                    d.name = nm;
                }
                if let Some(ro) = new_role {
                    d.role = ro;
                }
                if let Some(sk) = new_skills {
                    d.skills = sk;
                }
                self.developers.insert(j, d);
                proof {
                    assert forall|i: int| 0 <= i < old(self)@.len() implies self@[i] == (if i
                        == j as int {
                        self.developers@[j as int]@
                    } else {
                        old(self)@[i]
                    }) by {
                        assert(self.developers@[i] == if i == j as int {
                            self.developers@[j as int]
                        } else {
                            old(self).developers@[i]
                        });
                    }
                    assert(self@[j as int] =~= merged(
                        old(self)@[j as int],
                        new_name.deep_view(),
                        new_role,
                        new_skills.deep_view(),
                    ));
                }
                UpdateOutcome::Updated
            },
        }
    }

    /// Removes the record carrying `id`, if any, and reports which outcome
    /// occurred. On `Deleted` the collection shrinks by exactly one record;
    /// on `NotFound` it is unchanged.
    pub fn delete(&mut self, id: u128) -> (r: DeleteOutcome)
        requires
            old(self).wf(),
        ensures
            final(self).wf(),
            final(self).next_id == old(self).next_id,
            (r == DeleteOutcome::Deleted <==> (exists|i: int|
                0 <= i < old(self)@.len() && old(self)@[i].id == id)),
            final(self)@ =~= old(self)@.filter(id_differs(id)),
            r == DeleteOutcome::Deleted ==> final(self)@.len() == old(self)@.len() - 1,
            r == DeleteOutcome::NotFound ==> final(self)@ =~= old(self)@,
    {
        match Self::find_index(&self.developers, id) {
            None => {
                proof {
                    filtering::lemma_filter_all_pass(self@, id_differs(id));
                }
                DeleteOutcome::NotFound
            },
            Some(j) => {
                self.developers.remove(j);
                proof {
                    assert(self@ =~= old(self)@.remove(j as int));
                    filtering::lemma_filter_removes_unique(old(self)@, id_differs(id), j as int);
                }
                DeleteOutcome::Deleted
            },
        }
    }
}

/// In every well-formed manager state the identifiers are pairwise
/// distinct. Every operation requires and preserves well-formedness, and
/// `create` hands out an identifier that no existing record carries, so the
/// identifiers resulting from any sequence of `create` calls are pairwise
/// distinct.
pub proof fn lemma_ids_pairwise_distinct(m: &DeveloperManager)
    requires
        m.wf(),
    ensures
        forall|i: int, j: int|
            0 <= i < m@.len() && 0 <= j < m@.len() && i != j ==> #[trigger] m@[i].id
                != #[trigger] m@[j].id,
{
}

/// After a delete of `id`, no surviving record carries `id`: the collection
/// left behind is the filtered sequence, every element of which has a
/// different identifier. Together with the `Deleted`-iff-present clause of
/// `delete`, a second delete of the same identifier reports `NotFound`.
pub proof fn lemma_deleted_id_absent(s: Seq<DevView>, id: u128)
    ensures
        forall|i: int|
            0 <= i < s.filter(id_differs(id)).len() ==> #[trigger] s.filter(id_differs(id))[i].id
                != id,
{
    assert forall|i: int|
        0 <= i < s.filter(id_differs(id)).len() implies #[trigger] s.filter(id_differs(id))[i].id
        != id by {
        s.lemma_filter_pred(id_differs(id), i);
    }
}

} // verus!
