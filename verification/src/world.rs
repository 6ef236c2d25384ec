//! The entity world: archetype-grouped component storage.
//!
//! Entities are created in bulk and never destroyed.  All entities created
//! with the same set of component kinds live in one contiguous group: one
//! vector per component kind, indexed in parallel, so index `i` across all
//! of a group's columns refers to the same entity.  Groups appear in
//! creation order and never split or merge; a selection walks the groups in
//! that order and, within a group, in insertion order.  All mutation of
//! stored records goes through `&mut World`, so exclusive access is what
//! the borrow rules already enforce.

use crate::components::{Acceleration, Circle, Mass, Object, Position, Velocity};
use vstd::prelude::*;

verus! {

/// A set of component kinds: the identity of an archetype group.
#[derive(Clone, Copy, Debug, PartialEq, Eq, Structural)]
pub struct KindSet {
    pub position: bool,
    pub velocity: bool,
    pub acceleration: bool,
    pub mass: bool,
    pub object: bool,
    pub circle: bool,
}

impl KindSet {
    /// Whether every kind of `other` is also in `self`.
    pub open spec fn contains_all(self, other: KindSet) -> bool {
        &&& (other.position ==> self.position)
        &&& (other.velocity ==> self.velocity)
        &&& (other.acceleration ==> self.acceleration)
        &&& (other.mass ==> self.mass)
        &&& (other.object ==> self.object)
        &&& (other.circle ==> self.circle)
    }

    /// Whether every kind of `other` is also in `self`.
    pub fn includes(&self, other: &KindSet) -> (r: bool)
        ensures
            r == self.contains_all(*other),
    {
        (!other.position || self.position) && (!other.velocity || self.velocity) && (
        !other.acceleration || self.acceleration) && (!other.mass || self.mass) && (!other.object
            || self.object) && (!other.circle || self.circle)
    }

    /// The empty set of kinds.
    pub open spec fn none_spec() -> KindSet {
        KindSet {
            position: false,
            velocity: false,
            acceleration: false,
            mass: false,
            object: false,
            circle: false,
        }
    }

    /// Returns the empty set of kinds.
    pub fn none() -> (r: KindSet)
        ensures
            r == KindSet::none_spec(),
    {
        KindSet {
            position: false,
            velocity: false,
            acceleration: false,
            mass: false,
            object: false,
            circle: false,
        }
    }
}

/// One entity's component records: `Some` for each kind the entity was
/// created with, `None` for the rest.
#[derive(Clone, Copy, Debug, PartialEq)]
pub struct Row {
    pub position: Option<Position>,
    pub velocity: Option<Velocity>,
    pub acceleration: Option<Acceleration>,
    pub mass: Option<Mass>,
    pub object: Option<Object>,
    pub circle: Option<Circle>,
}

impl Row {
    /// The set of kinds this row carries.
    pub open spec fn kinds(self) -> KindSet {
        KindSet {
            position: self.position is Some,
            velocity: self.velocity is Some,
            acceleration: self.acceleration is Some,
            mass: self.mass is Some,
            object: self.object is Some,
            circle: self.circle is Some,
        }
    }

    /// Returns the set of kinds this row carries.
    pub fn kind_set(&self) -> (k: KindSet)
        ensures
            k == self.kinds(),
    {
        KindSet {
            position: self.position.is_some(),
            velocity: self.velocity.is_some(),
            acceleration: self.acceleration.is_some(),
            mass: self.mass.is_some(),
            object: self.object.is_some(),
            circle: self.circle.is_some(),
        }
    }

    /// The row restricted to the kinds in `k`: what a selection over `k`
    /// yields for this entity.
    pub open spec fn project_spec(self, k: KindSet) -> Row {
        Row {
            position: if k.position {
                self.position
            } else {
                None
            },
            velocity: if k.velocity {
                self.velocity
            } else {
                None
            },
            acceleration: if k.acceleration {
                self.acceleration
            } else {
                None
            },
            mass: if k.mass {
                self.mass
            } else {
                None
            },
            object: if k.object {
                self.object
            } else {
                None
            },
            circle: if k.circle {
                self.circle
            } else {
                None
            },
        }
    }

    /// Returns the row restricted to the kinds in `k`.
    pub fn project(&self, k: &KindSet) -> (r: Row)
        ensures
            r == self.project_spec(*k),
    {
        Row {
            position: if k.position {
                self.position
            } else {
                None
            },
            velocity: if k.velocity {
                self.velocity
            } else {
                None
            },
            acceleration: if k.acceleration {
                self.acceleration
            } else {
                None
            },
            mass: if k.mass {
                self.mass
            } else {
                None
            },
            object: if k.object {
                self.object
            } else {
                None
            },
            circle: if k.circle {
                self.circle
            } else {
                None
            },
        }
    }

    /// A row with no components at all.
    pub fn empty() -> (r: Row)
        ensures
            r == (Row {
                position: None,
                velocity: None,
                acceleration: None,
                mass: None,
                object: None,
                circle: None,
            }),
    {
        Row { position: None, velocity: None, acceleration: None, mass: None, object: None, circle: None }
    }
}

/// The mathematical content of one archetype group: its kind set and its
/// rows, in insertion order.
pub struct GroupView {
    pub kinds: KindSet,
    pub rows: Seq<Row>,
}

/// One archetype group: one entity token per entity and one contiguous
/// column per component kind in `kinds`, all indexed in parallel.
pub struct Group {
    pub kinds: KindSet,
    pub entities: Vec<()>,
    pub positions: Vec<Position>,
    pub velocities: Vec<Velocity>,
    pub accelerations: Vec<Acceleration>,
    pub masses: Vec<Mass>,
    pub objects: Vec<Object>,
    pub circles: Vec<Circle>,
}

impl Group {
    /// How many entities the group holds.
    pub open spec fn len(self) -> nat {
        self.entities@.len()
    }

    /// Each column present in `kinds` runs parallel to the entity tokens;
    /// each absent column is empty.
    pub open spec fn wf(self) -> bool {
        &&& self.positions@.len() == if self.kinds.position {
            self.len()
        } else {
            0
        }
        &&& self.velocities@.len() == if self.kinds.velocity {
            self.len()
        } else {
            0
        }
        &&& self.accelerations@.len() == if self.kinds.acceleration {
            self.len()
        } else {
            0
        }
        &&& self.masses@.len() == if self.kinds.mass {
            self.len()
        } else {
            0
        }
        &&& self.objects@.len() == if self.kinds.object {
            self.len()
        } else {
            0
        }
        &&& self.circles@.len() == if self.kinds.circle {
            self.len()
        } else {
            0
        }
    }

    /// The row at parallel index `i`.
    pub open spec fn row_at(self, i: int) -> Row {
        Row {
            position: if self.kinds.position {
                Some(self.positions@[i])
            } else {
                None
            },
            velocity: if self.kinds.velocity {
                Some(self.velocities@[i])
            } else {
                None
            },
            acceleration: if self.kinds.acceleration {
                Some(self.accelerations@[i])
            } else {
                None
            },
            mass: if self.kinds.mass {
                Some(self.masses@[i])
            } else {
                None
            },
            object: if self.kinds.object {
                Some(self.objects@[i])
            } else {
                None
            },
            circle: if self.kinds.circle {
                Some(self.circles@[i])
            } else {
                None
            },
        }
    }

    /// All rows, in insertion order.
    pub open spec fn rows(self) -> Seq<Row> {
        Seq::new(self.len(), |i: int| self.row_at(i))
    }

    /// An empty group for the given kind set.
    pub fn new(kinds: KindSet) -> (g: Group)
        ensures
            g.wf(),
            g.kinds == kinds,
            g.rows() =~= Seq::<Row>::empty(),
    {
        Group {
            kinds,
            entities: Vec::new(),
            positions: Vec::new(),
            velocities: Vec::new(),
            accelerations: Vec::new(),
            masses: Vec::new(),
            objects: Vec::new(),
            circles: Vec::new(),
        }
    }

    /// Reassembles the row at index `i` from the columns.
    pub fn row(&self, i: usize) -> (r: Row)
        requires
            self.wf(),
            i < self.len(),
        ensures
            r == self.row_at(i as int),
    {
        Row {
            position: if self.kinds.position {
                Some(self.positions[i])
            } else {
                None
            },
            velocity: if self.kinds.velocity {
                Some(self.velocities[i])
            } else {
                None
            },
            acceleration: if self.kinds.acceleration {
                Some(self.accelerations[i])
            } else {
                None
            },
            mass: if self.kinds.mass {
                Some(self.masses[i])
            } else {
                None
            },
            object: if self.kinds.object {
                Some(self.objects[i])
            } else {
                None
            },
            circle: if self.kinds.circle {
                Some(self.circles[i])
            } else {
                None
            },
        }
    }

    /// Appends one entity's records to the parallel columns.
    pub fn push_row(&mut self, row: Row)
        requires
            old(self).wf(),
            row.kinds() == old(self).kinds,
        ensures
            final(self).wf(),
            final(self).kinds == old(self).kinds,
            final(self).rows() =~= old(self).rows().push(row),
    {
        if let Some(p) = row.position {
            self.positions.push(p);
        }
        if let Some(v) = row.velocity {
            self.velocities.push(v);
        }
        if let Some(a) = row.acceleration {
            self.accelerations.push(a);
        }
        if let Some(m) = row.mass {
            self.masses.push(m);
        }
        if let Some(o) = row.object {
            self.objects.push(o);
        }
        if let Some(c) = row.circle {
            self.circles.push(c);
        }
        self.entities.push(());
        proof {
            assert(final(self).rows() =~= old(self).rows().push(row)) by {
                assert forall|i: int| 0 <= i < old(self).len() implies final(self).row_at(i)
                    == old(self).row_at(i) by {}
                assert(final(self).row_at(old(self).len() as int) == row);
            }
        }
    }
}

impl View for Group {
    type V = GroupView;

    open spec fn view(&self) -> GroupView {
        GroupView { kinds: self.kinds, rows: self.rows() }
    }
}

/// The error a batch insert reports when a row does not carry exactly the
/// component kinds the batch's group descriptor declares.
#[derive(Clone, Copy, Debug, PartialEq, Eq, Structural)]
pub struct SchemaConflictError {
    /// The kind set the batch declared.
    pub declared: KindSet,
    /// The kind set of the first offending row.
    pub found: KindSet,
}

/// The entity world: every archetype group, in creation order.
pub struct World {
    pub groups: Vec<Group>,
}

/// Pairwise-distinct kind sets: the well-formedness a world's view keeps.
pub open spec fn distinct_kinds(ws: Seq<GroupView>) -> bool {
    forall|i: int, j: int| 0 <= i < j < ws.len() ==> ws[i].kinds != ws[j].kinds
}

/// Every row a selection over the kinds `k` yields, restricted to `k`:
/// groups in creation order, rows within a group in insertion order.
pub open spec fn select_rows(ws: Seq<GroupView>, k: KindSet) -> Seq<Row>
    decreases ws.len(),
{
    if ws.len() == 0 {
        Seq::empty()
    } else {
        select_rows(ws.drop_last(), k) + (if ws.last().kinds.contains_all(k) {
            ws.last().rows.map_values(|r: Row| r.project_spec(k))
        } else {
            Seq::empty()
        })
    }
}

/// Where one row goes: appended to the group holding exactly its kind set,
/// or into a fresh group at the end if no group holds it yet.
pub open spec fn place_row(ws: Seq<GroupView>, row: Row) -> Seq<GroupView> {
    if exists|i: int| 0 <= i < ws.len() && ws[i].kinds == row.kinds() {
        let i = choose|i: int| 0 <= i < ws.len() && ws[i].kinds == row.kinds();
        ws.update(i, GroupView { kinds: ws[i].kinds, rows: ws[i].rows.push(row) })
    } else {
        ws.push(GroupView { kinds: row.kinds(), rows: seq![row] })
    }
}

/// Bulk creation: each row in turn is routed to its group.
pub open spec fn extend_rows(ws: Seq<GroupView>, rows: Seq<Row>) -> Seq<GroupView>
    decreases rows.len(),
{
    if rows.len() == 0 {
        ws
    } else {
        place_row(extend_rows(ws, rows.drop_last()), rows.last())
    }
}

impl World {
    /// Every group is well formed and no two groups share a kind set.
    pub open spec fn wf(self) -> bool {
        &&& forall|i: int| 0 <= i < self.groups@.len() ==> (#[trigger] self.groups@[i]).wf()
        &&& distinct_kinds(self@)
    }

    /// An empty world.
    pub fn new() -> (w: World)
        ensures
            w.wf(),
            w@ =~= Seq::<GroupView>::empty(),
    {
        World { groups: Vec::new() }
    }

    /// Routes one row to its archetype group, creating the group if no
    /// entity with this kind set was created before.
    fn place(&mut self, row: Row)
        requires
            old(self).wf(),
        ensures
            final(self).wf(),
            final(self)@ == place_row(old(self)@, row),
    {
        let k = row.kind_set();
        let n = self.groups.len();
        let mut gi: usize = 0;
        while gi < n
            invariant
                *self == *old(self),
                old(self).wf(),
                n == self.groups@.len(),
                gi <= n,
                k == row.kinds(),
                forall|j: int| 0 <= j < gi ==> (#[trigger] self@[j]).kinds != k,
            decreases n - gi,
        {
            if self.groups[gi].kinds == k {
                let g = &mut self.groups[gi];
                proof {
                    assert(old(self).groups@[gi as int].wf());
                }
                g.push_row(row);
                proof {
                    let ws = old(self)@;
                    assert(exists|i: int| 0 <= i < ws.len() && ws[i].kinds == row.kinds()) by {
                        assert(ws[gi as int].kinds == row.kinds());
                    }
                    let ci = choose|i: int| 0 <= i < ws.len() && ws[i].kinds == row.kinds();
                    assert(ci == gi as int) by {
                        if ci != gi as int {
                            assert(ws[ci].kinds == ws[gi as int].kinds);
                        }
                    }
                    assert(final(self)@ =~= place_row(ws, row));
                }
                return ;
            }
            gi += 1;
        }
        let mut g = Group::new(k);
        g.push_row(row);
        self.groups.push(g);
        proof {
            let ws = old(self)@;
            assert(!exists|i: int| 0 <= i < ws.len() && ws[i].kinds == row.kinds());
            assert(g@.rows =~= seq![row]);
            assert(final(self)@ =~= place_row(ws, row));
        }
    }

    /// Bulk-creates entities: routes each row to the group matching its
    /// exact component-kind set, in order.  Never fails: the kind set is
    /// read off the row itself.
    pub fn extend(&mut self, rows: Vec<Row>)
        requires
            old(self).wf(),
        ensures
            final(self).wf(),
            final(self)@ == extend_rows(old(self)@, rows@),
    {
        let n = rows.len();
        let mut r: usize = 0;
        while r < n
            invariant
                old(self).wf(),
                self.wf(),
                n == rows@.len(),
                r <= n,
                self@ == extend_rows(old(self)@, rows@.take(r as int)),
            decreases n - r,
        {
            self.place(rows[r]);
            proof {
                assert(rows@.take(r + 1).drop_last() =~= rows@.take(r as int));
                assert(rows@.take(r + 1).last() == rows@[r as int]);
            }
            r += 1;
        }
        proof {
            assert(rows@.take(n as int) =~= rows@);
        }
    }

    /// Appends a whole batch to the group the descriptor names, after
    /// checking that every row carries exactly the declared kinds; on a
    /// mismatch nothing is inserted and the schema conflict is reported.
    pub fn insert_batch(&mut self, declared: KindSet, rows: Vec<Row>) -> (r: Result<
        (),
        SchemaConflictError,
    >)
        requires
            old(self).wf(),
        ensures
            final(self).wf(),
            r is Ok <==> (forall|i: int| 0 <= i < rows@.len() ==> (#[trigger] rows@[i]).kinds()
                == declared),
            r is Ok ==> final(self)@ == extend_rows(old(self)@, rows@),
            r is Err ==> final(self)@ == old(self)@ && r->Err_0.declared == declared && (exists|
                i: int,
            | 0 <= i < rows@.len() && (#[trigger] rows@[i]).kinds() == r->Err_0.found && r->Err_0.found
                != declared),
    {
        let n = rows.len();
        let mut i: usize = 0;
        while i < n
            invariant
                *self == *old(self),
                old(self).wf(),
                n == rows@.len(),
                i <= n,
                forall|j: int| 0 <= j < i ==> (#[trigger] rows@[j]).kinds() == declared,
            decreases n - i,
        {
            let k = rows[i].kind_set();
            if k != declared {
                return Err(SchemaConflictError { declared, found: k });
            }
            i += 1;
        }
        self.extend(rows);
        Ok(())
    }

    /// Selects every entity whose group carries all kinds in `k`, restricted
    /// to `k`: a fresh, finite sequence on every call, covering groups in
    /// creation order and, within a group, insertion order.
    pub fn select(&self, k: KindSet) -> (r: Vec<Row>)
        requires
            self.wf(),
        ensures
            r@ == select_rows(self@, k),
    {
        let mut out: Vec<Row> = Vec::new();
        let n = self.groups.len();
        let mut gi: usize = 0;
        while gi < n
            invariant
                self.wf(),
                n == self.groups@.len(),
                gi <= n,
                out@ == select_rows(self@.take(gi as int), k),
            decreases n - gi,
        {
            let g = &self.groups[gi];
            if g.kinds.includes(&k) {
                let m = g.entities.len();
                let mut i: usize = 0;
                while i < m
                    invariant
                        self.wf(),
                        gi < n,
                        n == self.groups@.len(),
                        g == &self.groups@[gi as int],
                        g.wf(),
                        g.kinds.contains_all(k),
                        m == g.len(),
                        i <= m,
                        out@ == select_rows(self@.take(gi as int), k) + g.rows().map_values(
                            |r: Row| r.project_spec(k),
                        ).take(i as int),
                    decreases m - i,
                {
                    let row = g.row(i);
                    out.push(row.project(&k));
                    proof {
                        let mapped = g.rows().map_values(|r: Row| r.project_spec(k));
                        assert(mapped.take(i + 1) =~= mapped.take(i as int).push(mapped[i as int]));
                        assert(out@ =~= select_rows(self@.take(gi as int), k) + mapped.take(i + 1));
                    }
                    i += 1;
                }
                proof {
                    let mapped = g.rows().map_values(|r: Row| r.project_spec(k));
                    assert(mapped.take(m as int) =~= mapped);
                    assert(self@.take(gi + 1).drop_last() =~= self@.take(gi as int));
                    assert(self@.take(gi + 1).last() == g@);
                    assert(out@ =~= select_rows(self@.take(gi + 1), k));
                }
            } else {
                proof {
                    assert(self@.take(gi + 1).drop_last() =~= self@.take(gi as int));
                    assert(self@.take(gi + 1).last() == self@[gi as int]);
                    assert(out@ =~= select_rows(self@.take(gi + 1), k));
                }
            }
            gi += 1;
        }
        proof {
            assert(self@.take(n as int) =~= self@);
        }
        out
    }

    /// How many entities a selection over `k` yields.
    pub fn count(&self, k: KindSet) -> (n: usize)
        requires
            self.wf(),
        ensures
            n == select_rows(self@, k).len(),
    {
        self.select(k).len()
    }
}

/// How many of the rows carry all kinds in `k`.
pub open spec fn matching_count(rows: Seq<Row>, k: KindSet) -> int
    decreases rows.len(),
{
    if rows.len() == 0 {
        0
    } else {
        matching_count(rows.drop_last(), k) + if rows.last().kinds().contains_all(k) {
            1int
        } else {
            0int
        }
    }
}

/// Appending one row to the group at index `i` grows a selection over `k`
/// by one exactly when the row's kind set covers `k`.
proof fn lemma_select_update_push(ws: Seq<GroupView>, i: int, row: Row, k: KindSet)
    requires
        0 <= i < ws.len(),
        ws[i].kinds == row.kinds(),
    ensures
        select_rows(
            ws.update(i, GroupView { kinds: ws[i].kinds, rows: ws[i].rows.push(row) }),
            k,
        ).len() == select_rows(ws, k).len() + if row.kinds().contains_all(k) {
            1int
        } else {
            0int
        },
    decreases ws.len(),
{
    let ws2 = ws.update(i, GroupView { kinds: ws[i].kinds, rows: ws[i].rows.push(row) });
    if i == ws.len() - 1 {
        assert(ws2.drop_last() =~= ws.drop_last());
        assert(ws2.last() == GroupView { kinds: ws[i].kinds, rows: ws[i].rows.push(row) });
        if ws.last().kinds.contains_all(k) {
            assert(ws2.last().rows.map_values(|r: Row| r.project_spec(k)).len() == ws[i].rows.len()
                + 1);
        }
    } else {
        assert(ws2.drop_last() =~= ws.drop_last().update(
            i,
            GroupView { kinds: ws.drop_last()[i].kinds, rows: ws.drop_last()[i].rows.push(row) },
        ));
        assert(ws2.last() == ws.last());
        lemma_select_update_push(ws.drop_last(), i, row, k);
    }
}

/// Routing one row into the world grows a selection over `k` by one
/// exactly when the row's kind set covers `k`.
proof fn lemma_place_select_len(ws: Seq<GroupView>, row: Row, k: KindSet)
    ensures
        select_rows(place_row(ws, row), k).len() == select_rows(ws, k).len() + if row.kinds().contains_all(
            k,
        ) {
            1int
        } else {
            0int
        },
{
    if exists|i: int| 0 <= i < ws.len() && ws[i].kinds == row.kinds() {
        let i = choose|i: int| 0 <= i < ws.len() && ws[i].kinds == row.kinds();
        lemma_select_update_push(ws, i, row, k);
    } else {
        let ws2 = ws.push(GroupView { kinds: row.kinds(), rows: seq![row] });
        assert(ws2.drop_last() =~= ws);
        if row.kinds().contains_all(k) {
            assert(ws2.last().rows.map_values(|r: Row| r.project_spec(k)).len() == 1);
        }
    }
}

/// Bulk insertion grows a selection over `k` by exactly the number of
/// inserted rows whose kind set covers `k`.
pub proof fn lemma_extend_select_len(ws: Seq<GroupView>, rows: Seq<Row>, k: KindSet)
    ensures
        select_rows(extend_rows(ws, rows), k).len() == select_rows(ws, k).len() + matching_count(
            rows,
            k,
        ),
    decreases rows.len(),
{
    if rows.len() > 0 {
        lemma_extend_select_len(ws, rows.drop_last(), k);
        lemma_place_select_len(extend_rows(ws, rows.drop_last()), rows.last(), k);
    }
}

/// For every valid bulk insert whose rows all carry the kinds `k`: a
/// selection over `k` immediately afterward yields exactly as many more
/// rows as entities were inserted.
pub proof fn lemma_extend_select_count(ws: Seq<GroupView>, rows: Seq<Row>, k: KindSet)
    requires
        forall|i: int| 0 <= i < rows.len() ==> (#[trigger] rows[i]).kinds().contains_all(k),
    ensures
        select_rows(extend_rows(ws, rows), k).len() == select_rows(ws, k).len() + rows.len(),
    decreases rows.len(),
{
    lemma_extend_select_len(ws, rows, k);
    assert(matching_count(rows, k) == rows.len()) by {
        lemma_matching_count_all(rows, k);
    }
}

/// When every row covers `k`, all of them match.
proof fn lemma_matching_count_all(rows: Seq<Row>, k: KindSet)
    requires
        forall|i: int| 0 <= i < rows.len() ==> (#[trigger] rows[i]).kinds().contains_all(k),
    ensures
        matching_count(rows, k) == rows.len(),
    decreases rows.len(),
{
    if rows.len() > 0 {
        lemma_matching_count_all(rows.drop_last(), k);
    }
}

impl Default for World {
    /// An empty world.
    fn default() -> (w: World)
        ensures
            w.wf(),
            w@ =~= Seq::<GroupView>::empty(),
    {
        World::new()
    }
}

impl View for World {
    type V = Seq<GroupView>;

    open spec fn view(&self) -> Seq<GroupView> {
        self.groups@.map_values(|g: Group| g@)
    }
}

} // verus!
