//! The system pipeline: an ordered list of pure mutation stages, executed
//! once per tick in a fixed order against the world, each reading the
//! `Time` resource passed to it explicitly.
//!
//! The declared order encodes the integration scheme: apply gravity onto
//! acceleration, integrate acceleration into velocity, apply drag to
//! velocity, integrate velocity into position, zero the acceleration.  The
//! monolithic-object stage performs all of those steps inline in one pass,
//! with the drag multiply embedded between the velocity and position
//! updates — a deliberate behavioral divergence between the two layouts
//! that is kept, not unified.

use crate::components::{Acceleration, Mass, Object, Position, Time, Vec2Bits, Velocity};
use crate::numeric::{add32, add_bits32, mul32, mul_bits32, narrow, narrow_bits};
use crate::world::{GroupView, Group, KindSet, Row, World, select_rows};
use vstd::prelude::*;

verus! {

/// Bit pattern of single-precision `-50.0`, the gravity coefficient.
pub const NEG_FIFTY_BITS32: u32 = 0xC248_0000;

/// Bit pattern of single-precision `0.999`, the per-tick drag factor
/// (fixed per tick, not time-scaled).
pub const DRAG_BITS32: u32 = 0x3F7F_BE77;

/// One mutation stage of the pipeline.
#[derive(Clone, Copy, Debug, PartialEq, Eq, Structural)]
pub enum Stage {
    /// Adds `-50.0 * mass * elapsed` to the y acceleration.
    ApplyGravity,
    /// Adds `acc * elapsed` to the velocity, per axis.
    UpdateVelocity,
    /// Multiplies each velocity axis by `0.999`.
    ApplyAirDrag,
    /// Adds `vel * elapsed` to the position, per axis.
    UpdatePosition,
    /// Resets the acceleration to zero.
    DropAcceleration,
    /// All four steps inline on the monolithic `Object` record.
    UpdateObjects,
}

/// The component kinds a stage reads or writes: a stage runs over exactly
/// the entities whose groups carry all of them.
pub open spec fn stage_kinds(st: Stage) -> KindSet {
    match st {
        Stage::ApplyGravity => KindSet {
            acceleration: true,
            mass: true,
            ..KindSet::none_spec()
        },
        Stage::UpdateVelocity => KindSet {
            velocity: true,
            acceleration: true,
            ..KindSet::none_spec()
        },
        Stage::ApplyAirDrag => KindSet { velocity: true, ..KindSet::none_spec() },
        Stage::UpdatePosition => KindSet {
            position: true,
            velocity: true,
            ..KindSet::none_spec()
        },
        Stage::DropAcceleration => KindSet { acceleration: true, ..KindSet::none_spec() },
        Stage::UpdateObjects => KindSet { object: true, ..KindSet::none_spec() },
    }
}

/// Returns the component kinds a stage reads or writes.
pub fn stage_kind_set(st: Stage) -> (k: KindSet)
    ensures
        k == stage_kinds(st),
{
    let none = KindSet::none();
    match st {
        Stage::ApplyGravity => KindSet { acceleration: true, mass: true, ..none },
        Stage::UpdateVelocity => KindSet { velocity: true, acceleration: true, ..none },
        Stage::ApplyAirDrag => KindSet { velocity: true, ..none },
        Stage::UpdatePosition => KindSet { position: true, velocity: true, ..none },
        Stage::DropAcceleration => KindSet { acceleration: true, ..none },
        Stage::UpdateObjects => KindSet { object: true, ..none },
    }
}

/// The gravity increment: `-50.0 * mass * elapsed`, evaluated left to
/// right in single precision.
pub open spec fn gravity_delta(mass: u32, t: u32) -> u32 {
    mul_bits32(mul_bits32(NEG_FIFTY_BITS32, mass), t)
}

/// Gravity applied to an acceleration: only the y axis moves.
pub open spec fn gravity_acc(a: Acceleration, m: Mass, t: u32) -> Acceleration {
    Acceleration { acc: Vec2Bits { x: a.acc.x, y: add_bits32(a.acc.y, gravity_delta(m.mass, t)) } }
}

/// Acceleration integrated into velocity: `vel + acc * elapsed`, per axis.
pub open spec fn integrated_vel(v: Velocity, a: Acceleration, t: u32) -> Velocity {
    Velocity {
        vel: Vec2Bits {
            x: add_bits32(v.vel.x, mul_bits32(a.acc.x, t)),
            y: add_bits32(v.vel.y, mul_bits32(a.acc.y, t)),
        },
    }
}

/// Drag applied to a velocity: each axis multiplied by `0.999`.
pub open spec fn dragged_vel(v: Velocity) -> Velocity {
    Velocity {
        vel: Vec2Bits { x: mul_bits32(v.vel.x, DRAG_BITS32), y: mul_bits32(v.vel.y, DRAG_BITS32) },
    }
}

/// Velocity integrated into position: `pos + vel * elapsed`, per axis.
pub open spec fn integrated_pos(p: Position, v: Velocity, t: u32) -> Position {
    Position {
        pos: Vec2Bits {
            x: add_bits32(p.pos.x, mul_bits32(v.vel.x, t)),
            y: add_bits32(p.pos.y, mul_bits32(v.vel.y, t)),
        },
    }
}

/// The whole tick inline on the monolithic record: gravity onto
/// acceleration, integrate into velocity, drag, integrate into position,
/// zero the acceleration — drag sits inside the same pass here, before the
/// position update, unlike the component pipeline's separate drag stage.
pub open spec fn updated_object(o: Object, t: u32) -> Object {
    let acc1 = Vec2Bits { x: o.acc.x, y: add_bits32(o.acc.y, gravity_delta(o.mass, t)) };
    let vel1 = Vec2Bits {
        x: add_bits32(o.vel.x, mul_bits32(acc1.x, t)),
        y: add_bits32(o.vel.y, mul_bits32(acc1.y, t)),
    };
    let vel2 = Vec2Bits { x: mul_bits32(vel1.x, DRAG_BITS32), y: mul_bits32(vel1.y, DRAG_BITS32) };
    let pos1 = Vec2Bits {
        x: add_bits32(o.pos.x, mul_bits32(vel2.x, t)),
        y: add_bits32(o.pos.y, mul_bits32(vel2.y, t)),
    };
    Object { pos: pos1, vel: vel2, acc: Vec2Bits::zero_spec(), mass: o.mass }
}

/// What one stage does to one entity's records, given the elapsed seconds
/// of the tick narrowed to single precision.  A row that lacks a component
/// the stage needs is left as it is; the pipeline only applies a stage to
/// groups that carry all the stage's kinds.
pub open spec fn stage_row(st: Stage, row: Row, t: u32) -> Row {
    match st {
        Stage::ApplyGravity => match (row.acceleration, row.mass) {
            (Some(a), Some(m)) => Row { acceleration: Some(gravity_acc(a, m, t)), ..row },
            _ => row,
        },
        Stage::UpdateVelocity => match (row.velocity, row.acceleration) {
            (Some(v), Some(a)) => Row { velocity: Some(integrated_vel(v, a, t)), ..row },
            _ => row,
        },
        Stage::ApplyAirDrag => match row.velocity {
            Some(v) => Row { velocity: Some(dragged_vel(v)), ..row },
            _ => row,
        },
        Stage::UpdatePosition => match (row.position, row.velocity) {
            (Some(p), Some(v)) => Row { position: Some(integrated_pos(p, v, t)), ..row },
            _ => row,
        },
        Stage::DropAcceleration => match row.acceleration {
            Some(_) => Row {
                acceleration: Some(Acceleration { acc: Vec2Bits::zero_spec() }),
                ..row
            },
            _ => row,
        },
        Stage::UpdateObjects => match row.object {
            Some(o) => Row { object: Some(updated_object(o, t)), ..row },
            _ => row,
        },
    }
}

/// What one stage does to one group: every row transformed if the group
/// carries all the stage's kinds, nothing otherwise.
pub open spec fn stage_group_view(gv: GroupView, st: Stage, t: u32) -> GroupView {
    if gv.kinds.contains_all(stage_kinds(st)) {
        GroupView { kinds: gv.kinds, rows: gv.rows.map_values(|r: Row| stage_row(st, r, t)) }
    } else {
        gv
    }
}

/// What one stage does to the whole world.
pub open spec fn run_stage_view(ws: Seq<GroupView>, st: Stage, t: u32) -> Seq<GroupView> {
    ws.map_values(|gv: GroupView| stage_group_view(gv, st, t))
}

/// What a stage list does to the whole world: stages applied in order.
pub open spec fn run_stages_view(ws: Seq<GroupView>, stages: Seq<Stage>, t: u32) -> Seq<GroupView>
    decreases stages.len(),
{
    if stages.len() == 0 {
        ws
    } else {
        run_stage_view(run_stages_view(ws, stages.drop_last(), t), stages.last(), t)
    }
}

impl Group {
    /// Applies one stage to every entity of this group, in place.
    pub fn run_stage(&mut self, st: Stage, t: u32)
        requires
            old(self).wf(),
            old(self).kinds.contains_all(stage_kinds(st)),
        ensures
            final(self).wf(),
            final(self).kinds == old(self).kinds,
            final(self)@ == stage_group_view(old(self)@, st, t),
    {
        let ghost g0 = *self;
        let n = self.entities.len();
        match st {
            Stage::ApplyGravity => {
                let mut i: usize = 0;
                while i < n
                    invariant
                        g0.wf(),
                        g0.kinds.acceleration,
                        g0.kinds.mass,
                        n == g0.len(),
                        i <= n,
                        self.kinds == g0.kinds,
                        self.entities@ == g0.entities@,
                        self.positions@ == g0.positions@,
                        self.velocities@ == g0.velocities@,
                        self.masses@ == g0.masses@,
                        self.objects@ == g0.objects@,
                        self.circles@ == g0.circles@,
                        self.accelerations@.len() == g0.accelerations@.len(),
                        forall|j: int|
                            0 <= j < i ==> self.accelerations@[j] == gravity_acc(
                                g0.accelerations@[j],
                                g0.masses@[j],
                                t,
                            ),
                        forall|j: int|
                            i <= j < n ==> self.accelerations@[j] == g0.accelerations@[j],
                    decreases n - i,
                {
                    let a = self.accelerations[i];
                    let m = self.masses[i];
                    let y2 = add32(a.acc.y, mul32(mul32(NEG_FIFTY_BITS32, m.mass), t));
                    self.accelerations[i] = Acceleration { acc: Vec2Bits { x: a.acc.x, y: y2 } };
                    i += 1;
                }
            },
            Stage::UpdateVelocity => {
                let mut i: usize = 0;
                while i < n
                    invariant
                        g0.wf(),
                        g0.kinds.velocity,
                        g0.kinds.acceleration,
                        n == g0.len(),
                        i <= n,
                        self.kinds == g0.kinds,
                        self.entities@ == g0.entities@,
                        self.positions@ == g0.positions@,
                        self.accelerations@ == g0.accelerations@,
                        self.masses@ == g0.masses@,
                        self.objects@ == g0.objects@,
                        self.circles@ == g0.circles@,
                        self.velocities@.len() == g0.velocities@.len(),
                        forall|j: int|
                            0 <= j < i ==> self.velocities@[j] == integrated_vel(
                                g0.velocities@[j],
                                g0.accelerations@[j],
                                t,
                            ),
                        forall|j: int| i <= j < n ==> self.velocities@[j] == g0.velocities@[j],
                    decreases n - i,
                {
                    let v = self.velocities[i];
                    let a = self.accelerations[i];
                    let x2 = add32(v.vel.x, mul32(a.acc.x, t));
                    let y2 = add32(v.vel.y, mul32(a.acc.y, t));
                    self.velocities[i] = Velocity { vel: Vec2Bits { x: x2, y: y2 } };
                    i += 1;
                }
            },
            Stage::ApplyAirDrag => {
                let mut i: usize = 0;
                while i < n
                    invariant
                        g0.wf(),
                        g0.kinds.velocity,
                        n == g0.len(),
                        i <= n,
                        self.kinds == g0.kinds,
                        self.entities@ == g0.entities@,
                        self.positions@ == g0.positions@,
                        self.accelerations@ == g0.accelerations@,
                        self.masses@ == g0.masses@,
                        self.objects@ == g0.objects@,
                        self.circles@ == g0.circles@,
                        self.velocities@.len() == g0.velocities@.len(),
                        forall|j: int|
                            0 <= j < i ==> self.velocities@[j] == dragged_vel(g0.velocities@[j]),
                        forall|j: int| i <= j < n ==> self.velocities@[j] == g0.velocities@[j],
                    decreases n - i,
                {
                    let v = self.velocities[i];
                    let y2 = mul32(v.vel.y, DRAG_BITS32);
                    let x2 = mul32(v.vel.x, DRAG_BITS32);
                    self.velocities[i] = Velocity { vel: Vec2Bits { x: x2, y: y2 } };
                    i += 1;
                }
            },
            Stage::UpdatePosition => {
                let mut i: usize = 0;
                while i < n
                    invariant
                        g0.wf(),
                        g0.kinds.position,
                        g0.kinds.velocity,
                        n == g0.len(),
                        i <= n,
                        self.kinds == g0.kinds,
                        self.entities@ == g0.entities@,
                        self.velocities@ == g0.velocities@,
                        self.accelerations@ == g0.accelerations@,
                        self.masses@ == g0.masses@,
                        self.objects@ == g0.objects@,
                        self.circles@ == g0.circles@,
                        self.positions@.len() == g0.positions@.len(),
                        forall|j: int|
                            0 <= j < i ==> self.positions@[j] == integrated_pos(
                                g0.positions@[j],
                                g0.velocities@[j],
                                t,
                            ),
                        forall|j: int| i <= j < n ==> self.positions@[j] == g0.positions@[j],
                    decreases n - i,
                {
                    let p = self.positions[i];
                    let v = self.velocities[i];
                    let x2 = add32(p.pos.x, mul32(v.vel.x, t));
                    let y2 = add32(p.pos.y, mul32(v.vel.y, t));
                    self.positions[i] = Position { pos: Vec2Bits { x: x2, y: y2 } };
                    i += 1;
                }
            },
            Stage::DropAcceleration => {
                let mut i: usize = 0;
                while i < n
                    invariant
                        g0.wf(),
                        g0.kinds.acceleration,
                        n == g0.len(),
                        i <= n,
                        self.kinds == g0.kinds,
                        self.entities@ == g0.entities@,
                        self.positions@ == g0.positions@,
                        self.velocities@ == g0.velocities@,
                        self.masses@ == g0.masses@,
                        self.objects@ == g0.objects@,
                        self.circles@ == g0.circles@,
                        self.accelerations@.len() == g0.accelerations@.len(),
                        forall|j: int|
                            0 <= j < i ==> self.accelerations@[j] == (Acceleration {
                                acc: Vec2Bits::zero_spec(),
                            }),
                        forall|j: int|
                            i <= j < n ==> self.accelerations@[j] == g0.accelerations@[j],
                    decreases n - i,
                {
                    self.accelerations[i] = Acceleration { acc: Vec2Bits::zero() };
                    i += 1;
                }
            },
            Stage::UpdateObjects => {
                let mut i: usize = 0;
                while i < n
                    invariant
                        g0.wf(),
                        g0.kinds.object,
                        n == g0.len(),
                        i <= n,
                        self.kinds == g0.kinds,
                        self.entities@ == g0.entities@,
                        self.positions@ == g0.positions@,
                        self.velocities@ == g0.velocities@,
                        self.accelerations@ == g0.accelerations@,
                        self.masses@ == g0.masses@,
                        self.circles@ == g0.circles@,
                        self.objects@.len() == g0.objects@.len(),
                        forall|j: int|
                            0 <= j < i ==> self.objects@[j] == updated_object(g0.objects@[j], t),
                        forall|j: int| i <= j < n ==> self.objects@[j] == g0.objects@[j],
                    decreases n - i,
                {
                    let o = self.objects[i];
                    let accy = add32(o.acc.y, mul32(mul32(NEG_FIFTY_BITS32, o.mass), t));
                    let acc1 = Vec2Bits { x: o.acc.x, y: accy };
                    let vel1 = Vec2Bits {
                        x: add32(o.vel.x, mul32(acc1.x, t)),
                        y: add32(o.vel.y, mul32(acc1.y, t)),
                    };
                    let vel2 = Vec2Bits {
                        x: mul32(vel1.x, DRAG_BITS32),
                        y: mul32(vel1.y, DRAG_BITS32),
                    };
                    let pos1 = Vec2Bits {
                        x: add32(o.pos.x, mul32(vel2.x, t)),
                        y: add32(o.pos.y, mul32(vel2.y, t)),
                    };
                    self.objects[i] = Object {
                        pos: pos1,
                        vel: vel2,
                        acc: Vec2Bits::zero(),
                        mass: o.mass,
                    };
                    i += 1;
                }
            },
        }
        proof {
            assert(final(self)@.rows =~= stage_group_view(g0@, st, t).rows) by {
                assert forall|j: int| 0 <= j < n implies final(self).row_at(j) == stage_row(
                    st,
                    g0.row_at(j),
                    t,
                ) by {}
            }
        }
    }
}

impl World {
    /// Applies one stage to every group that carries all the stage's kinds.
    pub fn run_stage(&mut self, st: Stage, t: u32)
        requires
            old(self).wf(),
        ensures
            final(self).wf(),
            final(self)@ == run_stage_view(old(self)@, st, t),
    {
        let sk = stage_kind_set(st);
        let n = self.groups.len();
        let mut gi: usize = 0;
        while gi < n
            invariant
                old(self).wf(),
                sk == stage_kinds(st),
                n == self.groups@.len(),
                n == old(self).groups@.len(),
                gi <= n,
                forall|j: int|
                    0 <= j < gi ==> self@[j] == stage_group_view(old(self)@[j], st, t),
                forall|j: int|
                    gi <= j < n ==> self.groups@[j] == old(self).groups@[j],
                forall|j: int| 0 <= j < n ==> (#[trigger] self.groups@[j]).wf(),
                forall|j: int|
                    0 <= j < n ==> (#[trigger] self.groups@[j]).kinds == old(self).groups@[j].kinds,
            decreases n - gi,
        {
            let ghost prev = *self;
            if self.groups[gi].kinds.includes(&sk) {
                let g = &mut self.groups[gi];
                g.run_stage(st, t);
            }
            proof {
                assert forall|j: int| 0 <= j < gi + 1 implies self@[j] == stage_group_view(
                    old(self)@[j],
                    st,
                    t,
                ) by {
                    assert(self@[j] == self.groups@[j]@);
                    if j < gi {
                        assert(self.groups@[j] == prev.groups@[j]);
                        assert(prev@[j] == prev.groups@[j]@);
                    } else {
                        assert(prev.groups@[gi as int] == old(self).groups@[gi as int]);
                    }
                }
            }
            gi += 1;
        }
        proof {
            assert(final(self)@ =~= run_stage_view(old(self)@, st, t));
        }
    }
}

/// One stage changes no group's kind set and no group's entity count:
/// selection lengths over any kinds are what they were.
proof fn lemma_run_stage_select_len(ws: Seq<GroupView>, st: Stage, t: u32, k: KindSet)
    ensures
        select_rows(run_stage_view(ws, st, t), k).len() == select_rows(ws, k).len(),
    decreases ws.len(),
{
    let ws2 = run_stage_view(ws, st, t);
    if ws.len() == 0 {
        assert(ws2 =~= Seq::<GroupView>::empty());
    } else {
        assert(ws2.drop_last() =~= run_stage_view(ws.drop_last(), st, t));
        assert(ws2.last() == stage_group_view(ws.last(), st, t));
        lemma_run_stage_select_len(ws.drop_last(), st, t, k);
        assert(ws2.last().kinds == ws.last().kinds);
        assert(ws2.last().rows.len() == ws.last().rows.len());
        if ws.last().kinds.contains_all(k) {
            assert(ws2.last().rows.map_values(|r: Row| r.project_spec(k)).len() == ws.last().rows.map_values(
                |r: Row| r.project_spec(k),
            ).len());
        }
    }
}

/// A tick mutates the component records the stages declare and nothing
/// else: executing any stage list creates no entity and destroys none, so
/// every selection yields exactly as many rows as before.
pub proof fn lemma_pipeline_preserves_entities(
    ws: Seq<GroupView>,
    stages: Seq<Stage>,
    t: u32,
    k: KindSet,
)
    ensures
        select_rows(run_stages_view(ws, stages, t), k).len() == select_rows(ws, k).len(),
    decreases stages.len(),
{
    if stages.len() > 0 {
        lemma_pipeline_preserves_entities(ws, stages.drop_last(), t, k);
        lemma_run_stage_select_len(
            run_stages_view(ws, stages.drop_last(), t),
            stages.last(),
            t,
            k,
        );
    }
}

/// The process-wide, type-keyed single-slot resource table: at most one
/// live `Time` value at a time, overwritten on each insert.
pub struct Resources {
    pub time: Option<Time>,
}

impl Resources {
    /// Replaces any existing `Time` value; never fails.
    pub fn insert(&mut self, t: Time)
        ensures
            final(self).time == Some(t),
    {
        self.time = Some(t);
    }

    /// Read access: `None` if no `Time` was ever inserted.
    pub fn get(&self) -> (r: Option<Time>)
        ensures
            r == self.time,
    {
        self.time
    }
}

impl Default for Resources {
    /// An empty table: no `Time` inserted yet.
    fn default() -> (r: Resources)
        ensures
            r.time is None,
    {
        Resources { time: None }
    }
}

/// An empty resource table.
pub fn resources() -> (r: Resources)
    ensures
        r.time is None,
{
    Resources { time: None }
}

/// An empty world.
pub fn world() -> (w: World)
    ensures
        w.wf(),
        w@ =~= Seq::<GroupView>::empty(),
{
    World::new()
}

/// The built pipeline: an immutable ordered stage list, constructed once
/// and executed once per tick.
pub struct Schedule {
    pub stages: Vec<Stage>,
}

/// The full pipeline over both layouts: the five component stages in
/// integration order, then the monolithic-object stage.
pub open spec fn full_pipeline() -> Seq<Stage> {
    seq![
        Stage::ApplyGravity,
        Stage::UpdateVelocity,
        Stage::ApplyAirDrag,
        Stage::UpdatePosition,
        Stage::DropAcceleration,
        Stage::UpdateObjects,
    ]
}

/// The component-only pipeline: the five component stages in integration
/// order, without the monolithic-object stage.
pub open spec fn component_pipeline() -> Seq<Stage> {
    seq![
        Stage::ApplyGravity,
        Stage::UpdateVelocity,
        Stage::ApplyAirDrag,
        Stage::UpdatePosition,
        Stage::DropAcceleration,
    ]
}

/// Builds the full pipeline (do this once, on init).
pub fn schedule() -> (s: Schedule)
    ensures
        s.stages@ == full_pipeline(),
{
    let mut stages: Vec<Stage> = Vec::new();
    stages.push(Stage::ApplyGravity);
    stages.push(Stage::UpdateVelocity);
    stages.push(Stage::ApplyAirDrag);
    stages.push(Stage::UpdatePosition);
    stages.push(Stage::DropAcceleration);
    stages.push(Stage::UpdateObjects);
    proof {
        assert(stages@ =~= full_pipeline());
    }
    Schedule { stages }
}

/// Builds the component-only pipeline (do this once, on init).
pub fn init() -> (s: Schedule)
    ensures
        s.stages@ == component_pipeline(),
{
    let mut stages: Vec<Stage> = Vec::new();
    stages.push(Stage::ApplyGravity);
    stages.push(Stage::UpdateVelocity);
    stages.push(Stage::ApplyAirDrag);
    stages.push(Stage::UpdatePosition);
    stages.push(Stage::DropAcceleration);
    proof {
        assert(stages@ =~= component_pipeline());
    }
    Schedule { stages }
}

impl Schedule {
    /// Runs every stage exactly once, in the declared order, synchronously,
    /// against the same world and resource table.  The `Time` resource must
    /// have been inserted first: reading it here is owed to every stage,
    /// and a missing resource is a contract violation, not a default.
    pub fn execute(&mut self, world: &mut World, resources: &mut Resources)
        requires
            old(world).wf(),
            old(resources).time is Some,
        ensures
            *final(self) == *old(self),
            *final(resources) == *old(resources),
            final(world).wf(),
            final(world)@ == run_stages_view(
                old(world)@,
                old(self).stages@,
                narrow_bits(old(resources).time.unwrap().elapsed_seconds),
            ),
    {
        let tm = resources.get().unwrap();
        let t = narrow(tm.elapsed_seconds);
        let n = self.stages.len();
        let mut si: usize = 0;
        while si < n
            invariant
                *self == *old(self),
                *resources == *old(resources),
                old(world).wf(),
                world.wf(),
                t == narrow_bits(old(resources).time.unwrap().elapsed_seconds),
                n == self.stages@.len(),
                si <= n,
                world@ == run_stages_view(old(world)@, self.stages@.take(si as int), t),
            decreases n - si,
        {
            world.run_stage(self.stages[si], t);
            proof {
                assert(self.stages@.take(si + 1).drop_last() =~= self.stages@.take(si as int));
                assert(self.stages@.take(si + 1).last() == self.stages@[si as int]);
            }
            si += 1;
        }
        proof {
            assert(self.stages@.take(n as int) =~= self.stages@);
        }
    }
}

/// Creates the empty world, the resource table with the zero `Time`
/// already inserted, that same zero `Time`, and the full pipeline.
pub fn init_world() -> (r: (World, Resources, Time, Schedule))
    ensures
        r.0.wf(),
        r.0@ =~= Seq::<GroupView>::empty(),
        r.1.time == Some(Time::zero_spec()),
        r.2 == Time::zero_spec(),
        r.3.stages@ == full_pipeline(),
{
    let w = world();
    let mut res = resources();
    let time = Time::zero();
    res.insert(time);
    let s = schedule();
    (w, res, time, s)
}

} // verus!
