//! A minimal entity-component runtime for a toy physics simulation,
//! together with the sorting micro-benchmark harness that accompanies it.
//!
//! Entities are created in bulk and live in archetype groups: one
//! contiguous column per component kind, indexed in parallel.  A fixed
//! pipeline of mutation stages is applied once per tick in a stable order.
//! Scalar component data is carried as raw IEEE-754 bit patterns (`u32`
//! for single precision, `u64` for double precision); the arithmetic on
//! those patterns is delegated to a software implementation of the same
//! IEEE operations.
//!
//! The free functions here drive the two benchmark setups: a world of
//! monolithic `Object` records against a world of separate `Position`,
//! `Velocity`, `Acceleration` and `Mass` components, each filled in
//! batches of a thousand and ticked with a fixed fake time step until
//! thirty simulated seconds have passed.

use vstd::prelude::*;

pub mod components;
pub mod numeric;
pub mod query;
pub mod sort;
pub mod systems;
pub mod world;

use crate::components::{Acceleration, Mass, Object, Position, Time, Velocity};
use crate::numeric::{add64, add_bits64, ge64, ge_bits64, sub64, sub_bits64};
use crate::query::Query;
use crate::systems::{Resources, Schedule, full_pipeline, init_world};
use crate::world::{GroupView, KindSet, Row, World, extend_rows, select_rows};

verus! {

/// Bit pattern of double-precision `0.1`, the fake per-tick time step the
/// benchmark loops advance by.
pub const TENTH_BITS64: u64 = 0x3FB9_9999_9999_999A;

/// Bit pattern of double-precision `30.0`, the simulated-time ceiling the
/// benchmark loops run until.
pub const THIRTY_BITS64: u64 = 0x403E_0000_0000_0000;

/// A generous bound on the benchmark loops, far above the three hundred
/// ticks the fake clock takes to reach the ceiling.
pub const MAX_TICKS: u64 = 1_000_000;

/// One step of the benchmarks' fake clock: the overall time advances by a
/// tenth of a second, and the elapsed seconds are the difference of the
/// new and the old overall time, computed here, before insertion — the
/// resource table itself performs no delta computation.
pub fn advance_fake_clock(t: Time) -> (r: Time)
    ensures
        r.overall_time == add_bits64(t.overall_time, TENTH_BITS64),
        r.elapsed_seconds == sub_bits64(r.overall_time, t.overall_time),
{
    let fake_time = add64(t.overall_time, TENTH_BITS64);
    Time { elapsed_seconds: sub64(fake_time, t.overall_time), overall_time: fake_time }
}

/// Whether the simulated time has reached the thirty-second ceiling the
/// benchmark loops run until.
pub fn reached_ceiling(t: Time) -> (r: bool)
    ensures
        r == ge_bits64(t.overall_time, THIRTY_BITS64),
{
    ge64(t.overall_time, THIRTY_BITS64)
}

/// The kind set of the monolithic layout: one `Object` record.
pub open spec fn object_kinds() -> KindSet {
    KindSet { object: true, ..KindSet::none_spec() }
}

/// The kind set of the component layout: position, velocity, acceleration
/// and mass as separate records.
pub open spec fn component_kinds() -> KindSet {
    KindSet {
        position: true,
        velocity: true,
        acceleration: true,
        mass: true,
        ..KindSet::none_spec()
    }
}

/// The row a defaulted monolithic entity starts from.
pub open spec fn default_object_row() -> Row {
    Row {
        position: None,
        velocity: None,
        acceleration: None,
        mass: None,
        object: Some(
            Object {
                pos: crate::components::Vec2Bits::zero_spec(),
                vel: crate::components::Vec2Bits::zero_spec(),
                acc: crate::components::Vec2Bits::zero_spec(),
                mass: 0,
            },
        ),
        circle: None,
    }
}

/// The row a defaulted component entity starts from.
pub open spec fn default_component_row() -> Row {
    Row {
        position: Some(Position { pos: crate::components::Vec2Bits::zero_spec() }),
        velocity: Some(Velocity { vel: crate::components::Vec2Bits::zero_spec() }),
        acceleration: Some(Acceleration { acc: crate::components::Vec2Bits::zero_spec() }),
        mass: Some(Mass { mass: crate::components::ONE_BITS32 }),
        object: None,
        circle: None,
    }
}

/// The world the benchmarks start from: `n` identical entities of kind set
/// `k`, all in one group — or no group at all when `n` is zero.
pub open spec fn uniform_world(k: KindSet, row: Row, n: int) -> Seq<GroupView> {
    if n == 0 {
        Seq::empty()
    } else {
        seq![GroupView { kinds: k, rows: Seq::new(n as nat, |i: int| row) }]
    }
}

/// Routing rows that all carry one kind set into a world of at most one
/// group of that same kind set appends them to that group.
proof fn lemma_extend_uniform(ws: Seq<GroupView>, rows: Seq<Row>, k: KindSet)
    requires
        forall|i: int| 0 <= i < rows.len() ==> (#[trigger] rows[i]).kinds() == k,
        ws.len() <= 1,
        ws.len() == 1 ==> ws[0].kinds == k,
    ensures
        extend_rows(ws, rows) == if ws.len() == 0 {
            if rows.len() == 0 {
                Seq::<GroupView>::empty()
            } else {
                seq![GroupView { kinds: k, rows: rows }]
            }
        } else {
            seq![GroupView { kinds: k, rows: ws[0].rows + rows }]
        },
    decreases rows.len(),
{
    if rows.len() == 0 {
        if ws.len() == 1 {
            assert(ws =~= seq![GroupView { kinds: k, rows: ws[0].rows + rows }]) by {
                assert(ws[0].rows + rows =~= ws[0].rows);
            }
        }
    } else {
        lemma_extend_uniform(ws, rows.drop_last(), k);
        let prior = extend_rows(ws, rows.drop_last());
        let last = rows.last();
        if prior.len() == 0 {
            assert(extend_rows(ws, rows) == prior.push(
                GroupView { kinds: last.kinds(), rows: seq![last] },
            ));
            assert(seq![last] =~= rows);
            assert(extend_rows(ws, rows) =~= seq![GroupView { kinds: k, rows: rows }]);
        } else {
            assert(prior[0].kinds == k);
            assert(exists|i: int| 0 <= i < prior.len() && prior[i].kinds == last.kinds()) by {
                assert(prior[0].kinds == last.kinds());
            }
            let ci = choose|i: int| 0 <= i < prior.len() && prior[i].kinds == last.kinds();
            assert(ci == 0);
            if ws.len() == 0 {
                assert(prior[0].rows.push(last) =~= rows) by {
                    assert(prior[0].rows == rows.drop_last());
                }
                assert(extend_rows(ws, rows) =~= seq![GroupView { kinds: k, rows: rows }]);
            } else {
                assert(prior[0].rows.push(last) =~= ws[0].rows + rows) by {
                    assert(prior[0].rows == ws[0].rows + rows.drop_last());
                }
                assert(extend_rows(ws, rows) =~= seq![
                    GroupView { kinds: k, rows: ws[0].rows + rows },
                ]);
            }
        }
    }
}

/// Fills a fresh world with `*amount / 1000` batches of a thousand
/// defaulted entities of kind set `k`, each batch one bulk insert.
fn fill_uniform(w: &mut World, amount: &usize, row: Row, Ghost(k): Ghost<KindSet>)
    requires
        old(w).wf(),
        old(w)@ =~= Seq::<GroupView>::empty(),
        row.kinds() == k,
    ensures
        final(w).wf(),
        final(w)@ == uniform_world(k, row, (*amount as int / 1000) * 1000),
{
    let batches = *amount / 1000;
    let mut b: usize = 0;
    while b < batches
        invariant
            w.wf(),
            row.kinds() == k,
            b <= batches,
            w@ == uniform_world(k, row, b as int * 1000),
        decreases batches - b,
    {
        let mut batch: Vec<Row> = Vec::new();
        let mut i: usize = 0;
        while i < 1000
            invariant
                i <= 1000,
                batch@.len() == i,
                forall|j: int| 0 <= j < i ==> batch@[j] == row,
            decreases 1000 - i,
        {
            batch.push(row);
            i += 1;
        }
        let ghost prev = w@;
        w.extend(batch);
        proof {
            lemma_extend_uniform(prev, batch@, k);
            if b == 0 {
                assert(batch@ =~= Seq::new(1000nat, |i: int| row));
                assert(w@ =~= uniform_world(k, row, (b + 1) as int * 1000));
            } else {
                assert(prev[0].rows + batch@ =~= Seq::new(((b + 1) * 1000) as nat, |i: int| row));
                assert(w@ =~= uniform_world(k, row, (b + 1) as int * 1000));
            }
        }
        b += 1;
    }
}

/// Every selection covered by the kind set of a uniform world sees all its
/// entities.
proof fn lemma_uniform_select_len(k: KindSet, row: Row, n: int, sel: KindSet)
    requires
        n >= 0,
        k.contains_all(sel),
    ensures
        select_rows(uniform_world(k, row, n), sel).len() == n,
{
    if n != 0 {
        let ws = uniform_world(k, row, n);
        assert(ws.drop_last() =~= Seq::<GroupView>::empty());
        assert(select_rows(Seq::<GroupView>::empty(), sel) =~= Seq::<Row>::empty());
        assert(ws.last().kinds.contains_all(sel));
        assert(select_rows(ws, sel) =~= Seq::<Row>::empty() + ws.last().rows.map_values(
            |r: Row| r.project_spec(sel),
        ));
        assert(ws.last().rows.map_values(|r: Row| r.project_spec(sel)).len() == n);
    }
}

/// Creates the benchmark world of the monolithic layout: `*amount / 1000`
/// batches of a thousand defaulted `Object` entities, the zero time
/// already inserted into the resource table, and the full pipeline.  The
/// trailing counter starts at zero.
pub fn init_ecs_obj(amount: &usize) -> (r: (World, Resources, Time, Schedule, u64))
    ensures
        r.0.wf(),
        r.0@ == uniform_world(object_kinds(), default_object_row(), (*amount as int / 1000) * 1000),
        forall|sel: KindSet|
            object_kinds().contains_all(sel) ==> #[trigger] select_rows(r.0@, sel).len() == (
            *amount as int / 1000) * 1000,
        r.1.time == Some(Time::zero_spec()),
        r.2 == Time::zero_spec(),
        r.3.stages@ == full_pipeline(),
        r.4 == 0,
{
    let count = 0u64;
    let (mut world, resources, time, schedule) = init_world();
    let row = Row {
        position: None,
        velocity: None,
        acceleration: None,
        mass: None,
        object: Some(Object::default()),
        circle: None,
    };
    fill_uniform(&mut world, amount, row, Ghost(object_kinds()));
    proof {
        assert forall|sel: KindSet| object_kinds().contains_all(sel) implies #[trigger] select_rows(
            world@,
            sel,
        ).len() == (*amount as int / 1000) * 1000 by {
            lemma_uniform_select_len(
                object_kinds(),
                default_object_row(),
                (*amount as int / 1000) * 1000,
                sel,
            );
        }
    }
    (world, resources, time, schedule, count)
}

/// Creates the benchmark world of the component layout: `*amount / 1000`
/// batches of a thousand defaulted component entities, the zero time
/// already inserted into the resource table, and the full pipeline.  The
/// trailing counter starts at zero.
pub fn init_ecs_components(amount: &usize) -> (r: (World, Resources, Time, Schedule, u64))
    ensures
        r.0.wf(),
        r.0@ == uniform_world(
            component_kinds(),
            default_component_row(),
            (*amount as int / 1000) * 1000,
        ),
        forall|sel: KindSet|
            component_kinds().contains_all(sel) ==> #[trigger] select_rows(r.0@, sel).len() == (
            *amount as int / 1000) * 1000,
        r.1.time == Some(Time::zero_spec()),
        r.2 == Time::zero_spec(),
        r.3.stages@ == full_pipeline(),
        r.4 == 0,
{
    let count = 0u64;
    let (mut world, resources, time, schedule) = init_world();
    let row = Row {
        position: Some(Position::default()),
        velocity: Some(Velocity::default()),
        acceleration: Some(Acceleration::default()),
        mass: Some(Mass::default()),
        object: None,
        circle: None,
    };
    fill_uniform(&mut world, amount, row, Ghost(component_kinds()));
    proof {
        assert forall|sel: KindSet|
            component_kinds().contains_all(sel) implies #[trigger] select_rows(world@, sel).len()
            == (*amount as int / 1000) * 1000 by {
            lemma_uniform_select_len(
                component_kinds(),
                default_component_row(),
                (*amount as int / 1000) * 1000,
                sel,
            );
        }
    }
    (world, resources, time, schedule, count)
}

/// Drives the monolithic-layout benchmark: advances a fake clock in tenth
/// of-a-second steps, counts the `Object` entities through a query, and
/// executes the full pipeline, until thirty simulated seconds have passed.
pub fn obj_loop(amount: &usize) {
    let (mut world, mut resources, mut time, mut schedule, mut count) = init_ecs_obj(amount);
    let none = KindSet::none();
    // The fake clock crosses the ceiling after three hundred ticks; the cap
    // only bounds the loop, since nothing is known of the bit patterns.
    let mut ticks: u64 = 0;
    loop
        invariant_except_break
            ticks < MAX_TICKS,
        invariant
            world.wf(),
            resources.time is Some,
        decreases MAX_TICKS - ticks,
    {
        time = advance_fake_clock(time);
        resources.insert(time);

        let query = Query::new(KindSet { object: true, ..none });
        let seen = query.iter(&world);
        // the benchmark counter is never read back; it may wrap
        count = count.wrapping_add(seen.len() as u64);

        schedule.execute(&mut world, &mut resources);
        ticks += 1;
        if reached_ceiling(time) || ticks == MAX_TICKS {
            break ;
        }
    }
}

/// Drives the component-layout benchmark: advances a fake clock in tenth
/// of-a-second steps, counts the `Position` entities through a query, and
/// executes the full pipeline, until thirty simulated seconds have passed.
pub fn components_loop(amount: &usize) {
    let (mut world, mut resources, mut time, mut schedule, mut count) = init_ecs_components(
        amount,
    );
    let none = KindSet::none();
    // The fake clock crosses the ceiling after three hundred ticks; the cap
    // only bounds the loop, since nothing is known of the bit patterns.
    let mut ticks: u64 = 0;
    loop
        invariant_except_break
            ticks < MAX_TICKS,
        invariant
            world.wf(),
            resources.time is Some,
        decreases MAX_TICKS - ticks,
    {
        time = advance_fake_clock(time);
        resources.insert(time);

        let query = Query::new(KindSet { position: true, ..none });
        let seen = query.iter(&world);
        // the benchmark counter is never read back; it may wrap
        count = count.wrapping_add(seen.len() as u64);

        schedule.execute(&mut world, &mut resources);
        ticks += 1;
        if reached_ceiling(time) || ticks == MAX_TICKS {
            break ;
        }
    }
}

} // verus!
