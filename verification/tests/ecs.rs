//! The entity world, the resource table, the queries and the pipeline,
//! exercised with the real software floating-point arithmetic linked in.

use particles_ecs::components::{
    Acceleration, Circle, ColorBits, Mass, Object, Position, Time, Vec2Bits, Velocity,
};
use particles_ecs::query::{get_component_objects, get_objects, Query};
use particles_ecs::systems::{init, init_world, resources, schedule, world, Resources, Stage};
use particles_ecs::world::{KindSet, Row, SchemaConflictError, World};
use particles_ecs::{
    advance_fake_clock, components_loop, init_ecs_components, init_ecs_obj, obj_loop,
    reached_ceiling,
};

fn no_kinds() -> KindSet {
    KindSet {
        position: false,
        velocity: false,
        acceleration: false,
        mass: false,
        object: false,
        circle: false,
    }
}

fn particle_row(mass_bits: u32) -> Row {
    Row {
        position: Some(Position { pos: Vec2Bits { x: 0, y: 0 } }),
        velocity: Some(Velocity { vel: Vec2Bits { x: 0, y: 0 } }),
        acceleration: Some(Acceleration { acc: Vec2Bits { x: 0, y: 0 } }),
        mass: Some(Mass { mass: mass_bits }),
        ..Row::empty()
    }
}

fn object_row(mass_bits: u32) -> Row {
    Row {
        object: Some(Object {
            pos: Vec2Bits { x: 0, y: 0 },
            vel: Vec2Bits { x: 0, y: 0 },
            acc: Vec2Bits { x: 0, y: 0 },
            mass: mass_bits,
        }),
        ..Row::empty()
    }
}

#[test]
fn init_components() {
    init_ecs_components(&1_000_000);
}

#[test]
fn init_objects() {
    init_ecs_obj(&1_000_000);
}

#[test]
fn million_entities_queryable() {
    let (w, _res, _time, _sched, _count) = init_ecs_components(&1_000_000);
    let q = Query::new(KindSet { position: true, ..no_kinds() });
    assert_eq!(q.iter(&w).len(), 1_000_000);
}

#[test]
fn bulk_insert_count_matches() {
    let mut w = World::new();
    let kinds = KindSet {
        position: true,
        velocity: true,
        acceleration: true,
        mass: true,
        ..no_kinds()
    };
    let rows: Vec<Row> = (0..37).map(|i| particle_row(i)).collect();
    w.extend(rows);
    assert_eq!(w.count(kinds), 37);
    // a second bulk insert adds exactly its own size
    let more: Vec<Row> = (0..5).map(|i| particle_row(100 + i)).collect();
    w.extend(more);
    assert_eq!(w.count(kinds), 42);
}

#[test]
fn query_construction_is_idempotent() {
    let mut w = World::new();
    w.extend((0..10).map(particle_row).collect());
    w.extend((0..4).map(object_row).collect());
    let k = KindSet { position: true, mass: true, ..no_kinds() };
    let q1 = Query::new(k);
    let q2 = Query::new(k);
    assert_eq!(q1.iter(&w), q2.iter(&w));
    assert_eq!(get_objects().iter(&w), get_objects().iter(&w));
    assert_eq!(get_component_objects().iter(&w), get_component_objects().iter(&w));
}

#[test]
fn queries_reflect_later_inserts() {
    let mut w = World::new();
    let q = Query::new(KindSet { object: true, ..no_kinds() });
    assert_eq!(q.iter(&w).len(), 0);
    w.extend((0..3).map(object_row).collect());
    assert_eq!(q.iter(&w).len(), 3);
    w.extend((0..2).map(object_row).collect());
    assert_eq!(q.iter(&w).len(), 5);
}

#[test]
fn iteration_order_is_group_creation_then_insertion() {
    let mut w = World::new();
    let mass_only = |m: u32| Row { mass: Some(Mass { mass: m }), ..Row::empty() };
    w.extend(vec![mass_only(1)]);
    w.extend(vec![particle_row(2)]);
    w.extend(vec![mass_only(3)]);
    let q = Query::new(KindSet { mass: true, ..no_kinds() });
    let seen: Vec<u32> = q.iter(&w).iter().map(|r| r.mass.unwrap().mass).collect();
    // the mass-only group was created first and keeps insertion order
    assert_eq!(seen, vec![1, 3, 2]);
}

#[test]
fn selection_projects_to_requested_kinds() {
    let mut w = World::new();
    w.extend(vec![particle_row(9)]);
    let q = Query::new(KindSet { mass: true, ..no_kinds() });
    let rows = q.iter(&w);
    assert_eq!(rows.len(), 1);
    assert_eq!(rows[0].mass, Some(Mass { mass: 9 }));
    assert_eq!(rows[0].position, None);
    assert_eq!(rows[0].velocity, None);
}

#[test]
fn insert_batch_accepts_matching_rows() {
    let mut w = World::new();
    let kinds = KindSet { object: true, ..no_kinds() };
    let r = w.insert_batch(kinds, (0..4).map(object_row).collect());
    assert_eq!(r, Ok(()));
    assert_eq!(w.count(kinds), 4);
}

#[test]
fn insert_batch_reports_schema_conflict() {
    let mut w = World::new();
    let declared = KindSet { object: true, ..no_kinds() };
    let rows = vec![object_row(1), particle_row(2)];
    let r = w.insert_batch(declared, rows);
    assert_eq!(
        r,
        Err(SchemaConflictError {
            declared,
            found: KindSet {
                position: true,
                velocity: true,
                acceleration: true,
                mass: true,
                ..no_kinds()
            },
        })
    );
    // nothing was inserted
    assert_eq!(w.count(no_kinds()), 0);
}

#[test]
fn resource_table_single_slot() {
    let mut res = resources();
    assert_eq!(res.get(), None);
    let t1 = Time { elapsed_seconds: 1, overall_time: 2 };
    res.insert(t1);
    assert_eq!(res.get(), Some(t1));
    let t2 = Time { elapsed_seconds: 3, overall_time: 4 };
    res.insert(t2);
    // overwritten, not accumulated
    assert_eq!(res.get(), Some(t2));
}

#[test]
fn default_masses_diverge() {
    // the Mass component defaults to 1.0, the monolithic Object to 0.0
    assert_eq!(Mass::default().mass, 1.0f32.to_bits());
    assert_eq!(Object::default().mass, 0.0f32.to_bits());
}

#[test]
fn pipelines_declare_the_documented_order() {
    assert_eq!(
        schedule().stages,
        vec![
            Stage::ApplyGravity,
            Stage::UpdateVelocity,
            Stage::ApplyAirDrag,
            Stage::UpdatePosition,
            Stage::DropAcceleration,
            Stage::UpdateObjects,
        ]
    );
    assert_eq!(
        init().stages,
        vec![
            Stage::ApplyGravity,
            Stage::UpdateVelocity,
            Stage::ApplyAirDrag,
            Stage::UpdatePosition,
            Stage::DropAcceleration,
        ]
    );
}

#[test]
fn component_tick_numeric_scenario() {
    // one entity: mass 2.0, everything else zero, elapsed 0.1 seconds
    let mut w = World::new();
    w.extend(vec![particle_row(2.0f32.to_bits())]);
    let t32 = (0.1f64 as f32).to_bits();
    let all = KindSet {
        position: true,
        velocity: true,
        acceleration: true,
        mass: true,
        ..no_kinds()
    };
    let q = Query::new(all);

    w.run_stage(Stage::ApplyGravity, t32);
    let acc = q.iter(&w)[0].acceleration.unwrap().acc;
    // -50.0 * 2.0 * 0.1 is exactly -10.0 in single precision
    assert_eq!(acc.x, 0);
    assert_eq!(acc.y, (-10.0f32).to_bits());

    w.run_stage(Stage::UpdateVelocity, t32);
    let vel = q.iter(&w)[0].velocity.unwrap().vel;
    // -10.0 * 0.1 is exactly -1.0 in single precision
    assert_eq!(vel.x, 0);
    assert_eq!(vel.y, (-1.0f32).to_bits());

    w.run_stage(Stage::ApplyAirDrag, t32);
    let vel = q.iter(&w)[0].velocity.unwrap().vel;
    let dragged = -1.0f32 * 0.999f32;
    assert_eq!(vel.y, dragged.to_bits());

    w.run_stage(Stage::UpdatePosition, t32);
    let pos = q.iter(&w)[0].position.unwrap().pos;
    let expected_pos_y = 0.0f32 + dragged * f32::from_bits(t32);
    assert_eq!(pos.x, 0);
    assert_eq!(pos.y, expected_pos_y.to_bits());

    w.run_stage(Stage::DropAcceleration, t32);
    let row = q.iter(&w)[0];
    // the acceleration is reset to zero at tick end
    assert_eq!(row.acceleration.unwrap().acc, Vec2Bits { x: 0, y: 0 });
    // velocity and position keep their integrated values
    assert_eq!(row.velocity.unwrap().vel.y, dragged.to_bits());
    assert_eq!(row.position.unwrap().pos.y, expected_pos_y.to_bits());
}

#[test]
fn full_tick_through_schedule_matches_stagewise_run() {
    let elapsed = 0.1f64;
    let t32 = (elapsed as f32).to_bits();

    let mut w1 = World::new();
    w1.extend(vec![particle_row(2.0f32.to_bits()), object_row(2.0f32.to_bits())]);
    let mut res = resources();
    res.insert(Time {
        elapsed_seconds: elapsed.to_bits(),
        overall_time: elapsed.to_bits(),
    });
    let mut sched = schedule();
    sched.execute(&mut w1, &mut res);

    let mut w2 = World::new();
    w2.extend(vec![particle_row(2.0f32.to_bits()), object_row(2.0f32.to_bits())]);
    for st in [
        Stage::ApplyGravity,
        Stage::UpdateVelocity,
        Stage::ApplyAirDrag,
        Stage::UpdatePosition,
        Stage::DropAcceleration,
        Stage::UpdateObjects,
    ] {
        w2.run_stage(st, t32);
    }

    let q = Query::new(no_kinds());
    assert_eq!(w1.count(no_kinds()), 2);
    assert_eq!(q.iter(&w1).len(), q.iter(&w2).len());
    let all_particle = KindSet {
        position: true,
        velocity: true,
        acceleration: true,
        mass: true,
        ..no_kinds()
    };
    let obj = KindSet { object: true, ..no_kinds() };
    assert_eq!(Query::new(all_particle).iter(&w1), Query::new(all_particle).iter(&w2));
    assert_eq!(Query::new(obj).iter(&w1), Query::new(obj).iter(&w2));
}

#[test]
fn object_tick_numeric_scenario() {
    // the monolithic stage folds drag in before the position update
    let t = 0.1f64 as f32;
    let mut w = World::new();
    w.extend(vec![object_row(2.0f32.to_bits())]);
    let mut res = resources();
    res.insert(Time {
        elapsed_seconds: 0.1f64.to_bits(),
        overall_time: 0.1f64.to_bits(),
    });
    let mut sched = schedule();
    sched.execute(&mut w, &mut res);

    let q = Query::new(KindSet { object: true, ..no_kinds() });
    let o = q.iter(&w)[0].object.unwrap();
    let acc_y = 0.0f32 + -50.0f32 * 2.0f32 * t;
    let vel_y = (0.0f32 + acc_y * t) * 0.999f32;
    let pos_y = 0.0f32 + vel_y * t;
    assert_eq!(o.acc, Vec2Bits { x: 0, y: 0 });
    assert_eq!(o.vel.y, vel_y.to_bits());
    assert_eq!(o.pos.y, pos_y.to_bits());
    assert_eq!(o.mass, 2.0f32.to_bits());
}

#[test]
fn gravity_scales_with_mass_and_time() {
    // a second mass and step, so a wrong constant or argument order shows
    let t64 = 0.25f64;
    let t32 = (t64 as f32).to_bits();
    let mut w = World::new();
    w.extend(vec![particle_row(3.5f32.to_bits())]);
    w.run_stage(Stage::ApplyGravity, t32);
    let q = Query::new(KindSet { acceleration: true, ..no_kinds() });
    let acc = q.iter(&w)[0].acceleration.unwrap().acc;
    let expected = 0.0f32 + -50.0f32 * 3.5f32 * (t64 as f32);
    assert_eq!(acc.y, expected.to_bits());
}

#[test]
fn fake_clock_advances_by_tenths() {
    let t0 = Time { elapsed_seconds: 0, overall_time: 0 };
    let t1 = advance_fake_clock(t0);
    assert_eq!(t1.overall_time, (0.0f64 + 0.1f64).to_bits());
    assert_eq!(t1.elapsed_seconds, (0.0f64 + 0.1f64 - 0.0f64).to_bits());
    let t2 = advance_fake_clock(t1);
    let overall1 = 0.0f64 + 0.1f64;
    let overall2 = overall1 + 0.1f64;
    assert_eq!(t2.overall_time, overall2.to_bits());
    assert_eq!(t2.elapsed_seconds, (overall2 - overall1).to_bits());
}

#[test]
fn ceiling_check_matches_double_comparison() {
    let below = Time { elapsed_seconds: 0, overall_time: 29.95f64.to_bits() };
    let at = Time { elapsed_seconds: 0, overall_time: 30.0f64.to_bits() };
    let above = Time { elapsed_seconds: 0, overall_time: 30.1f64.to_bits() };
    assert!(!reached_ceiling(below));
    assert!(reached_ceiling(at));
    assert!(reached_ceiling(above));
}

#[test]
fn benchmark_loops_run_to_the_ceiling() {
    // three hundred ticks over an empty world
    obj_loop(&0);
    components_loop(&0);
}

#[test]
fn init_world_inserts_zero_time() {
    let (w, res, time, sched) = init_world();
    assert_eq!(w.count(no_kinds()), 0);
    assert_eq!(time, Time { elapsed_seconds: 0, overall_time: 0 });
    assert_eq!(res.get(), Some(time));
    assert_eq!(sched.stages.len(), 6);
    let fresh: Resources = Default::default();
    assert_eq!(fresh.get(), None);
    assert_eq!(world().count(no_kinds()), 0);
}

#[test]
fn presentation_queries_select_drawables() {
    let mut w = World::new();
    let drawable = Row {
        position: Some(Position { pos: Vec2Bits { x: 1, y: 2 } }),
        circle: Some(Circle { r: 3, color: ColorBits { r: 4, g: 5, b: 6, a: 7 } }),
        ..Row::empty()
    };
    w.extend(vec![drawable, particle_row(1), object_row(1)]);
    let rows = get_component_objects().iter(&w);
    assert_eq!(rows.len(), 1);
    assert_eq!(rows[0].position, Some(Position { pos: Vec2Bits { x: 1, y: 2 } }));
    assert_eq!(rows[0].circle.unwrap().r, 3);
    assert_eq!(get_objects().iter(&w).len(), 0);
}
