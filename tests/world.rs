use quad_sandbox::instances::{DrawCall, InstanceBuffer};
use quad_sandbox::motion::{Body, Bounds, Vec2, MICROS_PER_UNIT, NANOS_PER_UNIT};
use quad_sandbox::world::{World, NANOS_PER_MILLI};

const UNIT: i64 = NANOS_PER_UNIT;
const STEP_MS: i64 = 20;

fn unit_world() -> World {
    World::new(Bounds { min: Vec2 { x: -UNIT, y: -UNIT }, max: Vec2 { x: UNIT, y: UNIT } }, STEP_MS)
}

/// Velocity of 0.2 units per second in direction `angle`, in micro-units.
fn velocity(angle: f64) -> Vec2 {
    let speed = 0.2 * MICROS_PER_UNIT as f64;
    Vec2 { x: (speed * angle.cos()).round() as i64, y: (speed * angle.sin()).round() as i64 }
}

fn spawn_ten(w: &mut World) -> Vec<Vec2> {
    let mut vs = Vec::new();
    for i in 0..10 {
        let v = velocity(i as f64 * 0.6283 + 0.1);
        vs.push(v);
        w.spawn(Body { position: Vec2 { x: 0, y: 0 }, velocity: v });
    }
    vs
}

#[test]
fn short_tick_does_not_advance() {
    let mut w = unit_world();
    spawn_ten(&mut w);
    assert!(!w.tick(19 * NANOS_PER_MILLI));
    assert_eq!(w.lag_ns(), 19 * NANOS_PER_MILLI);
    for i in 0..w.len() {
        assert_eq!(w.body(i).position, Vec2 { x: 0, y: 0 });
    }
}

#[test]
fn ten_bodies_after_hundred_ms() {
    let mut w = unit_world();
    let vs = spawn_ten(&mut w);
    assert!(w.tick(100 * NANOS_PER_MILLI));
    assert_eq!(w.lag_ns(), 0);
    assert_eq!(w.len(), 10);
    for i in 0..10 {
        let b = w.body(i);
        // velocity * 0.1 s, in nano-units
        assert_eq!(b.position, Vec2 { x: vs[i].x * 100, y: vs[i].y * 100 });
        assert_eq!(b.velocity, vs[i]);
    }
    let mut buffer: InstanceBuffer<Vec2> = InstanceBuffer::new(100);
    let offsets = w.positions();
    assert_eq!(buffer.update(&offsets), 10);
    assert_eq!(buffer.instance_count(), 10);
    assert_eq!(buffer.draw(), Some(DrawCall { vertex_count: 4, instance_count: 10 }));
}

#[test]
fn one_long_tick_equals_five_short_ones() {
    let mut a = unit_world();
    let mut b = unit_world();
    spawn_ten(&mut a);
    spawn_ten(&mut b);
    // a body that will bounce during the run
    a.spawn(Body { position: Vec2 { x: UNIT - 1_000, y: 0 }, velocity: Vec2 { x: MICROS_PER_UNIT, y: 0 } });
    b.spawn(Body { position: Vec2 { x: UNIT - 1_000, y: 0 }, velocity: Vec2 { x: MICROS_PER_UNIT, y: 0 } });
    a.tick(5 * STEP_MS as u64 * NANOS_PER_MILLI);
    for _ in 0..5 {
        b.tick(STEP_MS as u64 * NANOS_PER_MILLI);
    }
    assert_eq!(a.len(), b.len());
    for i in 0..a.len() {
        assert_eq!(a.body(i), b.body(i));
    }
    assert_eq!(a.lag_ns(), b.lag_ns());
}

#[test]
fn bounce_during_run_reverses_velocity() {
    let mut w = unit_world();
    w.spawn(Body { position: Vec2 { x: UNIT - 1_000, y: 0 }, velocity: Vec2 { x: MICROS_PER_UNIT, y: 0 } });
    assert!(w.tick(2 * STEP_MS as u64 * NANOS_PER_MILLI));
    let b = w.body(0);
    // first step hits the wall and reverses; second moves back by 0.02 units
    assert_eq!(b.velocity, Vec2 { x: -MICROS_PER_UNIT, y: 0 });
    assert_eq!(b.position, Vec2 { x: UNIT - 20_000_000, y: 0 });
}

#[test]
fn positions_follow_spawn_order() {
    let mut w = unit_world();
    w.spawn(Body { position: Vec2 { x: 1, y: 2 }, velocity: Vec2 { x: 0, y: 0 } });
    w.spawn(Body { position: Vec2 { x: 3, y: 4 }, velocity: Vec2 { x: 0, y: 0 } });
    assert_eq!(w.positions(), vec![Vec2 { x: 1, y: 2 }, Vec2 { x: 3, y: 4 }]);
    assert_eq!(w.bounds().max, Vec2 { x: UNIT, y: UNIT });
}
