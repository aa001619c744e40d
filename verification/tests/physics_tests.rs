//! Physics step scenarios on concrete fixed-point values.

use platformer_core::components::{PlayerRecord, Rgba, Vec2};
use platformer_core::physics::{calculate_physics, step_record};
use platformer_core::protocol::{GROUNDED_Y, MAX_X};
use platformer_core::replication::ReplicationStore;

fn grounded_record() -> PlayerRecord {
    PlayerRecord {
        position: Vec2 { x: 0, y: GROUNDED_Y },
        velocity: Vec2 { x: 0, y: 0 },
        grounded: true,
        color: Rgba { r: 0, g: 0, b: 0, a: 1000 },
        owner: None,
    }
}

#[test]
fn step_is_deterministic_on_equal_inputs() {
    let mut a = PlayerRecord {
        position: Vec2 { x: 123_456, y: 78_901 },
        velocity: Vec2 { x: -3141, y: 2718 },
        grounded: false,
        color: Rgba { r: 1, g: 2, b: 3, a: 1000 },
        owner: Some(42),
    };
    let mut b = a;
    step_record(&mut a, 16);
    step_record(&mut b, 16);
    assert_eq!(a, b);
    step_record(&mut a, 17);
    step_record(&mut b, 17);
    assert_eq!(a, b);
}

#[test]
fn full_speed_movement_advances_45_thousand_per_tenth_second() {
    // A full-scale intent gives 450 pixels per second; in a tenth of a
    // second the player advances 45 pixels, before any clamping.
    let mut rec = grounded_record();
    rec.velocity.x = 450_000;
    step_record(&mut rec, 100);
    assert_eq!(rec.position.x, 45_000);
    assert_eq!(rec.velocity.x, 450_000);
}

#[test]
fn fast_fall_lands_exactly_on_the_ground() {
    // Starting a hundredth of a pixel above rest and falling fast: after
    // one whole second gravity has taken the vertical velocity to -950
    // pixels per second, the raw position is far below ground, and the
    // collision snaps the record onto the ground at rest.
    let mut rec = grounded_record();
    rec.grounded = false;
    rec.position.y = GROUNDED_Y + 10;
    rec.velocity.y = -50_000;
    step_record(&mut rec, 1000);
    assert_eq!(rec.position.y, GROUNDED_Y);
    assert_eq!(rec.velocity.y, 0);
    assert!(rec.grounded);
}

#[test]
fn airborne_record_keeps_falling_without_touching_ground() {
    let mut rec = grounded_record();
    rec.grounded = false;
    rec.position.y = GROUNDED_Y + 1_000_000;
    rec.velocity.y = 0;
    step_record(&mut rec, 100);
    // After 0.1 s: velocity -90 px/s, position falls 9 px.
    assert_eq!(rec.velocity.y, -90_000);
    assert_eq!(rec.position.y, GROUNDED_Y + 1_000_000 - 9_000);
    assert!(!rec.grounded);
}

#[test]
fn horizontal_position_clamps_at_the_walls() {
    let mut rec = grounded_record();
    rec.position.x = MAX_X - 1_000;
    rec.velocity.x = 450_000;
    step_record(&mut rec, 100);
    assert_eq!(rec.position.x, MAX_X);

    let mut rec = grounded_record();
    rec.position.x = -MAX_X + 1_000;
    rec.velocity.x = -450_000;
    step_record(&mut rec, 100);
    assert_eq!(rec.position.x, -MAX_X);
}

#[test]
fn grounded_record_stays_grounded_and_at_rest() {
    let mut rec = grounded_record();
    step_record(&mut rec, 16);
    assert!(rec.grounded);
    assert_eq!(rec.velocity.y, 0);
    assert_eq!(rec.position.y, GROUNDED_Y);
}

#[test]
fn calculate_physics_steps_every_record() {
    let mut store = ReplicationStore::new();
    let mut a = grounded_record();
    a.owner = Some(1);
    a.velocity.x = 450_000;
    let mut b = grounded_record();
    b.owner = Some(2);
    b.position.x = 10_000;
    store.records.push(a);
    store.records.push(b);
    calculate_physics(&mut store, 100);
    assert_eq!(store.records.len(), 2);
    assert_eq!(store.records[0].position.x, 45_000);
    assert_eq!(store.records[0].owner, Some(1));
    assert_eq!(store.records[1].position.x, 10_000);
    assert_eq!(store.records[1].owner, Some(2));
}
