use sawmill::geom::Vec2i;
use sawmill::saw::{move_saw, saw_tick, Saw, SawBody, SawInput};

fn saw(active: bool, x: i64, y: i64, vx: i64, vy: i64) -> Saw {
    Saw { active, position: Vec2i { x, y }, velocity: Vec2i { x: vx, y: vy } }
}

fn body() -> SawBody {
    SawBody { position: Vec2i { x: 0, y: 30000 }, velocity: Vec2i { x: 0, y: 0 } }
}

const NONE: SawInput = SawInput { left: false, right: false, descend: false };

#[test]
fn steering_right_adds_one_unit() {
    let mut s = saw(true, 0, 30000, 0, 0);
    let mut b = body();
    saw_tick(&mut s, &mut b, &SawInput { left: false, right: true, descend: false }, 0);
    assert_eq!(s.velocity.x, 1000);
    assert_eq!(b.velocity.x, 1000);
}

#[test]
fn both_keys_cancel_and_coast() {
    let mut s = saw(true, 0, 30000, 2000, 0);
    let mut b = body();
    saw_tick(&mut s, &mut b, &SawInput { left: true, right: true, descend: false }, 0);
    assert_eq!(s.velocity.x, 1800);
    assert_eq!(b.velocity.x, -200);
}

#[test]
fn coasting_decays_to_zero_without_sign_change() {
    let mut s = saw(true, 0, 30000, -5000, 0);
    let mut b = body();
    let mut ticks = 0;
    while s.velocity.x != 0 {
        saw_tick(&mut s, &mut b, &NONE, 0);
        assert!(s.velocity.x <= 0);
        ticks += 1;
        assert!(ticks <= 5000);
    }
    assert!(ticks < 45);
    saw_tick(&mut s, &mut b, &NONE, 0);
    assert_eq!(s.velocity.x, 0);
}

#[test]
fn slow_coast_snaps_to_zero() {
    let mut s = saw(true, 0, 30000, 111, 0);
    let mut b = body();
    saw_tick(&mut s, &mut b, &NONE, 0);
    assert_eq!(s.velocity.x, 0);
}

#[test]
fn low_saw_cannot_move_sideways() {
    let mut s = saw(true, 0, 20000, 0, 0);
    let mut b = body();
    saw_tick(&mut s, &mut b, &SawInput { left: true, right: false, descend: false }, 0);
    assert_eq!(s.velocity.x, 0);
}

#[test]
fn damp_band_keeps_a_tenth() {
    let mut s = saw(true, 0, 25000, 0, 0);
    let mut b = body();
    saw_tick(&mut s, &mut b, &SawInput { left: false, right: true, descend: false }, 0);
    assert_eq!(s.velocity.x, 100);
}

#[test]
fn reaching_top_arms_the_saw() {
    let mut s = saw(false, 0, 29000, 0, 0);
    let mut b = body();
    saw_tick(&mut s, &mut b, &NONE, 0);
    assert!(s.active);
    let mut below = saw(false, 0, 28999, 0, 0);
    saw_tick(&mut below, &mut b, &NONE, 0);
    assert!(!below.active);
    assert_eq!(below.velocity.y, 500);
}

#[test]
fn overshoot_is_clamped_to_track_top() {
    let mut s = saw(true, 0, 31000, 0, 700);
    let mut b = body();
    saw_tick(&mut s, &mut b, &NONE, 0);
    assert_eq!(s.position.y, 30000);
    assert_eq!(s.velocity.y, 0);
    assert_eq!(b.velocity.y, -350);
}

#[test]
fn saw_below_floor_is_lifted() {
    let mut s = saw(true, 0, 4000, 0, 0);
    let mut b = SawBody { position: Vec2i { x: 0, y: 1000 }, velocity: Vec2i { x: 0, y: 0 } };
    saw_tick(&mut s, &mut b, &NONE, 0);
    assert_eq!(s.position.y, 5000);
    assert_eq!(s.velocity.y, 500);
    assert_eq!(b.velocity.y, 250);
    assert_eq!(b.position.y, 27000);
}

#[test]
fn descending_pushes_down_and_wobbles() {
    let mut s = saw(true, 0, 25000, 0, 0);
    let mut b = body();
    saw_tick(&mut s, &mut b, &SawInput { left: false, right: false, descend: true }, 450);
    assert_eq!(s.velocity.y, -200);
    assert_eq!(s.position.x, 450);
    assert_eq!(b.position.x, 450);
    assert_eq!(b.velocity.y, -100);
}

#[test]
fn descending_at_bottom_stops() {
    let mut s = saw(true, 0, 10000, 0, -3000);
    let mut b = body();
    saw_tick(&mut s, &mut b, &SawInput { left: false, right: false, descend: true }, 50);
    assert_eq!(s.velocity.y, 0);
    assert_eq!(s.position.x, 0);
    assert_eq!(b.velocity.y, 1500);
}

#[test]
fn random_wobble_stays_in_amplitude() {
    let mut seen_move = false;
    for _ in 0..200 {
        let mut s = saw(true, 0, 25000, 0, 0);
        let mut b = body();
        move_saw(&mut s, &mut b, &SawInput { left: false, right: false, descend: true });
        assert!(s.position.x >= -600 && s.position.x < 600);
        assert_eq!(b.position.x, s.position.x);
        if s.position.x != 0 {
            seen_move = true;
        }
    }
    assert!(seen_move);
    for _ in 0..50 {
        let mut s = saw(true, 0, 15000, 0, 0);
        let mut b = body();
        move_saw(&mut s, &mut b, &SawInput { left: false, right: false, descend: true });
        assert!(s.position.x >= -100 && s.position.x < 100);
    }
}

#[test]
fn carriage_takes_half_the_vertical_move() {
    let mut s = saw(true, 0, 3000, 0, 0);
    let mut b = SawBody { position: Vec2i { x: 0, y: 40000 }, velocity: Vec2i { x: 0, y: 0 } };
    saw_tick(&mut s, &mut b, &NONE, 0);
    assert_eq!(s.position.y, 5000);
    assert_eq!(b.position.y, 41000);
    let mut high = saw(true, 0, 31001, 0, 0);
    let mut hb = SawBody { position: Vec2i { x: 0, y: 40000 }, velocity: Vec2i { x: 0, y: 0 } };
    saw_tick(&mut high, &mut hb, &NONE, 0);
    assert_eq!(high.position.y, 30000);
    assert_eq!(hb.position.y, 39499);
}

#[test]
fn fast_drift_stops_within_geometric_bound() {
    for start in [10000i64, -10000] {
        let mut s = saw(true, 0, 30000, start, 0);
        let mut b = body();
        for _ in 0..45 {
            let before = s.velocity.x;
            saw_tick(&mut s, &mut b, &NONE, 0);
            assert!(s.velocity.x.abs() <= before.abs());
            assert!(s.velocity.x * start >= 0);
        }
        assert_eq!(s.velocity.x, 0);
        saw_tick(&mut s, &mut b, &NONE, 0);
        assert_eq!(s.velocity.x, 0);
    }
}
