use sawmill::level::{level_plank, spawn_level, PlankDraw, LEVEL_PLANKS};

#[test]
fn stack_plank_from_draws() {
    let d = PlankDraw { lift: 2000, shift: -3000, trim: -10000, tilt: 1500, red: 20, green: -5 };
    let p = level_plank(3, &d);
    assert_eq!(p.width, 190000);
    assert_eq!(p.height, 10000);
    assert_eq!(p.position.x, -203000);
    assert_eq!(p.position.y, 37000);
    assert_eq!(p.rotation, 1500);
    assert_eq!(p.l_vel, None);
    assert_eq!(p.a_vel, None);
    assert_eq!((p.color.r, p.color.g, p.color.b, p.color.a), (320, 145, 10, 1000));
}

#[test]
fn opening_level_is_a_jumbled_stack() {
    let level = spawn_level();
    assert_eq!(level.planks.len(), LEVEL_PLANKS);
    for (i, p) in level.planks.iter().enumerate() {
        let base = 5000 + 10000 * i as i64;
        assert!(p.position.y >= base + 1500 && p.position.y < base + 3500);
        assert!(p.position.x >= -220000 && p.position.x < -180000);
        assert!(p.width >= 175000 && p.width < 205000);
        assert!(p.rotation >= -5000 && p.rotation < 5000);
        assert_eq!(p.height, 10000);
    }
    let first = level.planks[0].width;
    assert!(level.planks.iter().any(|p| p.width != first));
    assert!(level.saw.active);
    assert_eq!(level.saw.position.y, 30000);
    assert_eq!(level.saw_body.position, level.saw.position);
}
