use sawmill::geom::Vec2i;
use sawmill::plank::{cut_plank, split, ColorInfo, CutTuning, Plank, CUT_SIZE};
use sawmill::saw::Saw;

fn brown() -> ColorInfo {
    ColorInfo { r: 300, g: 150, b: 10, a: 1000 }
}

fn plank_at(entity: u64, x: i64, width: i64, height: i64) -> Plank {
    Plank {
        entity,
        position: Vec2i { x, y: 5000 },
        half_width: width / 2,
        half_height: height / 2,
        color: brown(),
    }
}

fn armed_saw(x: i64, y: i64) -> Saw {
    Saw { active: true, position: Vec2i { x, y }, velocity: Vec2i { x: 0, y: 0 } }
}

#[test]
fn cut_in_middle_spawns_two_pieces() {
    let mut saw = armed_saw(20000, 10000);
    let contacts = vec![plank_at(7, 0, 200000, 10000)];
    let cuts = split(&mut saw, &contacts, &CutTuning::standard());
    assert_eq!(cuts.len(), 1);
    let cut = cuts[0];
    assert_eq!(cut.despawn, 7);
    let left = cut.left.unwrap();
    let right = cut.right.unwrap();
    assert_eq!(left.width, 119000);
    assert_eq!(right.width, 79000);
    assert_eq!(left.height, 10000);
    assert_eq!(right.height, 10000);
    assert_eq!(left.position, Vec2i { x: -40500, y: 5000 });
    assert_eq!(right.position, Vec2i { x: 60500, y: 5000 });
    assert_eq!(left.l_vel, Some(Vec2i { x: -10000, y: 10000 }));
    assert_eq!(right.l_vel, Some(Vec2i { x: 10000, y: 10000 }));
    assert_eq!(left.a_vel, Some(1000));
    assert_eq!(right.a_vel, Some(-1000));
    assert_eq!(left.color, brown());
    assert_eq!(right.rotation, 0);
    assert!(!saw.active);
}

#[test]
fn cut_near_edge_spawns_only_left() {
    let mut saw = armed_saw(99400, 10000);
    let contacts = vec![plank_at(3, 0, 200000, 10000)];
    let cuts = split(&mut saw, &contacts, &CutTuning::standard());
    assert_eq!(cuts.len(), 1);
    assert_eq!(cuts[0].despawn, 3);
    assert!(cuts[0].right.is_none());
    let left = cuts[0].left.unwrap();
    assert_eq!(left.width, 198400);
    assert_eq!(left.position.x, -800);
    assert!(!saw.active);
}

#[test]
fn cut_pieces_conserve_width_minus_kerf() {
    let p = plank_at(1, 3000, 150000, 8000);
    let cut = cut_plank(-12345, &p, &CutTuning::standard());
    let l = cut.left.unwrap().width;
    let r = cut.right.unwrap().width;
    assert_eq!(l + r + 2 * CUT_SIZE, 150000);
}

#[test]
fn cut_of_sliver_spawns_nothing() {
    let p = plank_at(9, 0, 1600, 8000);
    let cut = cut_plank(0, &p, &CutTuning::standard());
    assert_eq!(cut.despawn, 9);
    assert!(cut.left.is_none());
    assert!(cut.right.is_none());
}

#[test]
fn cut_left_of_plank_spawns_only_right() {
    let p = plank_at(2, 0, 200000, 10000);
    let cut = cut_plank(-99500, &p, &CutTuning::standard());
    assert!(cut.left.is_none());
    assert_eq!(cut.right.unwrap().width, 198500);
}

#[test]
fn falling_right_piece_when_tuned() {
    let p = plank_at(2, 0, 200000, 10000);
    let mut t = CutTuning::standard();
    t.right_rises = false;
    let cut = cut_plank(0, &p, &t);
    assert_eq!(cut.right.unwrap().l_vel, Some(Vec2i { x: 10000, y: -10000 }));
    assert_eq!(cut.left.unwrap().l_vel, Some(Vec2i { x: -10000, y: 10000 }));
}

#[test]
fn several_contacts_cut_in_one_tick() {
    let mut saw = armed_saw(0, 11000);
    let contacts = vec![plank_at(1, 0, 200000, 10000), plank_at(2, 50000, 100000, 10000)];
    let cuts = split(&mut saw, &contacts, &CutTuning::standard());
    assert_eq!(cuts.len(), 2);
    assert_eq!(cuts[0].despawn, 1);
    assert_eq!(cuts[1].despawn, 2);
    assert!(cuts[1].left.is_none());
    assert_eq!(cuts[1].right.unwrap().width, 99000);
    assert_eq!(cuts[0].left.unwrap().width, 99000);
    assert!(!saw.active);
}

#[test]
fn disarmed_or_high_saw_does_not_cut() {
    let contacts = vec![plank_at(1, 0, 200000, 10000)];
    let mut idle = Saw { active: false, position: Vec2i { x: 0, y: 10000 }, velocity: Vec2i { x: 0, y: 0 } };
    assert!(split(&mut idle, &contacts, &CutTuning::standard()).is_empty());
    assert!(!idle.active);
    let mut high = armed_saw(0, 11001);
    assert!(split(&mut high, &contacts, &CutTuning::standard()).is_empty());
    assert!(high.active);
}

#[test]
fn armed_saw_without_contacts_stays_armed() {
    let mut saw = armed_saw(0, 9000);
    let cuts = split(&mut saw, &Vec::new(), &CutTuning::standard());
    assert!(cuts.is_empty());
    assert!(saw.active);
}
