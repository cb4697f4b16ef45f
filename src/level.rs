//! The opening layout: a stack of slightly jumbled planks, and the armed saw above.
use vstd::prelude::*;
use crate::geom::{Vec2i, UNIT};
use crate::plank::{SpawnPlank, ColorInfo};
use crate::saw::{Saw, SawBody, SAW_HEIGHT};
use crate::random::random_in;

verus! {

/// Number of planks in the opening stack.
pub const LEVEL_PLANKS: usize = 10;

/// The opening scene.
#[derive(Debug)]
pub struct Level {
    pub planks: Vec<SpawnPlank>,
    pub saw: Saw,
    pub saw_body: SawBody,
}

/// The random draws that place one plank of the opening stack, each in thousandths
/// (of a unit, of a degree, or of a colour channel).
#[derive(Clone, Copy, Debug, PartialEq, Eq, Structural)]
pub struct PlankDraw {
    pub lift: i64,
    pub shift: i64,
    pub trim: i64,
    pub tilt: i64,
    pub red: i64,
    pub green: i64,
}

impl PlankDraw {
    /// The ranges each draw is taken from.
    pub open spec fn in_range(self) -> bool {
        &&& 1500 <= self.lift < 3500
        &&& -20000 <= self.shift < 20000
        &&& -25000 <= self.trim < 5000
        &&& -5000 <= self.tilt < 5000
        &&& -50 <= self.red < 50
        &&& -30 <= self.green < 30
    }
}

/// Plank `i` of the opening stack for the draws `d`: ten units apart from a
/// five-unit floor, around two hundred units left of centre, two hundred units wide,
/// ten high, at rest, and brown.
pub open spec fn stack_plank(i: int, d: PlankDraw) -> SpawnPlank {
    SpawnPlank {
        width: (200 * UNIT + d.trim) as i64,
        height: (10 * UNIT) as i64,
        position: Vec2i {
            x: (-200 * UNIT + d.shift) as i64,
            y: (5 * UNIT + i * 10 * UNIT + d.lift) as i64,
        },
        rotation: d.tilt,
        l_vel: None,
        a_vel: None,
        color: ColorInfo { r: (300 + d.red) as i64, g: (150 + d.green) as i64, b: 10, a: 1000 },
    }
}

/// Whether `p` is plank `i` of the opening stack for some draws in range.
pub open spec fn is_stack_plank(i: int, p: SpawnPlank) -> bool {
    exists|d: PlankDraw| d.in_range() && p == stack_plank(i, d)
}

/// Plank `i` of the opening stack.
pub fn level_plank(i: usize, d: &PlankDraw) -> (r: SpawnPlank)
    requires
        i < LEVEL_PLANKS,
        d.in_range(),
    ensures
        r == stack_plank(i as int, *d),
        r.valid(),
{
    let k = i as i64;
    SpawnPlank {
        width: 200 * UNIT + d.trim,
        height: 10 * UNIT,
        position: Vec2i { x: -200 * UNIT + d.shift, y: 5 * UNIT + k * 10 * UNIT + d.lift },
        rotation: d.tilt,
        l_vel: None,
        a_vel: None,
        color: ColorInfo { r: 300 + d.red, g: 150 + d.green, b: 10, a: 1000 },
    }
}

fn draw_plank() -> (d: PlankDraw)
    ensures
        d.in_range(),
{
    let lift = random_in(1500, 3500);
    let shift = random_in(-20000, 20000);
    let trim = random_in(-25000, 5000);
    let tilt = random_in(-5000, 5000);
    let red = random_in(-50, 50);
    let green = random_in(-30, 30);
    PlankDraw { lift, shift, trim, tilt, red, green }
}

/// The opening scene with freshly drawn planks; the saw starts armed, at rest, twenty
/// units above its track height, with its carriage beside it.
pub fn spawn_level() -> (r: Level)
    ensures
        r.planks@.len() == LEVEL_PLANKS,
        forall|i: int| 0 <= i < r.planks@.len() ==> is_stack_plank(i, #[trigger] r.planks@[i]),
        r.saw == (Saw {
            active: true,
            position: Vec2i { x: 0, y: (20 * UNIT + SAW_HEIGHT) as i64 },
            velocity: Vec2i { x: 0, y: 0 },
        }),
        r.saw_body == (SawBody {
            position: Vec2i { x: 0, y: (20 * UNIT + SAW_HEIGHT) as i64 },
            velocity: Vec2i { x: 0, y: 0 },
        }),
{
    let mut planks: Vec<SpawnPlank> = Vec::new();
    let mut i: usize = 0;
    while i < LEVEL_PLANKS
        invariant
            0 <= i <= LEVEL_PLANKS,
            planks@.len() == i,
            forall|k: int| 0 <= k < i ==> is_stack_plank(k, #[trigger] planks@[k]),
        decreases LEVEL_PLANKS - i,
    {
        let d = draw_plank();
        let p = level_plank(i, &d);
        planks.push(p);
        assert(planks@[i as int] == stack_plank(i as int, d));
        i = i + 1;
    }
    let start = Vec2i { x: 0, y: 20 * UNIT + SAW_HEIGHT };
    let still = Vec2i { x: 0, y: 0 };
    let ghost ps = planks@;
    let r = Level {
        planks,
        saw: Saw { active: true, position: start, velocity: still },
        saw_body: SawBody { position: start, velocity: still },
    };
    assert(r.planks@ == ps);
    r
}

} // verus!
