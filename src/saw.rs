//! The saw: an armed sensor that travels on a vertical track, and its carriage.
use vstd::prelude::*;
use vstd::arithmetic::power::pow;
use crate::geom::{Vec2i, UNIT, COORD_LIMIT, div_floor};
use crate::random::random_in;

verus! {

/// Height of the saw's track above its lowest cutting position, in thousandths.
pub const SAW_HEIGHT: i64 = 10000;

/// The saw cuts only while its blade is at or below this height.
pub const CUT_BAND_TOP: i64 = 11000;

/// The cutting sensor. `active` is true while the saw is armed for one cut.
#[derive(Clone, Copy, Debug, PartialEq, Eq, Structural)]
pub struct Saw {
    pub active: bool,
    pub position: Vec2i,
    pub velocity: Vec2i,
}

/// The carriage that follows the saw's motion.
#[derive(Clone, Copy, Debug, PartialEq, Eq, Structural)]
pub struct SawBody {
    pub position: Vec2i,
    pub velocity: Vec2i,
}

impl Saw {
    pub open spec fn bounded(self) -> bool {
        self.position.bounded() && self.velocity.bounded()
    }
}

impl SawBody {
    pub open spec fn bounded(self) -> bool {
        self.position.bounded() && self.velocity.bounded()
    }
}

/// Keys held during one tick.
#[derive(Clone, Copy, Debug, PartialEq, Eq, Structural)]
pub struct SawInput {
    pub left: bool,
    pub right: bool,
    pub descend: bool,
}

/// Lowest height of the saw.
pub const TRACK_BOTTOM: i64 = 5000;

/// The saw is armed when it reaches this height.
pub const ARM_HEIGHT: i64 = SAW_HEIGHT + 19000;

/// Above this height the saw is put back to `TRACK_TOP`.
pub const CEILING_SLACK: i64 = SAW_HEIGHT + 20500;

/// The height the saw is put back to when it overshoots.
pub const TRACK_TOP: i64 = SAW_HEIGHT + 20000;

/// Below this height the saw cannot move sideways.
pub const LOCK_HEIGHT: i64 = SAW_HEIGHT + 11000;

/// Below this height (and above `LOCK_HEIGHT`) sideways speed is cut to a tenth.
pub const DAMP_HEIGHT: i64 = SAW_HEIGHT + 17000;

/// Above this height the descending saw wobbles widely.
pub const WIDE_JITTER_HEIGHT: i64 = SAW_HEIGHT + 13000;

/// Sideways wobble amplitude high on the track.
pub const WIDE_JITTER: i64 = 600;

/// Sideways wobble amplitude low on the track.
pub const NARROW_JITTER: i64 = 100;

/// The saw wobbles only above this height.
pub const JITTER_FLOOR: i64 = 10500;

/// Below this height a descending saw stops instead of pushing down.
pub const PUSH_FLOOR: i64 = 10000;

/// Downward push per tick while descending.
pub const DESCEND_PUSH: i64 = 200;

/// Upward pull per tick while not descending.
pub const RETURN_PULL: i64 = 500;

/// Below this height a released saw is pulled up.
pub const RETURN_HEIGHT: i64 = SAW_HEIGHT + 19500;

/// Sideways speed at or below which a coasting saw stops.
pub const STOP_SPEED: i64 = 100;

/// The lowest height of the carriage.
pub const BODY_FLOOR: i64 = SAW_HEIGHT + 17000;

/// `v * tenths / 10`, rounded toward zero.
pub open spec fn scale_tenths(v: int, tenths: int) -> int {
    if v >= 0 {
        v * tenths / 10
    } else {
        -((-v) * tenths / 10)
    }
}

/// Sideways speed after one tick without steering: nine tenths, then a stop below
/// `STOP_SPEED`.
pub open spec fn coast(v: int) -> int {
    let d = scale_tenths(v, 9);
    if -STOP_SPEED <= d <= STOP_SPEED {
        0
    } else {
        d
    }
}

pub open spec fn steering(input: SawInput) -> int {
    (if input.right { UNIT as int } else { 0 }) - (if input.left { UNIT as int } else { 0 })
}

/// Sideways speed after steering, before the track height is taken into account.
pub open spec fn steer(v: int, input: SawInput) -> int {
    if steering(input) != 0 {
        v + steering(input)
    } else {
        coast(v)
    }
}

/// Sideways speed allowed at height `y`.
pub open spec fn damp_by_height(v: int, y: int) -> int {
    if y < LOCK_HEIGHT {
        0
    } else if y < DAMP_HEIGHT {
        scale_tenths(v, 1)
    } else {
        v
    }
}

/// Height after the track ends are enforced.
pub open spec fn clamp_height(y: int) -> int {
    if y < TRACK_BOTTOM {
        TRACK_BOTTOM as int
    } else if y > CEILING_SLACK {
        TRACK_TOP as int
    } else {
        y
    }
}

/// Amplitude of the sideways wobble this tick; zero when the saw does not wobble.
pub open spec fn jitter_amplitude(saw: Saw, input: SawInput) -> int {
    let y = clamp_height(saw.position.y as int);
    if input.descend && y > JITTER_FLOOR {
        if y > WIDE_JITTER_HEIGHT {
            WIDE_JITTER as int
        } else {
            NARROW_JITTER as int
        }
    } else {
        0
    }
}

/// Vertical speed after the ceiling and the descend key are taken into account.
pub open spec fn vertical_speed(saw: Saw, input: SawInput) -> int {
    let y0 = saw.position.y as int;
    let y = clamp_height(y0);
    let vy = if y0 > CEILING_SLACK && saw.velocity.y > 0 {
        0
    } else {
        saw.velocity.y as int
    };
    if input.descend {
        if y > PUSH_FLOOR {
            vy - DESCEND_PUSH
        } else {
            0
        }
    } else if y < RETURN_HEIGHT {
        vy + RETURN_PULL
    } else {
        vy
    }
}

/// The saw after one tick of control, given the sideways wobble drawn for it.
pub open spec fn saw_after(saw: Saw, input: SawInput, jitter: int) -> Saw {
    let y0 = saw.position.y as int;
    Saw {
        active: saw.active || y0 >= ARM_HEIGHT,
        position: Vec2i {
            x: if jitter_amplitude(saw, input) > 0 {
                (saw.position.x + jitter) as i64
            } else {
                saw.position.x
            },
            y: clamp_height(y0) as i64,
        },
        velocity: Vec2i {
            x: damp_by_height(steer(saw.velocity.x as int, input), y0) as i64,
            y: vertical_speed(saw, input) as i64,
        },
    }
}

/// The carriage after the saw moved from `before` to `after`: it takes the saw's
/// sideways changes whole and half its vertical changes (rounded down), and never
/// sinks below `BODY_FLOOR`.
pub open spec fn body_after(body: SawBody, before: Saw, after: Saw) -> SawBody {
    let dvy = after.velocity.y - before.velocity.y;
    let y = body.position.y + (after.position.y - before.position.y) / 2;
    SawBody {
        position: Vec2i {
            x: (body.position.x + (after.position.x - before.position.x)) as i64,
            y: if y < BODY_FLOOR { BODY_FLOOR } else { y as i64 },
        },
        velocity: Vec2i {
            x: (body.velocity.x + (after.velocity.x - before.velocity.x)) as i64,
            y: (body.velocity.y + dvy / 2) as i64,
        },
    }
}

fn scale_tenths_exec(v: i64, tenths: i64) -> (r: i64)
    requires
        -2 * COORD_LIMIT <= v <= 2 * COORD_LIMIT,
        0 <= tenths <= 10,
    ensures
        r == scale_tenths(v as int, tenths as int),
        v >= 0 ==> 0 <= r <= v,
        v < 0 ==> v <= r <= 0,
{
    proof {
        assert(0 <= (if v >= 0 { v as int } else { -v }) * tenths <= COORD_LIMIT * 20) by (nonlinear_arith)
            requires
                0 <= tenths <= 10,
                -2 * COORD_LIMIT <= v <= 2 * COORD_LIMIT,
        ;
        let m: int = if v >= 0 { v as int } else { -v };
        assert(m * tenths / 10 <= m) by (nonlinear_arith)
            requires
                0 <= tenths <= 10,
                m >= 0,
        ;
    }
    if v >= 0 {
        v * tenths / 10
    } else {
        -((-v) * tenths / 10)
    }
}

/// One tick of the saw controller, with the sideways wobble given.
pub fn saw_tick(saw: &mut Saw, body: &mut SawBody, input: &SawInput, jitter: i64)
    requires
        old(saw).bounded(),
        old(body).bounded(),
        -UNIT <= jitter <= UNIT,
    ensures
        *final(saw) == saw_after(*old(saw), *input, jitter as int),
        *final(body) == body_after(*old(body), *old(saw), *final(saw)),
{
    let prev = *saw;
    let y0: i64 = saw.position.y;
    let mut steering: i64 = 0;
    if input.left {
        steering = steering - UNIT;
    }
    if input.right {
        steering = steering + UNIT;
    }
    let mut vx: i64 = if steering != 0 {
        saw.velocity.x + steering
    } else {
        let d = scale_tenths_exec(saw.velocity.x, 9);
        if -STOP_SPEED <= d && d <= STOP_SPEED {
            0
        } else {
            d
        }
    };
    if y0 < LOCK_HEIGHT {
        vx = 0;
    } else if y0 < DAMP_HEIGHT {
        vx = scale_tenths_exec(vx, 1);
    }
    let mut y: i64 = y0;
    let mut vy: i64 = saw.velocity.y;
    if y < TRACK_BOTTOM {
        y = TRACK_BOTTOM;
    } else if y >= ARM_HEIGHT {
        saw.active = true;
    }
    if y > CEILING_SLACK {
        if vy > 0 {
            vy = 0;
        }
        y = TRACK_TOP;
    }
    let mut x: i64 = saw.position.x;
    if input.descend {
        if y > JITTER_FLOOR {
            x = x + jitter;
        }
        if y > PUSH_FLOOR {
            vy = vy - DESCEND_PUSH;
        } else {
            vy = 0;
        }
    } else if y < RETURN_HEIGHT {
        vy = vy + RETURN_PULL;
    }
    saw.position = Vec2i { x, y };
    saw.velocity = Vec2i { x: vx, y: vy };
    body.velocity.x = body.velocity.x + (vx - prev.velocity.x);
    body.position.x = body.position.x + (x - prev.position.x);
    body.velocity.y = body.velocity.y + div_floor(vy - prev.velocity.y, 2);
    body.position.y = body.position.y + div_floor(y - prev.position.y, 2);
    if body.position.y < BODY_FLOOR {
        body.position.y = BODY_FLOOR;
    }
}

/// Whether `j` is a wobble that a tick with amplitude `amp` can draw.
pub open spec fn jitter_fits(amp: int, j: int) -> bool {
    if amp > 0 {
        -amp <= j < amp
    } else {
        j == 0
    }
}

fn wobble_amplitude(saw: &Saw, input: &SawInput) -> (r: i64)
    ensures
        r == jitter_amplitude(*saw, *input),
{
    let y0: i64 = saw.position.y;
    let y: i64 = if y0 < TRACK_BOTTOM {
        TRACK_BOTTOM
    } else if y0 > CEILING_SLACK {
        TRACK_TOP
    } else {
        y0
    };
    if input.descend && y > JITTER_FLOOR {
        if y > WIDE_JITTER_HEIGHT {
            WIDE_JITTER
        } else {
            NARROW_JITTER
        }
    } else {
        0
    }
}

/// One tick of the saw controller: draws the sideways wobble at random when the
/// descending saw is high enough to wobble, and moves saw and carriage.
pub fn move_saw(saw: &mut Saw, body: &mut SawBody, input: &SawInput)
    requires
        old(saw).bounded(),
        old(body).bounded(),
    ensures
        exists|j: int|
            jitter_fits(jitter_amplitude(*old(saw), *input), j) && *final(saw) == saw_after(
                *old(saw),
                *input,
                j,
            ),
        *final(body) == body_after(*old(body), *old(saw), *final(saw)),
{
    let amp = wobble_amplitude(saw, input);
    let jitter: i64 = if amp > 0 {
        random_in(-amp, amp)
    } else {
        0
    };
    saw_tick(saw, body, input, jitter);
    assert(jitter_fits(jitter_amplitude(*old(saw), *input), jitter as int));
}

/// The sideways speed after one tick without steering at height `y`.
pub open spec fn drift_tick(v: int, y: int) -> int {
    damp_by_height(coast(v), y)
}

/// The sideways speed after ticks without steering at the heights `ys`, in order.
pub open spec fn drift(v: int, ys: Seq<int>) -> int
    decreases ys.len(),
{
    if ys.len() == 0 {
        v
    } else {
        drift(drift_tick(v, ys[0]), ys.drop_first())
    }
}

pub open spec fn magnitude(v: int) -> int {
    if v >= 0 {
        v
    } else {
        -v
    }
}

proof fn lemma_drift_tick_shrinks(v: int, y: int)
    ensures
        v >= 0 ==> drift_tick(v, y) >= 0,
        v <= 0 ==> drift_tick(v, y) <= 0,
        10 * magnitude(drift_tick(v, y)) <= 9 * magnitude(v),
        magnitude(v) <= STOP_SPEED ==> drift_tick(v, y) == 0,
{
    let m = magnitude(v);
    assert(0 <= m * 9 / 10 && 10 * (m * 9 / 10) <= 9 * m) by (nonlinear_arith)
        requires
            m >= 0,
    ;
    let c = coast(v);
    let cm = magnitude(c);
    assert(0 <= cm * 1 / 10 <= cm) by (nonlinear_arith)
        requires
            cm >= 0,
    ;
}

proof fn lemma_drift_split(v: int, ys: Seq<int>, k: int)
    requires
        0 <= k <= ys.len(),
    ensures
        drift(v, ys) == drift(drift(v, ys.take(k)), ys.skip(k)),
    decreases k,
{
    if k > 0 {
        assert(ys.take(k).drop_first() =~= ys.drop_first().take(k - 1));
        assert(ys.skip(k) =~= ys.drop_first().skip(k - 1));
        lemma_drift_split(drift_tick(v, ys[0]), ys.drop_first(), k - 1);
    } else {
        assert(ys.skip(0) =~= ys);
    }
}

proof fn lemma_drift_bound(v: int, ys: Seq<int>)
    ensures
        v >= 0 ==> drift(v, ys) >= 0,
        v <= 0 ==> drift(v, ys) <= 0,
        magnitude(drift(v, ys)) <= magnitude(v),
        magnitude(drift(v, ys)) * pow(10, ys.len()) <= pow(9, ys.len()) * magnitude(v),
    decreases ys.len(),
{
    reveal(pow);
    if ys.len() > 0 {
        let w = drift_tick(v, ys[0]);
        let rest = ys.drop_first();
        lemma_drift_tick_shrinks(v, ys[0]);
        lemma_drift_bound(w, rest);
        let n = rest.len();
        let d = magnitude(drift(w, rest));
        let p10 = pow(10, n);
        let p9 = pow(9, n);
        vstd::arithmetic::power::lemma_pow_positive(9, n);
        assert(pow(10, n + 1) == 10 * p10);
        assert(pow(9, n + 1) == 9 * p9);
        assert(d * (10 * p10) <= (9 * p9) * magnitude(v)) by (nonlinear_arith)
            requires
                d * p10 <= p9 * magnitude(w),
                10 * magnitude(w) <= 9 * magnitude(v),
                p9 > 0,
        ;
    }
}

/// A saw that is not steered keeps the sign of its sideways speed, which never
/// grows and shrinks at least by a tenth each tick, whatever heights it passes;
/// once nine-tenths to the power of the ticks brings the starting speed down to
/// `STOP_SPEED`, one more tick stops it, and a stopped saw stays stopped. A tick
/// of the controller without steering is exactly such a tick.
pub proof fn lemma_drift_stops(v: int, ys: Seq<int>, n: nat)
    requires
        pow(9, n) * magnitude(v) <= STOP_SPEED * pow(10, n),
    ensures
        v >= 0 ==> drift(v, ys) >= 0,
        v <= 0 ==> drift(v, ys) <= 0,
        magnitude(drift(v, ys)) <= magnitude(v),
        magnitude(drift(v, ys)) * pow(10, ys.len()) <= pow(9, ys.len()) * magnitude(v),
        ys.len() > n ==> drift(v, ys) == 0,
        drift(0, ys) == 0,
        forall|saw: Saw, input: SawInput, j: int|
            steering(input) == 0 ==> (#[trigger] saw_after(saw, input, j)).velocity.x == drift_tick(
                saw.velocity.x as int,
                saw.position.y as int,
            ),
{
    lemma_drift_bound(v, ys);
    lemma_drift_bound(0, ys);
    if ys.len() > n {
        lemma_drift_split(v, ys, n as int);
        let w = drift(v, ys.take(n as int));
        lemma_drift_bound(v, ys.take(n as int));
        let p10 = pow(10, n);
        vstd::arithmetic::power::lemma_pow_positive(10, n);
        assert(magnitude(w) <= STOP_SPEED) by (nonlinear_arith)
            requires
                magnitude(w) * p10 <= pow(9, n) * magnitude(v),
                pow(9, n) * magnitude(v) <= STOP_SPEED * p10,
                p10 > 0,
        ;
        let rest = ys.skip(n as int);
        lemma_drift_tick_shrinks(w, rest[0]);
        lemma_drift_bound(0, rest.drop_first());
    }
}

/// The controller never disarms the saw, and arms it only when it has climbed to
/// the arming height.
pub proof fn lemma_control_arms_at_top(saw: Saw, input: SawInput, j: int)
    ensures
        saw.active ==> saw_after(saw, input, j).active,
        !saw.active && saw_after(saw, input, j).active ==> saw.position.y >= ARM_HEIGHT,
        saw.position.y >= ARM_HEIGHT ==> saw_after(saw, input, j).active,
{
}

} // verus!
