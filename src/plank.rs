//! Planks, the requests that materialise them, and the cut that turns one plank into two.
use vstd::prelude::*;
use crate::geom::{Vec2i, COORD_LIMIT, in_limit};
use crate::saw::{Saw, CUT_BAND_TOP};

verus! {

/// Material lost to one cut, in thousandths of a unit.
pub const CUT_SIZE: i64 = 1000;

/// Linear separation gain of a cut piece, in thousandths of a unit per second.
pub const LINEAR_GAIN: i64 = 10000;

/// Angular separation gain of a cut piece, in thousandths of a radian per second.
pub const ANGULAR_GAIN: i64 = 1000;

/// The colour a plank carries, each channel in thousandths.
#[derive(Clone, Copy, Debug, PartialEq, Eq, Structural)]
pub struct ColorInfo {
    pub r: i64,
    pub g: i64,
    pub b: i64,
    pub a: i64,
}

/// A plank as the splitter sees it: its entity, pose, rectangle half-extents and colour.
#[derive(Clone, Copy, Debug, PartialEq, Eq, Structural)]
pub struct Plank {
    pub entity: u64,
    pub position: Vec2i,
    pub half_width: i64,
    pub half_height: i64,
    pub color: ColorInfo,
}

impl Plank {
    pub open spec fn wf(self) -> bool {
        &&& self.position.bounded()
        &&& 0 < self.half_width <= COORD_LIMIT
        &&& 0 < self.half_height <= COORD_LIMIT
    }
}

/// A request to materialise one plank.
///
/// `l_vel` and `a_vel` are the initial linear and angular velocity before they are
/// divided by the base-two logarithm of the width in units; `None` means at rest.
/// The rotation is in thousandths of a degree.
#[derive(Clone, Copy, Debug, PartialEq, Eq, Structural)]
pub struct SpawnPlank {
    pub width: i64,
    pub height: i64,
    pub position: Vec2i,
    pub rotation: i64,
    pub l_vel: Option<Vec2i>,
    pub a_vel: Option<i64>,
    pub color: ColorInfo,
}

impl SpawnPlank {
    /// A spawnable plank has a positive size.
    pub open spec fn valid(self) -> bool {
        self.width > 0 && self.height > 0
    }
}

/// Tunable feel of a cut: kerf, separation gains, and whether the right piece
/// flies up (`true`) or down (`false`). The left piece always flies up.
#[derive(Clone, Copy, Debug, PartialEq, Eq, Structural)]
pub struct CutTuning {
    pub cut_size: i64,
    pub linear_gain: i64,
    pub angular_gain: i64,
    pub right_rises: bool,
}

impl CutTuning {
    pub open spec fn wf(self) -> bool {
        &&& 0 <= self.cut_size <= COORD_LIMIT
        &&& 0 <= self.linear_gain <= COORD_LIMIT
        &&& 0 <= self.angular_gain <= COORD_LIMIT
    }

    /// Both pieces rise; the kerf is one unit.
    pub fn standard() -> (r: CutTuning)
        ensures
            r.wf(),
            r.cut_size == CUT_SIZE,
            r.linear_gain == LINEAR_GAIN,
            r.angular_gain == ANGULAR_GAIN,
            r.right_rises,
    {
        CutTuning {
            cut_size: CUT_SIZE,
            linear_gain: LINEAR_GAIN,
            angular_gain: ANGULAR_GAIN,
            right_rises: true,
        }
    }
}

/// What one cut does: the plank that goes away, and the pieces that replace it.
#[derive(Clone, Copy, Debug, PartialEq, Eq, Structural)]
pub struct Cut {
    pub despawn: u64,
    pub left: Option<SpawnPlank>,
    pub right: Option<SpawnPlank>,
}

/// Offset of the cut line from the plank's centre.
pub open spec fn relative_x(saw_x: int, p: Plank) -> int {
    saw_x - p.position.x
}

pub open spec fn left_width(saw_x: int, p: Plank, t: CutTuning) -> int {
    p.half_width + relative_x(saw_x, p) - t.cut_size
}

pub open spec fn right_width(saw_x: int, p: Plank, t: CutTuning) -> int {
    p.half_width - relative_x(saw_x, p) - t.cut_size
}

pub open spec fn left_piece(saw_x: int, p: Plank, t: CutTuning) -> SpawnPlank {
    let w = left_width(saw_x, p, t);
    SpawnPlank {
        width: w as i64,
        height: (2 * p.half_height) as i64,
        position: Vec2i { x: (saw_x - w / 2 - t.cut_size) as i64, y: p.position.y },
        rotation: 0,
        l_vel: Some(Vec2i { x: (-t.linear_gain) as i64, y: t.linear_gain }),
        a_vel: Some(t.angular_gain),
        color: p.color,
    }
}

pub open spec fn right_piece(saw_x: int, p: Plank, t: CutTuning) -> SpawnPlank {
    let w = right_width(saw_x, p, t);
    SpawnPlank {
        width: w as i64,
        height: (2 * p.half_height) as i64,
        position: Vec2i { x: (saw_x + w / 2 + t.cut_size) as i64, y: p.position.y },
        rotation: 0,
        l_vel: Some(
            Vec2i {
                x: t.linear_gain,
                y: if t.right_rises { t.linear_gain } else { (-t.linear_gain) as i64 },
            },
        ),
        a_vel: Some((-t.angular_gain) as i64),
        color: p.color,
    }
}

/// The cut of plank `p` by a saw whose blade stands at `saw_x`: a side whose width
/// would not be positive is dropped.
pub open spec fn cut_of(saw_x: int, p: Plank, t: CutTuning) -> Cut {
    Cut {
        despawn: p.entity,
        left: if left_width(saw_x, p, t) > 0 { Some(left_piece(saw_x, p, t)) } else { None },
        right: if right_width(saw_x, p, t) > 0 { Some(right_piece(saw_x, p, t)) } else { None },
    }
}

/// Cuts one plank at `saw_x`.
pub fn cut_plank(saw_x: i64, p: &Plank, t: &CutTuning) -> (r: Cut)
    requires
        in_limit(saw_x as int),
        p.wf(),
        t.wf(),
    ensures
        r == cut_of(saw_x as int, *p, *t),
{
    let rel: i64 = saw_x - p.position.x;
    let lw: i64 = p.half_width + rel - t.cut_size;
    let rw: i64 = p.half_width - rel - t.cut_size;
    let height: i64 = 2 * p.half_height;
    let left = if lw > 0 {
        Some(SpawnPlank {
            width: lw,
            height,
            position: Vec2i { x: saw_x - lw / 2 - t.cut_size, y: p.position.y },
            rotation: 0,
            l_vel: Some(Vec2i { x: -t.linear_gain, y: t.linear_gain }),
            a_vel: Some(t.angular_gain),
            color: p.color,
        })
    } else {
        None
    };
    let right = if rw > 0 {
        let vy: i64 = if t.right_rises { t.linear_gain } else { -t.linear_gain };
        Some(SpawnPlank {
            width: rw,
            height,
            position: Vec2i { x: saw_x + rw / 2 + t.cut_size, y: p.position.y },
            rotation: 0,
            l_vel: Some(Vec2i { x: t.linear_gain, y: vy }),
            a_vel: Some(-t.angular_gain),
            color: p.color,
        })
    } else {
        None
    };
    Cut { despawn: p.entity, left, right }
}

/// Whether a saw in this state cuts what it touches.
pub open spec fn cuts_now(saw: Saw) -> bool {
    saw.active && saw.position.y <= CUT_BAND_TOP
}

/// Whether the saw is still armed after a splitter tick in which it touched
/// `contacts` planks.
pub open spec fn armed_after_split(saw: Saw, contacts: nat) -> bool {
    if cuts_now(saw) && contacts > 0 {
        false
    } else {
        saw.active
    }
}

/// One tick of the splitter: an armed saw low enough cuts every plank it touches,
/// in contact order, and is disarmed if it touched any.
pub fn split(saw: &mut Saw, contacts: &Vec<Plank>, t: &CutTuning) -> (r: Vec<Cut>)
    requires
        old(saw).position.bounded(),
        forall|i: int| 0 <= i < contacts@.len() ==> (#[trigger] contacts@[i]).wf(),
        t.wf(),
    ensures
        final(saw).position == old(saw).position,
        final(saw).velocity == old(saw).velocity,
        final(saw).active == armed_after_split(*old(saw), contacts@.len()),
        !cuts_now(*old(saw)) ==> r@.len() == 0,
        cuts_now(*old(saw)) ==> {
            &&& r@.len() == contacts@.len()
            &&& forall|i: int|
                0 <= i < r@.len() ==> r@[i] == cut_of(
                    old(saw).position.x as int,
                    #[trigger] contacts@[i],
                    *t,
                )
        },
{
    let mut cuts: Vec<Cut> = Vec::new();
    if !saw.active || saw.position.y > CUT_BAND_TOP {
        return cuts;
    }
    let saw_x: i64 = saw.position.x;
    let mut i: usize = 0;
    while i < contacts.len()
        invariant
            0 <= i <= contacts@.len(),
            cuts@.len() == i,
            saw.position == old(saw).position,
            saw.velocity == old(saw).velocity,
            saw_x == old(saw).position.x,
            in_limit(saw_x as int),
            t.wf(),
            forall|k: int| 0 <= k < contacts@.len() ==> (#[trigger] contacts@[k]).wf(),
            forall|k: int| 0 <= k < i ==> cuts@[k] == cut_of(saw_x as int, #[trigger] contacts@[k], *t),
            saw.active == (i == 0),
        decreases contacts@.len() - i,
    {
        saw.active = false;
        let c = cut_plank(saw_x, &contacts[i], t);
        cuts.push(c);
        i = i + 1;
    }
    cuts
}

/// When both pieces survive a cut, their widths and two kerfs add up to the width
/// of the plank that was cut.
pub proof fn lemma_cut_conserves_width(saw_x: int, p: Plank, t: CutTuning)
    requires
        left_width(saw_x, p, t) > 0,
        right_width(saw_x, p, t) > 0,
    ensures
        left_width(saw_x, p, t) + right_width(saw_x, p, t) + 2 * t.cut_size == 2 * p.half_width,
{
}

/// Every cut removes the plank it was made on; the left piece survives exactly when
/// the cut line lies more than a kerf inside the plank's left half-width, the right
/// piece exactly when it lies more than a kerf inside the right half-width, and no
/// piece survives exactly when neither does.
pub proof fn lemma_cut_outcome(saw_x: int, p: Plank, t: CutTuning)
    ensures
        cut_of(saw_x, p, t).despawn == p.entity,
        cut_of(saw_x, p, t).left is Some <==> relative_x(saw_x, p) > t.cut_size - p.half_width,
        cut_of(saw_x, p, t).right is Some <==> relative_x(saw_x, p) < p.half_width - t.cut_size,
        (cut_of(saw_x, p, t).left is None && cut_of(saw_x, p, t).right is None) <==> (
        relative_x(saw_x, p) <= t.cut_size - p.half_width && relative_x(saw_x, p)
            >= p.half_width - t.cut_size),
        p.half_width > t.cut_size ==> (cut_of(saw_x, p, t).left is Some || cut_of(
            saw_x,
            p,
            t,
        ).right is Some),
{
}

/// A piece that survives a cut of a well-formed plank is a valid spawn request,
/// with the plank's height and colour.
pub proof fn lemma_pieces_valid(saw_x: int, p: Plank, t: CutTuning)
    requires
        in_limit(saw_x),
        p.wf(),
        t.wf(),
    ensures
        cut_of(saw_x, p, t).left matches Some(l) ==> l.valid() && l.height == 2 * p.half_height
            && l.color == p.color && l.width == left_width(saw_x, p, t),
        cut_of(saw_x, p, t).right matches Some(r) ==> r.valid() && r.height == 2 * p.half_height
            && r.color == p.color && r.width == right_width(saw_x, p, t),
{
}

/// The splitter never arms the saw, and disarms it only in a tick in which it cuts:
/// then every plank it touches is cut in that same tick.
pub proof fn lemma_split_disarms_on_cut(saw: Saw, contacts: nat)
    ensures
        armed_after_split(saw, contacts) ==> saw.active,
        saw.active && !armed_after_split(saw, contacts) ==> cuts_now(saw) && contacts > 0,
        cuts_now(saw) && contacts > 0 ==> !armed_after_split(saw, contacts),
{
}

} // verus!
