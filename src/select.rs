//! Picking planks with the pointer and dragging them by a jointed handle.
use vstd::prelude::*;
use crate::geom::{Vec2i, Rot, UNIT, COORD_LIMIT, div_floor};

verus! {

/// Speed gain that pulls a held handle toward the pointer.
pub const DRAG_GAIN: i64 = 4;

/// Marks what the pointer can pick.
#[derive(Clone, Copy, Debug, PartialEq, Eq, Structural)]
pub struct Selectable;

/// Asks that every handle and joint of the current selection be removed.
#[derive(Clone, Copy, Debug, PartialEq, Eq, Structural)]
pub struct DeselectAll;

/// The last pointer position seen.
#[derive(Clone, Copy, Debug, PartialEq, Eq, Structural)]
pub struct PrevMousePos {
    pub pos: Vec2i,
}

/// Collision groups of the world.
#[derive(Clone, Copy, Debug, PartialEq, Eq, Structural)]
pub enum GameLayers {
    Objects,
    Ground,
}

/// A pickable body at the moment of a click, with whether the pointer lies inside
/// its shape.
#[derive(Clone, Copy, Debug, PartialEq, Eq, Structural)]
pub struct Candidate {
    pub entity: u64,
    pub position: Vec2i,
    pub rotation: Rot,
    pub hit: bool,
}

/// A handle body spawned at `handle`, and the revolute joint that binds it to
/// `target` at `local_anchor`, in the target's own frame.
#[derive(Clone, Copy, Debug, PartialEq, Eq, Structural)]
pub struct Selected {
    pub target: u64,
    pub handle: Vec2i,
    pub local_anchor: Vec2i,
}

/// Pointer button edges of one frame.
#[derive(Clone, Copy, Debug, PartialEq, Eq, Structural)]
pub struct PointerButtons {
    pub pressed: bool,
    pub released: bool,
}

/// What a frame of selection asks of the world.
#[derive(Clone, Copy, Debug, PartialEq, Eq, Structural)]
pub struct SelectionAction {
    pub deselect: bool,
    pub grab: Option<Selected>,
}

impl Candidate {
    pub open spec fn bounded(self) -> bool {
        self.position.bounded() && self.rotation.bounded()
    }
}

/// The world offset `d` seen in the frame of a body turned by `r`, rounded down.
pub open spec fn to_local(d: Vec2i, r: Rot) -> Vec2i {
    Vec2i {
        x: ((r.cos * d.x + r.sin * d.y) / (UNIT as int)) as i64,
        y: ((r.cos * d.y - r.sin * d.x) / (UNIT as int)) as i64,
    }
}

pub open spec fn offset(p: Vec2i, from: Vec2i) -> Vec2i {
    Vec2i { x: (p.x - from.x) as i64, y: (p.y - from.y) as i64 }
}

/// The index of the first candidate under the pointer.
pub open spec fn is_first_hit(c: Seq<Candidate>, k: int) -> bool {
    &&& 0 <= k < c.len()
    &&& c[k].hit
    &&& forall|i: int| 0 <= i < k ==> !(#[trigger] c[i]).hit
}

/// The handle made by picking candidate `c` at `pointer`.
pub open spec fn grab_of(c: Candidate, pointer: Vec2i) -> Selected {
    Selected {
        target: c.entity,
        handle: pointer,
        local_anchor: to_local(offset(pointer, c.position), c.rotation),
    }
}

/// What a frame asks: a release clears the selection; a press with a pointer over a
/// candidate grabs the first such candidate.
pub open spec fn selection_action(
    buttons: PointerButtons,
    pointer: Option<Vec2i>,
    c: Seq<Candidate>,
) -> SelectionAction {
    SelectionAction {
        deselect: buttons.released,
        grab: if buttons.pressed && pointer is Some && exists|k: int| is_first_hit(c, k) {
            Some(grab_of(c[choose|k: int| is_first_hit(c, k)], pointer->0))
        } else {
            None
        },
    }
}

/// The selection held after a frame's action.
pub open spec fn held_after(held: Option<Selected>, a: SelectionAction) -> Option<Selected> {
    if a.grab is Some {
        a.grab
    } else if a.deselect {
        None
    } else {
        held
    }
}

/// The offset `d` in the frame of a body turned by `r`.
pub fn local_point(d: Vec2i, r: Rot) -> (l: Vec2i)
    requires
        -2 * COORD_LIMIT <= d.x <= 2 * COORD_LIMIT,
        -2 * COORD_LIMIT <= d.y <= 2 * COORD_LIMIT,
        r.bounded(),
    ensures
        l == to_local(d, r),
{
    proof {
        assert(-2 * COORD_LIMIT * UNIT <= r.cos * d.x <= 2 * COORD_LIMIT * UNIT) by (nonlinear_arith)
            requires
                -2 * COORD_LIMIT <= d.x <= 2 * COORD_LIMIT,
                -UNIT <= r.cos <= UNIT,
        ;
        assert(-2 * COORD_LIMIT * UNIT <= r.sin * d.y <= 2 * COORD_LIMIT * UNIT) by (nonlinear_arith)
            requires
                -2 * COORD_LIMIT <= d.y <= 2 * COORD_LIMIT,
                -UNIT <= r.sin <= UNIT,
        ;
        assert(-2 * COORD_LIMIT * UNIT <= r.cos * d.y <= 2 * COORD_LIMIT * UNIT) by (nonlinear_arith)
            requires
                -2 * COORD_LIMIT <= d.y <= 2 * COORD_LIMIT,
                -UNIT <= r.cos <= UNIT,
        ;
        assert(-2 * COORD_LIMIT * UNIT <= r.sin * d.x <= 2 * COORD_LIMIT * UNIT) by (nonlinear_arith)
            requires
                -2 * COORD_LIMIT <= d.x <= 2 * COORD_LIMIT,
                -UNIT <= r.sin <= UNIT,
        ;
        let a: int = r.cos * d.x + r.sin * d.y;
        let b: int = r.cos * d.y - r.sin * d.x;
        vstd::arithmetic::div_mod::lemma_div_is_ordered(a, 4 * COORD_LIMIT * UNIT, UNIT as int);
        vstd::arithmetic::div_mod::lemma_div_is_ordered(-4 * COORD_LIMIT * UNIT, a, UNIT as int);
        vstd::arithmetic::div_mod::lemma_div_is_ordered(b, 4 * COORD_LIMIT * UNIT, UNIT as int);
        vstd::arithmetic::div_mod::lemma_div_is_ordered(-4 * COORD_LIMIT * UNIT, b, UNIT as int);
        assert(4 * COORD_LIMIT * UNIT / UNIT as int == 4 * COORD_LIMIT);
        assert(-4 * COORD_LIMIT * UNIT / UNIT as int == -4 * COORD_LIMIT);
    }
    let x = div_floor(r.cos * d.x + r.sin * d.y, UNIT);
    let y = div_floor(r.cos * d.y - r.sin * d.x, UNIT);
    Vec2i { x, y }
}

/// The index of the first candidate under the pointer, if any.
pub fn first_hit(c: &Vec<Candidate>) -> (r: Option<usize>)
    ensures
        r matches Some(k) ==> is_first_hit(c@, k as int),
        r is None ==> forall|i: int| 0 <= i < c@.len() ==> !(#[trigger] c@[i]).hit,
{
    let mut i: usize = 0;
    while i < c.len()
        invariant
            0 <= i <= c@.len(),
            forall|k: int| 0 <= k < i ==> !(#[trigger] c@[k]).hit,
        decreases c@.len() - i,
    {
        if c[i].hit {
            return Some(i);
        }
        i = i + 1;
    }
    None
}

proof fn lemma_first_hit_unique(c: Seq<Candidate>, j: int, k: int)
    requires
        is_first_hit(c, j),
        is_first_hit(c, k),
    ensures
        j == k,
{
    if j < k {
        assert(!c[j].hit);
    } else if k < j {
        assert(!c[k].hit);
    }
}

/// One frame of selection: a release removes the held handle; a press with the
/// pointer over a pickable body spawns a handle at the pointer, jointed to the
/// first such body at the pick point in that body's frame.
pub fn selection_system(
    held: &mut Option<Selected>,
    buttons: PointerButtons,
    pointer: Option<Vec2i>,
    candidates: &Vec<Candidate>,
) -> (r: SelectionAction)
    requires
        pointer matches Some(p) ==> p.bounded(),
        forall|i: int| 0 <= i < candidates@.len() ==> (#[trigger] candidates@[i]).bounded(),
    ensures
        r == selection_action(buttons, pointer, candidates@),
        *final(held) == held_after(*old(held), r),
{
    let mut grab: Option<Selected> = None;
    if buttons.pressed {
        if let Some(p) = pointer {
            match first_hit(candidates) {
                Some(k) => {
                    let c = candidates[k];
                    let anchor = local_point(
                        Vec2i { x: p.x - c.position.x, y: p.y - c.position.y },
                        c.rotation,
                    );
                    grab = Some(Selected { target: c.entity, handle: p, local_anchor: anchor });
                    proof {
                        let kk = choose|j: int| is_first_hit(candidates@, j);
                        lemma_first_hit_unique(candidates@, k as int, kk);
                    }
                },
                None => {
                    assert(!exists|j: int| is_first_hit(candidates@, j));
                },
            }
        }
    }
    let r = SelectionAction { deselect: buttons.released, grab };
    if grab.is_some() {
        *held = grab;
    } else if buttons.released {
        *held = None;
    }
    r
}

/// The velocity that pulls the handle at `handle` toward the pointer; none when
/// there is no pointer sample this frame.
pub fn move_with_mouse(pointer: Option<Vec2i>, handle: Vec2i) -> (r: Option<Vec2i>)
    requires
        pointer matches Some(p) ==> p.bounded(),
        handle.bounded(),
    ensures
        pointer is None ==> r is None,
        pointer matches Some(p) ==> r == Some(
            Vec2i { x: (DRAG_GAIN * (p.x - handle.x)) as i64, y: (DRAG_GAIN * (p.y - handle.y)) as i64 },
        ),
{
    match pointer {
        Some(p) => Some(
            Vec2i { x: DRAG_GAIN * (p.x - handle.x), y: DRAG_GAIN * (p.y - handle.y) },
        ),
        None => None,
    }
}

/// A click outside every pickable shape grabs nothing; a click inside exactly one
/// grabs that body with one handle and one joint; a release without a click leaves
/// nothing held.
pub proof fn lemma_pick_and_release(
    held: Option<Selected>,
    buttons: PointerButtons,
    pointer: Vec2i,
    c: Seq<Candidate>,
)
    ensures
        (forall|i: int| 0 <= i < c.len() ==> !(#[trigger] c[i]).hit) ==> selection_action(
            buttons,
            Some(pointer),
            c,
        ).grab is None,
        forall|k: int|
            0 <= k < c.len() && buttons.pressed && c[k].hit && (forall|i: int|
                0 <= i < c.len() && i != k ==> !(#[trigger] c[i]).hit) ==> #[trigger] selection_action(
                buttons,
                Some(pointer),
                c,
            ).grab == Some(grab_of(c[k], pointer)) && held_after(
                held,
                selection_action(buttons, Some(pointer), c),
            ) == Some(grab_of(c[k], pointer)),
        buttons.released && !buttons.pressed ==> held_after(
            held,
            selection_action(buttons, Some(pointer), c),
        ) is None,
{
    assert forall|k: int|
        0 <= k < c.len() && buttons.pressed && c[k].hit && (forall|i: int|
            0 <= i < c.len() && i != k ==> !(#[trigger] c[i]).hit) implies #[trigger] selection_action(
        buttons,
        Some(pointer),
        c,
    ).grab == Some(grab_of(c[k], pointer)) by {
        assert(is_first_hit(c, k));
        let kk = choose|j: int| is_first_hit(c, j);
        lemma_first_hit_unique(c, k, kk);
    }
}

} // verus!
