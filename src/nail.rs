//! The nail: a single marker toggled by a key, that follows the pointer and turns.
use vstd::prelude::*;
use crate::geom::Vec2i;

verus! {

/// Where a new nail appears, in thousandths of a unit.
pub const NAIL_START_X: i64 = 0;

pub const NAIL_START_Y: i64 = 200000;

/// How far the nail turns per tick while the turn key is held, in thousandths of a
/// degree (clockwise).
pub const NAIL_TURN: i64 = 1000;

/// The nail's pose; `angle` is in thousandths of a degree, counterclockwise.
#[derive(Clone, Copy, Debug, PartialEq, Eq, Structural)]
pub struct Nail {
    pub position: Vec2i,
    pub angle: i64,
}

/// Keys of one frame that act on the nail.
#[derive(Clone, Copy, Debug, PartialEq, Eq, Structural)]
pub struct NailInput {
    pub toggle: bool,
    pub turn: bool,
}

/// The nail after one frame: the toggle key makes a missing nail appear at the start
/// position, unturned, and removes a present one; otherwise a present nail moves to
/// the pointer, when there is one, and turns while the turn key is held.
pub open spec fn nail_after(nail: Option<Nail>, input: NailInput, pointer: Option<Vec2i>) -> Option<Nail> {
    if input.toggle {
        match nail {
            None => Some(Nail { position: Vec2i { x: NAIL_START_X, y: NAIL_START_Y }, angle: 0 }),
            Some(_) => None,
        }
    } else {
        match nail {
            None => None,
            Some(n) => Some(
                Nail {
                    position: match pointer {
                        Some(p) => p,
                        None => n.position,
                    },
                    angle: if input.turn { (n.angle - NAIL_TURN) as i64 } else { n.angle },
                },
            ),
        }
    }
}

/// One frame of the nail.
pub fn nail_system(nail: &mut Option<Nail>, input: NailInput, pointer: Option<Vec2i>)
    requires
        old(nail).is_some() ==> old(nail).unwrap().angle > i64::MIN + NAIL_TURN,
    ensures
        *final(nail) == nail_after(*old(nail), input, pointer),
{
    if input.toggle {
        if nail.is_none() {
            *nail = Some(Nail { position: Vec2i { x: NAIL_START_X, y: NAIL_START_Y }, angle: 0 });
        } else {
            *nail = None;
        }
        return;
    }
    if let Some(n) = *nail {
        let position = match pointer {
            Some(p) => p,
            None => n.position,
        };
        let angle: i64 = if input.turn { n.angle - NAIL_TURN } else { n.angle };
        *nail = Some(Nail { position, angle });
    }
}

} // verus!
