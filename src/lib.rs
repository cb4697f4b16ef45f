//! A saw that cuts planks in two, a pointer that drags bodies by a jointed handle,
//! and a nail marker: the decisions of a small physics toy, in fixed-point
//! thousandths of a world unit. The physics engine that moves the bodies and the
//! input that drives them stay with the caller.

pub mod geom;
pub mod level;
pub mod nail;
pub mod plank;
pub mod random;
pub mod saw;
pub mod select;
