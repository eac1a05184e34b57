//! Component and identifier types of the simulation core.

use vstd::prelude::*;

verus! {

/// A stable interned identifier (state ids, animation ids, asset ids).
/// Keys are compared by value and the set of valid keys is open: new gameplay
/// states may be added without touching the session stepper.
pub type Key = u64;

/// The key reserved for "nothing selected".
pub const KEY_NONE: Key = 0;

/// State id of the initial spawn state.
pub const STATE_IDLE: Key = 1;

/// Animation played while idling.
pub const ANIM_IDLE: Key = 2;

/// Death animation used when the victim was struck from the spine side.
pub const ANIM_DEATH_SPINE: Key = 3;

/// Death animation used when the victim was struck belly first.
pub const ANIM_DEATH_BELLY: Key = 4;

/// An entity: an opaque identifier with no inherent data, used only as a join
/// key across the component tables.
#[derive(Clone, Copy, PartialEq, Eq, Structural, Debug)]
pub struct Entity {
    pub idx: usize,
}

/// An integer world position; `x` grows to the right.
#[derive(Clone, Copy, PartialEq, Eq, Structural, Debug)]
pub struct Position {
    pub x: i64,
    pub y: i64,
}

/// Per-entity state machine component: the id of the active state and the
/// number of completed ticks the entity has spent in it.
#[derive(Clone, Copy, PartialEq, Eq, Structural, Debug)]
pub struct PlayerState {
    pub current: Key,
    pub age: u32,
}

/// Marker attached to an entity when game logic decides it should die.
/// Carries the position the killing hit came from, when one was recorded.
#[derive(Clone, Copy, PartialEq, Eq, Debug)]
pub struct PlayerKilled {
    pub hit_from: Option<Position>,
}

/// The part of a sprite the simulation reads: whether it is flipped on the
/// horizontal axis (an unflipped sprite faces right).
#[derive(Clone, Copy, PartialEq, Eq, Structural, Debug)]
pub struct AtlasSprite {
    pub flip_x: bool,
}

/// Spatial component: where the entity stands.
#[derive(Clone, Copy, PartialEq, Eq, Structural, Debug)]
pub struct Transform {
    pub translation: Position,
}

/// Animation selector component: the key of the animation being played.
#[derive(Clone, Copy, PartialEq, Eq, Structural, Debug)]
pub struct AnimationBankSprite {
    pub current: Key,
}

} // verus!
