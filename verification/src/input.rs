//! The per-participant input resource and the edge-flag logic that rebuilds it
//! from raw device readings once per tick.

use vstd::prelude::*;
use crate::components::Key;

verus! {

/// Per-player control state for one tick. The `*_just_pressed` flags are
/// edges: true exactly on the tick the button went from released to pressed.
#[derive(Clone, Copy, PartialEq, Eq, Structural, Debug)]
pub struct PlayerControl {
    pub jump_pressed: bool,
    pub jump_just_pressed: bool,
    pub grab_pressed: bool,
    pub grab_just_pressed: bool,
    pub shoot_pressed: bool,
    pub shoot_just_pressed: bool,
    pub move_x: i64,
    pub move_y: i64,
    pub just_moved: bool,
}

/// One raw reading from a player's input device, fed to the session before a
/// tick. The movement axes are integer fixed-point values; (0, 0) is rest.
#[derive(Clone, Copy, PartialEq, Eq, Structural, Debug)]
pub struct CollectorInput {
    pub player_idx: usize,
    pub jump: bool,
    pub grab: bool,
    pub shoot: bool,
    pub move_x: i64,
    pub move_y: i64,
}

/// An opaque editor command token routed to the first player slot.
#[derive(Clone, Copy, PartialEq, Eq, Structural, Debug)]
pub struct EditorInput {
    pub command: u64,
}

/// Per-player input record: whether the slot participates, which character it
/// selected, its control state, and an optional editor command.
#[derive(Clone, Copy, Debug)]
pub struct PlayerInput {
    pub active: bool,
    pub selected_player: Key,
    pub control: PlayerControl,
    pub editor_input: Option<EditorInput>,
}

/// The session-wide input resource: one record per player slot.
pub struct PlayerInputs {
    pub players: Vec<PlayerInput>,
}

impl View for PlayerInputs {
    type V = Seq<PlayerInput>;

    open spec fn view(&self) -> Seq<PlayerInput> {
        self.players@
    }
}

/// The control a reading turns `c` into: pressed flags are taken over, the
/// `just` flags become edges against `c`, and `just_moved` marks the tick the
/// axes leave rest.
pub open spec fn apply_collector(c: PlayerControl, inp: CollectorInput) -> PlayerControl {
    PlayerControl {
        jump_pressed: inp.jump,
        jump_just_pressed: inp.jump && !c.jump_pressed,
        grab_pressed: inp.grab,
        grab_just_pressed: inp.grab && !c.grab_pressed,
        shoot_pressed: inp.shoot,
        shoot_just_pressed: inp.shoot && !c.shoot_pressed,
        move_x: inp.move_x,
        move_y: inp.move_y,
        just_moved: !(c.move_x != 0 || c.move_y != 0) && (inp.move_x != 0 || inp.move_y != 0),
    }
}

/// The control of player `p` after a whole sequence of readings has been
/// applied in order: readings for other players are skipped, and the last
/// reading for `p` wins.
pub open spec fn control_after(c: PlayerControl, readings: Seq<CollectorInput>, p: int) -> PlayerControl
    decreases readings.len(),
{
    if readings.len() == 0 {
        c
    } else {
        let prev = control_after(c, readings.drop_last(), p);
        if readings.last().player_idx == p {
            apply_collector(prev, readings.last())
        } else {
            prev
        }
    }
}

/// Apply one device reading to one player's control state, computing the
/// just-pressed and just-moved edges against the state left by the previous
/// tick.
pub fn apply_collector_control(c: &mut PlayerControl, inp: &CollectorInput)
    ensures
        *final(c) == apply_collector(*old(c), *inp),
{
    let was_moving = c.move_x != 0 || c.move_y != 0;

    c.jump_just_pressed = inp.jump && !c.jump_pressed;
    c.jump_pressed = inp.jump;

    c.grab_just_pressed = inp.grab && !c.grab_pressed;
    c.grab_pressed = inp.grab;

    c.shoot_just_pressed = inp.shoot && !c.shoot_pressed;
    c.shoot_pressed = inp.shoot;

    c.move_x = inp.move_x;
    c.move_y = inp.move_y;
    let is_moving = c.move_x != 0 || c.move_y != 0;
    c.just_moved = !was_moving && is_moving;
}

} // verus!
