//! The terminal dead state: its transition system and its handler system.
//!
//! Every gameplay state follows this pattern: a unique state id, a transition
//! system that decides entry into the state, and a handler system that runs
//! the state's behaviour gated on `age`.

use vstd::prelude::*;
use crate::components::{
    AnimationBankSprite, AtlasSprite, Entity, Key, PlayerKilled, PlayerState, Position, Transform,
    ANIM_DEATH_BELLY, ANIM_DEATH_SPINE,
};
use crate::queues::PlayerEvents;
use crate::table::Table;

verus! {

/// State id of the dead state.
pub const ID: Key = 5;

/// Ticks spent in the dead state after which the entity is despawned.
pub const DESPAWN_AGE: u32 = 80;

/// The dead transition fires for an entity exactly when a Killed marker is
/// present and the entity is not already dead: the transition is one-way and
/// non-reentrant (nothing ever leaves the dead state).
pub open spec fn dead_triggers(st: Option<PlayerState>, k: Option<PlayerKilled>) -> bool {
    st is Some && k is Some && st.unwrap().current != ID
}

/// The state table after the dead transition system has run: every triggered
/// entity enters the dead state with its age reset to zero, every other slot
/// is untouched.
pub open spec fn transitioned_states(
    states: Seq<Option<PlayerState>>,
    killed: Seq<Option<PlayerKilled>>,
) -> Seq<Option<PlayerState>> {
    Seq::new(
        states.len(),
        |i: int|
            if dead_triggers(states[i], killed[i]) {
                Some(PlayerState { current: ID, age: 0 })
            } else {
                states[i]
            },
    )
}

/// True when the dead handler's query matches entity `i`: the handler joins
/// the state, animation and Killed-marker tables.
pub open spec fn handler_matches(
    states: Seq<Option<PlayerState>>,
    killed: Seq<Option<PlayerKilled>>,
    animations: Seq<Option<AnimationBankSprite>>,
    i: int,
) -> bool {
    states[i] is Some && killed[i] is Some && animations[i] is Some
}

/// The directional death-animation policy. Let the victim face right exactly
/// when its sprite is unflipped, and let the hit come from the right exactly
/// when the recorded hit origin lies at a greater `x` than the victim: the
/// spine animation plays when facing side and hit side agree, the belly
/// animation otherwise, and also whenever no hit origin was recorded.
pub open spec fn death_animation(flip_x: bool, x: i64, hit_from: Option<Position>) -> Key {
    match hit_from {
        Some(h) => {
            let player_on_right = !flip_x;
            let is_hit_right = x < h.x;
            if (player_on_right && is_hit_right) || (!player_on_right && !is_hit_right) {
                ANIM_DEATH_SPINE
            } else {
                ANIM_DEATH_BELLY
            }
        },
        None => ANIM_DEATH_BELLY,
    }
}

/// The animation table after the dead handler has run: rewritten only for
/// matched entities on their first dead tick.
pub open spec fn handled_animations(
    states: Seq<Option<PlayerState>>,
    killed: Seq<Option<PlayerKilled>>,
    sprites: Seq<Option<AtlasSprite>>,
    transforms: Seq<Option<Transform>>,
    animations: Seq<Option<AnimationBankSprite>>,
) -> Seq<Option<AnimationBankSprite>> {
    Seq::new(
        animations.len(),
        |i: int|
            if handler_matches(states, killed, animations, i) && states[i].unwrap().current == ID
                && states[i].unwrap().age == 0 {
                Some(
                    AnimationBankSprite {
                        current: death_animation(
                            sprites[i].unwrap().flip_x,
                            transforms[i].unwrap().translation.x,
                            killed[i].unwrap().hit_from,
                        ),
                    },
                )
            } else {
                animations[i]
            },
    )
}

/// The despawn requests the dead handler pushes, in entity order: the matched
/// entities that have been dead for `DESPAWN_AGE` ticks or more.
pub open spec fn despawn_requests(
    states: Seq<Option<PlayerState>>,
    killed: Seq<Option<PlayerKilled>>,
    animations: Seq<Option<AnimationBankSprite>>,
    n: int,
) -> Seq<Entity>
    decreases n,
{
    if n <= 0 {
        Seq::empty()
    } else {
        let prefix = despawn_requests(states, killed, animations, n - 1);
        if handler_matches(states, killed, animations, n - 1) && states[n - 1].unwrap().current
            == ID && states[n - 1].unwrap().age >= DESPAWN_AGE {
            prefix.push(Entity { idx: (n - 1) as usize })
        } else {
            prefix
        }
    }
}

/// The dead transition system: every entity that carries both a state machine
/// and a Killed marker, and is not already dead, enters the dead state with
/// its age reset to zero.
pub fn player_state_transition(
    killed_players: &Table<PlayerKilled>,
    player_states: &mut Table<PlayerState>,
)
    requires
        killed_players@.len() == old(player_states)@.len(),
    ensures
        final(player_states)@ == transitioned_states(old(player_states)@, killed_players@),
{
    let ghost s0 = player_states@;
    let n = player_states.len();
    let mut i: usize = 0;
    while i < n
        invariant
            i <= n,
            n == s0.len(),
            killed_players@.len() == s0.len(),
            player_states@.len() == s0.len(),
            forall|q: int|
                0 <= q < i ==> player_states@[q] == transitioned_states(s0, killed_players@)[q],
            forall|q: int| i <= q < n ==> player_states@[q] == s0[q],
        decreases n - i,
    {
        let e = Entity { idx: i };
        let not_dead = match player_states.get(e) {
            Some(st) => st.current != ID,
            None => false,
        };
        if not_dead && killed_players.contains(e) {
            player_states.insert(e, PlayerState { current: ID, age: 0 });
        }
        i += 1;
    }
    proof {
        assert(player_states@ =~= transitioned_states(s0, killed_players@));
    }
}

/// The exact directional policy as an executable function: which death
/// animation plays for a given facing, position and recorded hit origin.
pub fn pick_death_animation(flip_x: bool, x: i64, hit_from: Option<Position>) -> (k: Key)
    ensures
        k == death_animation(flip_x, x, hit_from),
{
    match hit_from {
        Some(h) => {
            let player_on_right = !flip_x;
            let is_hit_right = x < h.x;
            if (player_on_right && is_hit_right) || (!player_on_right && !is_hit_right) {
                ANIM_DEATH_SPINE
            } else {
                ANIM_DEATH_BELLY
            }
        },
        None => ANIM_DEATH_BELLY,
    }
}

/// The dead handler system. On an entity's first dead tick it picks the death
/// animation from the sprite's facing and the recorded hit origin; once the
/// entity has been dead `DESPAWN_AGE` ticks it requests a deferred despawn.
/// The sprite and transform lookups rely on the scheduler guarantee stated in
/// the last precondition; the contract rules the panic of a missing lookup
/// out.
pub fn handle_player_state(
    player_states: &Table<PlayerState>,
    killed_players: &Table<PlayerKilled>,
    atlas_sprites: &Table<AtlasSprite>,
    transforms: &Table<Transform>,
    animations: &mut Table<AnimationBankSprite>,
    player_events: &mut PlayerEvents,
)
    requires
        killed_players@.len() == player_states@.len(),
        atlas_sprites@.len() == player_states@.len(),
        transforms@.len() == player_states@.len(),
        old(animations)@.len() == player_states@.len(),
        forall|i: int|
            0 <= i < player_states@.len() && handler_matches(
                player_states@,
                killed_players@,
                old(animations)@,
                i,
            ) && player_states@[i].unwrap().current == ID && player_states@[i].unwrap().age == 0
                ==> atlas_sprites@[i] is Some && transforms@[i] is Some,
    ensures
        final(animations)@ == handled_animations(
            player_states@,
            killed_players@,
            atlas_sprites@,
            transforms@,
            old(animations)@,
        ),
        final(player_events)@ == old(player_events)@ + despawn_requests(
            player_states@,
            killed_players@,
            old(animations)@,
            player_states@.len() as int,
        ),
{
    let ghost a0 = animations@;
    let ghost ev0 = player_events@;
    let n = player_states.len();
    let mut i: usize = 0;
    while i < n
        invariant
            i <= n,
            n == player_states@.len(),
            killed_players@.len() == n,
            atlas_sprites@.len() == n,
            transforms@.len() == n,
            a0.len() == n,
            animations@.len() == n,
            forall|q: int|
                0 <= q < n && handler_matches(player_states@, killed_players@, a0, q)
                    && player_states@[q].unwrap().current == ID && player_states@[q].unwrap().age
                    == 0 ==> atlas_sprites@[q] is Some && transforms@[q] is Some,
            forall|q: int|
                0 <= q < i ==> animations@[q] == handled_animations(
                    player_states@,
                    killed_players@,
                    atlas_sprites@,
                    transforms@,
                    a0,
                )[q],
            forall|q: int| i <= q < n ==> animations@[q] == a0[q],
            player_events@ == ev0 + despawn_requests(
                player_states@,
                killed_players@,
                a0,
                i as int,
            ),
        decreases n - i,
    {
        let e = Entity { idx: i };
        let state = match player_states.get(e) {
            Some(st) => Some(*st),
            None => None,
        };
        let killed = match killed_players.get(e) {
            Some(k) => Some(*k),
            None => None,
        };
        let matched = state.is_some() && killed.is_some() && animations.contains(e);
        if matched {
            let st = state.unwrap();
            if st.current == ID {
                if st.age == 0 {
                    proof {
                        assert(animations@[i as int] == a0[i as int]);
                        assert(handler_matches(player_states@, killed_players@, a0, i as int));
                        assert(player_states@[i as int].unwrap() == st);
                        assert(atlas_sprites@[i as int] is Some && transforms@[i as int] is Some);
                    }
                    let sprite = atlas_sprites.get(e).unwrap();
                    let tf = transforms.get(e).unwrap();
                    let anim = pick_death_animation(
                        sprite.flip_x,
                        tf.translation.x,
                        killed.unwrap().hit_from,
                    );
                    animations.insert(e, AnimationBankSprite { current: anim });
                }
                if st.age >= DESPAWN_AGE {
                    player_events.despawn(e);
                }
            }
        }
        i += 1;
    }
    proof {
        assert(animations@ =~= handled_animations(
            player_states@,
            killed_players@,
            atlas_sprites@,
            transforms@,
            a0,
        ));
    }
}

} // verus!
