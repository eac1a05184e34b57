//! Proved laws of the simulation core, stated over the same models the
//! executable contracts use.

use vstd::prelude::*;
use crate::components::{PlayerState, Position};
use crate::dead::{
    death_animation, despawn_requests, handler_matches, transitioned_states, DESPAWN_AGE, ID,
};
use crate::session::{advance_world, aged_states};
use crate::world::{
    contains_idx, lemma_cleared_props, lemma_contains_idx_add, lemma_contains_idx_push, WorldModel,
};
use crate::components::ANIM_DEATH_BELLY;
use crate::queues::AudioEvent;

verus! {

/// The world after `n` consecutive ticks.
pub open spec fn advance_world_n(w: WorldModel, n: nat) -> WorldModel
    decreases n,
{
    if n == 0 {
        w
    } else {
        advance_world(advance_world_n(w, (n - 1) as nat))
    }
}

/// Exactly which entities the dead handler requests for despawn: those its
/// query matches that have been dead for `DESPAWN_AGE` ticks or more.
pub proof fn lemma_requests_membership(
    states: Seq<Option<PlayerState>>,
    killed: Seq<Option<crate::components::PlayerKilled>>,
    animations: Seq<Option<crate::components::AnimationBankSprite>>,
    n: int,
    i: int,
)
    requires
        n <= usize::MAX,
    ensures
        contains_idx(despawn_requests(states, killed, animations, n), i) <==> (0 <= i < n
            && handler_matches(states, killed, animations, i) && states[i].unwrap().current == ID
            && states[i].unwrap().age >= DESPAWN_AGE),
    decreases n,
{
    if n <= 0 {
    } else {
        lemma_requests_membership(states, killed, animations, n - 1, i);
        let prefix = despawn_requests(states, killed, animations, n - 1);
        if handler_matches(states, killed, animations, n - 1) && states[n - 1].unwrap().current
            == ID && states[n - 1].unwrap().age >= DESPAWN_AGE {
            lemma_contains_idx_push(prefix, crate::components::Entity { idx: (n - 1) as usize }, i);
        }
    }
}

/// A tick keeps the world well-formed and never changes the set of entity
/// slots.
pub proof fn lemma_advance_world_wf(w: WorldModel)
    requires
        w.wf(),
    ensures
        advance_world(w).wf(),
        advance_world(w).states.len() == w.states.len(),
{
    let s2 = transitioned_states(aged_states(w.states), w.killed);
    let a2 = crate::dead::handled_animations(s2, w.killed, w.sprites, w.transforms, w.animations);
    let reqs = w.despawns + despawn_requests(s2, w.killed, w.animations, w.states.len() as int);
    lemma_cleared_props(s2, reqs);
    lemma_cleared_props(w.killed, reqs);
    lemma_cleared_props(w.sprites, reqs);
    lemma_cleared_props(w.transforms, reqs);
    lemma_cleared_props(a2, reqs);
}

/// An entity no transition system touches keeps its state id and ages by
/// exactly one per tick: here, one with a state machine, no Killed marker,
/// and no pending despawn request.
pub proof fn lemma_untouched_state_ages(w: WorldModel, i: int)
    requires
        w.wf(),
        w.states.len() <= usize::MAX,
        0 <= i < w.states.len(),
        w.states[i] is Some,
        w.killed[i] is None,
        w.states[i].unwrap().age < u32::MAX,
        !contains_idx(w.despawns, i),
    ensures
        advance_world(w).states[i] == Some(
            PlayerState {
                current: w.states[i].unwrap().current,
                age: (w.states[i].unwrap().age + 1) as u32,
            },
        ),
{
    let s2 = transitioned_states(aged_states(w.states), w.killed);
    let dr = despawn_requests(s2, w.killed, w.animations, w.states.len() as int);
    let reqs = w.despawns + dr;
    lemma_requests_membership(s2, w.killed, w.animations, w.states.len() as int, i);
    lemma_contains_idx_add(w.despawns, dr, i);
    lemma_cleared_props(s2, reqs);
}

/// An entity that acquires a Killed marker while not already dead is in the
/// dead state with its age reset to zero at the end of that same tick.
pub proof fn lemma_killed_enters_dead(w: WorldModel, i: int)
    requires
        w.wf(),
        w.states.len() <= usize::MAX,
        0 <= i < w.states.len(),
        w.states[i] is Some,
        w.killed[i] is Some,
        w.states[i].unwrap().current != ID,
        !contains_idx(w.despawns, i),
    ensures
        advance_world(w).states[i] == Some(PlayerState { current: ID, age: 0 }),
{
    let s2 = transitioned_states(aged_states(w.states), w.killed);
    let dr = despawn_requests(s2, w.killed, w.animations, w.states.len() as int);
    let reqs = w.despawns + dr;
    assert(s2[i] == Some(PlayerState { current: ID, age: 0 }));
    lemma_requests_membership(s2, w.killed, w.animations, w.states.len() as int, i);
    lemma_contains_idx_add(w.despawns, dr, i);
    lemma_cleared_props(s2, reqs);
}

/// Despawn timing: an entity that has just entered the dead state (age zero,
/// marker still attached, animation present) is still there with age `n`
/// after any `n` further ticks short of `DESPAWN_AGE`, and is gone after
/// exactly `DESPAWN_AGE` ticks — not before, not after.
pub proof fn lemma_despawn_timing(w: WorldModel, i: int, n: nat)
    requires
        w.wf(),
        w.states.len() <= usize::MAX,
        0 <= i < w.states.len(),
        w.states[i] == Some(PlayerState { current: ID, age: 0 }),
        w.killed[i] is Some,
        w.animations[i] is Some,
        !contains_idx(w.despawns, i),
        n <= DESPAWN_AGE,
    ensures
        n < DESPAWN_AGE ==> {
            &&& advance_world_n(w, n).wf()
            &&& advance_world_n(w, n).states.len() == w.states.len()
            &&& advance_world_n(w, n).states[i] == Some(
                PlayerState { current: ID, age: n as u32 },
            )
            &&& advance_world_n(w, n).killed[i] is Some
            &&& advance_world_n(w, n).animations[i] is Some
            &&& !contains_idx(advance_world_n(w, n).despawns, i)
        },
        n == DESPAWN_AGE ==> advance_world_n(w, n).states[i] is None,
    decreases n,
{
    if n == 0 {
    } else {
        lemma_despawn_timing(w, i, (n - 1) as nat);
        let v = advance_world_n(w, (n - 1) as nat);
        let s2 = transitioned_states(aged_states(v.states), v.killed);
        let dr = despawn_requests(s2, v.killed, v.animations, v.states.len() as int);
        let reqs = v.despawns + dr;
        assert(s2[i] == Some(PlayerState { current: ID, age: n as u32 }));
        lemma_requests_membership(s2, v.killed, v.animations, v.states.len() as int, i);
        lemma_contains_idx_add(v.despawns, dr, i);
        lemma_cleared_props(s2, reqs);
        lemma_cleared_props(v.killed, reqs);
        let a2 = crate::dead::handled_animations(
            s2,
            v.killed,
            v.sprites,
            v.transforms,
            v.animations,
        );
        lemma_cleared_props(a2, reqs);
        lemma_advance_world_wf(v);
    }
}

/// Determinism: one tick is a total function of the prior world alone, so two
/// runs from equal worlds stay equal over any number of ticks. Together with
/// the stepper's contract — the post-world equals `advance_world` of the
/// pre-world — identical input sequences give bit-identical final states.
pub proof fn lemma_advance_deterministic(a: WorldModel, b: WorldModel, n: nat)
    requires
        a == b,
    ensures
        advance_world_n(a, n) == advance_world_n(b, n),
{
}

/// A tick preserves the scheduler guarantee behind the dead handler's
/// lookups: when every joined entity carried a sprite and a transform before
/// the tick, the same holds after it, so ticks chain.
pub proof fn lemma_advance_preserves_players_complete(w: WorldModel)
    requires
        w.wf(),
        w.players_complete(),
    ensures
        advance_world(w).players_complete(),
{
    let s2 = transitioned_states(aged_states(w.states), w.killed);
    let a2 = crate::dead::handled_animations(s2, w.killed, w.sprites, w.transforms, w.animations);
    let reqs = w.despawns + despawn_requests(s2, w.killed, w.animations, w.states.len() as int);
    lemma_cleared_props(s2, reqs);
    lemma_cleared_props(w.killed, reqs);
    lemma_cleared_props(w.sprites, reqs);
    lemma_cleared_props(w.transforms, reqs);
    lemma_cleared_props(a2, reqs);
    let v = advance_world(w);
    assert forall|i: int|
        0 <= i < v.states.len() && v.states[i] is Some && v.killed[i] is Some && v.animations[i]
            is Some implies v.sprites[i] is Some && v.transforms[i] is Some by {
        assert(!contains_idx(reqs, i));
        assert(w.states[i] is Some);
        assert(w.animations[i] is Some);
    }
}

/// The audio queue is consumed exactly once per boundary: a drain hands back
/// everything queued — something, whenever anything was queued — and leaves
/// the queue empty, so a second drain with no pushes in between hands back
/// nothing. The four hypotheses are what `AudioEvents::drain` ensures of two
/// consecutive calls, the first on contents `q`.
pub proof fn lemma_drain_twice(
    q: Seq<AudioEvent>,
    r1: Seq<AudioEvent>,
    q1: Seq<AudioEvent>,
    r2: Seq<AudioEvent>,
    q2: Seq<AudioEvent>,
)
    requires
        r1 == q,
        q1 == Seq::<AudioEvent>::empty(),
        r2 == q1,
        q2 == Seq::<AudioEvent>::empty(),
    ensures
        q.len() > 0 ==> r1.len() > 0,
        r2.len() == 0,
        q2.len() == 0,
{
}

/// When no hit origin was recorded, the death animation is the belly
/// animation, whatever the facing and position.
pub proof fn lemma_no_hit_origin_belly(flip_x: bool, x: i64)
    ensures
        death_animation(flip_x, x, None::<Position>) == ANIM_DEATH_BELLY,
{
}

} // verus!
