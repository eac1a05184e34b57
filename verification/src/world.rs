//! The entity/component/resource world owned by one game session.

use vstd::prelude::*;
use crate::components::{AnimationBankSprite, AtlasSprite, Entity, PlayerKilled, PlayerState, Transform};
use crate::input::{PlayerInput, PlayerInputs};
use crate::queues::{AudioEvent, AudioEvents, PlayerEvents};
use crate::table::Table;

verus! {

/// The mathematical model of a world: one sequence per component table,
/// indexed by entity, plus the session resources.
pub ghost struct WorldModel {
    pub states: Seq<Option<PlayerState>>,
    pub killed: Seq<Option<PlayerKilled>>,
    pub sprites: Seq<Option<AtlasSprite>>,
    pub transforms: Seq<Option<Transform>>,
    pub animations: Seq<Option<AnimationBankSprite>>,
    pub inputs: Seq<PlayerInput>,
    pub audio: Seq<AudioEvent>,
    pub despawns: Seq<Entity>,
}

impl WorldModel {
    /// Well-formed: every component table has exactly one slot per entity.
    pub open spec fn wf(self) -> bool {
        &&& self.killed.len() == self.states.len()
        &&& self.sprites.len() == self.states.len()
        &&& self.transforms.len() == self.states.len()
        &&& self.animations.len() == self.states.len()
    }

    /// Scheduler guarantee behind the dead handler's component lookups: any
    /// entity the dead systems join on (state, Killed marker and animation all
    /// present) also carries a sprite and a transform.
    pub open spec fn players_complete(self) -> bool {
        forall|i: int|
            0 <= i < self.states.len() && self.states[i] is Some && self.killed[i] is Some
                && self.animations[i] is Some ==> self.sprites[i] is Some
                && self.transforms[i] is Some
    }
}

/// True when some entry of `reqs` names entity index `i`.
pub open spec fn contains_idx(reqs: Seq<Entity>, i: int) -> bool {
    exists|j: int| 0 <= j < reqs.len() && reqs[j].idx == i
}

/// `t` with the components of the one entity `e` removed (no slot is touched
/// when `e` is out of range).
pub open spec fn clear_one<T>(t: Seq<Option<T>>, e: Entity) -> Seq<Option<T>> {
    if e.idx < t.len() {
        t.update(e.idx as int, None::<T>)
    } else {
        t
    }
}

/// `t` after every entity in `reqs` has lost its component, applied in order.
pub open spec fn cleared<T>(t: Seq<Option<T>>, reqs: Seq<Entity>) -> Seq<Option<T>>
    decreases reqs.len(),
{
    if reqs.len() == 0 {
        t
    } else {
        clear_one(cleared(t, reqs.drop_last()), reqs.last())
    }
}

/// Membership in a grown request list: the new entry covers exactly one more
/// entity index.
pub proof fn lemma_contains_idx_push(reqs: Seq<Entity>, e: Entity, i: int)
    ensures
        contains_idx(reqs.push(e), i) <==> (contains_idx(reqs, i) || e.idx == i),
{
    if contains_idx(reqs.push(e), i) {
        let j = choose|j: int| 0 <= j < reqs.push(e).len() && reqs.push(e)[j].idx == i;
        if j < reqs.len() {
            assert(reqs[j].idx == i);
        } else {
            assert(reqs.push(e)[j] == e);
        }
    }
    if contains_idx(reqs, i) {
        let j = choose|j: int| 0 <= j < reqs.len() && reqs[j].idx == i;
        assert(reqs.push(e)[j].idx == i);
    }
    if e.idx == i {
        assert(reqs.push(e)[reqs.len() as int].idx == i);
    }
}

/// Membership in a concatenation of request lists.
pub proof fn lemma_contains_idx_add(a: Seq<Entity>, b: Seq<Entity>, i: int)
    ensures
        contains_idx(a + b, i) <==> (contains_idx(a, i) || contains_idx(b, i)),
{
    if contains_idx(a + b, i) {
        let j = choose|j: int| 0 <= j < (a + b).len() && (a + b)[j].idx == i;
        if j < a.len() {
            assert(a[j].idx == i);
        } else {
            assert(b[j - a.len()].idx == i);
        }
    }
    if contains_idx(a, i) {
        let j = choose|j: int| 0 <= j < a.len() && a[j].idx == i;
        assert((a + b)[j].idx == i);
    }
    if contains_idx(b, i) {
        let j = choose|j: int| 0 <= j < b.len() && b[j].idx == i;
        assert((a + b)[j + a.len()].idx == i);
    }
}

/// What a batch of removals does, slot by slot: requested entities lose their
/// component, every other slot is untouched, and the length never changes.
pub proof fn lemma_cleared_props<T>(t: Seq<Option<T>>, reqs: Seq<Entity>)
    ensures
        cleared(t, reqs).len() == t.len(),
        forall|i: int|
            0 <= i < t.len() && !contains_idx(reqs, i) ==> cleared(t, reqs)[i] == t[i],
        forall|i: int| 0 <= i < t.len() && contains_idx(reqs, i) ==> cleared(t, reqs)[i] is None,
    decreases reqs.len(),
{
    if reqs.len() == 0 {
    } else {
        let r = reqs.drop_last();
        let e = reqs.last();
        lemma_cleared_props(t, r);
        assert(r.push(e) =~= reqs);
        assert forall|i: int| 0 <= i < t.len() implies {
            &&& !contains_idx(reqs, i) ==> cleared(t, reqs)[i] == t[i]
            &&& contains_idx(reqs, i) ==> cleared(t, reqs)[i] is None
        } by {
            lemma_contains_idx_push(r, e, i);
        }
    }
}

/// One game world: the component tables and the session resources.
pub struct World {
    pub player_states: Table<PlayerState>,
    pub killed_players: Table<PlayerKilled>,
    pub atlas_sprites: Table<AtlasSprite>,
    pub transforms: Table<Transform>,
    pub animations: Table<AnimationBankSprite>,
    pub player_inputs: PlayerInputs,
    pub audio_events: AudioEvents,
    pub player_events: PlayerEvents,
}

impl View for World {
    type V = WorldModel;

    open spec fn view(&self) -> WorldModel {
        WorldModel {
            states: self.player_states@,
            killed: self.killed_players@,
            sprites: self.atlas_sprites@,
            transforms: self.transforms@,
            animations: self.animations@,
            inputs: self.player_inputs@,
            audio: self.audio_events@,
            despawns: self.player_events@,
        }
    }
}

impl World {
    /// A world with no entities, no pending events, and no player slots.
    pub fn new() -> (w: World)
        ensures
            w@.wf(),
            w@.states == Seq::<Option<PlayerState>>::empty(),
            w@.killed == Seq::<Option<PlayerKilled>>::empty(),
            w@.sprites == Seq::<Option<AtlasSprite>>::empty(),
            w@.transforms == Seq::<Option<Transform>>::empty(),
            w@.animations == Seq::<Option<AnimationBankSprite>>::empty(),
            w@.inputs == Seq::<PlayerInput>::empty(),
            w@.audio == Seq::<AudioEvent>::empty(),
            w@.despawns == Seq::<Entity>::empty(),
    {
        World {
            player_states: Table::new(),
            killed_players: Table::new(),
            atlas_sprites: Table::new(),
            transforms: Table::new(),
            animations: Table::new(),
            player_inputs: PlayerInputs { players: Vec::new() },
            audio_events: AudioEvents::new(),
            player_events: PlayerEvents::new(),
        }
    }

    /// Create a fresh entity: a new slot in every component table, carrying
    /// nothing yet.
    pub fn spawn(&mut self) -> (e: Entity)
        requires
            old(self)@.wf(),
        ensures
            final(self)@.wf(),
            e.idx == old(self)@.states.len(),
            final(self)@.states == old(self)@.states.push(None::<PlayerState>),
            final(self)@.killed == old(self)@.killed.push(None::<PlayerKilled>),
            final(self)@.sprites == old(self)@.sprites.push(None::<AtlasSprite>),
            final(self)@.transforms == old(self)@.transforms.push(None::<Transform>),
            final(self)@.animations == old(self)@.animations.push(None::<AnimationBankSprite>),
            final(self)@.inputs == old(self)@.inputs,
            final(self)@.audio == old(self)@.audio,
            final(self)@.despawns == old(self)@.despawns,
    {
        let idx = self.player_states.len();
        self.player_states.push_empty();
        self.killed_players.push_empty();
        self.atlas_sprites.push_empty();
        self.transforms.push_empty();
        self.animations.push_empty();
        Entity { idx }
    }

    /// Request a despawn: deferred, applied in one batch at the tick's flush
    /// point so that no iteration in the running tick is invalidated.
    pub fn despawn(&mut self, e: Entity)
        ensures
            final(self)@.despawns == old(self)@.despawns.push(e),
            final(self)@.states == old(self)@.states,
            final(self)@.killed == old(self)@.killed,
            final(self)@.sprites == old(self)@.sprites,
            final(self)@.transforms == old(self)@.transforms,
            final(self)@.animations == old(self)@.animations,
            final(self)@.inputs == old(self)@.inputs,
            final(self)@.audio == old(self)@.audio,
    {
        self.player_events.despawn(e);
    }

    /// Apply every queued despawn request in order — removing all components
    /// of each named entity — and leave the queue empty.
    pub fn flush_despawns(&mut self)
        requires
            old(self)@.wf(),
        ensures
            final(self)@.wf(),
            final(self)@.states == cleared(old(self)@.states, old(self)@.despawns),
            final(self)@.killed == cleared(old(self)@.killed, old(self)@.despawns),
            final(self)@.sprites == cleared(old(self)@.sprites, old(self)@.despawns),
            final(self)@.transforms == cleared(old(self)@.transforms, old(self)@.despawns),
            final(self)@.animations == cleared(old(self)@.animations, old(self)@.despawns),
            final(self)@.inputs == old(self)@.inputs,
            final(self)@.audio == old(self)@.audio,
            final(self)@.despawns == Seq::<Entity>::empty(),
    {
        let ghost reqs = self.player_events@;
        let ghost w0 = self@;
        let mut j: usize = 0;
        let n = self.player_events.despawns.len();
        while j < n
            invariant
                j <= n,
                n == reqs.len(),
                self.player_events@ == reqs,
                self@.wf(),
                self@.states.len() == w0.states.len(),
                self@.states == cleared(w0.states, reqs.take(j as int)),
                self@.killed == cleared(w0.killed, reqs.take(j as int)),
                self@.sprites == cleared(w0.sprites, reqs.take(j as int)),
                self@.transforms == cleared(w0.transforms, reqs.take(j as int)),
                self@.animations == cleared(w0.animations, reqs.take(j as int)),
                self@.inputs == w0.inputs,
                self@.audio == w0.audio,
            decreases n - j,
        {
            let e = self.player_events.despawns[j];
            proof {
                assert(reqs.take(j as int + 1).drop_last() =~= reqs.take(j as int));
                assert(reqs.take(j as int + 1).last() == reqs[j as int]);
                lemma_cleared_props(w0.states, reqs.take(j as int));
            }
            if e.idx < self.player_states.len() {
                self.player_states.remove(e);
                self.killed_players.remove(e);
                self.atlas_sprites.remove(e);
                self.transforms.remove(e);
                self.animations.remove(e);
            }
            j += 1;
        }
        proof {
            assert(reqs.take(n as int) =~= reqs);
        }
        self.player_events.despawns.clear();
    }
}

} // verus!
