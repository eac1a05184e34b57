//! The session stepper: owns one world, advances it one fixed-size tick at a
//! time in a deterministic order, and supports restart without losing the
//! session configuration.

use vstd::prelude::*;
use vstd::pervasive::VecAdditionalExecFns;
use crate::components::{
    AnimationBankSprite, AtlasSprite, Key, PlayerKilled, PlayerState, Position, Transform,
    ANIM_IDLE, KEY_NONE, STATE_IDLE,
};
use crate::dead::{
    despawn_requests, handle_player_state, handled_animations, player_state_transition,
    transitioned_states,
};
use crate::input::{control_after, CollectorInput, EditorInput, PlayerControl, PlayerInput, PlayerInputs};
use crate::table::Table;
use crate::world::{cleared, World, WorldModel};

verus! {

/// Number of player slots a session keeps in its input resource.
pub const MAX_PLAYERS: usize = 4;

/// Stage label for the game session stages.
#[derive(Clone, Copy, PartialEq, Eq, Structural, Debug)]
pub enum SessionStage {
    /// Update the game session.
    Update,
}

/// Configuration for one game session: the selected player roster and the
/// chosen map. Preserved across `restart`.
#[derive(Clone, Debug)]
pub struct SessionInfo {
    pub players: Vec<Key>,
    pub map: Key,
}

/// The mathematical model of a session: its world, its configuration, and the
/// number of completed ticks.
#[verifier::ext_equal]
pub ghost struct SessionModel {
    pub world: WorldModel,
    pub players: Seq<Key>,
    pub map: Key,
    pub tick: u64,
}

impl SessionModel {
    /// Well-formed: the world's tables agree, the roster fits the input
    /// resource, and the input resource has one record per player slot.
    pub open spec fn wf(self) -> bool {
        &&& self.world.wf()
        &&& self.players.len() <= MAX_PLAYERS
        &&& self.world.inputs.len() == MAX_PLAYERS
    }
}

/// The control state every player slot starts from: nothing pressed, at rest.
pub open spec fn default_control() -> PlayerControl {
    PlayerControl {
        jump_pressed: false,
        jump_just_pressed: false,
        grab_pressed: false,
        grab_just_pressed: false,
        shoot_pressed: false,
        shoot_just_pressed: false,
        move_x: 0,
        move_y: 0,
        just_moved: false,
    }
}

/// The world a fresh session starts from: one idle player entity per roster
/// entry, a full set of input slots (active for roster entries), and empty
/// queues.
pub open spec fn initial_world(players: Seq<Key>) -> WorldModel {
    WorldModel {
        states: Seq::new(players.len(), |i: int| Some(PlayerState { current: STATE_IDLE, age: 0 })),
        killed: Seq::new(players.len(), |i: int| None::<PlayerKilled>),
        sprites: Seq::new(players.len(), |i: int| Some(AtlasSprite { flip_x: false })),
        transforms: Seq::new(
            players.len(),
            |i: int| Some(Transform { translation: Position { x: 0, y: 0 } }),
        ),
        animations: Seq::new(
            players.len(),
            |i: int| Some(AnimationBankSprite { current: ANIM_IDLE }),
        ),
        inputs: Seq::new(
            MAX_PLAYERS as nat,
            |i: int|
                PlayerInput {
                    active: i < players.len(),
                    selected_player: if i < players.len() {
                        players[i]
                    } else {
                        KEY_NONE
                    },
                    control: default_control(),
                    editor_input: None,
                },
        ),
        audio: Seq::empty(),
        despawns: Seq::empty(),
    }
}

/// The model a fresh session starts from.
pub open spec fn initial_session(players: Seq<Key>, map: Key) -> SessionModel {
    SessionModel { world: initial_world(players), players, map, tick: 0 }
}

/// `age + 1`, saturating at the type's maximum.
pub open spec fn sat_inc(age: u32) -> u32 {
    if age == u32::MAX {
        u32::MAX
    } else {
        (age + 1) as u32
    }
}

/// The state table after the stepper's age update: every present state ages
/// by one tick. The stepper enforces this part of the age invariant itself;
/// transition systems reset the age to zero when they change `current`.
pub open spec fn aged_states(states: Seq<Option<PlayerState>>) -> Seq<Option<PlayerState>> {
    Seq::new(
        states.len(),
        |i: int|
            match states[i] {
                Some(st) => Some(PlayerState { current: st.current, age: sat_inc(st.age) }),
                None => None,
            },
    )
}

/// One whole simulation tick as a function of the prior world: age update,
/// then the transition systems, then the handler systems, then the deferred
/// despawn flush. The input resource and the audio queue pass through
/// untouched; the despawn queue is applied and emptied.
pub open spec fn advance_world(w: WorldModel) -> WorldModel {
    let s2 = transitioned_states(aged_states(w.states), w.killed);
    let a2 = handled_animations(s2, w.killed, w.sprites, w.transforms, w.animations);
    let reqs = w.despawns + despawn_requests(s2, w.killed, w.animations, w.states.len() as int);
    WorldModel {
        states: cleared(s2, reqs),
        killed: cleared(w.killed, reqs),
        sprites: cleared(w.sprites, reqs),
        transforms: cleared(w.transforms, reqs),
        animations: cleared(a2, reqs),
        inputs: w.inputs,
        audio: w.audio,
        despawns: Seq::empty(),
    }
}

/// The stepper's age-update system: every entity in some state has spent one
/// more completed tick in it.
fn tick_player_ages(player_states: &mut Table<PlayerState>)
    ensures
        final(player_states)@ == aged_states(old(player_states)@),
{
    let ghost s0 = player_states@;
    let n = player_states.len();
    let mut i: usize = 0;
    while i < n
        invariant
            i <= n,
            n == s0.len(),
            player_states@.len() == n,
            forall|q: int| 0 <= q < i ==> player_states@[q] == aged_states(s0)[q],
            forall|q: int| i <= q < n ==> player_states@[q] == s0[q],
        decreases n - i,
    {
        let e = crate::components::Entity { idx: i };
        let st = match player_states.get(e) {
            Some(s) => Some(*s),
            None => None,
        };
        if let Some(s) = st {
            player_states.insert(
                e,
                PlayerState { current: s.current, age: s.age.saturating_add(1) },
            );
        }
        i += 1;
    }
    proof {
        assert(player_states@ =~= aged_states(s0));
    }
}

/// Build the world `initial_world` describes.
fn build_world(info: &SessionInfo) -> (w: World)
    requires
        info.players@.len() <= MAX_PLAYERS,
    ensures
        w@ == initial_world(info.players@),
{
    let n = info.players.len();
    let mut w = World::new();
    let mut i: usize = 0;
    while i < n
        invariant
            i <= n,
            n == info.players@.len(),
            w@.wf(),
            w@.states.len() == i,
            forall|q: int| 0 <= q < i ==> w@.states[q] == initial_world(info.players@).states[q],
            forall|q: int| 0 <= q < i ==> w@.killed[q] == initial_world(info.players@).killed[q],
            forall|q: int| 0 <= q < i ==> w@.sprites[q] == initial_world(info.players@).sprites[q],
            forall|q: int|
                0 <= q < i ==> w@.transforms[q] == initial_world(info.players@).transforms[q],
            forall|q: int|
                0 <= q < i ==> w@.animations[q] == initial_world(info.players@).animations[q],
            w@.inputs == Seq::<PlayerInput>::empty(),
            w@.audio.len() == 0,
            w@.despawns.len() == 0,
        decreases n - i,
    {
        let e = w.spawn();
        w.player_states.insert(e, PlayerState { current: STATE_IDLE, age: 0 });
        w.atlas_sprites.insert(e, AtlasSprite { flip_x: false });
        w.transforms.insert(e, Transform { translation: Position { x: 0, y: 0 } });
        w.animations.insert(e, AnimationBankSprite { current: ANIM_IDLE });
        i += 1;
    }
    let mut players: Vec<PlayerInput> = Vec::new();
    let mut p: usize = 0;
    while p < MAX_PLAYERS
        invariant
            p <= MAX_PLAYERS,
            n == info.players@.len(),
            n <= MAX_PLAYERS,
            players@.len() == p,
            forall|q: int| 0 <= q < p ==> players@[q] == initial_world(info.players@).inputs[q],
        decreases MAX_PLAYERS - p,
    {
        let active = p < n;
        let selected = if p < n {
            info.players[p]
        } else {
            KEY_NONE
        };
        players.push(
            PlayerInput {
                active,
                selected_player: selected,
                control: PlayerControl {
                    jump_pressed: false,
                    jump_just_pressed: false,
                    grab_pressed: false,
                    grab_just_pressed: false,
                    shoot_pressed: false,
                    shoot_just_pressed: false,
                    move_x: 0,
                    move_y: 0,
                    just_moved: false,
                },
                editor_input: None,
            },
        );
        p += 1;
    }
    w.player_inputs = PlayerInputs { players };
    proof {
        assert(w@.states =~= initial_world(info.players@).states);
        assert(w@.killed =~= initial_world(info.players@).killed);
        assert(w@.sprites =~= initial_world(info.players@).sprites);
        assert(w@.transforms =~= initial_world(info.players@).transforms);
        assert(w@.animations =~= initial_world(info.players@).animations);
        assert(w@.inputs =~= initial_world(info.players@).inputs);
        assert(w@.audio =~= initial_world(info.players@).audio);
        assert(w@.despawns =~= initial_world(info.players@).despawns);
    }
    w
}

/// An in-progress game session: one world, its configuration, and the count
/// of completed ticks.
pub struct Session {
    pub world: World,
    pub info: SessionInfo,
    pub tick: u64,
}

impl View for Session {
    type V = SessionModel;

    open spec fn view(&self) -> SessionModel {
        SessionModel {
            world: self.world@,
            players: self.info.players@,
            map: self.info.map,
            tick: self.tick,
        }
    }
}

impl Session {
    /// Construct a fresh session from its configuration.
    pub fn new(info: SessionInfo) -> (s: Session)
        requires
            info.players@.len() <= MAX_PLAYERS,
        ensures
            s@ == initial_session(info.players@, info.map),
            s@.wf(),
    {
        let world = build_world(&info);
        Session { world, info, tick: 0 }
    }

    /// Apply the caller's edit to the input resource: route the editor
    /// command to the first player slot, then apply each device reading in
    /// order (the last reading for a slot wins). Must be called before
    /// `advance` to take effect that tick; a later call overwrites an earlier
    /// one.
    pub fn update_input(&mut self, collectors: &Vec<CollectorInput>, editor_input: Option<EditorInput>)
        requires
            old(self)@.wf(),
            forall|j: int| 0 <= j < collectors@.len() ==> collectors@[j].player_idx < MAX_PLAYERS,
        ensures
            final(self)@.wf(),
            final(self)@.world.inputs.len() == old(self)@.world.inputs.len(),
            forall|p: int|
                0 <= p < MAX_PLAYERS ==> final(self)@.world.inputs[p].control == control_after(
                    old(self)@.world.inputs[p].control,
                    collectors@,
                    p,
                ),
            forall|p: int|
                0 <= p < MAX_PLAYERS ==> final(self)@.world.inputs[p].active == old(self)@.world.inputs[p].active,
            forall|p: int|
                0 <= p < MAX_PLAYERS ==> final(self)@.world.inputs[p].selected_player == old(self)@.world.inputs[p].selected_player,
            final(self)@.world.inputs[0].editor_input == editor_input,
            forall|p: int|
                1 <= p < MAX_PLAYERS ==> final(self)@.world.inputs[p].editor_input == old(self)@.world.inputs[p].editor_input,
            final(self)@.world.states == old(self)@.world.states,
            final(self)@.world.killed == old(self)@.world.killed,
            final(self)@.world.sprites == old(self)@.world.sprites,
            final(self)@.world.transforms == old(self)@.world.transforms,
            final(self)@.world.animations == old(self)@.world.animations,
            final(self)@.world.audio == old(self)@.world.audio,
            final(self)@.world.despawns == old(self)@.world.despawns,
            final(self)@.players == old(self)@.players,
            final(self)@.map == old(self)@.map,
            final(self)@.tick == old(self)@.tick,
    {
        let ghost s0 = self@;
        let mut rec0 = self.world.player_inputs.players[0];
        rec0.editor_input = editor_input;
        self.world.player_inputs.players.set(0, rec0);
        let ghost in1 = self.world.player_inputs@;
        let m = collectors.len();
        let mut j: usize = 0;
        while j < m
            invariant
                j <= m,
                m == collectors@.len(),
                forall|t: int| 0 <= t < m ==> collectors@[t].player_idx < MAX_PLAYERS,
                in1.len() == MAX_PLAYERS,
                self.world.player_inputs@.len() == MAX_PLAYERS,
                forall|p: int|
                    0 <= p < MAX_PLAYERS ==> self.world.player_inputs@[p].control
                        == control_after(in1[p].control, collectors@.take(j as int), p),
                forall|p: int|
                    0 <= p < MAX_PLAYERS ==> self.world.player_inputs@[p].active
                        == in1[p].active,
                forall|p: int|
                    0 <= p < MAX_PLAYERS ==> self.world.player_inputs@[p].selected_player
                        == in1[p].selected_player,
                forall|p: int|
                    0 <= p < MAX_PLAYERS ==> self.world.player_inputs@[p].editor_input
                        == in1[p].editor_input,
                self.world.player_states@ == s0.world.states,
                self.world.killed_players@ == s0.world.killed,
                self.world.atlas_sprites@ == s0.world.sprites,
                self.world.transforms@ == s0.world.transforms,
                self.world.animations@ == s0.world.animations,
                self.world.audio_events@ == s0.world.audio,
                self.world.player_events@ == s0.world.despawns,
                self.info.players@ == s0.players,
                self.info.map == s0.map,
                self.tick == s0.tick,
            decreases m - j,
        {
            let c = collectors[j];
            let mut rec = self.world.player_inputs.players[c.player_idx];
            crate::input::apply_collector_control(&mut rec.control, &c);
            self.world.player_inputs.players.set(c.player_idx, rec);
            proof {
                assert(collectors@.take(j as int + 1).drop_last() =~= collectors@.take(j as int));
                assert(collectors@.take(j as int + 1).last() == collectors@[j as int]);
            }
            j += 1;
        }
        proof {
            assert(collectors@.take(m as int) =~= collectors@);
        }
    }

    /// Run exactly one fixed-size simulation tick, in this deterministic
    /// order: the stepper's age update, the transition systems, the handler
    /// systems, the deferred despawn flush. Event queues are left populated
    /// for external draining. The whole tick is the function `advance_world`
    /// of the prior world alone, so identical worlds advance identically.
    pub fn advance(&mut self)
        requires
            old(self)@.wf(),
            old(self)@.world.players_complete(),
            old(self).tick < u64::MAX,
        ensures
            final(self)@.wf(),
            final(self)@.world == advance_world(old(self)@.world),
            final(self)@.world.players_complete(),
            final(self)@.tick == old(self)@.tick + 1,
            final(self)@.players == old(self)@.players,
            final(self)@.map == old(self)@.map,
    {
        let ghost w0 = self@.world;
        tick_player_ages(&mut self.world.player_states);
        player_state_transition(&self.world.killed_players, &mut self.world.player_states);
        proof {
            let s2 = transitioned_states(aged_states(w0.states), w0.killed);
            assert(self.world.player_states@ == s2);
            assert forall|i: int|
                0 <= i < s2.len() && crate::dead::handler_matches(
                    s2,
                    w0.killed,
                    w0.animations,
                    i,
                ) && s2[i].unwrap().current == crate::dead::ID && s2[i].unwrap().age == 0 implies
                w0.sprites[i] is Some && w0.transforms[i] is Some by {
                assert(w0.states[i] is Some);
            }
        }
        handle_player_state(
            &self.world.player_states,
            &self.world.killed_players,
            &self.world.atlas_sprites,
            &self.world.transforms,
            &mut self.world.animations,
            &mut self.world.player_events,
        );
        self.world.flush_despawns();
        self.tick = self.tick + 1;
        proof {
            assert(self@.world =~= advance_world(w0));
            crate::laws::lemma_advance_preserves_players_complete(w0);
        }
    }

    /// Discard the world state and rebuild it from the configuration: every
    /// age counter is back at zero, every transient marker (such as Killed)
    /// is gone, and the roster and map are exactly what they were.
    pub fn restart(&mut self)
        requires
            old(self)@.wf(),
        ensures
            final(self)@ == initial_session(old(self)@.players, old(self)@.map),
            final(self)@.wf(),
            final(self)@.players == old(self)@.players,
            final(self)@.map == old(self)@.map,
            forall|i: int|
                0 <= i < final(self)@.world.states.len() ==> final(self)@.world.states[i] is Some
                    && final(self)@.world.states[i].unwrap().age == 0,
            forall|i: int|
                0 <= i < final(self)@.world.killed.len() ==> final(self)@.world.killed[i] is None,
    {
        let w = build_world(&self.info);
        self.world = w;
        self.tick = 0;
        proof {
            assert(self@ =~= initial_session(self.info.players@, self.info.map));
        }
    }
}

/// True when no player slot participates.
pub open spec fn all_inactive(inputs: Seq<PlayerInput>) -> bool {
    forall|p: int| 0 <= p < inputs.len() ==> !inputs[p].active
}

/// `rec` turned into an active participant selecting `k`.
pub open spec fn activate(rec: PlayerInput, k: Key) -> PlayerInput {
    PlayerInput {
        active: true,
        selected_player: k,
        control: rec.control,
        editor_input: rec.editor_input,
    }
}

/// Host policy, not a core invariant: if the session is mid-play with no
/// active participant (as the editor can arrange), activate the first two
/// slots with the first two default roster entries.
pub fn ensure_2_players(session: &mut Session, core_players: &Vec<Key>)
    requires
        old(session)@.wf(),
        core_players@.len() >= 2,
    ensures
        final(session)@.wf(),
        all_inactive(old(session)@.world.inputs) ==> final(session)@.world.inputs == old(session)@.world.inputs.update(0, activate(old(session)@.world.inputs[0], core_players@[0])).update(
            1,
            activate(old(session)@.world.inputs[1], core_players@[1]),
        ),
        !all_inactive(old(session)@.world.inputs) ==> final(session)@.world.inputs == old(session)@.world.inputs,
        final(session)@.world.states == old(session)@.world.states,
        final(session)@.world.killed == old(session)@.world.killed,
        final(session)@.world.sprites == old(session)@.world.sprites,
        final(session)@.world.transforms == old(session)@.world.transforms,
        final(session)@.world.animations == old(session)@.world.animations,
        final(session)@.world.audio == old(session)@.world.audio,
        final(session)@.world.despawns == old(session)@.world.despawns,
        final(session)@.players == old(session)@.players,
        final(session)@.map == old(session)@.map,
        final(session)@.tick == old(session)@.tick,
{
    let ghost in0 = session@.world.inputs;
    let m = session.world.player_inputs.players.len();
    let mut all_idle = true;
    let mut p: usize = 0;
    while p < m
        invariant
            p <= m,
            m == in0.len(),
            session@ == old(session)@,
            session@.world.inputs == in0,
            all_idle <==> (forall|q: int| 0 <= q < p ==> !in0[q].active),
        decreases m - p,
    {
        if session.world.player_inputs.players[p].active {
            all_idle = false;
            proof {
                assert(in0[p as int].active);
            }
        }
        p += 1;
    }
    if all_idle {
        let mut rec0 = session.world.player_inputs.players[0];
        rec0.active = true;
        rec0.selected_player = core_players[0];
        session.world.player_inputs.players.set(0, rec0);
        let mut rec1 = session.world.player_inputs.players[1];
        rec1.active = true;
        rec1.selected_player = core_players[1];
        session.world.player_inputs.players.set(1, rec1);
    }
}

/// Helper for creating, restarting and stopping game sessions. The menu
/// camera and command plumbing of the host live with the host.
pub struct SessionManager {
    pub session: Option<Session>,
}

impl SessionManager {
    /// Whether the managed session, if any, is well-formed.
    pub open spec fn wf(self) -> bool {
        self.session is Some ==> self.session.unwrap()@.wf()
    }

    /// A manager with no session running.
    pub fn new() -> (m: SessionManager)
        ensures
            m.session is None,
            m.wf(),
    {
        SessionManager { session: None }
    }

    /// Start a game session from `info`, replacing any running one.
    pub fn start(&mut self, info: SessionInfo)
        requires
            info.players@.len() <= MAX_PLAYERS,
        ensures
            final(self).wf(),
            final(self).session is Some,
            final(self).session.unwrap()@ == initial_session(info.players@, info.map),
    {
        self.session = Some(Session::new(info));
    }

    /// Restart the running session without changing its settings; nothing
    /// happens when no session is running.
    pub fn restart(&mut self)
        requires
            old(self).wf(),
        ensures
            final(self).wf(),
            old(self).session is None ==> final(self).session is None,
            old(self).session is Some ==> final(self).session is Some && final(self).session.unwrap()@ == initial_session(
                old(self).session.unwrap()@.players,
                old(self).session.unwrap()@.map,
            ),
    {
        match &mut self.session {
            Some(s) => s.restart(),
            None => {},
        }
    }

    /// Stop the game session, if any.
    pub fn stop(&mut self)
        ensures
            final(self).wf(),
            final(self).session is None,
    {
        self.session = None;
    }
}

} // verus!
