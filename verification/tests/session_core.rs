use jumpy_session::components::{
    AnimationBankSprite, AtlasSprite, Entity, PlayerKilled, PlayerState, Position, Transform,
    ANIM_DEATH_BELLY, ANIM_DEATH_SPINE, ANIM_IDLE, STATE_IDLE,
};
use jumpy_session::dead::{
    handle_player_state, pick_death_animation, player_state_transition, DESPAWN_AGE, ID,
};
use jumpy_session::input::{CollectorInput, EditorInput};
use jumpy_session::queues::{AudioEvent, AudioEvents};
use jumpy_session::session::{ensure_2_players, Session, SessionInfo, SessionManager};
use jumpy_session::world::World;

fn one_player_session() -> Session {
    Session::new(SessionInfo { players: vec![10], map: 99 })
}

fn reading(player_idx: usize, jump: bool, mx: i64) -> CollectorInput {
    CollectorInput {
        player_idx,
        jump,
        grab: false,
        shoot: false,
        move_x: mx,
        move_y: 0,
    }
}

#[test]
fn untouched_state_ages_by_one_per_tick() {
    let mut s = one_player_session();
    let e = Entity { idx: 0 };
    assert_eq!(
        s.world.player_states.get(e),
        Some(&PlayerState { current: STATE_IDLE, age: 0 })
    );
    s.advance();
    assert_eq!(
        s.world.player_states.get(e),
        Some(&PlayerState { current: STATE_IDLE, age: 1 })
    );
    s.advance();
    assert_eq!(
        s.world.player_states.get(e),
        Some(&PlayerState { current: STATE_IDLE, age: 2 })
    );
}

#[test]
fn killed_enters_dead_with_age_zero() {
    let mut s = one_player_session();
    let e = Entity { idx: 0 };
    s.world.killed_players.insert(e, PlayerKilled { hit_from: None });
    s.advance();
    assert_eq!(s.world.player_states.get(e), Some(&PlayerState { current: ID, age: 0 }));
    assert_eq!(
        s.world.animations.get(e),
        Some(&AnimationBankSprite { current: ANIM_DEATH_BELLY })
    );
}

#[test]
fn dead_transition_non_reentrant_age_keeps_counting() {
    let mut s = one_player_session();
    let e = Entity { idx: 0 };
    s.world.killed_players.insert(e, PlayerKilled { hit_from: None });
    s.advance();
    s.advance();
    // The marker is still attached, but the transition does not re-fire and
    // reset the age: the dead state is terminal and its age keeps counting.
    assert_eq!(s.world.player_states.get(e), Some(&PlayerState { current: ID, age: 1 }));
}

#[test]
fn death_animation_no_hit_origin_is_belly() {
    assert_eq!(pick_death_animation(false, 0, None), ANIM_DEATH_BELLY);
    assert_eq!(pick_death_animation(true, 0, None), ANIM_DEATH_BELLY);
}

#[test]
fn death_animation_facing_right_hit_from_right_is_spine() {
    assert_eq!(
        pick_death_animation(false, 0, Some(Position { x: 5, y: 0 })),
        ANIM_DEATH_SPINE
    );
}

#[test]
fn death_animation_facing_right_hit_from_left_is_belly() {
    assert_eq!(
        pick_death_animation(false, 0, Some(Position { x: -5, y: 0 })),
        ANIM_DEATH_BELLY
    );
}

#[test]
fn death_animation_facing_left_hit_from_left_is_spine() {
    assert_eq!(
        pick_death_animation(true, 0, Some(Position { x: -5, y: 0 })),
        ANIM_DEATH_SPINE
    );
}

#[test]
fn death_animation_facing_left_hit_from_right_is_belly() {
    assert_eq!(
        pick_death_animation(true, 0, Some(Position { x: 5, y: 0 })),
        ANIM_DEATH_BELLY
    );
}

#[test]
fn handler_picks_animation_from_hit_origin() {
    let mut s = one_player_session();
    let e = Entity { idx: 0 };
    // Facing right (unflipped sprite), struck from the right.
    s.world
        .killed_players
        .insert(e, PlayerKilled { hit_from: Some(Position { x: 7, y: 0 }) });
    s.advance();
    assert_eq!(
        s.world.animations.get(e),
        Some(&AnimationBankSprite { current: ANIM_DEATH_SPINE })
    );
}

#[test]
fn despawn_exactly_at_the_age_boundary() {
    let mut s = one_player_session();
    let e = Entity { idx: 0 };
    s.world.killed_players.insert(e, PlayerKilled { hit_from: None });
    s.advance();
    assert_eq!(s.world.player_states.get(e), Some(&PlayerState { current: ID, age: 0 }));
    for _ in 0..(DESPAWN_AGE - 1) {
        s.advance();
    }
    // One tick short of the boundary: still there, age 79.
    assert_eq!(
        s.world.player_states.get(e),
        Some(&PlayerState { current: ID, age: DESPAWN_AGE - 1 })
    );
    s.advance();
    // At the boundary the despawn is requested and flushed: every component
    // of the entity is gone.
    assert_eq!(s.world.player_states.get(e), None);
    assert_eq!(s.world.killed_players.get(e), None);
    assert!(s.world.animations.get(e).is_none());
    assert!(s.world.atlas_sprites.get(e).is_none());
    assert!(s.world.transforms.get(e).is_none());
}

#[test]
fn drain_twice_second_yields_nothing() {
    let mut q = AudioEvents::new();
    q.push(AudioEvent::PlaySound { sound_source: 40, volume: 500 });
    q.push(AudioEvent::PlaySound { sound_source: 41, volume: 1000 });
    let first = q.drain();
    assert_eq!(
        first,
        vec![
            AudioEvent::PlaySound { sound_source: 40, volume: 500 },
            AudioEvent::PlaySound { sound_source: 41, volume: 1000 },
        ]
    );
    let second = q.drain();
    assert!(second.is_empty());
}

#[test]
fn advance_leaves_audio_queue_for_external_draining() {
    let mut s = one_player_session();
    s.world.audio_events.push(AudioEvent::PlaySound { sound_source: 3, volume: 250 });
    s.advance();
    let drained = s.world.audio_events.drain();
    assert_eq!(drained.len(), 1);
    assert!(s.world.audio_events.drain().is_empty());
}

#[test]
fn restart_resets_ages_and_markers_keeps_roster() {
    let mut s = Session::new(SessionInfo { players: vec![7, 8], map: 3 });
    let e0 = Entity { idx: 0 };
    let e1 = Entity { idx: 1 };
    s.advance();
    s.advance();
    s.advance();
    s.world.killed_players.insert(e0, PlayerKilled { hit_from: None });
    s.advance();
    assert_eq!(s.world.player_states.get(e0), Some(&PlayerState { current: ID, age: 0 }));
    s.restart();
    assert_eq!(s.tick, 0);
    assert_eq!(s.info.players, vec![7, 8]);
    assert_eq!(
        s.world.player_states.get(e0),
        Some(&PlayerState { current: STATE_IDLE, age: 0 })
    );
    assert_eq!(
        s.world.player_states.get(e1),
        Some(&PlayerState { current: STATE_IDLE, age: 0 })
    );
    assert_eq!(s.world.killed_players.get(e0), None);
    assert_eq!(s.world.killed_players.get(e1), None);
    assert!(s.world.player_inputs.players[0].active);
    assert_eq!(s.world.player_inputs.players[0].selected_player, 7);
    assert!(s.world.player_inputs.players[1].active);
    assert_eq!(s.world.player_inputs.players[1].selected_player, 8);
    assert!(!s.world.player_inputs.players[2].active);
}

fn assert_sessions_equal(a: &Session, b: &Session) {
    assert_eq!(a.tick, b.tick);
    let n = a.world.player_states.len();
    assert_eq!(n, b.world.player_states.len());
    for idx in 0..n {
        let e = Entity { idx };
        assert_eq!(a.world.player_states.get(e), b.world.player_states.get(e));
        assert_eq!(
            a.world.killed_players.get(e).is_some(),
            b.world.killed_players.get(e).is_some()
        );
        assert_eq!(a.world.atlas_sprites.get(e), b.world.atlas_sprites.get(e));
        assert_eq!(a.world.transforms.get(e), b.world.transforms.get(e));
        assert_eq!(a.world.animations.get(e), b.world.animations.get(e));
    }
    let m = a.world.player_inputs.players.len();
    assert_eq!(m, b.world.player_inputs.players.len());
    for p in 0..m {
        let ra = &a.world.player_inputs.players[p];
        let rb = &b.world.player_inputs.players[p];
        assert_eq!(ra.active, rb.active);
        assert_eq!(ra.selected_player, rb.selected_player);
        assert_eq!(ra.control, rb.control);
        assert_eq!(ra.editor_input, rb.editor_input);
    }
}

#[test]
fn determinism_identical_runs_bit_identical_states() {
    let info_a = SessionInfo { players: vec![7, 8], map: 3 };
    let info_b = SessionInfo { players: vec![7, 8], map: 3 };
    let mut a = Session::new(info_a);
    let mut b = Session::new(info_b);
    for t in 0..100u64 {
        let readings = vec![
            reading(0, t % 3 == 0, (t % 5) as i64),
            reading(1, t % 2 == 0, -((t % 7) as i64)),
        ];
        a.update_input(&readings, None);
        b.update_input(&readings, None);
        if t == 20 {
            let hit = PlayerKilled { hit_from: Some(Position { x: -4, y: 1 }) };
            a.world.killed_players.insert(Entity { idx: 1 }, hit);
            b.world.killed_players.insert(Entity { idx: 1 }, hit);
        }
        a.advance();
        b.advance();
        assert_sessions_equal(&a, &b);
    }
}

#[test]
fn update_input_computes_just_pressed_edges() {
    let mut s = one_player_session();
    s.update_input(&vec![reading(0, true, 5)], None);
    let c = s.world.player_inputs.players[0].control;
    assert!(c.jump_pressed && c.jump_just_pressed);
    assert!(c.just_moved);
    s.update_input(&vec![reading(0, true, 5)], None);
    let c = s.world.player_inputs.players[0].control;
    assert!(c.jump_pressed && !c.jump_just_pressed);
    assert!(!c.just_moved);
    s.update_input(&vec![reading(0, false, 0)], None);
    let c = s.world.player_inputs.players[0].control;
    assert!(!c.jump_pressed && !c.jump_just_pressed);
    assert!(!c.just_moved);
}

#[test]
fn update_input_last_writer_wins_and_routes_editor_input() {
    let mut s = one_player_session();
    let readings = vec![reading(0, true, 0), reading(0, false, 0)];
    s.update_input(&readings, Some(EditorInput { command: 42 }));
    let rec = &s.world.player_inputs.players[0];
    assert!(!rec.control.jump_pressed);
    assert_eq!(rec.editor_input, Some(EditorInput { command: 42 }));
    s.update_input(&vec![], None);
    assert_eq!(s.world.player_inputs.players[0].editor_input, None);
}

#[test]
fn ensure_2_players_activates_default_pair() {
    let mut s = Session::new(SessionInfo { players: vec![], map: 1 });
    ensure_2_players(&mut s, &vec![11, 22, 33]);
    assert!(s.world.player_inputs.players[0].active);
    assert_eq!(s.world.player_inputs.players[0].selected_player, 11);
    assert!(s.world.player_inputs.players[1].active);
    assert_eq!(s.world.player_inputs.players[1].selected_player, 22);
    assert!(!s.world.player_inputs.players[2].active);
    assert!(!s.world.player_inputs.players[3].active);
}

#[test]
fn ensure_2_players_leaves_active_rosters_alone() {
    let mut s = Session::new(SessionInfo { players: vec![5], map: 1 });
    ensure_2_players(&mut s, &vec![11, 22]);
    assert!(s.world.player_inputs.players[0].active);
    assert_eq!(s.world.player_inputs.players[0].selected_player, 5);
    assert!(!s.world.player_inputs.players[1].active);
}

#[test]
fn storage_spawn_insert_get_remove() {
    let mut w = World::new();
    let e = w.spawn();
    assert_eq!(e.idx, 0);
    assert_eq!(w.transforms.get(e), None);
    assert!(!w.transforms.contains(e));
    w.transforms
        .insert(e, Transform { translation: Position { x: 4, y: -2 } });
    assert!(w.transforms.contains(e));
    assert_eq!(
        w.transforms.get(e),
        Some(&Transform { translation: Position { x: 4, y: -2 } })
    );
    w.transforms.remove(e);
    assert_eq!(w.transforms.get(e), None);
    let e2 = w.spawn();
    assert_eq!(e2.idx, 1);
    assert_eq!(w.player_states.len(), 2);
    // Out-of-range lookups are absences, not errors.
    assert_eq!(w.player_states.get(Entity { idx: 9 }), None);
}

#[test]
fn despawn_is_deferred_until_the_flush_point() {
    let mut s = one_player_session();
    let e = Entity { idx: 0 };
    s.world.despawn(e);
    // Still present: the request sits in the queue until the tick flushes.
    assert!(s.world.player_states.get(e).is_some());
    assert_eq!(s.world.player_events.despawns, vec![e]);
    s.advance();
    assert_eq!(s.world.player_states.get(e), None);
    assert!(s.world.player_events.despawns.is_empty());
}

#[test]
fn handler_requests_despawn_for_long_dead_entities() {
    let mut s = one_player_session();
    let e = Entity { idx: 0 };
    s.world
        .player_states
        .insert(e, PlayerState { current: ID, age: DESPAWN_AGE });
    s.world.killed_players.insert(e, PlayerKilled { hit_from: None });
    let world = &mut s.world;
    handle_player_state(
        &world.player_states,
        &world.killed_players,
        &world.atlas_sprites,
        &world.transforms,
        &mut world.animations,
        &mut world.player_events,
    );
    assert_eq!(world.player_events.despawns, vec![e]);
}

#[test]
fn transition_resets_age_and_spares_the_unkilled() {
    let mut s = Session::new(SessionInfo { players: vec![7, 8], map: 3 });
    let e0 = Entity { idx: 0 };
    let e1 = Entity { idx: 1 };
    s.world
        .player_states
        .insert(e0, PlayerState { current: STATE_IDLE, age: 17 });
    s.world.killed_players.insert(e0, PlayerKilled { hit_from: None });
    let world = &mut s.world;
    player_state_transition(&world.killed_players, &mut world.player_states);
    assert_eq!(world.player_states.get(e0), Some(&PlayerState { current: ID, age: 0 }));
    assert_eq!(
        world.player_states.get(e1),
        Some(&PlayerState { current: STATE_IDLE, age: 0 })
    );
}

#[test]
fn manager_start_restart_stop() {
    let mut m = SessionManager::new();
    assert!(m.session.is_none());
    m.restart();
    assert!(m.session.is_none());
    m.start(SessionInfo { players: vec![10, 20], map: 1 });
    {
        let s = m.session.as_mut().unwrap();
        assert_eq!(s.tick, 0);
        s.advance();
        assert_eq!(s.tick, 1);
    }
    m.restart();
    {
        let s = m.session.as_ref().unwrap();
        assert_eq!(s.tick, 0);
        assert_eq!(s.info.players, vec![10, 20]);
    }
    m.stop();
    assert!(m.session.is_none());
}

#[test]
fn fresh_session_matches_its_configuration() {
    let s = Session::new(SessionInfo { players: vec![6, 7, 9], map: 2 });
    assert_eq!(s.world.player_states.len(), 3);
    for idx in 0..3 {
        let e = Entity { idx };
        assert_eq!(
            s.world.animations.get(e),
            Some(&AnimationBankSprite { current: ANIM_IDLE })
        );
        assert_eq!(s.world.atlas_sprites.get(e), Some(&AtlasSprite { flip_x: false }));
        assert_eq!(
            s.world.transforms.get(e),
            Some(&Transform { translation: Position { x: 0, y: 0 } })
        );
    }
    assert_eq!(s.world.player_inputs.players.len(), 4);
    assert!(s.world.player_inputs.players[2].active);
    assert!(!s.world.player_inputs.players[3].active);
}
