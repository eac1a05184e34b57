//! Per-tick event and deferred-mutation queues.
//!
//! Queues are append-only within a tick. The audio queue is drained once per
//! tick by an external consumer; the despawn queue is applied in one batch by
//! the stepper at the tick's flush point.

use vstd::prelude::*;
use crate::components::{Entity, Key};

verus! {

/// An audio event produced by gameplay systems for the audio subsystem.
#[derive(Clone, Copy, PartialEq, Eq, Structural, Debug)]
pub enum AudioEvent {
    /// Play the sound asset `sound_source` at `volume`, given in thousandths
    /// of full scale.
    PlaySound { sound_source: Key, volume: u32 },
}

/// The session-wide audio event queue resource.
pub struct AudioEvents {
    pub queue: Vec<AudioEvent>,
}

impl View for AudioEvents {
    type V = Seq<AudioEvent>;

    open spec fn view(&self) -> Seq<AudioEvent> {
        self.queue@
    }
}

impl AudioEvents {
    /// A fresh, empty queue.
    pub fn new() -> (q: AudioEvents)
        ensures
            q@ == Seq::<AudioEvent>::empty(),
    {
        AudioEvents { queue: Vec::new() }
    }

    /// Append one event; within a tick the queue keeps insertion order (FIFO).
    pub fn push(&mut self, ev: AudioEvent)
        ensures
            final(self)@ == old(self)@.push(ev),
    {
        self.queue.push(ev);
    }

    /// Hand out everything pushed since the last drain, in order, and leave
    /// the queue empty; a second drain with no pushes in between yields
    /// nothing.
    pub fn drain(&mut self) -> (r: Vec<AudioEvent>)
        ensures
            r@ == old(self)@,
            final(self)@ == Seq::<AudioEvent>::empty(),
    {
        let mut r: Vec<AudioEvent> = Vec::new();
        std::mem::swap(&mut self.queue, &mut r);
        r
    }
}

/// The despawn-request queue resource: entity removals deferred to the end of
/// the tick, so that no system's view is invalidated mid-iteration.
pub struct PlayerEvents {
    pub despawns: Vec<Entity>,
}

impl View for PlayerEvents {
    type V = Seq<Entity>;

    open spec fn view(&self) -> Seq<Entity> {
        self.despawns@
    }
}

impl PlayerEvents {
    /// A fresh queue with no pending requests.
    pub fn new() -> (q: PlayerEvents)
        ensures
            q@ == Seq::<Entity>::empty(),
    {
        PlayerEvents { despawns: Vec::new() }
    }

    /// Request that `e` and all its components be removed at the tick's flush
    /// point.
    pub fn despawn(&mut self, e: Entity)
        ensures
            final(self)@ == old(self)@.push(e),
    {
        self.despawns.push(e);
    }
}

} // verus!
