//! Component tables: per-type sparse maps from entity to component value.

use vstd::prelude::*;
use vstd::pervasive::VecAdditionalExecFns;
use crate::components::Entity;

verus! {

/// A component table for one component type: slot `i` holds the component of
/// the entity with index `i`, or nothing when that entity lacks the component.
/// Absence is not a value; it is absence from the map.
pub struct Table<T> {
    pub slots: Vec<Option<T>>,
}

impl<T> View for Table<T> {
    type V = Seq<Option<T>>;

    open spec fn view(&self) -> Seq<Option<T>> {
        self.slots@
    }
}

impl<T> Table<T> {
    /// An empty table, for a world with no entities yet.
    pub fn new() -> (t: Table<T>)
        ensures
            t@ == Seq::<Option<T>>::empty(),
    {
        Table { slots: Vec::new() }
    }

    /// Number of entity slots (equal across all tables of one world).
    pub fn len(&self) -> (n: usize)
        ensures
            n == self@.len(),
    {
        self.slots.len()
    }

    /// Grow the table by one empty slot; a freshly spawned entity has no
    /// components.
    pub fn push_empty(&mut self)
        ensures
            final(self)@ == old(self)@.push(None::<T>),
    {
        self.slots.push(None);
    }

    /// The component of `e`, or `None` when `e` does not carry one.
    pub fn get(&self, e: Entity) -> (r: Option<&T>)
        ensures
            match r {
                Some(v) => e.idx < self@.len() && self@[e.idx as int] == Some(*v),
                None => e.idx >= self@.len() || self@[e.idx as int] is None,
            },
    {
        if e.idx < self.slots.len() {
            match &self.slots[e.idx] {
                Some(v) => Some(v),
                None => None,
            }
        } else {
            None
        }
    }

    /// Whether `e` carries a component in this table.
    pub fn contains(&self, e: Entity) -> (r: bool)
        ensures
            r == (e.idx < self@.len() && self@[e.idx as int] is Some),
    {
        if e.idx < self.slots.len() {
            self.slots[e.idx].is_some()
        } else {
            false
        }
    }

    /// Set the component of the existing entity `e` (insert or overwrite).
    pub fn insert(&mut self, e: Entity, v: T)
        requires
            e.idx < old(self)@.len(),
        ensures
            final(self)@ == old(self)@.update(e.idx as int, Some(v)),
    {
        self.slots.set(e.idx, Some(v));
    }

    /// Remove the component of the existing entity `e`, if any.
    pub fn remove(&mut self, e: Entity)
        requires
            e.idx < old(self)@.len(),
        ensures
            final(self)@ == old(self)@.update(e.idx as int, None::<T>),
    {
        self.slots.set(e.idx, None);
    }
}

} // verus!
