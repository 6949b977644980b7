//! A hand-rolled entity record: an index plus a presence list for its two
//! component slots.

use vstd::prelude::*;

verus! {

/// One entity of the population store: its index and which of its two
/// component slots are occupied.
pub struct Entity {
    id: usize,
    components_list: Vec<bool>,
}

impl Entity {
    /// The index this entity was created with.
    pub closed spec fn spec_id(self) -> usize {
        self.id
    }

    /// Occupancy of the component slots.
    pub closed spec fn spec_components(self) -> Seq<bool> {
        self.components_list@
    }

    /// Creates an entity under the given index with both component slots
    /// marked occupied.
    pub fn new(id: usize) -> (r: Entity)
        ensures
            r.spec_id() == id,
            r.spec_components() =~= seq![true, true],
    {
        let mut components_list = Vec::with_capacity(2);
        components_list.push(true);
        components_list.push(true);
        Entity { id, components_list }
    }

    /// Placeholder for attaching a further component; the slot layout is
    /// fixed, so the entity is left as it is.
    pub fn add_component(&mut self)
        ensures
            *final(self) == *old(self),
    {
    }

    /// Reads the index back.
    pub fn id(&self) -> (r: usize)
        ensures
            r == self.spec_id(),
    {
        self.id
    }

    /// How many component slots the entity carries.
    pub fn component_count(&self) -> (r: usize)
        ensures
            r == self.spec_components().len(),
    {
        self.components_list.len()
    }
}

} // verus!
