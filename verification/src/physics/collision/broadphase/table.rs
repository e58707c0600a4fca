use crate::physics::collision::broadphase::vtable::{
    BroadPhaseLayer, BroadPhaseLayerInterface, ObjectLayer,
};
use vstd::prelude::*;

verus! {

/// The most entries that a mapping table can have: one for each object layer.
pub const MAX_OBJECT_LAYERS: usize = 65536;

/// A layer mapping that is read from a table: the entry at an object layer's index
/// is its broad-phase layer, and the count that the mapping advertises is the
/// number of entries.
pub struct BroadPhaseLayerTable {
    layers: Vec<BroadPhaseLayer>,
}

impl View for BroadPhaseLayerTable {
    type V = Seq<BroadPhaseLayer>;

    closed spec fn view(&self) -> Seq<BroadPhaseLayer> {
        self.layers@
    }
}

impl BroadPhaseLayerTable {
    #[verifier::type_invariant]
    spec fn fits(&self) -> bool {
        self.layers@.len() <= MAX_OBJECT_LAYERS
    }

    /// The mapping that a table of broad-phase layers describes, or `None` where
    /// the table has more entries than there are object layers.
    pub fn new(layers: Vec<BroadPhaseLayer>) -> (table: Option<Self>)
        ensures
            layers@.len() <= MAX_OBJECT_LAYERS ==> table is Some && table->Some_0@ == layers@,
            layers@.len() > MAX_OBJECT_LAYERS ==> table is None,
    {
        if layers.len() <= MAX_OBJECT_LAYERS {
            Some(BroadPhaseLayerTable { layers })
        } else {
            None
        }
    }

    /// The number of entries, which is never more than there are object layers.
    pub fn len(&self) -> (n: usize)
        ensures
            n == self@.len(),
            n <= MAX_OBJECT_LAYERS,
    {
        proof {
            use_type_invariant(self);
        }
        self.layers.len()
    }
}

impl BroadPhaseLayerInterface for BroadPhaseLayerTable {
    open spec fn layer_count(&self) -> u32 {
        self@.len() as u32
    }

    open spec fn layer_of(&self, layer: ObjectLayer) -> BroadPhaseLayer {
        self@[layer as int]
    }

    fn num_broad_phase_layers(&self) -> (count: u32) {
        proof {
            use_type_invariant(self);
        }
        self.layers.len() as u32
    }

    fn broad_phase_layer(&self, layer: ObjectLayer) -> (mapped: BroadPhaseLayer) {
        proof {
            use_type_invariant(self);
        }
        self.layers[layer as usize]
    }
}

} // verus!
