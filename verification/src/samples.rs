use crate::physics::collision::broadphase::vtable::{
    BroadPhaseLayer, BroadPhaseLayerInterface, ObjectLayer, ObjectLayerPairFilter,
    ObjectVsBroadPhaseLayerFilter,
};
use vstd::prelude::*;

verus! {

/// Object layer of the bodies that never move.
pub const OLAYER_NON_MOVING: ObjectLayer = 0;

/// Object layer of the bodies that move.
pub const OLAYER_MOVING: ObjectLayer = 1;

/// Broad-phase layer of the bodies that never move.
pub const BLAYER_NON_MOVING: BroadPhaseLayer = 0;

/// Broad-phase layer of the bodies that move.
pub const BLAYER_MOVING: BroadPhaseLayer = 1;

/// The number of broad-phase layers.
pub const BLAYER_COUNT: u32 = 2;

/// Pair filter of a world with two object layers: moving bodies collide with
/// everything, bodies that never move only with moving ones.
pub struct OLayerPairInterfaceImpl;

impl ObjectLayerPairFilter for OLayerPairInterfaceImpl {
    open spec fn answers(&self, object1: ObjectLayer, object2: ObjectLayer) -> bool {
        object1 == OLAYER_NON_MOVING || object1 == OLAYER_MOVING
    }

    open spec fn collides(&self, object1: ObjectLayer, object2: ObjectLayer) -> bool {
        object1 == OLAYER_MOVING || object2 == OLAYER_MOVING
    }

    fn should_collide(&self, object1: ObjectLayer, object2: ObjectLayer) -> (decision: bool) {
        if object1 == OLAYER_NON_MOVING {
            object2 == OLAYER_MOVING
        } else {
            true
        }
    }
}

/// Filter between the two object layers and the two broad-phase layers: moving
/// bodies look into both broad-phase layers, bodies that never move only into the
/// moving one.
pub struct ObjectVsBroadPhaseLayerFilterImpl;

impl ObjectVsBroadPhaseLayerFilter for ObjectVsBroadPhaseLayerFilterImpl {
    open spec fn answers(&self, layer1: ObjectLayer, layer2: BroadPhaseLayer) -> bool {
        layer1 == OLAYER_NON_MOVING || layer1 == OLAYER_MOVING
    }

    open spec fn collides(&self, layer1: ObjectLayer, layer2: BroadPhaseLayer) -> bool {
        layer1 == OLAYER_MOVING || layer2 == BLAYER_MOVING
    }

    fn should_collide(&self, layer1: ObjectLayer, layer2: BroadPhaseLayer) -> (decision: bool) {
        if layer1 == OLAYER_NON_MOVING {
            layer2 == BLAYER_MOVING
        } else {
            true
        }
    }
}

/// Mapping of the two object layers to the broad-phase layers of the same kind.
pub struct BroadPhaseLayerInterfaceImpl;

impl BroadPhaseLayerInterface for BroadPhaseLayerInterfaceImpl {
    open spec fn layer_count(&self) -> u32 {
        BLAYER_COUNT
    }

    open spec fn layer_of(&self, layer: ObjectLayer) -> BroadPhaseLayer {
        if layer == OLAYER_NON_MOVING {
            BLAYER_NON_MOVING
        } else {
            BLAYER_MOVING
        }
    }

    fn num_broad_phase_layers(&self) -> (count: u32) {
        BLAYER_COUNT
    }

    fn broad_phase_layer(&self, layer: ObjectLayer) -> (mapped: BroadPhaseLayer) {
        let table: [BroadPhaseLayer; 2] = [BLAYER_NON_MOVING, BLAYER_MOVING];
        table[layer as usize]
    }
}

} // verus!
