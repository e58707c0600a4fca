use vstd::prelude::*;

verus! {

/// Identifier of a collision layer that bodies are assigned to.
pub type ObjectLayer = u16;

/// Identifier of a layer of the broad phase, the coarse partition that object
/// layers are mapped into.
pub type BroadPhaseLayer = u8;

/// Decides whether bodies of two object layers may collide.
///
/// The native engine calls an implementation from its worker threads, so the
/// decision is a function of the two layers alone, named here `collides`. The
/// engine passes only layers of the domain that the implementation `answers`.
pub trait ObjectLayerPairFilter {
    /// The pairs of layers that this filter has an answer for.
    spec fn answers(&self, object1: ObjectLayer, object2: ObjectLayer) -> bool;

    /// The decision for a pair of layers.
    spec fn collides(&self, object1: ObjectLayer, object2: ObjectLayer) -> bool;

    fn should_collide(&self, object1: ObjectLayer, object2: ObjectLayer) -> (decision: bool)
        requires
            self.answers(object1, object2),
        ensures
            decision == self.collides(object1, object2),
    ;
}

/// Maps each object layer to the broad-phase layer that holds its bodies.
///
/// The mapping is a function, named here `layer_of`, that is defined on the layers
/// below `layer_count`.
pub trait BroadPhaseLayerInterface {
    /// The number of layers that this mapping advertises.
    spec fn layer_count(&self) -> u32;

    /// The broad-phase layer of an object layer.
    spec fn layer_of(&self, layer: ObjectLayer) -> BroadPhaseLayer;

    fn num_broad_phase_layers(&self) -> (count: u32)
        ensures
            count == self.layer_count(),
    ;

    fn broad_phase_layer(&self, layer: ObjectLayer) -> (mapped: BroadPhaseLayer)
        requires
            layer < self.layer_count(),
        ensures
            mapped == self.layer_of(layer),
    ;
}

/// Decides whether bodies of an object layer may collide with anything in a
/// broad-phase layer.
pub trait ObjectVsBroadPhaseLayerFilter {
    /// The pairs of layers that this filter has an answer for.
    spec fn answers(&self, layer1: ObjectLayer, layer2: BroadPhaseLayer) -> bool;

    /// The decision for an object layer and a broad-phase layer.
    spec fn collides(&self, layer1: ObjectLayer, layer2: BroadPhaseLayer) -> bool;

    fn should_collide(&self, layer1: ObjectLayer, layer2: BroadPhaseLayer) -> (decision: bool)
        requires
            self.answers(layer1, layer2),
        ensures
            decision == self.collides(layer1, layer2),
    ;
}

/// Decides whether a query looks into a broad-phase layer at all.
pub trait BroadPhaseLayerFilter {
    /// The layers that this filter has an answer for.
    spec fn answers(&self, layer: BroadPhaseLayer) -> bool;

    /// The decision for a broad-phase layer.
    spec fn collides(&self, layer: BroadPhaseLayer) -> bool;

    fn should_collide(&self, layer: BroadPhaseLayer) -> (decision: bool)
        requires
            self.answers(layer),
        ensures
            decision == self.collides(layer),
    ;
}

} // verus!
