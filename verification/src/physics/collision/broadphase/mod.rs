pub mod table;
pub mod vtable;

use crate::base::dispatch::{DispatchSlot, DispatchTable};
use vstd::prelude::*;
use vtable::{
    BroadPhaseLayer, BroadPhaseLayerInterface, ObjectLayer, ObjectLayerPairFilter,
    ObjectVsBroadPhaseLayerFilter,
};

verus! {

/// The slots of a layer mapping's table, in the order the native engine reads them.
pub open spec fn broad_phase_layer_interface_slots() -> Seq<DispatchSlot> {
    seq![
        DispatchSlot::Reserved,
        DispatchSlot::GetNumBroadPhaseLayers,
        DispatchSlot::GetBroadPhaseLayer,
    ]
}

/// The slots of a filter's table, in the order the native engine reads them.
pub open spec fn layer_filter_slots() -> Seq<DispatchSlot> {
    seq![DispatchSlot::Reserved, DispatchSlot::ShouldCollide]
}

/// The cell that owns a layer mapping for as long as the native engine may call
/// it: the mapping's dispatch table and the mapping itself. Nothing changes either
/// after `new`.
pub struct BroadPhaseLayerInterfaceWrapper<
    I: BroadPhaseLayerInterface + ?Sized = dyn BroadPhaseLayerInterface,
> {
    vtable: DispatchTable,
    inner: Box<I>,
}

impl<I: BroadPhaseLayerInterface + ?Sized> BroadPhaseLayerInterfaceWrapper<I> {
    /// The mapping that the cell owns.
    pub closed spec fn owned(&self) -> Box<I> {
        self.inner
    }

    #[verifier::type_invariant]
    spec fn table_is_of_the_family(&self) -> bool {
        self.vtable@ == broad_phase_layer_interface_slots()
    }

    /// Takes ownership of a mapping and builds its dispatch table.
    pub fn new(inner: Box<I>) -> (cell: Self)
        ensures
            cell.owned() == inner,
    {
        let vtable = DispatchTable::new(
            vec![
                DispatchSlot::Reserved,
                DispatchSlot::GetNumBroadPhaseLayers,
                DispatchSlot::GetBroadPhaseLayer,
            ],
        );
        Self { vtable, inner }
    }

    /// The cell's dispatch table: the table of its family, whatever the cell owns.
    pub fn vtable(&self) -> (table: &DispatchTable)
        ensures
            table@ == broad_phase_layer_interface_slots(),
    {
        proof {
            use_type_invariant(self);
        }
        &self.vtable
    }

    /// Trampoline of the slot `GetNumBroadPhaseLayers`: the count that the owned
    /// mapping advertises.
    pub fn get_num_broad_phase_layers(&self) -> (count: u32)
        ensures
            count == self.owned().layer_count(),
    {
        self.inner.num_broad_phase_layers()
    }

    /// Trampoline of the slot `GetBroadPhaseLayer`: the owned mapping's answer for
    /// an object layer. The mapping is asked only about layers below its count.
    pub fn get_broad_phase_layer(&self, layer: ObjectLayer) -> (mapped: BroadPhaseLayer)
        requires
            layer < self.owned().layer_count(),
        ensures
            mapped == self.owned().layer_of(layer),
    {
        self.inner.broad_phase_layer(layer)
    }

    /// Trampoline of the slot `GetBroadPhaseLayer` for a caller that cannot know
    /// the mapping's count: asks the mapping for it, and gives `None`, without
    /// asking further, for a layer that is not below it.
    pub fn try_get_broad_phase_layer(&self, layer: ObjectLayer) -> (mapped: Option<BroadPhaseLayer>)
        ensures
            mapped == (if layer < self.owned().layer_count() {
                Some(self.owned().layer_of(layer))
            } else {
                None
            }),
    {
        let count: u32 = self.inner.num_broad_phase_layers();
        if (layer as u32) < count {
            Some(self.inner.broad_phase_layer(layer))
        } else {
            None
        }
    }
}

/// The cell that owns an object-versus-broad-phase filter for as long as the
/// native engine may call it.
pub struct ObjectVsBroadPhaseLayerFilterWrapper<
    F: ObjectVsBroadPhaseLayerFilter + ?Sized = dyn ObjectVsBroadPhaseLayerFilter,
> {
    vtable: DispatchTable,
    inner: Box<F>,
}

impl<F: ObjectVsBroadPhaseLayerFilter + ?Sized> ObjectVsBroadPhaseLayerFilterWrapper<F> {
    /// The filter that the cell owns.
    pub closed spec fn owned(&self) -> Box<F> {
        self.inner
    }

    #[verifier::type_invariant]
    spec fn table_is_of_the_family(&self) -> bool {
        self.vtable@ == layer_filter_slots()
    }

    /// Takes ownership of a filter and builds its dispatch table.
    pub fn new(inner: Box<F>) -> (cell: Self)
        ensures
            cell.owned() == inner,
    {
        let vtable = DispatchTable::new(vec![DispatchSlot::Reserved, DispatchSlot::ShouldCollide]);
        Self { vtable, inner }
    }

    /// The cell's dispatch table: the table of its family, whatever the cell owns.
    pub fn vtable(&self) -> (table: &DispatchTable)
        ensures
            table@ == layer_filter_slots(),
    {
        proof {
            use_type_invariant(self);
        }
        &self.vtable
    }

    /// Trampoline of the slot `ShouldCollide`: the owned filter's own decision for
    /// the two layers.
    pub fn should_collide(&self, layer1: ObjectLayer, layer2: BroadPhaseLayer) -> (decision: bool)
        requires
            self.owned().answers(layer1, layer2),
        ensures
            decision == self.owned().collides(layer1, layer2),
    {
        self.inner.should_collide(layer1, layer2)
    }
}

/// The cell that owns an object-layer pair filter for as long as the native
/// engine may call it.
pub struct ObjectLayerPairFilterWrapper<
    F: ObjectLayerPairFilter + ?Sized = dyn ObjectLayerPairFilter,
> {
    vtable: DispatchTable,
    inner: Box<F>,
}

impl<F: ObjectLayerPairFilter + ?Sized> ObjectLayerPairFilterWrapper<F> {
    /// The filter that the cell owns.
    pub closed spec fn owned(&self) -> Box<F> {
        self.inner
    }

    #[verifier::type_invariant]
    spec fn table_is_of_the_family(&self) -> bool {
        self.vtable@ == layer_filter_slots()
    }

    /// Takes ownership of a filter and builds its dispatch table.
    pub fn new(inner: Box<F>) -> (cell: Self)
        ensures
            cell.owned() == inner,
    {
        let vtable = DispatchTable::new(vec![DispatchSlot::Reserved, DispatchSlot::ShouldCollide]);
        Self { vtable, inner }
    }

    /// The cell's dispatch table: the table of its family, whatever the cell owns.
    pub fn vtable(&self) -> (table: &DispatchTable)
        ensures
            table@ == layer_filter_slots(),
    {
        proof {
            use_type_invariant(self);
        }
        &self.vtable
    }

    /// Trampoline of the slot `ShouldCollide`: the owned filter's own decision for
    /// the two layers.
    pub fn should_collide(&self, object1: ObjectLayer, object2: ObjectLayer) -> (decision: bool)
        requires
            self.owned().answers(object1, object2),
        ensures
            decision == self.owned().collides(object1, object2),
    {
        self.inner.should_collide(object1, object2)
    }
}

} // verus!
