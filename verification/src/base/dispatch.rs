use vstd::prelude::*;

verus! {

/// One slot of a dispatch table: the operation whose trampoline the native engine
/// finds at that place.
#[derive(Clone, Copy, Debug, PartialEq, Eq, Structural)]
pub enum DispatchSlot {
    /// The header that the native engine reserves at the start of some tables. It
    /// holds no trampoline.
    Reserved,
    GetNumBroadPhaseLayers,
    GetBroadPhaseLayer,
    ShouldCollide,
    OnBodyActivated,
    OnBodyDeactivated,
    OnContactValidate,
    OnContactAdded,
    OnContactPersisted,
    OnContactRemoved,
}

/// The fixed-order table of operations that a callback family hands to the native
/// engine. It is built once, with the cell that owns it, and never changes.
pub struct DispatchTable {
    slots: Vec<DispatchSlot>,
}

impl View for DispatchTable {
    type V = Seq<DispatchSlot>;

    closed spec fn view(&self) -> Seq<DispatchSlot> {
        self.slots@
    }
}

impl DispatchTable {
    /// A table with the given slots, in their order.
    pub fn new(slots: Vec<DispatchSlot>) -> (table: Self)
        ensures
            table@ == slots@,
    {
        DispatchTable { slots }
    }

    /// The number of slots, the reserved header counted.
    pub fn len(&self) -> (n: usize)
        ensures
            n == self@.len(),
    {
        self.slots.len()
    }

    /// The operation at a place of the table, or `None` past its end.
    pub fn slot(&self, index: usize) -> (slot: Option<DispatchSlot>)
        ensures
            slot == (if index < self@.len() {
                Some(self@[index as int])
            } else {
                None
            }),
    {
        if index < self.slots.len() {
            Some(self.slots[index])
        } else {
            None
        }
    }
}

} // verus!
