use crate::base::dispatch::{DispatchSlot, DispatchTable};
use crate::physics::body::BodyId;
use vstd::prelude::*;

verus! {

/// Hears of bodies that wake up and that go to sleep.
///
/// The native engine calls an implementation from its worker threads. What the
/// implementation does with an event is its own affair: the methods return
/// nothing, and nothing is claimed of them.
pub trait BodyActivationListener {
    fn on_body_activated(&self, body_id: BodyId, user_data: u64);

    fn on_body_deactivated(&self, body_id: BodyId, user_data: u64);
}

/// The slots of an activation listener's table, in the order the native engine
/// reads them.
pub open spec fn body_activation_listener_slots() -> Seq<DispatchSlot> {
    seq![DispatchSlot::Reserved, DispatchSlot::OnBodyActivated, DispatchSlot::OnBodyDeactivated]
}

/// The cell that owns an activation listener for as long as the native engine may
/// call it.
pub struct BodyActivationListenerWrapper<
    L: BodyActivationListener + ?Sized = dyn BodyActivationListener,
> {
    vtable: DispatchTable,
    inner: Box<L>,
}

impl<L: BodyActivationListener + ?Sized> BodyActivationListenerWrapper<L> {
    /// The listener that the cell owns.
    pub closed spec fn owned(&self) -> Box<L> {
        self.inner
    }

    #[verifier::type_invariant]
    spec fn table_is_of_the_family(&self) -> bool {
        self.vtable@ == body_activation_listener_slots()
    }

    /// Takes ownership of a listener and builds its dispatch table.
    pub fn new(inner: Box<L>) -> (cell: Self)
        ensures
            cell.owned() == inner,
    {
        let vtable = DispatchTable::new(
            vec![
                DispatchSlot::Reserved,
                DispatchSlot::OnBodyActivated,
                DispatchSlot::OnBodyDeactivated,
            ],
        );
        Self { vtable, inner }
    }

    /// The cell's dispatch table: the table of its family, whatever the cell owns.
    pub fn vtable(&self) -> (table: &DispatchTable)
        ensures
            table@ == body_activation_listener_slots(),
    {
        proof {
            use_type_invariant(self);
        }
        &self.vtable
    }

    /// Trampoline of the slot `OnBodyActivated`: tells the owned listener, once,
    /// of the body and its user data.
    pub fn on_body_activated(&self, body_id: BodyId, user_data: u64) {
        self.inner.on_body_activated(body_id, user_data)
    }

    /// Trampoline of the slot `OnBodyDeactivated`: tells the owned listener,
    /// once, of the body and its user data.
    pub fn on_body_deactivated(&self, body_id: BodyId, user_data: u64) {
        self.inner.on_body_deactivated(body_id, user_data)
    }
}

} // verus!
