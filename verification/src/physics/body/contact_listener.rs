use crate::base::dispatch::{DispatchSlot, DispatchTable};
use crate::physics::body::validate_result::ValidateResult;
use vstd::prelude::*;

verus! {

/// Hears of contacts between bodies as the native engine finds, keeps and loses
/// them, and may veto a contact or adjust how it is solved.
///
/// The values that the engine passes along are its own: a listener names their
/// types, and the bridge hands them through untouched. A listener may decide by
/// more than its arguments, so what it may answer is a relation: `may_decide` for a
/// decision, `may_adjust_added` and `may_adjust_persisted` for the settings before
/// and after a call.
pub trait ContactListener {
    /// A body of the native engine.
    type Body;

    /// The offset that the positions of a collision result are relative to.
    type BaseOffset;

    /// The result of colliding two shapes.
    type CollideShapeResult;

    /// The contact points between two bodies.
    type ContactManifold;

    /// How a contact is solved; a listener may change it.
    type ContactSettings;

    /// The two sub-shapes whose contact was lost.
    type SubShapeIDPair;

    /// Whether the listener may give `decision` for this candidate contact.
    spec fn may_decide(
        &self,
        body1: Self::Body,
        body2: Self::Body,
        base_offset: Self::BaseOffset,
        collision_result: Self::CollideShapeResult,
        decision: ValidateResult,
    ) -> bool;

    /// Whether the listener may turn the settings `before` of a new contact into
    /// `after`.
    spec fn may_adjust_added(
        &self,
        body1: Self::Body,
        body2: Self::Body,
        manifold: Self::ContactManifold,
        before: Self::ContactSettings,
        after: Self::ContactSettings,
    ) -> bool;

    /// Whether the listener may turn the settings `before` of a contact that is
    /// still there into `after`.
    spec fn may_adjust_persisted(
        &self,
        body1: Self::Body,
        body2: Self::Body,
        manifold: Self::ContactManifold,
        before: Self::ContactSettings,
        after: Self::ContactSettings,
    ) -> bool;

    fn on_contact_validate(
        &self,
        body1: &Self::Body,
        body2: &Self::Body,
        base_offset: Self::BaseOffset,
        collision_result: &Self::CollideShapeResult,
    ) -> (decision: ValidateResult)
        ensures
            self.may_decide(*body1, *body2, base_offset, *collision_result, decision),
    ;

    fn on_contact_added(
        &self,
        body1: &Self::Body,
        body2: &Self::Body,
        manifold: &Self::ContactManifold,
        io_settings: &mut Self::ContactSettings,
    )
        ensures
            self.may_adjust_added(
                *body1,
                *body2,
                *manifold,
                *old(io_settings),
                *final(io_settings),
            ),
    ;

    fn on_contact_persisted(
        &self,
        body1: &Self::Body,
        body2: &Self::Body,
        manifold: &Self::ContactManifold,
        io_settings: &mut Self::ContactSettings,
    )
        ensures
            self.may_adjust_persisted(
                *body1,
                *body2,
                *manifold,
                *old(io_settings),
                *final(io_settings),
            ),
    ;

    fn on_contact_removed(&self, sub_shape_pair: &Self::SubShapeIDPair);
}

/// The slots of a contact listener's table, in the order the native engine reads
/// them. This table has no reserved header.
pub open spec fn contact_listener_slots() -> Seq<DispatchSlot> {
    seq![
        DispatchSlot::OnContactValidate,
        DispatchSlot::OnContactAdded,
        DispatchSlot::OnContactPersisted,
        DispatchSlot::OnContactRemoved,
    ]
}

/// The cell that owns a contact listener for as long as the native engine may
/// call it.
pub struct ContactListenerWrapper<L: ContactListener + ?Sized> {
    vtable: DispatchTable,
    inner: Box<L>,
}

impl<L: ContactListener + ?Sized> ContactListenerWrapper<L> {
    /// The listener that the cell owns.
    pub closed spec fn owned(&self) -> Box<L> {
        self.inner
    }

    #[verifier::type_invariant]
    spec fn table_is_of_the_family(&self) -> bool {
        self.vtable@ == contact_listener_slots()
    }

    /// Takes ownership of a listener and builds its dispatch table.
    pub fn new(inner: Box<L>) -> (cell: Self)
        ensures
            cell.owned() == inner,
    {
        let vtable = DispatchTable::new(
            vec![
                DispatchSlot::OnContactValidate,
                DispatchSlot::OnContactAdded,
                DispatchSlot::OnContactPersisted,
                DispatchSlot::OnContactRemoved,
            ],
        );
        Self { vtable, inner }
    }

    /// The cell's dispatch table: the table of its family, whatever the cell owns.
    pub fn vtable(&self) -> (table: &DispatchTable)
        ensures
            table@ == contact_listener_slots(),
    {
        proof {
            use_type_invariant(self);
        }
        &self.vtable
    }

    /// Trampoline of the slot `OnContactValidate`: asks the owned listener once
    /// and hands its decision back as the native engine's code for it.
    pub fn on_contact_validate(
        &self,
        body1: &L::Body,
        body2: &L::Body,
        base_offset: L::BaseOffset,
        collision_result: &L::CollideShapeResult,
    ) -> (code: u32)
        ensures
            ValidateResult::decode(code) matches Some(decision) && decision.code() == code
                && self.owned().may_decide(
                *body1,
                *body2,
                base_offset,
                *collision_result,
                decision,
            ),
    {
        let decision = self.inner.on_contact_validate(body1, body2, base_offset, collision_result);
        proof {
            decision.lemma_decode_inverts_code();
        }
        decision.to_raw()
    }

    /// Trampoline of the slot `OnContactAdded`: lets the owned listener adjust the
    /// settings in place, so that the native engine solves the contact with what
    /// the listener left there.
    pub fn on_contact_added(
        &self,
        body1: &L::Body,
        body2: &L::Body,
        manifold: &L::ContactManifold,
        io_settings: &mut L::ContactSettings,
    )
        ensures
            self.owned().may_adjust_added(
                *body1,
                *body2,
                *manifold,
                *old(io_settings),
                *final(io_settings),
            ),
    {
        self.inner.on_contact_added(body1, body2, manifold, io_settings)
    }

    /// Trampoline of the slot `OnContactPersisted`: lets the owned listener adjust
    /// the settings in place.
    pub fn on_contact_persisted(
        &self,
        body1: &L::Body,
        body2: &L::Body,
        manifold: &L::ContactManifold,
        io_settings: &mut L::ContactSettings,
    )
        ensures
            self.owned().may_adjust_persisted(
                *body1,
                *body2,
                *manifold,
                *old(io_settings),
                *final(io_settings),
            ),
    {
        self.inner.on_contact_persisted(body1, body2, manifold, io_settings)
    }

    /// Trampoline of the slot `OnContactRemoved`: tells the owned listener, once,
    /// of the pair whose contact was lost.
    pub fn on_contact_removed(&self, sub_shape_pair: &L::SubShapeIDPair) {
        self.inner.on_contact_removed(sub_shape_pair)
    }
}

} // verus!
