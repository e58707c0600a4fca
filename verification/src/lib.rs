pub mod base;
pub mod physics;
pub mod samples;

pub use base::configuration::ConfigurationFeatures;
pub use base::dispatch::{DispatchSlot, DispatchTable};
pub use base::vec3::to_fixed_vec3;
pub use physics::activation::Activation;
pub use physics::body::allowed_dofs::AllowedDOFs;
pub use physics::body::body_activation_listener::{
    BodyActivationListener, BodyActivationListenerWrapper,
};
pub use physics::body::contact_listener::{ContactListener, ContactListenerWrapper};
pub use physics::body::creation_settings::{
    BodyCreationOptions, CollisionGroupIds, NativeBodyCreationOptions,
    COLLISION_GROUP_INVALID_GROUP, COLLISION_GROUP_INVALID_SUB_GROUP,
};
pub use physics::body::motion::{MotionQuality, MotionType};
pub use physics::body::override_mass::OverrideMassProperties;
pub use physics::body::validate_result::ValidateResult;
pub use physics::body::BodyId;
pub use physics::collision::broadphase::table::{BroadPhaseLayerTable, MAX_OBJECT_LAYERS};
pub use physics::collision::broadphase::vtable::{
    BroadPhaseLayer, BroadPhaseLayerFilter, BroadPhaseLayerInterface, ObjectLayer,
    ObjectLayerPairFilter, ObjectVsBroadPhaseLayerFilter,
};
pub use physics::collision::broadphase::{
    BroadPhaseLayerInterfaceWrapper, ObjectLayerPairFilterWrapper,
    ObjectVsBroadPhaseLayerFilterWrapper,
};
pub use physics::collision::shape::kinds::{ShapeSubType, ShapeType};
