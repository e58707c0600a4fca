use crate::physics::body::allowed_dofs::AllowedDOFs;
use crate::physics::body::motion::{MotionQuality, MotionType};
use crate::physics::body::override_mass::OverrideMassProperties;
use crate::physics::collision::broadphase::vtable::ObjectLayer;
use vstd::prelude::*;

verus! {

/// The group identifier of a body that belongs to no collision group.
pub const COLLISION_GROUP_INVALID_GROUP: u32 = 0xffff_ffff;

/// The sub-group identifier of a body that belongs to no collision group.
pub const COLLISION_GROUP_INVALID_SUB_GROUP: u32 = 0xffff_ffff;

/// The collision group and sub-group of a body.
#[derive(Clone, Copy, Debug, PartialEq, Eq, Structural)]
pub struct CollisionGroupIds {
    pub group_id: u32,
    pub sub_group_id: u32,
}

/// The settings of a new body that are whole numbers, flags and choices. Position,
/// velocities, material constants and the shape are kept beside them by the
/// caller.
#[derive(Clone, Copy, Debug, PartialEq, Eq, Structural)]
pub struct BodyCreationOptions {
    pub user_data: u64,
    pub object_layer: ObjectLayer,
    pub collision_group: CollisionGroupIds,
    pub motion_type: MotionType,
    pub allowed_dofs: AllowedDOFs,
    pub allow_dynamic_or_kinematic: bool,
    pub is_sensor: bool,
    pub collide_kinematic_vs_non_dynamic: bool,
    pub use_manifold_reduction: bool,
    pub apply_gyroscopic_force: bool,
    pub motion_quality: MotionQuality,
    pub enhanced_internal_edge_removal: bool,
    pub allow_sleeping: bool,
    pub num_velocity_steps_override: u32,
    pub num_position_steps_override: u32,
    pub override_mass_properties: OverrideMassProperties,
}

/// `BodyCreationOptions` as the native engine reads them: every choice by its
/// code, the allowed degrees of freedom by their mask.
#[derive(Clone, Copy, Debug, PartialEq, Eq, Structural)]
pub struct NativeBodyCreationOptions {
    pub user_data: u64,
    pub object_layer: ObjectLayer,
    pub group_id: u32,
    pub sub_group_id: u32,
    pub motion_type: u8,
    pub allowed_dofs: u8,
    pub allow_dynamic_or_kinematic: bool,
    pub is_sensor: bool,
    pub collide_kinematic_vs_non_dynamic: bool,
    pub use_manifold_reduction: bool,
    pub apply_gyroscopic_force: bool,
    pub motion_quality: u8,
    pub enhanced_internal_edge_removal: bool,
    pub allow_sleeping: bool,
    pub num_velocity_steps_override: u32,
    pub num_position_steps_override: u32,
    pub override_mass_properties: u8,
}

impl BodyCreationOptions {
    /// The options of a body of the given motion type and layer for which nothing
    /// else was chosen: free in every degree, in no collision group, no sensor,
    /// swept discretely, allowed to sleep, with mass and inertia computed from the
    /// shape.
    pub open spec fn defaults(motion_type: MotionType, object_layer: ObjectLayer) -> Self {
        BodyCreationOptions {
            user_data: 0,
            object_layer,
            collision_group: CollisionGroupIds {
                group_id: COLLISION_GROUP_INVALID_GROUP,
                sub_group_id: COLLISION_GROUP_INVALID_SUB_GROUP,
            },
            motion_type,
            allowed_dofs: AllowedDOFs { bits: AllowedDOFs::known_bits() },
            allow_dynamic_or_kinematic: true,
            is_sensor: false,
            collide_kinematic_vs_non_dynamic: false,
            use_manifold_reduction: true,
            apply_gyroscopic_force: false,
            motion_quality: MotionQuality::Discrete,
            enhanced_internal_edge_removal: false,
            allow_sleeping: true,
            num_velocity_steps_override: 0,
            num_position_steps_override: 0,
            override_mass_properties: OverrideMassProperties::CalculateMassAndInertia,
        }
    }

    /// What the native engine is handed for these options.
    pub open spec fn native(self) -> NativeBodyCreationOptions {
        NativeBodyCreationOptions {
            user_data: self.user_data,
            object_layer: self.object_layer,
            group_id: self.collision_group.group_id,
            sub_group_id: self.collision_group.sub_group_id,
            motion_type: self.motion_type.code(),
            allowed_dofs: self.allowed_dofs.bits,
            allow_dynamic_or_kinematic: self.allow_dynamic_or_kinematic,
            is_sensor: self.is_sensor,
            collide_kinematic_vs_non_dynamic: self.collide_kinematic_vs_non_dynamic,
            use_manifold_reduction: self.use_manifold_reduction,
            apply_gyroscopic_force: self.apply_gyroscopic_force,
            motion_quality: self.motion_quality.code(),
            enhanced_internal_edge_removal: self.enhanced_internal_edge_removal,
            allow_sleeping: self.allow_sleeping,
            num_velocity_steps_override: self.num_velocity_steps_override,
            num_position_steps_override: self.num_position_steps_override,
            override_mass_properties: self.override_mass_properties.code(),
        }
    }

    /// The default options of a body of the given motion type and layer.
    pub fn new(motion_type: MotionType, object_layer: ObjectLayer) -> (options: Self)
        ensures
            options == Self::defaults(motion_type, object_layer),
    {
        BodyCreationOptions {
            user_data: 0,
            object_layer,
            collision_group: CollisionGroupIds {
                group_id: COLLISION_GROUP_INVALID_GROUP,
                sub_group_id: COLLISION_GROUP_INVALID_SUB_GROUP,
            },
            motion_type,
            allowed_dofs: AllowedDOFs::all(),
            allow_dynamic_or_kinematic: true,
            is_sensor: false,
            collide_kinematic_vs_non_dynamic: false,
            use_manifold_reduction: true,
            apply_gyroscopic_force: false,
            motion_quality: MotionQuality::Discrete,
            enhanced_internal_edge_removal: false,
            allow_sleeping: true,
            num_velocity_steps_override: 0,
            num_position_steps_override: 0,
            override_mass_properties: OverrideMassProperties::CalculateMassAndInertia,
        }
    }

    /// Encodes the options for the call that creates the body.
    pub fn to_native(&self) -> (native: NativeBodyCreationOptions)
        ensures
            native == self.native(),
    {
        NativeBodyCreationOptions {
            user_data: self.user_data,
            object_layer: self.object_layer,
            group_id: self.collision_group.group_id,
            sub_group_id: self.collision_group.sub_group_id,
            motion_type: self.motion_type.to_raw(),
            allowed_dofs: self.allowed_dofs.bits(),
            allow_dynamic_or_kinematic: self.allow_dynamic_or_kinematic,
            is_sensor: self.is_sensor,
            collide_kinematic_vs_non_dynamic: self.collide_kinematic_vs_non_dynamic,
            use_manifold_reduction: self.use_manifold_reduction,
            apply_gyroscopic_force: self.apply_gyroscopic_force,
            motion_quality: self.motion_quality.to_raw(),
            enhanced_internal_edge_removal: self.enhanced_internal_edge_removal,
            allow_sleeping: self.allow_sleeping,
            num_velocity_steps_override: self.num_velocity_steps_override,
            num_position_steps_override: self.num_position_steps_override,
            override_mass_properties: self.override_mass_properties.to_raw(),
        }
    }

    /// The encoding loses nothing: options that the native engine reads alike are
    /// the same options.
    pub proof fn lemma_native_is_injective(self, other: Self)
        requires
            self.native() == other.native(),
        ensures
            self == other,
    {
        self.motion_type.lemma_decode_inverts_code();
        other.motion_type.lemma_decode_inverts_code();
        self.motion_quality.lemma_decode_inverts_code();
        other.motion_quality.lemma_decode_inverts_code();
        self.override_mass_properties.lemma_decode_inverts_code();
        other.override_mass_properties.lemma_decode_inverts_code();
    }
}

} // verus!
