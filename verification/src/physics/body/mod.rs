pub mod allowed_dofs;
pub mod body_activation_listener;
pub mod contact_listener;
pub mod creation_settings;
pub mod motion;
pub mod override_mass;
pub mod validate_result;

use vstd::prelude::*;

verus! {

/// Identifier of a body in the native engine's table of bodies.
pub type BodyId = u32;

} // verus!
