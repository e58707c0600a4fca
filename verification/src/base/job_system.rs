use vstd::prelude::*;

verus! {

/// The number of jobs that the native engine's physics step may have in flight.
pub const MAX_PHYSICS_JOBS: u32 = 2048;

/// The number of barriers that the native engine's physics step may hold.
pub const MAX_PHYSICS_BARRIERS: u32 = 8;

} // verus!
