pub mod broadphase;
pub mod shape;
