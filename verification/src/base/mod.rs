pub mod configuration;
pub mod dispatch;
pub mod job_system;
pub mod vec3;
