pub mod resources;
pub mod sensors;
pub mod station;
