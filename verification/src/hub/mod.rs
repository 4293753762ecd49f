pub mod ble;
pub mod resources;
pub mod station;
