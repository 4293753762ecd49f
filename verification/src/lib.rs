//! Verified core of a two-station weather link: a sensor station that samples
//! its instruments and advertises the readings over BLE, and a hub that
//! relays them to a host computer over UART.
pub mod hub;
pub mod sensor;
pub mod shared;
