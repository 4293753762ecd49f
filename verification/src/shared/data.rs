//! The weather record that both stations share.
use vstd::prelude::*;

verus! {

/// One snapshot of every instrument of the sensor station.
///
/// The three quantities that the instruments measure as floating-point
/// numbers travel as the IEEE-754 bit patterns of their `f32` values, so the
/// record holds plain integers throughout.
#[derive(Debug, Clone, Copy, PartialEq, Eq, Structural)]
pub struct MeteoData {
    /// Light level, percent.
    pub light_level: u8,
    /// Degrees Celsius.
    pub temperature: i8,
    /// Relative humidity, percent.
    pub humidity: u8,
    /// Pressure: the compensated DPS310 reading divided by ten.
    pub pressure: u32,
    /// Bits of the precipitation in mm/s.
    pub precipitation_bits: u32,
    /// Bits of the wind direction in degrees.
    pub wind_direction_bits: u32,
    /// Bits of the wind speed in km/h.
    pub wind_speed_bits: u32,
}

/// The record with every field zero (the `f32` fields are then `0.0`).
pub open spec fn zero_meteo() -> MeteoData {
    MeteoData {
        light_level: 0,
        temperature: 0,
        humidity: 0,
        pressure: 0,
        precipitation_bits: 0,
        wind_direction_bits: 0,
        wind_speed_bits: 0,
    }
}

impl Default for MeteoData {
    fn default() -> (r: MeteoData)
        ensures
            r == zero_meteo(),
            r.light_level == 0 && r.temperature == 0 && r.humidity == 0 && r.pressure == 0,
            r.precipitation_bits == 0 && r.wind_direction_bits == 0 && r.wind_speed_bits == 0,
    {
        MeteoData {
            light_level: 0,
            temperature: 0,
            humidity: 0,
            pressure: 0,
            precipitation_bits: 0,
            wind_direction_bits: 0,
            wind_speed_bits: 0,
        }
    }
}

} // verus!
