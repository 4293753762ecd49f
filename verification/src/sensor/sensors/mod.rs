pub mod dps310;
pub mod dht11;
pub mod adc;

use vstd::prelude::*;

verus! {

/// A new value from one instrument. The floating-point quantities are
/// carried as the bit patterns of their `f32` values.
#[derive(Debug, Clone, Copy, PartialEq, Eq, Structural)]
pub enum SensorDataUpdate {
    Temperature { temperature: i8 },
    Humidity { humidity: u8 },
    Pressure { pressure: u32 },
    Light { level: u8 },
    WindDirection { direction_bits: u32 },
    WindSpeed { speed_bits: u32 },
    Precipitation { mm_bits: u32 },
}

} // verus!
