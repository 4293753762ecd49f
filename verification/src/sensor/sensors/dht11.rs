//! DHT11 humidity and temperature sensor: assembling the 40 transmitted
//! bits and checking the frame.
use vstd::prelude::*;

verus! {

/// Number of bytes in one DHT11 transmission.
pub const FRAME_LEN: usize = 5;

/// A checked DHT11 reading.
#[derive(Debug, Clone, Copy, PartialEq, Eq, Structural)]
pub struct Dht11Reading {
    /// Degrees Celsius.
    pub temperature: i8,
    /// Relative humidity, percent.
    pub humidity: u8,
}

/// The temperature byte of a frame: bit 7 is a sign, bits 0-6 the magnitude.
pub open spec fn spec_temperature(b: u8) -> int {
    if b < 0x80 {
        b as int
    } else {
        -(b - 0x80)
    }
}

/// The frame's last byte is the sum, modulo 256, of the four data bytes.
pub open spec fn checksum_ok(frame: Seq<u8>) -> bool
    recommends
        frame.len() == 5,
{
    (frame[0] + frame[1] + frame[2] + frame[3]) % 256 == frame[4]
}

/// Records one high bit: bit `bit` of byte `byte`, counted from the most
/// significant bit, as the sensor sends them.
pub fn record_bit(frame: &mut [u8; 5], byte: usize, bit: u8)
    requires
        byte < 5,
        bit < 8,
    ensures
        final(frame)@ == old(frame)@.update(byte as int, old(frame)@[byte as int] | (1u8 << (7 - bit))),
{
    let shift: u8 = 7 - bit;
    frame[byte] = frame[byte] | (1u8 << shift);
}

/// Reads a received frame: humidity is byte 0, temperature byte 2 (sign and
/// magnitude), and the frame is accepted only when byte 4 is the sum of
/// bytes 0-3 modulo 256. The fractional bytes 1 and 3 only enter the sum.
pub fn decode_frame(frame: [u8; 5]) -> (r: Option<Dht11Reading>)
    ensures
        checksum_ok(frame@) ==> r == Some(Dht11Reading {
            temperature: spec_temperature(frame[2]) as i8,
            humidity: frame[0],
        }),
        !checksum_ok(frame@) ==> r is None,
        r is Some <==> (frame[0] + frame[1] + frame[2] + frame[3]) % 256 == frame[4],
        r matches Some(x) ==> x.humidity == frame[0] && (frame[2] < 128 ==> x.temperature == frame[2]) && (
        frame[2] >= 128 ==> x.temperature == 128 - frame[2]),
{
    let humidity = frame[0];
    let t = frame[2];
    let temperature: i8 = if t & 0x80 == 0 {
        assert(t < 0x80) by (bit_vector)
            requires
                t & 0x80 == 0,
        ;
        t as i8
    } else {
        let magnitude: i8 = t as i8 & 0x7F;
        assert(t >= 0x80 && magnitude == t - 0x80) by (bit_vector)
            requires
                t & 0x80 != 0,
                magnitude == t as i8 & 0x7F,
        ;
        -magnitude
    };
    let sum = frame[0].wrapping_add(frame[1]).wrapping_add(frame[2]).wrapping_add(frame[3]);
    assert(sum == (frame[0] + frame[1] + frame[2] + frame[3]) % 256) by {
        assert(frame[0].wrapping_add(frame[1]) == (frame[0] + frame[1]) % 256);
    }
    if frame[4] != sum {
        return None;
    }
    Some(Dht11Reading { temperature, humidity })
}

/// The frame a sensor sends for humidity `h` and temperature `t`, with
/// fractional bytes `hf` and `tf`: the temperature as sign and magnitude,
/// then the checksum.
pub open spec fn spec_sensor_frame(h: u8, hf: u8, t: int, tf: u8) -> Seq<u8> {
    let tb: u8 = if t >= 0 {
        t as u8
    } else {
        (128 - t) as u8
    };
    seq![h, hf, tb, tf, ((h + hf + tb + tf) % 256) as u8]
}

/// What a sensor sends is read back: a frame built for any humidity and
/// any temperature from -127 to 127 passes the checksum and yields that
/// humidity and temperature; changing its checksum byte makes it fail.
pub proof fn law_dht11_frame_roundtrip(h: u8, hf: u8, t: int, tf: u8, bad: u8)
    requires
        -127 <= t <= 127,
        bad != spec_sensor_frame(h, hf, t, tf)[4],
    ensures
        checksum_ok(spec_sensor_frame(h, hf, t, tf)),
        spec_sensor_frame(h, hf, t, tf)[0] == h,
        spec_temperature(spec_sensor_frame(h, hf, t, tf)[2]) == t,
        !checksum_ok(spec_sensor_frame(h, hf, t, tf).update(4, bad)),
{
}

} // verus!
