//! DPS310 barometric sensor: coefficient unpacking and raw sample decoding.
use vstd::prelude::*;

verus! {

/// The value of the low 24 bits of `v` read as a two's-complement number.
pub open spec fn signed24(v: u32) -> int {
    let low = v % 0x100_0000;
    if low >= 0x80_0000 {
        low - 0x100_0000
    } else {
        low as int
    }
}

/// The value of the low 20 bits of `v` read as a two's-complement number.
pub open spec fn signed20(v: u32) -> int {
    let low = v % 0x10_0000;
    if low >= 0x8_0000 {
        low - 0x10_0000
    } else {
        low as int
    }
}

/// Extends the 24-bit two's-complement number held in the low bits of `v`.
pub fn sign_extend_24(v: u32) -> (r: i32)
    ensures
        r as int == signed24(v),
        -0x80_0000 <= r < 0x80_0000,
        (r - v) % 0x100_0000 == 0,
{
    let r = ((v << 8) as i32) >> 8;
    assert(r as int == signed24(v)) by (bit_vector)
        requires
            r == ((v << 8) as i32) >> 8,
    ;
    r
}

/// Extends the 20-bit two's-complement number held in the low bits of `v`.
pub fn sign_extend_20(v: u32) -> (r: i32)
    ensures
        r as int == signed20(v),
        -0x8_0000 <= r < 0x8_0000,
        (r - v) % 0x10_0000 == 0,
{
    let r = ((v << 12) as i32) >> 12;
    assert(r as int == signed20(v)) by (bit_vector)
        requires
            r == ((v << 12) as i32) >> 12,
    ;
    r
}

/// The value of the low 12 bits of `v` read as a two's-complement number.
pub open spec fn signed12(v: u16) -> int {
    let low = v % 0x1000;
    if low >= 0x800 {
        low - 0x1000
    } else {
        low as int
    }
}

/// Extends the 12-bit two's-complement number held in the low bits of `v`.
fn sign_extend_12(v: u16) -> (r: i16)
    ensures
        r as int == signed12(v),
{
    let r = ((v << 4) as i16) >> 4;
    assert(r as int == signed12(v)) by (bit_vector)
        requires
            r == ((v << 4) as i16) >> 4,
    ;
    r
}

/// The value of the 16-bit big-endian word `hi, lo` read as a two's-complement number.
pub open spec fn signed16(hi: u8, lo: u8) -> int {
    let u = hi * 256 + lo;
    if u >= 0x8000 {
        u - 0x1_0000
    } else {
        u
    }
}

/// Compensation coefficients read from the sensor's coefficient registers.
#[derive(Debug, Clone, Copy, PartialEq, Eq, Structural)]
pub struct Calibration {
    pub c0: i16,
    pub c1: i16,
    pub c00: i32,
    pub c10: i32,
    pub c01: i16,
    pub c11: i16,
    pub c20: i16,
    pub c21: i16,
    pub c30: i16,
}

/// What `parse_calibration` reads out of the 18 coefficient bytes.
///
/// Following the datasheet's packing, `c0` and `c1` are 12-bit and `c00`
/// and `c10` 20-bit two's-complement fields, and the five 16-bit fields are
/// big-endian two's-complement words.
pub open spec fn spec_calibration(b: Seq<u8>) -> Calibration
    recommends
        b.len() == 18,
{
    Calibration {
        c0: signed12((b[0] * 16 + b[1] / 16) as u16) as i16,
        c1: signed12(((b[1] % 16) * 256 + b[2]) as u16) as i16,
        c00: signed20((b[3] * 0x1000 + b[4] * 16 + b[5] / 16) as u32) as i32,
        c10: signed20(((b[5] % 16) * 0x1_0000 + b[6] * 256 + b[7]) as u32) as i32,
        c01: signed16(b[8], b[9]) as i16,
        c11: signed16(b[10], b[11]) as i16,
        c20: signed16(b[12], b[13]) as i16,
        c21: signed16(b[14], b[15]) as i16,
        c30: signed16(b[16], b[17]) as i16,
    }
}

/// The 18 coefficient bytes that hold `cal`, laid out as the datasheet
/// packs them: `c0` (12 bits) then `c1` (12 bits), `c00` (20 bits) then
/// `c10` (20 bits), then `c01`, `c11`, `c20`, `c21`, `c30` (16 bits each),
/// every field as two's complement, most significant bits first.
pub open spec fn spec_pack_calibration(cal: Calibration) -> Seq<u8> {
    let u0 = (cal.c0 as int) % 0x1000;
    let u1 = (cal.c1 as int) % 0x1000;
    let u00 = (cal.c00 as int) % 0x10_0000;
    let u10 = (cal.c10 as int) % 0x10_0000;
    let w01 = (cal.c01 as int) % 0x1_0000;
    let w11 = (cal.c11 as int) % 0x1_0000;
    let w20 = (cal.c20 as int) % 0x1_0000;
    let w21 = (cal.c21 as int) % 0x1_0000;
    let w30 = (cal.c30 as int) % 0x1_0000;
    seq![
        (u0 / 16) as u8,
        ((u0 % 16) * 16 + u1 / 256) as u8,
        (u1 % 256) as u8,
        (u00 / 0x1000) as u8,
        ((u00 / 16) % 256) as u8,
        ((u00 % 16) * 16 + u10 / 0x1_0000) as u8,
        ((u10 / 256) % 256) as u8,
        (u10 % 256) as u8,
        (w01 / 256) as u8,
        (w01 % 256) as u8,
        (w11 / 256) as u8,
        (w11 % 256) as u8,
        (w20 / 256) as u8,
        (w20 % 256) as u8,
        (w21 / 256) as u8,
        (w21 % 256) as u8,
        (w30 / 256) as u8,
        (w30 % 256) as u8,
    ]
}

proof fn lemma_signed12_residue(w: int)
    requires
        0 <= w < 0x1000,
    ensures
        signed12(w as u16) % 0x1000 == w,
        -0x800 <= signed12(w as u16) < 0x800,
{
}

proof fn lemma_signed20_residue(w: int)
    requires
        0 <= w < 0x10_0000,
    ensures
        signed20(w as u32) % 0x10_0000 == w,
        -0x8_0000 <= signed20(w as u32) < 0x8_0000,
{
}

proof fn lemma_signed16_residue(hi: u8, lo: u8)
    ensures
        signed16(hi, lo) % 0x1_0000 == hi * 256 + lo,
        -0x8000 <= signed16(hi, lo) < 0x8000,
        (hi * 256 + lo) / 256 == hi,
        (hi * 256 + lo) % 256 == lo,
{
}

proof fn lemma_split_12_12(b0: u8, b1: u8, b2: u8)
    ensures
        ({
            let u0 = b0 * 16 + b1 / 16;
            let u1 = (b1 % 16) * 256 + b2;
            &&& u0 / 16 == b0
            &&& (u0 % 16) * 16 + u1 / 256 == b1
            &&& u1 % 256 == b2
        }),
{
}

proof fn lemma_split_20_20(b3: u8, b4: u8, b5: u8, b6: u8, b7: u8)
    ensures
        ({
            let u00 = b3 * 0x1000 + b4 * 16 + b5 / 16;
            let u10 = (b5 % 16) * 0x1_0000 + b6 * 256 + b7;
            &&& u00 / 0x1000 == b3
            &&& (u00 / 16) % 256 == b4
            &&& (u00 % 16) * 16 + u10 / 0x1_0000 == b5
            &&& (u10 / 256) % 256 == b6
            &&& u10 % 256 == b7
        }),
{
}

/// Packing what `parse_calibration` reads gives back the bytes it read: the
/// unpacking loses nothing and puts every bit where the datasheet has it.
pub proof fn law_calibration_repacks(b: Seq<u8>)
    requires
        b.len() == 18,
    ensures
        spec_pack_calibration(spec_calibration(b)) == b,
{
    let cal = spec_calibration(b);
    let w0 = b[0] * 16 + b[1] / 16;
    let w1 = (b[1] % 16) * 256 + b[2];
    let w00 = b[3] * 0x1000 + b[4] * 16 + b[5] / 16;
    let w10 = (b[5] % 16) * 0x1_0000 + b[6] * 256 + b[7];
    lemma_signed12_residue(w0);
    lemma_signed12_residue(w1);
    lemma_signed20_residue(w00);
    lemma_signed20_residue(w10);
    lemma_signed16_residue(b[8], b[9]);
    lemma_signed16_residue(b[10], b[11]);
    lemma_signed16_residue(b[12], b[13]);
    lemma_signed16_residue(b[14], b[15]);
    lemma_signed16_residue(b[16], b[17]);
    lemma_split_12_12(b[0], b[1], b[2]);
    lemma_split_20_20(b[3], b[4], b[5], b[6], b[7]);
    assert((cal.c0 as int) % 0x1000 == w0);
    assert((cal.c1 as int) % 0x1000 == w1);
    assert((cal.c00 as int) % 0x10_0000 == w00);
    assert((cal.c10 as int) % 0x10_0000 == w10);
    assert(spec_pack_calibration(cal) =~= b);
}

/// Whether every field of `cal` fits its width in the coefficient
/// registers: 12 bits for `c0` and `c1`, 20 bits for `c00` and `c10`.
pub open spec fn calibration_in_range(cal: Calibration) -> bool {
    &&& -0x800 <= cal.c0 < 0x800
    &&& -0x800 <= cal.c1 < 0x800
    &&& -0x8_0000 <= cal.c00 < 0x8_0000
    &&& -0x8_0000 <= cal.c10 < 0x8_0000
}

/// Every coefficient read from the registers fits its width.
pub proof fn law_calibration_in_range(b: Seq<u8>)
    requires
        b.len() == 18,
    ensures
        calibration_in_range(spec_calibration(b)),
{
    lemma_signed12_residue(b[0] * 16 + b[1] / 16);
    lemma_signed12_residue((b[1] % 16) * 256 + b[2]);
    lemma_signed20_residue(b[3] * 0x1000 + b[4] * 16 + b[5] / 16);
    lemma_signed20_residue((b[5] % 16) * 0x1_0000 + b[6] * 256 + b[7]);
}

/// Unpacking gives back what was packed: any coefficients that fit their
/// widths, packed into the 18 registers as the datasheet lays them out,
/// are read back exactly.
pub proof fn law_calibration_roundtrip(cal: Calibration)
    requires
        calibration_in_range(cal),
    ensures
        spec_calibration(spec_pack_calibration(cal)) == cal,
{
    let b = spec_pack_calibration(cal);
    let u0 = (cal.c0 as int) % 0x1000;
    let u1 = (cal.c1 as int) % 0x1000;
    let u00 = (cal.c00 as int) % 0x10_0000;
    let u10 = (cal.c10 as int) % 0x10_0000;
    assert(b[0] * 16 + b[1] / 16 == u0);
    assert((b[1] % 16) * 256 + b[2] == u1);
    assert(b[3] * 0x1000 + b[4] * 16 + b[5] / 16 == u00);
    assert((b[5] % 16) * 0x1_0000 + b[6] * 256 + b[7] == u10);
    assert(signed12(u0 as u16) == cal.c0);
    assert(signed12(u1 as u16) == cal.c1);
    assert(signed20(u00 as u32) == cal.c00);
    assert(signed20(u10 as u32) == cal.c10);
    assert(signed16(b[8], b[9]) == cal.c01);
    assert(signed16(b[10], b[11]) == cal.c11);
    assert(signed16(b[12], b[13]) == cal.c20);
    assert(signed16(b[14], b[15]) == cal.c21);
    assert(signed16(b[16], b[17]) == cal.c30);
}

fn be_word_signed(hi: u8, lo: u8) -> (r: i16)
    ensures
        r as int == signed16(hi, lo),
{
    let r = ((hi as u16) << 8 | lo as u16) as i16;
    assert(r as int == signed16(hi, lo)) by (bit_vector)
        requires
            r == ((hi as u16) << 8 | lo as u16) as i16,
    ;
    r
}

/// Unpacks the coefficient registers (datasheet bit packing).
pub fn parse_calibration(b: &[u8; 18]) -> (cal: Calibration)
    ensures
        cal == spec_calibration(b@),
        spec_pack_calibration(cal) == b@,
        calibration_in_range(cal),
{
    proof {
        law_calibration_repacks(b@);
        law_calibration_in_range(b@);
    }
    let (b0, b1, b2, b3, b4, b5, b6, b7) = (b[0], b[1], b[2], b[3], b[4], b[5], b[6], b[7]);
    let w0 = ((b0 as u16) << 4) | ((b1 >> 4) as u16);
    assert(w0 == b0 * 16 + b1 / 16) by (bit_vector)
        requires
            w0 == ((b0 as u16) << 4) | ((b1 >> 4) as u16),
    ;
    let w1 = (((b1 & 0x0F) as u16) << 8) | b2 as u16;
    assert(w1 == (b1 % 16) * 256 + b2) by (bit_vector)
        requires
            w1 == (((b1 & 0x0F) as u16) << 8) | b2 as u16,
    ;
    let w00 = ((b3 as u32) << 12) | ((b4 as u32) << 4) | ((b5 >> 4) as u32);
    assert(w00 == b3 * 0x1000 + b4 * 16 + b5 / 16) by (bit_vector)
        requires
            w00 == ((b3 as u32) << 12) | ((b4 as u32) << 4) | ((b5 >> 4) as u32),
    ;
    let w10 = (((b5 & 0x0F) as u32) << 16) | ((b6 as u32) << 8) | b7 as u32;
    assert(w10 == (b5 % 16) * 0x1_0000 + b6 * 256 + b7) by (bit_vector)
        requires
            w10 == (((b5 & 0x0F) as u32) << 16) | ((b6 as u32) << 8) | b7 as u32,
    ;
    let cal = Calibration {
        c0: sign_extend_12(w0),
        c1: sign_extend_12(w1),
        c00: sign_extend_20(w00),
        c10: sign_extend_20(w10),
        c01: be_word_signed(b[8], b[9]),
        c11: be_word_signed(b[10], b[11]),
        c20: be_word_signed(b[12], b[13]),
        c21: be_word_signed(b[14], b[15]),
        c30: be_word_signed(b[16], b[17]),
    };
    cal
}

/// Decodes a raw temperature or pressure sample from its three result
/// registers: a big-endian 24-bit two's-complement number.
pub fn raw_sample(buf: [u8; 3]) -> (r: i32)
    ensures
        r as int == signed24((buf[0] * 0x1_0000 + buf[1] * 256 + buf[2]) as u32),
        -0x80_0000 <= r < 0x80_0000,
        (r - (buf[0] * 0x1_0000 + buf[1] * 256 + buf[2])) % 0x100_0000 == 0,
{
    let (x, y, z) = (buf[0], buf[1], buf[2]);
    let word = ((x as u32) << 16) | ((y as u32) << 8) | (z as u32);
    assert(word == x * 0x1_0000 + y * 256 + z) by (bit_vector)
        requires
            word == ((x as u32) << 16) | ((y as u32) << 8) | (z as u32),
    ;
    sign_extend_24(word)
}

/// Sign extension is the two's-complement reading: the result lies in the
/// signed range of the width and differs from the input by a multiple of
/// 2 to the width, which determines it.
pub proof fn law_sign_extension_is_twos_complement(v: u32, w: u16)
    ensures
        -0x80_0000 <= signed24(v) < 0x80_0000,
        (signed24(v) - v) % 0x100_0000 == 0,
        -0x8_0000 <= signed20(v) < 0x8_0000,
        (signed20(v) - v) % 0x10_0000 == 0,
        -0x800 <= signed12(w) < 0x800,
        (signed12(w) - w) % 0x1000 == 0,
{
}

/// Sign extension gives back the number that was packed: for every value
/// that 24 (or 20, or 12) bits can hold, extending its two's-complement
/// encoding yields the value itself.
pub proof fn law_sign_extension_roundtrip(x: int)
    ensures
        -0x800 <= x < 0x800 ==> signed12((if x < 0 { x + 0x1000 } else { x }) as u16) == x,
        -0x80_0000 <= x < 0x80_0000 ==> signed24((if x < 0 { x + 0x100_0000 } else { x }) as u32) == x,
        -0x8_0000 <= x < 0x8_0000 ==> signed20((if x < 0 { x + 0x10_0000 } else { x }) as u32) == x,
{
}

} // verus!
