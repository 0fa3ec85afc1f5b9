use vstd::prelude::*;

use crate::parse_error::ParseError;

verus! {

// ---------------------------------------------------------------------------
// Mathematical model of the 7-bit MIDI data encodings
// ---------------------------------------------------------------------------

/// A value clamped into the 7-bit range.
pub open spec fn spec_u7(x: int) -> u8 {
    if x > 127 { 127 } else if x < 0 { 0 } else { x as u8 }
}

/// The most significant 7 bits of a 14-bit value; values above 16383 clamp to the maximum.
pub open spec fn spec_u14_msb(x: u16) -> u8 {
    if x > 16383 { 127 } else { (x / 128) as u8 }
}

/// The least significant 7 bits of a 14-bit value; values above 16383 clamp to the maximum.
pub open spec fn spec_u14_lsb(x: u16) -> u8 {
    if x > 16383 { 127 } else { (x % 128) as u8 }
}

/// The value `x` offset by 8192 (so that -8192 becomes 0), clamped below at -8192.
pub open spec fn spec_i14_offset(x: i16) -> u16 {
    if x < -8192 { 0 } else { (x + 8192) as u16 }
}

/// Two 7-bit bytes, least significant first, as a 14-bit value.
pub open spec fn spec_u14(msb: u8, lsb: u8) -> int {
    msb * 128 + lsb
}

/// Replace the least significant 7 bits of a 14-bit value.
pub open spec fn spec_replace_lsb(msb: u16, lsb: u8) -> u16 {
    (((msb / 128) % 128) * 128 + lsb) as u16
}

/// `bytes` as 7-bit data: the little-endian 14-bit encoding of `x` (lsb, msb).
pub open spec fn spec_u14_bytes(x: u16) -> Seq<u8> {
    seq![spec_u14_lsb(x), spec_u14_msb(x)]
}

/// The signed 14-bit encoding: the two's complement bits of `x` when it fits, clamped otherwise.
pub open spec fn spec_i14_msb(x: i16) -> u8 {
    if x > 8191 { 0x3f } else if x < -8191 { 0x40 } else if x >= 0 { (x / 128) as u8 } else {
        ((x + 16384) / 128) as u8
    }
}

pub open spec fn spec_i14_lsb(x: i16) -> u8 {
    if x > 8191 { 0x7f } else if x < -8191 { 0x00 } else if x >= 0 { (x % 128) as u8 } else {
        ((x + 16384) % 128) as u8
    }
}

/// A 32-bit value in 21 bits, as three 7-bit bytes, most significant first.
pub open spec fn spec_u21(x: u32) -> Seq<u8> {
    if x > 2097151 {
        seq![0x7fu8, 0x7f, 0x7f]
    } else {
        seq![(x / 16384) as u8, ((x / 128) % 128) as u8, (x % 128) as u8]
    }
}

/// A 32-bit value in 28 bits, as four 7-bit bytes, most significant first. Values above
/// 0x0FFFFFFF are clamped to the maximum.
pub open spec fn spec_u28(x: u32) -> Seq<u8> {
    if x > 0x0FFFFFFF {
        seq![0x7fu8, 0x7f, 0x7f, 0x7f]
    } else {
        seq![
            (x / 2097152) as u8,
            ((x / 16384) % 128) as u8,
            ((x / 128) % 128) as u8,
            (x % 128) as u8,
        ]
    }
}

/// A 64-bit value in 35 bits, as five 7-bit bytes, most significant first.
pub open spec fn spec_u35(x: u64) -> Seq<u8> {
    if x > 34359738367 {
        seq![0x7fu8, 0x7f, 0x7f, 0x7f, 0x7f]
    } else {
        seq![
            (x / 268435456) as u8,
            ((x / 2097152) % 128) as u8,
            ((x / 16384) % 128) as u8,
            ((x / 128) % 128) as u8,
            (x % 128) as u8,
        ]
    }
}

/// The XOR of all bytes of `s`.
pub open spec fn spec_checksum(s: Seq<u8>) -> u8
    decreases s.len(),
{
    if s.len() == 0 {
        0
    } else {
        spec_checksum(s.drop_last()) ^ s.last()
    }
}

// ---------------------------------------------------------------------------
// 7-bit conversions
// ---------------------------------------------------------------------------

/// Clamp a byte into the 7-bit range.
pub fn to_u7(x: u8) -> (r: u8)
    ensures
        r == spec_u7(x as int),
        r <= 127,
{
    if x > 127 {
        127
    } else {
        x
    }
}

/// A signed value -64..63 as a 7-bit value 0..127 (values below -64 clamp to 0).
pub fn i_to_u7(x: i8) -> (r: u8)
    ensures
        r == spec_u7(if x < -64 { 0 } else { x + 64 }),
{
    let y: i8 = if x < -64 {
        -64
    } else {
        x
    };
    let z: i16 = y as i16 + 64;
    to_u7(z as u8)
}

/// A 7-bit value as a signed value: `x - 64`, wrapped into the `i8` range.
pub fn u7_to_i(x: u8) -> (r: i8)
    ensures
        r == (x - 64) as i8,
        x <= 127 ==> r == x - 64,
{
    let r = x.wrapping_sub(64) as i8;
    assert(x.wrapping_sub(64) as i8 == (x - 64) as i8) by (bit_vector);
    r
}

/// Read a boolean from a 7-bit byte: values of 64 and above are `true`.
pub fn bool_from_u7(x: u8) -> (r: Result<bool, ParseError>)
    ensures
        x > 127 ==> r == Err::<bool, ParseError>(ParseError::ByteOverflow),
        x <= 127 ==> r == Ok::<bool, ParseError>(x >= 0x40),
{
    if x > 127 {
        Err(ParseError::ByteOverflow)
    } else {
        Ok(x >= 0x40)
    }
}

/// Check that a byte is a 7-bit value.
pub fn u8_from_u7(x: u8) -> (r: Result<u8, ParseError>)
    ensures
        x > 127 ==> r == Err::<u8, ParseError>(ParseError::ByteOverflow),
        x <= 127 ==> r == Ok::<u8, ParseError>(x),
{
    if x > 127 {
        Err(ParseError::ByteOverflow)
    } else {
        Ok(x)
    }
}

/// Read the first byte of `m` as a 7-bit value.
pub fn u7_from_midi(m: &[u8]) -> (r: Result<u8, ParseError>)
    ensures
        r == spec_u7_from_midi(m@),
{
    if m.len() < 1 {
        Err(ParseError::UnexpectedEnd)
    } else {
        u8_from_u7(m[0])
    }
}

pub open spec fn spec_u7_from_midi(m: Seq<u8>) -> Result<u8, ParseError> {
    if m.len() < 1 {
        Err(ParseError::UnexpectedEnd)
    } else if m[0] > 127 {
        Err(ParseError::ByteOverflow)
    } else {
        Ok(m[0])
    }
}

// ---------------------------------------------------------------------------
// 14-bit conversions
// ---------------------------------------------------------------------------

/// A 14-bit value as [msb, lsb]; values above 16383 clamp to [127, 127].
pub fn to_u14(x: u16) -> (r: [u8; 2])
    ensures
        r[0] == spec_u14_msb(x),
        r[1] == spec_u14_lsb(x),
        r[0] <= 127,
        r[1] <= 127,
{
    if x > 16383 {
        [0x7f, 0x7f]
    } else {
        assert((x >> 7) as u8 == (x / 128) as u8) by (bit_vector);
        assert(x as u8 & 0x7f == (x % 128) as u8) by (bit_vector);
        [(x >> 7) as u8, x as u8 & 0b01111111]
    }
}

/// A signed 14-bit value -8192..8191 as the unsigned [msb, lsb] of `x + 8192`.
pub fn i_to_u14(x: i16) -> (r: [u8; 2])
    ensures
        r[0] == spec_u14_msb(spec_i14_offset(x)),
        r[1] == spec_u14_lsb(spec_i14_offset(x)),
{
    let y: i16 = if x < -8192 {
        -8192
    } else {
        x
    };
    let z: i32 = y as i32 + 8192;
    to_u14(z as u16)
}

/// Read two 7-bit bytes (lsb first) as a 14-bit value.
pub fn u14_from_midi(m: &[u8]) -> (r: Result<u16, ParseError>)
    ensures
        r == spec_u14_from_midi(m@),
{
    if m.len() < 2 {
        Err(ParseError::UnexpectedEnd)
    } else {
        let lsb = m[0];
        let msb = m[1];
        if lsb > 127 || msb > 127 {
            Err(ParseError::ByteOverflow)
        } else {
            let mut x: u16 = lsb as u16;
            x = x + (msb as u16) * 128;
            Ok(x)
        }
    }
}

pub open spec fn spec_u14_from_midi(m: Seq<u8>) -> Result<u16, ParseError> {
    if m.len() < 2 {
        Err(ParseError::UnexpectedEnd)
    } else if m[0] > 127 || m[1] > 127 {
        Err(ParseError::ByteOverflow)
    } else {
        Ok(spec_u14(m[1], m[0]) as u16)
    }
}

/// Replace the least significant 7 bits of the 14-bit value `msb` with `lsb`.
pub fn replace_u14_lsb(msb: u16, lsb: u8) -> (r: u16)
    ensures
        r == spec_replace_lsb(msb, lsb),
{
    let hi: u16 = msb & 0b11111110000000;
    assert(msb & 0x3f80 == ((msb / 128) % 128) * 128) by (bit_vector);
    hi + (lsb as u16)
}

/// Two 7-bit bytes as a 14-bit value.
pub fn u14_from_u7s(msb: u8, lsb: u8) -> (r: u16)
    ensures
        r == spec_u14(msb, lsb),
{
    (msb as u16) * 128 + (lsb as u16)
}

/// Two 7-bit bytes as a signed 14-bit value offset by -8192.
pub fn i14_from_u7s(msb: u8, lsb: u8) -> (r: i16)
    requires
        spec_u14(msb, lsb) <= 32767,
    ensures
        r == spec_u14(msb, lsb) - 8192,
{
    (u14_from_u7s(msb, lsb) as i16) - 8192
}

/// A byte as its two nibbles, [high, low].
pub fn to_nibble(x: u8) -> (r: [u8; 2])
    ensures
        r[0] == x / 16,
        r[1] == x % 16,
{
    assert(x >> 4 == x / 16) by (bit_vector);
    assert(x & 0x0f == x % 16) by (bit_vector);
    [x >> 4, x & 0b00001111]
}

/// Append a byte clamped into the 7-bit range.
pub fn push_u7(x: u8, v: &mut Vec<u8>)
    ensures
        final(v)@ == old(v)@.push(spec_u7(x as int)),
{
    v.push(to_u7(x));
}

/// Append a 14-bit value, least significant byte first.
pub fn push_u14(x: u16, v: &mut Vec<u8>)
    ensures
        final(v)@ == old(v)@ + spec_u14_bytes(x),
{
    let r = to_u14(x);
    v.push(r[1]);
    v.push(r[0]);
}

/// Append all bytes of `s`.
pub fn extend_from_slice(v: &mut Vec<u8>, s: &[u8])
    ensures
        final(v)@ == old(v)@ + s@,
{
    let ghost start = v@;
    let mut i: usize = 0;
    while i < s.len()
        invariant
            i <= s@.len(),
            v@ == start + s@.subrange(0, i as int),
        decreases s@.len() - i,
    {
        v.push(s[i]);
        i = i + 1;
        assert(s@.subrange(0, i as int) == s@.subrange(0, i - 1).push(s@[i - 1]));
    }
    assert(s@.subrange(0, s@.len() as int) == s@);
}

/// Append the bytes of `s`, each clamped into the 7-bit range.
pub fn extend_u7s(v: &mut Vec<u8>, s: &[u8])
    ensures
        final(v)@ == old(v)@ + s@.map_values(|b: u8| spec_u7(b as int)),
{
    let ghost start = v@;
    let mut i: usize = 0;
    while i < s.len()
        invariant
            i <= s@.len(),
            v@ == start + s@.subrange(0, i as int).map_values(|b: u8| spec_u7(b as int)),
        decreases s@.len() - i,
    {
        push_u7(s[i], v);
        i = i + 1;
        assert(s@.subrange(0, i as int).map_values(|b: u8| spec_u7(b as int)) == s@.subrange(
            0,
            i - 1,
        ).map_values(|b: u8| spec_u7(b as int)).push(spec_u7(s@[i - 1] as int)));
    }
    assert(s@.subrange(0, s@.len() as int) == s@);
}

// ---------------------------------------------------------------------------
// Larger system exclusive encodings
// ---------------------------------------------------------------------------

/// A signed 14-bit value in two's complement as [msb, lsb]; clamped to -8192..8191.
pub fn to_i14(x: i16) -> (r: [u8; 2])
    ensures
        r[0] == spec_i14_msb(x),
        r[1] == spec_i14_lsb(x),
{
    if x > 8191 {
        [0x3f, 0x7f]
    } else if x < -8191 {
        [0x40, 0x00]
    } else {
        let hi = (x >> 7) as u8 & 0b01111111;
        let lo = x as u8 & 0b01111111;
        assert(-8191 <= x <= 8191 && x >= 0 ==> (x >> 7) as u8 & 0x7f == (x / 128) as u8)
            by (bit_vector);
        assert(-8191 <= x <= 8191 && x < 0 ==> (x >> 7) as u8 & 0x7f == ((x + 16384) / 128) as u8)
            by (bit_vector);
        assert(-8191 <= x <= 8191 && x >= 0 ==> x as u8 & 0x7f == (x % 128) as u8)
            by (bit_vector);
        assert(-8191 <= x <= 8191 && x < 0 ==> x as u8 & 0x7f == ((x + 16384) % 128) as u8)
            by (bit_vector);
        [hi, lo]
    }
}

/// A 21-bit value as [msb, b, lsb]; values above 2097151 clamp to the maximum.
pub fn to_u21(x: u32) -> (r: [u8; 3])
    ensures
        r@ == spec_u21(x),
{
    if x > 2097151 {
        let r = [0x7f, 0x7f, 0x7f];
        assert(r@ == spec_u21(x));
        r
    } else {
        assert(x <= 2097151 ==> (x >> 14) as u8 == (x / 16384) as u8) by (bit_vector);
        assert((x >> 7) as u8 & 0x7f == ((x / 128) % 128) as u8) by (bit_vector);
        assert(x as u8 & 0x7f == (x % 128) as u8) by (bit_vector);
        let r = [(x >> 14) as u8, (x >> 7) as u8 & 0b01111111, x as u8 & 0b01111111];
        assert(r@ == spec_u21(x));
        r
    }
}

/// A value as four 7-bit bytes, most significant first.
pub fn to_u28(x: u32) -> (r: [u8; 4])
    ensures
        r@ == spec_u28(x),
{
    if x > 0x0FFFFFFF {
        let r = [0x7f, 0x7f, 0x7f, 0x7f];
        assert(r@ == spec_u28(x));
        r
    } else {
        assert(x <= 0x0FFFFFFF ==> (x >> 21) as u8 == (x / 2097152) as u8) by (bit_vector);
        assert((x >> 14) as u8 & 0x7f == ((x / 16384) % 128) as u8) by (bit_vector);
        assert((x >> 7) as u8 & 0x7f == ((x / 128) % 128) as u8) by (bit_vector);
        assert(x as u8 & 0x7f == (x % 128) as u8) by (bit_vector);
        let r = [
            (x >> 21) as u8,
            (x >> 14) as u8 & 0b01111111,
            (x >> 7) as u8 & 0b01111111,
            x as u8 & 0b01111111,
        ];
        assert(r@ == spec_u28(x));
        r
    }
}

/// A 35-bit value as five 7-bit bytes, most significant first.
pub fn to_u35(x: u64) -> (r: [u8; 5])
    ensures
        r@ == spec_u35(x),
{
    if x > 34359738367 {
        let r = [0x7f, 0x7f, 0x7f, 0x7f, 0x7f];
        assert(r@ == spec_u35(x));
        r
    } else {
        assert(x <= 34359738367 ==> (x >> 28) as u8 == (x / 268435456) as u8) by (bit_vector);
        assert((x >> 21) as u8 & 0x7f == ((x / 2097152) % 128) as u8) by (bit_vector);
        assert((x >> 14) as u8 & 0x7f == ((x / 16384) % 128) as u8) by (bit_vector);
        assert((x >> 7) as u8 & 0x7f == ((x / 128) % 128) as u8) by (bit_vector);
        assert(x as u8 & 0x7f == (x % 128) as u8) by (bit_vector);
        let r = [
            (x >> 28) as u8,
            (x >> 21) as u8 & 0b01111111,
            (x >> 14) as u8 & 0b01111111,
            (x >> 7) as u8 & 0b01111111,
            x as u8 & 0b01111111,
        ];
        assert(r@ == spec_u35(x));
        r
    }
}

/// Append a signed 14-bit value, least significant byte first.
pub fn push_i14(x: i16, v: &mut Vec<u8>)
    ensures
        final(v)@ == old(v)@ + seq![spec_i14_lsb(x), spec_i14_msb(x)],
{
    let r = to_i14(x);
    v.push(r[1]);
    v.push(r[0]);
}

/// Append a 21-bit value, least significant byte first.
pub fn push_u21(x: u32, v: &mut Vec<u8>)
    ensures
        final(v)@ == old(v)@ + spec_u21(x).reverse(),
{
    let r = to_u21(x);
    v.push(r[2]);
    v.push(r[1]);
    v.push(r[0]);
    assert(spec_u21(x).reverse() == seq![r[2], r[1], r[0]]);
}

/// Append a 28-bit value, least significant byte first.
pub fn push_u28(x: u32, v: &mut Vec<u8>)
    ensures
        final(v)@ == old(v)@ + spec_u28(x).reverse(),
{
    let r = to_u28(x);
    v.push(r[3]);
    v.push(r[2]);
    v.push(r[1]);
    v.push(r[0]);
    assert(spec_u28(x).reverse() == seq![r[3], r[2], r[1], r[0]]);
}

/// Append a 35-bit value, least significant byte first.
pub fn push_u35(x: u64, v: &mut Vec<u8>)
    ensures
        final(v)@ == old(v)@ + spec_u35(x).reverse(),
{
    let r = to_u35(x);
    v.push(r[4]);
    v.push(r[3]);
    v.push(r[2]);
    v.push(r[1]);
    v.push(r[0]);
    assert(spec_u35(x).reverse() == seq![r[4], r[3], r[2], r[1], r[0]]);
}

/// The XOR of all the bytes.
pub fn checksum(bytes: &[u8]) -> (r: u8)
    ensures
        r == spec_checksum(bytes@),
{
    let mut sum: u8 = 0;
    let mut i: usize = 0;
    while i < bytes.len()
        invariant
            i <= bytes@.len(),
            sum == spec_checksum(bytes@.subrange(0, i as int)),
        decreases bytes@.len() - i,
    {
        sum = sum ^ bytes[i];
        i = i + 1;
        assert(bytes@.subrange(0, i as int).drop_last() == bytes@.subrange(0, i - 1));
    }
    assert(bytes@.subrange(0, bytes@.len() as int) == bytes@);
    sum
}

// ---------------------------------------------------------------------------
// Standard MIDI file encodings: big-endian integers and variable length quantities
// ---------------------------------------------------------------------------

/// A 16-bit value, most significant byte first.
pub open spec fn spec_u16_be(x: u16) -> Seq<u8> {
    seq![(x / 256) as u8, (x % 256) as u8]
}

/// A 32-bit value, most significant byte first.
pub open spec fn spec_u32_be(x: u32) -> Seq<u8> {
    seq![
        (x / 16777216) as u8,
        ((x / 65536) % 256) as u8,
        ((x / 256) % 256) as u8,
        (x % 256) as u8,
    ]
}

/// The variable length quantity encoding of a value below 2^28: seven bits per byte, most
/// significant first, every byte but the last with its high bit set.
pub open spec fn spec_vlq(x: u32) -> Seq<u8> {
    if x < 0x80 {
        seq![x as u8]
    } else if x < 0x4000 {
        seq![(x / 128 + 128) as u8, (x % 128) as u8]
    } else if x < 0x200000 {
        seq![(x / 16384 + 128) as u8, ((x / 128) % 128 + 128) as u8, (x % 128) as u8]
    } else {
        seq![
            ((x / 2097152) % 128 + 128) as u8,
            ((x / 16384) % 128 + 128) as u8,
            ((x / 128) % 128 + 128) as u8,
            (x % 128) as u8,
        ]
    }
}

/// Reading a variable length quantity from byte `i` on, with `acc` read so far: a byte
/// without its high bit set ends it; a fourth byte with its high bit set is an overflow.
pub open spec fn spec_vlq_from(data: Seq<u8>, i: int, acc: int) -> Result<(u32, usize), ParseError>
    decreases 4 - i,
{
    if i < 0 || i >= data.len() || i >= 4 {
        Err(ParseError::UnexpectedEnd)
    } else {
        let acc2 = acc * 128 + data[i] % 128;
        if data[i] < 128 {
            Ok((acc2 as u32, (i + 1) as usize))
        } else if i + 1 >= 4 {
            Err(ParseError::VlqOverflow)
        } else {
            spec_vlq_from(data, i + 1, acc2)
        }
    }
}

/// Reading a variable length quantity: the value and the number of bytes it took.
pub open spec fn spec_read_vlq(data: Seq<u8>) -> Result<(u32, usize), ParseError> {
    spec_vlq_from(data, 0, 0)
}

/// Reading a big-endian 32-bit value.
pub open spec fn spec_u32_from_midi(m: Seq<u8>) -> Result<u32, ParseError> {
    if m.len() < 4 {
        Err(ParseError::UnexpectedEnd)
    } else {
        Ok((m[0] * 16777216 + m[1] * 65536 + m[2] * 256 + m[3]) as u32)
    }
}

/// Append a 16-bit value, most significant byte first.
pub fn push_u16(x: u16, v: &mut Vec<u8>)
    ensures
        final(v)@ == old(v)@ + spec_u16_be(x),
{
    v.push((x / 256) as u8);
    v.push((x % 256) as u8);
}

/// Append a 32-bit value, most significant byte first.
pub fn push_u32(x: u32, v: &mut Vec<u8>)
    ensures
        final(v)@ == old(v)@ + spec_u32_be(x),
{
    v.push((x / 16777216) as u8);
    v.push(((x / 65536) % 256) as u8);
    v.push(((x / 256) % 256) as u8);
    v.push((x % 256) as u8);
}

/// Append a variable length quantity. Values of 2^28 and above cannot be encoded.
pub fn push_vlq(x: u32, v: &mut Vec<u8>)
    requires
        x <= 0x0FFFFFFF,
    ensures
        final(v)@ == old(v)@ + spec_vlq(x),
{
    if x < 0x80 {
        v.push(x as u8);
    } else if x < 0x4000 {
        v.push((x / 128 + 128) as u8);
        v.push((x % 128) as u8);
    } else if x < 0x200000 {
        v.push((x / 16384 + 128) as u8);
        v.push(((x / 128) % 128 + 128) as u8);
        v.push((x % 128) as u8);
    } else {
        v.push(((x / 2097152) % 128 + 128) as u8);
        v.push(((x / 16384) % 128 + 128) as u8);
        v.push(((x / 128) % 128 + 128) as u8);
        v.push((x % 128) as u8);
    }
}

/// Read a big-endian 32-bit value.
pub fn u32_from_midi(m: &[u8]) -> (r: Result<u32, ParseError>)
    ensures
        r == spec_u32_from_midi(m@),
{
    if m.len() < 4 {
        Err(ParseError::UnexpectedEnd)
    } else {
        let x: u32 = (m[0] as u32) * 16777216 + (m[1] as u32) * 65536 + (m[2] as u32) * 256
            + (m[3] as u32);
        Ok(x)
    }
}

/// Read a variable length quantity, returning its value and the number of bytes it took.
pub fn read_vlq(data: &[u8]) -> (r: Result<(u32, usize), ParseError>)
    ensures
        r == spec_read_vlq(data@),
        r matches Ok((x, n)) ==> 1 <= n <= 4 && n <= data@.len() && x <= 0x0FFFFFFF,
{
    let mut result: u32 = 0;
    let mut i: usize = 0;
    while i < data.len()
        invariant
            i < 4,
            result < pow128(i as int),
            spec_read_vlq(data@) == spec_vlq_from(data@, i as int, result as int),
        decreases data@.len() - i,
    {
        let byte = data[i];
        proof {
            lemma_pow128_step(i as int);
        }
        result = result * 128 + (byte % 128) as u32;
        if byte < 128 {
            return Ok((result, i + 1));
        }
        if i + 1 >= 4 {
            return Err(ParseError::VlqOverflow);
        }
        i = i + 1;
    }
    Err(ParseError::UnexpectedEnd)
}

/// 128 to the power `i`, for the first few powers.
pub open spec fn pow128(i: int) -> int {
    if i <= 0 {
        1
    } else if i == 1 {
        128
    } else if i == 2 {
        16384
    } else if i == 3 {
        2097152
    } else {
        268435456
    }
}

proof fn lemma_pow128_step(i: int)
    requires
        0 <= i < 4,
    ensures
        pow128(i + 1) == pow128(i) * 128,
{
}

/// Reading back a variable length quantity gives the value written, whatever follows it.
pub proof fn lemma_vlq_round_trip(x: u32, rest: Seq<u8>)
    requires
        x <= 0x0FFFFFFF,
    ensures
        spec_read_vlq(spec_vlq(x) + rest) == Ok::<(u32, usize), ParseError>(
            (x, spec_vlq(x).len() as usize),
        ),
{
    let s = spec_vlq(x) + rest;
    if x < 0x80 {
        assert(s[0] == x);
    } else if x < 0x4000 {
        assert(s[0] == x / 128 + 128 && s[1] == x % 128);
        assert(spec_vlq_from(s, 1, (x / 128) as int) == Ok::<(u32, usize), ParseError>((x, 2usize)));
    } else if x < 0x200000 {
        assert(s[0] == x / 16384 + 128 && s[1] == (x / 128) % 128 + 128 && s[2] == x % 128);
        assert((x / 16384) * 128 + (x / 128) % 128 == x / 128);
        assert(spec_vlq_from(s, 2, (x / 128) as int) == Ok::<(u32, usize), ParseError>((x, 3usize)));
        assert(spec_vlq_from(s, 1, (x / 16384) as int) == spec_vlq_from(s, 2, (x / 128) as int));
    } else {
        assert(s[0] == (x / 2097152) % 128 + 128 && s[1] == (x / 16384) % 128 + 128 && s[2] == (x
            / 128) % 128 + 128 && s[3] == x % 128);
        assert((x / 2097152) % 128 == x / 2097152);
        assert((x / 2097152) * 128 + (x / 16384) % 128 == x / 16384);
        assert((x / 16384) * 128 + (x / 128) % 128 == x / 128);
        assert(spec_vlq_from(s, 3, (x / 128) as int) == Ok::<(u32, usize), ParseError>((x, 4usize)));
        assert(spec_vlq_from(s, 2, (x / 16384) as int) == spec_vlq_from(s, 3, (x / 128) as int));
        assert(spec_vlq_from(s, 1, (x / 2097152) as int) == spec_vlq_from(
            s,
            2,
            (x / 16384) as int,
        ));
    }
}

/// A 14-bit value split into its two 7-bit bytes is put back together by [`u14_from_u7s`].
pub proof fn lemma_u14_round_trip(x: u16)
    requires
        x <= 16383,
    ensures
        spec_u14(spec_u14_msb(x), spec_u14_lsb(x)) == x,
{
}

/// A signed 14-bit value written by [`i_to_u14`] is read back by [`i14_from_u7s`].
pub proof fn lemma_i14_round_trip(x: i16)
    requires
        -8192 <= x <= 8191,
    ensures
        spec_u14(spec_u14_msb(spec_i14_offset(x)), spec_u14_lsb(spec_i14_offset(x))) - 8192 == x,
{
}

/// A signed 7-bit value written by [`i_to_u7`] is read back by [`u7_to_i`].
pub proof fn lemma_i7_round_trip(x: i8)
    requires
        -64 <= x <= 63,
    ensures
        spec_u7(if x < -64 { 0 } else { x + 64 }) - 64 == x,
{
}

/// Appending the checksum of a message makes the checksum of the whole zero, which is how a
/// receiver checks it.
pub proof fn lemma_checksum_verifies(s: Seq<u8>)
    ensures
        spec_checksum(s.push(spec_checksum(s))) == 0,
{
    let c = spec_checksum(s);
    assert(s.push(c).drop_last() == s);
    assert(c ^ c == 0) by (bit_vector);
}

} // verus!
