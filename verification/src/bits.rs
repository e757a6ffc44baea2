//! Bits inside a byte, and little-endian numbers.
//!
//! A bit is named by its weight: `0x80` is the most significant bit of a byte,
//! which is the first one on the wire, and `0x01` the last. A field wider than
//! one bit is named by the weight of its lowest bit and by its span, the
//! number of values it can hold (`0x08` and `8` for the three bits `0x38`).
//!
//! The specifications say what a bit is worth with division and remainder.
//! `spec_flag` and `spec_pack` are opaque: a register holds up to sixteen
//! bits, and a proof with the arithmetic of all of them in view at once is
//! more than the solver takes. `reveal` them to compute with given bytes; the
//! lemmas of this module say what proofs about registers need.

use vstd::prelude::*;

verus! {

/// `weight` is the weight of one bit of a byte.
pub open spec fn spec_is_bit(weight: u8) -> bool {
    ||| weight == 0x01
    ||| weight == 0x02
    ||| weight == 0x04
    ||| weight == 0x08
    ||| weight == 0x10
    ||| weight == 0x20
    ||| weight == 0x40
    ||| weight == 0x80
}

/// `span` is the number of values of a field of one to five bits.
pub open spec fn spec_is_span(span: u8) -> bool {
    ||| span == 2
    ||| span == 4
    ||| span == 8
    ||| span == 16
    ||| span == 32
}

/// Whether the bit of weight `weight` is set in `byte`.
#[verifier::opaque]
pub open spec fn spec_flag(byte: u8, weight: u8) -> bool
    recommends
        spec_is_bit(weight),
{
    (byte / weight) % 2 == 1
}

/// The number that `byte` holds in the field of lowest bit `weight` and of
/// `span` values.
pub open spec fn spec_field(byte: u8, weight: u8, span: u8) -> u8
    recommends
        0 < weight,
        0 < span,
{
    (byte / weight) % span
}

/// What the bit of weight `weight` adds to a byte: its weight if it is set.
pub open spec fn spec_place(flag: bool, weight: u8) -> int {
    if flag {
        weight as int
    } else {
        0
    }
}

/// The sum of eight bits at their weights, the most significant first.
pub open spec fn spec_sum(
    b7: bool,
    b6: bool,
    b5: bool,
    b4: bool,
    b3: bool,
    b2: bool,
    b1: bool,
    b0: bool,
) -> int {
    spec_place(b7, 0x80) + spec_place(b6, 0x40) + spec_place(b5, 0x20) + spec_place(b4, 0x10)
        + spec_place(b3, 0x08) + spec_place(b2, 0x04) + spec_place(b1, 0x02) + spec_place(b0, 0x01)
}

/// The byte made of eight bits, given in wire order: `b7` is the most
/// significant. Opaque, so that a proof about a whole register does not
/// split on sixteen bits at once: `reveal` it to compute with it.
#[verifier::opaque]
pub open spec fn spec_pack(
    b7: bool,
    b6: bool,
    b5: bool,
    b4: bool,
    b3: bool,
    b2: bool,
    b1: bool,
    b0: bool,
) -> u8 {
    spec_sum(b7, b6, b5, b4, b3, b2, b1, b0) as u8
}

/// The number that two bytes hold, least significant byte first.
pub open spec fn spec_u16_le(bytes: Seq<u8>) -> u16
    recommends
        bytes.len() == 2,
{
    (bytes[0] + 0x100 * bytes[1]) as u16
}

/// The two bytes of a 16-bit number, least significant first.
pub open spec fn spec_u16_le_bytes(value: u16) -> Seq<u8> {
    seq![(value % 0x100) as u8, (value / 0x100) as u8]
}

/// The number that four bytes hold, least significant byte first.
pub open spec fn spec_u32_le(bytes: Seq<u8>) -> u32
    recommends
        bytes.len() == 4,
{
    (bytes[0] + 0x100 * bytes[1] + 0x1_0000 * bytes[2] + 0x100_0000 * bytes[3]) as u32
}

/// The low 16 bits of a 32-bit number.
pub open spec fn spec_low_half(value: u32) -> u16 {
    (value % 0x1_0000) as u16
}

/// The high 16 bits of a 32-bit number.
pub open spec fn spec_high_half(value: u32) -> u16 {
    (value / 0x1_0000) as u16
}

/// Tests one bit of a byte.
pub fn flag(byte: u8, weight: u8) -> (r: bool)
    requires
        spec_is_bit(weight),
    ensures
        r == spec_flag(byte, weight),
{
    reveal(spec_flag);
    assert(spec_is_bit(weight) ==> (byte & weight != 0) == ((byte / weight) % 2 == 1))
        by (bit_vector);
    byte & weight != 0
}

/// Reads a field of a byte.
pub fn field(byte: u8, weight: u8, span: u8) -> (r: u8)
    requires
        0 < weight,
        0 < span,
    ensures
        r == spec_field(byte, weight, span),
        r < span,
{
    (byte / weight) % span
}

/// Makes a byte of eight bits, the most significant first.
pub fn pack(b7: bool, b6: bool, b5: bool, b4: bool, b3: bool, b2: bool, b1: bool, b0: bool) -> (r:
    u8)
    ensures
        r == spec_pack(b7, b6, b5, b4, b3, b2, b1, b0),
{
    let mut r: u8 = 0;
    if b7 {
        r = r | 0x80;
    }
    if b6 {
        r = r | 0x40;
    }
    if b5 {
        r = r | 0x20;
    }
    if b4 {
        r = r | 0x10;
    }
    if b3 {
        r = r | 0x08;
    }
    if b2 {
        r = r | 0x04;
    }
    if b1 {
        r = r | 0x02;
    }
    if b0 {
        r = r | 0x01;
    }
    proof {
        reveal(spec_pack);
        let part7 = if b7 { 0x80u8 } else { 0u8 };
        let part6 = if b6 { 0x40u8 } else { 0u8 };
        let part5 = if b5 { 0x20u8 } else { 0u8 };
        let part4 = if b4 { 0x10u8 } else { 0u8 };
        let part3 = if b3 { 0x08u8 } else { 0u8 };
        let part2 = if b2 { 0x04u8 } else { 0u8 };
        let part1 = if b1 { 0x02u8 } else { 0u8 };
        let part0 = if b0 { 0x01u8 } else { 0u8 };
        assert(forall|x: u8| x | 0 == x) by (bit_vector);
        assert(r == 0u8 | part7 | part6 | part5 | part4 | part3 | part2 | part1 | part0);
        assert(0u8 | part7 | part6 | part5 | part4 | part3 | part2 | part1 | part0 == spec_sum(
            b7,
            b6,
            b5,
            b4,
            b3,
            b2,
            b1,
            b0,
        )) by (bit_vector)
            requires
                part7 == spec_place(b7, 0x80),
                part6 == spec_place(b6, 0x40),
                part5 == spec_place(b5, 0x20),
                part4 == spec_place(b4, 0x10),
                part3 == spec_place(b3, 0x08),
                part2 == spec_place(b2, 0x04),
                part1 == spec_place(b1, 0x02),
                part0 == spec_place(b0, 0x01),
        ;
    }
    r
}

/// Every bit of a packed byte is the bit that was given for its place.
pub proof fn flags_of_pack(
    b7: bool,
    b6: bool,
    b5: bool,
    b4: bool,
    b3: bool,
    b2: bool,
    b1: bool,
    b0: bool,
)
    ensures
        spec_flag(spec_pack(b7, b6, b5, b4, b3, b2, b1, b0), 0x80) == b7,
        spec_flag(spec_pack(b7, b6, b5, b4, b3, b2, b1, b0), 0x40) == b6,
        spec_flag(spec_pack(b7, b6, b5, b4, b3, b2, b1, b0), 0x20) == b5,
        spec_flag(spec_pack(b7, b6, b5, b4, b3, b2, b1, b0), 0x10) == b4,
        spec_flag(spec_pack(b7, b6, b5, b4, b3, b2, b1, b0), 0x08) == b3,
        spec_flag(spec_pack(b7, b6, b5, b4, b3, b2, b1, b0), 0x04) == b2,
        spec_flag(spec_pack(b7, b6, b5, b4, b3, b2, b1, b0), 0x02) == b1,
        spec_flag(spec_pack(b7, b6, b5, b4, b3, b2, b1, b0), 0x01) == b0,
{
    reveal(spec_pack);
    reveal(spec_flag);
    let byte = spec_pack(b7, b6, b5, b4, b3, b2, b1, b0);
    assert({
        &&& ((byte / 0x80) % 2 == 1) == b7
        &&& ((byte / 0x40) % 2 == 1) == b6
        &&& ((byte / 0x20) % 2 == 1) == b5
        &&& ((byte / 0x10) % 2 == 1) == b4
        &&& ((byte / 0x08) % 2 == 1) == b3
        &&& ((byte / 0x04) % 2 == 1) == b2
        &&& ((byte / 0x02) % 2 == 1) == b1
        &&& ((byte / 0x01) % 2 == 1) == b0
    }) by (bit_vector)
        requires
            byte == spec_sum(b7, b6, b5, b4, b3, b2, b1, b0) as u8,
    ;
}

/// Packing the eight bits of a byte gives the byte back.
pub proof fn pack_of_flags(byte: u8)
    ensures
        spec_pack(
            spec_flag(byte, 0x80),
            spec_flag(byte, 0x40),
            spec_flag(byte, 0x20),
            spec_flag(byte, 0x10),
            spec_flag(byte, 0x08),
            spec_flag(byte, 0x04),
            spec_flag(byte, 0x02),
            spec_flag(byte, 0x01),
        ) == byte,
{
    reveal(spec_pack);
    reveal(spec_flag);
    assert(spec_sum(
        (byte / 0x80) % 2 == 1,
        (byte / 0x40) % 2 == 1,
        (byte / 0x20) % 2 == 1,
        (byte / 0x10) % 2 == 1,
        (byte / 0x08) % 2 == 1,
        (byte / 0x04) % 2 == 1,
        (byte / 0x02) % 2 == 1,
        (byte / 0x01) % 2 == 1,
    ) == byte) by (bit_vector);
}

/// The bits of a field are the bits of the byte from the field's lowest bit
/// upwards, as far as the field goes; above that the field's number has no
/// bits, so it is below the span.
pub proof fn flags_of_field(byte: u8, weight: u8, span: u8)
    requires
        spec_is_bit(weight),
        spec_is_span(span),
        weight * span <= 0x100,
    ensures
        spec_field(byte, weight, span) < span,
        spec_flag(spec_field(byte, weight, span), 0x01) == spec_flag(byte, weight),
        span >= 4 ==> spec_flag(spec_field(byte, weight, span), 0x02) == spec_flag(
            byte,
            (2 * weight) as u8,
        ),
        span >= 8 ==> spec_flag(spec_field(byte, weight, span), 0x04) == spec_flag(
            byte,
            (4 * weight) as u8,
        ),
        span >= 16 ==> spec_flag(spec_field(byte, weight, span), 0x08) == spec_flag(
            byte,
            (8 * weight) as u8,
        ),
        span >= 32 ==> spec_flag(spec_field(byte, weight, span), 0x10) == spec_flag(
            byte,
            (16 * weight) as u8,
        ),
{
    reveal(spec_flag);
    let f = spec_field(byte, weight, span);
    assert({
        &&& spec_is_bit(weight)
        &&& spec_is_span(span)
        &&& weight * span <= 0x100
        &&& f == (byte / weight) % span
    } ==> {
        &&& f < span
        &&& ((f / 1) % 2 == 1) == ((byte / weight) % 2 == 1)
        &&& (span >= 4 ==> ((f / 2) % 2 == 1) == ((byte / ((2 * weight) as u8)) % 2 == 1))
        &&& (span >= 8 ==> ((f / 4) % 2 == 1) == ((byte / ((4 * weight) as u8)) % 2 == 1))
        &&& (span >= 16 ==> ((f / 8) % 2 == 1) == ((byte / ((8 * weight) as u8)) % 2 == 1))
        &&& (span >= 32 ==> ((f / 16) % 2 == 1) == ((byte / ((16 * weight) as u8)) % 2 == 1))
    }) by (bit_vector);
}

/// Two numbers with the same low bits are the same when cut to these bits.
pub proof fn number_of_flags(x: u8, y: u8, span: u8)
    requires
        spec_is_span(span),
        spec_flag(x, 0x01) == spec_flag(y, 0x01),
        span >= 4 ==> spec_flag(x, 0x02) == spec_flag(y, 0x02),
        span >= 8 ==> spec_flag(x, 0x04) == spec_flag(y, 0x04),
        span >= 16 ==> spec_flag(x, 0x08) == spec_flag(y, 0x08),
        span >= 32 ==> spec_flag(x, 0x10) == spec_flag(y, 0x10),
    ensures
        x % span == y % span,
{
    reveal(spec_flag);
    assert({
        &&& spec_is_span(span)
        &&& ((x / 1) % 2 == 1) == ((y / 1) % 2 == 1)
        &&& (span >= 4 ==> ((x / 2) % 2 == 1) == ((y / 2) % 2 == 1))
        &&& (span >= 8 ==> ((x / 4) % 2 == 1) == ((y / 4) % 2 == 1))
        &&& (span >= 16 ==> ((x / 8) % 2 == 1) == ((y / 8) % 2 == 1))
        &&& (span >= 32 ==> ((x / 16) % 2 == 1) == ((y / 16) % 2 == 1))
    } ==> x % span == y % span) by (bit_vector);
}

/// Reads a 16-bit number, least significant byte first.
pub fn u16_from_le(bytes: &[u8; 2]) -> (value: u16)
    ensures
        value == spec_u16_le(bytes@),
{
    let b0 = bytes[0];
    let b1 = bytes[1];
    assert((b0 as u16) | ((b1 as u16) << 8) == b0 as u16 + 0x100 * (b1 as u16)) by (bit_vector);
    (b0 as u16) | ((b1 as u16) << 8)
}

/// Writes a 16-bit number, least significant byte first.
pub fn u16_to_le(value: u16) -> (bytes: [u8; 2])
    ensures
        bytes@ == spec_u16_le_bytes(value),
{
    assert(value & 0xff == value % 0x100 && value >> 8 == value / 0x100) by (bit_vector);
    let bytes = [(value & 0xff) as u8, (value >> 8) as u8];
    assert(bytes@ =~= spec_u16_le_bytes(value));
    bytes
}

/// Reads a 32-bit number from its two halves, each least significant byte
/// first, the low half first.
pub fn u32_from_le(low: &[u8; 2], high: &[u8; 2]) -> (value: u32)
    ensures
        value == spec_u32_le(low@ + high@),
{
    let b0 = low[0];
    let b1 = low[1];
    let b2 = high[0];
    let b3 = high[1];
    assert((b0 as u32) | ((b1 as u32) << 8) | ((b2 as u32) << 16) | ((b3 as u32) << 24) == b0 as u32
        + 0x100 * (b1 as u32) + 0x1_0000 * (b2 as u32) + 0x100_0000 * (b3 as u32)) by (bit_vector);
    (b0 as u32) | ((b1 as u32) << 8) | ((b2 as u32) << 16) | ((b3 as u32) << 24)
}

/// The low 16 bits of a 32-bit number.
pub fn low_half(value: u32) -> (half: u16)
    ensures
        half == spec_low_half(value),
{
    assert(value & 0xffff == value % 0x1_0000) by (bit_vector);
    (value & 0xffff) as u16
}

/// The high 16 bits of a 32-bit number.
pub fn high_half(value: u32) -> (half: u16)
    ensures
        half == spec_high_half(value),
{
    assert(value >> 16 == value / 0x1_0000) by (bit_vector);
    (value >> 16) as u16
}

/// A 32-bit number is made of its two halves: reading the little-endian
/// bytes of the low half, then those of the high half, gives it back.
pub proof fn halves_make_the_number(value: u32)
    ensures
        spec_u32_le(
            spec_u16_le_bytes(spec_low_half(value)) + spec_u16_le_bytes(spec_high_half(value)),
        ) == value,
{
    let low = spec_low_half(value);
    let high = spec_high_half(value);
    let bytes = spec_u16_le_bytes(low) + spec_u16_le_bytes(high);
    assert(bytes[0] == (low % 0x100) as u8);
    assert(bytes[1] == (low / 0x100) as u8);
    assert(bytes[2] == (high % 0x100) as u8);
    assert(bytes[3] == (high / 0x100) as u8);
}

/// Reading the little-endian bytes of a 16-bit number gives it back.
pub proof fn u16_le_round_trip(value: u16)
    ensures
        spec_u16_le(spec_u16_le_bytes(value)) == value,
{
}

} // verus!
