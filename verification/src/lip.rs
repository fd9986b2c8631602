//! Location Information Protocol: the short location report of ETSI TS 100 392-18-1.
//!
//! After the 8-bit protocol identifier a short report holds the PDU type (2 bits), the time
//! elapsed (2), the longitude (signed, 25) and the latitude (signed, 24). Both coordinates count
//! WGS-84 angular steps of the same size: 360/2^25 degrees of longitude and 180/2^24 degrees of
//! latitude.

use vstd::arithmetic::power2::*;
use vstd::prelude::*;
use vstd::string::*;

verus! {

/// Protocol identifier of the Location Information Protocol.
pub const LIP_PROTOCOL_ID: u8 = 0x0A;

/// Bit `i` of `data`, counted from the most significant bit of the first octet.
pub open spec fn bit_msb(data: Seq<u8>, i: int) -> nat {
    ((data[i / 8] as nat) / pow2((7 - i % 8) as nat)) % 2
}

/// The unsigned number that the `width` bits from bit `offset` spell, most significant bit first.
pub open spec fn bits_msb(data: Seq<u8>, offset: int, width: nat) -> nat
    decreases width,
{
    if width == 0 {
        0
    } else {
        2 * bits_msb(data, offset, (width - 1) as nat) + bit_msb(data, offset + width - 1)
    }
}

/// The two's complement reading of the low `width` bits of `value`.
pub open spec fn signed_bits(value: int, width: nat) -> int {
    let low = value % (pow2(width) as int);
    if 2 * low < pow2(width) {
        low
    } else {
        low - pow2(width)
    }
}

/// Latitude and longitude, in angular steps, of a short location report; `None` for anything else.
pub open spec fn lip_steps(data: Seq<u8>) -> Option<(int, int)> {
    if data.len() >= 8 && data[0] == LIP_PROTOCOL_ID && bits_msb(data, 8, 2) == 0 {
        Some(
            (
                signed_bits(bits_msb(data, 37, 24) as int, 24),
                signed_bits(bits_msb(data, 12, 25) as int, 25),
            ),
        )
    } else {
        None
    }
}

/// The nearest whole number to `numerator / 65536` for a natural numerator, ties going to the even
/// neighbour.
pub open spec fn nearest_even(numerator: nat) -> nat {
    let q = numerator / 65536;
    let r = numerator % 65536;
    if r > 32768 || (r == 32768 && q % 2 == 1) {
        q + 1
    } else {
        q
    }
}

/// Magnitude of a coordinate in millionths of a degree: a step is 703125/65536 of a millionth.
pub open spec fn micro_degrees(steps: int) -> nat {
    nearest_even((703125 * if steps < 0 {
        -steps
    } else {
        steps
    }) as nat)
}

/// The character of a decimal digit.
pub open spec fn digit_char(d: int) -> char {
    (48 + d) as char
}

/// The last `count` decimal digits of `n`, zeros in front where `n` is shorter.
pub open spec fn last_digits(n: nat, count: nat) -> Seq<char>
    decreases count,
{
    if count == 0 {
        seq![]
    } else {
        last_digits(n / 10, (count - 1) as nat).push(digit_char((n % 10) as int))
    }
}

/// The decimal digits of `n`, without zeros in front.
pub open spec fn decimal(n: nat) -> Seq<char>
    decreases n,
{
    if n < 10 {
        seq![digit_char(n as int)]
    } else {
        decimal(n / 10).push(digit_char((n % 10) as int))
    }
}

/// A coordinate in degrees with six decimals.
pub open spec fn degrees_text(steps: int) -> Seq<char> {
    let m = micro_degrees(steps);
    (if steps < 0 {
        seq!['-']
    } else {
        Seq::<char>::empty()
    }) + decimal(m / 1_000_000) + seq!['.'] + last_digits(m % 1_000_000, 6)
}

/// How a position is written for people: latitude first.
pub open spec fn position_text(latitude: int, longitude: int) -> Seq<char> {
    "LIP position: "@ + degrees_text(latitude) + ", "@ + degrees_text(longitude)
}

/// A field of `width` bits is below 2^width.
pub proof fn lemma_bits_bound(data: Seq<u8>, offset: int, width: nat)
    ensures
        bits_msb(data, offset, width) < pow2(width),
    decreases width,
{
    if width == 0 {
        lemma2_to64();
    } else {
        lemma_bits_bound(data, offset, (width - 1) as nat);
        lemma_pow2_unfold(width);
    }
}

proof fn lemma_octet_bit(octet: u8, shift: u32)
    requires
        shift < 8,
    ensures
        ((octet >> shift) & 1u8) as nat == (octet as nat / pow2(shift as nat)) % 2,
        ((octet >> shift) & 1u8) <= 1,
{
    assert(shift < 8 ==> ((octet >> shift) & 1u8) == (octet >> shift) % 2 && ((octet >> shift) & 1u8)
        <= 1) by (bit_vector);
    assert(octet >> 0u32 == octet && octet >> 1u32 == octet / 2 && octet >> 2u32 == octet / 4
        && octet >> 3u32 == octet / 8 && octet >> 4u32 == octet / 16 && octet >> 5u32 == octet / 32
        && octet >> 6u32 == octet / 64 && octet >> 7u32 == octet / 128) by (bit_vector);
    lemma2_to64();
    assert(shift == 0 || shift == 1 || shift == 2 || shift == 3 || shift == 4 || shift == 5 || shift
        == 6 || shift == 7);
}

/// Reads `width` bits from bit `offset`, most significant first. `None` where the field is wider
/// than 32 bits or runs past the end of `data`.
pub fn read_bits_msb(data: &[u8], offset: usize, width: usize) -> (r: Option<u32>)
    ensures
        r is Some <==> width <= 32 && offset + width <= usize::MAX && offset + width <= 8
            * data@.len(),
        r matches Some(v) ==> v == bits_msb(data@, offset as int, width as nat),
{
    if width > 32 {
        return None;
    }
    let end: usize = match offset.checked_add(width) {
        Some(end) => end,
        None => return None,
    };
    if end / 8 > data.len() || (end / 8 == data.len() && end % 8 > 0) {
        return None;
    }
    let mut value: u32 = 0;
    let mut taken: usize = 0;
    while taken < width
        invariant
            taken <= width <= 32,
            offset + width == end,
            end <= 8 * data@.len(),
            value == bits_msb(data@, offset as int, taken as nat),
        decreases width - taken,
    {
        let index: usize = offset + taken;
        let shift: u32 = 7 - (index % 8) as u32;
        let octet: u8 = data[index / 8];
        let bit: u32 = ((octet >> shift) & 1u8) as u32;
        proof {
            lemma_octet_bit(octet, shift);
            lemma_bits_bound(data@, offset as int, taken as nat);
            lemma2_to64();
            if taken < 31 {
                lemma_pow2_strictly_increases(taken as nat, 31);
            }
        }
        assert((value << 1) | bit == 2 * value + bit) by (bit_vector)
            requires
                value < 0x8000_0000u32,
                bit <= 1,
        ;
        value = (value << 1) | bit;
        taken = taken + 1;
    }
    Some(value)
}

/// Reads the low `width` bits of `value` as a two's complement number.
pub fn sign_extend(value: u32, width: u32) -> (r: i32)
    requires
        1 <= width <= 32,
    ensures
        r == signed_bits(value as int, width as nat),
{
    let modulus: u64 = 1u64 << width;
    proof {
        lemma2_to64();
        lemma2_to64_rest();
        lemma_pow2_unfold(width as nat);
        if width < 32 {
            lemma_pow2_strictly_increases(width as nat, 32);
        }
        lemma_pow2_pos(width as nat);
        vstd::bits::lemma_u64_shl_is_mul(1, width as u64);
    }
    let low: u64 = value as u64 % modulus;
    if low < modulus / 2 {
        low as i32
    } else {
        (low as i64 - modulus as i64) as i32
    }
}

/// Decodes a short location report into latitude and longitude, both in angular steps of
/// 180/2^24 degrees.
pub fn decode_lip_short_location(data: &[u8]) -> (r: Option<(i32, i32)>)
    ensures
        match r {
            Some((latitude, longitude)) => lip_steps(data@) == Some((latitude as int, longitude as int)),
            None => lip_steps(data@) is None,
        },
{
    if data.len() < 8 || data[0] != LIP_PROTOCOL_ID {
        return None;
    }
    match (read_bits_msb(data, 8, 2), read_bits_msb(data, 12, 25), read_bits_msb(data, 37, 24)) {
        (Some(0), Some(longitude), Some(latitude)) => {
            Some((sign_extend(latitude, 24), sign_extend(longitude, 25)))
        },
        _ => None,
    }
}

fn digit(d: u64) -> (c: char)
    requires
        d < 10,
    ensures
        c == digit_char(d as int),
{
    (48u8 + d as u8) as char
}

fn push_last_digits(out: &mut String, n: u64, count: u32)
    ensures
        final(out)@ == old(out)@ + last_digits(n as nat, count as nat),
    decreases count,
{
    if count > 0 {
        push_last_digits(out, n / 10, count - 1);
        out.push(digit(n % 10));
    }
}

fn push_decimal(out: &mut String, n: u64)
    ensures
        final(out)@ == old(out)@ + decimal(n as nat),
    decreases n,
{
    if n >= 10 {
        push_decimal(out, n / 10);
    }
    out.push(digit(n % 10));
}

fn push_degrees(out: &mut String, steps: i32)
    ensures
        final(out)@ == old(out)@ + degrees_text(steps as int),
{
    let magnitude: u64 = if steps < 0 {
        out.push('-');
        (-(steps as i64)) as u64
    } else {
        steps as u64
    };
    let numerator: u64 = 703125 * magnitude;
    let mut micro: u64 = numerator / 65536;
    let rest: u64 = numerator % 65536;
    if rest > 32768 || (rest == 32768 && micro % 2 == 1) {
        micro = micro + 1;
    }
    assert(micro == micro_degrees(steps as int));
    push_decimal(out, micro / 1_000_000);
    out.push('.');
    push_last_digits(out, micro % 1_000_000, 6);
}

/// Writes a position given in angular steps as decimal degrees, six decimals each, rounded to the
/// nearest with ties to even.
pub fn format_position(latitude: i32, longitude: i32) -> (r: String)
    ensures
        r@ == position_text(latitude as int, longitude as int),
{
    let mut out = "LIP position: ".to_owned();
    push_degrees(&mut out, latitude);
    out.append(", ");
    push_degrees(&mut out, longitude);
    out
}

} // verus!
