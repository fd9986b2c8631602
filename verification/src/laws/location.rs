//! Laws of location reports.

use vstd::arithmetic::power2::*;
use vstd::prelude::*;

use crate::lip::{
    bit_msb, bits_msb, decimal, degrees_text, digit_char, last_digits, lemma_bits_bound, lip_steps,
    micro_degrees, nearest_even, position_text, signed_bits, LIP_PROTOCOL_ID,
};

verus! {

/// Two adjacent fields are one field of their joint width.
pub proof fn law_fields_join(data: Seq<u8>, offset: int, width1: nat, width2: nat)
    ensures
        bits_msb(data, offset, width1 + width2) == bits_msb(data, offset, width1) * pow2(width2)
            + bits_msb(data, offset + width1, width2),
    decreases width2,
{
    if width2 == 0 {
        lemma2_to64();
    } else {
        let w = (width2 - 1) as nat;
        law_fields_join(data, offset, width1, w);
        lemma_pow2_unfold(width2);
        let a = bits_msb(data, offset, width1);
        assert(2 * (a * pow2(w)) == a * (2 * pow2(w))) by (nonlinear_arith);
    }
}

/// A field of `width` bits is below 2^width.
pub proof fn law_field_is_bounded(data: Seq<u8>, offset: int, width: nat)
    ensures
        bits_msb(data, offset, width) < pow2(width),
{
    lemma_bits_bound(data, offset, width);
}

/// The signed reading of a field lies in the range of its width and differs from the unsigned one
/// by a multiple of 2^width.
pub proof fn law_signed_range(value: int, width: nat)
    requires
        width >= 1,
    ensures
        -pow2((width - 1) as nat) <= signed_bits(value, width) < pow2((width - 1) as nat),
        (value - signed_bits(value, width)) % (pow2(width) as int) == 0,
{
    lemma_pow2_unfold(width);
    lemma_pow2_pos(width);
    let m = pow2(width) as int;
    let low = value % m;
    vstd::arithmetic::div_mod::lemma_fundamental_div_mod(value, m);
    let q = value / m;
    assert(value - low == m * q);
    vstd::arithmetic::div_mod::lemma_mod_multiples_basic(q, m);
    vstd::arithmetic::div_mod::lemma_mod_multiples_basic(q + 1, m);
    assert(m * q == q * m && m * q + m == (q + 1) * m) by (nonlinear_arith);
}

/// A decoded position lies on the globe: latitude within 90 degrees, longitude within 180.
pub proof fn law_position_is_on_globe(data: Seq<u8>)
    ensures
        lip_steps(data) matches Some((latitude, longitude)) ==> -0x80_0000 <= latitude < 0x80_0000
            && -0x100_0000 <= longitude < 0x100_0000 && micro_degrees(latitude) <= 90_000_000
            && micro_degrees(longitude) <= 180_000_000,
{
    law_signed_range(bits_msb(data, 37, 24) as int, 24);
    law_signed_range(bits_msb(data, 12, 25) as int, 25);
    lemma2_to64();
    lemma2_to64_rest();
}

/// The written value of a coordinate is nearest to its exact value, 180/2^24 degrees a step.
pub proof fn law_rounding_is_nearest(steps: int)
    ensures
        ({
            let exact = 703125 * if steps < 0 {
                -steps
            } else {
                steps
            };
            let written = 65536 * micro_degrees(steps);
            -32768 <= written - exact <= 32768
        }),
{
}

/// Only user data with the LIP protocol identifier, and long enough for all fields, is a position.
pub proof fn law_position_needs_short_report(data: Seq<u8>)
    ensures
        lip_steps(data) is Some ==> data.len() * 8 >= 61 && data[0] == LIP_PROTOCOL_ID,
{
}

/// A field holds the bits that stand in its place: its `j`th bit from the left is the bit of `data` at
/// `offset + j`, counted from the most significant bit of the first octet.
pub proof fn law_field_holds_its_bits(data: Seq<u8>, offset: int, width: nat, j: int)
    requires
        0 <= j < width,
        0 <= offset,
    ensures
        (bits_msb(data, offset, width) / pow2((width - 1 - j) as nat)) % 2 == (data[(offset + j) / 8]
            as nat / pow2((7 - (offset + j) % 8) as nat)) % 2,
    decreases width,
{
    let w = (width - 1) as nat;
    let high = bits_msb(data, offset, w);
    let low = bit_msb(data, offset + w);
    let x = (2 * high + low) as int;
    assert(bits_msb(data, offset, width) == x);
    if j == w {
        lemma2_to64();
        vstd::arithmetic::div_mod::lemma_div_basics_2(x);
        assert(bits_msb(data, offset, width) / pow2((width - 1 - j) as nat) == x);
        assert(x % 2 == low);
    } else {
        law_field_holds_its_bits(data, offset, w, j);
        let k = (w - 1 - j) as nat;
        lemma_pow2_unfold(k + 1);
        lemma_pow2_pos(k);
        let p = pow2(k) as int;
        vstd::arithmetic::div_mod::lemma_div_denominator(x, 2, p);
        assert(x / 2 == high);
        assert(pow2((width - 1 - j) as nat) == 2 * p);
        assert(bits_msb(data, offset, width) / pow2((width - 1 - j) as nat) == high as int / p);
    }
}

proof fn lemma_fields(data: Seq<u8>)
    requires
        data.len() >= 8,
    ensures
        bits_msb(data, 8, 2) == data[1] / 64,
        bits_msb(data, 12, 25) == 0x20_0000 * (data[1] % 16) + 0x2000 * data[2] + 0x20 * data[3]
            + data[4] / 8,
        bits_msb(data, 37, 24) == 0x20_0000 * (data[4] % 8) + 0x2000 * data[5] + 0x20 * data[6]
            + data[7] / 8,
{
    lemma_start(data, 1, 0, 2);
    lemma_start(data, 1, 4, 4);
    lemma_next_octet(data, 12, 4, 2);
    lemma_next_octet(data, 12, 12, 3);
    lemma_last_bits(data, 12, 20, 4);
    lemma_start(data, 4, 5, 3);
    lemma_next_octet(data, 37, 3, 5);
    lemma_next_octet(data, 37, 11, 6);
    lemma_last_bits(data, 37, 19, 7);
}

/// The fields that begin within an octet.
proof fn lemma_start(data: Seq<u8>, k: int, a: int, w: nat)
    requires
        0 <= k < data.len(),
        (a == 0 && w == 2) || (a == 4 && w == 4) || (a == 5 && w == 3),
    ensures
        a == 0 ==> bits_msb(data, 8 * k + a, w) == data[k] / 64,
        a == 4 ==> bits_msb(data, 8 * k + a, w) == data[k] % 16,
        a == 5 ==> bits_msb(data, 8 * k + a, w) == data[k] % 8,
{
    lemma2_to64();
    lemma_part(data, k, a, w);
    if a != 0 {
        vstd::arithmetic::div_mod::lemma_div_basics_2(data[k] as int);
        assert(pow2((8 - a - w) as nat) == 1);
        assert(data[k] as nat / pow2((8 - a - w) as nat) == data[k]);
    }
}

/// A field that ends at an octet goes on with the whole of it.
proof fn lemma_next_octet(data: Seq<u8>, offset: int, width: nat, k: int)
    requires
        0 <= k < data.len(),
        offset + width == 8 * k,
    ensures
        bits_msb(data, offset, width + 8) == 256 * bits_msb(data, offset, width) + data[k],
{
    lemma2_to64();
    lemma_part(data, k, 0, 8);
    vstd::arithmetic::div_mod::lemma_div_basics_2(data[k] as int);
    assert(data[k] as nat / pow2(0) == data[k]);
    law_fields_join(data, offset, width, 8);
    let high = bits_msb(data, offset, width);
    assert(high * pow2(8) == 256 * high);
}

/// A field that ends at an octet goes on with its first five bits.
proof fn lemma_last_bits(data: Seq<u8>, offset: int, width: nat, k: int)
    requires
        0 <= k < data.len(),
        offset + width == 8 * k,
    ensures
        bits_msb(data, offset, width + 5) == 32 * bits_msb(data, offset, width) + data[k] / 8,
{
    lemma2_to64();
    lemma_part(data, k, 0, 5);
    law_fields_join(data, offset, width, 5);
    let high = bits_msb(data, offset, width);
    assert(high * pow2(5) == 32 * high);
}

/// Bits within one octet.
proof fn lemma_part(data: Seq<u8>, k: int, a: int, w: nat)
    requires
        0 <= k < data.len(),
        0 <= a,
        a + w <= 8,
    ensures
        bits_msb(data, 8 * k + a, w) == (data[k] as nat / pow2((8 - a - w) as nat)) % pow2(w),
    decreases w,
{
    if w == 0 {
        lemma2_to64();
    } else {
        let v = (w - 1) as nat;
        lemma_part(data, k, a, v);
        let d = data[k] as int;
        let e = (8 - a - w) as nat;
        lemma_pow2_unfold(e + 1);
        lemma_pow2_unfold(w);
        lemma_pow2_pos(e);
        lemma_pow2_pos(v);
        let x = d / (pow2(e) as int);
        vstd::arithmetic::div_mod::lemma_div_denominator(d, pow2(e) as int, 2);
        assert(pow2(e) as int * 2 == pow2(e + 1));
        assert(d / (pow2(e + 1) as int) == x / 2);
        let p = pow2(v) as int;
        assert((8 * k + a + v) / 8 == k && (8 * k + a + v) % 8 == a + v);
        vstd::arithmetic::div_mod::lemma_mod_breakdown(x, 2, p);
        assert(x % (2 * p) == 2 * ((x / 2) % p) + x % 2);
    }
}

/// Decoding inverts encoding, each coordinate by itself and whatever the sign of the other: a report
/// with the 25-bit two's complement of the longitude from bit 12 and the 24-bit two's complement of
/// the latitude from bit 37 is read as just these two.
pub proof fn law_position_is_read_back(data: Seq<u8>, latitude: int, longitude: int)
    requires
        data.len() >= 8,
        data[0] == 0x0A,
        data[1] < 64,
        -0x80_0000 <= latitude < 0x80_0000,
        -0x100_0000 <= longitude < 0x100_0000,
        0x20_0000 * (data[1] % 16) + 0x2000 * data[2] + 0x20 * data[3] + data[4] / 8 == if longitude
            < 0 {
            longitude + 0x200_0000
        } else {
            longitude
        },
        0x20_0000 * (data[4] % 8) + 0x2000 * data[5] + 0x20 * data[6] + data[7] / 8 == if latitude < 0 {
            latitude + 0x100_0000
        } else {
            latitude
        },
    ensures
        lip_steps(data) == Some((latitude, longitude)),
{
    lemma_fields(data);
    lemma2_to64();
}

/// The eight octets of a short report with the given coordinates, time elapsed (0 to 3) and three
/// bits of what follows.
pub open spec fn short_report(latitude: int, longitude: int, time: int, more: int) -> Seq<u8> {
    let east = longitude % 0x200_0000;
    let north = latitude % 0x100_0000;
    seq![
        0x0Au8,
        (16 * time + east / 0x20_0000) as u8,
        (east / 0x2000 % 256) as u8,
        (east / 0x20 % 256) as u8,
        (8 * (east % 32) + north / 0x20_0000) as u8,
        (north / 0x2000 % 256) as u8,
        (north / 0x20 % 256) as u8,
        (8 * (north % 32) + more) as u8,
    ]
}

/// Every position can be encoded, and is read back, whatever follows it.
pub proof fn law_every_position_is_read_back(
    latitude: int,
    longitude: int,
    time: int,
    more: int,
    rest: Seq<u8>,
)
    requires
        -0x80_0000 <= latitude < 0x80_0000,
        -0x100_0000 <= longitude < 0x100_0000,
        0 <= time < 4,
        0 <= more < 8,
    ensures
        lip_steps(short_report(latitude, longitude, time, more) + rest) == Some(
            (latitude, longitude),
        ),
{
    let data = short_report(latitude, longitude, time, more) + rest;
    let east = longitude % 0x200_0000;
    let north = latitude % 0x100_0000;
    lemma_split(east);
    lemma_split(north);
    let a = east / 0x20_0000;
    let b = north / 0x20_0000;
    assert(0 <= a < 16);
    assert(0 <= b < 8);
    assert(data[1] == 16 * time + a);
    assert(data[2] == east / 0x2000 % 256);
    assert(data[3] == east / 0x20 % 256);
    assert(data[4] == 8 * (east % 32) + b);
    assert(data[5] == north / 0x2000 % 256);
    assert(data[6] == north / 0x20 % 256);
    assert(data[7] == 8 * (north % 32) + more);
    assert(data[1] % 16 == a && data[1] < 64);
    assert(data[4] / 8 == east % 32 && data[4] % 8 == b);
    assert(data[7] / 8 == north % 32);
    law_position_is_read_back(data, latitude, longitude);
}

/// A number in the pieces that a report holds it in.
proof fn lemma_split(v: int)
    requires
        0 <= v < 0x200_0000,
    ensures
        v == 0x20_0000 * (v / 0x20_0000) + 0x2000 * (v / 0x2000 % 256) + 0x20 * (v / 0x20 % 256) + v
            % 32,
        0 <= v / 0x2000 % 256 < 256,
        0 <= v / 0x20 % 256 < 256,
{
}

/// User data that is shorter than eight octets, has another protocol identifier or another PDU type
/// is no position, and anything else is one.
pub proof fn law_what_is_a_position(data: Seq<u8>)
    ensures
        lip_steps(data) is Some <==> data.len() >= 8 && data[0] == 0x0A && data[1] < 64,
{
    if data.len() >= 8 {
        lemma_fields(data);
    }
}

/// Where the exact value of a coordinate lies half-way between two written values, the even one is
/// written.
pub proof fn law_half_way_goes_to_even(steps: int)
    ensures
        ({
            let exact = 703125 * if steps < 0 {
                -steps
            } else {
                steps
            };
            let off = 65536 * micro_degrees(steps) - exact;
            off == 32768 || off == -32768 ==> micro_degrees(steps) % 2 == 0
        }),
{
    lemma_half_way((703125 * if steps < 0 {
        -steps
    } else {
        steps
    }) as nat);
}

proof fn lemma_half_way(numerator: nat)
    ensures
        ({
            let off = 65536 * nearest_even(numerator) - numerator;
            off == 32768 || off == -32768 ==> nearest_even(numerator) % 2 == 0
        }),
{
    let q = numerator / 65536;
    let r = numerator % 65536;
    assert(numerator == 65536 * q + r && r < 65536);
}

/// The number that decimal digits spell.
pub open spec fn spelled(digits: Seq<char>) -> int
    decreases digits.len(),
{
    if digits.len() == 0 {
        0
    } else {
        10 * spelled(digits.drop_last()) + (digits.last() as int - '0' as int)
    }
}

/// True when nothing but the digits 0 to 9 stands in `text`.
pub open spec fn all_digits(text: Seq<char>) -> bool {
    forall|i: int| 0 <= i < text.len() ==> '0' <= #[trigger] text[i] && text[i] <= '9'
}

proof fn lemma_digit(d: int)
    requires
        0 <= d < 10,
    ensures
        digit_char(d) as int == '0' as int + d,
        '0' <= digit_char(d) && digit_char(d) <= '9',
{
}

proof fn lemma_decimal(n: nat)
    ensures
        decimal(n).len() > 0,
        all_digits(decimal(n)),
        spelled(decimal(n)) == n,
        decimal(n)[0] == '0' ==> n == 0 && decimal(n).len() == 1,
    decreases n,
{
    lemma_digit((n % 10) as int);
    if n < 10 {
        lemma_digit(n as int);
        assert(decimal(n).drop_last() =~= Seq::empty());
        assert(spelled(decimal(n).drop_last()) == 0);
    } else {
        lemma_decimal(n / 10);
        assert(decimal(n).drop_last() =~= decimal(n / 10));
        assert(decimal(n)[0] == decimal(n / 10)[0]);
    }
}

proof fn lemma_last_digits(n: nat, count: nat, bound: nat)
    requires
        bound == vstd::arithmetic::power::pow(10, count),
        n < bound,
    ensures
        last_digits(n, count).len() == count,
        all_digits(last_digits(n, count)),
        spelled(last_digits(n, count)) == n,
    decreases count,
{
    if count == 0 {
        vstd::arithmetic::power::lemma_pow0(10);
    } else {
        let c = (count - 1) as nat;
        reveal(vstd::arithmetic::power::pow);
        vstd::arithmetic::power::lemma_pow_positive(10, c);
        let less = vstd::arithmetic::power::pow(10, c) as nat;
        assert(bound == 10 * less);
        lemma_last_digits(n / 10, c, less);
        lemma_digit((n % 10) as int);
        assert(last_digits(n, count).drop_last() =~= last_digits(n / 10, c));
    }
}

/// True when `text` is a minus sign where `steps` is negative, then `whole`, a point and `part`.
pub open spec fn is_written(text: Seq<char>, steps: int, whole: Seq<char>, part: Seq<char>) -> bool {
    text == (if steps < 0 {
        seq!['-']
    } else {
        Seq::<char>::empty()
    }) + whole + seq!['.'] + part
}

/// A coordinate is written with a minus sign exactly when it is negative, a whole number of degrees
/// without zeros in front, a point and six decimals, and these spell its millionths of a degree.
pub proof fn law_coordinate_is_written_in_full(steps: int)
    ensures
        exists|whole: Seq<char>, part: Seq<char>|
            {
                &&& #[trigger] is_written(degrees_text(steps), steps, whole, part)
                &&& whole.len() > 0 && all_digits(whole)
                &&& whole[0] == '0' ==> whole.len() == 1
                &&& part.len() == 6 && all_digits(part)
                &&& 1_000_000 * spelled(whole) + spelled(part) == micro_degrees(steps)
            },
{
    let m = micro_degrees(steps);
    let whole = decimal(m / 1_000_000);
    let part = last_digits(m % 1_000_000, 6);
    lemma_decimal(m / 1_000_000);
    reveal_with_fuel(vstd::arithmetic::power::pow, 7);
    assert(vstd::arithmetic::power::pow(10, 6) == 1_000_000);
    lemma_last_digits(m % 1_000_000, 6, 1_000_000);
    assert(is_written(degrees_text(steps), steps, whole, part));
}

/// A position is written with its latitude first and then its longitude.
pub proof fn law_latitude_is_written_first(latitude: int, longitude: int)
    ensures
        position_text(latitude, longitude) == "LIP position: "@ + degrees_text(latitude) + ", "@
            + degrees_text(longitude),
{
}

} // verus!
