use vstd::prelude::*;

use crate::config::Error;

verus! {

/// The divider in 1/128ths of the bit clock: `floor(frequency * 8 / baudrate)`.
pub open spec fn divider_raw(baudrate: u32, frequency: u32) -> int {
    (frequency as int * 8) / (baudrate as int)
}

/// The divider can be computed: the rate is positive and `frequency * 8` fits.
pub open spec fn dividers_computable(baudrate: u32, frequency: u32) -> bool {
    baudrate > 0 && frequency as int * 8 <= u32::MAX as int
}

/// The integer and fractional divider parts derived from a raw divider,
/// clamped to the range the hardware can hold.
pub open spec fn dividers_of_raw(raw: int) -> (u16, u16) {
    let int_part = raw / 128;
    let frac_part = (raw % 128 + 1) / 2;
    if int_part == 0 {
        (1u16, 0u16)
    } else if int_part >= 65535 {
        (65535u16, 0u16)
    } else {
        (int_part as u16, frac_part as u16)
    }
}

/// The dividers programmed for a wanted rate against a reference frequency.
pub open spec fn spec_dividers(baudrate: u32, frequency: u32) -> (u16, u16) {
    dividers_of_raw(divider_raw(baudrate, frequency))
}

/// The whole divider in 1/64ths.
pub open spec fn divisor_64ths(int_div: u16, frac_div: u16) -> int {
    64 * int_div as int + frac_div as int
}

/// The rate actually produced by a pair of dividers.
pub open spec fn spec_effective_baudrate(frequency: u32, int_div: u16, frac_div: u16) -> int {
    (4 * frequency as int) / divisor_64ths(int_div, frac_div)
}

/// Computes the integer and fractional parts of the baud-rate divider.
///
/// The fraction is rounded to the nearest 1/64. When the low seven bits of the
/// raw divider are all set it rounds up to 64, which the 6-bit fractional
/// register cannot hold: it keeps only the low six bits, so the rate programmed
/// then differs from the one `effective_baudrate` reports for the pair.
pub fn calculate_baudrate_dividers(wanted_baudrate: u32, frequency: u32) -> (r: Result<
    (u16, u16),
    Error,
>)
    ensures
        dividers_computable(wanted_baudrate, frequency) ==> r == Ok::<(u16, u16), Error>(
            spec_dividers(wanted_baudrate, frequency),
        ),
        !dividers_computable(wanted_baudrate, frequency) ==> r == Err::<(u16, u16), Error>(
            Error::BadArgument,
        ),
{
    let scaled = match frequency.checked_mul(8) {
        Some(s) => s,
        None => return Err(Error::BadArgument),
    };
    let raw = match scaled.checked_div(wanted_baudrate) {
        Some(d) => d,
        None => return Err(Error::BadArgument),
    };
    assert(raw >> 7u32 == raw / 128 && raw & 0x7fu32 == raw % 128) by (bit_vector);
    let int_part = raw >> 7;
    let frac_part = ((raw & 0x7f) + 1) / 2;
    if int_part == 0 {
        Ok((1, 0))
    } else if int_part >= 65535 {
        Ok((65535, 0))
    } else {
        Ok((int_part as u16, frac_part as u16))
    }
}

/// The rate produced by a pair of dividers: `4 * frequency / (64 * int + frac)`.
pub fn effective_baudrate(frequency: u32, int_div: u16, frac_div: u16) -> (r: u32)
    requires
        frequency as int * 4 <= u32::MAX as int,
        int_div >= 1,
    ensures
        r as int == spec_effective_baudrate(frequency, int_div, frac_div),
{
    let divisor: u32 = 64 * (int_div as u32) + (frac_div as u32);
    (4 * frequency) / divisor
}

/// Every computed divider pair lies in the hardware's range: the integer part
/// in `[1, 65535]`, the fractional part at most 63 (or the integer part at its
/// maximum with no fraction). The one exception is a raw divider whose low seven
/// bits are all set, which rounds the fraction up to 64.
pub proof fn lemma_dividers_in_range(baudrate: u32, frequency: u32)
    requires
        dividers_computable(baudrate, frequency),
        divider_raw(baudrate, frequency) % 128 != 127,
    ensures
        1 <= spec_dividers(baudrate, frequency).0 <= 65535,
        spec_dividers(baudrate, frequency).1 <= 63,
        spec_dividers(baudrate, frequency).0 == 65535 ==> spec_dividers(baudrate, frequency).1
            == 0,
{
}

/// Round trip: the programmed divisor is the raw divider rounded to the
/// hardware's 1/64 resolution (off by at most half a step), and the effective
/// rate read back is the exact floor of `4 * frequency` over that divisor.
pub proof fn lemma_divider_quantization(baudrate: u32, frequency: u32)
    requires
        dividers_computable(baudrate, frequency),
        1 <= divider_raw(baudrate, frequency) / 128 < 65535,
    ensures
        ({
            let (i, f) = spec_dividers(baudrate, frequency);
            let d = divisor_64ths(i, f);
            let e = spec_effective_baudrate(frequency, i, f);
            &&& divider_raw(baudrate, frequency) <= 2 * d <= divider_raw(baudrate, frequency) + 1
            &&& e * d <= 4 * frequency as int
            &&& (4 * frequency as int) < (e + 1) * d
        }),
{
    let (i, f) = spec_dividers(baudrate, frequency);
    let d = divisor_64ths(i, f);
    let n = 4 * frequency as int;
    assert(d > 0);
    let e = n / d;
    assert(e * d <= n && n < (e + 1) * d) by (nonlinear_arith)
        requires
            d > 0,
            e == n / d,
    ;
}

} // verus!
