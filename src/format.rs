use vstd::prelude::*;

use crate::config::{DataBits, Parity, StopBits};
use crate::registers::{LCR_H_EPS, LCR_H_PEN, LCR_H_STP2, LCR_H_WLEN_UNIT};

verus! {

/// The two-bit word length code: 5, 6, 7, 8 bits map to 0, 1, 2, 3.
pub open spec fn wlen_code(d: DataBits) -> u32 {
    match d {
        DataBits::Five => 0,
        DataBits::Six => 1,
        DataBits::Seven => 2,
        DataBits::Eight => 3,
    }
}

/// The line control bits that encode a frame format.
pub open spec fn format_bits(d: DataBits, s: StopBits, p: Option<Parity>) -> u32 {
    let stop: int = match s {
        StopBits::One => 0,
        StopBits::Two => LCR_H_STP2 as int,
    };
    let parity: int = match p {
        None => 0,
        Some(Parity::Odd) => LCR_H_PEN as int,
        Some(Parity::Even) => LCR_H_PEN + LCR_H_EPS,
    };
    (wlen_code(d) * LCR_H_WLEN_UNIT + stop + parity) as u32
}

/// Encodes data bits, stop bits and parity as line control register bits.
pub fn set_format(data_bits: &DataBits, stop_bits: &StopBits, parity: &Option<Parity>) -> (r: u32)
    ensures
        r == format_bits(*data_bits, *stop_bits, *parity),
        r < 128,
{
    let parity_bits: u32 = match parity {
        Some(p) => match p {
            Parity::Odd => LCR_H_PEN,
            Parity::Even => LCR_H_PEN + LCR_H_EPS,
        },
        None => 0,
    };
    let wlen: u32 = match data_bits {
        DataBits::Five => 0,
        DataBits::Six => 1,
        DataBits::Seven => 2,
        DataBits::Eight => 3,
    };
    let stop_bit: u32 = match stop_bits {
        StopBits::One => 0,
        StopBits::Two => LCR_H_STP2,
    };
    wlen * LCR_H_WLEN_UNIT + stop_bit + parity_bits
}

} // verus!
