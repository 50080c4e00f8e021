//! Bit-fields inside one byte, least-significant bit first.
//!
//! A field is named by its `unit`, the weight of its lowest bit (`1 << offset`), and its
//! `span`, the number of values it can hold (`1 << width`). The byte is the sum of its
//! fields, each multiplied by its unit.
use vstd::prelude::*;

verus! {

/// The value of the field of `byte` with the given unit and span.
pub open spec fn field(byte: u8, unit: int, span: int) -> u8 {
    ((byte as int / unit) % span) as u8
}

/// `byte` with that field replaced by `value`, reduced modulo the span; all other bits stay.
pub open spec fn with_field(byte: u8, unit: int, span: int, value: u8) -> u8 {
    (byte as int - field(byte, unit, span) as int * unit + (value as int % span) * unit) as u8
}

/// `1` for `true`, `0` for `false`.
pub open spec fn bit(flag: bool) -> u8 {
    if flag {
        1
    } else {
        0
    }
}

/// Executable form of [`bit`].
pub fn bit_of(flag: bool) -> (b: u8)
    ensures
        b == bit(flag),
{
    if flag {
        1
    } else {
        0
    }
}

} // verus!
