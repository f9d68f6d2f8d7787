//! IEEE-754 single and double precision values carried by their bit patterns.
//!
//! The widget protocol holds sizes, colors and coordinates as floats. The
//! library never does arithmetic on them: it stores, copies and compares them.
//! `F32` and `F64` keep the exact bits, and their equality is the IEEE one
//! (`NaN` equals nothing, `+0.0` equals `-0.0`).

use vstd::prelude::*;

verus! {

/// True when the single-precision bit pattern encodes a NaN.
pub open spec fn f32_is_nan(bits: u32) -> bool {
    (bits & 0x7f80_0000u32) == 0x7f80_0000u32 && (bits & 0x007f_ffffu32) != 0u32
}

/// True when the single-precision bit pattern encodes `+0.0` or `-0.0`.
pub open spec fn f32_is_zero(bits: u32) -> bool {
    (bits & 0x7fff_ffffu32) == 0u32
}

/// IEEE equality of two single-precision values given by their bits.
pub open spec fn f32_ieee_eq(a: u32, b: u32) -> bool {
    &&& !f32_is_nan(a)
    &&& !f32_is_nan(b)
    &&& (a == b || (f32_is_zero(a) && f32_is_zero(b)))
}

/// True when the double-precision bit pattern encodes a NaN.
pub open spec fn f64_is_nan(bits: u64) -> bool {
    (bits & 0x7ff0_0000_0000_0000u64) == 0x7ff0_0000_0000_0000u64 && (bits & 0x000f_ffff_ffff_ffffu64) != 0u64
}

/// True when the double-precision bit pattern encodes `+0.0` or `-0.0`.
pub open spec fn f64_is_zero(bits: u64) -> bool {
    (bits & 0x7fff_ffff_ffff_ffffu64) == 0u64
}

/// IEEE equality of two double-precision values given by their bits.
pub open spec fn f64_ieee_eq(a: u64, b: u64) -> bool {
    &&& !f64_is_nan(a)
    &&& !f64_is_nan(b)
    &&& (a == b || (f64_is_zero(a) && f64_is_zero(b)))
}

/// A single-precision float, held as its IEEE-754 bit pattern.
#[derive(Debug, Clone, Copy, Default)]
pub struct F32 {
    pub bits: u32,
}

/// A double-precision float, held as its IEEE-754 bit pattern.
#[derive(Debug, Clone, Copy, Default)]
pub struct F64 {
    pub bits: u64,
}

impl F32 {
    /// The value with the given bit pattern.
    pub fn from_bits(bits: u32) -> (r: F32)
        ensures
            r.bits == bits,
    {
        F32 { bits }
    }

    /// IEEE equality.
    pub fn ieee_eq(&self, other: &F32) -> (r: bool)
        ensures
            r == f32_ieee_eq(self.bits, other.bits),
    {
        let a = self.bits;
        let b = other.bits;
        let a_nan = (a & 0x7f80_0000u32) == 0x7f80_0000u32 && (a & 0x007f_ffffu32) != 0u32;
        let b_nan = (b & 0x7f80_0000u32) == 0x7f80_0000u32 && (b & 0x007f_ffffu32) != 0u32;
        let both_zero = (a & 0x7fff_ffffu32) == 0u32 && (b & 0x7fff_ffffu32) == 0u32;
        !a_nan && !b_nan && (a == b || both_zero)
    }

    /// True for `+0.0` and `-0.0`.
    pub fn is_zero(&self) -> (r: bool)
        ensures
            r == f32_is_zero(self.bits),
    {
        (self.bits & 0x7fff_ffffu32) == 0u32
    }
}

impl F64 {
    /// The value with the given bit pattern.
    pub fn from_bits(bits: u64) -> (r: F64)
        ensures
            r.bits == bits,
    {
        F64 { bits }
    }

    /// IEEE equality.
    pub fn ieee_eq(&self, other: &F64) -> (r: bool)
        ensures
            r == f64_ieee_eq(self.bits, other.bits),
    {
        let a = self.bits;
        let b = other.bits;
        let a_nan = (a & 0x7ff0_0000_0000_0000u64) == 0x7ff0_0000_0000_0000u64 && (a & 0x000f_ffff_ffff_ffffu64) != 0u64;
        let b_nan = (b & 0x7ff0_0000_0000_0000u64) == 0x7ff0_0000_0000_0000u64 && (b & 0x000f_ffff_ffff_ffffu64) != 0u64;
        let both_zero = (a & 0x7fff_ffff_ffff_ffffu64) == 0u64 && (b & 0x7fff_ffff_ffff_ffffu64) == 0u64;
        !a_nan && !b_nan && (a == b || both_zero)
    }
}

impl PartialEq for F32 {
    fn eq(&self, other: &Self) -> (r: bool) {
        self.ieee_eq(other)
    }
}

impl vstd::std_specs::cmp::PartialEqSpecImpl for F32 {
    open spec fn obeys_eq_spec() -> bool {
        true
    }

    open spec fn eq_spec(&self, other: &F32) -> bool {
        f32_ieee_eq(self.bits, other.bits)
    }
}

impl PartialEq for F64 {
    fn eq(&self, other: &Self) -> (r: bool) {
        self.ieee_eq(other)
    }
}

impl vstd::std_specs::cmp::PartialEqSpecImpl for F64 {
    open spec fn obeys_eq_spec() -> bool {
        true
    }

    open spec fn eq_spec(&self, other: &F64) -> bool {
        f64_ieee_eq(self.bits, other.bits)
    }
}

} // verus!
