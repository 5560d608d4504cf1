//! The status register: eight independent flag bits in one byte.

use vstd::prelude::*;

verus! {

/// Carry: set when an operation carried out of (or did not borrow into) bit 7.
pub const CARRY: u8 = 0x01;

/// Zero: set when a result byte is zero.
pub const ZERO: u8 = 0x02;

/// Interrupt disable: while set, maskable interrupt requests are ignored.
pub const IRQ_DISABLE: u8 = 0x04;

/// Decimal mode: tracked, but arithmetic stays binary.
pub const DECIMAL: u8 = 0x08;

/// Break: set in the status byte pushed by a software interrupt.
pub const BREAK: u8 = 0x10;

/// Unused: always forced to one when the status register is rewritten.
pub const UNUSED: u8 = 0x20;

/// Overflow: set when a signed result does not fit in eight bits.
pub const OVERFLOW: u8 = 0x40;

/// Negative: bit 7 of a result byte.
pub const NEGATIVE: u8 = 0x80;

/// A status flag together with its bit mask.
pub enum FLAGS {
    /// Carry
    C(u8),
    /// Zero
    Z(u8),
    /// Interrupt disable
    I(u8),
    /// Decimal mode
    D(u8),
    /// Break command
    B(u8),
    /// Unused
    U(u8),
    /// Overflow
    V(u8),
    /// Negative
    N(u8),
}

impl FLAGS {
    /// The mask that a flag value carries.
    pub open spec fn mask(self) -> u8 {
        match self {
            FLAGS::C(v) => v,
            FLAGS::Z(v) => v,
            FLAGS::I(v) => v,
            FLAGS::D(v) => v,
            FLAGS::B(v) => v,
            FLAGS::U(v) => v,
            FLAGS::V(v) => v,
            FLAGS::N(v) => v,
        }
    }

    /// Mask of the carry flag.
    pub fn c() -> (m: u8)
        ensures
            m == CARRY,
    {
        FLAGS::match_flags(FLAGS::C(0x01))
    }

    /// Mask of the zero flag.
    pub fn z() -> (m: u8)
        ensures
            m == ZERO,
    {
        FLAGS::match_flags(FLAGS::Z(0x02))
    }

    /// Mask of the interrupt-disable flag.
    pub fn i() -> (m: u8)
        ensures
            m == IRQ_DISABLE,
    {
        FLAGS::match_flags(FLAGS::I(0x04))
    }

    /// Mask of the decimal-mode flag.
    pub fn d() -> (m: u8)
        ensures
            m == DECIMAL,
    {
        FLAGS::match_flags(FLAGS::D(0x08))
    }

    /// Mask of the break flag.
    pub fn b() -> (m: u8)
        ensures
            m == BREAK,
    {
        FLAGS::match_flags(FLAGS::B(0x10))
    }

    /// Mask of the unused flag.
    pub fn u() -> (m: u8)
        ensures
            m == UNUSED,
    {
        FLAGS::match_flags(FLAGS::U(0x20))
    }

    /// Mask of the overflow flag.
    pub fn v() -> (m: u8)
        ensures
            m == OVERFLOW,
    {
        FLAGS::match_flags(FLAGS::V(0x40))
    }

    /// Mask of the negative flag.
    pub fn n() -> (m: u8)
        ensures
            m == NEGATIVE,
    {
        FLAGS::match_flags(FLAGS::N(0x80))
    }

    /// Extracts the mask from a flag value.
    pub fn match_flags(f: Self) -> (m: u8)
        ensures
            m == f.mask(),
    {
        match f {
            FLAGS::B(v)
            | FLAGS::C(v)
            | FLAGS::D(v)
            | FLAGS::I(v)
            | FLAGS::N(v)
            | FLAGS::U(v)
            | FLAGS::V(v)
            | FLAGS::Z(v) => v,
        }
    }
}

/// Whether any bit of `mask` is set in the status byte `psr`.
pub open spec fn flag_is_set(psr: u8, mask: u8) -> bool {
    psr & mask != 0
}

/// The status byte `psr` with the bits of `mask` set when `on` holds and
/// cleared otherwise. Setting ORs the mask in; clearing ANDs with its
/// complement.
pub open spec fn with_flag(psr: u8, mask: u8, on: bool) -> u8 {
    if on {
        psr | mask
    } else {
        psr & !mask
    }
}

/// The status byte `psr` with Zero and Negative taken from the result byte
/// `value`.
pub open spec fn with_zn(psr: u8, value: u8) -> u8 {
    with_flag(with_flag(psr, ZERO, value == 0), NEGATIVE, value >= 0x80)
}

/// Writing a flag never touches a bit outside its mask.
pub proof fn lemma_with_flag_keeps_others(psr: u8, mask: u8, on: bool, kept: u8)
    by (bit_vector)
    requires
        mask & kept == 0,
    ensures
        with_flag(psr, mask, on) & kept == psr & kept,
{
}

/// After a flag is written, testing it gives back what was written.
pub proof fn lemma_with_flag_reads_back(psr: u8, mask: u8, on: bool)
    by (bit_vector)
    requires
        mask != 0,
    ensures
        flag_is_set(with_flag(psr, mask, on), mask) == on,
{
}

} // verus!
