//! Floating-point values of the document, held as IEEE-754 bit patterns.
//!
//! The editor never computes with these numbers; it stores them, shows them in
//! messages and compares them in two validations (a manual axis range must have
//! `min < max`, a line width must be positive). The comparisons are those of
//! IEEE-754, decided on the bit patterns.
use vstd::prelude::*;

verus! {

/// A binary64 (double precision) value: its IEEE-754 bit pattern and the decimal
/// text that messages show for it.
#[derive(Debug)]
pub struct Real64 {
    pub bits: u64,
    pub text: String,
}

/// A binary32 (single precision) value: its IEEE-754 bit pattern and the decimal
/// text that messages show for it.
#[derive(Debug)]
pub struct Real32 {
    pub bits: u32,
    pub text: String,
}

pub struct Real64View {
    pub bits: u64,
    pub text: Seq<char>,
}

pub struct Real32View {
    pub bits: u32,
    pub text: Seq<char>,
}

impl View for Real64 {
    type V = Real64View;

    open spec fn view(&self) -> Real64View {
        Real64View { bits: self.bits, text: self.text@ }
    }
}

impl View for Real32 {
    type V = Real32View;

    open spec fn view(&self) -> Real32View {
        Real32View { bits: self.bits, text: self.text@ }
    }
}

impl Clone for Real64 {
    fn clone(&self) -> (r: Self)
        ensures
            r@ == self@,
    {
        Real64 { bits: self.bits, text: self.text.clone() }
    }
}

impl Clone for Real32 {
    fn clone(&self) -> (r: Self)
        ensures
            r@ == self@,
    {
        Real32 { bits: self.bits, text: self.text.clone() }
    }
}

/// The sign bit of a binary64 pattern.
pub open spec fn sign_bit64() -> int {
    0x8000_0000_0000_0000
}

/// The pattern with the sign bit cleared: exponent and fraction.
pub open spec fn magnitude64(b: u64) -> int {
    if b >= sign_bit64() {
        b - sign_bit64()
    } else {
        b as int
    }
}

/// Exponent all ones with a non-zero fraction: not a number.
pub open spec fn is_nan64(b: u64) -> bool {
    magnitude64(b) > 0x7FF0_0000_0000_0000
}

/// An integer that orders the values that are numbers as IEEE-754 does:
/// positive patterns ascend with their bits, negative ones descend with their
/// magnitude, and both zeros meet at 0.
pub open spec fn order_key64(b: u64) -> int {
    if b >= sign_bit64() {
        -magnitude64(b)
    } else {
        b as int
    }
}

/// IEEE-754 `a <= b` on binary64 patterns: false when either is not a number.
pub open spec fn at_most64(a: u64, b: u64) -> bool {
    !is_nan64(a) && !is_nan64(b) && order_key64(a) <= order_key64(b)
}

pub open spec fn sign_bit32() -> int {
    0x8000_0000
}

pub open spec fn magnitude32(b: u32) -> int {
    if b >= sign_bit32() {
        b - sign_bit32()
    } else {
        b as int
    }
}

pub open spec fn is_nan32(b: u32) -> bool {
    magnitude32(b) > 0x7F80_0000
}

pub open spec fn order_key32(b: u32) -> int {
    if b >= sign_bit32() {
        -magnitude32(b)
    } else {
        b as int
    }
}

/// IEEE-754 `a <= b` on binary32 patterns: false when either is not a number.
pub open spec fn at_most32(a: u32, b: u32) -> bool {
    !is_nan32(a) && !is_nan32(b) && order_key32(a) <= order_key32(b)
}

/// IEEE-754 `a < b` on binary64 patterns: false when either is not a number.
pub open spec fn less64(a: u64, b: u64) -> bool {
    !is_nan64(a) && !is_nan64(b) && order_key64(a) < order_key64(b)
}

/// IEEE-754 `a < b` on binary32 patterns: false when either is not a number.
pub open spec fn less32(a: u32, b: u32) -> bool {
    !is_nan32(a) && !is_nan32(b) && order_key32(a) < order_key32(b)
}

/// Decides IEEE-754 `a <= b` for two binary64 patterns.
pub fn bits64_at_most(a: u64, b: u64) -> (r: bool)
    ensures
        r == at_most64(a, b),
{
    let ma: u64 = if a >= 0x8000_0000_0000_0000 { a - 0x8000_0000_0000_0000 } else { a };
    let mb: u64 = if b >= 0x8000_0000_0000_0000 { b - 0x8000_0000_0000_0000 } else { b };
    if ma > 0x7FF0_0000_0000_0000 || mb > 0x7FF0_0000_0000_0000 {
        return false;
    }
    let na = a >= 0x8000_0000_0000_0000;
    let nb = b >= 0x8000_0000_0000_0000;
    if na && nb {
        mb <= ma
    } else if na {
        true
    } else if nb {
        ma == 0 && mb == 0
    } else {
        a <= b
    }
}

/// Decides IEEE-754 `a <= b` for two binary32 patterns.
pub fn bits32_at_most(a: u32, b: u32) -> (r: bool)
    ensures
        r == at_most32(a, b),
{
    let ma: u32 = if a >= 0x8000_0000 { a - 0x8000_0000 } else { a };
    let mb: u32 = if b >= 0x8000_0000 { b - 0x8000_0000 } else { b };
    if ma > 0x7F80_0000 || mb > 0x7F80_0000 {
        return false;
    }
    let na = a >= 0x8000_0000;
    let nb = b >= 0x8000_0000;
    if na && nb {
        mb <= ma
    } else if na {
        true
    } else if nb {
        ma == 0 && mb == 0
    } else {
        a <= b
    }
}

/// Decides IEEE-754 `a < b` for two binary64 patterns.
pub fn bits64_less(a: u64, b: u64) -> (r: bool)
    ensures
        r == less64(a, b),
{
    let ma: u64 = if a >= 0x8000_0000_0000_0000 { a - 0x8000_0000_0000_0000 } else { a };
    let mb: u64 = if b >= 0x8000_0000_0000_0000 { b - 0x8000_0000_0000_0000 } else { b };
    if ma > 0x7FF0_0000_0000_0000 || mb > 0x7FF0_0000_0000_0000 {
        return false;
    }
    !bits64_at_most(b, a)
}

/// Decides IEEE-754 `a < b` for two binary32 patterns.
pub fn bits32_less(a: u32, b: u32) -> (r: bool)
    ensures
        r == less32(a, b),
{
    let ma: u32 = if a >= 0x8000_0000 { a - 0x8000_0000 } else { a };
    let mb: u32 = if b >= 0x8000_0000 { b - 0x8000_0000 } else { b };
    if ma > 0x7F80_0000 || mb > 0x7F80_0000 {
        return false;
    }
    !bits32_at_most(b, a)
}

impl Real64 {
    /// IEEE-754 `self < other`.
    pub fn less_than(&self, other: &Real64) -> (r: bool)
        ensures
            r == less64(self.bits, other.bits),
    {
        bits64_less(self.bits, other.bits)
    }

    /// IEEE-754 `self <= other`.
    pub fn at_most(&self, other: &Real64) -> (r: bool)
        ensures
            r == at_most64(self.bits, other.bits),
    {
        bits64_at_most(self.bits, other.bits)
    }
}

impl Real32 {
    /// IEEE-754 `self <= other`.
    pub fn at_most(&self, other: &Real32) -> (r: bool)
        ensures
            r == at_most32(self.bits, other.bits),
    {
        bits32_at_most(self.bits, other.bits)
    }

    /// IEEE-754 `0 < self`.
    pub fn is_positive(&self) -> (r: bool)
        ensures
            r == less32(0, self.bits),
    {
        bits32_less(0, self.bits)
    }
}

} // verus!
