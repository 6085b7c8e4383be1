use vstd::prelude::*;

verus! {

/// Types with an additive identity.
pub trait Zero: Sized {
    /// The additive identity.
    spec fn zero_value() -> Self;

    /// The additive identity.
    fn zero() -> (r: Self)
        ensures
            r == Self::zero_value(),
    ;
}

/// Types with a multiplicative identity.
pub trait Unit: Sized {
    /// The multiplicative identity.
    spec fn unit_value() -> Self;

    /// The multiplicative identity.
    fn unit() -> (r: Self)
        ensures
            r == Self::unit_value(),
    ;
}

impl Zero for u8 {
    open spec fn zero_value() -> u8 {
        0
    }

    fn zero() -> (r: u8) {
        0
    }
}

impl Zero for u16 {
    open spec fn zero_value() -> u16 {
        0
    }

    fn zero() -> (r: u16) {
        0
    }
}

impl Zero for u32 {
    open spec fn zero_value() -> u32 {
        0
    }

    fn zero() -> (r: u32) {
        0
    }
}

impl Zero for u64 {
    open spec fn zero_value() -> u64 {
        0
    }

    fn zero() -> (r: u64) {
        0
    }
}

impl Zero for usize {
    open spec fn zero_value() -> usize {
        0
    }

    fn zero() -> (r: usize) {
        0
    }
}

impl Zero for i8 {
    open spec fn zero_value() -> i8 {
        0
    }

    fn zero() -> (r: i8) {
        0
    }
}

impl Zero for i16 {
    open spec fn zero_value() -> i16 {
        0
    }

    fn zero() -> (r: i16) {
        0
    }
}

impl Zero for i32 {
    open spec fn zero_value() -> i32 {
        0
    }

    fn zero() -> (r: i32) {
        0
    }
}

impl Zero for i64 {
    open spec fn zero_value() -> i64 {
        0
    }

    fn zero() -> (r: i64) {
        0
    }
}

impl Zero for isize {
    open spec fn zero_value() -> isize {
        0
    }

    fn zero() -> (r: isize) {
        0
    }
}

impl Unit for u8 {
    open spec fn unit_value() -> u8 {
        1
    }

    fn unit() -> (r: u8) {
        1
    }
}

impl Unit for u16 {
    open spec fn unit_value() -> u16 {
        1
    }

    fn unit() -> (r: u16) {
        1
    }
}

impl Unit for u32 {
    open spec fn unit_value() -> u32 {
        1
    }

    fn unit() -> (r: u32) {
        1
    }
}

impl Unit for u64 {
    open spec fn unit_value() -> u64 {
        1
    }

    fn unit() -> (r: u64) {
        1
    }
}

impl Unit for usize {
    open spec fn unit_value() -> usize {
        1
    }

    fn unit() -> (r: usize) {
        1
    }
}

impl Unit for i8 {
    open spec fn unit_value() -> i8 {
        1
    }

    fn unit() -> (r: i8) {
        1
    }
}

impl Unit for i16 {
    open spec fn unit_value() -> i16 {
        1
    }

    fn unit() -> (r: i16) {
        1
    }
}

impl Unit for i32 {
    open spec fn unit_value() -> i32 {
        1
    }

    fn unit() -> (r: i32) {
        1
    }
}

impl Unit for i64 {
    open spec fn unit_value() -> i64 {
        1
    }

    fn unit() -> (r: i64) {
        1
    }
}

impl Unit for isize {
    open spec fn unit_value() -> isize {
        1
    }

    fn unit() -> (r: isize) {
        1
    }
}

} // verus!
