//! Number types that a number input accepts, as the earlier name of the
//! same contract as [`NumLike`](crate::utils::num_like::NumLike).
use vstd::prelude::*;

verus! {

/// A number type: says whether it is signed and whether it has a fractional part.
pub trait Num: core::fmt::Display {
    spec fn spec_is_float() -> bool;

    spec fn spec_is_signed() -> bool;

    /// Check if it is a floating point number.
    fn is_float() -> (b: bool)
        ensures
            b == Self::spec_is_float(),
    ;

    /// Check if it is a signed number.
    fn is_signed() -> (b: bool)
        ensures
            b == Self::spec_is_signed(),
    ;
}

impl Num for u8 {
    open spec fn spec_is_float() -> bool { false }
    open spec fn spec_is_signed() -> bool { false }
    fn is_float() -> (b: bool) { false }
    fn is_signed() -> (b: bool) { false }
}

impl Num for u16 {
    open spec fn spec_is_float() -> bool { false }
    open spec fn spec_is_signed() -> bool { false }
    fn is_float() -> (b: bool) { false }
    fn is_signed() -> (b: bool) { false }
}

impl Num for u32 {
    open spec fn spec_is_float() -> bool { false }
    open spec fn spec_is_signed() -> bool { false }
    fn is_float() -> (b: bool) { false }
    fn is_signed() -> (b: bool) { false }
}

impl Num for u64 {
    open spec fn spec_is_float() -> bool { false }
    open spec fn spec_is_signed() -> bool { false }
    fn is_float() -> (b: bool) { false }
    fn is_signed() -> (b: bool) { false }
}

impl Num for u128 {
    open spec fn spec_is_float() -> bool { false }
    open spec fn spec_is_signed() -> bool { false }
    fn is_float() -> (b: bool) { false }
    fn is_signed() -> (b: bool) { false }
}

impl Num for usize {
    open spec fn spec_is_float() -> bool { false }
    open spec fn spec_is_signed() -> bool { false }
    fn is_float() -> (b: bool) { false }
    fn is_signed() -> (b: bool) { false }
}

impl Num for i8 {
    open spec fn spec_is_float() -> bool { false }
    open spec fn spec_is_signed() -> bool { true }
    fn is_float() -> (b: bool) { false }
    fn is_signed() -> (b: bool) { true }
}

impl Num for i16 {
    open spec fn spec_is_float() -> bool { false }
    open spec fn spec_is_signed() -> bool { true }
    fn is_float() -> (b: bool) { false }
    fn is_signed() -> (b: bool) { true }
}

impl Num for i32 {
    open spec fn spec_is_float() -> bool { false }
    open spec fn spec_is_signed() -> bool { true }
    fn is_float() -> (b: bool) { false }
    fn is_signed() -> (b: bool) { true }
}

impl Num for i64 {
    open spec fn spec_is_float() -> bool { false }
    open spec fn spec_is_signed() -> bool { true }
    fn is_float() -> (b: bool) { false }
    fn is_signed() -> (b: bool) { true }
}

impl Num for i128 {
    open spec fn spec_is_float() -> bool { false }
    open spec fn spec_is_signed() -> bool { true }
    fn is_float() -> (b: bool) { false }
    fn is_signed() -> (b: bool) { true }
}

impl Num for isize {
    open spec fn spec_is_float() -> bool { false }
    open spec fn spec_is_signed() -> bool { true }
    fn is_float() -> (b: bool) { false }
    fn is_signed() -> (b: bool) { true }
}

} // verus!
