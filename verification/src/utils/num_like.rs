//! Number types that the [`Number`](crate::Number) prompt accepts.
use vstd::prelude::*;

verus! {

/// A number type: says whether it is signed and whether it has a fractional part.
pub trait NumLike: core::fmt::Display + Copy {
    spec fn spec_is_float() -> bool;

    spec fn spec_is_signed() -> bool;

    /// Check if it is a floating point number.
    fn is_float() -> (b: bool)
        ensures
            b == Self::spec_is_float(),
    ;

    /// Check if it is a signed number.
    fn is_signed() -> (b: bool)
        ensures
            b == Self::spec_is_signed(),
    ;
}

impl NumLike for u8 {
    open spec fn spec_is_float() -> bool { false }
    open spec fn spec_is_signed() -> bool { false }
    fn is_float() -> (b: bool) { false }
    fn is_signed() -> (b: bool) { false }
}

impl NumLike for u16 {
    open spec fn spec_is_float() -> bool { false }
    open spec fn spec_is_signed() -> bool { false }
    fn is_float() -> (b: bool) { false }
    fn is_signed() -> (b: bool) { false }
}

impl NumLike for u32 {
    open spec fn spec_is_float() -> bool { false }
    open spec fn spec_is_signed() -> bool { false }
    fn is_float() -> (b: bool) { false }
    fn is_signed() -> (b: bool) { false }
}

impl NumLike for u64 {
    open spec fn spec_is_float() -> bool { false }
    open spec fn spec_is_signed() -> bool { false }
    fn is_float() -> (b: bool) { false }
    fn is_signed() -> (b: bool) { false }
}

impl NumLike for u128 {
    open spec fn spec_is_float() -> bool { false }
    open spec fn spec_is_signed() -> bool { false }
    fn is_float() -> (b: bool) { false }
    fn is_signed() -> (b: bool) { false }
}

impl NumLike for usize {
    open spec fn spec_is_float() -> bool { false }
    open spec fn spec_is_signed() -> bool { false }
    fn is_float() -> (b: bool) { false }
    fn is_signed() -> (b: bool) { false }
}

impl NumLike for i8 {
    open spec fn spec_is_float() -> bool { false }
    open spec fn spec_is_signed() -> bool { true }
    fn is_float() -> (b: bool) { false }
    fn is_signed() -> (b: bool) { true }
}

impl NumLike for i16 {
    open spec fn spec_is_float() -> bool { false }
    open spec fn spec_is_signed() -> bool { true }
    fn is_float() -> (b: bool) { false }
    fn is_signed() -> (b: bool) { true }
}

impl NumLike for i32 {
    open spec fn spec_is_float() -> bool { false }
    open spec fn spec_is_signed() -> bool { true }
    fn is_float() -> (b: bool) { false }
    fn is_signed() -> (b: bool) { true }
}

impl NumLike for i64 {
    open spec fn spec_is_float() -> bool { false }
    open spec fn spec_is_signed() -> bool { true }
    fn is_float() -> (b: bool) { false }
    fn is_signed() -> (b: bool) { true }
}

impl NumLike for i128 {
    open spec fn spec_is_float() -> bool { false }
    open spec fn spec_is_signed() -> bool { true }
    fn is_float() -> (b: bool) { false }
    fn is_signed() -> (b: bool) { true }
}

impl NumLike for isize {
    open spec fn spec_is_float() -> bool { false }
    open spec fn spec_is_signed() -> bool { true }
    fn is_float() -> (b: bool) { false }
    fn is_signed() -> (b: bool) { true }
}

} // verus!
