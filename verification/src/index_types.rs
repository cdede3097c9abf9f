//! The numeric capabilities an index type must offer, split so that each
//! traversal operation only demands what it actually uses, and
//! implementations for the common machine integer types.

use vstd::prelude::*;

verus! {

/// A numeric index type, seen through its mathematical value.
///
/// `as_int` gives the integer an index value holds and `fits` says which
/// integers the type can represent at all; every arithmetic contract in this
/// crate is stated over these two functions.
pub trait IndexType: Sized {
    /// The mathematical value held by this index.
    spec fn as_int(&self) -> int;

    /// Whether the integer `x` is representable in this type.
    spec fn fits(x: int) -> bool;
}

/// An index type with distinguished zero and one values.
///
/// Only the construction forms that substitute a default start or step need
/// this; a type without natural defaults can still be used through the fully
/// explicit construction form.
pub trait IndexDefaults: IndexType {
    /// The value that represents zero, the default start.
    fn zero() -> (r: Self)
        ensures
            r.as_int() == 0,
    ;

    /// The value that represents one, the default step.
    fn one() -> (r: Self)
        ensures
            r.as_int() == 1,
    ;
}

/// The arithmetic the traversal operations need: duplicating a value,
/// adding and multiplying by reference, and fallible conversion from a
/// host-sized element count (the skip-ahead distance).
pub trait IndexArith: IndexType {
    /// A copy of this value.
    fn dup(&self) -> (r: Self)
        ensures
            r.as_int() == self.as_int(),
    ;

    /// The sum of two represented values.
    fn plus(&self, other: &Self) -> (r: Self)
        requires
            Self::fits(self.as_int() + other.as_int()),
        ensures
            r.as_int() == self.as_int() + other.as_int(),
    ;

    /// The product of two represented values.
    fn times(&self, other: &Self) -> (r: Self)
        requires
            Self::fits(self.as_int() * other.as_int()),
        ensures
            r.as_int() == self.as_int() * other.as_int(),
    ;

    /// Converts an element count into this type, or reports that the count
    /// is not representable.
    fn from_count(n: usize) -> (r: Option<Self>)
        ensures
            Self::fits(n as int) ==> (r matches Some(v) && v.as_int() == n as int),
            !Self::fits(n as int) ==> r is None,
    ;

    /// The name of this type, as reported by a failed conversion.
    spec fn label_spec() -> Seq<char>;

    /// The name of this type, for diagnostics.
    fn type_label() -> (r: &'static str)
        ensures
            r@ == Self::label_spec(),
    ;
}

impl IndexType for u8 {
    open spec fn as_int(&self) -> int {
        *self as int
    }

    open spec fn fits(x: int) -> bool {
        0 <= x <= u8::MAX as int
    }
}

impl IndexDefaults for u8 {
    fn zero() -> (r: Self) {
        0
    }

    fn one() -> (r: Self) {
        1
    }
}

impl IndexArith for u8 {
    fn dup(&self) -> (r: Self) {
        *self
    }

    fn plus(&self, other: &Self) -> (r: Self) {
        *self + *other
    }

    fn times(&self, other: &Self) -> (r: Self) {
        *self * *other
    }

    fn from_count(n: usize) -> (r: Option<Self>) {
        if n <= u8::MAX as usize {
            Some(n as u8)
        } else {
            None
        }
    }

    open spec fn label_spec() -> Seq<char> {
        "u8"@
    }

    fn type_label() -> (r: &'static str) {
        "u8"
    }
}

impl IndexType for i16 {
    open spec fn as_int(&self) -> int {
        *self as int
    }

    open spec fn fits(x: int) -> bool {
        i16::MIN as int <= x <= i16::MAX as int
    }
}

impl IndexDefaults for i16 {
    fn zero() -> (r: Self) {
        0
    }

    fn one() -> (r: Self) {
        1
    }
}

impl IndexArith for i16 {
    fn dup(&self) -> (r: Self) {
        *self
    }

    fn plus(&self, other: &Self) -> (r: Self) {
        *self + *other
    }

    fn times(&self, other: &Self) -> (r: Self) {
        *self * *other
    }

    fn from_count(n: usize) -> (r: Option<Self>) {
        if n <= i16::MAX as usize {
            Some(n as i16)
        } else {
            None
        }
    }

    open spec fn label_spec() -> Seq<char> {
        "i16"@
    }

    fn type_label() -> (r: &'static str) {
        "i16"
    }
}

impl IndexType for i32 {
    open spec fn as_int(&self) -> int {
        *self as int
    }

    open spec fn fits(x: int) -> bool {
        i32::MIN as int <= x <= i32::MAX as int
    }
}

impl IndexDefaults for i32 {
    fn zero() -> (r: Self) {
        0
    }

    fn one() -> (r: Self) {
        1
    }
}

impl IndexArith for i32 {
    fn dup(&self) -> (r: Self) {
        *self
    }

    fn plus(&self, other: &Self) -> (r: Self) {
        *self + *other
    }

    fn times(&self, other: &Self) -> (r: Self) {
        *self * *other
    }

    fn from_count(n: usize) -> (r: Option<Self>) {
        if n <= i32::MAX as usize {
            Some(n as i32)
        } else {
            None
        }
    }

    open spec fn label_spec() -> Seq<char> {
        "i32"@
    }

    fn type_label() -> (r: &'static str) {
        "i32"
    }
}

impl IndexType for u32 {
    open spec fn as_int(&self) -> int {
        *self as int
    }

    open spec fn fits(x: int) -> bool {
        0 <= x <= u32::MAX as int
    }
}

impl IndexDefaults for u32 {
    fn zero() -> (r: Self) {
        0
    }

    fn one() -> (r: Self) {
        1
    }
}

impl IndexArith for u32 {
    fn dup(&self) -> (r: Self) {
        *self
    }

    fn plus(&self, other: &Self) -> (r: Self) {
        *self + *other
    }

    fn times(&self, other: &Self) -> (r: Self) {
        *self * *other
    }

    fn from_count(n: usize) -> (r: Option<Self>) {
        if n <= u32::MAX as usize {
            Some(n as u32)
        } else {
            None
        }
    }

    open spec fn label_spec() -> Seq<char> {
        "u32"@
    }

    fn type_label() -> (r: &'static str) {
        "u32"
    }
}

impl IndexType for usize {
    open spec fn as_int(&self) -> int {
        *self as int
    }

    open spec fn fits(x: int) -> bool {
        0 <= x <= usize::MAX as int
    }
}

impl IndexDefaults for usize {
    fn zero() -> (r: Self) {
        0
    }

    fn one() -> (r: Self) {
        1
    }
}

impl IndexArith for usize {
    fn dup(&self) -> (r: Self) {
        *self
    }

    fn plus(&self, other: &Self) -> (r: Self) {
        *self + *other
    }

    fn times(&self, other: &Self) -> (r: Self) {
        *self * *other
    }

    fn from_count(n: usize) -> (r: Option<Self>) {
        Some(n)
    }

    open spec fn label_spec() -> Seq<char> {
        "usize"@
    }

    fn type_label() -> (r: &'static str) {
        "usize"
    }
}

} // verus!
