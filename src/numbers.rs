//! Small integer helpers: a threshold test and two arithmetic operations.
use vstd::prelude::*;

verus! {

/// The bound above which a number counts as big.
pub const THRESHOLD: i32 = 10;

/// Whether `n` is above [`THRESHOLD`].
pub fn is_big(n: i32) -> (r: bool)
    ensures
        r == (n > THRESHOLD),
{
    n > THRESHOLD
}

/// An arithmetic operation on two numbers.
pub enum VeryVerboseEnumOfThingsToDoWithNumbers {
    Add,
    Subtract,
}

/// A shorter name for [`VeryVerboseEnumOfThingsToDoWithNumbers`].
pub type Operations = VeryVerboseEnumOfThingsToDoWithNumbers;

impl VeryVerboseEnumOfThingsToDoWithNumbers {
    /// The exact result of the operation on `x` and `y`.
    pub open spec fn result(&self, x: int, y: int) -> int {
        match self {
            Self::Add => x + y,
            Self::Subtract => x - y,
        }
    }

    /// Applies the operation to `x` and `y`; the result must fit in an `i32`.
    pub fn run(&self, x: i32, y: i32) -> (r: i32)
        requires
            i32::MIN <= self.result(x as int, y as int) <= i32::MAX,
        ensures
            r == self.result(x as int, y as int),
    {
        match self {
            Self::Add => x + y,
            Self::Subtract => x - y,
        }
    }
}

} // verus!
