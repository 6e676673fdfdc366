//! Integers tagged with their parity.

use vstd::prelude::*;

verus! {

/// An integer together with its parity.
#[derive(Clone, Copy, Debug, PartialEq, Eq, Structural)]
pub enum Number {
    Odd(i64),
    Even(i64),
}

impl Number {
    /// The tagged form of `num`: `Even` when two divides it, `Odd` otherwise.
    pub open spec fn spec_from_i64(num: i64) -> Number {
        if num % 2 == 0 {
            Number::Even(num)
        } else {
            Number::Odd(num)
        }
    }

    /// Tags `num` with its parity. Negative numbers are tagged like their
    /// absolute values.
    pub fn from_i64(num: i64) -> (n: Number)
        ensures
            n == Self::spec_from_i64(num),
            n.value() == num,
    {
        match num % 2 == 0 {
            true => Number::Even(num),
            false => Number::Odd(num),
        }
    }

    /// The integer that was tagged.
    pub open spec fn value(self) -> i64 {
        match self {
            Number::Odd(v) => v,
            Number::Even(v) => v,
        }
    }
}

} // verus!
