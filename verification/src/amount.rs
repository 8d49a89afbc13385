use vstd::prelude::*;

verus! {

/// Number of minor units in one whole unit of currency: amounts carry four
/// decimal digits, so one whole unit is ten thousand minor units.
pub const MINOR_PER_WHOLE: i64 = 10_000;

/// A fixed-point money amount: a signed count of minor units, each worth one
/// ten-thousandth of a whole currency unit.
///
/// The view of an `Amount` is its count of minor units as a mathematical
/// integer; every contract over amounts is stated in those terms.
#[derive(Clone, Copy, PartialEq, Eq, Structural, Debug)]
pub struct Amount {
    pub minor: i64,
}

impl View for Amount {
    type V = int;

    open spec fn view(&self) -> int {
        self.minor as int
    }
}

impl Amount {
    /// The zero amount.
    pub fn zero() -> (r: Amount)
        ensures
            r@ == 0,
    {
        Amount { minor: 0 }
    }

    /// The amount holding `minor` minor units.
    pub fn from_minor(minor: i64) -> (r: Amount)
        ensures
            r@ == minor as int,
    {
        Amount { minor }
    }

    /// The amount worth `n` whole currency units, or `None` when that many
    /// whole units do not fit in the representation.
    pub fn from_whole(n: i64) -> (r: Option<Amount>)
        ensures
            (match r {
                Some(a) => a@ == n * MINOR_PER_WHOLE,
                None => n * MINOR_PER_WHOLE > i64::MAX || n * MINOR_PER_WHOLE < i64::MIN,
            }),
    {
        match n.checked_mul(MINOR_PER_WHOLE) {
            Some(m) => Some(Amount { minor: m }),
            None => None,
        }
    }

    /// The largest representable amount.
    pub fn max_value() -> (r: Amount)
        ensures
            r@ == i64::MAX as int,
    {
        Amount { minor: i64::MAX }
    }

    /// The exact sum, or `None` when it falls outside the representable range.
    pub fn checked_add(self, other: Amount) -> (r: Option<Amount>)
        ensures
            (match r {
                Some(a) => a@ == self@ + other@,
                None => self@ + other@ > i64::MAX || self@ + other@ < i64::MIN,
            }),
    {
        match self.minor.checked_add(other.minor) {
            Some(m) => Some(Amount { minor: m }),
            None => None,
        }
    }

    /// The exact difference, or `None` when it falls outside the
    /// representable range.
    pub fn checked_sub(self, other: Amount) -> (r: Option<Amount>)
        ensures
            (match r {
                Some(a) => a@ == self@ - other@,
                None => self@ - other@ > i64::MAX || self@ - other@ < i64::MIN,
            }),
    {
        match self.minor.checked_sub(other.minor) {
            Some(m) => Some(Amount { minor: m }),
            None => None,
        }
    }

    /// Whether the amount is below zero.
    pub fn is_negative(self) -> (r: bool)
        ensures
            r == (self@ < 0),
    {
        self.minor < 0
    }

    /// Whether this amount is strictly smaller than `other`.
    pub fn lt(self, other: Amount) -> (r: bool)
        ensures
            r == (self@ < other@),
    {
        self.minor < other.minor
    }
}

} // verus!
