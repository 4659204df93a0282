//! The state of the double pendulum and the boxes that bound it.
use vstd::prelude::*;
use vstd::std_specs::cmp::PartialEqSpecImpl;
use vstd::std_specs::ops::NegSpecImpl;
use core::ops::Neg;
use crate::binary64::{magnitude, negate, same_value, negated, rank, sign_set, ONE_TENTH};

verus! {

/// Defines the state found in the double pendulum environment. Each field is
/// the IEEE-754 binary64 encoding of its value.
#[derive(Debug, Clone, Copy)]
pub struct DoublePendulumObservation {
    /// The angle of the first link relative to the downward vertical.
    pub theta1: u64,
    /// The angle of the second link relative to the first link.
    pub theta2: u64,
    /// The angular velocity of the first link.
    pub theta1_dot: u64,
    /// The angular velocity of the second link.
    pub theta2_dot: u64,
}

impl DoublePendulumObservation {
    /// An observation from its four values, in field order.
    pub fn new(theta1: u64, theta2: u64, theta1_dot: u64, theta2_dot: u64) -> (r: Self)
        ensures
            r == (Self { theta1, theta2, theta1_dot, theta2_dot }),
    {
        DoublePendulumObservation { theta1, theta2, theta1_dot, theta2_dot }
    }

    /// Every value negated.
    pub open spec fn negated(self) -> Self {
        Self {
            theta1: negated(self.theta1),
            theta2: negated(self.theta2),
            theta1_dot: negated(self.theta1_dot),
            theta2_dot: negated(self.theta2_dot),
        }
    }

    /// Equal value by value in the total order of the values.
    pub open spec fn same_as(self, other: Self) -> bool {
        &&& rank(self.theta1) == rank(other.theta1)
        &&& rank(self.theta2) == rank(other.theta2)
        &&& rank(self.theta1_dot) == rank(other.theta1_dot)
        &&& rank(self.theta2_dot) == rank(other.theta2_dot)
    }

    /// The values in field order.
    pub open spec fn values(self) -> Seq<u64> {
        seq![self.theta1, self.theta2, self.theta1_dot, self.theta2_dot]
    }

    /// The values in field order, as a vector.
    pub fn to_vec(self) -> (r: Vec<u64>)
        ensures
            r@ == self.values(),
    {
        let mut v: Vec<u64> = Vec::new();
        v.push(self.theta1);
        v.push(self.theta2);
        v.push(self.theta1_dot);
        v.push(self.theta2_dot);
        v
    }

    /// The box that initial states are drawn from when no other is given:
    /// each value within `[-0.1, 0.1]`.
    pub open spec fn default_bounds() -> BoxR<Self> {
        let high = Self {
            theta1: ONE_TENTH,
            theta2: ONE_TENTH,
            theta1_dot: ONE_TENTH,
            theta2_dot: ONE_TENTH,
        };
        BoxR { low: high.negated(), high }
    }

    /// The box to draw a state from: the one given, else the default one.
    pub fn sample_bounds(bounds: Option<BoxR<Self>>) -> (r: BoxR<Self>)
        ensures
            r == (match bounds {
                Some(b) => b,
                None => Self::default_bounds(),
            }),
    {
        match bounds {
            Some(b) => b,
            None => {
                let high = DoublePendulumObservation::new(
                    ONE_TENTH,
                    ONE_TENTH,
                    ONE_TENTH,
                    ONE_TENTH,
                );
                BoxR::new(high.neg(), high)
            },
        }
    }
}

impl core::ops::Neg for DoublePendulumObservation {
    type Output = DoublePendulumObservation;

    fn neg(self) -> (r: DoublePendulumObservation)
        ensures
            r == self.negated(),
    {
        DoublePendulumObservation {
            theta1: negate(self.theta1),
            theta2: negate(self.theta2),
            theta1_dot: negate(self.theta1_dot),
            theta2_dot: negate(self.theta2_dot),
        }
    }
}

impl NegSpecImpl for DoublePendulumObservation {
    open spec fn obeys_neg_spec() -> bool {
        true
    }

    open spec fn neg_req(self) -> bool {
        true
    }

    open spec fn neg_spec(self) -> DoublePendulumObservation {
        self.negated()
    }
}

impl PartialEq for DoublePendulumObservation {
    fn eq(&self, other: &Self) -> (r: bool) {
        same_value(self.theta1, other.theta1) && same_value(self.theta2, other.theta2)
            && same_value(self.theta1_dot, other.theta1_dot) && same_value(
            self.theta2_dot,
            other.theta2_dot,
        )
    }
}

impl PartialEqSpecImpl for DoublePendulumObservation {
    open spec fn obeys_eq_spec() -> bool {
        true
    }

    open spec fn eq_spec(&self, other: &DoublePendulumObservation) -> bool {
        self.same_as(*other)
    }
}

impl Eq for DoublePendulumObservation {

}

/// Negating an observation twice gives it back.
pub proof fn lemma_neg_involutive(o: DoublePendulumObservation)
    ensures
        o.negated().negated() == o,
{
    crate::binary64::lemma_negate_involutive(o.theta1);
    crate::binary64::lemma_negate_involutive(o.theta2);
    crate::binary64::lemma_negate_involutive(o.theta1_dot);
    crate::binary64::lemma_negate_involutive(o.theta2_dot);
}

/// Negating an observation negates each value in its own place: the same
/// magnitude with the sign bit flipped.
pub proof fn lemma_neg_fieldwise(o: DoublePendulumObservation)
    ensures
        magnitude(o.negated().theta1) == magnitude(o.theta1),
        magnitude(o.negated().theta2) == magnitude(o.theta2),
        magnitude(o.negated().theta1_dot) == magnitude(o.theta1_dot),
        magnitude(o.negated().theta2_dot) == magnitude(o.theta2_dot),
        sign_set(o.negated().theta1) != sign_set(o.theta1),
        sign_set(o.negated().theta2) != sign_set(o.theta2),
        sign_set(o.negated().theta1_dot) != sign_set(o.theta1_dot),
        sign_set(o.negated().theta2_dot) != sign_set(o.theta2_dot),
{
}

/// The values come out in field order: `theta1`, `theta2`, `theta1_dot`,
/// `theta2_dot`, and nothing else.
pub proof fn lemma_values_in_field_order(o: DoublePendulumObservation)
    ensures
        o.values().len() == 4,
        o.values()[0] == o.theta1,
        o.values()[1] == o.theta2,
        o.values()[2] == o.theta1_dot,
        o.values()[3] == o.theta2_dot,
{
}

/// Equality of observations is an equivalence relation.
pub proof fn lemma_eq_equivalence(
    a: DoublePendulumObservation,
    b: DoublePendulumObservation,
    c: DoublePendulumObservation,
)
    ensures
        a.same_as(a),
        a.same_as(b) ==> b.same_as(a),
        a.same_as(b) && b.same_as(c) ==> a.same_as(c),
{
}

/// Two observations are equal exactly when each of the four values is equal
/// to its counterpart in the total order, position by position in field
/// order; a single differing value makes them unequal.
pub proof fn lemma_eq_fieldwise(a: DoublePendulumObservation, b: DoublePendulumObservation)
    ensures
        a.same_as(b) <==> (rank(a.theta1) == rank(b.theta1) && rank(a.theta2) == rank(b.theta2)
            && rank(a.theta1_dot) == rank(b.theta1_dot) && rank(a.theta2_dot) == rank(
            b.theta2_dot,
        )),
        a.same_as(b) <==> (forall|i: int|
            0 <= i < 4 ==> rank(#[trigger] a.values()[i]) == rank(b.values()[i])),
{
    assert(a.values()[0] == a.theta1 && a.values()[1] == a.theta2);
    assert(a.values()[2] == a.theta1_dot && a.values()[3] == a.theta2_dot);
    assert(b.values()[0] == b.theta1 && b.values()[1] == b.theta2);
    assert(b.values()[2] == b.theta1_dot && b.values()[3] == b.theta2_dot);
}

/// The default box of initial states is symmetric about zero and its
/// corners are in order, value by value.
pub proof fn lemma_default_bounds_ordered()
    ensures
        DoublePendulumObservation::default_bounds().low
            == DoublePendulumObservation::default_bounds().high.negated(),
        DoublePendulumObservation::default_bounds().low.theta1 == crate::binary64::negated(ONE_TENTH),
        rank(DoublePendulumObservation::default_bounds().low.theta1) < 0 < rank(
            DoublePendulumObservation::default_bounds().high.theta1,
        ),
{
}

/// A box of the state space: every value of a state in it lies between the
/// value of `low` and that of `high`.
#[derive(Debug, Clone, Copy)]
pub struct BoxR<T> {
    /// The lower corner.
    pub low: T,
    /// The upper corner.
    pub high: T,
}

impl<T> BoxR<T> {
    /// A box from its two corners.
    pub fn new(low: T, high: T) -> (r: Self)
        ensures
            r == (Self { low, high }),
    {
        BoxR { low, high }
    }
}

} // verus!
