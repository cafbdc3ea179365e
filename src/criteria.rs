//! Query criteria: typed descriptors bound to a wire parameter name and a
//! validity rule, and the selection of parameters they build.

use vstd::prelude::*;
use vstd::string::*;
use std::marker::PhantomData;
use crate::model::ActivityType;
use crate::text::{decimal_digits, decimal_string, decimal_text, u64_text};

verus! {

/// `10^n`.
pub open spec fn pow10(n: nat) -> nat
    decreases n,
{
    if n == 0 {
        1
    } else {
        10 * pow10((n - 1) as nat)
    }
}

proof fn lemma_pow10_grows(a: nat, b: nat)
    requires
        a <= b,
    ensures
        pow10(a) <= pow10(b),
        pow10(a) >= 1,
    decreases b,
{
    if a < b {
        lemma_pow10_grows(a, (b - 1) as nat);
    } else if a > 0 {
        lemma_pow10_grows((a - 1) as nat, (a - 1) as nat);
    }
}

/// A signed decimal number, `units / 10^scale`: `Decimal::new(3, 1)` is 0.3.
#[derive(Clone, Copy, Debug, PartialEq, Eq, Structural)]
pub struct Decimal {
    pub units: i64,
    pub scale: u32,
}

impl Decimal {
    pub fn new(units: i64, scale: u32) -> (r: Decimal)
        ensures
            r.units == units,
            r.scale == scale,
    {
        Decimal { units, scale }
    }
}

/// A validity rule: any value, or a half-open range `[low, high)` of
/// magnitudes.
#[derive(Clone, Copy, Debug, PartialEq, Eq, Structural)]
pub enum Bound {
    Unbounded,
    HalfOpen { low: u64, high: u64 },
}

/// A value that a criterion can carry: it has a wire text and may lie in a
/// range.
pub trait CriterionValue: Sized {
    /// The text of the value on the wire.
    spec fn wire(&self) -> Seq<char>;

    /// Whether the value lies in `[low, high)`.
    spec fn in_range(&self, low: nat, high: nat) -> bool;

    fn to_wire(&self) -> (r: String)
        ensures
            r@ == self.wire(),
    ;

    fn is_in_range(&self, low: u64, high: u64) -> (r: bool)
        ensures
            r == self.in_range(low as nat, high as nat),
    ;
}

impl CriterionValue for u64 {
    open spec fn wire(&self) -> Seq<char> {
        decimal_digits(*self as nat)
    }

    open spec fn in_range(&self, low: nat, high: nat) -> bool {
        low <= *self && *self < high
    }

    fn to_wire(&self) -> (r: String) {
        u64_text(*self)
    }

    fn is_in_range(&self, low: u64, high: u64) -> (r: bool) {
        low <= *self && *self < high
    }
}

impl CriterionValue for Decimal {
    open spec fn wire(&self) -> Seq<char> {
        decimal_text(self.units as int, self.scale as nat)
    }

    open spec fn in_range(&self, low: nat, high: nat) -> bool {
        low * pow10(self.scale as nat) <= self.units && self.units < high * pow10(
            self.scale as nat,
        )
    }

    fn to_wire(&self) -> (r: String) {
        decimal_string(self.units, self.scale)
    }

    fn is_in_range(&self, low: u64, high: u64) -> (r: bool) {
        if self.units < 0 {
            proof {
                lemma_pow10_grows(0, self.scale as nat);
                assert(low * pow10(self.scale as nat) >= 0) by (nonlinear_arith);
            }
            return false;
        }
        let cap: u32 = if self.scale < 19 {
            self.scale
        } else {
            19
        };
        let mut p: u128 = 1;
        let mut i: u32 = 0;
        proof {
            lemma_pow10_grows(cap as nat, 19);
            reveal_with_fuel(pow10, 20);
        }
        while i < cap
            invariant
                i <= cap <= 19,
                p == pow10(i as nat),
                pow10(cap as nat) <= 10000000000000000000,
            decreases cap - i,
        {
            proof {
                lemma_pow10_grows((i + 1) as nat, cap as nat);
            }
            p = p * 10;
            i = i + 1;
        }
        let m = self.units as u128;
        let big: u128 = 10000000000000000000;
        proof {
            let s = self.scale as nat;
            let ps = pow10(s);
            lemma_pow10_grows(0, s);
            assert(low as u128 * p <= 18446744073709551615u128 * 10000000000000000000u128)
                by (nonlinear_arith)
                requires
                    low <= 18446744073709551615u64,
                    p <= 10000000000000000000u128,
            ;
            assert(high as u128 * p <= 18446744073709551615u128 * 10000000000000000000u128)
                by (nonlinear_arith)
                requires
                    high <= 18446744073709551615u64,
                    p <= 10000000000000000000u128,
            ;
            if s >= 19 {
                lemma_pow10_grows(19, s);
                assert(m < big);
                assert((low as nat * ps <= m) == (low as nat * p <= m)) by (nonlinear_arith)
                    requires
                        m < big,
                        big <= p,
                        p <= ps,
                ;
                assert((m < high as nat * ps) == (m < high as nat * p)) by (nonlinear_arith)
                    requires
                        m < big,
                        big <= p,
                        p <= ps,
                ;
            }
        }
        low as u128 * p <= m && m < high as u128 * p
    }
}

impl CriterionValue for ActivityType {
    open spec fn wire(&self) -> Seq<char> {
        self.wire_name()
    }

    /// A kind has no magnitude, so it lies in no range.
    open spec fn in_range(&self, low: nat, high: nat) -> bool {
        false
    }

    fn to_wire(&self) -> (r: String) {
        String::from_str(self.as_wire())
    }

    fn is_in_range(&self, low: u64, high: u64) -> (r: bool) {
        false
    }
}

/// A query dimension: the wire parameter it sets and the rule that its
/// values should meet.
#[derive(Debug)]
pub struct ActivityCriterion<T> {
    /// The wire parameter name.
    pub name: &'static str,
    /// The rule that values should meet.
    pub bound: Bound,
    /// The type of the values it takes.
    pub value: PhantomData<T>,
}

impl<T: CriterionValue> ActivityCriterion<T> {
    /// Whether `v` meets this criterion's rule.
    pub open spec fn accepts(&self, v: T) -> bool {
        match self.bound {
            Bound::Unbounded => true,
            Bound::HalfOpen { low, high } => v.in_range(low as nat, high as nat),
        }
    }

    /// Checks a value before it is sent; `CriteriaSelection::set` does not
    /// call this, so a caller that wants values refused before a request is
    /// made calls it first.
    pub fn validate(&self, v: &T) -> (r: bool)
        ensures
            r == self.accepts(*v),
    {
        match self.bound {
            Bound::Unbounded => true,
            Bound::HalfOpen { low, high } => v.is_in_range(low, high),
        }
    }
}

/// The criterion on exact accessibility, in `[0, 1)`.
pub fn exact_accessibility() -> (r: ActivityCriterion<Decimal>)
    ensures
        r.name@ == "accessibility"@,
        r.bound == (Bound::HalfOpen { low: 0, high: 1 }),
{
    ActivityCriterion { name: "accessibility", bound: Bound::HalfOpen { low: 0, high: 1 }, value: PhantomData }
}

/// The criterion on exact price, in `[0, 1)`.
pub fn exact_price() -> (r: ActivityCriterion<Decimal>)
    ensures
        r.name@ == "price"@,
        r.bound == (Bound::HalfOpen { low: 0, high: 1 }),
{
    ActivityCriterion { name: "price", bound: Bound::HalfOpen { low: 0, high: 1 }, value: PhantomData }
}

/// The criterion on an activity's key, in `[1000000, 9999999)`.
pub fn key() -> (r: ActivityCriterion<u64>)
    ensures
        r.name@ == "key"@,
        r.bound == (Bound::HalfOpen { low: 1000000, high: 9999999 }),
{
    ActivityCriterion { name: "key", bound: Bound::HalfOpen { low: 1000000, high: 9999999 }, value: PhantomData }
}

/// The criterion on the highest accessibility, in `[0, 1)`.
pub fn max_accessibility() -> (r: ActivityCriterion<Decimal>)
    ensures
        r.name@ == "maxaccessibility"@,
        r.bound == (Bound::HalfOpen { low: 0, high: 1 }),
{
    ActivityCriterion { name: "maxaccessibility", bound: Bound::HalfOpen { low: 0, high: 1 }, value: PhantomData }
}

/// The criterion on the highest price, in `[0, 1)`.
pub fn max_price() -> (r: ActivityCriterion<Decimal>)
    ensures
        r.name@ == "maxprice"@,
        r.bound == (Bound::HalfOpen { low: 0, high: 1 }),
{
    ActivityCriterion { name: "maxprice", bound: Bound::HalfOpen { low: 0, high: 1 }, value: PhantomData }
}

/// The criterion on the lowest accessibility, in `[0, 1)`.
pub fn min_accessibility() -> (r: ActivityCriterion<Decimal>)
    ensures
        r.name@ == "minaccessibility"@,
        r.bound == (Bound::HalfOpen { low: 0, high: 1 }),
{
    ActivityCriterion { name: "minaccessibility", bound: Bound::HalfOpen { low: 0, high: 1 }, value: PhantomData }
}

/// The criterion on the lowest price, in `[0, 1)`.
pub fn min_price() -> (r: ActivityCriterion<Decimal>)
    ensures
        r.name@ == "minprice"@,
        r.bound == (Bound::HalfOpen { low: 0, high: 1 }),
{
    ActivityCriterion { name: "minprice", bound: Bound::HalfOpen { low: 0, high: 1 }, value: PhantomData }
}

/// The criterion on the number of participants: any number.
pub fn participants() -> (r: ActivityCriterion<u64>)
    ensures
        r.name@ == "participants"@,
        r.bound == Bound::Unbounded,
{
    ActivityCriterion { name: "participants", bound: Bound::Unbounded, value: PhantomData }
}

/// The criterion on the kind of activity: any kind.
pub fn activity_type() -> (r: ActivityCriterion<ActivityType>)
    ensures
        r.name@ == "type"@,
        r.bound == Bound::Unbounded,
{
    ActivityCriterion { name: "type", bound: Bound::Unbounded, value: PhantomData }
}

} // verus!
