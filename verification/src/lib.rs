//! Unit-tagged time arithmetic.
//!
//! A `Duration` or `Instant` stores one integer value whose time unit is
//! carried in its type, so that values in different units cannot be mixed
//! by accident and the unit tag costs no storage. Converting between units
//! multiplies by an exact rational factor, with every overflow reported
//! rather than wrapped; there is no wall-clock source, no calendar math
//! and no floating point anywhere.

pub mod convert;
pub mod ratio;
pub mod repr;
pub mod unit;

use core::marker::PhantomData;
use vstd::prelude::*;

use crate::convert::{convert, convert_fits, convert_spec};
use crate::repr::Repr;
use crate::unit::{factor, factor_den, factor_num, lit, raw_factor_den, raw_factor_num, Unit};

verus! {

/// A span of time: one integer of representation `R`, counted in ticks of
/// unit `U`. The unit lives only in the type; the struct stores nothing
/// beyond the bare integer.
#[derive(Debug, PartialOrd, Ord, PartialEq, Eq, Hash)]
pub struct Duration<R, U> {
    value: R,
    _unit: PhantomData<U>,
}

impl<R: Copy, U> Copy for Duration<R, U> {

}

impl<R: Copy, U> Clone for Duration<R, U> {
    /// A duration copies freely.
    fn clone(&self) -> (r: Self)
        ensures
            r == *self,
    {
        *self
    }
}

impl<R: Repr, U> Duration<R, U> {
    /// The number of ticks held.
    pub closed spec fn as_int(self) -> int {
        self.value.as_int()
    }

    /// A duration holds what its representation can hold.
    pub proof fn lemma_in_range(self)
        ensures
            0 <= self.as_int() <= R::max_value(),
    {
        self.value.lemma_in_range();
    }

    /// Wrap a raw tick count.
    pub fn from_value(value: R) -> (d: Self)
        ensures
            d.as_int() == value.as_int(),
    {
        Duration { value, _unit: PhantomData }
    }

    /// The raw tick count.
    pub fn value(self) -> (r: R)
        ensures
            r.as_int() == self.as_int(),
    {
        self.value
    }

    /// The raw tick count, by reference.
    pub fn value_ref(&self) -> (r: &R)
        ensures
            r.as_int() == self.as_int(),
    {
        &self.value
    }

    /// Replace the stored tick count in place: the one mutating accessor.
    pub fn value_mut(&mut self, value: R)
        ensures
            final(self).as_int() == value.as_int(),
    {
        self.value = value;
    }

    /// Sum of two durations of the same unit; the caller rules overflow
    /// out, as with the representation's own addition.
    pub fn add(self, v: Self) -> (d: Self)
        requires
            self.as_int() + v.as_int() <= R::max_value(),
        ensures
            d.as_int() == self.as_int() + v.as_int(),
    {
        Duration::from_value(self.value.add(v.value))
    }

    /// Difference of two durations of the same unit; the caller rules
    /// underflow out.
    pub fn sub(self, v: Self) -> (d: Self)
        requires
            v.as_int() <= self.as_int(),
        ensures
            d.as_int() == self.as_int() - v.as_int(),
    {
        Duration::from_value(self.value.sub(v.value))
    }

    /// A duration scaled by a plain number.
    pub fn mul(self, v: R) -> (d: Self)
        requires
            self.as_int() * v.as_int() <= R::max_value(),
        ensures
            d.as_int() == self.as_int() * v.as_int(),
    {
        Duration::from_value(self.value.mul(v))
    }

    /// How many times one duration fits in another: the quotient is a bare
    /// number, not a duration.
    pub fn div(self, v: Self) -> (r: R)
        requires
            v.as_int() > 0,
        ensures
            r.as_int() == self.as_int() / v.as_int(),
    {
        self.value.div(v.value)
    }

    /// What remains after `div`.
    pub fn rem(self, v: Self) -> (d: Self)
        requires
            v.as_int() > 0,
        ensures
            d.as_int() == self.as_int() % v.as_int(),
    {
        Duration::from_value(self.value.rem(v.value))
    }

    /// Sum, clamped to the representation's maximum instead of
    /// overflowing.
    pub fn saturating_add(self, v: Self) -> (d: Self)
        ensures
            d.as_int() == if self.as_int() + v.as_int() <= R::max_value() {
                self.as_int() + v.as_int()
            } else {
                R::max_value()
            },
    {
        Duration::from_value(self.value.saturating_add(v.value))
    }

    /// Difference, clamped to zero instead of underflowing.
    pub fn saturating_sub(self, v: Self) -> (d: Self)
        ensures
            d.as_int() == if v.as_int() <= self.as_int() {
                self.as_int() - v.as_int()
            } else {
                0
            },
    {
        Duration::from_value(self.value.saturating_sub(v.value))
    }

    /// The longest representable duration.
    pub fn max_value() -> (d: Self)
        ensures
            d.as_int() == R::max_value(),
    {
        Duration::from_value(R::max_val())
    }
}

impl<R: Repr, U: Unit> Duration<R, U> {
    /// The same span of time in another unit and representation.
    ///
    /// The factor from `SU` to `U` is reduced before use; the conversion
    /// is then exact whenever the factor is at least one, truncates toward
    /// zero on a pure downscale, and reports any value that does not fit.
    pub fn convert_from<SU: Unit, SR: Repr>(value: Duration<SR, SU>) -> (result: Option<Self>)
        requires
            raw_factor_num::<SU, U>() <= u64::MAX as nat,
            raw_factor_den::<SU, U>() <= u64::MAX as nat,
        ensures
            ({
                let v = value.as_int();
                let n = factor_num::<SU, U>() as int;
                let d = factor_den::<SU, U>() as int;
                match result {
                    Some(w) => convert_fits::<SR, R>(v, n, d) && w.as_int() == convert_spec(
                        v,
                        n,
                        d,
                    ),
                    None => !convert_fits::<SR, R>(v, n, d),
                }
            }),
    {
        let f = factor::<SU, U>();
        match convert::<SR, R>(value.value(), f) {
            Some(x) => Some(Duration::from_value(x)),
            None => None,
        }
    }
}

impl<U: Unit> Duration<u64, U> {
    /// The raw tick count of a 64-bit duration.
    pub fn const_value(&self) -> (r: u64)
        ensures
            r as int == self.as_int(),
    {
        self.value
    }

    /// The number of `U`-ticks that `value` ticks of unit `S` are worth,
    /// truncated toward zero: the literal-conversion path for building
    /// fixed constants, computed without constructing a duration.
    pub fn literal_value<S: Unit>(value: u64) -> (r: u64)
        requires
            raw_factor_num::<S, U>() <= u64::MAX as nat,
            raw_factor_den::<S, U>() <= u64::MAX as nat,
            value as nat * raw_factor_num::<S, U>() / raw_factor_den::<S, U>() <= u64::MAX as nat,
        ensures
            r as int == value as int * raw_factor_num::<S, U>() as int / raw_factor_den::<
                S,
                U,
            >() as int,
    {
        lit::<S, U>(value)
    }

    /// The same tick count in a narrower representation, keeping the low
    /// bits: a wrapping cast, for callers that know the value fits.
    pub fn trunc<R: Repr>(self) -> (d: Duration<R, U>)
        ensures
            d.as_int() == self.as_int() % (R::max_value() + 1),
    {
        Duration::from_value(R::from_u64_wrapping(self.value))
    }

    /// A duration of `value` ticks of unit `S`, converted to unit `U`.
    pub fn literal<S: Unit>(value: u64) -> (d: Self)
        requires
            raw_factor_num::<S, U>() <= u64::MAX as nat,
            raw_factor_den::<S, U>() <= u64::MAX as nat,
            value as nat * raw_factor_num::<S, U>() / raw_factor_den::<S, U>() <= u64::MAX as nat,
        ensures
            d.as_int() == value as int * raw_factor_num::<S, U>() as int / raw_factor_den::<
                S,
                U,
            >() as int,
    {
        Duration::from_value(Self::literal_value::<S>(value))
    }
}

impl<R: Repr, U> Default for Duration<R, U> {
    /// The zero duration.
    fn default() -> (d: Self)
        ensures
            d.as_int() == 0,
    {
        Duration::from_value(R::zero())
    }
}

/// A point in time: a duration since a fixed, implicit origin — time zero
/// of whichever clock the caller supplies.
#[derive(Debug, PartialOrd, Ord, PartialEq, Eq, Hash)]
pub struct Instant<R, U> {
    duration: Duration<R, U>,
}

impl<R: Copy, U> Copy for Instant<R, U> {

}

impl<R: Copy, U> Clone for Instant<R, U> {
    /// An instant copies freely.
    fn clone(&self) -> (r: Self)
        ensures
            r == *self,
    {
        *self
    }
}

impl<R: Repr, U> Instant<R, U> {
    /// Ticks since the origin.
    pub closed spec fn as_int(self) -> int {
        self.duration.as_int()
    }

    /// An instant holds what its representation can hold.
    pub proof fn lemma_in_range(self)
        ensures
            0 <= self.as_int() <= R::max_value(),
    {
        self.duration.lemma_in_range();
    }

    /// The instant `value` ticks after the origin.
    pub fn from_value(value: R) -> (i: Self)
        ensures
            i.as_int() == value.as_int(),
    {
        Instant { duration: Duration::from_value(value) }
    }

    /// The instant reached by `duration` after the origin.
    pub fn from_origin(duration: Duration<R, U>) -> (i: Self)
        ensures
            i.as_int() == duration.as_int(),
    {
        Instant { duration }
    }

    /// The duration since the origin.
    pub fn since_origin(self) -> (d: Duration<R, U>)
        ensures
            d.as_int() == self.as_int(),
    {
        self.duration
    }

    /// The raw tick count.
    pub fn value(self) -> (r: R)
        ensures
            r.as_int() == self.as_int(),
    {
        self.duration.value()
    }

    /// The raw tick count, by reference.
    pub fn value_ref(&self) -> (r: &R)
        ensures
            r.as_int() == self.as_int(),
    {
        self.duration.value_ref()
    }

    /// Replace the stored tick count in place: the one mutating accessor.
    pub fn value_mut(&mut self, value: R)
        ensures
            final(self).as_int() == value.as_int(),
    {
        self.duration.value_mut(value);
    }

    /// The instant a duration later; the caller rules overflow out.
    pub fn add(self, v: Duration<R, U>) -> (i: Self)
        requires
            self.as_int() + v.as_int() <= R::max_value(),
        ensures
            i.as_int() == self.as_int() + v.as_int(),
    {
        Instant::from_origin(self.duration.add(v))
    }

    /// The instant a duration earlier; the caller rules underflow out.
    pub fn sub(self, v: Duration<R, U>) -> (i: Self)
        requires
            v.as_int() <= self.as_int(),
        ensures
            i.as_int() == self.as_int() - v.as_int(),
    {
        Instant::from_origin(self.duration.sub(v))
    }

    /// The interval between two instants: a duration, never an instant.
    pub fn diff(self, rhs: Self) -> (d: Duration<R, U>)
        requires
            rhs.as_int() <= self.as_int(),
        ensures
            d.as_int() == self.as_int() - rhs.as_int(),
    {
        self.duration.sub(rhs.duration)
    }

    /// The instant a duration later, clamped to the representable range.
    pub fn saturating_add(self, rhs: Duration<R, U>) -> (i: Self)
        ensures
            i.as_int() == if self.as_int() + rhs.as_int() <= R::max_value() {
                self.as_int() + rhs.as_int()
            } else {
                R::max_value()
            },
    {
        Instant::from_origin(self.duration.saturating_add(rhs))
    }

    /// The instant a duration earlier, clamped to the origin.
    pub fn saturating_sub(self, rhs: Duration<R, U>) -> (i: Self)
        ensures
            i.as_int() == if rhs.as_int() <= self.as_int() {
                self.as_int() - rhs.as_int()
            } else {
                0
            },
    {
        Instant::from_origin(self.duration.saturating_sub(rhs))
    }

    /// The interval between two instants, clamped to zero when `rhs` lies
    /// after `self`.
    pub fn saturating_diff(self, rhs: Instant<R, U>) -> (d: Duration<R, U>)
        ensures
            d.as_int() == if rhs.as_int() <= self.as_int() {
                self.as_int() - rhs.as_int()
            } else {
                0
            },
    {
        self.duration.saturating_sub(rhs.duration)
    }
}

impl<R: Repr, U: Unit> Instant<R, U> {
    /// The same point in time in another unit and representation; converts
    /// the duration since the origin.
    pub fn convert_from<SU: Unit, SR: Repr>(value: Instant<SR, SU>) -> (result: Option<Self>)
        requires
            raw_factor_num::<SU, U>() <= u64::MAX as nat,
            raw_factor_den::<SU, U>() <= u64::MAX as nat,
        ensures
            ({
                let v = value.as_int();
                let n = factor_num::<SU, U>() as int;
                let d = factor_den::<SU, U>() as int;
                match result {
                    Some(w) => convert_fits::<SR, R>(v, n, d) && w.as_int() == convert_spec(
                        v,
                        n,
                        d,
                    ),
                    None => !convert_fits::<SR, R>(v, n, d),
                }
            }),
    {
        match Duration::convert_from(value.since_origin()) {
            Some(d) => Some(Instant::from_origin(d)),
            None => None,
        }
    }
}

impl<R: Repr, U> Default for Instant<R, U> {
    /// The origin itself.
    fn default() -> (i: Self)
        ensures
            i.as_int() == 0,
    {
        Instant::from_value(R::zero())
    }
}

/// Either a relative offset — "this long from now" — or an absolute point
/// in time, resolved against a clock only on demand.
#[derive(Debug, PartialOrd, Ord, PartialEq, Eq, Hash)]
pub enum Moment<R, U> {
    Relative(Duration<R, U>),
    Absolute(Instant<R, U>),
}

impl<R: Copy, U> Copy for Moment<R, U> {

}

impl<R: Copy, U> Clone for Moment<R, U> {
    /// A moment copies freely.
    fn clone(&self) -> (r: Self)
        ensures
            r == *self,
    {
        *self
    }
}

impl<R: Repr, U> Moment<R, U> {
    /// The moment "now": a zero relative offset.
    pub fn immediate() -> (m: Self)
        ensures
            m matches Moment::Relative(d) && d.as_int() == 0,
    {
        Moment::Relative(Duration::from_value(R::zero()))
    }

    /// Resolve against a caller-supplied clock.
    ///
    /// An absolute moment is returned as it is and the clock is never
    /// read: the precondition demands that `now` be callable only for a
    /// relative moment, so a verified caller may hand in a clock it could
    /// not afford to invoke. A relative moment reads the clock once and
    /// adds the offset, reporting an overflowing sum instead of wrapping.
    pub fn to_absolute<F: FnOnce() -> Instant<R, U>>(self, now: F) -> (result: Option<
        Instant<R, U>,
    >)
        requires
            self matches Moment::Relative(_) ==> call_requires(now, ()),
        ensures
            match self {
                Moment::Absolute(instant) => result == Some(instant),
                Moment::Relative(duration) => match result {
                    Some(instant) => exists|n: Instant<R, U>|
                        {
                            &&& #[trigger] call_ensures(now, (), n)
                            &&& n.as_int() + duration.as_int() <= R::max_value()
                            &&& instant.as_int() == n.as_int() + duration.as_int()
                        },
                    None => exists|n: Instant<R, U>|
                        {
                            &&& #[trigger] call_ensures(now, (), n)
                            &&& n.as_int() + duration.as_int() > R::max_value()
                        },
                },
            },
    {
        match self {
            Moment::Absolute(instant) => Some(instant),
            Moment::Relative(duration) => {
                let n = now();
                match n.value().checked_add(duration.value()) {
                    Some(v) => {
                        proof {
                            v.lemma_in_range();
                        }
                        Some(Instant::from_value(v))
                    },
                    None => None,
                }
            },
        }
    }
}

impl<R: Repr, U> From<Duration<R, U>> for Moment<R, U> {
    /// A duration names the moment that far from now.
    fn from(v: Duration<R, U>) -> (m: Self) {
        Moment::Relative(v)
    }
}

impl<R: Repr, U> vstd::std_specs::convert::FromSpecImpl<Duration<R, U>> for Moment<R, U> {
    open spec fn obeys_from_spec() -> bool {
        true
    }

    open spec fn from_spec(v: Duration<R, U>) -> Self {
        Moment::Relative(v)
    }
}

impl<R: Repr, U> From<Instant<R, U>> for Moment<R, U> {
    /// An instant names the moment at that point in time.
    fn from(v: Instant<R, U>) -> (m: Self) {
        Moment::Absolute(v)
    }
}

impl<R: Repr, U> vstd::std_specs::convert::FromSpecImpl<Instant<R, U>> for Moment<R, U> {
    open spec fn obeys_from_spec() -> bool {
        true
    }

    open spec fn from_spec(v: Instant<R, U>) -> Self {
        Moment::Absolute(v)
    }
}

} // verus!
