//! The one failure a sensor operation can report: the bus refused the transfer.

use vstd::prelude::*;
use vstd::std_specs::cmp::{PartialEqSpec, PartialEqSpecImpl};
use vstd::std_specs::convert::{FromSpec, FromSpecImpl};

verus! {

/// A failed sensor operation, carrying the bus's own error value untouched.
#[derive(Debug)]
pub enum Iqs231xError<E> {
    /// The bus reported `E` while the transfer was under way.
    I2CError(E),
}

impl<E> Iqs231xError<E> {
    /// The bus error that this failure carries.
    pub open spec fn cause(self) -> E {
        match self {
            Iqs231xError::I2CError(e) => e,
        }
    }
}

impl<E> From<E> for Iqs231xError<E> {
    /// Wraps a bus error, so that `?` lifts it into a failure of the driver.
    fn from(value: E) -> (failure: Self) {
        Iqs231xError::I2CError(value)
    }
}

impl<E> FromSpecImpl<E> for Iqs231xError<E> {
    open spec fn obeys_from_spec() -> bool {
        true
    }

    open spec fn from_spec(value: E) -> Self {
        Iqs231xError::I2CError(value)
    }
}

impl<E: PartialEq> PartialEq for Iqs231xError<E> {
    /// Compares the two bus errors with their own `==`, and nothing else.
    fn eq(&self, other: &Self) -> (same: bool)
        ensures
            call_ensures(E::eq, (&self.cause(), &other.cause()), same),
    {
        match (self, other) {
            (Iqs231xError::I2CError(mine), Iqs231xError::I2CError(theirs)) => mine.eq(theirs),
        }
    }
}

impl<E: PartialEq> PartialEqSpecImpl for Iqs231xError<E> {
    open spec fn obeys_eq_spec() -> bool {
        E::obeys_eq_spec()
    }

    open spec fn eq_spec(&self, other: &Self) -> bool {
        self.cause().eq_spec(&other.cause())
    }
}

impl<E: Eq> Eq for Iqs231xError<E> {}

/// Wrapping loses nothing and adds nothing: the failure made from a bus error
/// carries that very error, and every failure is the one made from the error
/// that it carries.
pub proof fn lemma_wrapping_is_lossless<E>(cause: E, failure: Iqs231xError<E>)
    ensures
        <Iqs231xError<E> as FromSpec<E>>::from_spec(cause).cause() == cause,
        <Iqs231xError<E> as FromSpec<E>>::from_spec(failure.cause()) == failure,
{
}

/// Two failures are the same exactly when the bus errors that they carry are
/// the same.
pub proof fn lemma_same_failure_same_cause<E>(one: Iqs231xError<E>, other: Iqs231xError<E>)
    ensures
        one == other <==> one.cause() == other.cause(),
{
}

} // verus!
