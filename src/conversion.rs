//! Conversions between closed enumerations owned by different modules.
//!
//! Each implementation states its exact mapping in its own `ensures`.
use vstd::prelude::*;

verus! {

/// Total conversion into `T`; the mirror of [`ForeignFrom`].
pub trait ForeignInto<T> {
    fn foreign_into(self) -> T;
}

/// Fallible conversion into `T`; the mirror of [`ForeignTryFrom`].
pub trait ForeignTryInto<T> {
    type Error;

    fn foreign_try_into(self) -> Result<T, Self::Error>;
}

/// Total conversion from `F`.
pub trait ForeignFrom<F>: Sized {
    fn foreign_from(from: F) -> Self;
}

/// Fallible conversion from `F`.
pub trait ForeignTryFrom<F>: Sized {
    type Error;

    fn foreign_try_from(from: F) -> Result<Self, Self::Error>;
}

impl<F, T> ForeignInto<T> for F where T: ForeignFrom<F> {
    fn foreign_into(self) -> T {
        T::foreign_from(self)
    }
}

impl<F, T> ForeignTryInto<T> for F where T: ForeignTryFrom<F> {
    type Error = <T as ForeignTryFrom<F>>::Error;

    fn foreign_try_into(self) -> Result<T, Self::Error> {
        T::foreign_try_from(self)
    }
}

} // verus!
