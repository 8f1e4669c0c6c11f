//! Conversion traits between the types of this library and the types that
//! surround it. Each conversion states, as a relation between its input and
//! its result, what it returns.
use vstd::prelude::*;

verus! {

/// A total conversion from `F`.
pub trait ForeignFrom<F>: Sized {
    spec fn converts(from: F, to: Self) -> bool;

    fn foreign_from(from: F) -> (r: Self)
        ensures
            Self::converts(from, r),
    ;
}

/// A conversion from `F` that may fail.
pub trait ForeignTryFrom<F>: Sized {
    type Error;

    spec fn try_converts(from: F, to: Result<Self, Self::Error>) -> bool;

    fn foreign_try_from(from: F) -> (r: Result<Self, Self::Error>)
        ensures
            Self::try_converts(from, r),
    ;
}

/// The other direction of [`ForeignFrom`], written on the source value.
pub trait ForeignInto<T> {
    spec fn converts_into(self, to: T) -> bool;

    fn foreign_into(self) -> (r: T)
        ensures
            self.converts_into(r),
    ;
}

/// The other direction of [`ForeignTryFrom`], written on the source value.
pub trait ForeignTryInto<T> {
    type Error;

    spec fn try_converts_into(self, to: Result<T, Self::Error>) -> bool;

    fn foreign_try_into(self) -> (r: Result<T, Self::Error>)
        ensures
            self.try_converts_into(r),
    ;
}

impl<F, T: ForeignFrom<F>> ForeignInto<T> for F {
    open spec fn converts_into(self, to: T) -> bool {
        T::converts(self, to)
    }

    fn foreign_into(self) -> (r: T) {
        T::foreign_from(self)
    }
}

impl<F, T: ForeignTryFrom<F>> ForeignTryInto<T> for F {
    type Error = <T as ForeignTryFrom<F>>::Error;

    open spec fn try_converts_into(self, to: Result<T, Self::Error>) -> bool {
        T::try_converts(self, to)
    }

    fn foreign_try_into(self) -> (r: Result<T, Self::Error>) {
        T::foreign_try_from(self)
    }
}

} // verus!
