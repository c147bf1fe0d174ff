use vstd::prelude::*;

verus! {

/// Conversions from `T` into `Self` that do not check their input. Where a
/// plain conversion would validate, this one relies on its caller: it may only
/// be given a value that `admits` accepts.
pub trait FromUnchecked<T>: Sized {
    /// Whether `t` is a value that the conversion may be given. An impl
    /// narrows it to the values on which its conversion is sound; by default
    /// every value is.
    open spec fn admits(t: T) -> bool {
        true
    }

    /// Performs the unchecked conversion.
    fn from_unchecked(t: T) -> Self
        requires
            Self::admits(t),
    ;
}

/// Conversions from `Self` into `T` that do not check their input; the mirror
/// of [`FromUnchecked`].
pub trait IntoUnchecked<T>: Sized {
    /// Whether `self` may be converted; by default every value may.
    open spec fn admitted(&self) -> bool {
        true
    }

    /// Performs the unchecked conversion.
    fn into_unchecked(self) -> T
        requires
            self.admitted(),
    ;
}

/// Every unchecked conversion from `T` into `U` is an unchecked conversion of
/// `T` into `U`, with the same demand on the input.
impl<T, U: FromUnchecked<T>> IntoUnchecked<U> for T {
    open spec fn admitted(&self) -> bool {
        U::admits(*self)
    }

    fn into_unchecked(self) -> U {
        U::from_unchecked(self)
    }
}

} // verus!
