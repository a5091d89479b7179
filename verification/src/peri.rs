//! Peripheral ownership tokens: a [`Peri`] stands for exclusive use of one
//! peripheral (a pin, a timer, an ADC), holding its zero-sized marker value
//! directly instead of a reference to it.
use vstd::prelude::*;
use core::marker::PhantomData;
use core::ops::Deref;
use vstd::std_specs::convert::IntoSpec;
use crate::gpio::{GpioPort, PinToken};

verus! {

/// Marks a peripheral's token type (e.g. a pin's marker type). Implementors
/// are trivially copyable, typically zero-sized.
pub trait PeripheralType: Copy + Sized {

}

/// Exclusive use of a peripheral for the lifetime `'a`, like `&'a mut T`
/// but holding `T` itself.
pub struct Peri<'a, T: PeripheralType> {
    inner: T,
    lifetime: PhantomData<&'a mut T>,
}

impl<'a, T: PeripheralType> Peri<'a, T> {
    /// The token held.
    pub closed spec fn token(&self) -> T {
        self.inner
    }

    /// Wraps `inner`. Nothing checks that only one token of a peripheral is
    /// alive at a time: that is the caller's to keep.
    pub fn new_unchecked(inner: T) -> (peri: Self)
        ensures
            peri.token() == inner,
    {
        Peri { inner, lifetime: PhantomData }
    }

    /// A child token borrowing this one: this one cannot be used again until
    /// the child is dropped.
    pub fn reborrow(&mut self) -> (child: Peri<'_, T>)
        ensures
            child.token() == old(self).token(),
            final(self).token() == old(self).token(),
    {
        Peri { inner: self.inner, lifetime: PhantomData }
    }

    /// The token, converted into another peripheral type (e.g. a concrete
    /// pin into a type-erased one) by `T`'s conversion.
    pub fn into<U: PeripheralType>(self) -> (converted: Peri<'a, U>)
        where
            T: Into<U>,
        ensures
            T::obeys_into_spec() ==> converted.token() == self.token().into_spec(),
    {
        Peri { inner: self.inner.into(), lifetime: PhantomData }
    }
}

/// A token reads as the peripheral marker it holds.
impl<'a, T: PeripheralType> Deref for Peri<'a, T> {
    type Target = T;

    fn deref(&self) -> (inner: &T)
        ensures
            *inner == self.token(),
    {
        &self.inner
    }
}

/// A wrapped pin is the pin it wraps, so it can be claimed as one.
impl<'a, T: PeripheralType + PinToken> PinToken for Peri<'a, T> {
    const PORT: GpioPort = T::PORT;
    const NUMBER: u8 = T::NUMBER;
}

} // verus!
