//! Type-directed conversion between typed values and their generic form.
use crate::error::AbsorbError;
use crate::value::Message;
use std::marker::PhantomData;
use vstd::prelude::*;

verus! {

/// Values that can be carried in their generic form and absorbed back.
pub trait Reflect: Sized {
    fn reflect(self) -> Reflection<Self>;
}

/// A decomposed message that remembers, by its type alone, which typed value
/// it came from.
pub struct Reflection<T> {
    message: Message,
    _marker: PhantomData<T>,
}

impl<T> Reflection<T> {
    /// The carried message.
    pub closed spec fn message(&self) -> Message {
        self.message
    }
}

impl<T: Into<Message>> Reflection<T> {
    /// Decomposes `concrete` through its conversion into a message.
    pub fn new(concrete: T) -> (r: Self)
        ensures
            call_ensures(T::into, (concrete,), r.message()),
    {
        Reflection { message: concrete.into(), _marker: PhantomData }
    }
}

impl<T> Reflection<T> {
    /// Absorbs the carried message into a `T`, through `T`'s conversion from
    /// a message, which validates it.
    pub fn absorb(self) -> (r: Result<T, AbsorbError>)
        where
            Message: TryInto<T, Error = AbsorbError>,
        ensures
            call_ensures(<Message as TryInto<T>>::try_into, (self.message(),), r),
    {
        self.message.try_into()
    }
}

impl<T: Into<Message>> Reflect for T {
    fn reflect(self) -> Reflection<Self> {
        Reflection::new(self)
    }
}

} // verus!
