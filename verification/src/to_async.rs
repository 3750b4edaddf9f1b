use vstd::prelude::*;

verus! {

/// What an operation hands back: its value, if it has run to its end, or
/// the number of the unit of work that will produce the value later.
#[derive(Debug, PartialEq, Eq)]
pub enum Completion<T> {
    Ready(T),
    Pending(u64),
}

/// Something that turns into a completion when it is taken out of its box:
/// a plain value is ready at once, a completion is what it is.
pub trait ToAsync<T>: Sized {
    spec fn completion(self) -> Completion<T>;

    fn to_async(self: Box<Self>) -> (c: Completion<T>)
        ensures
            c == (*self).completion(),
    ;
}

impl<T> ToAsync<T> for T {
    open spec fn completion(self) -> Completion<T> {
        Completion::Ready(self)
    }

    fn to_async(self: Box<Self>) -> (c: Completion<T>) {
        Completion::Ready(*self)
    }
}

impl<T> ToAsync<T> for Completion<T> {
    open spec fn completion(self) -> Completion<T> {
        self
    }

    fn to_async(self: Box<Self>) -> (c: Completion<T>) {
        *self
    }
}

/// The result of an operation that may or may not have run to its end: one
/// way to treat both alike.
pub trait MaybeAsync<T>: Sized {
    spec fn settled(self) -> Completion<T>;

    fn to_maybe_async(self) -> (c: Completion<T>)
        ensures
            c == self.settled(),
    ;
}

impl<T> MaybeAsync<T> for T {
    open spec fn settled(self) -> Completion<T> {
        Completion::Ready(self)
    }

    fn to_maybe_async(self) -> (c: Completion<T>) {
        Completion::Ready(self)
    }
}

impl<T> MaybeAsync<T> for Completion<T> {
    open spec fn settled(self) -> Completion<T> {
        self
    }

    fn to_maybe_async(self) -> (c: Completion<T>) {
        self
    }
}

} // verus!
