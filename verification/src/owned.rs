//! Keeping track of whether an owned value is still to be released.
//!
//! An owned value must be released exactly once, unless it is handed on to
//! something that takes it over. A [`Owned`] holds such a value until one of
//! the two happens, and remembers that it happened: whoever releases values
//! at the end of a scope asks it for the value, and gets it at most once.

use vstd::prelude::*;

verus! {

/// An owned value, or the memory of one that was released or handed on.
pub struct Owned<T> {
    value: Option<T>,
}

impl<T> View for Owned<T> {
    type V = Option<T>;

    closed spec fn view(&self) -> Option<T> {
        self.value
    }
}

impl<T> Owned<T> {
    /// Takes charge of `value`.
    pub fn new(value: T) -> (owned: Owned<T>)
        ensures
            owned@ == Some(value),
    {
        Owned { value: Some(value) }
    }

    /// Whether the value is still here.
    pub fn is_held(&self) -> (held: bool)
        ensures
            held == (self@ is Some),
    {
        self.value.is_some()
    }

    /// The value, if it is still here.
    pub fn get(&self) -> (value: Option<&T>)
        ensures
            value is Some <==> self@ is Some,
            value matches Some(v) ==> self@ == Some(*v),
    {
        self.value.as_ref()
    }

    /// Takes the value out, to release it or to hand it on. From then on
    /// nothing is here, so nobody can take it a second time.
    pub fn take(&mut self) -> (value: Option<T>)
        ensures
            (value, final(self)@) == taken(old(self)@),
    {
        self.value.take()
    }

    /// Releases the value with `release` if it is still here, and remembers
    /// that it is gone. A value that was released or handed on before is
    /// not released again: `release` is not run and comes back as it is.
    pub fn release_with<R: FnOnce(T)>(&mut self, release: R) -> (out: Result<(), R>)
        requires
            old(self)@ matches Some(v) ==> release.requires((v,)),
        ensures
            final(self)@ is None,
            old(self)@ matches Some(v) ==> out is Ok && release.ensures((v,), ()),
            old(self)@ is None ==> (out matches Err(back) && back == release),
    {
        match self.value.take() {
            Some(value) => {
                release(value);
                Ok(())
            },
            None => Err(release),
        }
    }
}

/// What taking gives out, and what it leaves behind.
pub open spec fn taken<T>(held: Option<T>) -> (Option<T>, Option<T>) {
    (held, None)
}

/// However often the value is asked for, it is given out exactly once if it
/// was there, and never if it was not: the first taking gives what was held,
/// and every later one gives nothing.
pub proof fn lemma_taken_once<T>(held: Option<T>)
    ensures
        taken(held).0 == held,
        taken(taken(held).1).0 is None,
        taken(taken(held).1).1 == taken(held).1,
{
}

} // verus!
