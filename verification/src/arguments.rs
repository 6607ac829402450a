//! How an optional parameter of a callable is resolved.
//!
//! A caller gives a value, leaves the parameter out, or passes the marker
//! for "no value". The three are kept apart: leaving a parameter out takes
//! its declared default, the marker never does.

use vstd::prelude::*;

verus! {

/// What the caller did about one optional parameter.
#[derive(Debug, PartialEq, Eq)]
pub enum Argument<T> {
    /// The caller passed this value.
    Given(T),
    /// The caller left the parameter out.
    Omitted,
    /// The caller passed the marker for "no value".
    Absent,
}

impl<T> Argument<T> {
    /// The value that the callable works with. `default` is what the
    /// callable declares for a parameter that is left out: a value, or
    /// `None` where it declares the marker itself.
    pub open spec fn resolved(self, default: Option<T>) -> Option<T> {
        match self {
            Argument::Given(value) => Some(value),
            Argument::Omitted => default,
            Argument::Absent => None,
        }
    }

    /// Resolves the parameter against its declared default.
    pub fn resolve(self, default: Option<T>) -> (value: Option<T>)
        ensures
            value == self.resolved(default),
    {
        match self {
            Argument::Given(value) => Some(value),
            Argument::Omitted => default,
            Argument::Absent => None,
        }
    }
}

/// A parameter that is left out takes the declared default; the marker for
/// "no value" resolves to no value, whatever the default; a given value is
/// kept. So where a callable declares a value as its default, leaving the
/// parameter out and passing the marker are told apart.
pub proof fn lemma_omitted_is_not_absent<T>(value: T, default: Option<T>)
    ensures
        Argument::<T>::Omitted.resolved(default) == default,
        Argument::<T>::Absent.resolved(default) == None::<T>,
        Argument::Given(value).resolved(default) == Some(value),
        default is Some ==> Argument::<T>::Omitted.resolved(default) != Argument::<T>::Absent.resolved(
            default,
        ),
{
}

} // verus!
