//! Conversions between wrapper types and their inner representations.
//!
//! The time types wrap a [`Timespec`]; these traits let generic plumbing move
//! between the wrapper and the representation without naming either.

use vstd::prelude::*;

use crate::time::Instant;
use crate::time::SystemTime;
use crate::time::Timespec;

verus! {

/// Borrow the inner representation.
pub trait AsInner<Inner> {
    /// A shared view of the representation.
    fn as_inner(&self) -> &Inner;
}

/// Borrow the inner representation mutably.
pub trait AsInnerMut<Inner> {
    /// An exclusive view of the representation.
    fn as_inner_mut(&mut self) -> &mut Inner;
}

/// Extract the inner representation.
pub trait IntoInner<Inner> {
    /// Unwrap into the representation.
    fn into_inner(self) -> Inner;
}

/// Build the wrapper from its inner representation.
pub trait FromInner<Inner>: Sized {
    /// Wrap a representation value.
    fn from_inner(inner: Inner) -> Self;
}

impl AsInner<Timespec> for SystemTime {
    fn as_inner(&self) -> &Timespec {
        &self.t
    }
}

impl IntoInner<Timespec> for SystemTime {
    fn into_inner(self) -> Timespec {
        self.t
    }
}

impl FromInner<Timespec> for SystemTime {
    fn from_inner(inner: Timespec) -> Self {
        SystemTime { t: inner }
    }
}

impl AsInner<Timespec> for Instant {
    fn as_inner(&self) -> &Timespec {
        &self.t
    }
}

impl IntoInner<Timespec> for Instant {
    fn into_inner(self) -> Timespec {
        self.t
    }
}

impl FromInner<Timespec> for Instant {
    fn from_inner(inner: Timespec) -> Self {
        Instant { t: inner }
    }
}

} // verus!
