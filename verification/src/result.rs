//! A result type that represents either success or failure, with the
//! failure side carrying a traced error context.
//!
//! The short-circuiting conversion steps that the surrounding language
//! performs on early returns are explicit here: callers invoke
//! [`Span::propagate`](crate::span::Span::propagate) (or
//! [`Span::insert`](crate::span::Span::insert) within one wrapper type) at
//! each propagation point.

use vstd::prelude::*;

use crate::data::ErrorData;
use crate::location::Location;
use crate::span::{inserted_ctx, propagated_ctx, Span};
use crate::trace::{insert_appends, record_for};

verus! {

/// `Result` is a type that represents either success ([`Success`](Result::Success))
/// or failure ([`Failure`](Result::Failure)).
#[derive(Debug, PartialEq, Eq, Hash)]
pub enum Result<T, E> {
    /// Contains the success value
    Success(T),
    /// Contains the error value
    Failure(E),
}

impl<T, E> Result<T, E> {
    /// Returns `true` if the result is `Ok`.
    pub fn is_ok(&self) -> (r: bool)
        ensures
            r == (self is Success),
    {
        match self {
            Result::Success(_) => true,
            Result::Failure(_) => false,
        }
    }

    /// Returns `true` if the result is `Ok` and the value inside of it
    /// matches a predicate.
    pub fn is_ok_and<F: FnOnce(T) -> bool>(self, f: F) -> (r: bool)
        requires
            self matches Result::Success(t) ==> call_requires(f, (t,)),
        ensures
            self matches Result::Success(t) ==> call_ensures(f, (t,), r),
            self is Failure ==> r == false,
    {
        match self {
            Result::Failure(_) => false,
            Result::Success(t) => f(t),
        }
    }

    /// Returns `true` if the result is `Err`.
    pub fn is_err(&self) -> (r: bool)
        ensures
            r == (self is Failure),
    {
        !self.is_ok()
    }

    /// Returns `true` if the result is `Err` and the value inside of it
    /// matches a predicate.
    pub fn is_err_and<F: FnOnce(E) -> bool>(self, f: F) -> (r: bool)
        requires
            self matches Result::Failure(e) ==> call_requires(f, (e,)),
        ensures
            self matches Result::Failure(e) ==> call_ensures(f, (e,), r),
            self is Success ==> r == false,
    {
        match self {
            Result::Success(_) => false,
            Result::Failure(e) => f(e),
        }
    }

    /// Converts into an `Option` over the success value, discarding the
    /// error, if any.
    pub fn ok(self) -> (r: Option<T>)
        ensures
            self matches Result::Success(t) ==> r == Some(t),
            self is Failure ==> r is None,
    {
        match self {
            Result::Success(t) => Some(t),
            Result::Failure(_) => None,
        }
    }

    /// Converts into an `Option` over the error value, discarding the
    /// success value, if any.
    pub fn err(self) -> (r: Option<E>)
        ensures
            self matches Result::Failure(e) ==> r == Some(e),
            self is Success ==> r is None,
    {
        match self {
            Result::Success(_) => None,
            Result::Failure(e) => Some(e),
        }
    }

    /// Converts from `&Result<T, E>` to `Result<&T, &E>`.
    pub fn as_ref(&self) -> (r: Result<&T, &E>)
        ensures
            self matches Result::Success(t) ==> r matches Result::Success(rt) && *rt == t,
            self matches Result::Failure(e) ==> r matches Result::Failure(re) && *re == e,
    {
        match self {
            Result::Success(t) => Result::Success(t),
            Result::Failure(e) => Result::Failure(e),
        }
    }

    /// Converts from `&mut Result<T, E>` to `Result<&mut T, &mut E>`.
    pub fn as_mut(&mut self) -> (r: Result<&mut T, &mut E>)
        ensures
            *old(self) matches Result::Success(t) ==> r matches Result::Success(rt) && *rt == t
                && *final(self) == Result::Success::<T, E>(*final(rt)),
            *old(self) matches Result::Failure(e) ==> r matches Result::Failure(re) && *re == e
                && *final(self) == Result::Failure::<T, E>(*final(re)),
    {
        match self {
            Result::Success(t) => Result::Success(t),
            Result::Failure(e) => Result::Failure(e),
        }
    }

    /// Maps `Result<T, E>` to `Result<U, E>` by applying a function to a
    /// contained `Ok` value, leaving an `Err` value untouched.
    pub fn map<U, F: FnOnce(T) -> U>(self, op: F) -> (r: Result<U, E>)
        requires
            self matches Result::Success(t) ==> call_requires(op, (t,)),
        ensures
            self matches Result::Success(t) ==> r matches Result::Success(u) && call_ensures(op, (t,), u),
            self matches Result::Failure(e) ==> r matches Result::Failure(e2) && e2 == e,
    {
        match self {
            Result::Success(t) => Result::Success(op(t)),
            Result::Failure(e) => Result::Failure(e),
        }
    }

    /// Returns the provided default if `Err`, or applies a function to the
    /// contained value if `Ok`.
    pub fn map_or<U, F: FnOnce(T) -> U>(self, default: U, f: F) -> (r: U)
        requires
            self matches Result::Success(t) ==> call_requires(f, (t,)),
        ensures
            self matches Result::Success(t) ==> call_ensures(f, (t,), r),
            self is Failure ==> r == default,
    {
        match self {
            Result::Success(t) => f(t),
            Result::Failure(_) => default,
        }
    }

    /// Maps to `U` by applying the fallback function to a contained `Err`
    /// value, or `f` to a contained `Ok` value.
    pub fn map_or_else<U, D: FnOnce(E) -> U, F: FnOnce(T) -> U>(self, default: D, f: F) -> (r: U)
        requires
            self matches Result::Success(t) ==> call_requires(f, (t,)),
            self matches Result::Failure(e) ==> call_requires(default, (e,)),
        ensures
            self matches Result::Success(t) ==> call_ensures(f, (t,), r),
            self matches Result::Failure(e) ==> call_ensures(default, (e,), r),
    {
        match self {
            Result::Success(t) => f(t),
            Result::Failure(e) => default(e),
        }
    }

    /// Maps `Result<T, E>` to `Result<T, F>` by applying a function to a
    /// contained `Err` value, leaving an `Ok` value untouched.
    pub fn map_err<F, O: FnOnce(E) -> F>(self, op: O) -> (r: Result<T, F>)
        requires
            self matches Result::Failure(e) ==> call_requires(op, (e,)),
        ensures
            self matches Result::Failure(e) ==> r matches Result::Failure(f) && call_ensures(op, (e,), f),
            self matches Result::Success(t) ==> r matches Result::Success(t2) && t2 == t,
    {
        match self {
            Result::Success(t) => Result::Success(t),
            Result::Failure(e) => Result::Failure(op(e)),
        }
    }

    /// Calls a function with a reference to the contained value if `Ok`,
    /// and returns the result unchanged.
    pub fn inspect<F: FnOnce(&T)>(self, f: F) -> (r: Self)
        requires
            self matches Result::Success(t) ==> call_requires(f, (&t,)),
        ensures
            r == self,
    {
        match &self {
            Result::Success(t) => f(t),
            Result::Failure(_) => (),
        }
        self
    }

    /// Calls a function with a reference to the contained value if `Err`,
    /// and returns the result unchanged.
    pub fn inspect_err<F: FnOnce(&E)>(self, f: F) -> (r: Self)
        requires
            self matches Result::Failure(e) ==> call_requires(f, (&e,)),
        ensures
            r == self,
    {
        match &self {
            Result::Success(_) => (),
            Result::Failure(e) => f(e),
        }
        self
    }

    /// Returns an iterator over the possibly contained value.
    pub fn iter(&self) -> (r: Iter<'_, T>)
        ensures
            self matches Result::Success(t) ==> r.inner matches Some(rt) && *rt == t,
            self is Failure ==> r.inner is None,
    {
        match self {
            Result::Success(t) => Iter { inner: Some(t) },
            Result::Failure(_) => Iter { inner: None },
        }
    }

    /// Returns a mutable iterator over the possibly contained value.
    pub fn iter_mut(&mut self) -> (r: IterMut<'_, T>)
        ensures
            *old(self) matches Result::Success(t) ==> r.inner matches Some(m) && *m == t
                && *final(self) == Result::Success::<T, E>(*final(m)),
            *old(self) matches Result::Failure(e) ==> r.inner is None
                && *final(self) == Result::Failure::<T, E>(e),
    {
        match self {
            Result::Success(t) => IterMut { inner: Some(t) },
            Result::Failure(_) => IterMut { inner: None },
        }
    }

    /// Returns a consuming iterator over the possibly contained value.
    pub fn into_iter(self) -> (r: IntoIter<T>)
        ensures
            self matches Result::Success(t) ==> r.inner == Some(t),
            self is Failure ==> r.inner is None,
    {
        IntoIter { inner: self.ok() }
    }

    /// Returns the contained `Ok` value.
    ///
    /// A caller that cannot rule out `Err` handles it instead; the message
    /// names the expectation that was violated.
    pub fn expect(self, msg: &str) -> (r: T)
        requires
            self is Success,
        ensures
            self matches Result::Success(t) && r == t,
    {
        match self {
            Result::Success(t) => t,
            Result::Failure(_) => unreached(),
        }
    }

    /// Returns the contained `Ok` value; the caller must know the result
    /// is not an `Err`.
    pub fn unwrap(self) -> (r: T)
        requires
            self is Success,
        ensures
            self matches Result::Success(t) && r == t,
    {
        match self {
            Result::Success(t) => t,
            Result::Failure(_) => unreached(),
        }
    }

    /// Returns the contained `Ok` value or the type's default.
    pub fn unwrap_or_default(self) -> (r: T) where T: Default
        ensures
            self matches Result::Success(t) ==> r == t,
            self matches Result::Failure(e) ==> call_ensures(T::default, (), r),
    {
        match self {
            Result::Success(t) => t,
            Result::Failure(_) => Default::default(),
        }
    }

    /// Returns the contained `Err` value.
    ///
    /// The caller must know the result is not an `Ok`; the message names
    /// the expectation that was violated.
    pub fn expect_err(self, msg: &str) -> (r: E)
        requires
            self is Failure,
        ensures
            self matches Result::Failure(e) && r == e,
    {
        match self {
            Result::Success(_) => unreached(),
            Result::Failure(e) => e,
        }
    }

    /// Returns the contained `Err` value; the caller must know the result
    /// is not an `Ok`.
    pub fn unwrap_err(self) -> (r: E)
        requires
            self is Failure,
        ensures
            self matches Result::Failure(e) && r == e,
    {
        match self {
            Result::Success(_) => unreached(),
            Result::Failure(e) => e,
        }
    }

    /// Returns `res` if the result is `Ok`, otherwise the `Err` value of
    /// `self`.
    pub fn and<U>(self, res: Result<U, E>) -> (r: Result<U, E>)
        ensures
            self is Success ==> r == res,
            self matches Result::Failure(e) ==> r matches Result::Failure(e2) && e2 == e,
    {
        match self {
            Result::Success(_) => res,
            Result::Failure(e) => Result::Failure(e),
        }
    }

    /// Calls `op` if the result is `Ok`, otherwise returns the `Err` value
    /// of `self`.
    pub fn and_then<U, F: FnOnce(T) -> Result<U, E>>(self, op: F) -> (r: Result<U, E>)
        requires
            self matches Result::Success(t) ==> call_requires(op, (t,)),
        ensures
            self matches Result::Success(t) ==> call_ensures(op, (t,), r),
            self matches Result::Failure(e) ==> r matches Result::Failure(e2) && e2 == e,
    {
        match self {
            Result::Success(t) => op(t),
            Result::Failure(e) => Result::Failure(e),
        }
    }

    /// Returns `res` if the result is `Err`, otherwise the `Ok` value of
    /// `self`.
    pub fn or<F>(self, res: Result<T, F>) -> (r: Result<T, F>)
        ensures
            self matches Result::Success(t) ==> r matches Result::Success(t2) && t2 == t,
            self is Failure ==> r == res,
    {
        match self {
            Result::Success(t) => Result::Success(t),
            Result::Failure(_) => res,
        }
    }

    /// Calls `op` if the result is `Err`, otherwise returns the `Ok` value
    /// of `self`.
    pub fn or_else<F, O: FnOnce(E) -> Result<T, F>>(self, op: O) -> (r: Result<T, F>)
        requires
            self matches Result::Failure(e) ==> call_requires(op, (e,)),
        ensures
            self matches Result::Failure(e) ==> call_ensures(op, (e,), r),
            self matches Result::Success(t) ==> r matches Result::Success(t2) && t2 == t,
    {
        match self {
            Result::Success(t) => Result::Success(t),
            Result::Failure(e) => op(e),
        }
    }

    /// Returns the contained `Ok` value or the provided default.
    pub fn unwrap_or(self, default: T) -> (r: T)
        ensures
            self matches Result::Success(t) ==> r == t,
            self is Failure ==> r == default,
    {
        match self {
            Result::Success(t) => t,
            Result::Failure(_) => default,
        }
    }

    /// Returns the contained `Ok` value or computes it from a closure.
    pub fn unwrap_or_else<F: FnOnce(E) -> T>(self, op: F) -> (r: T)
        requires
            self matches Result::Failure(e) ==> call_requires(op, (e,)),
        ensures
            self matches Result::Success(t) ==> r == t,
            self matches Result::Failure(e) ==> call_ensures(op, (e,), r),
    {
        match self {
            Result::Success(t) => t,
            Result::Failure(e) => op(e),
        }
    }
}

impl<T> Result<T, Span> {
    /// The propagation hook at a short-circuiting return that crosses a
    /// conversion boundary: on failure, the context moves into a span for
    /// the wrapper value `outer` and a record naming the outer type at
    /// this conversion's call site is inserted, subject to deduplication.
    /// A success passes through untouched.
    pub fn propagate(self, outer: ErrorData, location: &Location) -> (r: Result<T, Span>)
        requires
            self matches Result::Failure(s) ==> s.wf() && s.ctx is Some,
        ensures
            self matches Result::Success(t) ==> r matches Result::Success(t2) && t2 == t,
            self matches Result::Failure(s) ==> r matches Result::Failure(s2) && s2.wf()
                && s2.data == outer && s2.record == record_for(outer, *location, s2.slot)
                && (s.ctx matches Some(c0) ==> s2.slot == c0.instances@.len() && (s2.ctx
                matches Some(c2) && propagated_ctx(
                c2,
                c0,
                outer,
                *location,
                s2.slot,
                insert_appends(
                    c0.trace@,
                    record_for(outer, *location, (c0.instances@.len() as usize)),
                ),
            ))),
    {
        match self {
            Result::Success(t) => Result::Success(t),
            Result::Failure(s) => Result::Failure(s.propagate(outer, location)),
        }
    }

    /// The propagation hook at a short-circuiting return that stays within
    /// one wrapper type: on failure, a record for the failure's own value
    /// at this call site is inserted, subject to deduplication. A success
    /// passes through untouched.
    pub fn retrace(self, location: &Location) -> (r: Result<T, Span>)
        requires
            self matches Result::Failure(s) ==> s.wf() && s.ctx is Some,
        ensures
            self matches Result::Success(t) ==> r matches Result::Success(t2) && t2 == t,
            self matches Result::Failure(s) ==> r matches Result::Failure(s2) && s2.wf()
                && s2.data == s.data && s2.record == s.record && s2.slot == s.slot && (s.ctx
                matches Some(c0) ==> (s2.ctx matches Some(c2) && inserted_ctx(
                c2,
                c0,
                record_for(s.data, *location, s.slot),
                insert_appends(c0.trace@, record_for(s.data, *location, s.slot)),
            ))),
    {
        match self {
            Result::Success(t) => Result::Success(t),
            Result::Failure(mut s) => {
                let rec = s.record_at(location);
                s.insert(rec);
                Result::Failure(s)
            },
        }
    }
}

impl<'a, T, E> Result<&'a T, E> {
    /// Maps `Result<&T, E>` to `Result<T, E>` by copying the `Ok` value.
    pub fn copied(self) -> (r: Result<T, E>) where T: Copy
        ensures
            self matches Result::Success(t) ==> r matches Result::Success(u) && u == *t,
            self matches Result::Failure(e) ==> r matches Result::Failure(e2) && e2 == e,
    {
        match self {
            Result::Success(t) => Result::Success(*t),
            Result::Failure(e) => Result::Failure(e),
        }
    }

    /// Maps `Result<&T, E>` to `Result<T, E>` by cloning the `Ok` value.
    pub fn cloned(self) -> (r: Result<T, E>) where T: Clone
        ensures
            self matches Result::Success(t) ==> r matches Result::Success(u) && vstd::pervasive::cloned(
                *t,
                u,
            ),
            self matches Result::Failure(e) ==> r matches Result::Failure(e2) && e2 == e,
    {
        match self {
            Result::Success(t) => Result::Success(t.clone()),
            Result::Failure(e) => Result::Failure(e),
        }
    }
}

impl<'a, T, E> Result<&'a mut T, E> {
    /// Maps `Result<&mut T, E>` to `Result<T, E>` by copying the `Ok` value.
    pub fn copied(self) -> (r: Result<T, E>) where T: Copy
        ensures
            self matches Result::Success(t) ==> r matches Result::Success(u) && u == *t,
            self matches Result::Failure(e) ==> r matches Result::Failure(e2) && e2 == e,
    {
        match self {
            Result::Success(t) => Result::Success(*t),
            Result::Failure(e) => Result::Failure(e),
        }
    }

    /// Maps `Result<&mut T, E>` to `Result<T, E>` by cloning the `Ok` value.
    pub fn cloned(self) -> (r: Result<T, E>) where T: Clone
        ensures
            self matches Result::Success(t) ==> r matches Result::Success(u) && vstd::pervasive::cloned(
                *t,
                u,
            ),
            self matches Result::Failure(e) ==> r matches Result::Failure(e2) && e2 == e,
    {
        match self {
            Result::Success(t) => Result::Success(t.clone()),
            Result::Failure(e) => Result::Failure(e),
        }
    }
}

impl<T, E> Result<Option<T>, E> {
    /// Transposes a `Result` of an `Option` into an `Option` of a `Result`.
    pub fn transpose(self) -> (r: Option<Result<T, E>>)
        ensures
            self matches Result::Success(o) ==> match o {
                Some(t) => r matches Some(inner) && inner matches Result::Success(t2) && t2 == t,
                None => r is None,
            },
            self matches Result::Failure(e) ==> r matches Some(inner) && inner matches Result::Failure(e2)
                && e2 == e,
    {
        match self {
            Result::Success(Some(t)) => Some(Result::Success(t)),
            Result::Success(None) => None,
            Result::Failure(e) => Some(Result::Failure(e)),
        }
    }
}

impl<T, E> Result<Result<T, E>, E> {
    /// Converts from `Result<Result<T, E>, E>` to `Result<T, E>`, removing
    /// one level of nesting.
    pub fn flatten(self) -> (r: Result<T, E>)
        ensures
            self matches Result::Success(inner) ==> r == inner,
            self matches Result::Failure(e) ==> r matches Result::Failure(e2) && e2 == e,
    {
        match self {
            Result::Success(inner) => inner,
            Result::Failure(e) => Result::Failure(e),
        }
    }
}

impl<T: Clone, E: Clone> Clone for Result<T, E> {
    fn clone(&self) -> (r: Self)
        ensures
            self matches Result::Success(t) ==> r matches Result::Success(t2)
                && vstd::pervasive::cloned::<T>(*t, t2),
            self matches Result::Failure(e) ==> r matches Result::Failure(e2)
                && vstd::pervasive::cloned::<E>(*e, e2),
    {
        match self {
            Result::Success(t) => Result::Success(t.clone()),
            Result::Failure(e) => Result::Failure(e.clone()),
        }
    }
}

/// An iterator over a reference to the `Ok` variant of a [`Result`],
/// yielding one value if the result is `Ok`, otherwise none.
#[derive(Debug)]
pub struct Iter<'a, T> {
    pub inner: Option<&'a T>,
}

impl<'a, T> Iter<'a, T> {
    /// The next element, if any.
    pub fn next(&mut self) -> (r: Option<&'a T>)
        ensures
            r == old(self).inner,
            final(self).inner is None,
    {
        self.inner.take()
    }

    /// How many elements remain.
    pub fn len(&self) -> (r: usize)
        ensures
            r == if self.inner is Some {
                1int
            } else {
                0int
            },
    {
        match self.inner {
            Some(_) => 1,
            None => 0,
        }
    }
}

impl<'a, T> Clone for Iter<'a, T> {
    fn clone(&self) -> (r: Self)
        ensures
            r.inner == self.inner,
    {
        Iter { inner: self.inner }
    }
}

/// An iterator over a mutable reference to the `Ok` variant of a
/// [`Result`].
#[derive(Debug)]
pub struct IterMut<'a, T> {
    pub inner: Option<&'a mut T>,
}

impl<'a, T> IterMut<'a, T> {
    /// The next element, if any.
    pub fn next(&mut self) -> (r: Option<&'a mut T>)
        ensures
            old(self).inner is None ==> r is None && final(self).inner is None,
            old(self).inner matches Some(m) ==> r matches Some(m2) && m2 == m && final(self).inner
                is None,
    {
        self.inner.take()
    }
}

/// An iterator over the value in the `Ok` variant of a [`Result`].
#[derive(Debug)]
pub struct IntoIter<T> {
    pub inner: Option<T>,
}

impl<T> IntoIter<T> {
    /// The next element, if any.
    pub fn next(&mut self) -> (r: Option<T>)
        ensures
            r == old(self).inner,
            final(self).inner is None,
    {
        self.inner.take()
    }
}

} // verus!
