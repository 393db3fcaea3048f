//! An optional-value container with result-style access.
//!
//! [`A2RwOptionLock`] holds a value that is set some time after
//! construction; every read says in its result whether the value was there.
//! A host that shares it between threads wraps it in its own lock; the
//! contracts here describe the container's state exactly.

use vstd::prelude::*;

use crate::errors::AppError;

verus! {

/// The description every empty-container error carries.
pub open spec fn not_set_message() -> Seq<char> {
    "not setted"@
}

/// A container for a value that may not have been set yet.
pub struct A2RwOptionLock<T> {
    inner: Option<T>,
}

impl<T> View for A2RwOptionLock<T> {
    type V = Option<T>;

    closed spec fn view(&self) -> Option<T> {
        self.inner
    }
}

impl<T> A2RwOptionLock<T> {
    /// An empty container.
    pub fn new() -> (r: A2RwOptionLock<T>)
        ensures
            r@ is None,
    {
        A2RwOptionLock { inner: None }
    }

    /// Store `value`, replacing whatever was there.
    pub fn set(&mut self, value: T) -> (r: Result<(), AppError>)
        ensures
            final(self)@ == Some(value),
            r is Ok,
    {
        self.inner = Some(value);
        Ok(())
    }

    /// A clone of the stored value, or an error when none was set.
    pub fn get(&self) -> (r: Result<T, AppError>) where T: Clone
        ensures
            match r {
                Ok(v) => self@ is Some && cloned::<T>(self@->Some_0, v),
                Err(e) => self@ is None && e@ == not_set_message(),
            },
    {
        match &self.inner {
            Some(v) => Ok(v.clone()),
            None => Err(AppError::new("not setted")),
        }
    }

    /// Apply `f` to the stored value, or report that none was set.
    pub fn with<R, F: FnOnce(&T) -> R>(&self, f: F) -> (r: Result<R, AppError>)
        requires
            self@ is Some ==> call_requires(f, (&self@->Some_0,)),
        ensures
            match r {
                Ok(v) => self@ is Some && call_ensures(f, (&self@->Some_0,), v),
                Err(e) => self@ is None && e@ == not_set_message(),
            },
    {
        match &self.inner {
            Some(v) => Ok(f(v)),
            None => Err(AppError::new("not setted")),
        }
    }

    /// Pass the stored value through `f`, keeping the value `f` hands back,
    /// or report that none was set.
    pub fn with_mut<R, F: FnOnce(T) -> (T, R)>(&mut self, f: F) -> (r: Result<R, AppError>)
        requires
            old(self)@ is Some ==> call_requires(f, (old(self)@->Some_0,)),
        ensures
            match r {
                Ok(v) => old(self)@ is Some && final(self)@ is Some && call_ensures(
                    f,
                    (old(self)@->Some_0,),
                    (final(self)@->Some_0, v),
                ),
                Err(e) => old(self)@ is None && final(self)@ is None && e@ == not_set_message(),
            },
    {
        match self.inner.take() {
            Some(v) => {
                let (updated, out) = f(v);
                self.inner = Some(updated);
                Ok(out)
            },
            None => Err(AppError::new("not setted")),
        }
    }
}

} // verus!
