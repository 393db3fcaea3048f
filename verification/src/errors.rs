//! The crate's error type and the conversion of results to plain strings.

use vstd::prelude::*;

verus! {

/// An error carrying its description as a plain string.
#[derive(Debug)]
pub struct AppError {
    pub message: String,
}

impl View for AppError {
    type V = Seq<char>;

    open spec fn view(&self) -> Seq<char> {
        self.message@
    }
}

impl AppError {
    /// An error with the given description.
    pub fn new(message: &str) -> (r: AppError)
        ensures
            r@ == message@,
    {
        AppError { message: String::from_str(message) }
    }

    /// The error's description.
    pub fn message(&self) -> (r: String)
        ensures
            r@ == self@,
    {
        self.message.clone()
    }
}

impl Clone for AppError {
    fn clone(&self) -> (r: AppError)
        ensures
            r == *self,
    {
        AppError { message: self.message.clone() }
    }
}

/// Results whose error can be flattened to its description.
pub trait MapErrorStr<T>: Sized {
    /// The same result with the error as a plain string.
    spec fn spec_mapped(self) -> Result<T, String>;

    /// Map the error, keeping a success untouched.
    fn map_error_str(self) -> (r: Result<T, String>)
        ensures
            r == self.spec_mapped(),
    ;
}

impl<T> MapErrorStr<T> for Result<T, AppError> {
    open spec fn spec_mapped(self) -> Result<T, String> {
        match self {
            Ok(v) => Ok(v),
            Err(e) => Err(e.message),
        }
    }

    fn map_error_str(self) -> (r: Result<T, String>) {
        match self {
            Ok(v) => Ok(v),
            Err(e) => Err(e.message),
        }
    }
}

} // verus!
