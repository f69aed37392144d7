//! A handle to an error instance extracted from a trace context.

use vstd::prelude::*;

use crate::data::ErrorData;

verus! {

/// A construct to represent an error extracted from the chain by type.
///
/// The handle carries the extracted instance; its rendered text equals the
/// instance's own display text.
#[derive(Debug)]
pub struct Downcasted {
    pub origin: ErrorData,
}

impl Downcasted {
    pub(crate) fn new(origin: ErrorData) -> (r: Self)
        ensures
            r.origin == origin,
    {
        Downcasted { origin }
    }

    /// Returns the extracted error.
    pub fn downcast_ref(&self) -> (r: &ErrorData)
        ensures
            *r == self.origin,
    {
        &self.origin
    }

    /// Renders the extracted error's own display text.
    pub fn render(&self) -> (r: String)
        ensures
            r@ == self.origin.message@,
    {
        self.origin.message.clone()
    }
}

} // verus!
