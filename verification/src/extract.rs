//! Extraction of a still-live error instance from the chain by type.

use vstd::prelude::*;

use crate::data::{ErrorData, Id};
use crate::downcast::Downcasted;

verus! {

/// Marker trait for extractable errors: values that carry a type identity
/// the extraction protocol can compare.
pub trait Extractable {

}

impl Extractable for ErrorData {

}

/// Provides access to the recorded error chain by type.
///
/// An extraction miss is a normal negative result, never an error: it occurs
/// when no record matches by type, or when every owner of the matching
/// values is already gone.
pub trait Extract {
    /// The well-formedness the extraction scan relies on.
    spec fn extract_wf(&self) -> bool;

    /// Whether some record's resolvable origin is of the type named by
    /// `type_id`.
    spec fn has_spec(&self, type_id: Id) -> bool;

    /// The first record's resolvable origin of the type named by `type_id`,
    /// in insertion order (innermost cause first), if any.
    spec fn get_spec(&self, type_id: Id) -> Option<ErrorData>;

    /// Iterates the error chain and extracts the first live error of the
    /// type named by `type_id`.
    fn get(&self, type_id: Id) -> (r: Option<Downcasted>)
        requires
            self.extract_wf(),
        ensures
            match self.get_spec(type_id) {
                Some(d) => r matches Some(x) && x.origin == d,
                None => r is None,
            },
    ;

    /// Iterates the error chain and returns whether a live error of the
    /// type named by `type_id` exists.
    fn has(&self, type_id: Id) -> (r: bool)
        requires
            self.extract_wf(),
        ensures
            r == self.has_spec(type_id),
    ;
}

} // verus!
