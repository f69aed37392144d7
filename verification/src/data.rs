//! Identity data for error types: the identifier hash and per-variant metadata.

use vstd::prelude::*;
use vstd::string::StringSliceAdditionalSpecFns;

use crate::hash::{fnv1a64, fnv1a_hash_64};

verus! {

/// Represents an identifier hash.
///
/// Two identifiers are equal only if they were derived from byte-identical
/// seed strings. The null identifier (zero) marks an unset identity.
#[derive(Clone, Copy, Debug, Hash, PartialEq, Eq, Structural)]
pub struct Id(pub u64);

impl Id {
    /// The null identifier.
    pub fn new() -> (r: Self)
        ensures
            r.0 == 0,
    {
        Id(0)
    }

    /// Returns `true` if this is the null identifier.
    pub fn is_null(&self) -> (r: bool)
        ensures
            r == (self.0 == 0),
    {
        self.0 == 0
    }

    /// Derives a stable identifier from a seed string, such as a target
    /// (subsystem) name or a fully qualified type path.
    pub fn from_target(target: &str) -> (r: Self)
        ensures
            r.0 == fnv1a64(target.spec_bytes()),
    {
        Id(fnv1a_hash_64(target.as_bytes()))
    }

    /// The raw 64-bit value of the identifier.
    pub fn value(&self) -> (r: u64)
        ensures
            r == self.0,
    {
        self.0
    }
}

impl Default for Id {
    fn default() -> (r: Self)
        ensures
            r.0 == 0,
    {
        Id(0)
    }
}

impl From<u64> for Id {
    fn from(value: u64) -> (r: Self)
        ensures
            r.0 == value,
    {
        Id(value)
    }
}

impl vstd::std_specs::convert::FromSpecImpl<u64> for Id {
    open spec fn obeys_from_spec() -> bool {
        true
    }

    open spec fn from_spec(value: u64) -> Self {
        Id(value)
    }
}

/// The static identity of one error variant.
///
/// The code that declares an error type computes these once per variant;
/// every record created for the variant carries a copy.
#[derive(Debug)]
pub struct Meta {
    /// The fully qualified path of the error variant,
    /// `<crate-name>::<module-name>::<variant-or-struct-name>`.
    pub name: String,
    /// The name of the part of the system where the error occurred.
    pub target: String,
    /// The identifier hash of the error variant.
    pub id: Id,
    /// The identifier hash of the target.
    pub target_id: Id,
    /// The identifier hash of the error type that declares the variant.
    /// All variants of one type share it; extraction by type compares it.
    pub type_id: Id,
    /// Whether the wrapper forwards its textual rendering to its inner cause.
    pub is_transparent: bool,
}

/// One concrete error value as the tracer sees it: its variant identity
/// and its rendered display text.
#[derive(Debug)]
pub struct ErrorData {
    /// The identity of the variant this value belongs to.
    pub meta: Meta,
    /// The display text of this value. A transparent wrapper carries the
    /// text of its cause.
    pub message: String,
}

impl Clone for Meta {
    fn clone(&self) -> (r: Self)
        ensures
            r == *self,
    {
        Meta {
            name: self.name.clone(),
            target: self.target.clone(),
            id: self.id,
            target_id: self.target_id,
            type_id: self.type_id,
            is_transparent: self.is_transparent,
        }
    }
}

impl Clone for ErrorData {
    fn clone(&self) -> (r: Self)
        ensures
            r == *self,
    {
        ErrorData { meta: self.meta.clone(), message: self.message.clone() }
    }
}

impl ErrorData {
    pub fn new(meta: Meta, message: String) -> (r: Self)
        ensures
            r.meta == meta,
            r.message == message,
    {
        ErrorData { meta, message }
    }
}

/// Defines the metadata for an error type.
pub trait Metadata {
    /// The identity of this value's variant.
    spec fn metadata(&self) -> Meta;

    /// The display text of this value.
    spec fn message_spec(&self) -> Seq<char>;

    /// Returns the fully qualified path of the error variant.
    fn name(&self) -> (r: &str)
        ensures
            r@ == self.metadata().name@,
    ;

    /// Returns the identifier hash of the error variant.
    fn id(&self) -> (r: Id)
        ensures
            r == self.metadata().id,
    ;

    /// Returns the name of the part of the system where the error occurred.
    fn target(&self) -> (r: &str)
        ensures
            r@ == self.metadata().target@,
    ;

    /// Returns the identifier of the part of the system where the error occurred.
    fn target_id(&self) -> (r: Id)
        ensures
            r == self.metadata().target_id,
    ;

    /// Returns the display text of this value.
    fn display(&self) -> (r: String)
        ensures
            r@ == self.message_spec(),
    ;

    /// Returns `true` if this value forwards its rendering to its cause.
    fn is_transparent(&self) -> (r: bool)
        ensures
            r == self.metadata().is_transparent,
    ;
}

impl Metadata for ErrorData {
    open spec fn metadata(&self) -> Meta {
        self.meta
    }

    open spec fn message_spec(&self) -> Seq<char> {
        self.message@
    }

    fn name(&self) -> (r: &str) {
        self.meta.name.as_str()
    }

    fn id(&self) -> (r: Id) {
        self.meta.id
    }

    fn target(&self) -> (r: &str) {
        self.meta.target.as_str()
    }

    fn target_id(&self) -> (r: Id) {
        self.meta.target_id
    }

    fn display(&self) -> (r: String) {
        self.message.clone()
    }

    fn is_transparent(&self) -> (r: bool) {
        self.meta.is_transparent
    }
}

} // verus!
