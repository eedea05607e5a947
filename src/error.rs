use vstd::prelude::*;

verus! {

/// Why an operation on the catalog was abandoned.
#[derive(Debug, Clone, Copy, PartialEq, Eq, Structural)]
pub enum StoreError {
    /// No row has the requested primary key.
    NotFound,
    /// A uniqueness or reference rule of the schema would be broken.
    ConstraintViolation,
    /// A stored value cannot be decoded (an unknown enumeration string).
    DataCorruption,
}

} // verus!
