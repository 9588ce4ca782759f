use vstd::prelude::*;
use crate::schema::EntityType;

verus! {

/// Failure to turn stored data into typed values.
#[derive(Debug, Clone, PartialEq, Eq)]
pub enum DecodeError {
    /// Stored text that names no variant of the enumerated scalar; carries
    /// the offending text.
    InvalidEnumValue(String),
    /// The row has a different number of columns than the table declares;
    /// carries the number found.
    ColumnCount(usize),
    /// The column at this position holds a value of the wrong storage type.
    ColumnType(usize),
    /// A required reference whose target row does not exist.
    MissingReference,
}

/// Failure of a load for one entity type.
#[derive(Debug, Clone, Copy, PartialEq, Eq, Structural)]
pub enum QueryError {
    /// The query modifier hook refused loads of this entity type.
    AccessDenied(EntityType),
}

} // verus!
