//! Logical type descriptors and their mapping onto physical storage kinds.
//!
//! A physical type names a concrete in-memory representation directly.  A
//! logical type adds domain meaning on top of a physical counterpart; its
//! values are stored in an array of that counterpart.

use vstd::prelude::*;

verus! {

/// A column type descriptor.  `Int64`, `Binary`, `Utf8` and `Python` are
/// physical: they name a storage kind directly.  `Date` is logical: a day
/// count stored in the `Int64` physical representation.
#[derive(Debug, Clone, Copy, PartialEq, Eq, Structural)]
pub enum DataType {
    /// 64-bit signed integers in a primitive buffer.
    Int64,
    /// Variable-length byte strings.
    Binary,
    /// Variable-length UTF-8 strings.
    Utf8,
    /// Variable-length lists of optional integers.
    List,
    /// Opaque foreign objects, reference-counted by a host runtime.
    Python,
    /// Days since the epoch; logical, stored as `Int64`.
    Date,
}

impl DataType {
    /// The physical counterpart of this type: the identity for physical
    /// types, the storage type for logical ones.
    pub open spec fn spec_to_physical(self) -> DataType {
        match self {
            DataType::Date => DataType::Int64,
            _ => self,
        }
    }

    /// Whether this descriptor names a storage kind directly.
    pub open spec fn spec_is_physical(self) -> bool {
        !(self is Date)
    }

    /// The physical counterpart of this type.
    pub fn to_physical(&self) -> (r: DataType)
        ensures
            r == self.spec_to_physical(),
    {
        match self {
            DataType::Date => DataType::Int64,
            _ => self.clone(),
        }
    }

    /// Whether this descriptor names a storage kind directly.
    pub fn is_physical(&self) -> (r: bool)
        ensures
            r == self.spec_is_physical(),
    {
        !matches!(self, DataType::Date)
    }

    /// Whether this descriptor carries meaning over a distinct physical
    /// counterpart.
    pub fn is_logical(&self) -> (r: bool)
        ensures
            r == !self.spec_is_physical(),
    {
        matches!(self, DataType::Date)
    }
}

} // verus!
