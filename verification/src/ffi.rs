//! Safe models of the fixed ABI records that a C caller and the adapter
//! exchange: nullable out-parameters, the object-depth enumeration for
//! catalog traversal, and the partitions record.

use vstd::prelude::*;

verus! {

/// A caller-supplied out-parameter. The ABI hands each shim a pointer that is
/// either null (the caller declines the output) or addresses writable memory;
/// a shim writes through it at most once. `Null` models the null pointer,
/// `Untouched` a valid pointer nothing was written through, and `Written` a
/// pointer whose target the shim filled.
pub enum OutArg<T> {
    Null,
    Untouched,
    Written(T),
}

impl<T> OutArg<T> {
    /// Whether the caller declined this output by passing a null pointer.
    pub fn is_null(&self) -> (r: bool)
        ensures
            r == (self is Null),
    {
        match self {
            OutArg::Null => true,
            _ => false,
        }
    }
}

/// How deep a GetObjects catalog traversal should go.
#[derive(Clone, Copy, Debug, PartialEq, Eq, Structural)]
pub enum AdbcObjectDepth {
    /// Metadata on all levels: catalogs, schemas, tables and columns.
    All,
    /// Metadata on catalogs only.
    Catalogs,
    /// Metadata on catalogs and schemas.
    DbSchemas,
    /// Metadata on catalogs, schemas and tables.
    Tables,
    /// Metadata on catalogs, schemas, tables and columns.
    Columns,
}

/// The ABI record through which ExecutePartitions hands out the opaque
/// partition identifiers that the implementation produced. Each identifier is
/// a byte blob the adapter never interprets.
#[allow(non_camel_case_types)]
pub struct FFI_AdbcPartitions {
    /// One serialized identifier per partition of the result set.
    pub partition_ids: Vec<Vec<u8>>,
}

impl FFI_AdbcPartitions {
    /// Packs a list of opaque partition identifiers into the ABI record.
    pub fn from_partition_ids(ids: Vec<Vec<u8>>) -> (r: Self)
        ensures
            r.partition_ids == ids,
    {
        FFI_AdbcPartitions { partition_ids: ids }
    }
}

} // verus!
