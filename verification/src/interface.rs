//! The capability interfaces: the three polymorphic behaviour contracts
//! (Database, Connection, Statement) a concrete implementation satisfies. The
//! adapter is written once against these traits and instantiated per concrete
//! implementation; what an operation computes is implementation-defined, so
//! the methods carry no contracts of their own.

use vstd::prelude::*;

use arrow_data::ArrayData;

use crate::error::AdbcError;
use crate::ffi::AdbcObjectDepth;

verus! {

/// The column types the adapter's schema description can carry. The adapter
/// never interprets them; they travel between the implementation and the
/// caller-facing schema export.
#[derive(Clone, Copy, Debug, PartialEq, Eq, Structural)]
pub enum AdbcDataType {
    Boolean,
    Int8,
    Int16,
    Int32,
    Int64,
    Utf8,
    Binary,
}

/// One column of a schema description: name, type, nullability.
#[derive(Clone, Debug, PartialEq, Eq)]
pub struct AdbcField {
    pub name: String,
    pub data_type: AdbcDataType,
    pub nullable: bool,
}

/// A schema description as the capability interfaces produce it: an ordered
/// list of fields. The caller-facing export into the C schema record happens
/// outside the adapter's logic.
#[derive(Clone, Debug, PartialEq, Eq)]
pub struct AdbcSchema {
    pub fields: Vec<AdbcField>,
}

/// What a statement execution produces: a row count and, if the operation has
/// a result set at all, a batch-sequence producer. DDL/DML legitimately
/// produces none.
pub struct StatementResult<R> {
    pub rows_affected: i64,
    pub result: Option<R>,
}

/// What a partitioned statement execution produces: the result schema, one
/// opaque serialized identifier per partition, and a row count.
pub struct PartitionedResult {
    pub schema: AdbcSchema,
    pub partition_ids: Vec<Vec<u8>>,
    pub rows_affected: i64,
}

/// The Database capability. Shared ownership with atomic reference counting:
/// several Connections, possibly on different threads, may reference one
/// Database value, so mutation behind `&self` is the implementation's own
/// synchronization concern.
pub trait DatabaseApi {
    /// The implementation's typed error.
    type Error: AdbcError;

    /// Side-effecting initialization of an already-allocated Database.
    fn init(&self) -> (r: Result<(), Self::Error>);

    /// Sets an implementation-defined option.
    fn set_option(&self, key: &str, value: &str) -> (r: Result<(), Self::Error>);
}

/// The Connection capability. Single-thread-oriented shared ownership: every
/// Statement created from the Connection references it.
pub trait ConnectionApi {
    /// The implementation's typed error.
    type Error: AdbcError;

    /// The implementation's batch-sequence producer for query-shaped results.
    type Reader;

    /// Sets an implementation-defined option.
    fn set_option(&self, key: &str, value: &str) -> (r: Result<(), Self::Error>);

    /// Metadata about the database and driver, filtered by the given info
    /// codes (all when empty).
    fn get_info(&self, info_codes: &Vec<u32>) -> (r: Result<Self::Reader, Self::Error>);

    /// The catalog/schema/table/column hierarchy up to `depth`. A `None`
    /// filter means unfiltered; an empty string is a filter that matches
    /// nothing with that name. An empty `table_type` list means unfiltered.
    fn get_objects(
        &self,
        depth: AdbcObjectDepth,
        catalog: Option<String>,
        db_schema: Option<String>,
        table_name: Option<String>,
        table_type: &Vec<String>,
        column_name: Option<String>,
    ) -> (r: Result<Self::Reader, Self::Error>);

    /// The schema of one table; the table name is required, the catalog and
    /// schema filters are optional.
    fn get_table_schema(
        &self,
        catalog: Option<String>,
        db_schema: Option<String>,
        table_name: String,
    ) -> (r: Result<AdbcSchema, Self::Error>);

    /// The table types the database distinguishes.
    fn get_table_types(&self) -> (r: Result<Vec<String>, Self::Error>);

    /// Reads the partition of a distributed result set that the given opaque
    /// identifier names.
    fn read_partition(&self, partition: &Vec<u8>) -> (r: Result<Self::Reader, Self::Error>);

    /// Commits the pending transaction.
    fn commit(&self) -> (r: Result<(), Self::Error>);

    /// Rolls back the pending transaction.
    fn rollback(&self) -> (r: Result<(), Self::Error>);
}

/// The Statement capability. Exclusively owned by its handle.
pub trait StatementApi {
    /// The implementation's typed error.
    type Error: AdbcError;

    /// The implementation's batch-sequence producer for query results.
    type Reader;

    /// The stream of parameter batches `bind_stream` accepts. At the C
    /// boundary this is the columnar library's reader over the caller's
    /// stream record.
    type ParamStream;

    /// Sets an implementation-defined option.
    fn set_option(&mut self, key: &str, value: &str) -> (r: Result<(), Self::Error>);

    /// Sets the SQL query to execute.
    fn set_sql_query(&mut self, query: &str) -> (r: Result<(), Self::Error>);

    /// Sets a serialized Substrait plan to execute.
    fn set_substrait_plan(&mut self, plan: &Vec<u8>) -> (r: Result<(), Self::Error>);

    /// Prepares the statement for execution.
    fn prepare(&mut self) -> (r: Result<(), Self::Error>);

    /// Binds one imported columnar array as the statement's parameters.
    fn bind_data(&mut self, data: ArrayData) -> (r: Result<(), Self::Error>);

    /// Binds a stream of parameter batches.
    fn bind_stream(&mut self, stream: Self::ParamStream) -> (r: Result<(), Self::Error>);

    /// Executes the statement.
    fn execute(&mut self) -> (r: Result<StatementResult<Self::Reader>, Self::Error>);

    /// Executes the statement, producing opaque partition identifiers instead
    /// of a result stream.
    fn execute_partitioned(&mut self) -> (r: Result<PartitionedResult, Self::Error>);

    /// The schema the statement's parameters must have.
    fn get_param_schema(&self) -> (r: Result<AdbcSchema, Self::Error>);
}

} // verus!
