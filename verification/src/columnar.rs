//! The adapter's view of the columnar library's containers. The library's
//! batch and stream types cannot be carried through verified signatures here
//! (their impls reach into the library's own trait hierarchy), so the one
//! batch the adapter ever assembles itself — a single non-nullable Utf8
//! column — is modelled as a typed payload, and the unverified exporter turns
//! it into a real columnar batch at the C boundary. The single imported type
//! the adapter passes through untouched, an array's backing data, is declared
//! below.

use vstd::prelude::*;

use arrow_data::ArrayData;

use crate::interface::AdbcDataType;
use crate::interface::AdbcField;
use crate::interface::AdbcSchema;

verus! {

/// Declares arrow_data::ArrayData, the columnar library's backing data of
/// one imported array. The adapter carries a value of it from the import at
/// the C boundary to the implementation's `bind_data`, opaquely.
#[verifier::external_type_specification]
#[verifier::external_body]
pub struct ExArrayData(ArrayData);

/// A table-shaped chunk of one column of strings, the shape under which
/// GetTableTypes reports its result. The exporter at the C boundary turns it
/// into the columnar library's batch representation.
pub struct Utf8Batch {
    /// The name of the single column.
    pub field_name: String,
    /// The column's values, one string per row.
    pub values: Vec<String>,
}

/// A batch-sequence producer over exactly one batch: what GetTableTypes hands
/// to the stream exporter. It yields its batch once and is exhausted.
pub struct BatchReader {
    batch: Option<Utf8Batch>,
    schema: AdbcSchema,
}

impl BatchReader {
    /// The batch not yet handed out, if any.
    pub closed spec fn pending_batch(&self) -> Option<Utf8Batch> {
        self.batch
    }

    /// The schema every batch of this producer carries.
    pub closed spec fn reader_schema(&self) -> AdbcSchema {
        self.schema
    }

    /// A producer that will yield `batch` once, under the one-column schema
    /// the batch defines.
    pub fn new(batch: Utf8Batch) -> (r: Self)
        ensures
            r.pending_batch() == Some(batch),
            r.reader_schema().fields@.len() == 1,
            r.reader_schema().fields@[0].name@ == batch.field_name@,
            r.reader_schema().fields@[0].data_type == AdbcDataType::Utf8,
            !r.reader_schema().fields@[0].nullable,
    {
        let field = AdbcField {
            name: batch.field_name.clone(),
            data_type: AdbcDataType::Utf8,
            nullable: false,
        };
        let schema = AdbcSchema { fields: vec![field] };
        BatchReader { batch: Some(batch), schema }
    }

    /// Yields the batch on the first call and nothing afterwards.
    pub fn next_batch(&mut self) -> (r: Option<Utf8Batch>)
        ensures
            r == old(self).pending_batch(),
            final(self).pending_batch() is None,
            final(self).reader_schema() == old(self).reader_schema(),
    {
        self.batch.take()
    }

    /// The producer's schema, available before and after the batch is pulled.
    pub fn schema(&self) -> (r: &AdbcSchema)
        ensures
            *r == self.reader_schema(),
    {
        &self.schema
    }
}

} // verus!
