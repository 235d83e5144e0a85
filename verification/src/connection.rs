//! The Connection entry-point shims: lifecycle, option setting, transaction
//! control, catalog introspection, and the hand-over of batch-sequence
//! producers into the caller's stream record.

use vstd::prelude::*;

use std::rc::Rc;

use vstd::utf8::valid_utf8;

use crate::columnar::BatchReader;
use crate::columnar::Utf8Batch;
use crate::error::AdbcError;
use crate::error::AdbcFFIError;
use crate::error::AdbcStatusCode;
use crate::error::ErrorRecord;
use crate::error::deliver_status;
use crate::error::deliver_value;
use crate::error::error_written;
use crate::error::failure_noted;
use crate::error::out_delivered;
use crate::error::outcome_reported;
use crate::error::set_error_message;
use crate::error::set_error_record;
use crate::interface::AdbcDataType;
use crate::interface::AdbcSchema;
use crate::ffi::AdbcObjectDepth;
use crate::ffi::OutArg;
use crate::handle::FFI_AdbcConnection;
use crate::handle::FFI_AdbcDatabase;
use crate::handle::get_inner_ref;
use crate::handle::init_inner;
use crate::handle::release_inner;
use crate::implement::AdbcConnectionImpl;
use crate::interface::ConnectionApi;
use crate::strings::all_valid_utf8;
use crate::strings::decode_str_list;
use crate::strings::get_maybe_str;

verus! {

/// ConnectionNew: allocates the Connection state and stores it in the
/// handle's slot. Fails with `InvalidState` on a null handle pointer, and on
/// a handle that is already initialized — leaving the original state
/// untouched.
pub fn connection_new<ConnectionType: Default + AdbcConnectionImpl>(
    connection: Option<&mut FFI_AdbcConnection<ConnectionType>>,
    error: &mut OutArg<ErrorRecord>,
) -> (status: AdbcStatusCode)
    ensures
        connection is None ==> status == AdbcStatusCode::InvalidState && failure_noted(
            *old(error),
            *final(error),
        ),
        connection matches Some(h) ==> {
            &&& (*h).is_initialized() ==> status == AdbcStatusCode::InvalidState && *final(h) == *h
                && failure_noted(*old(error), *final(error))
            &&& !(*h).is_initialized() ==> status == AdbcStatusCode::Success
                && (*final(h)).is_initialized() && *final(error) == *old(error)
        },
{
    match connection {
        None => {
            let e = AdbcFFIError::InvalidState("Passed a null pointer to ConnectionNew");
            set_error_record(&e, error)
        },
        Some(h) => {
            let conn = Rc::new(ConnectionType::default());
            let res = init_inner(&mut h.private_data, conn);
            deliver_status(res, error)
        },
    }
}

/// ConnectionInit: side-effecting initialization that attaches a shared
/// reference to the parent Database's state. The Database handle keeps its
/// own reference: the two references are counted independently, so releasing
/// the Database handle afterwards cannot destroy the state the Connection
/// holds.
pub fn connection_init<ConnectionType: Default + AdbcConnectionImpl>(
    connection: Option<&FFI_AdbcConnection<ConnectionType>>,
    database: Option<&FFI_AdbcDatabase<<ConnectionType as AdbcConnectionImpl>::DatabaseType>>,
    error: &mut OutArg<ErrorRecord>,
) -> (status: AdbcStatusCode)
    ensures
        connection is None ==> status == AdbcStatusCode::InvalidState && failure_noted(
            *old(error),
            *final(error),
        ),
        connection matches Some(h) ==> {
            &&& !h.is_initialized() ==> status == AdbcStatusCode::InvalidState && failure_noted(
                *old(error),
                *final(error),
            )
            &&& h.is_initialized() ==> {
                &&& database is None ==> status == AdbcStatusCode::InvalidState && failure_noted(
                    *old(error),
                    *final(error),
                )
                &&& database matches Some(dh) ==> {
                    &&& !dh.is_initialized() ==> status == AdbcStatusCode::InvalidState
                        && failure_noted(*old(error), *final(error))
                    &&& dh.is_initialized() ==> outcome_reported(
                        status,
                        *old(error),
                        *final(error),
                    )
                }
            }
        },
{
    match connection {
        None => {
            let e = AdbcFFIError::InvalidState("Passed a null pointer to ConnectionInit");
            set_error_record(&e, error)
        },
        Some(h) => match get_inner_ref(&h.private_data) {
            Err(e) => set_error_record(&e, error),
            Ok(conn) => match database {
                None => {
                    let e = AdbcFFIError::InvalidState("Passed a null pointer to ConnectionInit");
                    set_error_record(&e, error)
                },
                Some(dh) => match get_inner_ref(&dh.private_data) {
                    Err(e) => set_error_record(&e, error),
                    Ok(db) => {
                        let res = conn.init(db.clone());
                        deliver_status(res, error)
                    },
                },
            },
        },
    }
}

/// ConnectionSetOption: sets an implementation-defined option on the
/// Connection state, without a lifecycle transition. A null key or value is
/// treated as the empty string; bytes that are not valid UTF-8 fail with
/// `InvalidArguments` before the implementation is reached.
pub fn connection_set_option<ConnectionType: Default + AdbcConnectionImpl>(
    connection: Option<&FFI_AdbcConnection<ConnectionType>>,
    key: Option<Vec<u8>>,
    value: Option<Vec<u8>>,
    error: &mut OutArg<ErrorRecord>,
) -> (status: AdbcStatusCode)
    ensures
        connection is None ==> status == AdbcStatusCode::InvalidState && failure_noted(
            *old(error),
            *final(error),
        ),
        connection matches Some(h) ==> {
            &&& !h.is_initialized() ==> status == AdbcStatusCode::InvalidState && failure_noted(
                *old(error),
                *final(error),
            )
            &&& h.is_initialized() ==> {
                &&& (key matches Some(b) && !valid_utf8(b@)) ==> status
                    == AdbcStatusCode::InvalidArguments && failure_noted(*old(error), *final(error))
                &&& (value matches Some(b) && !valid_utf8(b@)) ==> status
                    == AdbcStatusCode::InvalidArguments && failure_noted(*old(error), *final(error))
                &&& (outcome_reported(status, *old(error), *final(error)) || (status
                    == AdbcStatusCode::InvalidArguments && failure_noted(
                    *old(error),
                    *final(error),
                )))
            }
        },
{
    match connection {
        None => {
            let e = AdbcFFIError::InvalidState("Passed a null pointer to ConnectionSetOption");
            set_error_record(&e, error)
        },
        Some(h) => match get_inner_ref(&h.private_data) {
            Err(e) => set_error_record(&e, error),
            Ok(conn) => {
                let key = match get_maybe_str(key) {
                    Ok(k) => k,
                    Err(e) => {
                        return set_error_record(&e, error);
                    },
                };
                let value = match get_maybe_str(value) {
                    Ok(v) => v,
                    Err(e) => {
                        return set_error_record(&e, error);
                    },
                };
                let key_str = match &key {
                    Some(k) => k.as_str(),
                    None => "",
                };
                let value_str = match &value {
                    Some(v) => v.as_str(),
                    None => "",
                };
                let res = conn.set_option(key_str, value_str);
                deliver_status(res, error)
            },
        },
    }
}

/// ConnectionRelease: destroys the state the slot owns and renulls the slot.
/// Succeeds on a null handle pointer and on a never-initialized handle, and
/// is safe to call repeatedly.
pub fn connection_release<ConnectionType: Default + AdbcConnectionImpl>(
    connection: Option<&mut FFI_AdbcConnection<ConnectionType>>,
    _error: &mut OutArg<ErrorRecord>,
) -> (status: AdbcStatusCode)
    ensures
        status == AdbcStatusCode::Success,
        connection matches Some(h) ==> !(*final(h)).is_initialized(),
{
    match connection {
        None => AdbcStatusCode::Success,
        Some(h) => {
            release_inner(&mut h.private_data);
            AdbcStatusCode::Success
        },
    }
}

/// ConnectionCommit: commits the pending transaction.
pub fn connection_commit<ConnectionType: Default + AdbcConnectionImpl>(
    connection: Option<&FFI_AdbcConnection<ConnectionType>>,
    error: &mut OutArg<ErrorRecord>,
) -> (status: AdbcStatusCode)
    ensures
        connection is None ==> status == AdbcStatusCode::InvalidState && failure_noted(
            *old(error),
            *final(error),
        ),
        connection matches Some(h) ==> {
            &&& !h.is_initialized() ==> status == AdbcStatusCode::InvalidState && failure_noted(
                *old(error),
                *final(error),
            )
            &&& h.is_initialized() ==> outcome_reported(status, *old(error), *final(error))
        },
{
    match connection {
        None => {
            let e = AdbcFFIError::InvalidState("Passed a null pointer to ConnectionCommit");
            set_error_record(&e, error)
        },
        Some(h) => match get_inner_ref(&h.private_data) {
            Err(e) => set_error_record(&e, error),
            Ok(conn) => {
                let res = conn.commit();
                deliver_status(res, error)
            },
        },
    }
}

/// ConnectionRollback: rolls back the pending transaction.
pub fn connection_rollback<ConnectionType: Default + AdbcConnectionImpl>(
    connection: Option<&FFI_AdbcConnection<ConnectionType>>,
    error: &mut OutArg<ErrorRecord>,
) -> (status: AdbcStatusCode)
    ensures
        connection is None ==> status == AdbcStatusCode::InvalidState && failure_noted(
            *old(error),
            *final(error),
        ),
        connection matches Some(h) ==> {
            &&& !h.is_initialized() ==> status == AdbcStatusCode::InvalidState && failure_noted(
                *old(error),
                *final(error),
            )
            &&& h.is_initialized() ==> outcome_reported(status, *old(error), *final(error))
        },
{
    match connection {
        None => {
            let e = AdbcFFIError::InvalidState("Passed a null pointer to ConnectionRollback");
            set_error_record(&e, error)
        },
        Some(h) => match get_inner_ref(&h.private_data) {
            Err(e) => set_error_record(&e, error),
            Ok(conn) => {
                let res = conn.rollback();
                deliver_status(res, error)
            },
        },
    }
}

/// ConnectionGetInfo: metadata about the database and driver, as a
/// batch-sequence producer handed into the caller's stream record. The info
/// codes arrive as the array the caller's pointer and length address.
pub fn connection_get_info<ConnectionType: Default + AdbcConnectionImpl>(
    connection: Option<&FFI_AdbcConnection<ConnectionType>>,
    info_codes: Vec<u32>,
    out: &mut OutArg<<ConnectionType as ConnectionApi>::Reader>,
    error: &mut OutArg<ErrorRecord>,
) -> (status: AdbcStatusCode)
    ensures
        connection is None ==> status == AdbcStatusCode::InvalidState && failure_noted(
            *old(error),
            *final(error),
        ) && *final(out) == *old(out),
        connection matches Some(h) ==> {
            &&& !h.is_initialized() ==> status == AdbcStatusCode::InvalidState && failure_noted(
                *old(error),
                *final(error),
            ) && *final(out) == *old(out)
            &&& h.is_initialized() ==> outcome_reported(status, *old(error), *final(error))
                && out_delivered(*old(out), *final(out), status, *old(error), *final(error))
        },
{
    match connection {
        None => {
            let e = AdbcFFIError::InvalidState("Passed a null pointer to ConnectionGetInfo");
            set_error_record(&e, error)
        },
        Some(h) => match get_inner_ref(&h.private_data) {
            Err(e) => set_error_record(&e, error),
            Ok(conn) => {
                let res = conn.get_info(&info_codes);
                deliver_value(res, out, error)
            },
        },
    }
}

/// ConnectionGetObjects: the catalog hierarchy up to the requested depth, as
/// a batch-sequence producer. Each of the four filter strings is either null
/// — a valid "unfiltered", distinct from an empty string — or a string; the
/// table-type filter is a null-terminated array of strings whose null array
/// pointer also means "unfiltered". Bytes that are not valid UTF-8 fail with
/// `InvalidArguments` before the implementation is reached.
pub fn connection_get_objects<ConnectionType: Default + AdbcConnectionImpl>(
    connection: Option<&FFI_AdbcConnection<ConnectionType>>,
    depth: AdbcObjectDepth,
    catalog: Option<Vec<u8>>,
    db_schema: Option<Vec<u8>>,
    table_name: Option<Vec<u8>>,
    table_type: Option<Vec<Vec<u8>>>,
    column_name: Option<Vec<u8>>,
    out: &mut OutArg<<ConnectionType as ConnectionApi>::Reader>,
    error: &mut OutArg<ErrorRecord>,
) -> (status: AdbcStatusCode)
    ensures
        connection is None ==> status == AdbcStatusCode::InvalidState && failure_noted(
            *old(error),
            *final(error),
        ) && *final(out) == *old(out),
        connection matches Some(h) ==> {
            &&& !h.is_initialized() ==> status == AdbcStatusCode::InvalidState && failure_noted(
                *old(error),
                *final(error),
            ) && *final(out) == *old(out)
            &&& h.is_initialized() ==> {
                &&& (catalog matches Some(b) && !valid_utf8(b@)) ==> status
                    == AdbcStatusCode::InvalidArguments && *final(out) == *old(out)
                &&& (db_schema matches Some(b) && !valid_utf8(b@)) ==> status
                    == AdbcStatusCode::InvalidArguments && *final(out) == *old(out)
                &&& (table_name matches Some(b) && !valid_utf8(b@)) ==> status
                    == AdbcStatusCode::InvalidArguments && *final(out) == *old(out)
                &&& (column_name matches Some(b) && !valid_utf8(b@)) ==> status
                    == AdbcStatusCode::InvalidArguments && *final(out) == *old(out)
                &&& (table_type matches Some(list) && !all_valid_utf8(list@)) ==> status
                    == AdbcStatusCode::InvalidArguments && *final(out) == *old(out)
                &&& (outcome_reported(status, *old(error), *final(error)) || (status
                    == AdbcStatusCode::InvalidArguments && failure_noted(
                    *old(error),
                    *final(error),
                )))
                &&& out_delivered(*old(out), *final(out), status, *old(error), *final(error))
            }
        },
{
    match connection {
        None => {
            let e = AdbcFFIError::InvalidState("Passed a null pointer to ConnectionGetObjects");
            set_error_record(&e, error)
        },
        Some(h) => match get_inner_ref(&h.private_data) {
            Err(e) => set_error_record(&e, error),
            Ok(conn) => {
                let catalog = match get_maybe_str(catalog) {
                    Ok(v) => v,
                    Err(e) => {
                        return set_error_record(&e, error);
                    },
                };
                let db_schema = match get_maybe_str(db_schema) {
                    Ok(v) => v,
                    Err(e) => {
                        return set_error_record(&e, error);
                    },
                };
                let table_name = match get_maybe_str(table_name) {
                    Ok(v) => v,
                    Err(e) => {
                        return set_error_record(&e, error);
                    },
                };
                let column_name = match get_maybe_str(column_name) {
                    Ok(v) => v,
                    Err(e) => {
                        return set_error_record(&e, error);
                    },
                };
                let table_type_vec = match decode_str_list(table_type) {
                    Ok(v) => v,
                    Err(e) => {
                        return set_error_record(&e, error);
                    },
                };
                let res = conn.get_objects(
                    depth,
                    catalog,
                    db_schema,
                    table_name,
                    &table_type_vec,
                    column_name,
                );
                deliver_value(res, out, error)
            },
        },
    }
}

/// ConnectionGetTableSchema: the schema of one table, written through the
/// caller's required, non-null output record. The table name is the one
/// required string argument of the surface: a null pointer for it fails with
/// `InvalidArguments` before the implementation is reached, unlike the
/// optional catalog and schema filters.
pub fn connection_get_table_schema<ConnectionType: Default + AdbcConnectionImpl>(
    connection: Option<&FFI_AdbcConnection<ConnectionType>>,
    catalog: Option<Vec<u8>>,
    db_schema: Option<Vec<u8>>,
    table_name: Option<Vec<u8>>,
    out_schema: &mut OutArg<AdbcSchema>,
    error: &mut OutArg<ErrorRecord>,
) -> (status: AdbcStatusCode)
    ensures
        connection is None ==> status == AdbcStatusCode::InvalidState && failure_noted(
            *old(error),
            *final(error),
        ) && *final(out_schema) == *old(out_schema),
        connection matches Some(h) ==> {
            &&& !h.is_initialized() ==> status == AdbcStatusCode::InvalidState && failure_noted(
                *old(error),
                *final(error),
            ) && *final(out_schema) == *old(out_schema)
            &&& h.is_initialized() ==> {
                &&& *old(out_schema) is Null ==> status == AdbcStatusCode::InvalidArguments
                    && *final(out_schema) is Null && failure_noted(*old(error), *final(error))
                &&& !(*old(out_schema) is Null) ==> {
                    &&& (catalog matches Some(b) && !valid_utf8(b@)) ==> status
                        == AdbcStatusCode::InvalidArguments && *final(out_schema) == *old(out_schema)
                    &&& (db_schema matches Some(b) && !valid_utf8(b@)) ==> status
                        == AdbcStatusCode::InvalidArguments && *final(out_schema) == *old(out_schema)
                    &&& (table_name matches Some(b) && !valid_utf8(b@)) ==> status
                        == AdbcStatusCode::InvalidArguments && *final(out_schema) == *old(out_schema)
                    &&& table_name is None ==> status == AdbcStatusCode::InvalidArguments
                        && *final(out_schema) == *old(out_schema) && failure_noted(
                        *old(error),
                        *final(error),
                    )
                    &&& (outcome_reported(status, *old(error), *final(error)) || (status
                        == AdbcStatusCode::InvalidArguments && failure_noted(
                        *old(error),
                        *final(error),
                    )))
                    &&& out_delivered(
                        *old(out_schema),
                        *final(out_schema),
                        status,
                        *old(error),
                        *final(error),
                    )
                }
            }
        },
{
    match connection {
        None => {
            let e = AdbcFFIError::InvalidState("Passed a null pointer to ConnectionGetTableSchema");
            set_error_record(&e, error)
        },
        Some(h) => match get_inner_ref(&h.private_data) {
            Err(e) => set_error_record(&e, error),
            Ok(conn) => {
                let null_out = out_schema.is_null();
                if null_out {
                    set_error_message(error, "Passed nullptr to schema in GetTableSchema.");
                    return AdbcStatusCode::InvalidArguments;
                }
                let catalog = match get_maybe_str(catalog) {
                    Ok(v) => v,
                    Err(e) => {
                        return set_error_record(&e, error);
                    },
                };
                let db_schema = match get_maybe_str(db_schema) {
                    Ok(v) => v,
                    Err(e) => {
                        return set_error_record(&e, error);
                    },
                };
                let table_name = match get_maybe_str(table_name) {
                    Ok(v) => v,
                    Err(e) => {
                        return set_error_record(&e, error);
                    },
                };
                let table_name = match table_name {
                    Some(t) => t,
                    None => {
                        set_error_message(error, "Passed nullptr to table_name in GetTableSchema.");
                        return AdbcStatusCode::InvalidArguments;
                    },
                };
                let res = conn.get_table_schema(catalog, db_schema, table_name);
                deliver_value(res, out_schema, error)
            },
        },
    }
}

/// Marshals the table-type list an implementation produced into a
/// batch-sequence producer over one single-column batch — the column named
/// `table_type`, non-nullable Utf8, one row per table type — and hands it
/// into the caller's stream record.
pub fn deliver_table_types<E: AdbcError>(
    res: Result<Vec<String>, E>,
    out: &mut OutArg<BatchReader>,
    error: &mut OutArg<ErrorRecord>,
) -> (status: AdbcStatusCode)
    ensures
        res matches Ok(types) ==> {
            &&& status == AdbcStatusCode::Success
            &&& *final(error) == *old(error)
            &&& (*old(out) is Null ==> *final(out) is Null)
            &&& (!(*old(out) is Null) ==> (*final(out) matches OutArg::Written(r)
                && r.pending_batch() matches Some(b) && b.values == types && b.field_name@
                == "table_type"@ && r.reader_schema().fields@.len() == 1
                && r.reader_schema().fields@[0].name@ == "table_type"@
                && r.reader_schema().fields@[0].data_type == AdbcDataType::Utf8
                && !r.reader_schema().fields@[0].nullable))
        },
        res matches Err(e) ==> {
            &&& status == e.status_code_spec()
            &&& error_written(e, *old(error), *final(error))
            &&& *final(out) == *old(out)
        },
{
    match res {
        Err(e) => set_error_record(&e, error),
        Ok(types) => {
            let null = out.is_null();
            if !null {
                let batch = Utf8Batch { field_name: "table_type".to_owned(), values: types };
                let reader = BatchReader::new(batch);
                *out = OutArg::Written(reader);
            }
            AdbcStatusCode::Success
        },
    }
}

/// What GetTableTypes hands into a non-null stream record on success: a
/// producer whose one pending batch is a single non-nullable Utf8 column
/// named `table_type`.
pub open spec fn table_types_payload(out: OutArg<BatchReader>) -> bool {
    out matches OutArg::Written(r) && r.pending_batch() matches Some(b) && b.field_name@
        == "table_type"@ && r.reader_schema().fields@.len() == 1
        && r.reader_schema().fields@[0].data_type == AdbcDataType::Utf8
}

/// ConnectionGetTableTypes: the table types the database distinguishes, as a
/// single-batch producer over one non-nullable Utf8 column named
/// `table_type`, handed into the caller's stream record.
pub fn connection_get_table_types<ConnectionType: Default + AdbcConnectionImpl>(
    connection: Option<&FFI_AdbcConnection<ConnectionType>>,
    out: &mut OutArg<BatchReader>,
    error: &mut OutArg<ErrorRecord>,
) -> (status: AdbcStatusCode)
    ensures
        connection is None ==> status == AdbcStatusCode::InvalidState && failure_noted(
            *old(error),
            *final(error),
        ) && *final(out) == *old(out),
        connection matches Some(h) ==> {
            &&& !h.is_initialized() ==> status == AdbcStatusCode::InvalidState && failure_noted(
                *old(error),
                *final(error),
            ) && *final(out) == *old(out)
            &&& h.is_initialized() ==> {
                &&& outcome_reported(status, *old(error), *final(error))
                &&& out_delivered(*old(out), *final(out), status, *old(error), *final(error))
                &&& (*final(out) != *old(out) ==> table_types_payload(*final(out)))
            }
        },
{
    match connection {
        None => {
            let e = AdbcFFIError::InvalidState("Passed a null pointer to ConnectionGetTableTypes");
            set_error_record(&e, error)
        },
        Some(h) => match get_inner_ref(&h.private_data) {
            Err(e) => set_error_record(&e, error),
            Ok(conn) => {
                let res = conn.get_table_types();
                deliver_table_types(res, out, error)
            },
        },
    }
}

/// ConnectionReadPartition: reads the partition of a distributed result set
/// that the given opaque identifier names, as a batch-sequence producer
/// handed into the caller's stream record. The identifier arrives as the
/// bytes the caller's pointer and length address; the adapter never
/// interprets them.
pub fn connection_read_partition<ConnectionType: Default + AdbcConnectionImpl>(
    connection: Option<&FFI_AdbcConnection<ConnectionType>>,
    serialized_partition: Vec<u8>,
    out: &mut OutArg<<ConnectionType as ConnectionApi>::Reader>,
    error: &mut OutArg<ErrorRecord>,
) -> (status: AdbcStatusCode)
    ensures
        connection is None ==> status == AdbcStatusCode::InvalidState && failure_noted(
            *old(error),
            *final(error),
        ) && *final(out) == *old(out),
        connection matches Some(h) ==> {
            &&& !h.is_initialized() ==> status == AdbcStatusCode::InvalidState && failure_noted(
                *old(error),
                *final(error),
            ) && *final(out) == *old(out)
            &&& h.is_initialized() ==> outcome_reported(status, *old(error), *final(error))
                && out_delivered(*old(out), *final(out), status, *old(error), *final(error))
        },
{
    match connection {
        None => {
            let e = AdbcFFIError::InvalidState("Passed a null pointer to ConnectionReadPartition");
            set_error_record(&e, error)
        },
        Some(h) => match get_inner_ref(&h.private_data) {
            Err(e) => set_error_record(&e, error),
            Ok(conn) => {
                let res = conn.read_partition(&serialized_partition);
                deliver_value(res, out, error)
            },
        },
    }
}

} // verus!
