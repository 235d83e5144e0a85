//! The Statement entry-point shims: lifecycle, query definition, parameter
//! binding, execution, and the marshalling of execution results into the
//! caller's out-parameters.

use vstd::prelude::*;

use arrow_data::ArrayData;

use vstd::utf8::valid_utf8;

use crate::error::AdbcError;
use crate::error::AdbcFFIError;
use crate::error::AdbcStatusCode;
use crate::error::ErrorRecord;
use crate::error::deliver_status;
use crate::error::deliver_value;
use crate::error::error_written;
use crate::error::failure_noted;
use crate::error::out_delivered;
use crate::error::outcome_reported;
use crate::error::set_error_message;
use crate::error::set_error_record;
use crate::ffi::FFI_AdbcPartitions;
use crate::ffi::OutArg;
use crate::handle::FFI_AdbcConnection;
use crate::handle::FFI_AdbcStatement;
use crate::handle::get_inner_ref;
use crate::handle::init_inner;
use crate::handle::release_inner;
use crate::implement::AdbcStatementImpl;
use crate::interface::AdbcSchema;
use crate::interface::PartitionedResult;
use crate::interface::StatementApi;
use crate::interface::StatementResult;
use crate::strings::get_maybe_str;

verus! {

/// StatementNew: allocates a Statement from the given Connection — the
/// Statement takes a shared reference to it — and stores it in the statement
/// handle's slot. Fails with `InvalidState` on a null or uninitialized
/// Connection handle, on a null statement handle pointer, and on a statement
/// handle that is already initialized — leaving the original state untouched.
pub fn statement_new<StatementType: AdbcStatementImpl>(
    connection: Option<&FFI_AdbcConnection<<StatementType as AdbcStatementImpl>::ConnectionType>>,
    statement_out: Option<&mut FFI_AdbcStatement<StatementType>>,
    error: &mut OutArg<ErrorRecord>,
) -> (status: AdbcStatusCode)
    ensures
        connection is None ==> status == AdbcStatusCode::InvalidState && failure_noted(
            *old(error),
            *final(error),
        ) && (statement_out matches Some(sh) ==> *final(sh) == *sh),
        connection matches Some(ch) ==> {
            &&& !ch.is_initialized() ==> status == AdbcStatusCode::InvalidState && failure_noted(
                *old(error),
                *final(error),
            ) && (statement_out matches Some(sh) ==> *final(sh) == *sh)
            &&& ch.is_initialized() ==> {
                &&& statement_out is None ==> status == AdbcStatusCode::InvalidState
                    && failure_noted(*old(error), *final(error))
                &&& statement_out matches Some(h) ==> {
                    &&& (*h).is_initialized() ==> status == AdbcStatusCode::InvalidState
                        && *final(h) == *h && failure_noted(*old(error), *final(error))
                    &&& !(*h).is_initialized() ==> status == AdbcStatusCode::Success
                        && (*final(h)).is_initialized() && *final(error) == *old(error)
                }
            }
        },
{
    match connection {
        None => {
            let e = AdbcFFIError::InvalidState("Passed a null pointer to StatementNew");
            set_error_record(&e, error)
        },
        Some(ch) => match get_inner_ref(&ch.private_data) {
            Err(e) => set_error_record(&e, error),
            Ok(conn) => {
                let statement = StatementType::new_from_connection(conn.clone());
                match statement_out {
                    None => {
                        let e = AdbcFFIError::InvalidState(
                            "Passed a null pointer to StatementNew",
                        );
                        set_error_record(&e, error)
                    },
                    Some(h) => {
                        let res = init_inner(&mut h.private_data, statement);
                        deliver_status(res, error)
                    },
                }
            },
        },
    }
}

/// StatementRelease: destroys the state the slot owns and renulls the slot.
/// Succeeds on a null handle pointer and on a never-initialized handle, and
/// is safe to call repeatedly.
pub fn statement_release<StatementType: AdbcStatementImpl>(
    statement: Option<&mut FFI_AdbcStatement<StatementType>>,
    _error: &mut OutArg<ErrorRecord>,
) -> (status: AdbcStatusCode)
    ensures
        status == AdbcStatusCode::Success,
        statement matches Some(h) ==> !(*final(h)).is_initialized(),
{
    match statement {
        None => AdbcStatusCode::Success,
        Some(h) => {
            release_inner(&mut h.private_data);
            AdbcStatusCode::Success
        },
    }
}

/// StatementPrepare: prepares the statement for execution.
pub fn statement_prepare<StatementType: AdbcStatementImpl>(
    statement: Option<&mut FFI_AdbcStatement<StatementType>>,
    error: &mut OutArg<ErrorRecord>,
) -> (status: AdbcStatusCode)
    ensures
        statement is None ==> status == AdbcStatusCode::InvalidState && failure_noted(
            *old(error),
            *final(error),
        ),
        statement matches Some(h) ==> {
            &&& !(*h).is_initialized() ==> status == AdbcStatusCode::InvalidState && *final(h) == *h
                && failure_noted(*old(error), *final(error))
            &&& (*h).is_initialized() ==> (*final(h)).is_initialized() && outcome_reported(
                status,
                *old(error),
                *final(error),
            )
        },
{
    match statement {
        None => {
            let e = AdbcFFIError::InvalidState("Passed a null pointer to StatementPrepare");
            set_error_record(&e, error)
        },
        Some(h) => match &mut h.private_data {
            None => {
                let e = AdbcFFIError::InvalidState("Uninitialized.");
                set_error_record(&e, error)
            },
            Some(stmt) => {
                let res = stmt.prepare();
                deliver_status(res, error)
            },
        },
    }
}

/// StatementSetSqlQuery: sets the SQL text the statement will execute. A null
/// query pointer is treated as the empty string; bytes that are not valid
/// UTF-8 fail with `InvalidArguments` before the implementation is reached.
pub fn statement_set_sql_query<StatementType: AdbcStatementImpl>(
    statement: Option<&mut FFI_AdbcStatement<StatementType>>,
    query: Option<Vec<u8>>,
    error: &mut OutArg<ErrorRecord>,
) -> (status: AdbcStatusCode)
    ensures
        statement is None ==> status == AdbcStatusCode::InvalidState && failure_noted(
            *old(error),
            *final(error),
        ),
        statement matches Some(h) ==> {
            &&& !(*h).is_initialized() ==> status == AdbcStatusCode::InvalidState && *final(h) == *h
                && failure_noted(*old(error), *final(error))
            &&& (*h).is_initialized() ==> {
                &&& (*final(h)).is_initialized()
                &&& (query matches Some(b) && !valid_utf8(b@)) ==> status
                    == AdbcStatusCode::InvalidArguments && failure_noted(*old(error), *final(error))
                &&& (outcome_reported(status, *old(error), *final(error)) || (status
                    == AdbcStatusCode::InvalidArguments && failure_noted(
                    *old(error),
                    *final(error),
                )))
            }
        },
{
    match statement {
        None => {
            let e = AdbcFFIError::InvalidState("Passed a null pointer to StatementSetSqlQuery");
            set_error_record(&e, error)
        },
        Some(h) => match &mut h.private_data {
            None => {
                let e = AdbcFFIError::InvalidState("Uninitialized.");
                set_error_record(&e, error)
            },
            Some(stmt) => {
                let query = match get_maybe_str(query) {
                    Ok(q) => q,
                    Err(e) => {
                        return set_error_record(&e, error);
                    },
                };
                let query_str = match &query {
                    Some(q) => q.as_str(),
                    None => "",
                };
                let res = stmt.set_sql_query(query_str);
                deliver_status(res, error)
            },
        },
    }
}

/// StatementSetSubstraitPlan: sets a serialized plan to execute. The plan
/// arrives as the bytes the caller's pointer and length address; the adapter
/// never interprets them.
pub fn statement_set_substrait_plan<StatementType: AdbcStatementImpl>(
    statement: Option<&mut FFI_AdbcStatement<StatementType>>,
    plan: Vec<u8>,
    error: &mut OutArg<ErrorRecord>,
) -> (status: AdbcStatusCode)
    ensures
        statement is None ==> status == AdbcStatusCode::InvalidState && failure_noted(
            *old(error),
            *final(error),
        ),
        statement matches Some(h) ==> {
            &&& !(*h).is_initialized() ==> status == AdbcStatusCode::InvalidState && *final(h) == *h
                && failure_noted(*old(error), *final(error))
            &&& (*h).is_initialized() ==> (*final(h)).is_initialized() && outcome_reported(
                status,
                *old(error),
                *final(error),
            )
        },
{
    match statement {
        None => {
            let e = AdbcFFIError::InvalidState("Passed a null pointer to StatementSetSubstraitPlan");
            set_error_record(&e, error)
        },
        Some(h) => match &mut h.private_data {
            None => {
                let e = AdbcFFIError::InvalidState("Uninitialized.");
                set_error_record(&e, error)
            },
            Some(stmt) => {
                let res = stmt.set_substrait_plan(&plan);
                deliver_status(res, error)
            },
        },
    }
}

/// StatementSetOption: sets an implementation-defined option on the Statement
/// state. A null key or value is treated as the empty string; bytes that are
/// not valid UTF-8 fail with `InvalidArguments` before the implementation is
/// reached.
pub fn statement_set_option<StatementType: AdbcStatementImpl>(
    statement: Option<&mut FFI_AdbcStatement<StatementType>>,
    key: Option<Vec<u8>>,
    value: Option<Vec<u8>>,
    error: &mut OutArg<ErrorRecord>,
) -> (status: AdbcStatusCode)
    ensures
        statement is None ==> status == AdbcStatusCode::InvalidState && failure_noted(
            *old(error),
            *final(error),
        ),
        statement matches Some(h) ==> {
            &&& !(*h).is_initialized() ==> status == AdbcStatusCode::InvalidState && *final(h) == *h
                && failure_noted(*old(error), *final(error))
            &&& (*h).is_initialized() ==> {
                &&& (*final(h)).is_initialized()
                &&& (key matches Some(b) && !valid_utf8(b@)) ==> status
                    == AdbcStatusCode::InvalidArguments && failure_noted(*old(error), *final(error))
                &&& (value matches Some(b) && !valid_utf8(b@)) ==> status
                    == AdbcStatusCode::InvalidArguments && failure_noted(*old(error), *final(error))
                &&& (outcome_reported(status, *old(error), *final(error)) || (status
                    == AdbcStatusCode::InvalidArguments && failure_noted(
                    *old(error),
                    *final(error),
                )))
            }
        },
{
    match statement {
        None => {
            let e = AdbcFFIError::InvalidState("Passed a null pointer to StatementSetOption");
            set_error_record(&e, error)
        },
        Some(h) => match &mut h.private_data {
            None => {
                let e = AdbcFFIError::InvalidState("Uninitialized.");
                set_error_record(&e, error)
            },
            Some(stmt) => {
                let key = match get_maybe_str(key) {
                    Ok(k) => k,
                    Err(e) => {
                        return set_error_record(&e, error);
                    },
                };
                let value = match get_maybe_str(value) {
                    Ok(v) => v,
                    Err(e) => {
                        return set_error_record(&e, error);
                    },
                };
                let key_str = match &key {
                    Some(k) => k.as_str(),
                    None => "",
                };
                let value_str = match &value {
                    Some(v) => v.as_str(),
                    None => "",
                };
                let res = stmt.set_option(key_str, value_str);
                deliver_status(res, error)
            },
        },
    }
}

/// StatementBind: hands one imported columnar array — its backing data,
/// imported from the caller's array-plus-schema record pair at the C boundary
/// — to the implementation as the statement's parameters.
pub fn statement_bind<StatementType: AdbcStatementImpl>(
    statement: Option<&mut FFI_AdbcStatement<StatementType>>,
    data: ArrayData,
    error: &mut OutArg<ErrorRecord>,
) -> (status: AdbcStatusCode)
    ensures
        statement is None ==> status == AdbcStatusCode::InvalidState && failure_noted(
            *old(error),
            *final(error),
        ),
        statement matches Some(h) ==> {
            &&& !(*h).is_initialized() ==> status == AdbcStatusCode::InvalidState && *final(h) == *h
                && failure_noted(*old(error), *final(error))
            &&& (*h).is_initialized() ==> (*final(h)).is_initialized() && outcome_reported(
                status,
                *old(error),
                *final(error),
            )
        },
{
    match statement {
        None => {
            let e = AdbcFFIError::InvalidState("Passed a null pointer to StatementBind");
            set_error_record(&e, error)
        },
        Some(h) => match &mut h.private_data {
            None => {
                let e = AdbcFFIError::InvalidState("Uninitialized.");
                set_error_record(&e, error)
            },
            Some(stmt) => {
                let res = stmt.bind_data(data);
                deliver_status(res, error)
            },
        },
    }
}

/// StatementBindStream: hands a stream of parameter batches to the
/// implementation. A null stream pointer fails with `InvalidArguments`; the
/// stream itself is the columnar library's reader over the caller's stream
/// record, created at the C boundary.
pub fn statement_bind_stream<StatementType: AdbcStatementImpl>(
    statement: Option<&mut FFI_AdbcStatement<StatementType>>,
    stream: Option<<StatementType as StatementApi>::ParamStream>,
    error: &mut OutArg<ErrorRecord>,
) -> (status: AdbcStatusCode)
    ensures
        statement is None ==> status == AdbcStatusCode::InvalidState && failure_noted(
            *old(error),
            *final(error),
        ),
        statement matches Some(h) ==> {
            &&& !(*h).is_initialized() ==> status == AdbcStatusCode::InvalidState && *final(h) == *h
                && failure_noted(*old(error), *final(error))
            &&& (*h).is_initialized() ==> {
                &&& (*final(h)).is_initialized()
                &&& stream is None ==> status == AdbcStatusCode::InvalidArguments && *final(h) == *h
                    && failure_noted(*old(error), *final(error))
                &&& stream is Some ==> outcome_reported(status, *old(error), *final(error))
            }
        },
{
    match statement {
        None => {
            let e = AdbcFFIError::InvalidState("Passed a null pointer to StatementBindStream");
            set_error_record(&e, error)
        },
        Some(h) => match &mut h.private_data {
            None => {
                let e = AdbcFFIError::InvalidState("Uninitialized.");
                set_error_record(&e, error)
            },
            Some(stmt) => match stream {
                None => {
                    set_error_message(error, "Passed nullptr to stream in BindStream.");
                    AdbcStatusCode::InvalidArguments
                },
                Some(s) => {
                    let res = stmt.bind_stream(s);
                    deliver_status(res, error)
                },
            },
        },
    }
}

/// Marshals an execution outcome into the caller's out-parameters: the row
/// count is written only if the caller asked for it, and the result stream is
/// written only if the caller asked for one and the operation produced one —
/// an operation without a result set is a success that leaves the stream
/// record untouched.
pub fn deliver_execute_result<R, E: AdbcError>(
    res: Result<StatementResult<R>, E>,
    out: &mut OutArg<R>,
    rows_affected: &mut OutArg<i64>,
    error: &mut OutArg<ErrorRecord>,
) -> (status: AdbcStatusCode)
    ensures
        res matches Ok(sr) ==> {
            &&& status == AdbcStatusCode::Success
            &&& *final(error) == *old(error)
            &&& (*old(rows_affected) is Null ==> *final(rows_affected) is Null)
            &&& (!(*old(rows_affected) is Null) ==> *final(rows_affected) == OutArg::Written(
                sr.rows_affected,
            ))
            &&& (*old(out) is Null ==> *final(out) is Null)
            &&& (!(*old(out) is Null) ==> {
                &&& (sr.result matches Some(rdr) ==> *final(out) == OutArg::Written(rdr))
                &&& (sr.result is None ==> *final(out) == *old(out))
            })
        },
        res matches Err(e) ==> {
            &&& status == e.status_code_spec()
            &&& error_written(e, *old(error), *final(error))
            &&& *final(out) == *old(out)
            &&& *final(rows_affected) == *old(rows_affected)
        },
{
    match res {
        Err(e) => set_error_record(&e, error),
        Ok(sr) => {
            let null_rows = rows_affected.is_null();
            if !null_rows {
                *rows_affected = OutArg::Written(sr.rows_affected);
            }
            let null_out = out.is_null();
            if !null_out {
                match sr.result {
                    Some(rdr) => {
                        *out = OutArg::Written(rdr);
                    },
                    None => {},
                }
            }
            AdbcStatusCode::Success
        },
    }
}

/// StatementExecuteQuery: executes the statement. Both out-parameters are
/// optional: the implementation operation runs, and succeeds or fails on its
/// own terms, whether or not the caller asked for the row count or the result
/// stream.
pub fn statement_execute_query<StatementType: AdbcStatementImpl>(
    statement: Option<&mut FFI_AdbcStatement<StatementType>>,
    out: &mut OutArg<<StatementType as StatementApi>::Reader>,
    rows_affected: &mut OutArg<i64>,
    error: &mut OutArg<ErrorRecord>,
) -> (status: AdbcStatusCode)
    ensures
        statement is None ==> status == AdbcStatusCode::InvalidState && failure_noted(
            *old(error),
            *final(error),
        ) && *final(out) == *old(out) && *final(rows_affected) == *old(rows_affected),
        statement matches Some(h) ==> {
            &&& !(*h).is_initialized() ==> status == AdbcStatusCode::InvalidState && *final(h) == *h
                && failure_noted(*old(error), *final(error)) && *final(out) == *old(out) && *final(rows_affected) == *old(rows_affected)
            &&& (*h).is_initialized() ==> {
                &&& (*final(h)).is_initialized()
                &&& outcome_reported(status, *old(error), *final(error))
                &&& (*old(out) is Null ==> *final(out) is Null)
                &&& (*old(rows_affected) is Null ==> *final(rows_affected) is Null)
            }
        },
{
    match statement {
        None => {
            let e = AdbcFFIError::InvalidState("Passed a null pointer to StatementExecuteQuery");
            set_error_record(&e, error)
        },
        Some(h) => match &mut h.private_data {
            None => {
                let e = AdbcFFIError::InvalidState("Uninitialized.");
                set_error_record(&e, error)
            },
            Some(stmt) => {
                let res = stmt.execute();
                deliver_execute_result(res, out, rows_affected, error)
            },
        },
    }
}

/// Marshals a partitioned execution outcome: the result schema and the
/// partitions record are required outputs and are always written on success;
/// the row count is written only if the caller asked for it.
pub fn deliver_partitioned_result<E: AdbcError>(
    res: Result<PartitionedResult, E>,
    out_schema: &mut OutArg<AdbcSchema>,
    out_partitions: &mut OutArg<FFI_AdbcPartitions>,
    rows_affected: &mut OutArg<i64>,
    error: &mut OutArg<ErrorRecord>,
) -> (status: AdbcStatusCode)
    requires
        !(*old(out_schema) is Null),
        !(*old(out_partitions) is Null),
    ensures
        res matches Ok(pr) ==> {
            &&& status == AdbcStatusCode::Success
            &&& *final(error) == *old(error)
            &&& *final(out_schema) == OutArg::Written(pr.schema)
            &&& (*final(out_partitions) matches OutArg::Written(p) && p.partition_ids
                == pr.partition_ids)
            &&& (*old(rows_affected) is Null ==> *final(rows_affected) is Null)
            &&& (!(*old(rows_affected) is Null) ==> *final(rows_affected) == OutArg::Written(
                pr.rows_affected,
            ))
        },
        res matches Err(e) ==> {
            &&& status == e.status_code_spec()
            &&& error_written(e, *old(error), *final(error))
            &&& *final(out_schema) == *old(out_schema)
            &&& *final(out_partitions) == *old(out_partitions)
            &&& *final(rows_affected) == *old(rows_affected)
        },
{
    match res {
        Err(e) => set_error_record(&e, error),
        Ok(pr) => {
            *out_schema = OutArg::Written(pr.schema);
            let null_rows = rows_affected.is_null();
            if !null_rows {
                *rows_affected = OutArg::Written(pr.rows_affected);
            }
            let partitions = FFI_AdbcPartitions::from_partition_ids(pr.partition_ids);
            *out_partitions = OutArg::Written(partitions);
            AdbcStatusCode::Success
        },
    }
}

/// StatementExecutePartitions: executes the statement, producing the result
/// schema and one opaque identifier per partition instead of a result stream.
/// The schema and partitions out-parameters are required: a null pointer for
/// either fails with `InvalidArguments` before the implementation is reached.
pub fn statement_execute_partitions<StatementType: AdbcStatementImpl>(
    statement: Option<&mut FFI_AdbcStatement<StatementType>>,
    out_schema: &mut OutArg<AdbcSchema>,
    out_partitions: &mut OutArg<FFI_AdbcPartitions>,
    rows_affected: &mut OutArg<i64>,
    error: &mut OutArg<ErrorRecord>,
) -> (status: AdbcStatusCode)
    ensures
        statement is None ==> status == AdbcStatusCode::InvalidState && failure_noted(
            *old(error),
            *final(error),
        ) && *final(out_schema) == *old(out_schema) && *final(out_partitions) == *old(out_partitions) && *final(rows_affected) == *old(rows_affected),
        statement matches Some(h) ==> {
            &&& !(*h).is_initialized() ==> status == AdbcStatusCode::InvalidState && *final(h) == *h
                && failure_noted(*old(error), *final(error)) && *final(out_schema) == *old(out_schema) && *final(out_partitions) == *old(out_partitions) && *final(rows_affected) == *old(rows_affected)
            &&& (*h).is_initialized() ==> {
                &&& (*final(h)).is_initialized()
                &&& *old(out_schema) is Null ==> status == AdbcStatusCode::InvalidArguments
                    && *final(out_schema) is Null && *final(out_partitions) == *old(out_partitions)
                    && *final(rows_affected) == *old(rows_affected) && failure_noted(
                    *old(error),
                    *final(error),
                )
                &&& (!(*old(out_schema) is Null) && *old(out_partitions) is Null) ==> status
                    == AdbcStatusCode::InvalidArguments && *final(out_schema) == *old(out_schema)
                    && *final(out_partitions) is Null && *final(rows_affected) == *old(rows_affected) && failure_noted(*old(error), *final(error))
                &&& (!(*old(out_schema) is Null) && !(*old(out_partitions) is Null)) ==> {
                    &&& outcome_reported(status, *old(error), *final(error))
                    &&& (*old(rows_affected) is Null ==> *final(rows_affected) is Null)
                    &&& out_delivered(
                        *old(out_schema),
                        *final(out_schema),
                        status,
                        *old(error),
                        *final(error),
                    )
                    &&& out_delivered(
                        *old(out_partitions),
                        *final(out_partitions),
                        status,
                        *old(error),
                        *final(error),
                    )
                }
            }
        },
{
    match statement {
        None => {
            let e = AdbcFFIError::InvalidState(
                "Passed a null pointer to StatementExecutePartitions",
            );
            set_error_record(&e, error)
        },
        Some(h) => match &mut h.private_data {
            None => {
                let e = AdbcFFIError::InvalidState("Uninitialized.");
                set_error_record(&e, error)
            },
            Some(stmt) => {
                let null_schema = out_schema.is_null();
                if null_schema {
                    set_error_message(error, "Passed nullptr to schema in ExecutePartitions.");
                    return AdbcStatusCode::InvalidArguments;
                }
                let null_partitions = out_partitions.is_null();
                if null_partitions {
                    set_error_message(error, "Passed nullptr to partitions in ExecutePartitions.");
                    return AdbcStatusCode::InvalidArguments;
                }
                let res = stmt.execute_partitioned();
                deliver_partitioned_result(res, out_schema, out_partitions, rows_affected, error)
            },
        },
    }
}

/// StatementGetParameterSchema: the schema the statement's parameters must
/// have, written through the caller's required, non-null output record.
pub fn statement_get_parameter_schema<StatementType: AdbcStatementImpl>(
    statement: Option<&FFI_AdbcStatement<StatementType>>,
    out_schema: &mut OutArg<AdbcSchema>,
    error: &mut OutArg<ErrorRecord>,
) -> (status: AdbcStatusCode)
    ensures
        statement is None ==> status == AdbcStatusCode::InvalidState && failure_noted(
            *old(error),
            *final(error),
        ) && *final(out_schema) == *old(out_schema),
        statement matches Some(h) ==> {
            &&& !h.is_initialized() ==> status == AdbcStatusCode::InvalidState && failure_noted(
                *old(error),
                *final(error),
            ) && *final(out_schema) == *old(out_schema)
            &&& h.is_initialized() ==> {
                &&& *old(out_schema) is Null ==> status == AdbcStatusCode::InvalidArguments
                    && *final(out_schema) is Null && failure_noted(*old(error), *final(error))
                &&& !(*old(out_schema) is Null) ==> outcome_reported(
                    status,
                    *old(error),
                    *final(error),
                ) && out_delivered(
                    *old(out_schema),
                    *final(out_schema),
                    status,
                    *old(error),
                    *final(error),
                )
            }
        },
{
    match statement {
        None => {
            let e = AdbcFFIError::InvalidState(
                "Passed a null pointer to StatementGetParameterSchema",
            );
            set_error_record(&e, error)
        },
        Some(h) => match get_inner_ref(&h.private_data) {
            Err(e) => set_error_record(&e, error),
            Ok(stmt) => {
                let null_out = out_schema.is_null();
                if null_out {
                    set_error_message(error, "Passed nullptr to schema in GetParameterSchema.");
                    return AdbcStatusCode::InvalidArguments;
                }
                let res = stmt.get_param_schema();
                deliver_value(res, out_schema, error)
            },
        },
    }
}

} // verus!
