//! The Database entry-point shims. Each one recovers the typed state from the
//! opaque handle, validates what the ABI requires, invokes the capability
//! operation, and marshals the outcome into a status code and, on failure,
//! the caller's error record.

use vstd::prelude::*;

use std::sync::Arc;

use vstd::utf8::valid_utf8;

use crate::error::AdbcFFIError;
use crate::error::AdbcStatusCode;
use crate::error::ErrorRecord;
use crate::error::deliver_status;
use crate::error::failure_noted;
use crate::error::outcome_reported;
use crate::error::set_error_record;
use crate::ffi::OutArg;
use crate::handle::FFI_AdbcDatabase;
use crate::handle::get_inner_ref;
use crate::handle::init_inner;
use crate::handle::release_inner;
use crate::implement::AdbcDatabaseImpl;
use crate::interface::DatabaseApi;
use crate::strings::get_maybe_str;

verus! {

/// DatabaseNew: allocates the Database state and stores it in the handle's
/// slot. Fails with `InvalidState` on a null handle pointer, and on a handle
/// that is already initialized — leaving the original state untouched.
pub fn database_new<DatabaseType: Default + AdbcDatabaseImpl>(
    database: Option<&mut FFI_AdbcDatabase<DatabaseType>>,
    error: &mut OutArg<ErrorRecord>,
) -> (status: AdbcStatusCode)
    ensures
        database is None ==> status == AdbcStatusCode::InvalidState && failure_noted(
            *old(error),
            *final(error),
        ),
        database matches Some(h) ==> {
            &&& (*h).is_initialized() ==> status == AdbcStatusCode::InvalidState && *final(h) == *h
                && failure_noted(*old(error), *final(error))
            &&& !(*h).is_initialized() ==> status == AdbcStatusCode::Success
                && (*final(h)).is_initialized() && *final(error) == *old(error)
        },
{
    match database {
        None => {
            let e = AdbcFFIError::InvalidState("Passed a null pointer to DatabaseNew");
            set_error_record(&e, error)
        },
        Some(h) => {
            let db = Arc::new(DatabaseType::default());
            let res = init_inner(&mut h.private_data, db);
            deliver_status(res, error)
        },
    }
}

/// DatabaseInit: side-effecting initialization of the already-allocated
/// Database state. Fails with `InvalidState` on a null or never-initialized
/// handle; an implementation failure is propagated as is.
pub fn database_init<DatabaseType: Default + AdbcDatabaseImpl>(
    database: Option<&FFI_AdbcDatabase<DatabaseType>>,
    error: &mut OutArg<ErrorRecord>,
) -> (status: AdbcStatusCode)
    ensures
        database is None ==> status == AdbcStatusCode::InvalidState && failure_noted(
            *old(error),
            *final(error),
        ),
        database matches Some(h) ==> {
            &&& !h.is_initialized() ==> status == AdbcStatusCode::InvalidState && failure_noted(
                *old(error),
                *final(error),
            )
            &&& h.is_initialized() ==> outcome_reported(status, *old(error), *final(error))
        },
{
    match database {
        None => {
            let e = AdbcFFIError::InvalidState("Passed a null pointer to DatabaseInit");
            set_error_record(&e, error)
        },
        Some(h) => match get_inner_ref(&h.private_data) {
            Err(e) => set_error_record(&e, error),
            Ok(db) => {
                let res = db.init();
                deliver_status(res, error)
            },
        },
    }
}

/// DatabaseSetOption: sets an implementation-defined option on the Database
/// state, without a lifecycle transition. A null key or value is treated as
/// the empty string; bytes that are not valid UTF-8 fail with
/// `InvalidArguments` before the implementation is reached.
pub fn database_set_option<DatabaseType: Default + AdbcDatabaseImpl>(
    database: Option<&FFI_AdbcDatabase<DatabaseType>>,
    key: Option<Vec<u8>>,
    value: Option<Vec<u8>>,
    error: &mut OutArg<ErrorRecord>,
) -> (status: AdbcStatusCode)
    ensures
        database is None ==> status == AdbcStatusCode::InvalidState && failure_noted(
            *old(error),
            *final(error),
        ),
        database matches Some(h) ==> {
            &&& !h.is_initialized() ==> status == AdbcStatusCode::InvalidState && failure_noted(
                *old(error),
                *final(error),
            )
            &&& h.is_initialized() ==> {
                &&& (key matches Some(b) && !valid_utf8(b@)) ==> status
                    == AdbcStatusCode::InvalidArguments && failure_noted(*old(error), *final(error))
                &&& (value matches Some(b) && !valid_utf8(b@)) ==> status
                    == AdbcStatusCode::InvalidArguments && failure_noted(*old(error), *final(error))
                &&& (outcome_reported(status, *old(error), *final(error)) || (status
                    == AdbcStatusCode::InvalidArguments && failure_noted(
                    *old(error),
                    *final(error),
                )))
            }
        },
{
    match database {
        None => {
            let e = AdbcFFIError::InvalidState("Passed a null pointer to DatabaseSetOption");
            set_error_record(&e, error)
        },
        Some(h) => match get_inner_ref(&h.private_data) {
            Err(e) => set_error_record(&e, error),
            Ok(db) => {
                let key = match get_maybe_str(key) {
                    Ok(k) => k,
                    Err(e) => {
                        return set_error_record(&e, error);
                    },
                };
                let value = match get_maybe_str(value) {
                    Ok(v) => v,
                    Err(e) => {
                        return set_error_record(&e, error);
                    },
                };
                let key_str = match &key {
                    Some(k) => k.as_str(),
                    None => "",
                };
                let value_str = match &value {
                    Some(v) => v.as_str(),
                    None => "",
                };
                let res = db.set_option(key_str, value_str);
                deliver_status(res, error)
            },
        },
    }
}

/// DatabaseRelease: destroys the state the slot owns and renulls the slot.
/// Succeeds on a null handle pointer and on a never-initialized handle, and
/// is safe to call repeatedly. It drops only the handle's own shared
/// reference: a Connection initialized against this Database keeps the
/// Database state alive through its own reference.
pub fn database_release<DatabaseType: Default + AdbcDatabaseImpl>(
    database: Option<&mut FFI_AdbcDatabase<DatabaseType>>,
    _error: &mut OutArg<ErrorRecord>,
) -> (status: AdbcStatusCode)
    ensures
        status == AdbcStatusCode::Success,
        database matches Some(h) ==> !(*final(h)).is_initialized(),
{
    match database {
        None => AdbcStatusCode::Success,
        Some(h) => {
            release_inner(&mut h.private_data);
            AdbcStatusCode::Success
        },
    }
}

} // verus!
