//! The error/status marshalling boundary: the fixed status-code enumeration,
//! the caller-allocated error record, the error capability that every typed
//! failure satisfies, and the functions that funnel a typed failure into the
//! record-plus-status form the ABI prescribes.

use vstd::prelude::*;

use crate::ffi::OutArg;

verus! {

/// The status code every ABI entry point returns. `Success` reports success;
/// `InvalidState` and `InvalidArguments` report adapter-contract violations
/// detected before the implementation is reached; the remaining codes pass
/// implementation-declared failures through unchanged.
#[derive(Clone, Copy, Debug, PartialEq, Eq, Structural)]
pub enum AdbcStatusCode {
    Success,
    Unknown,
    NotImplemented,
    NotFound,
    AlreadyExists,
    InvalidArguments,
    InvalidState,
    InvalidData,
    Integrity,
    Internal,
    Io,
    Cancelled,
    Timeout,
    Unauthenticated,
    Unauthorized,
}

/// The caller-allocated error record a failing shim fills in place: a
/// human-readable message, a vendor code, and a 5-byte SQL state.
pub struct ErrorRecord {
    pub message: String,
    pub vendor_code: i32,
    pub sqlstate: [i8; 5],
}

/// The error capability: anything a shim can fail with produces a message, a
/// 5-byte SQL state, and a status code, so that every failure is uniformly
/// reportable through the error record.
pub trait AdbcError {
    /// The message text, as the specification-level value `message` returns.
    spec fn message_spec(&self) -> Seq<char>;

    /// The SQL state, as the specification-level value `sqlstate` returns.
    spec fn sqlstate_spec(&self) -> Seq<i8>;

    /// The status code this error declares.
    spec fn status_code_spec(&self) -> AdbcStatusCode;

    /// A human-readable description of the failure.
    fn message(&self) -> (r: String)
        ensures
            r@ == self.message_spec(),
    ;

    /// A 5-character SQL state code.
    fn sqlstate(&self) -> (r: [i8; 5])
        ensures
            r@ == self.sqlstate_spec(),
    ;

    /// The status code the failing call must return.
    fn status_code(&self) -> (r: AdbcStatusCode)
        ensures
            r == self.status_code_spec(),
    ;
}

/// The adapter's own two failure kinds, distinct from implementation-level
/// errors: a handle or argument in the wrong state, and behaviour that is not
/// wired up. Both satisfy the error capability like any implementation error.
pub enum AdbcFFIError {
    InvalidState(&'static str),
    NotImplemented(&'static str),
}

impl AdbcError for AdbcFFIError {
    open spec fn message_spec(&self) -> Seq<char> {
        match self {
            AdbcFFIError::InvalidState(m) => m@,
            AdbcFFIError::NotImplemented(m) => m@,
        }
    }

    open spec fn sqlstate_spec(&self) -> Seq<i8> {
        match self {
            AdbcFFIError::InvalidState(_) => seq![5i8, 5i8, 0i8, 1i8, 9i8],
            AdbcFFIError::NotImplemented(_) => seq![5i8, 6i8, 0i8, 3i8, 8i8],
        }
    }

    open spec fn status_code_spec(&self) -> AdbcStatusCode {
        match self {
            AdbcFFIError::InvalidState(_) => AdbcStatusCode::InvalidState,
            AdbcFFIError::NotImplemented(_) => AdbcStatusCode::NotImplemented,
        }
    }

    fn message(&self) -> (r: String) {
        match self {
            AdbcFFIError::InvalidState(m) => (*m).to_owned(),
            AdbcFFIError::NotImplemented(m) => (*m).to_owned(),
        }
    }

    fn sqlstate(&self) -> (r: [i8; 5]) {
        match self {
            AdbcFFIError::InvalidState(_) => [5, 5, 0, 1, 9],
            AdbcFFIError::NotImplemented(_) => [5, 6, 0, 3, 8],
        }
    }

    fn status_code(&self) -> (r: AdbcStatusCode) {
        match self {
            AdbcFFIError::InvalidState(_) => AdbcStatusCode::InvalidState,
            AdbcFFIError::NotImplemented(_) => AdbcStatusCode::NotImplemented,
        }
    }
}

/// What the caller's error record holds after a shim reported the typed error
/// `e` into it: a null record pointer drops the message silently, any other
/// record is overwritten with the error's message and SQL state.
pub open spec fn error_written<E: AdbcError>(
    e: E,
    old_err: OutArg<ErrorRecord>,
    new_err: OutArg<ErrorRecord>,
) -> bool {
    match old_err {
        OutArg::Null => new_err is Null,
        _ => new_err matches OutArg::Written(rec) && rec.message@ == e.message_spec()
            && rec.sqlstate@ == e.sqlstate_spec() && rec.vendor_code == 0,
    }
}

/// Reports the typed error `e` to the caller: fills the error record, unless
/// the caller declined it with a null pointer, and returns the status code
/// the error declares. The status code is never suppressed.
pub fn set_error_record<E: AdbcError>(e: &E, error: &mut OutArg<ErrorRecord>) -> (status:
    AdbcStatusCode)
    ensures
        status == e.status_code_spec(),
        error_written(*e, *old(error), *final(error)),
{
    let null = error.is_null();
    if !null {
        *error = OutArg::Written(
            ErrorRecord { message: e.message(), vendor_code: 0, sqlstate: e.sqlstate() },
        );
    }
    e.status_code()
}

/// What the caller's error record holds after a shim wrote the bare message
/// `msg` into it (used where a status code is fixed by the adapter itself and
/// no typed error exists): the SQL state is left all zero.
pub open spec fn message_written(
    msg: Seq<char>,
    old_err: OutArg<ErrorRecord>,
    new_err: OutArg<ErrorRecord>,
) -> bool {
    match old_err {
        OutArg::Null => new_err is Null,
        _ => new_err matches OutArg::Written(rec) && rec.message@ == msg
            && rec.sqlstate@ == seq![0i8, 0i8, 0i8, 0i8, 0i8] && rec.vendor_code == 0,
    }
}

/// Writes a bare message into the caller's error record, unless the caller
/// declined it with a null pointer.
pub fn set_error_message(error: &mut OutArg<ErrorRecord>, msg: &str)
    ensures
        message_written(msg@, *old(error), *final(error)),
{
    let null = error.is_null();
    if !null {
        *error = OutArg::Written(
            ErrorRecord { message: msg.to_owned(), vendor_code: 0, sqlstate: [0, 0, 0, 0, 0] },
        );
    }
}

/// The shape every reported failure leaves behind: the caller's record is
/// written exactly when the caller supplied one. What the record then holds
/// is pinned down by `error_written` at the marshalling functions.
pub open spec fn failure_noted(
    old_err: OutArg<ErrorRecord>,
    new_err: OutArg<ErrorRecord>,
) -> bool {
    &&& old_err is Null ==> new_err is Null
    &&& !(old_err is Null) ==> new_err is Written
}

/// What a shim's outcome may look like once the implementation was reached:
/// either the operation succeeded, with the error record untouched, or a
/// failure was reported into the record.
pub open spec fn outcome_reported(
    status: AdbcStatusCode,
    old_err: OutArg<ErrorRecord>,
    new_err: OutArg<ErrorRecord>,
) -> bool {
    ||| (status == AdbcStatusCode::Success && new_err == old_err)
    ||| failure_noted(old_err, new_err)
}

/// How a shim treats a caller's out-parameter: a null pointer is never
/// written through, and the target changes only by being written on a
/// successful delivery.
pub open spec fn out_delivered<T>(
    old_out: OutArg<T>,
    new_out: OutArg<T>,
    status: AdbcStatusCode,
    old_err: OutArg<ErrorRecord>,
    new_err: OutArg<ErrorRecord>,
) -> bool {
    &&& old_out is Null ==> new_out is Null
    &&& (new_out == old_out || (new_out is Written && status == AdbcStatusCode::Success && new_err
        == old_err))
}

/// Marshals the outcome of an implementation operation that yields no output:
/// success returns `Ok` and leaves the error record alone; failure reports
/// the typed error and returns its declared status code.
pub fn deliver_status<E: AdbcError>(
    res: Result<(), E>,
    error: &mut OutArg<ErrorRecord>,
) -> (status: AdbcStatusCode)
    ensures
        res is Ok ==> status == AdbcStatusCode::Success && *final(error) == *old(error),
        res matches Err(e) ==> status == e.status_code_spec() && error_written(
            e,
            *old(error),
            *final(error),
        ),
{
    match res {
        Ok(()) => AdbcStatusCode::Success,
        Err(e) => set_error_record(&e, error),
    }
}

/// Marshals the outcome of an implementation operation that produces a value:
/// on success the value is written through the caller's out-parameter (unless
/// the caller declined it with a null pointer) and the error record is left
/// alone; on failure the typed error is reported and the out-parameter is
/// left exactly as it was.
pub fn deliver_value<T, E: AdbcError>(
    res: Result<T, E>,
    out: &mut OutArg<T>,
    error: &mut OutArg<ErrorRecord>,
) -> (status: AdbcStatusCode)
    ensures
        res matches Ok(v) ==> {
            &&& status == AdbcStatusCode::Success
            &&& *final(error) == *old(error)
            &&& (*old(out) is Null ==> *final(out) is Null)
            &&& (!(*old(out) is Null) ==> *final(out) == OutArg::Written(v))
        },
        res matches Err(e) ==> {
            &&& status == e.status_code_spec()
            &&& error_written(e, *old(error), *final(error))
            &&& *final(out) == *old(out)
        },
{
    match res {
        Ok(v) => {
            let null = out.is_null();
            if !null {
                *out = OutArg::Written(v);
            }
            AdbcStatusCode::Success
        },
        Err(e) => set_error_record(&e, error),
    }
}

} // verus!
