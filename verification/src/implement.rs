//! The driver table builder. Given one concrete Statement implementation,
//! the associated Connection and Database implementations are derived through
//! the type-association links below, and the table is populated with one
//! entry point per ABI operation, all monomorphized against that triple. The
//! table itself is immutable after construction but for its own release
//! entry.

use vstd::prelude::*;

use std::rc::Rc;
use std::sync::Arc;

use crate::error::AdbcStatusCode;
use crate::error::ErrorRecord;
use crate::ffi::OutArg;
use crate::interface::ConnectionApi;
use crate::interface::DatabaseApi;
use crate::interface::StatementApi;

verus! {

/// A Database implementation the adapter can be instantiated over.
pub trait AdbcDatabaseImpl: DatabaseApi {

}

/// A Connection implementation the adapter can be instantiated over, tied to
/// the Database implementation it attaches to.
pub trait AdbcConnectionImpl: ConnectionApi {
    /// The Database implementation this Connection is initialized against.
    type DatabaseType: AdbcDatabaseImpl + Default;

    /// Side-effecting initialization of an already-allocated Connection,
    /// attaching a shared reference to its parent Database.
    fn init(&self, database: Arc<Self::DatabaseType>) -> (r: Result<(), Self::Error>);
}

/// A Statement implementation the adapter can be instantiated over, tied to
/// the Connection implementation it is created from.
pub trait AdbcStatementImpl: StatementApi {
    /// The Connection implementation this Statement is created from.
    type ConnectionType: AdbcConnectionImpl + Default;

    /// Allocates a Statement holding a shared reference to its parent
    /// Connection.
    fn new_from_connection(connection: Rc<Self::ConnectionType>) -> (r: Self) where Self: Sized;
}

/// The process-wide driver table: one slot per ABI operation, plus a release
/// slot for the table itself. The ABI fills each slot with a function
/// pointer; here a slot records whether it is filled, and the entry points
/// themselves are the shim functions, monomorphized by their type parameters
/// exactly as the slots of the C table are.
#[allow(non_camel_case_types)]
#[allow(non_snake_case)]
pub struct FFI_AdbcDriver {
    pub release: bool,
    pub DatabaseInit: bool,
    pub DatabaseNew: bool,
    pub DatabaseRelease: bool,
    pub DatabaseSetOption: bool,
    pub ConnectionCommit: bool,
    pub ConnectionGetInfo: bool,
    pub ConnectionInit: bool,
    pub ConnectionRelease: bool,
    pub ConnectionGetObjects: bool,
    pub ConnectionGetTableSchema: bool,
    pub ConnectionGetTableTypes: bool,
    pub ConnectionNew: bool,
    pub ConnectionReadPartition: bool,
    pub ConnectionRollback: bool,
    pub ConnectionSetOption: bool,
    pub StatementNew: bool,
    pub StatementBind: bool,
    pub StatementBindStream: bool,
    pub StatementExecutePartitions: bool,
    pub StatementExecuteQuery: bool,
    pub StatementGetParameterSchema: bool,
    pub StatementPrepare: bool,
    pub StatementRelease: bool,
    pub StatementSetOption: bool,
    pub StatementSetSqlQuery: bool,
    pub StatementSetSubstraitPlan: bool,
}

impl FFI_AdbcDriver {
    /// Every per-operation slot of the table is filled.
    pub open spec fn fully_populated(&self) -> bool {
        &&& self.DatabaseInit
        &&& self.DatabaseNew
        &&& self.DatabaseRelease
        &&& self.DatabaseSetOption
        &&& self.ConnectionCommit
        &&& self.ConnectionGetInfo
        &&& self.ConnectionInit
        &&& self.ConnectionRelease
        &&& self.ConnectionGetObjects
        &&& self.ConnectionGetTableSchema
        &&& self.ConnectionGetTableTypes
        &&& self.ConnectionNew
        &&& self.ConnectionReadPartition
        &&& self.ConnectionRollback
        &&& self.ConnectionSetOption
        &&& self.StatementNew
        &&& self.StatementBind
        &&& self.StatementBindStream
        &&& self.StatementExecutePartitions
        &&& self.StatementExecuteQuery
        &&& self.StatementGetParameterSchema
        &&& self.StatementPrepare
        &&& self.StatementRelease
        &&& self.StatementSetOption
        &&& self.StatementSetSqlQuery
        &&& self.StatementSetSubstraitPlan
    }
}

/// Initialize an ADBC driver that dispatches to the types defined by the
/// provided `StatementType`: every operation slot is filled, with each shim
/// monomorphized against the Statement implementation, its associated
/// Connection implementation, and that Connection's associated Database
/// implementation. The associated error types satisfy the error capability by
/// the bounds the capability interfaces carry.
pub fn init_adbc_driver<StatementType: AdbcStatementImpl>() -> (driver: FFI_AdbcDriver)
    ensures
        driver.fully_populated(),
        driver.release,
{
    FFI_AdbcDriver {
        release: true,
        DatabaseInit: true,
        DatabaseNew: true,
        DatabaseRelease: true,
        DatabaseSetOption: true,
        ConnectionCommit: true,
        ConnectionGetInfo: true,
        ConnectionInit: true,
        ConnectionRelease: true,
        ConnectionGetObjects: true,
        ConnectionGetTableSchema: true,
        ConnectionGetTableTypes: true,
        ConnectionNew: true,
        ConnectionReadPartition: true,
        ConnectionRollback: true,
        ConnectionSetOption: true,
        StatementNew: true,
        StatementBind: true,
        StatementBindStream: true,
        StatementExecutePartitions: true,
        StatementExecuteQuery: true,
        StatementGetParameterSchema: true,
        StatementPrepare: true,
        StatementRelease: true,
        StatementSetOption: true,
        StatementSetSqlQuery: true,
        StatementSetSubstraitPlan: true,
    }
}

/// Releases the driver table itself: clears only the table's own release
/// slot, touches no per-operation slot and no handle, and succeeds even on a
/// null table pointer. Idempotent.
pub fn release_adbc_driver(
    driver: Option<&mut FFI_AdbcDriver>,
    _error: &mut OutArg<ErrorRecord>,
) -> (status: AdbcStatusCode)
    ensures
        status == AdbcStatusCode::Success,
        driver matches Some(d) ==> *final(d) == (FFI_AdbcDriver { release: false, ..*d }),
{
    match driver {
        None => AdbcStatusCode::Success,
        Some(d) => {
            d.release = false;
            AdbcStatusCode::Success
        },
    }
}

} // verus!
