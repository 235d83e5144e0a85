//! The opaque handles and the private-state protocol. Each ABI handle record
//! carries one mutable slot for caller-invisible state; the protocol provides
//! initialize-once, borrow, and release-once over that slot. A C caller sees
//! the slot as an untyped pointer; here the slot is typed, which models the
//! caller contract that one handle is only ever driven by entry points built
//! from one instantiation of the adapter.

use vstd::prelude::*;

use std::rc::Rc;
use std::sync::Arc;

use crate::error::AdbcFFIError;

verus! {

/// Initialize-once: stores `data` in an empty slot; fails with `InvalidState`
/// and leaves a full slot untouched, so a second *New on the same handle can
/// never leak or overwrite the first state.
pub fn init_inner<T>(slot: &mut Option<T>, data: T) -> (r: Result<(), AdbcFFIError>)
    ensures
        *old(slot) is None ==> r is Ok && *final(slot) == Some(data),
        *old(slot) is Some ==> (r matches Err(e) && e is InvalidState && *final(slot) == *old(slot)),
{
    if slot.is_none() {
        *slot = Some(data);
        Ok(())
    } else {
        Err(AdbcFFIError::InvalidState("Already initialized."))
    }
}

/// Typed borrow: recovers a shared reference to the slot's state; fails with
/// `InvalidState` on a never-initialized (or already released) slot.
pub fn get_inner_ref<T>(slot: &Option<T>) -> (r: Result<&T, AdbcFFIError>)
    ensures
        slot matches Some(v) ==> (r matches Ok(p) && *p == v),
        slot is None ==> (r matches Err(e) && e is InvalidState),
{
    match slot {
        Some(v) => Ok(v),
        None => Err(AdbcFFIError::InvalidState("Uninitialized.")),
    }
}

/// Release-once: destroys the owned state and empties the slot. A no-op on an
/// empty slot, so releasing twice (or without ever initializing) is safe.
pub fn release_inner<T>(slot: &mut Option<T>)
    ensures
        *final(slot) is None,
{
    *slot = None;
}

/// The ABI's Database handle record, reduced to its one mutable field: the
/// caller-invisible state slot. The state is a shared, atomically
/// reference-counted Database value, because several Connections may
/// reference it, possibly from different threads.
#[allow(non_camel_case_types)]
pub struct FFI_AdbcDatabase<D> {
    /// The caller-invisible state slot; null before DatabaseNew and after
    /// DatabaseRelease.
    pub private_data: Option<Arc<D>>,
}

impl<D> FFI_AdbcDatabase<D> {
    /// Whether the handle has been initialized (DatabaseNew) and not yet
    /// released.
    pub open spec fn is_initialized(&self) -> bool {
        self.private_data is Some
    }

    /// The handle as the caller allocates it: the state slot null.
    pub fn new() -> (r: Self)
        ensures
            !r.is_initialized(),
    {
        FFI_AdbcDatabase { private_data: None }
    }
}

/// The ABI's Connection handle. Its state is shared with single-threaded
/// reference counting: every Statement created from the Connection references
/// it, but the ABI does not promise cross-thread use of one Connection.
#[allow(non_camel_case_types)]
pub struct FFI_AdbcConnection<C> {
    /// The caller-invisible state slot; null before ConnectionNew and after
    /// ConnectionRelease.
    pub private_data: Option<Rc<C>>,
}

impl<C> FFI_AdbcConnection<C> {
    /// Whether the handle has been initialized (ConnectionNew) and not yet
    /// released.
    pub open spec fn is_initialized(&self) -> bool {
        self.private_data is Some
    }

    /// The handle as the caller allocates it: the state slot null.
    pub fn new() -> (r: Self)
        ensures
            !r.is_initialized(),
    {
        FFI_AdbcConnection { private_data: None }
    }
}

/// The ABI's Statement handle. Its state is exclusively owned by the handle;
/// the state itself holds a shared reference to its parent Connection.
#[allow(non_camel_case_types)]
pub struct FFI_AdbcStatement<S> {
    /// The caller-invisible state slot; null before StatementNew and after
    /// StatementRelease.
    pub private_data: Option<S>,
}

impl<S> FFI_AdbcStatement<S> {
    /// Whether the handle has been initialized (StatementNew) and not yet
    /// released.
    pub open spec fn is_initialized(&self) -> bool {
        self.private_data is Some
    }

    /// The handle as the caller allocates it: the state slot null.
    pub fn new() -> (r: Self)
        ensures
            !r.is_initialized(),
    {
        FFI_AdbcStatement { private_data: None }
    }
}

} // verus!
