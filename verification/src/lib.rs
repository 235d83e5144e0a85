//! A safe, verified model of an ADBC (Arrow Database Connectivity) driver
//! adapter. A C caller drives a Database/Connection/Statement lifecycle
//! through a table of function pointers; this library holds the adapter's
//! logic behind that table: the opaque-handle lifecycle
//! (allocate/initialize/release), the per-operation entry-point shims with
//! their argument validation, and the marshalling that turns typed results
//! and failures into the ABI's flat status-code-and-out-parameter form.
//!
//! The ABI's raw-pointer surface is modelled with safe values: a nullable
//! handle pointer is an `Option` of a mutable reference, a caller's
//! out-pointer is an [`ffi::OutArg`], and a C string argument arrives as the
//! bytes it addresses. A thin unverified layer owns the actual C types and
//! converts in both directions.

pub mod columnar;
pub mod connection;
pub mod database;
pub mod error;
pub mod ffi;
pub mod handle;
pub mod implement;
pub mod interface;
pub mod statement;
pub mod strings;
