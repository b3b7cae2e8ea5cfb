//! A safe, verified facade over a C-ABI local-object IPC framework (a
//! "binder" layer): class definition with lifecycle and transaction
//! callbacks, transaction dispatch routing, reference-counted object
//! handles, and a byte channel for draining diagnostic dumps.
//!
//! The native layer itself is foreign code reached only through raw
//! pointers and C function pointers; this crate models its observable
//! state (the class table and the object table) explicitly in [`registry`],
//! so that the bookkeeping rules the facade must uphold are stated and
//! proved rather than assumed. Unverifiable glue (dynamic loading, pipes,
//! the catch-and-abort barrier around C call frames) lives outside the
//! library in the accompanying binary.

pub mod descriptor;
pub mod dump;
pub mod parcel;
pub mod registry;
pub mod status;
