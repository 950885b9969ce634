//! The protocol layer of a streamer that reads Arrow record batches from a
//! host runtime loaded as a dynamic library.
//!
//! - `symbols`: the six entry points the library must export, and the error
//!   that names the first one missing.
//! - `lifecycle`: context creation status, and a teardown that runs at most
//!   once and is skipped when its thread cannot be attached.
//! - `session`: opening a data source as a state machine that registers the
//!   calling thread, makes the data-producing call, fetches the diagnostic on
//!   failure, and deregisters the thread on every path.
//! - `diagnostics`: reading the host runtime's zero-terminated error buffer.
//! - `naming`: the platform file name of a library.
use vstd::prelude::*;

pub mod diagnostics;
pub mod error;
pub mod lifecycle;
pub mod naming;
pub mod session;
pub mod symbols;

verus! {

} // verus!
