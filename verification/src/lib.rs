//! A verified client of an operating-system print spooler.
//!
//! The library holds the protocol structure of sending a raw payload to a
//! printing device: enumerating the registered devices through the
//! canonical two-phase size-query-then-fill pattern, resolving a requested
//! device name against the enumerated ones, and the strictly sequential
//! raw-job lifecycle — open, start document, start page, write, then
//! best-effort cleanup — with its handle-release discipline proved for
//! every path. The operating-system calls themselves are performed by the
//! surrounding program, which feeds each call's result back into the
//! machines defined here.

use vstd::prelude::*;

pub mod enumerate;
pub mod job;
pub mod report;

verus! {

/// An error surfaced by the operating system's print subsystem, carried as
/// the platform error code of the step that failed.
#[derive(Clone, Copy, Debug, PartialEq, Eq, Structural)]
pub struct OsError {
    pub code: u32,
}

} // verus!
