//! Settings that the server reads at start-up.

use vstd::prelude::*;

verus! {

/// How much the server logs.
#[derive(Debug, Clone, Copy, PartialEq, Eq, Structural)]
pub enum LogLevel {
    Warn,
    Info,
    Error,
    Debug,
    Trace,
}

} // verus!
