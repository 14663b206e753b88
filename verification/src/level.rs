//! Severity of a diagnostic record.

use vstd::prelude::*;

verus! {

/// The severity under which a record is emitted.
#[derive(Clone, Copy, Debug, PartialEq, Eq, Structural)]
pub enum Level {
    Error,
    Warn,
    Info,
    Debug,
    Trace,
}

} // verus!
