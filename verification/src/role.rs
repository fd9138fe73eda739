//! Thread roles: the logical execution context a caller currently runs
//! under. The surrounding scheduler phase-separates the roles; each
//! role-gated operation takes the caller's role explicitly.

use vstd::prelude::*;

verus! {

/// The execution role of the calling context.
///
/// Checked operations are legal only for `Script`; the bypass accessors
/// each demand the one role whose scheduling phase makes them safe.
#[derive(Clone, Copy, PartialEq, Eq, Structural, Debug)]
pub enum ThreadRole {
    /// The script role, which owns the object graph's mutation.
    Script,
    /// The rendering and layout role, which only reads, after script yields.
    Render,
    /// The garbage collector's tracing role, during a collection pause.
    CollectorTracing,
    /// Any other context; no operation of the cell is legal here.
    Other,
}

impl ThreadRole {
    /// True exactly for the script role.
    pub open spec fn is_script(self) -> bool {
        self is Script
    }
}

} // verus!
