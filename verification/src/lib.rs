//! A shareable mutable container for the mutable fields of a DOM-like object
//! graph.
//!
//! The container extends dynamic borrow checking (one exclusive writer or any
//! number of readers, tracked at run time) with two further concerns: most
//! operations are legal only for the script execution role, and three bypass
//! accessors deliberately skip the borrow tracker for situations whose safety
//! the surrounding scheduler guarantees (render-role reads, reads during
//! garbage-collector tracing, and exclusive access during teardown).

pub mod cell;
pub mod role;
pub mod state;
pub mod trace;

pub use cell::DOMRefCell;
pub use cell::ExclusiveGuard;
pub use cell::SharedGuard;
pub use role::ThreadRole;
pub use state::BorrowEvent;
pub use state::BorrowState;
pub use trace::Traceable;
pub use trace::Tracer;
