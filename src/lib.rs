//! Attach an abort-on-unwind guard to a function item: the function keeps its
//! attributes, visibility and signature, and its body runs inside a region that
//! turns any unwinding out of it into an immediate abort of the process.
pub mod tokens;
pub mod expand;
pub mod guard;
