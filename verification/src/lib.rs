//! A completion-group synchronization primitive.
//!
//! A completion group is a counting join barrier: it tracks an arbitrary
//! number of outstanding units of work, lets a caller find out when all
//! tracked work has finished (optionally bounded by a deadline), and lets
//! a caller register one-shot notifications that are handed to an executor
//! at the moment the pending count returns to zero.
//!
//! This crate holds the verified core: the counting and notification state
//! machine ([`group`]), the overflow-checked conversion of a relative
//! duration into an absolute deadline ([`deadline`]), and the laws that
//! hold over whole histories of operations ([`laws`]). Blocking, thread
//! handoff and the executor itself are collaborators of the host code:
//! they drive this core and perform the actions it decides on.

pub mod deadline;
pub mod group;
pub mod laws;
