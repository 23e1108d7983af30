//! Bootstrap logic of a desktop application shell: which platform plugins a
//! build registers, in which order and at which attachment point, and how the
//! startup lifecycle reacts to the outcome of the setup hook and the run loop.
//!
//! The host runtime itself is driven from outside this library; everything it
//! is told to do is decided here.
pub mod lifecycle;
pub mod plan;
