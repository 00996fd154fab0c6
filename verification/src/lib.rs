//! A finite-state-machine execution engine for sequencing control logic.
//!
//! Independently-authored states are wired together through a registry of
//! state identities; every transition carries a tagged payload whose shape
//! is checked at run time against the destination state's declared income
//! shape, so a wiring defect surfaces as a structured, diagnosable outcome
//! instead of an abort.

pub mod outcome;
pub mod payload;
pub mod sm;
pub mod sm_ext;
