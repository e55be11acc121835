//! Classification and presentation engine of the Ascendara crash reporter.
//!
//! Turns the three invocation parameters of a failing tool (its identifier, a
//! numeric error code and a free-text message) into a report record, a
//! severity class, a declarative window layout and the effects of the actions
//! offered to the user.
pub mod action;
pub mod decimal;
pub mod error_code;
pub mod invocation;
pub mod layout;
pub mod report;
pub mod severity;
pub mod text;
pub mod tool;
