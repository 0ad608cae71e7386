//! Configuration and calibration core of a real-time screen overlay.
//!
//! The crate owns the tree of tunable parameters behind the overlay
//! (target-class assistance properties, annotation styling, radar, text),
//! the byte codec that persists that tree as a named profile, the edit
//! surface through which a presentation layer mutates single fields, and
//! the state machine that drives a calibration attempt: a window-focus
//! handoff, an external sampling step, and the reconciliation of the
//! sampled ratio into the tree.
//!
//! Floating-point parameters are held as their IEEE-754 single-precision
//! bit patterns, so every rule about them — in particular that a NaN is
//! never committed as the calibration ratio — is a proved statement about
//! plain integers. The surrounding application converts at its edge.

pub mod calibration;
pub mod edits;
pub mod floatbits;
pub mod profile;
pub mod session;
pub mod settings;
