//! A safety layer over a hardware LED-strip driver.
//!
//! The [`controller::Controller`] owns one hardware-configuration record:
//! a fixed set of channels, each with an immutable LED count, a brightness
//! byte, and a color buffer holding exactly one packed color per LED. It
//! exposes channel introspection, brightness get/set, buffer views, the
//! render/wait protocol against the driver, and exactly-once teardown
//! bookkeeping for a record shared by several cloned handles.
//!
//! The hardware itself is driven by unverified code around this crate: that
//! code performs the raw render, wait and finalize calls and hands the
//! driver's status report back to the [`controller::Controller`], which
//! decides what the caller sees.

pub mod config;
pub mod controller;
pub mod laws;
pub mod status;
