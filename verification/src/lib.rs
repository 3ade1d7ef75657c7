//! Lifecycle management for a virtual network interface backed by a
//! kernel-mode packet-tunneling driver.
//!
//! The hard part of driving such an adapter is not packet I/O but the
//! device-interface lifecycle: creating a device node through the OS
//! device-installation framework, selecting the best compatible driver,
//! sequencing the class-installer steps with rollback on partial failure,
//! waiting for the OS to populate the identifying registry state, deriving
//! the stable 64-bit adapter identifier, and acquiring the I/O handle under
//! a deadline.
//!
//! This crate holds that decision logic, verified: the install state machine
//! with its resource and rollback guarantees, driver selection, device
//! scanning by identifier, the identifier's bit-packed layout, and the small
//! computations (control codes, device path, configuration-utility argument
//! lists) that the surrounding OS shell needs. The shell performs the actual
//! OS calls and feeds their outcomes back as events.

use vstd::prelude::*;

pub mod error;
pub mod ident;
pub mod strcase;
pub mod catalog;
pub mod scan;
pub mod install;
pub mod acquire;
pub mod netsh;
pub mod ioctl;
pub mod path;

verus! {

/// The hardware identifier of the packet-tunneling driver family this
/// library targets by default.
pub const HARDWARE_ID: &'static str = "tap0901";

} // verus!
