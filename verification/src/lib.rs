//! Lifecycle and window/tray arbitration controller for a desktop companion
//! process: a single settings window, a persistent tray icon, detection of a
//! target application among the running processes, and single-instance
//! startup arbitration.
//!
//! The modules model the controller's state and decisions over plain values;
//! the operating-system work (process snapshots, window creation, the tray
//! icon, the event loop) is performed by the surrounding application, which
//! feeds events in and carries the returned effects out.

pub mod detect;
pub mod lifecycle;
pub mod tray;
pub mod window;
