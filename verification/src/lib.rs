//! Core logic of a screen-capture overlay tool: an invisible layered window,
//! a global hotkey that copies the window's client region to the clipboard,
//! and a timer-driven fade animation that flashes the window after a capture.
//!
//! This crate holds the decisions only. The host windowing, graphics and
//! clipboard systems are driven by a thin outer shell, which feeds events in
//! and carries the returned actions out.

pub mod capture;
pub mod fade;
pub mod host;
