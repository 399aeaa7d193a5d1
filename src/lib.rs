//! Bridges local keyboards and mice to HID transports (USB gadget, classic
//! Bluetooth, BLE), with a keyboard chord that switches the live transport and
//! LED state kept in step with it.
//!
//! The modules here hold the decisions of the bridge: event translation, the
//! mouse report-rate governor, the LED feedback hub and the mode-switch
//! orchestrator. Device and transport I/O is driven by the caller.
pub mod report;
pub mod event;
pub mod keyboard;
pub mod rate;
pub mod mouse;
pub mod monitor;
pub mod led;
pub mod switcher;
pub mod keycodes;
pub mod wire;
pub mod touch;
pub mod discovery;
