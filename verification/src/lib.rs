//! Home automation core: the decisions behind radio wall switches, the
//! registry that routes radio messages to devices, the proxy switches that
//! drive an HTTP device service, and the small helpers around them.
//!
//! Everything that talks to the outside world (serial port, HTTP, HomeKit,
//! the web server) lives in the application crate; it hands this library
//! plain values and acts on what the library decides.

pub mod home;
pub mod homekit;
pub mod ids;
pub mod mtrf_dev;
pub mod proxy;
pub mod telegram;
pub mod text;
pub mod wire;
