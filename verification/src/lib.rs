//! The command shell of a small bare-metal system, as a library of pure,
//! verified functions.
//!
//! Nothing here touches a device.  A completed input line goes in; the new
//! shell state and the list of things the machine has to do (print, clear the
//! screen, write to a port) come out.  The caller owns the devices and performs
//! those effects in order.

pub mod acpi;
pub mod boot;
pub mod cmd;
pub mod color;
pub mod effect;
pub mod history;
pub mod registry;
pub mod rtc;
pub mod shell;
pub mod status;
pub mod text;
