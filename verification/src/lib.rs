//! Verified core of a composite USB control-panel firmware: a joystick HID
//! function and a virtual-Ethernet control surface sharing one transceiver.
//!
//! The crate holds the device's decision logic — input-to-report mapping,
//! report framing, the HID control-request stub, the claim-once resource
//! arena, descriptor assembly, and the shared toggle state — each function
//! carrying a contract. Hardware access, USB transfer and network I/O live
//! outside, handing plain values in and taking plain values back.

pub mod arena;
pub mod descriptor;
pub mod device;
pub mod hid;
pub mod indicators;
pub mod joystick;
pub mod netconfig;
pub mod report;
pub mod sampling;
pub mod scheduler;
pub mod state;
pub mod web;
