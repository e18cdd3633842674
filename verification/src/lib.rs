//! Reads and writes the illumination state (backlight plus five indicator
//! LEDs) and backlight intensity of a USB HID throttle controller by issuing
//! raw interrupt transfers against its hardware endpoints.
//!
//! The core concerns are: locating the device, discovering and classifying
//! its endpoints, arbitrating ownership with a kernel-resident driver,
//! claiming and releasing interfaces on every exit path, and encoding and
//! decoding the device's fixed-size status packet.

pub mod codec;
pub mod endpoints;
pub mod errors;
pub mod session;
pub mod sim;
pub mod usb;
