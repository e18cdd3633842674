//! The error taxonomy for device operations. Every lower-level failure is
//! wrapped with the step and the interface or endpoint involved, and surfaced
//! to the top-level caller; there is no local recovery or retry at any layer.

use vstd::prelude::*;

verus! {

/// Why an operation against the device failed.
#[derive(Clone, Copy, PartialEq, Eq, Structural, Debug)]
pub enum UsbError {
    /// The USB subsystem could not be initialised.
    ContextCreation,
    /// No attached device matches the vendor/product identifiers.
    DeviceNotFound,
    /// A configuration, interface or endpoint descriptor could not be read.
    DescriptorRead,
    /// No readable (or no writable) interrupt endpoint is present.
    EndpointNotFound,
    /// Detaching the kernel driver from the interface was attempted and failed.
    DriverDetach { iface: u8 },
    /// Setting the active configuration or claiming the interface failed.
    Claim { iface: u8 },
    /// An interrupt transfer against the endpoint timed out or failed.
    Transfer { endpoint: u8 },
    /// A write transferred a byte count different from the fixed packet length.
    LengthMismatch { expected: usize, actual: usize },
    /// Releasing the interface or reattaching its kernel driver failed as the
    /// terminal step of an otherwise successful operation.
    Release { iface: u8 },
}

} // verus!
