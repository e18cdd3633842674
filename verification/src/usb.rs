//! The trusted boundary to the rusb crate: opaque holders for the open
//! device and its handle, and thin wrappers around the calls the session
//! makes, each converting between rusb's types and plain values. Each doc
//! comment names the rusb item relied on. The device and handle types carry
//! a trait-bounded context parameter that Verus cannot declare, so they are
//! held inside opaque structs instead of being declared directly.

use vstd::prelude::*;

use crate::endpoints::EndpointInfo;
use rusb::UsbContext;

verus! {

#[verifier::external_type_specification]
#[verifier::external_body]
pub struct ExContext(rusb::Context);

#[verifier::external_type_specification]
#[verifier::external_body]
pub struct ExError(rusb::Error);

/// One attached device, as rusb enumerates it.
#[verifier::external_body]
pub struct UsbDevice {
    dev: rusb::Device<rusb::Context>,
}

/// The exclusively owned open connection to one device, closed implicitly
/// when the value is dropped at the end of the process run.
#[verifier::external_body]
pub struct UsbHandle {
    handle: rusb::DeviceHandle<rusb::Context>,
}

/// Relies on rusb::Context::new: initialises a libusb context.
#[verifier::external_body]
pub(crate) fn context_new() -> (r: Result<rusb::Context, rusb::Error>) {
    rusb::Context::new()
}

/// Relies on rusb::Context::devices (through rusb::DeviceList): the devices
/// currently attached, converted to a plain vector.
#[verifier::external_body]
pub(crate) fn list_devices(ctx: &rusb::Context) -> (r: Result<Vec<UsbDevice>, rusb::Error>) {
    match ctx.devices() {
        Ok(list) => Ok(list.iter().map(|dev| UsbDevice { dev }).collect()),
        Err(e) => Err(e),
    }
}

/// Relies on rusb::Device::open: opens the device and returns a handle.
#[verifier::external_body]
pub(crate) fn open_device_handle(device: &UsbDevice) -> (r: Result<UsbHandle, rusb::Error>) {
    match device.dev.open() {
        Ok(handle) => Ok(UsbHandle { handle }),
        Err(e) => Err(e),
    }
}

/// Relies on rusb::Device::device_descriptor and rusb::DeviceDescriptor's
/// vendor_id and product_id accessors: the device's identifiers.
#[verifier::external_body]
pub(crate) fn device_ids(device: &UsbDevice) -> (r: Result<(u16, u16), rusb::Error>) {
    match device.dev.device_descriptor() {
        Ok(d) => Ok((d.vendor_id(), d.product_id())),
        Err(e) => Err(e),
    }
}

/// Relies on rusb::Device's bus_number, address and port_number accessors:
/// where the device sits on the bus, for display.
#[verifier::external_body]
pub fn device_location(device: &UsbDevice) -> (r: (u8, u8, u8)) {
    (device.dev.bus_number(), device.dev.address(), device.dev.port_number())
}

/// Relies on rusb::Device::device_descriptor and
/// rusb::DeviceDescriptor::num_configurations: how many configurations the
/// device reports.
#[verifier::external_body]
pub(crate) fn num_configurations(device: &UsbDevice) -> (r: Result<u8, rusb::Error>) {
    match device.dev.device_descriptor() {
        Ok(d) => Ok(d.num_configurations()),
        Err(e) => Err(e),
    }
}

/// Relies on rusb::Device::config_descriptor and the descriptor iterators
/// beneath it: one plain record per endpoint of the configuration, in
/// enumeration order. The address is the endpoint's reported address (whose
/// bit 7 is the direction bit), and `interrupt` says whether rusb reports
/// the interrupt transfer type for it.
#[verifier::external_body]
pub(crate) fn config_endpoints(device: &UsbDevice, config_index: u8) -> (r: Result<
    Vec<EndpointInfo>,
    rusb::Error,
>) {
    let config = match device.dev.config_descriptor(config_index) { Ok(c) => c, Err(e) => return Err(e) };
    let mut out: Vec<EndpointInfo> = Vec::new();
    for iface in config.interfaces() {
        for desc in iface.descriptors() {
            for ep in desc.endpoint_descriptors() {
                out.push(EndpointInfo {
                    config: config.number(), iface: desc.interface_number(),
                    setting: desc.setting_number(), address: ep.address(),
                    interrupt: ep.transfer_type() == rusb::TransferType::Interrupt });
            }
        }
    }
    Ok(out)
}

/// Relies on rusb::DeviceHandle::kernel_driver_active: whether a kernel
/// driver is currently bound to the interface.
#[verifier::external_body]
pub(crate) fn kernel_driver_active(handle: &UsbHandle, iface: u8) -> (r: Result<
    bool,
    rusb::Error,
>) {
    handle.handle.kernel_driver_active(iface)
}

/// Relies on rusb::DeviceHandle::detach_kernel_driver: detaches the kernel
/// driver from the interface.
#[verifier::external_body]
pub(crate) fn detach_kernel_driver(handle: &UsbHandle, iface: u8) -> (r: Result<(), rusb::Error>) {
    handle.handle.detach_kernel_driver(iface)
}

/// Relies on rusb::DeviceHandle::attach_kernel_driver: reattaches the kernel
/// driver to the interface.
#[verifier::external_body]
pub(crate) fn attach_kernel_driver(handle: &UsbHandle, iface: u8) -> (r: Result<(), rusb::Error>) {
    handle.handle.attach_kernel_driver(iface)
}

/// Relies on rusb::DeviceHandle::set_active_configuration: activates the
/// configuration on the device.
#[verifier::external_body]
pub(crate) fn set_active_configuration(handle: &UsbHandle, config: u8) -> (r: Result<
    (),
    rusb::Error,
>) {
    handle.handle.set_active_configuration(config)
}

/// Relies on rusb::DeviceHandle::claim_interface: claims the interface for
/// this handle.
#[verifier::external_body]
pub(crate) fn claim_interface(handle: &UsbHandle, iface: u8) -> (r: Result<(), rusb::Error>) {
    handle.handle.claim_interface(iface)
}

/// Relies on rusb::DeviceHandle::release_interface: releases a claimed
/// interface.
#[verifier::external_body]
pub(crate) fn release_interface(handle: &UsbHandle, iface: u8) -> (r: Result<(), rusb::Error>) {
    handle.handle.release_interface(iface)
}

/// Relies on rusb::DeviceHandle::read_interrupt: a blocking interrupt-in
/// transfer into a buffer of the requested length; on success the result
/// holds exactly the bytes received, never more than requested.
#[verifier::external_body]
pub(crate) fn read_interrupt(handle: &UsbHandle, endpoint: u8, len: usize) -> (r: Result<
    Vec<u8>,
    rusb::Error,
>)
    ensures
        r matches Ok(v) ==> v@.len() <= len,
{
    let mut buf = vec![0u8; len];
    match handle.handle.read_interrupt(endpoint, &mut buf, core::time::Duration::from_secs(1)) {
        Ok(n) => {
            buf.truncate(n);
            Ok(buf)
        },
        Err(e) => Err(e),
    }
}

/// Relies on rusb::DeviceHandle::write_interrupt: a blocking interrupt-out
/// transfer of the buffer; on success the result is the number of the
/// buffer's bytes that were written, never more than the buffer holds.
#[verifier::external_body]
pub(crate) fn write_interrupt(handle: &UsbHandle, endpoint: u8, data: &Vec<u8>) -> (r: Result<
    usize,
    rusb::Error,
>)
    ensures
        r matches Ok(n) ==> n <= data@.len(),
{
    match handle.handle.write_interrupt(endpoint, data.as_slice(), core::time::Duration::from_secs(
        1,
    )) {
        Ok(n) => Ok(n),
        Err(e) => Err(e),
    }
}

} // verus!
