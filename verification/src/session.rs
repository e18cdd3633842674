//! The session's decision logic: merging requested per-flag overrides onto
//! the currently-read state, and the outcome of a write operation.

use vstd::prelude::*;

use crate::codec::{
    decode, encode, validate_write_length, LEDState, MAX_INTENSITY, WARTHOG_PACKET_DATA_LENGTH,
};
use crate::endpoints::{
    classify_endpoints, first_readable, first_writable, spec_first_readable, spec_first_writable,
    spec_is_readable, spec_is_writable, EndpointInfo,
};
use crate::errors::UsbError;
use crate::usb;
use crate::usb::{UsbDevice, UsbHandle};

verus! {

/// Vendor identifier of the device this tool drives.
pub const VID: u16 = 0x044f;

/// Product identifier of the throttle controller.
pub const THROTTLE_PID: u16 = 0x0404;

/// What a write operation accomplished: either the requested target equalled
/// the current state and no transfer was issued, or a status packet was
/// written and its byte count validated.
#[derive(Clone, Copy, PartialEq, Eq, Structural, Debug)]
pub enum WriteOutcome {
    /// The requested state equals the current state; nothing to update.
    NothingToUpdate,
    /// A packet was written and the transferred byte count validated.
    Written,
}

/// Caller-supplied per-flag overrides: `Some(true)` turns a flag on,
/// `Some(false)` turns it off, `None` leaves it as currently read.
/// The intensity override works the same way on the intensity value.
#[derive(Clone, Copy, Debug)]
pub struct LEDOverrides {
    pub backlight: Option<bool>,
    pub led_1: Option<bool>,
    pub led_2: Option<bool>,
    pub led_3: Option<bool>,
    pub led_4: Option<bool>,
    pub led_5: Option<bool>,
    pub intensity: Option<u8>,
}

impl LEDOverrides {
    /// Overrides that leave every flag and the intensity unchanged.
    pub fn none() -> (r: LEDOverrides)
        ensures
            r.backlight is None && r.led_1 is None && r.led_2 is None && r.led_3 is None
                && r.led_4 is None && r.led_5 is None && r.intensity is None,
    {
        LEDOverrides {
            backlight: None,
            led_1: None,
            led_2: None,
            led_3: None,
            led_4: None,
            led_5: None,
            intensity: None,
        }
    }
}

/// The value a single flag takes after an override is applied.
pub open spec fn merged_flag(current: bool, requested: Option<bool>) -> bool {
    match requested {
        Some(b) => b,
        None => current,
    }
}

/// The value the intensity takes after an override is applied.
pub open spec fn merged_intensity(current: u8, requested: Option<u8>) -> u8 {
    match requested {
        Some(v) => v,
        None => current,
    }
}

/// Merge the caller's per-flag overrides onto the currently-read state.
/// Purely a value transformation: each flag is set or cleared where an
/// override says so and kept where none does, and likewise the intensity.
pub fn decide_target_state(current_leds: LEDState, current_intensity: u8, overrides: &LEDOverrides)
    -> (r: (LEDState, u8))
    ensures
        r.0.backlight == merged_flag(current_leds.backlight, overrides.backlight),
        r.0.led_1 == merged_flag(current_leds.led_1, overrides.led_1),
        r.0.led_2 == merged_flag(current_leds.led_2, overrides.led_2),
        r.0.led_3 == merged_flag(current_leds.led_3, overrides.led_3),
        r.0.led_4 == merged_flag(current_leds.led_4, overrides.led_4),
        r.0.led_5 == merged_flag(current_leds.led_5, overrides.led_5),
        r.1 == merged_intensity(current_intensity, overrides.intensity),
{
    let leds = LEDState {
        backlight: match overrides.backlight {
            Some(b) => b,
            None => current_leds.backlight,
        },
        led_1: match overrides.led_1 {
            Some(b) => b,
            None => current_leds.led_1,
        },
        led_2: match overrides.led_2 {
            Some(b) => b,
            None => current_leds.led_2,
        },
        led_3: match overrides.led_3 {
            Some(b) => b,
            None => current_leds.led_3,
        },
        led_4: match overrides.led_4 {
            Some(b) => b,
            None => current_leds.led_4,
        },
        led_5: match overrides.led_5 {
            Some(b) => b,
            None => current_leds.led_5,
        },
    };
    let intensity = match overrides.intensity {
        Some(v) => v,
        None => current_intensity,
    };
    (leds, intensity)
}

/// Initialise the USB subsystem.
pub fn create_context() -> (r: Result<rusb::Context, UsbError>)
    ensures
        r is Err ==> r == Err::<rusb::Context, UsbError>(UsbError::ContextCreation),
{
    match usb::context_new() {
        Ok(c) => Ok(c),
        Err(_) => Err(UsbError::ContextCreation),
    }
}

/// Locate the first attached device matching the vendor and product
/// identifiers and open it. A device whose descriptor cannot be read or that
/// cannot be opened is skipped; when none matches, the device is not found.
pub fn open_device(ctx: &rusb::Context, vid: u16, pid: u16) -> (r: Result<
    (UsbDevice, UsbHandle),
    UsbError,
>)
    ensures
        r is Err ==> r == Err::<(UsbDevice, UsbHandle), UsbError>(UsbError::DeviceNotFound),
{
    let mut devices = match usb::list_devices(ctx) {
        Ok(v) => v,
        Err(_) => {
            return Err(UsbError::DeviceNotFound);
        },
    };
    let mut i: usize = 0;
    while i < devices.len()
        invariant
            i <= devices@.len(),
        decreases devices@.len() - i,
    {
        let matches_ids = match usb::device_ids(&devices[i]) {
            Ok((v, p)) => v == vid && p == pid,
            Err(_) => false,
        };
        if matches_ids {
            let dev = devices.remove(i);
            match usb::open_device_handle(&dev) {
                Ok(handle) => {
                    return Ok((dev, handle));
                },
                Err(_) => {
                    return Err(UsbError::DeviceNotFound);
                },
            }
        }
        i = i + 1;
    }
    Err(UsbError::DeviceNotFound)
}

/// Walk the device's configurations, interfaces and endpoints and classify
/// every endpoint: readable interrupt endpoints first, writable second, each
/// in discovery order. Fails when any descriptor cannot be read. The
/// sequences may be empty; callers treat an empty one as the endpoint not
/// being found.
pub fn find_endpoints(device: &UsbDevice) -> (r: Result<
    (Vec<EndpointInfo>, Vec<EndpointInfo>),
    UsbError,
>)
    ensures
        r is Err ==> r == Err::<(Vec<EndpointInfo>, Vec<EndpointInfo>), UsbError>(
            UsbError::DescriptorRead,
        ),
        r matches Ok(p) ==> (forall|k: int|
            0 <= k < p.0@.len() ==> spec_is_readable(#[trigger] p.0@[k])) && (forall|k: int|
            0 <= k < p.1@.len() ==> spec_is_writable(#[trigger] p.1@[k])),
{
    let configs = match usb::num_configurations(device) {
        Ok(n) => n,
        Err(_) => {
            return Err(UsbError::DescriptorRead);
        },
    };
    let mut all: Vec<EndpointInfo> = Vec::new();
    let mut c: u8 = 0;
    while c < configs
        invariant
            c <= configs,
        decreases configs - c,
    {
        let mut found = match usb::config_endpoints(device, c) {
            Ok(v) => v,
            Err(_) => {
                return Err(UsbError::DescriptorRead);
            },
        };
        all.append(&mut found);
        c = c + 1;
    }
    let (readable, writable) = classify_endpoints(&all);
    proof {
        assert forall|k: int| 0 <= k < readable@.len() implies spec_is_readable(
            #[trigger] readable@[k],
        ) by {
            all@.lemma_filter_pred(|e: EndpointInfo| spec_is_readable(e), k);
        }
        assert forall|k: int| 0 <= k < writable@.len() implies spec_is_writable(
            #[trigger] writable@[k],
        ) by {
            all@.lemma_filter_pred(|e: EndpointInfo| spec_is_writable(e), k);
        }
    }
    Ok((readable, writable))
}

/// Detect and, where one is bound, detach a competing kernel driver on the
/// interface; report whether this session performed the detach, so that it
/// alone is responsible for reattaching. A failing query is treated as "no
/// driver bound" and no detach is attempted.
pub fn ensure_detached(handle: &UsbHandle, iface: u8) -> (r: Result<bool, UsbError>)
    ensures
        r is Err ==> r == Err::<bool, UsbError>(UsbError::DriverDetach { iface }),
{
    match usb::kernel_driver_active(handle, iface) {
        Ok(true) => match usb::detach_kernel_driver(handle, iface) {
            Ok(_) => Ok(true),
            Err(_) => Err(UsbError::DriverDetach { iface }),
        },
        Ok(false) => Ok(false),
        Err(_) => Ok(false),
    }
}

/// Reattach the kernel driver exactly when `had_kernel_driver` says this
/// session detached one; otherwise do nothing. This is the single place
/// reattachment is decided: a driver this session did not detach is never
/// reattached.
pub fn restore(handle: &UsbHandle, iface: u8, had_kernel_driver: bool) -> (r: Result<(), UsbError>)
    ensures
        !had_kernel_driver ==> r == Ok::<(), UsbError>(()),
        r is Err ==> had_kernel_driver && r == Err::<(), UsbError>(UsbError::Release { iface }),
{
    if had_kernel_driver {
        match usb::attach_kernel_driver(handle, iface) {
            Ok(u) => Ok(u),
            Err(_) => Err(UsbError::Release { iface }),
        }
    } else {
        Ok(())
    }
}

/// Set the device's active configuration and claim the interface owning the
/// endpoint. Either step failing is a claim error; no rollback of a
/// partially set configuration is attempted.
pub fn configure_endpoint(handle: &UsbHandle, endpoint: &EndpointInfo) -> (r: Result<(), UsbError>)
    ensures
        r is Err ==> r == Err::<(), UsbError>(UsbError::Claim { iface: endpoint.iface }),
{
    match usb::set_active_configuration(handle, endpoint.config) {
        Ok(u) => u,
        Err(_) => {
            return Err(UsbError::Claim { iface: endpoint.iface });
        },
    };
    match usb::claim_interface(handle, endpoint.iface) {
        Ok(u) => Ok(u),
        Err(_) => Err(UsbError::Claim { iface: endpoint.iface }),
    }
}

/// Release the claimed interface, then reattach the kernel driver exactly
/// when this session detached one. Invoked on every exit path of an
/// operation that succeeded in configuring; when it is the terminal step its
/// error propagates, otherwise the caller discards it.
pub fn release_usb_endpoint(handle: &UsbHandle, iface: u8, had_kernel_driver: bool) -> (r: Result<
    (),
    UsbError,
>)
    ensures
        r is Err ==> r == Err::<(), UsbError>(UsbError::Release { iface }),
{
    match usb::release_interface(handle, iface) {
        Ok(u) => u,
        Err(_) => {
            return Err(UsbError::Release { iface });
        },
    };
    restore(handle, iface, had_kernel_driver)
}

/// Read the device's status packet from the endpoint and decode it. A
/// transfer that fails or returns anything but a full packet is a transfer
/// error.
pub fn read_warthog_throttle_config(handle: &UsbHandle, endpoint_address: u8) -> (r: Result<
    (LEDState, u8),
    UsbError,
>)
    ensures
        r is Err ==> r == Err::<(LEDState, u8), UsbError>(
            UsbError::Transfer { endpoint: endpoint_address },
        ),
{
    let data = match usb::read_interrupt(handle, endpoint_address, WARTHOG_PACKET_DATA_LENGTH) {
        Ok(d) => d,
        Err(_) => {
            return Err(UsbError::Transfer { endpoint: endpoint_address });
        },
    };
    if data.len() != WARTHOG_PACKET_DATA_LENGTH {
        return Err(UsbError::Transfer { endpoint: endpoint_address });
    }
    Ok(decode(&data))
}

/// Encode the requested LED set and intensity into a status packet and write
/// it to the endpoint, returning the byte count the transfer reported. The
/// caller validates that count against the fixed packet length.
pub fn write_warthog_throttle_config(
    handle: &UsbHandle,
    endpoint_address: u8,
    leds: LEDState,
    intensity: u8,
) -> (r: Result<usize, UsbError>)
    requires
        intensity <= MAX_INTENSITY,
    ensures
        r matches Ok(n) ==> n <= WARTHOG_PACKET_DATA_LENGTH,
        r is Err ==> r == Err::<usize, UsbError>(
            UsbError::Transfer { endpoint: endpoint_address },
        ),
{
    let packet = encode(leds, intensity);
    match usb::write_interrupt(handle, endpoint_address, &packet) {
        Ok(n) => Ok(n),
        Err(_) => Err(UsbError::Transfer { endpoint: endpoint_address }),
    }
}

/// Read the current configuration from the device: select the first readable
/// interrupt endpoint, arbitrate the kernel driver, configure and claim,
/// read and decode, and release — the release is attempted on the transfer's
/// failure path too, with its error discarded so the transfer error is what
/// propagates; as the terminal step its error propagates.
pub fn read_configuration(handle: &UsbHandle, endpoints: &Vec<EndpointInfo>) -> (r: Result<
    (LEDState, u8),
    UsbError,
>)
    ensures
        spec_first_readable(endpoints@) is None <==> (forall|k: int|
            0 <= k < endpoints@.len() ==> !spec_is_readable(#[trigger] endpoints@[k])),
        spec_first_readable(endpoints@) is None ==> r == Err::<(LEDState, u8), UsbError>(
            UsbError::EndpointNotFound,
        ),
        ({
            let fr = spec_first_readable(endpoints@);
            fr is Some ==> {
                let e = fr->Some_0;
                r is Err ==> (r == Err::<(LEDState, u8), UsbError>(
                    UsbError::DriverDetach { iface: e.iface },
                ) || r == Err::<(LEDState, u8), UsbError>(UsbError::Claim { iface: e.iface }) || r
                    == Err::<(LEDState, u8), UsbError>(UsbError::Transfer { endpoint: e.address })
                    || r == Err::<(LEDState, u8), UsbError>(UsbError::Release { iface: e.iface }))
            }
        }),
{
    let ep = match first_readable(endpoints) {
        None => {
            return Err(UsbError::EndpointNotFound);
        },
        Some(e) => e,
    };
    let had = match ensure_detached(handle, ep.iface) {
        Ok(b) => b,
        Err(e) => {
            return Err(e);
        },
    };
    match configure_endpoint(handle, &ep) {
        Ok(u) => u,
        Err(e) => {
            return Err(e);
        },
    };
    let current = match read_warthog_throttle_config(handle, ep.address) {
        Ok(c) => c,
        Err(e) => {
            let _ = release_usb_endpoint(handle, ep.iface, had);
            return Err(e);
        },
    };
    match release_usb_endpoint(handle, ep.iface, had) {
        Ok(u) => u,
        Err(e) => {
            return Err(e);
        },
    };
    Ok(current)
}

/// Write a new configuration to the device. When the requested target equals
/// the currently read state, no transfer of any kind is issued and the
/// outcome says there was nothing to update. Otherwise: select the first
/// writable interrupt endpoint, arbitrate, configure, encode and write,
/// validate the transferred byte count against the fixed packet length, and
/// release on every exit path — best-effort while a transfer or length error
/// is being reported, with its own error propagating as the terminal step.
pub fn write_configuration(
    handle: &UsbHandle,
    endpoints: &Vec<EndpointInfo>,
    target_leds: LEDState,
    target_intensity: u8,
    current_leds: LEDState,
    current_intensity: u8,
) -> (r: Result<WriteOutcome, UsbError>)
    requires
        target_intensity <= MAX_INTENSITY,
    ensures
        target_leds == current_leds && target_intensity == current_intensity ==> r == Ok::<
            WriteOutcome,
            UsbError,
        >(WriteOutcome::NothingToUpdate),
        r == Ok::<WriteOutcome, UsbError>(WriteOutcome::Written) ==> !(target_leds == current_leds
            && target_intensity == current_intensity),
        // a target that differs from the current state is never reported as
        // "nothing to update": it succeeds only by writing
        !(target_leds == current_leds && target_intensity == current_intensity) ==> r != Ok::<
            WriteOutcome,
            UsbError,
        >(WriteOutcome::NothingToUpdate),
        !(target_leds == current_leds && target_intensity == current_intensity)
            && spec_first_writable(endpoints@) is None ==> r == Err::<WriteOutcome, UsbError>(
            UsbError::EndpointNotFound,
        ),
        ({
            let fw = spec_first_writable(endpoints@);
            fw is Some ==> {
                let e = fw->Some_0;
                r is Err ==> (r == Err::<WriteOutcome, UsbError>(
                    UsbError::DriverDetach { iface: e.iface },
                ) || r == Err::<WriteOutcome, UsbError>(UsbError::Claim { iface: e.iface }) || r
                    == Err::<WriteOutcome, UsbError>(UsbError::Transfer { endpoint: e.address })
                    || (r matches Err(err) && err is LengthMismatch
                    && err->LengthMismatch_expected == WARTHOG_PACKET_DATA_LENGTH
                    && err->LengthMismatch_actual != WARTHOG_PACKET_DATA_LENGTH) || r == Err::<
                    WriteOutcome,
                    UsbError,
                >(UsbError::Release { iface: e.iface }))
            }
        }),
{
    if target_leds == current_leds && target_intensity == current_intensity {
        return Ok(WriteOutcome::NothingToUpdate);
    }
    let ep = match first_writable(endpoints) {
        None => {
            return Err(UsbError::EndpointNotFound);
        },
        Some(e) => e,
    };
    let had = match ensure_detached(handle, ep.iface) {
        Ok(b) => b,
        Err(e) => {
            return Err(e);
        },
    };
    match configure_endpoint(handle, &ep) {
        Ok(u) => u,
        Err(e) => {
            return Err(e);
        },
    };
    let wrote = match write_warthog_throttle_config(handle, ep.address, target_leds,
        target_intensity) {
        Ok(n) => n,
        Err(e) => {
            let _ = release_usb_endpoint(handle, ep.iface, had);
            return Err(e);
        },
    };
    match validate_write_length(wrote) {
        Ok(u) => u,
        Err(e) => {
            let _ = release_usb_endpoint(handle, ep.iface, had);
            return Err(e);
        },
    };
    match release_usb_endpoint(handle, ep.iface, had) {
        Ok(u) => u,
        Err(e) => {
            return Err(e);
        },
    };
    Ok(WriteOutcome::Written)
}

} // verus!
