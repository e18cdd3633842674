use warthog_leds::codec::{
    encode, BACKLIGHT_BIT, INTENSITY_BYTE_INDEX, LED_1_BIT, LED_3_BIT, LED_BYTE_INDEX,
    WARTHOG_PACKET_DATA_LENGTH,
};
use warthog_leds::codec::LEDState;
use warthog_leds::endpoints::EndpointInfo;
use warthog_leds::errors::UsbError;
use warthog_leds::session::{decide_target_state, LEDOverrides, WriteOutcome};
use warthog_leds::sim::{SimAction, SimDevice};

const READ_IFACE: u8 = 0;
const READ_ADDR: u8 = 0x81;
const WRITE_IFACE: u8 = 1;
const WRITE_ADDR: u8 = 0x01;

fn throttle_endpoints() -> Vec<EndpointInfo> {
    vec![
        EndpointInfo { config: 1, iface: READ_IFACE, setting: 0, address: READ_ADDR, interrupt: true },
        EndpointInfo { config: 1, iface: WRITE_IFACE, setting: 0, address: WRITE_ADDR, interrupt: true },
    ]
}

fn leds(backlight: bool, led_1: bool, led_2: bool, led_3: bool, led_4: bool, led_5: bool) -> LEDState {
    LEDState { backlight, led_1, led_2, led_3, led_4, led_5 }
}

fn count(log: &[SimAction], action: SimAction) -> usize {
    log.iter().filter(|a| **a == action).count()
}

#[test]
fn endpoint_absence_fails_before_any_call() {
    // a device with no interrupt-in endpoint at all
    let mut dev = SimDevice::new(vec![EndpointInfo {
        config: 1,
        iface: WRITE_IFACE,
        setting: 0,
        address: WRITE_ADDR,
        interrupt: true,
    }]);
    let r = dev.read_configuration();
    assert_eq!(r, Err(UsbError::EndpointNotFound));
    assert!(dev.log.is_empty());
}

#[test]
fn no_op_write_issues_no_transfer() {
    let mut dev = SimDevice::new(throttle_endpoints());
    let current = leds(true, true, false, false, false, false);
    let r = dev.write_configuration(current, 2, current, 2);
    assert_eq!(r, Ok(WriteOutcome::NothingToUpdate));
    assert!(dev.log.is_empty());
    assert!(dev.last_written.is_none());
}

#[test]
fn length_mismatch_is_never_silent_success() {
    for reply in [0usize, 1, 35, 37] {
        let mut dev = SimDevice::new(throttle_endpoints());
        dev.write_reply = Some(reply);
        let current = leds(false, false, false, false, false, false);
        let target = leds(true, false, false, false, false, false);
        let r = dev.write_configuration(target, 2, current, 2);
        assert_eq!(
            r,
            Err(UsbError::LengthMismatch { expected: WARTHOG_PACKET_DATA_LENGTH, actual: reply })
        );
        // the interface is still released exactly once
        assert_eq!(count(&dev.log, SimAction::ReleaseInterface(WRITE_IFACE)), 1);
    }
}

#[test]
fn read_failure_releases_once_and_reports_transfer_error() {
    let mut dev = SimDevice::new(throttle_endpoints());
    dev.bind_kernel_driver(READ_IFACE);
    // read_data stays None: the read transfer fails after claim/configure;
    // the cleanup itself also fails, and its error must not mask the
    // transfer error
    dev.release_fails = true;
    let r = dev.read_configuration();
    assert_eq!(r, Err(UsbError::Transfer { endpoint: READ_ADDR }));
    assert_eq!(count(&dev.log, SimAction::ReleaseInterface(READ_IFACE)), 1);
    assert_eq!(count(&dev.log, SimAction::ClaimInterface(READ_IFACE)), 1);
    assert_eq!(count(&dev.log, SimAction::ReadTransfer(READ_ADDR)), 1);
}

#[test]
fn read_failure_releases_once_when_cleanup_succeeds() {
    let mut dev = SimDevice::new(throttle_endpoints());
    let r = dev.read_configuration();
    assert_eq!(r, Err(UsbError::Transfer { endpoint: READ_ADDR }));
    assert_eq!(count(&dev.log, SimAction::ReleaseInterface(READ_IFACE)), 1);
}

#[test]
fn driver_reattached_iff_detached_by_this_session() {
    // a kernel driver is bound: the session detaches and reattaches it
    let packet = encode(leds(true, true, false, false, false, false), 2);
    let mut dev = SimDevice::new(throttle_endpoints());
    dev.bind_kernel_driver(READ_IFACE);
    dev.read_data = Some(packet.clone());
    let r = dev.read_configuration();
    assert!(r.is_ok());
    assert_eq!(count(&dev.log, SimAction::DetachDriver(READ_IFACE)), 1);
    assert_eq!(count(&dev.log, SimAction::AttachDriver(READ_IFACE)), 1);
    assert!(dev.driver_active[READ_IFACE as usize]);

    // no kernel driver is bound: neither a detach nor a reattach happens
    let mut dev = SimDevice::new(throttle_endpoints());
    dev.read_data = Some(packet);
    let r = dev.read_configuration();
    assert!(r.is_ok());
    assert_eq!(count(&dev.log, SimAction::DetachDriver(READ_IFACE)), 0);
    assert_eq!(count(&dev.log, SimAction::AttachDriver(READ_IFACE)), 0);
    assert!(!dev.driver_active[READ_IFACE as usize]);
}

#[test]
fn detach_failure_aborts_before_claim() {
    let mut dev = SimDevice::new(throttle_endpoints());
    dev.bind_kernel_driver(READ_IFACE);
    dev.detach_fails = true;
    let r = dev.read_configuration();
    assert_eq!(r, Err(UsbError::DriverDetach { iface: READ_IFACE }));
    assert_eq!(count(&dev.log, SimAction::ClaimInterface(READ_IFACE)), 0);
    assert_eq!(count(&dev.log, SimAction::ReleaseInterface(READ_IFACE)), 0);
}

#[test]
fn claim_failure_reports_claim_error() {
    let mut dev = SimDevice::new(throttle_endpoints());
    dev.claim_fails = true;
    let r = dev.read_configuration();
    assert_eq!(r, Err(UsbError::Claim { iface: READ_IFACE }));
}

#[test]
fn terminal_release_failure_propagates() {
    let packet = encode(leds(false, false, true, false, false, false), 3);
    let mut dev = SimDevice::new(throttle_endpoints());
    dev.read_data = Some(packet);
    dev.release_fails = true;
    let r = dev.read_configuration();
    assert_eq!(r, Err(UsbError::Release { iface: READ_IFACE }));
}

#[test]
fn write_transfer_failure_reports_transfer_error() {
    let mut dev = SimDevice::new(throttle_endpoints());
    // write_reply stays None: the transfer fails
    let current = leds(false, false, false, false, false, false);
    let target = leds(false, false, false, false, false, true);
    let r = dev.write_configuration(target, 2, current, 2);
    assert_eq!(r, Err(UsbError::Transfer { endpoint: WRITE_ADDR }));
    assert_eq!(count(&dev.log, SimAction::ReleaseInterface(WRITE_IFACE)), 1);
}

#[test]
fn end_to_end_scenario() {
    // current device state: backlight and the first LED on, intensity 2
    let current_state = leds(true, true, false, false, false, false);
    let mut dev = SimDevice::new(throttle_endpoints());
    dev.read_data = Some(encode(current_state, 2));
    let (current_leds, current_intensity) = dev.read_configuration().unwrap();
    assert_eq!(current_leds, current_state);
    assert_eq!(current_intensity, 2);

    // requested: third LED on, backlight off, intensity left unspecified
    let overrides = LEDOverrides {
        backlight: Some(false),
        led_1: None,
        led_2: None,
        led_3: Some(true),
        led_4: None,
        led_5: None,
        intensity: None,
    };
    let (target_leds, target_intensity) =
        decide_target_state(current_leds, current_intensity, &overrides);
    assert_eq!(target_leds, leds(false, true, false, true, false, false));
    assert_eq!(target_intensity, 2);

    // the target differs, so a write is issued and must transfer the full
    // packet for the operation to be reported successful
    dev.write_reply = Some(WARTHOG_PACKET_DATA_LENGTH);
    let r = dev.write_configuration(target_leds, target_intensity, current_leds, current_intensity);
    assert_eq!(r, Ok(WriteOutcome::Written));
    let written = dev.last_written.clone().unwrap();
    assert_eq!(written.len(), WARTHOG_PACKET_DATA_LENGTH);
    assert_eq!(written[LED_BYTE_INDEX], LED_1_BIT | LED_3_BIT);
    assert_ne!(written[LED_BYTE_INDEX] & BACKLIGHT_BIT, BACKLIGHT_BIT);
    assert_eq!(written[INTENSITY_BYTE_INDEX], 2);
    assert_eq!(count(&dev.log, SimAction::WriteTransfer(WRITE_ADDR)), 1);
}

#[test]
fn merge_without_overrides_keeps_current_state() {
    let current = leds(true, false, true, false, true, false);
    let (merged, intensity) = decide_target_state(current, 4, &LEDOverrides::none());
    assert_eq!(merged, current);
    assert_eq!(intensity, 4);
}

#[test]
fn merge_applies_every_override() {
    let current = leds(false, false, false, false, false, false);
    let overrides = LEDOverrides {
        backlight: Some(true),
        led_1: Some(true),
        led_2: Some(true),
        led_3: Some(true),
        led_4: Some(true),
        led_5: Some(true),
        intensity: Some(5),
    };
    let (merged, intensity) = decide_target_state(current, 0, &overrides);
    assert_eq!(merged, leds(true, true, true, true, true, true));
    assert_eq!(intensity, 5);
}
