use warthog_leds::errors::UsbError;
use warthog_leds::session::{create_context, find_endpoints, open_device, THROTTLE_PID, VID};

#[test]
fn locating_the_throttle_reports_the_right_step() {
    // With no throttle attached the locate step must report the device as
    // not found; where the USB subsystem itself is unavailable, context
    // creation is the step that fails. With a throttle attached, opening it
    // and walking its descriptors must succeed.
    match create_context() {
        Err(e) => assert_eq!(e, UsbError::ContextCreation),
        Ok(ctx) => match open_device(&ctx, VID, THROTTLE_PID) {
            Err(e) => assert_eq!(e, UsbError::DeviceNotFound),
            Ok((device, _handle)) => {
                let r = find_endpoints(&device);
                assert!(matches!(r, Ok(_) | Err(UsbError::DescriptorRead)));
            },
        },
    }
}
