//! The fixed-length status packet layout: an LED bitmask byte and an
//! intensity byte at fixed positions inside a packet of
//! `WARTHOG_PACKET_DATA_LENGTH` bytes, and the conversions between that
//! layout and the semantic LED-set / intensity values.

use vstd::prelude::*;

use crate::errors::UsbError;

verus! {

/// Length of the status packet exchanged with the device.
pub const WARTHOG_PACKET_DATA_LENGTH: usize = 36;

/// Position of the LED bitmask byte inside the status packet.
pub const LED_BYTE_INDEX: usize = 3;

/// Position of the intensity byte inside the status packet.
pub const INTENSITY_BYTE_INDEX: usize = 4;

/// Brightest valid intensity; valid intensities are 0 ..= 5 inclusive.
pub const MAX_INTENSITY: u8 = 5;

/// Bit of the backlight flag inside the LED bitmask byte.
pub const BACKLIGHT_BIT: u8 = 0x08;

/// Bit of the first indicator LED inside the LED bitmask byte.
pub const LED_1_BIT: u8 = 0x04;

/// Bit of the second indicator LED inside the LED bitmask byte.
pub const LED_2_BIT: u8 = 0x02;

/// Bit of the third indicator LED inside the LED bitmask byte.
pub const LED_3_BIT: u8 = 0x10;

/// Bit of the fourth indicator LED inside the LED bitmask byte.
pub const LED_4_BIT: u8 = 0x01;

/// Bit of the fifth indicator LED inside the LED bitmask byte.
pub const LED_5_BIT: u8 = 0x40;

/// A set over the symbolic flags {BACKLIGHT, LED_1 .. LED_5}:
/// order-insensitive, supports union, clearing and equality.
#[derive(Clone, Copy, PartialEq, Eq, Structural, Debug)]
pub struct LEDState {
    pub backlight: bool,
    pub led_1: bool,
    pub led_2: bool,
    pub led_3: bool,
    pub led_4: bool,
    pub led_5: bool,
}

impl LEDState {
    /// The set with every flag off.
    pub fn empty() -> (r: LEDState)
        ensures
            !r.backlight && !r.led_1 && !r.led_2 && !r.led_3 && !r.led_4 && !r.led_5,
    {
        LEDState { backlight: false, led_1: false, led_2: false, led_3: false, led_4: false, led_5: false }
    }

    /// Union: a flag is on in the result exactly when it is on in either set.
    pub fn union(self, other: LEDState) -> (r: LEDState)
        ensures
            r.backlight == (self.backlight || other.backlight),
            r.led_1 == (self.led_1 || other.led_1),
            r.led_2 == (self.led_2 || other.led_2),
            r.led_3 == (self.led_3 || other.led_3),
            r.led_4 == (self.led_4 || other.led_4),
            r.led_5 == (self.led_5 || other.led_5),
    {
        LEDState {
            backlight: self.backlight || other.backlight,
            led_1: self.led_1 || other.led_1,
            led_2: self.led_2 || other.led_2,
            led_3: self.led_3 || other.led_3,
            led_4: self.led_4 || other.led_4,
            led_5: self.led_5 || other.led_5,
        }
    }

    /// Intersection-complement: a flag is on in the result exactly when it is
    /// on in `self` and off in `other`.
    pub fn clear(self, other: LEDState) -> (r: LEDState)
        ensures
            r.backlight == (self.backlight && !other.backlight),
            r.led_1 == (self.led_1 && !other.led_1),
            r.led_2 == (self.led_2 && !other.led_2),
            r.led_3 == (self.led_3 && !other.led_3),
            r.led_4 == (self.led_4 && !other.led_4),
            r.led_5 == (self.led_5 && !other.led_5),
    {
        LEDState {
            backlight: self.backlight && !other.backlight,
            led_1: self.led_1 && !other.led_1,
            led_2: self.led_2 && !other.led_2,
            led_3: self.led_3 && !other.led_3,
            led_4: self.led_4 && !other.led_4,
            led_5: self.led_5 && !other.led_5,
        }
    }
}

/// The LED bitmask byte that stands for the given set: each flag occupies its
/// own fixed, distinct bit position.
pub open spec fn led_mask(s: LEDState) -> u8 {
    (if s.backlight { BACKLIGHT_BIT } else { 0 })
        | (if s.led_1 { LED_1_BIT } else { 0 })
        | (if s.led_2 { LED_2_BIT } else { 0 })
        | (if s.led_3 { LED_3_BIT } else { 0 })
        | (if s.led_4 { LED_4_BIT } else { 0 })
        | (if s.led_5 { LED_5_BIT } else { 0 })
}

/// The LED set encoded by a bitmask byte; bits outside the six flag positions
/// carry no meaning and are ignored.
pub open spec fn leds_of_mask(b: u8) -> LEDState {
    LEDState {
        backlight: b & BACKLIGHT_BIT != 0,
        led_1: b & LED_1_BIT != 0,
        led_2: b & LED_2_BIT != 0,
        led_3: b & LED_3_BIT != 0,
        led_4: b & LED_4_BIT != 0,
        led_5: b & LED_5_BIT != 0,
    }
}

proof fn lemma_mask_bits(bl: bool, l1: bool, l2: bool, l3: bool, l4: bool, l5: bool)
    by (bit_vector)
    ensures
        ({
            let m = (if bl { 0x08u8 } else { 0 }) | (if l1 { 0x04u8 } else { 0 })
                | (if l2 { 0x02u8 } else { 0 }) | (if l3 { 0x10u8 } else { 0 })
                | (if l4 { 0x01u8 } else { 0 }) | (if l5 { 0x40u8 } else { 0 });
            ((m & 0x08u8 != 0) == bl) && ((m & 0x04u8 != 0) == l1) && ((m & 0x02u8 != 0) == l2)
                && ((m & 0x10u8 != 0) == l3) && ((m & 0x01u8 != 0) == l4) && ((m & 0x40u8 != 0)
                == l5)
        }),
{
}

/// Codec inverse law: decoding the bitmask byte encoded from any LED set
/// gives that set back, for every one of the 64 flag combinations.
pub proof fn lemma_codec_inverse(s: LEDState)
    ensures
        leds_of_mask(led_mask(s)) == s,
{
    lemma_mask_bits(s.backlight, s.led_1, s.led_2, s.led_3, s.led_4, s.led_5);
}

/// Build the status packet that requests the given LED set and intensity.
/// The first three bytes are the device's fixed command header; every byte
/// after the intensity is zero.
pub fn encode(leds: LEDState, intensity: u8) -> (packet: Vec<u8>)
    requires
        intensity <= MAX_INTENSITY,
    ensures
        packet@.len() == WARTHOG_PACKET_DATA_LENGTH,
        packet@[LED_BYTE_INDEX as int] == led_mask(leds),
        packet@[INTENSITY_BYTE_INDEX as int] == intensity,
        packet@[0] == 0x01u8 && packet@[1] == 0x06u8 && packet@[2] == 0x04u8,
        forall|k: int| INTENSITY_BYTE_INDEX < k < WARTHOG_PACKET_DATA_LENGTH ==> packet@[k] == 0u8,
{
    let mut packet: Vec<u8> = Vec::new();
    packet.push(0x01);
    packet.push(0x06);
    packet.push(0x04);
    let mask: u8 = (if leds.backlight { BACKLIGHT_BIT } else { 0 })
        | (if leds.led_1 { LED_1_BIT } else { 0 })
        | (if leds.led_2 { LED_2_BIT } else { 0 })
        | (if leds.led_3 { LED_3_BIT } else { 0 })
        | (if leds.led_4 { LED_4_BIT } else { 0 })
        | (if leds.led_5 { LED_5_BIT } else { 0 });
    packet.push(mask);
    packet.push(intensity);
    let mut k: usize = INTENSITY_BYTE_INDEX + 1;
    while k < WARTHOG_PACKET_DATA_LENGTH
        invariant
            INTENSITY_BYTE_INDEX < k <= WARTHOG_PACKET_DATA_LENGTH,
            packet@.len() == k,
            packet@[LED_BYTE_INDEX as int] == led_mask(leds),
            packet@[INTENSITY_BYTE_INDEX as int] == intensity,
            packet@[0] == 0x01u8 && packet@[1] == 0x06u8 && packet@[2] == 0x04u8,
            forall|j: int| INTENSITY_BYTE_INDEX < j < k ==> packet@[j] == 0u8,
        decreases WARTHOG_PACKET_DATA_LENGTH - k,
    {
        packet.push(0);
        k = k + 1;
    }
    packet
}

/// Read the LED set and intensity out of a status packet of the fixed
/// protocol length.
pub fn decode(packet: &Vec<u8>) -> (r: (LEDState, u8))
    requires
        packet@.len() == WARTHOG_PACKET_DATA_LENGTH,
    ensures
        r.0 == leds_of_mask(packet@[LED_BYTE_INDEX as int]),
        r.1 == packet@[INTENSITY_BYTE_INDEX as int],
{
    let mask: u8 = packet[LED_BYTE_INDEX];
    let leds = LEDState {
        backlight: mask & BACKLIGHT_BIT != 0,
        led_1: mask & LED_1_BIT != 0,
        led_2: mask & LED_2_BIT != 0,
        led_3: mask & LED_3_BIT != 0,
        led_4: mask & LED_4_BIT != 0,
        led_5: mask & LED_5_BIT != 0,
    };
    (leds, packet[INTENSITY_BYTE_INDEX])
}

/// Validate the byte count a write transfer reported: only the full fixed
/// packet length counts as success, any other count is a hard error, never a
/// partial success.
pub fn validate_write_length(written: usize) -> (r: Result<(), UsbError>)
    ensures
        r is Ok <==> written == WARTHOG_PACKET_DATA_LENGTH,
        written != WARTHOG_PACKET_DATA_LENGTH ==> r == Err::<(), UsbError>(
            UsbError::LengthMismatch { expected: WARTHOG_PACKET_DATA_LENGTH, actual: written },
        ),
{
    if written == WARTHOG_PACKET_DATA_LENGTH {
        Ok(())
    } else {
        Err(UsbError::LengthMismatch { expected: WARTHOG_PACKET_DATA_LENGTH, actual: written })
    }
}

} // verus!
