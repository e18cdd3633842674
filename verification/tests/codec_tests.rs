use warthog_leds::codec::{
    decode, encode, validate_write_length, LEDState, BACKLIGHT_BIT, INTENSITY_BYTE_INDEX,
    LED_1_BIT, LED_2_BIT, LED_3_BIT, LED_4_BIT, LED_5_BIT, LED_BYTE_INDEX, MAX_INTENSITY,
    WARTHOG_PACKET_DATA_LENGTH,
};
use warthog_leds::errors::UsbError;

fn state_from_bits(bits: u8) -> LEDState {
    LEDState {
        backlight: bits & 1 != 0,
        led_1: bits & 2 != 0,
        led_2: bits & 4 != 0,
        led_3: bits & 8 != 0,
        led_4: bits & 16 != 0,
        led_5: bits & 32 != 0,
    }
}

#[test]
fn codec_round_trip_all_combinations() {
    for bits in 0u8..64 {
        let leds = state_from_bits(bits);
        for intensity in 0u8..=MAX_INTENSITY {
            let packet = encode(leds, intensity);
            assert_eq!(packet.len(), WARTHOG_PACKET_DATA_LENGTH);
            let (decoded_leds, decoded_intensity) = decode(&packet);
            assert_eq!(decoded_leds, leds);
            assert_eq!(decoded_intensity, intensity);
        }
    }
}

#[test]
fn encode_exact_packet_layout() {
    let leds = LEDState {
        backlight: true,
        led_1: true,
        led_2: false,
        led_3: false,
        led_4: false,
        led_5: false,
    };
    let packet = encode(leds, 2);
    assert_eq!(packet.len(), WARTHOG_PACKET_DATA_LENGTH);
    assert_eq!(packet[0], 0x01);
    assert_eq!(packet[1], 0x06);
    assert_eq!(packet[2], 0x04);
    assert_eq!(packet[LED_BYTE_INDEX], BACKLIGHT_BIT | LED_1_BIT);
    assert_eq!(packet[INTENSITY_BYTE_INDEX], 2);
    for k in INTENSITY_BYTE_INDEX + 1..WARTHOG_PACKET_DATA_LENGTH {
        assert_eq!(packet[k], 0);
    }
}

#[test]
fn encode_uses_distinct_bits() {
    let bits = [BACKLIGHT_BIT, LED_1_BIT, LED_2_BIT, LED_3_BIT, LED_4_BIT, LED_5_BIT];
    for (i, a) in bits.iter().enumerate() {
        assert_eq!(a.count_ones(), 1);
        for b in bits.iter().skip(i + 1) {
            assert_eq!(a & b, 0);
        }
    }
}

#[test]
fn decode_reads_mask_and_intensity() {
    let mut packet = vec![0u8; WARTHOG_PACKET_DATA_LENGTH];
    packet[LED_BYTE_INDEX] = LED_2_BIT | LED_5_BIT;
    packet[INTENSITY_BYTE_INDEX] = 5;
    let (leds, intensity) = decode(&packet);
    assert!(!leds.backlight && !leds.led_1 && leds.led_2 && !leds.led_3 && !leds.led_4
        && leds.led_5);
    assert_eq!(intensity, 5);
}

#[test]
fn decode_ignores_unknown_bits() {
    let mut packet = vec![0u8; WARTHOG_PACKET_DATA_LENGTH];
    packet[LED_BYTE_INDEX] = 0xff;
    let (leds, _) = decode(&packet);
    assert!(leds.backlight && leds.led_1 && leds.led_2 && leds.led_3 && leds.led_4 && leds.led_5);
    packet[LED_BYTE_INDEX] = 0xa0;
    let (leds, _) = decode(&packet);
    assert_eq!(
        leds,
        LEDState {
            backlight: false,
            led_1: false,
            led_2: false,
            led_3: false,
            led_4: false,
            led_5: false,
        }
    );
}

#[test]
fn validate_write_length_accepts_only_full_packet() {
    assert!(validate_write_length(WARTHOG_PACKET_DATA_LENGTH).is_ok());
    for n in [0usize, 1, 35, 37, 100] {
        match validate_write_length(n) {
            Err(UsbError::LengthMismatch { expected, actual }) => {
                assert_eq!(expected, WARTHOG_PACKET_DATA_LENGTH);
                assert_eq!(actual, n);
            },
            other => panic!("expected a length mismatch, got {:?}", other),
        }
    }
}

#[test]
fn led_state_union_and_clear() {
    let a = state_from_bits(0b000011);
    let b = state_from_bits(0b000110);
    let u = a.union(b);
    assert_eq!(u, state_from_bits(0b000111));
    let c = u.clear(a);
    assert_eq!(c, state_from_bits(0b000100));
    assert_eq!(LEDState::empty(), state_from_bits(0));
}
