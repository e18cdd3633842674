use warthog_leds::endpoints::{classify_endpoints, first_readable, first_writable, EndpointInfo};

fn ep(iface: u8, address: u8, interrupt: bool) -> EndpointInfo {
    EndpointInfo { config: 1, iface, setting: 0, address, interrupt }
}

#[test]
fn classify_partitions_interrupt_endpoints_by_direction() {
    let all = vec![
        ep(0, 0x81, true),   // interrupt in
        ep(0, 0x01, true),   // interrupt out
        ep(1, 0x82, false),  // bulk-like in: ignored
        ep(1, 0x02, false),  // bulk-like out: ignored
        ep(2, 0x83, true),   // second interrupt in
    ];
    let (readable, writable) = classify_endpoints(&all);
    assert_eq!(readable, vec![ep(0, 0x81, true), ep(2, 0x83, true)]);
    assert_eq!(writable, vec![ep(0, 0x01, true)]);
}

#[test]
fn classify_empty_descriptor_tree() {
    let (readable, writable) = classify_endpoints(&Vec::new());
    assert!(readable.is_empty());
    assert!(writable.is_empty());
}

#[test]
fn first_readable_picks_discovery_order() {
    let all = vec![ep(3, 0x01, true), ep(4, 0x81, true), ep(5, 0x82, true)];
    assert_eq!(first_readable(&all), Some(ep(4, 0x81, true)));
    assert_eq!(first_writable(&all), Some(ep(3, 0x01, true)));
}

#[test]
fn first_readable_none_without_interrupt_in() {
    // a writable interrupt endpoint and a non-interrupt in endpoint only
    let all = vec![ep(0, 0x01, true), ep(0, 0x81, false)];
    assert_eq!(first_readable(&all), None);
    assert_eq!(first_writable(&all), Some(ep(0, 0x01, true)));
    assert_eq!(first_writable(&vec![ep(0, 0x81, true)]), None);
}
