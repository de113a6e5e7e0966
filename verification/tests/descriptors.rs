//! Tests of the descriptor walkers, typed views and derived figures.

use iousbhost::cursor::AssociatedDescriptors;
use iousbhost::cursor::DescriptorCursor;
use iousbhost::cursor::Descriptors;
use iousbhost::cursor::TypedAssociatedDescriptors;
use iousbhost::cursor::TypedDescriptors;
use iousbhost::types::DescriptorType;
use iousbhost::types::EndpointDirection;
use iousbhost::types::SynchronizationType;
use iousbhost::views::ConfigurationDescriptor;
use iousbhost::views::DeviceDescriptor;
use iousbhost::views::EndpointDescriptor;
use iousbhost::views::EndpointDescriptors;
use iousbhost::views::InterfaceAssociationDescriptor;
use iousbhost::views::InterfaceDescriptor;
use iousbhost::views::InterfaceDescriptors;
use iousbhost::views::SuperSpeedCompanionDescriptor;
use iousbhost::views::SuperSpeedPlusCompanionDescriptor;

/// A region holding, in order: a device descriptor, a configuration
/// descriptor, one interface and its two endpoints.
fn sample_region() -> Vec<u8> {
    let mut region = Vec::new();
    // Device descriptor, 18 bytes.
    region.extend_from_slice(&[
        18, 1, 0x10, 0x02, 0xEF, 0x02, 0x01, 64, 0x34, 0x12, 0x78, 0x56, 0x01, 0x00, 1, 2, 3, 1,
    ]);
    // Configuration descriptor, 9 bytes; total length covers the region.
    region.extend_from_slice(&[9, 2, 50, 0, 1, 1, 0, 0xA0, 50]);
    // Interface descriptor, 9 bytes.
    region.extend_from_slice(&[9, 4, 0, 0, 2, 3, 0, 0, 0]);
    // Endpoint descriptor: IN endpoint 1, interrupt, packet size 8.
    region.extend_from_slice(&[7, 5, 0x81, 0x03, 8, 0, 10]);
    // Endpoint descriptor: OUT endpoint 1, bulk, packet size 512.
    region.extend_from_slice(&[7, 5, 0x01, 0x02, 0x00, 0x02, 0]);
    assert_eq!(region.len(), 50);
    region
}

#[test]
fn walker_yields_all_records_in_order() {
    let region = sample_region();
    let mut walker = Descriptors::new(&region);
    let types: [u8; 5] = [1, 2, 4, 5, 5];
    let offsets: [usize; 5] = [0, 18, 27, 36, 43];
    for i in 0..5 {
        let h = walker.next().expect("record expected");
        assert_eq!(h.type_byte, types[i]);
        assert_eq!(h.offset, offsets[i]);
    }
    assert!(walker.next().is_none());
    assert!(walker.next().is_none());
}

#[test]
fn typed_walker_yields_exactly_the_endpoints() {
    let region = sample_region();
    let mut walker = TypedDescriptors::new(&region, 5);
    let first = walker.next().expect("first endpoint");
    assert_eq!(first.offset, 36);
    assert_eq!(first.type_byte, 5);
    let second = walker.next().expect("second endpoint");
    assert_eq!(second.offset, 43);
    assert_eq!(second.type_byte, 5);
    assert!(walker.next().is_none());
}

#[test]
fn association_scope_covers_the_interface_endpoints() {
    let region = sample_region();
    // Find the interface record first.
    let mut interfaces = TypedDescriptors::new(&region, 4);
    let interface = interfaces.next().expect("interface record");
    let mut scoped = AssociatedDescriptors::new(&region, &interface);
    let e1 = scoped.next().expect("first scoped record");
    assert_eq!(e1.offset, 36);
    let e2 = scoped.next().expect("second scoped record");
    assert_eq!(e2.offset, 43);
    assert!(scoped.next().is_none());
}

#[test]
fn association_scope_ends_at_the_next_interface() {
    let mut region = sample_region();
    // A second interface follows, with one endpoint of its own.
    region.extend_from_slice(&[9, 4, 1, 0, 1, 10, 0, 0, 0]);
    region.extend_from_slice(&[7, 5, 0x82, 0x02, 0, 2, 0]);
    let mut interfaces = TypedDescriptors::new(&region, 4);
    let first_interface = interfaces.next().expect("first interface");
    let mut scoped = TypedAssociatedDescriptors::new(&region, &first_interface, 5);
    assert_eq!(scoped.next().expect("endpoint").offset, 36);
    assert_eq!(scoped.next().expect("endpoint").offset, 43);
    // The second interface bounds the first one's scope.
    assert!(scoped.next().is_none());
    let second_interface = interfaces.next().expect("second interface");
    assert_eq!(second_interface.offset, 50);
    let mut scoped2 = TypedAssociatedDescriptors::new(&region, &second_interface, 5);
    assert_eq!(scoped2.next().expect("endpoint").offset, 59);
    assert!(scoped2.next().is_none());
}

#[test]
fn zero_length_record_stops_the_walk() {
    // A well-formed record followed by a record declaring length 0.
    let region: Vec<u8> = vec![2, 1, 0, 9, 1, 2, 3];
    let mut walker = Descriptors::new(&region);
    let h = walker.next().expect("leading record");
    assert_eq!(h.length, 2);
    assert!(walker.next().is_none());
}

#[test]
fn length_one_record_stops_the_walk() {
    let region: Vec<u8> = vec![3, 4, 0, 1, 9];
    let mut walker = Descriptors::new(&region);
    assert_eq!(walker.next().expect("leading record").length, 3);
    assert!(walker.next().is_none());
}

#[test]
fn overlong_record_stops_the_walk() {
    // The second record declares more bytes than the region holds.
    let region: Vec<u8> = vec![2, 1, 9, 5, 0];
    let mut walker = Descriptors::new(&region);
    assert_eq!(walker.next().expect("leading record").offset, 0);
    assert!(walker.next().is_none());
}

#[test]
fn walker_yields_at_most_half_the_region_length() {
    // The densest possible region: 2-byte records throughout.
    let mut region = Vec::new();
    for _ in 0..10 {
        region.extend_from_slice(&[2, 1]);
    }
    let mut walker = Descriptors::new(&region);
    let mut count: usize = 0;
    while walker.next().is_some() {
        count += 1;
    }
    assert_eq!(count, 10);
    assert!(2 * count <= region.len());
}

#[test]
fn cursor_advances_by_declared_length() {
    let region = sample_region();
    let mut cursor = DescriptorCursor::new(&region);
    assert!(cursor.has_record());
    let h = cursor.header();
    assert_eq!(h.length, 18);
    assert_eq!(h.type_byte, 1);
    cursor.advance();
    assert_eq!(cursor.pos, 18);
    assert!(cursor.has_record());
    assert_eq!(cursor.header().type_byte, 2);
}

#[test]
fn device_descriptor_fields() {
    let region = sample_region();
    let d = DeviceDescriptor::parse(&region, 0).expect("device descriptor");
    assert_eq!(d.length(), 18);
    assert_eq!(d.bcd_usb(), 0x0210);
    assert_eq!(d.device_class(), 0xEF);
    assert_eq!(d.device_subclass(), 0x02);
    assert_eq!(d.device_protocol(), 0x01);
    assert_eq!(d.max_packet_size(), 64);
    assert_eq!(d.vendor_id(), 0x1234);
    assert_eq!(d.product_id(), 0x5678);
    assert_eq!(d.bcd_device(), 0x0001);
    assert_eq!(d.manufacturer(), 1);
    assert_eq!(d.product(), 2);
    assert_eq!(d.serial_number(), 3);
    assert_eq!(d.configuration_count(), 1);
    assert!(matches!(d.descriptor_type(), DescriptorType::Device));
}

#[test]
fn device_descriptor_rejects_short_record() {
    let region: Vec<u8> = vec![4, 1, 0, 0];
    assert!(DeviceDescriptor::parse(&region, 0).is_none());
}

#[test]
fn configuration_descriptor_fields() {
    let region = sample_region();
    let c = ConfigurationDescriptor::parse(&region, 18).expect("configuration descriptor");
    assert_eq!(c.length(), 9);
    assert_eq!(c.total_length(), 50);
    assert_eq!(c.interface_count(), 1);
    assert_eq!(c.configuration_value(), 1);
    assert_eq!(c.configuration(), 0);
    assert_eq!(c.attributes(), 0xA0);
    assert_eq!(c.max_power(), 50);
}

#[test]
fn max_power_milliamps_follows_the_speed_table() {
    let region = sample_region();
    let c = ConfigurationDescriptor::parse(&region, 18).expect("configuration descriptor");
    // USB 2.0 speed classes use 2 mA units; the SuperSpeed classes 8 mA.
    let expected: [(u32, u32); 8] = [
        (0, 100),
        (1, 100),
        (2, 100),
        (3, 100),
        (4, 400),
        (5, 400),
        (6, 400),
        (7, 100),
    ];
    for (speed, milliamps) in expected {
        assert_eq!(c.max_power_milliamps(speed), milliamps);
    }
}

#[test]
fn interface_descriptor_fields() {
    let region = sample_region();
    let mut walker = InterfaceDescriptors::new(&region);
    let i = walker.next().expect("interface view");
    assert_eq!(i.interface_number(), 0);
    assert_eq!(i.alternate_setting(), 0);
    assert_eq!(i.endpoint_count(), 2);
    assert_eq!(i.interface_class(), 3);
    assert_eq!(i.interface_subclass(), 0);
    assert_eq!(i.interface_protocol(), 0);
    assert_eq!(i.interface(), 0);
    assert!(walker.next().is_none());
}

#[test]
fn interface_association_descriptor_fields() {
    let region: Vec<u8> = vec![8, 11, 0, 2, 14, 3, 0, 5];
    let a = InterfaceAssociationDescriptor::parse(&region, 0).expect("association view");
    assert_eq!(a.first_interface(), 0);
    assert_eq!(a.interface_count(), 2);
    assert_eq!(a.function_class(), 14);
    assert_eq!(a.function_subclass(), 3);
    assert_eq!(a.function(), 5);
}

#[test]
fn endpoint_walker_parses_scoped_endpoints() {
    let region = sample_region();
    let mut interfaces = TypedDescriptors::new(&region, 4);
    let interface = interfaces.next().expect("interface record");
    let mut endpoints = EndpointDescriptors::new(&region, &interface);
    let e1 = endpoints.next().expect("first endpoint view");
    assert_eq!(e1.endpoint_address(), 0x81);
    assert_eq!(e1.attributes(), 0x03);
    assert_eq!(e1.max_packet_size(), 8);
    assert_eq!(e1.interval(), 10);
    assert_eq!(e1.endpoint_number(), 1);
    assert!(matches!(e1.endpoint_direction(), EndpointDirection::In));
    let e2 = endpoints.next().expect("second endpoint view");
    assert_eq!(e2.endpoint_address(), 0x01);
    assert_eq!(e2.max_packet_size(), 512);
    assert!(matches!(e2.endpoint_direction(), EndpointDirection::Out));
    assert!(endpoints.next().is_none());
}

#[test]
fn endpoint_synchronization_type_reads_attribute_bits() {
    let region: Vec<u8> = vec![7, 5, 0x82, 0b0000_0101, 0, 4, 1];
    let e = EndpointDescriptor::parse(&region, 0).expect("endpoint view");
    assert!(matches!(e.synchronization_type(), SynchronizationType::Asynchronous));
    assert_eq!(e.size(), 7);
    assert_eq!(e.descriptor_type(), 5);
}

fn high_speed_periodic_endpoint() -> Vec<u8> {
    // Isochronous IN endpoint: packet size 1024 with one extra
    // transaction encoded in bits 11..13 of the raw field.
    let w: u16 = 1024 | (1 << 11);
    vec![7, 5, 0x81, 0x01, (w & 0xFF) as u8, (w >> 8) as u8, 4]
}

#[test]
fn high_speed_multiplier_and_burst() {
    let region = high_speed_periodic_endpoint();
    let e = EndpointDescriptor::parse(&region, 0).expect("endpoint view");
    assert_eq!(e.max_packet_size_with_device_speed(3), 1024);
    assert_eq!(e.multiplier(3, None, None), 2);
    assert_eq!(e.burst_size(3, None, None), 2048);
    // At full speed the mult bits do not apply.
    assert_eq!(e.multiplier(1, None, None), 1);
    assert_eq!(e.burst_size(1, None, None), 1024);
}

#[test]
fn super_speed_burst_uses_the_companion() {
    let ep_region: Vec<u8> = vec![7, 5, 0x81, 0x01, 0x00, 0x04, 1];
    let e = EndpointDescriptor::parse(&ep_region, 0).expect("endpoint view");
    // Companion: max burst 3 (4 packets per burst), 2 further bursts per
    // service opportunity (mult field 2).
    let comp_region: Vec<u8> = vec![6, 48, 3, 2, 0, 0];
    let c = SuperSpeedCompanionDescriptor::parse(&comp_region, 0).expect("companion view");
    assert_eq!(c.max_burst(), 3);
    assert_eq!(c.attributes(), 2);
    assert_eq!(e.multiplier(4, Some(&c), None), 3);
    assert_eq!(e.burst_size(4, Some(&c), None), 1024 * 4 * 3);
    // Without the companion the basic packet size stands.
    assert_eq!(e.multiplier(4, None, None), 1);
    assert_eq!(e.burst_size(4, None, None), 1024);
}

#[test]
fn super_speed_plus_isochronous_uses_exact_bytes_per_interval() {
    let ep_region: Vec<u8> = vec![7, 5, 0x81, 0x01, 0x00, 0x04, 1];
    let e = EndpointDescriptor::parse(&ep_region, 0).expect("endpoint view");
    // SuperSpeedPlus isochronous companion: 96000 bytes per interval.
    let n: u32 = 96000;
    let comp_region: Vec<u8> = vec![
        8,
        49,
        0,
        0,
        (n & 0xFF) as u8,
        ((n >> 8) & 0xFF) as u8,
        ((n >> 16) & 0xFF) as u8,
        ((n >> 24) & 0xFF) as u8,
    ];
    let c = SuperSpeedPlusCompanionDescriptor::parse(&comp_region, 0).expect("companion view");
    assert_eq!(c.bytes_per_interval(), 96000);
    assert_eq!(e.burst_size(5, None, Some(&c)), 96000);
}

#[test]
fn intervals_follow_the_speed_rules() {
    let region: Vec<u8> = vec![7, 5, 0x81, 0x03, 8, 0, 4];
    let e = EndpointDescriptor::parse(&region, 0).expect("endpoint view");
    // High speed: the field encodes two to the power (interval - 1)
    // microframes.
    assert_eq!(e.interval_microframes(3), 8);
    assert_eq!(e.interval_frames(3), 1);
    assert_eq!(e.interval_encoded_microframes(3), 4);
    // Full speed: the field counts frames of eight microframes each.
    assert_eq!(e.interval_microframes(1), 32);
    assert_eq!(e.interval_frames(1), 4);
    assert_eq!(e.interval_encoded_microframes(1), 5);
}

#[test]
fn full_speed_interval_ten_frames() {
    let region: Vec<u8> = vec![7, 5, 0x81, 0x03, 8, 0, 10];
    let e = EndpointDescriptor::parse(&region, 0).expect("endpoint view");
    assert_eq!(e.interval_microframes(1), 80);
    assert_eq!(e.interval_frames(1), 10);
    // floor(log2(80)) = 6.
    assert_eq!(e.interval_encoded_microframes(1), 6);
}

#[test]
fn max_streams_come_from_the_bulk_companion() {
    let region: Vec<u8> = vec![7, 5, 0x01, 0x02, 0x00, 0x04, 0];
    let e = EndpointDescriptor::parse(&region, 0).expect("endpoint view");
    let comp_region: Vec<u8> = vec![6, 48, 0, 5, 0, 0];
    let c = SuperSpeedCompanionDescriptor::parse(&comp_region, 0).expect("companion view");
    assert_eq!(e.max_streams_encoded(4, Some(&c)), 5);
    assert_eq!(e.max_streams(4, Some(&c)), 32);
    assert_eq!(e.max_streams_encoded(4, None), 0);
    assert_eq!(e.max_streams(4, None), 0);
    // A non-bulk endpoint has no streams.
    let iso_region: Vec<u8> = vec![7, 5, 0x81, 0x01, 0x00, 0x04, 1];
    let iso = EndpointDescriptor::parse(&iso_region, 0).expect("endpoint view");
    assert_eq!(iso.max_streams(4, Some(&c)), 0);
}

#[test]
fn get_interface_finds_the_first_match() {
    let mut region = sample_region();
    // A second interface numbered 1.
    region.extend_from_slice(&[9, 4, 1, 0, 1, 10, 0, 0, 0]);
    let i0 = iousbhost::views::get_interface(&region, 0).expect("interface 0");
    assert_eq!(i0.interface_number(), 0);
    assert_eq!(i0.interface_class(), 3);
    let i1 = iousbhost::views::get_interface_by_value(&region, 1).expect("interface 1");
    assert_eq!(i1.interface_number(), 1);
    assert_eq!(i1.interface_class(), 10);
    assert!(iousbhost::views::get_interface(&region, 2).is_none());
}
