//! Typed read-only views over descriptor records. A view is parsed from a
//! region at a record offset; construction validates the record's kind and
//! minimum length, so every field of a view is a plain copy of the bytes it
//! overlays and no accessor needs a further bounds check.
//!
//! Two families of accessors derive figures instead of reading fields
//! directly: the configuration's maximum power draw, whose raw unit depends
//! on the negotiated speed class, and the endpoint's capacity figures,
//! which combine the endpoint descriptor with the optional SuperSpeed and
//! SuperSpeedPlus companion descriptors.

use vstd::prelude::*;
use crate::cursor::record_at_spec;
use crate::cursor::record_len_spec;
use crate::cursor::record_type_spec;
use crate::cursor::walk_offsets_spec;
use crate::cursor::DescriptorCursor;
use crate::cursor::DescriptorHeader;
use crate::cursor::TypedDescriptors;
use crate::cursor::TypedAssociatedDescriptors;
use crate::types::DescriptorType;
use crate::types::EndpointDirection;
use crate::types::SynchronizationType;

verus! {

/// The 16-bit little-endian value at bytes `i` and `i + 1`.
pub open spec fn le16_at_spec(region: Seq<u8>, i: int) -> u16 {
    (region[i] + region[i + 1] * 256) as u16
}

/// The 32-bit little-endian value at bytes `i` to `i + 3`.
pub open spec fn le32_at_spec(region: Seq<u8>, i: int) -> u32 {
    (region[i] + region[i + 1] * 256 + region[i + 2] * 65536 + region[i + 3] * 16777216) as u32
}

pub(crate) fn le16_at(region: &[u8], i: usize) -> (r: u16)
    requires
        i + 2 <= region@.len(),
    ensures
        r == le16_at_spec(region@, i as int),
{
    region[i] as u16 + (region[i + 1] as u16) * 256
}

pub(crate) fn le32_at(region: &[u8], i: usize) -> (r: u32)
    requires
        i + 4 <= region@.len(),
    ensures
        r == le32_at_spec(region@, i as int),
{
    region[i] as u32 + (region[i + 1] as u32) * 256 + (region[i + 2] as u32) * 65536 + (region[i
        + 3] as u32) * 16777216
}

/// Whether a record of kind `type_byte` and at least `min_len` bytes
/// begins at `i`: the common validity test of every typed view.
pub open spec fn typed_record_at_spec(
    region: Seq<u8>,
    i: int,
    type_byte: u8,
    min_len: int,
) -> bool {
    &&& record_at_spec(region, i)
    &&& record_type_spec(region, i) == type_byte
    &&& record_len_spec(region, i) >= min_len
}

/// Check the common validity test at run time.
pub(crate) fn check_typed_record(region: &[u8], offset: usize, type_byte: u8, min_len: u8) -> (r: bool)
    ensures
        r == typed_record_at_spec(region@, offset as int, type_byte, min_len as int),
{
    let n = region.len();
    let cursor = DescriptorCursor { region, pos: offset };
    if !cursor.has_record() {
        return false;
    }
    proof {
        assert(offset + 2 <= n);
    }
    region[offset + 1] == type_byte && region[offset] >= min_len
}

/// The device descriptor: the 18-byte record describing the device itself.
#[derive(Clone, Copy, PartialEq, Eq, Structural, Debug)]
pub struct DeviceDescriptor {
    pub offset: usize,
    pub length: u8,
    pub bcd_usb: u16,
    pub device_class: u8,
    pub device_subclass: u8,
    pub device_protocol: u8,
    pub max_packet_size: u8,
    pub vendor_id: u16,
    pub product_id: u16,
    pub bcd_device: u16,
    pub manufacturer: u8,
    pub product: u8,
    pub serial_number: u8,
    pub configuration_count: u8,
}

impl DeviceDescriptor {
    /// The view over the record at `i`, if a device descriptor of full
    /// length begins there.
    pub open spec fn parse_spec(region: Seq<u8>, i: int) -> Option<DeviceDescriptor> {
        if typed_record_at_spec(region, i, 1, 18) {
            Option::Some(
                DeviceDescriptor {
                    offset: i as usize,
                    length: region[i],
                    bcd_usb: le16_at_spec(region, i + 2),
                    device_class: region[i + 4],
                    device_subclass: region[i + 5],
                    device_protocol: region[i + 6],
                    max_packet_size: region[i + 7],
                    vendor_id: le16_at_spec(region, i + 8),
                    product_id: le16_at_spec(region, i + 10),
                    bcd_device: le16_at_spec(region, i + 12),
                    manufacturer: region[i + 14],
                    product: region[i + 15],
                    serial_number: region[i + 16],
                    configuration_count: region[i + 17],
                },
            )
        } else {
            Option::None
        }
    }

    /// Parse the record at `offset` as a device descriptor.
    pub fn parse(region: &[u8], offset: usize) -> (r: Option<DeviceDescriptor>)
        ensures
            r == Self::parse_spec(region@, offset as int),
    {
        if !check_typed_record(region, offset, 1, 18) {
            return Option::None;
        }
        Option::Some(
            DeviceDescriptor {
                offset,
                length: region[offset],
                bcd_usb: le16_at(region, offset + 2),
                device_class: region[offset + 4],
                device_subclass: region[offset + 5],
                device_protocol: region[offset + 6],
                max_packet_size: region[offset + 7],
                vendor_id: le16_at(region, offset + 8),
                product_id: le16_at(region, offset + 10),
                bcd_device: le16_at(region, offset + 12),
                manufacturer: region[offset + 14],
                product: region[offset + 15],
                serial_number: region[offset + 16],
                configuration_count: region[offset + 17],
            },
        )
    }

    pub fn length(&self) -> (r: u8)
        ensures
            r == self.length,
    {
        self.length
    }

    pub fn descriptor_type(&self) -> (r: DescriptorType)
        ensures
            r == DescriptorType::Device,
    {
        DescriptorType::Device
    }

    pub fn bcd_usb(&self) -> (r: u16)
        ensures
            r == self.bcd_usb,
    {
        self.bcd_usb
    }

    pub fn device_class(&self) -> (r: u8)
        ensures
            r == self.device_class,
    {
        self.device_class
    }

    pub fn device_subclass(&self) -> (r: u8)
        ensures
            r == self.device_subclass,
    {
        self.device_subclass
    }

    pub fn device_protocol(&self) -> (r: u8)
        ensures
            r == self.device_protocol,
    {
        self.device_protocol
    }

    pub fn max_packet_size(&self) -> (r: u8)
        ensures
            r == self.max_packet_size,
    {
        self.max_packet_size
    }

    pub fn vendor_id(&self) -> (r: u16)
        ensures
            r == self.vendor_id,
    {
        self.vendor_id
    }

    pub fn product_id(&self) -> (r: u16)
        ensures
            r == self.product_id,
    {
        self.product_id
    }

    pub fn bcd_device(&self) -> (r: u16)
        ensures
            r == self.bcd_device,
    {
        self.bcd_device
    }

    pub fn manufacturer(&self) -> (r: u8)
        ensures
            r == self.manufacturer,
    {
        self.manufacturer
    }

    pub fn product(&self) -> (r: u8)
        ensures
            r == self.product,
    {
        self.product
    }

    pub fn serial_number(&self) -> (r: u8)
        ensures
            r == self.serial_number,
    {
        self.serial_number
    }

    pub fn configuration_count(&self) -> (r: u8)
        ensures
            r == self.configuration_count,
    {
        self.configuration_count
    }
}

/// The unit, in milliamps, of the configuration's raw `MaxPower` byte for
/// a speed class: 8 mA for the SuperSpeed classes, 2 mA otherwise.
pub open spec fn power_unit_spec(usb_device_speed: u32) -> u32 {
    if 4 <= usb_device_speed <= 6 {
        8
    } else {
        2
    }
}

/// The maximum power draw, in milliamps, a configuration declares at the
/// given speed.
pub open spec fn max_power_milliamps_spec(max_power: u8, usb_device_speed: u32) -> u32 {
    (max_power * power_unit_spec(usb_device_speed)) as u32
}

/// The configuration descriptor: the 9-byte record heading the region that
/// holds a configuration's interface and endpoint records.
#[derive(Clone, Copy, PartialEq, Eq, Structural, Debug)]
pub struct ConfigurationDescriptor {
    pub offset: usize,
    pub length: u8,
    pub total_length: u16,
    pub interface_count: u8,
    pub configuration_value: u8,
    pub configuration: u8,
    pub attributes: u8,
    pub max_power: u8,
}

impl ConfigurationDescriptor {
    /// The view over the record at `i`, if a configuration descriptor of
    /// full length begins there.
    pub open spec fn parse_spec(region: Seq<u8>, i: int) -> Option<ConfigurationDescriptor> {
        if typed_record_at_spec(region, i, 2, 9) {
            Option::Some(
                ConfigurationDescriptor {
                    offset: i as usize,
                    length: region[i],
                    total_length: le16_at_spec(region, i + 2),
                    interface_count: region[i + 4],
                    configuration_value: region[i + 5],
                    configuration: region[i + 6],
                    attributes: region[i + 7],
                    max_power: region[i + 8],
                },
            )
        } else {
            Option::None
        }
    }

    /// Parse the record at `offset` as a configuration descriptor.
    pub fn parse(region: &[u8], offset: usize) -> (r: Option<ConfigurationDescriptor>)
        ensures
            r == Self::parse_spec(region@, offset as int),
    {
        if !check_typed_record(region, offset, 2, 9) {
            return Option::None;
        }
        Option::Some(
            ConfigurationDescriptor {
                offset,
                length: region[offset],
                total_length: le16_at(region, offset + 2),
                interface_count: region[offset + 4],
                configuration_value: region[offset + 5],
                configuration: region[offset + 6],
                attributes: region[offset + 7],
                max_power: region[offset + 8],
            },
        )
    }

    pub fn length(&self) -> (r: u8)
        ensures
            r == self.length,
    {
        self.length
    }

    pub fn descriptor_type(&self) -> (r: DescriptorType)
        ensures
            r == DescriptorType::Configuration,
    {
        DescriptorType::Configuration
    }

    pub fn total_length(&self) -> (r: u16)
        ensures
            r == self.total_length,
    {
        self.total_length
    }

    pub fn interface_count(&self) -> (r: u8)
        ensures
            r == self.interface_count,
    {
        self.interface_count
    }

    pub fn configuration_value(&self) -> (r: u8)
        ensures
            r == self.configuration_value,
    {
        self.configuration_value
    }

    pub fn configuration(&self) -> (r: u8)
        ensures
            r == self.configuration,
    {
        self.configuration
    }

    pub fn attributes(&self) -> (r: u8)
        ensures
            r == self.attributes,
    {
        self.attributes
    }

    pub fn max_power(&self) -> (r: u8)
        ensures
            r == self.max_power,
    {
        self.max_power
    }

    /// The maximum power draw in milliamps: the raw `MaxPower` byte scaled
    /// by the unit of the given speed class — 8 mA per unit for the
    /// SuperSpeed classes, 2 mA per unit for the USB 2.0 classes.
    pub fn max_power_milliamps(&self, usb_device_speed: u32) -> (r: u32)
        ensures
            r == max_power_milliamps_spec(self.max_power, usb_device_speed),
    {
        let unit: u32 = if 4 <= usb_device_speed && usb_device_speed <= 6 {
            8
        } else {
            2
        };
        (self.max_power as u32) * unit
    }
}

/// The interface descriptor: the 9-byte record heading one alternate
/// setting of an interface.
#[derive(Clone, Copy, PartialEq, Eq, Structural, Debug)]
pub struct InterfaceDescriptor {
    pub offset: usize,
    pub length: u8,
    pub interface_number: u8,
    pub alternate_setting: u8,
    pub endpoint_count: u8,
    pub interface_class: u8,
    pub interface_subclass: u8,
    pub interface_protocol: u8,
    pub interface: u8,
}

impl InterfaceDescriptor {
    /// The view over the record at `i`, if an interface descriptor of full
    /// length begins there.
    pub open spec fn parse_spec(region: Seq<u8>, i: int) -> Option<InterfaceDescriptor> {
        if typed_record_at_spec(region, i, 4, 9) {
            Option::Some(
                InterfaceDescriptor {
                    offset: i as usize,
                    length: region[i],
                    interface_number: region[i + 2],
                    alternate_setting: region[i + 3],
                    endpoint_count: region[i + 4],
                    interface_class: region[i + 5],
                    interface_subclass: region[i + 6],
                    interface_protocol: region[i + 7],
                    interface: region[i + 8],
                },
            )
        } else {
            Option::None
        }
    }

    /// Parse the record at `offset` as an interface descriptor.
    pub fn parse(region: &[u8], offset: usize) -> (r: Option<InterfaceDescriptor>)
        ensures
            r == Self::parse_spec(region@, offset as int),
    {
        if !check_typed_record(region, offset, 4, 9) {
            return Option::None;
        }
        Option::Some(
            InterfaceDescriptor {
                offset,
                length: region[offset],
                interface_number: region[offset + 2],
                alternate_setting: region[offset + 3],
                endpoint_count: region[offset + 4],
                interface_class: region[offset + 5],
                interface_subclass: region[offset + 6],
                interface_protocol: region[offset + 7],
                interface: region[offset + 8],
            },
        )
    }

    pub fn length(&self) -> (r: u8)
        ensures
            r == self.length,
    {
        self.length
    }

    pub fn descriptor_type(&self) -> (r: DescriptorType)
        ensures
            r == DescriptorType::Interface,
    {
        DescriptorType::Interface
    }

    pub fn interface_number(&self) -> (r: u8)
        ensures
            r == self.interface_number,
    {
        self.interface_number
    }

    pub fn alternate_setting(&self) -> (r: u8)
        ensures
            r == self.alternate_setting,
    {
        self.alternate_setting
    }

    pub fn endpoint_count(&self) -> (r: u8)
        ensures
            r == self.endpoint_count,
    {
        self.endpoint_count
    }

    pub fn interface_class(&self) -> (r: u8)
        ensures
            r == self.interface_class,
    {
        self.interface_class
    }

    pub fn interface_subclass(&self) -> (r: u8)
        ensures
            r == self.interface_subclass,
    {
        self.interface_subclass
    }

    pub fn interface_protocol(&self) -> (r: u8)
        ensures
            r == self.interface_protocol,
    {
        self.interface_protocol
    }

    pub fn interface(&self) -> (r: u8)
        ensures
            r == self.interface,
    {
        self.interface
    }
}

/// The interface association descriptor: the 8-byte record grouping a run
/// of interfaces into one function.
#[derive(Clone, Copy, PartialEq, Eq, Structural, Debug)]
pub struct InterfaceAssociationDescriptor {
    pub offset: usize,
    pub length: u8,
    pub first_interface: u8,
    pub interface_count: u8,
    pub function_class: u8,
    pub function_subclass: u8,
    pub function_protocol: u8,
    pub function: u8,
}

impl InterfaceAssociationDescriptor {
    /// The view over the record at `i`, if an interface association
    /// descriptor of full length begins there.
    pub open spec fn parse_spec(region: Seq<u8>, i: int) -> Option<InterfaceAssociationDescriptor> {
        if typed_record_at_spec(region, i, 11, 8) {
            Option::Some(
                InterfaceAssociationDescriptor {
                    offset: i as usize,
                    length: region[i],
                    first_interface: region[i + 2],
                    interface_count: region[i + 3],
                    function_class: region[i + 4],
                    function_subclass: region[i + 5],
                    function_protocol: region[i + 6],
                    function: region[i + 7],
                },
            )
        } else {
            Option::None
        }
    }

    /// Parse the record at `offset` as an interface association
    /// descriptor.
    pub fn parse(region: &[u8], offset: usize) -> (r: Option<InterfaceAssociationDescriptor>)
        ensures
            r == Self::parse_spec(region@, offset as int),
    {
        if !check_typed_record(region, offset, 11, 8) {
            return Option::None;
        }
        Option::Some(
            InterfaceAssociationDescriptor {
                offset,
                length: region[offset],
                first_interface: region[offset + 2],
                interface_count: region[offset + 3],
                function_class: region[offset + 4],
                function_subclass: region[offset + 5],
                function_protocol: region[offset + 6],
                function: region[offset + 7],
            },
        )
    }

    pub fn length(&self) -> (r: u8)
        ensures
            r == self.length,
    {
        self.length
    }

    pub fn descriptor_type(&self) -> (r: DescriptorType)
        ensures
            r == DescriptorType::InterfaceAssociation,
    {
        DescriptorType::InterfaceAssociation
    }

    pub fn first_interface(&self) -> (r: u8)
        ensures
            r == self.first_interface,
    {
        self.first_interface
    }

    pub fn interface_count(&self) -> (r: u8)
        ensures
            r == self.interface_count,
    {
        self.interface_count
    }

    pub fn function_class(&self) -> (r: u8)
        ensures
            r == self.function_class,
    {
        self.function_class
    }

    pub fn function_subclass(&self) -> (r: u8)
        ensures
            r == self.function_subclass,
    {
        self.function_subclass
    }

    pub fn function(&self) -> (r: u8)
        ensures
            r == self.function,
    {
        self.function
    }
}


/// The packet size proper: bits 0..11 of the raw `wMaxPacketSize` field.
pub open spec fn base_packet_size_spec(w: u16) -> u16 {
    (w % 2048) as u16
}

/// The extra-transaction count a high-speed periodic endpoint encodes in
/// bits 11..13 of `wMaxPacketSize`.
pub open spec fn high_speed_mult_spec(w: u16) -> u16 {
    ((w / 2048) % 4) as u16
}

/// The endpoint number: bits 0..4 of the endpoint address.
pub open spec fn endpoint_number_spec(address: u8) -> u8 {
    (address % 16) as u8
}

/// The direction bit of the endpoint address: 1 is IN, 0 is OUT.
pub open spec fn endpoint_direction_value_spec(address: u8) -> u8 {
    (address / 128) as u8
}

/// The transfer type: bits 0..2 of the endpoint attributes.
pub open spec fn endpoint_type_value_spec(attributes: u8) -> u8 {
    (attributes % 4) as u8
}

/// The synchronization mode of an isochronous endpoint: bits 2..4 of the
/// attributes.
pub open spec fn synchronization_value_spec(attributes: u8) -> u8 {
    ((attributes / 4) % 4) as u8
}

/// Whether the endpoint is periodic: isochronous or interrupt.
pub open spec fn is_periodic_spec(attributes: u8) -> bool {
    endpoint_type_value_spec(attributes) == 1 || endpoint_type_value_spec(attributes) == 3
}

/// Whether the speed code names one of the SuperSpeed classes.
pub open spec fn is_super_speed_code_spec(usb_device_speed: u32) -> bool {
    4 <= usb_device_speed <= 6
}

/// The floor of the base-2 logarithm; 0 for inputs below 2.
pub open spec fn floor_log2_spec(n: u32) -> int
    decreases n,
{
    if n < 2 {
        0int
    } else {
        1 + floor_log2_spec(n / 2)
    }
}

/// The floor logarithm of a value is no larger than the value.
proof fn lemma_floor_log2_bound(n: u32)
    ensures
        0 <= floor_log2_spec(n) <= n,
    decreases n,
{
    if n >= 2 {
        lemma_floor_log2_bound(n / 2);
    }
}

/// The superspeed companion record refining an endpoint's burst and stream
/// capability.
#[derive(Clone, Copy, PartialEq, Eq, Structural, Debug)]
pub struct SuperSpeedCompanionDescriptor {
    pub offset: usize,
    pub length: u8,
    pub max_burst: u8,
    pub attributes: u8,
    pub bytes_per_interval: u16,
}

impl SuperSpeedCompanionDescriptor {
    /// The view over the record at `i`, if a SuperSpeed endpoint companion
    /// of full length begins there.
    pub open spec fn parse_spec(region: Seq<u8>, i: int) -> Option<SuperSpeedCompanionDescriptor> {
        if typed_record_at_spec(region, i, 48, 6) {
            Option::Some(
                SuperSpeedCompanionDescriptor {
                    offset: i as usize,
                    length: region[i],
                    max_burst: region[i + 2],
                    attributes: region[i + 3],
                    bytes_per_interval: le16_at_spec(region, i + 4),
                },
            )
        } else {
            Option::None
        }
    }

    /// Parse the record at `offset` as a SuperSpeed endpoint companion.
    pub fn parse(region: &[u8], offset: usize) -> (r: Option<SuperSpeedCompanionDescriptor>)
        ensures
            r == Self::parse_spec(region@, offset as int),
    {
        if !check_typed_record(region, offset, 48, 6) {
            return Option::None;
        }
        Option::Some(
            SuperSpeedCompanionDescriptor {
                offset,
                length: region[offset],
                max_burst: region[offset + 2],
                attributes: region[offset + 3],
                bytes_per_interval: le16_at(region, offset + 4),
            },
        )
    }

    pub fn length(&self) -> (r: u8)
        ensures
            r == self.length,
    {
        self.length
    }

    pub fn descriptor_type(&self) -> (r: DescriptorType)
        ensures
            r == DescriptorType::SuperSpeedEndpointCompanion,
    {
        DescriptorType::SuperSpeedEndpointCompanion
    }

    pub fn max_burst(&self) -> (r: u8)
        ensures
            r == self.max_burst,
    {
        self.max_burst
    }

    pub fn attributes(&self) -> (r: u8)
        ensures
            r == self.attributes,
    {
        self.attributes
    }

    pub fn bytes_per_interval(&self) -> (r: u16)
        ensures
            r == self.bytes_per_interval,
    {
        self.bytes_per_interval
    }
}

/// The SuperSpeedPlus isochronous companion record carrying the exact byte
/// budget of a service interval.
#[derive(Clone, Copy, PartialEq, Eq, Structural, Debug)]
pub struct SuperSpeedPlusCompanionDescriptor {
    pub offset: usize,
    pub length: u8,
    pub bytes_per_interval: u32,
}

impl SuperSpeedPlusCompanionDescriptor {
    /// The view over the record at `i`, if a SuperSpeedPlus isochronous
    /// companion of full length begins there.
    pub open spec fn parse_spec(region: Seq<u8>, i: int) -> Option<
        SuperSpeedPlusCompanionDescriptor,
    > {
        if typed_record_at_spec(region, i, 49, 8) {
            Option::Some(
                SuperSpeedPlusCompanionDescriptor {
                    offset: i as usize,
                    length: region[i],
                    bytes_per_interval: le32_at_spec(region, i + 4),
                },
            )
        } else {
            Option::None
        }
    }

    /// Parse the record at `offset` as a SuperSpeedPlus isochronous
    /// companion.
    pub fn parse(region: &[u8], offset: usize) -> (r: Option<SuperSpeedPlusCompanionDescriptor>)
        ensures
            r == Self::parse_spec(region@, offset as int),
    {
        if !check_typed_record(region, offset, 49, 8) {
            return Option::None;
        }
        Option::Some(
            SuperSpeedPlusCompanionDescriptor {
                offset,
                length: region[offset],
                bytes_per_interval: le32_at(region, offset + 4),
            },
        )
    }

    pub fn length(&self) -> (r: u8)
        ensures
            r == self.length,
    {
        self.length
    }

    pub fn descriptor_type(&self) -> (r: DescriptorType)
        ensures
            r == DescriptorType::SuperSpeedPlusIsochronousEndpointCompanion,
    {
        DescriptorType::SuperSpeedPlusIsochronousEndpointCompanion
    }

    pub fn bytes_per_interval(&self) -> (r: u32)
        ensures
            r == self.bytes_per_interval,
    {
        self.bytes_per_interval
    }
}

/// The value of an optional companion reference, for use in contracts.
pub open spec fn ss_companion_of_spec(c: Option<&SuperSpeedCompanionDescriptor>) -> Option<
    SuperSpeedCompanionDescriptor,
> {
    match c {
        Option::Some(x) => Option::Some(*x),
        Option::None => Option::None,
    }
}

/// The value of an optional companion reference, for use in contracts.
pub open spec fn ssp_companion_of_spec(c: Option<&SuperSpeedPlusCompanionDescriptor>) -> Option<
    SuperSpeedPlusCompanionDescriptor,
> {
    match c {
        Option::Some(x) => Option::Some(*x),
        Option::None => Option::None,
    }
}

/// The packet-per-opportunity multiplier of an endpoint at the given
/// speed: from the SuperSpeed companion's attributes for an isochronous
/// SuperSpeed endpoint, from bits 11..13 of `wMaxPacketSize` for a
/// high-speed periodic endpoint, and 1 otherwise — in particular whenever
/// a needed companion descriptor is absent.
pub open spec fn multiplier_spec(
    usb_device_speed: u32,
    attributes: u8,
    w: u16,
    ss: Option<SuperSpeedCompanionDescriptor>,
) -> u8 {
    if is_super_speed_code_spec(usb_device_speed) {
        if endpoint_type_value_spec(attributes) == 1 && ss is Some {
            ((ss->0.attributes % 4) + 1) as u8
        } else {
            1
        }
    } else if usb_device_speed == 3 && is_periodic_spec(attributes) {
        (high_speed_mult_spec(w) + 1) as u8
    } else {
        1
    }
}

/// The byte budget of one service opportunity of an endpoint at the given
/// speed: the SuperSpeedPlus companion's exact figure when present for an
/// isochronous SuperSpeedPlus endpoint; otherwise packet size times burst
/// times multiplier from the SuperSpeed companion; falling back to the
/// basic fields when no companion is present.
pub open spec fn burst_size_spec(
    usb_device_speed: u32,
    attributes: u8,
    w: u16,
    ss: Option<SuperSpeedCompanionDescriptor>,
    ssp: Option<SuperSpeedPlusCompanionDescriptor>,
) -> u32 {
    if 5 <= usb_device_speed <= 6 && endpoint_type_value_spec(attributes) == 1 && ssp is Some {
        ssp->0.bytes_per_interval
    } else if is_super_speed_code_spec(usb_device_speed) && ss is Some {
        (base_packet_size_spec(w) * (ss->0.max_burst + 1) * multiplier_spec(
            usb_device_speed,
            attributes,
            w,
            ss,
        )) as u32
    } else if usb_device_speed == 3 && is_periodic_spec(attributes) {
        (base_packet_size_spec(w) * (high_speed_mult_spec(w) + 1)) as u32
    } else {
        base_packet_size_spec(w) as u32
    }
}

/// The service interval in 125-microsecond microframes: the power of two
/// the descriptor encodes for high speed and faster (0 when the encoding
/// is out of range), and eight microframes per declared frame for the
/// USB 2.0 low and full speeds.
pub open spec fn interval_microframes_spec(usb_device_speed: u32, interval: u8) -> u32 {
    if usb_device_speed >= 3 {
        if 1 <= interval <= 16 {
            (1u32 << ((interval - 1) as u32))
        } else {
            0
        }
    } else {
        (interval * 8) as u32
    }
}

/// The service interval in 1-millisecond frames: the microframe count
/// divided by eight for high speed and faster, the declared frame count
/// otherwise.
pub open spec fn interval_frames_spec(usb_device_speed: u32, interval: u8) -> u32 {
    if usb_device_speed >= 3 {
        (interval_microframes_spec(usb_device_speed, interval) / 8) as u32
    } else {
        interval as u32
    }
}

/// The interval as a power-of-two microframe exponent: the raw field for
/// high speed and faster, the floor logarithm of the microframe count for
/// the USB 2.0 speeds.
pub open spec fn interval_encoded_microframes_spec(usb_device_speed: u32, interval: u8) -> int {
    if usb_device_speed >= 3 {
        interval as int
    } else {
        floor_log2_spec((interval * 8) as u32)
    }
}

/// The stream-count exponent of a SuperSpeed bulk endpoint: bits 0..5 of
/// the companion's attributes; 0 when no streams are available.
pub open spec fn max_streams_encoded_spec(
    usb_device_speed: u32,
    attributes: u8,
    ss: Option<SuperSpeedCompanionDescriptor>,
) -> u32 {
    if is_super_speed_code_spec(usb_device_speed) && endpoint_type_value_spec(attributes) == 2
        && ss is Some {
        (ss->0.attributes % 32) as u32
    } else {
        0
    }
}

/// The stream count of a SuperSpeed bulk endpoint: two to the encoded
/// exponent, or 0 when the endpoint has no streams.
pub open spec fn max_streams_spec(
    usb_device_speed: u32,
    attributes: u8,
    ss: Option<SuperSpeedCompanionDescriptor>,
) -> u32 {
    if max_streams_encoded_spec(usb_device_speed, attributes, ss) == 0 {
        0
    } else {
        1u32 << max_streams_encoded_spec(usb_device_speed, attributes, ss)
    }
}

/// The endpoint descriptor: the 7-byte record describing one endpoint of
/// an interface's alternate setting.
#[derive(Clone, Copy, PartialEq, Eq, Structural, Debug)]
pub struct EndpointDescriptor {
    pub offset: usize,
    pub length: u8,
    pub endpoint_address: u8,
    pub attributes: u8,
    pub max_packet_size: u16,
    pub interval: u8,
}

impl EndpointDescriptor {
    /// The view over the record at `i`, if an endpoint descriptor of full
    /// length begins there.
    pub open spec fn parse_spec(region: Seq<u8>, i: int) -> Option<EndpointDescriptor> {
        if typed_record_at_spec(region, i, 5, 7) {
            Option::Some(
                EndpointDescriptor {
                    offset: i as usize,
                    length: region[i],
                    endpoint_address: region[i + 2],
                    attributes: region[i + 3],
                    max_packet_size: le16_at_spec(region, i + 4),
                    interval: region[i + 6],
                },
            )
        } else {
            Option::None
        }
    }

    /// Parse the record at `offset` as an endpoint descriptor.
    pub fn parse(region: &[u8], offset: usize) -> (r: Option<EndpointDescriptor>)
        ensures
            r == Self::parse_spec(region@, offset as int),
    {
        if !check_typed_record(region, offset, 5, 7) {
            return Option::None;
        }
        Option::Some(
            EndpointDescriptor {
                offset,
                length: region[offset],
                endpoint_address: region[offset + 2],
                attributes: region[offset + 3],
                max_packet_size: le16_at(region, offset + 4),
                interval: region[offset + 6],
            },
        )
    }

    /// The size of the fixed part of an endpoint descriptor.
    pub fn size(&self) -> (r: u8)
        ensures
            r == 7,
    {
        7
    }

    pub fn descriptor_type(&self) -> (r: u8)
        ensures
            r == 5,
    {
        5
    }

    pub fn endpoint_address(&self) -> (r: u8)
        ensures
            r == self.endpoint_address,
    {
        self.endpoint_address
    }

    pub fn interval(&self) -> (r: u8)
        ensures
            r == self.interval,
    {
        self.interval
    }

    pub fn attributes(&self) -> (r: u8)
        ensures
            r == self.attributes,
    {
        self.attributes
    }

    pub fn max_packet_size(&self) -> (r: u16)
        ensures
            r == self.max_packet_size,
    {
        self.max_packet_size
    }

    /// The synchronization mode an isochronous endpoint declares in bits
    /// 2..4 of its attributes.
    pub fn synchronization_type(&self) -> (r: SynchronizationType)
        ensures
            r == SynchronizationType::from_value_spec(synchronization_value_spec(self.attributes)),
    {
        SynchronizationType::from((self.attributes / 4) % 4)
    }

    /// The direction encoded in bit 7 of the endpoint address.
    pub fn endpoint_direction(&self) -> (r: EndpointDirection)
        ensures
            r == EndpointDirection::from_value_spec(
                endpoint_direction_value_spec(self.endpoint_address),
            ),
    {
        EndpointDirection::from(self.endpoint_address / 128)
    }

    /// The endpoint number in bits 0..4 of the endpoint address.
    pub fn endpoint_number(&self) -> (r: u8)
        ensures
            r == endpoint_number_spec(self.endpoint_address),
    {
        self.endpoint_address % 16
    }

    /// The packet size proper at the given speed: bits 0..11 of the raw
    /// field, which every speed class reserves for the packet size.
    pub fn max_packet_size_with_device_speed(&self, usb_device_speed: u32) -> (r: u16)
        ensures
            r == base_packet_size_spec(self.max_packet_size),
    {
        self.max_packet_size % 2048
    }

    /// The byte budget of one service opportunity, combining the endpoint
    /// fields with whichever companion descriptor the speed class uses;
    /// absent companions fall back to the basic fields.
    pub fn burst_size(
        &self,
        usb_device_speed: u32,
        super_speed_companion: Option<&SuperSpeedCompanionDescriptor>,
        super_speed_plus_companion: Option<&SuperSpeedPlusCompanionDescriptor>,
    ) -> (r: u32)
        ensures
            r == burst_size_spec(
                usb_device_speed,
                self.attributes,
                self.max_packet_size,
                ss_companion_of_spec(super_speed_companion),
                ssp_companion_of_spec(super_speed_plus_companion),
            ),
    {
        let iso = self.attributes % 4 == 1;
        if 5 <= usb_device_speed && usb_device_speed <= 6 && iso {
            if let Option::Some(ssp) = super_speed_plus_companion {
                return ssp.bytes_per_interval;
            }
        }
        if 4 <= usb_device_speed && usb_device_speed <= 6 {
            if let Option::Some(ss) = super_speed_companion {
                let mult = self.multiplier(
                    usb_device_speed,
                    super_speed_companion,
                    super_speed_plus_companion,
                );
                let base: u32 = (self.max_packet_size % 2048) as u32;
                let burst: u32 = ss.max_burst as u32 + 1;
                let m: u32 = mult as u32;
                proof {
                    assert(m <= 4);
                    assert(base * burst <= 2047 * 256 && base * burst * m <= 2047 * 256 * 4)
                        by (nonlinear_arith)
                        requires
                            base <= 2047,
                            burst <= 256,
                            m <= 4,
                    ;
                }
                return base * burst * m;
            }
            return (self.max_packet_size % 2048) as u32;
        }
        if usb_device_speed == 3 && (iso || self.attributes % 4 == 3) {
            let base: u32 = (self.max_packet_size % 2048) as u32;
            let m: u32 = ((self.max_packet_size / 2048) % 4 + 1) as u32;
            proof {
                assert(base * m <= 2047 * 4) by (nonlinear_arith)
                    requires
                        base <= 2047,
                        m <= 4,
                ;
            }
            return base * m;
        }
        (self.max_packet_size % 2048) as u32
    }

    /// The packet-per-opportunity multiplier at the given speed; 1
    /// whenever a needed companion descriptor is absent.
    pub fn multiplier(
        &self,
        usb_device_speed: u32,
        super_speed_companion: Option<&SuperSpeedCompanionDescriptor>,
        super_speed_plus_companion: Option<&SuperSpeedPlusCompanionDescriptor>,
    ) -> (r: u8)
        ensures
            r == multiplier_spec(
                usb_device_speed,
                self.attributes,
                self.max_packet_size,
                ss_companion_of_spec(super_speed_companion),
            ),
    {
        if 4 <= usb_device_speed && usb_device_speed <= 6 {
            if self.attributes % 4 == 1 {
                if let Option::Some(ss) = super_speed_companion {
                    return ss.attributes % 4 + 1;
                }
            }
            return 1;
        }
        if usb_device_speed == 3 && (self.attributes % 4 == 1 || self.attributes % 4 == 3) {
            return ((self.max_packet_size / 2048) % 4) as u8 + 1;
        }
        1
    }

    /// The interval as a power-of-two microframe exponent.
    pub fn interval_encoded_microframes(&self, usb_device_speed: u32) -> (r: u32)
        ensures
            r == interval_encoded_microframes_spec(usb_device_speed, self.interval),
    {
        if usb_device_speed >= 3 {
            return self.interval as u32;
        }
        let mut m: u32 = self.interval as u32 * 8;
        let ghost m0: u32 = m;
        let mut e: u32 = 0;
        proof {
            lemma_floor_log2_bound(m0);
        }
        while m >= 2
            invariant
                e + floor_log2_spec(m) == floor_log2_spec(m0),
                0 <= floor_log2_spec(m),
                floor_log2_spec(m0) <= m0,
                m0 <= 2040,
            decreases m,
        {
            proof {
                lemma_floor_log2_bound(m / 2);
            }
            m = m / 2;
            e = e + 1;
        }
        e
    }

    /// The service interval in 125-microsecond microframes.
    pub fn interval_microframes(&self, usb_device_speed: u32) -> (r: u32)
        ensures
            r == interval_microframes_spec(usb_device_speed, self.interval),
    {
        if usb_device_speed >= 3 {
            if 1 <= self.interval && self.interval <= 16 {
                1u32 << ((self.interval - 1) as u32)
            } else {
                0
            }
        } else {
            self.interval as u32 * 8
        }
    }

    /// The service interval in 1-millisecond frames.
    pub fn interval_frames(&self, usb_device_speed: u32) -> (r: u32)
        ensures
            r == interval_frames_spec(usb_device_speed, self.interval),
    {
        if usb_device_speed >= 3 {
            self.interval_microframes(usb_device_speed) / 8
        } else {
            self.interval as u32
        }
    }

    /// The stream-count exponent of a SuperSpeed bulk endpoint.
    pub fn max_streams_encoded(
        &self,
        usb_device_speed: u32,
        super_speed_companion: Option<&SuperSpeedCompanionDescriptor>,
    ) -> (r: u32)
        ensures
            r == max_streams_encoded_spec(
                usb_device_speed,
                self.attributes,
                ss_companion_of_spec(super_speed_companion),
            ),
    {
        if 4 <= usb_device_speed && usb_device_speed <= 6 && self.attributes % 4 == 2 {
            if let Option::Some(ss) = super_speed_companion {
                return (ss.attributes % 32) as u32;
            }
        }
        0
    }

    /// The stream count of a SuperSpeed bulk endpoint; 0 when it has no
    /// streams.
    pub fn max_streams(
        &self,
        usb_device_speed: u32,
        super_speed_companion: Option<&SuperSpeedCompanionDescriptor>,
    ) -> (r: u32)
        ensures
            r == max_streams_spec(
                usb_device_speed,
                self.attributes,
                ss_companion_of_spec(super_speed_companion),
            ),
    {
        let e = self.max_streams_encoded(usb_device_speed, super_speed_companion);
        if e == 0 {
            0
        } else {
            proof {
                assert(e < 32);
            }
            1u32 << e
        }
    }
}

/// A single-pass walker yielding the region's interface descriptors as
/// typed views.
pub struct InterfaceDescriptors<'a> {
    pub inner: TypedDescriptors<'a>,
}

impl<'a> InterfaceDescriptors<'a> {
    /// The record offsets the walker has still to visit.
    pub open spec fn remaining_spec(self) -> Seq<int> {
        self.inner.remaining_spec()
    }

    /// A walker over the region's interface descriptors.
    pub fn new(region: &'a [u8]) -> (r: InterfaceDescriptors<'a>)
        ensures
            r.inner.region == region,
            r.remaining_spec() == walk_offsets_spec(
                region@,
                0,
                Option::Some(4u8),
                Option::None,
            ),
    {
        InterfaceDescriptors { inner: TypedDescriptors::new(region, 4) }
    }

    /// The next interface descriptor, or `None` when the walk ends or the
    /// next interface record is shorter than an interface descriptor.
    pub fn next(&mut self) -> (r: Option<InterfaceDescriptor>)
        ensures
            final(self).inner.region == old(self).inner.region,
            old(self).remaining_spec().len() > 0 ==> {
                &&& r == InterfaceDescriptor::parse_spec(
                    old(self).inner.region@,
                    old(self).remaining_spec()[0],
                )
                &&& final(self).remaining_spec() =~= old(self).remaining_spec().skip(1)
            },
            old(self).remaining_spec().len() == 0 ==> r is None
                && final(self).remaining_spec().len() == 0,
    {
        match self.inner.next() {
            Option::Some(h) => InterfaceDescriptor::parse(self.inner.region, h.offset),
            Option::None => Option::None,
        }
    }
}

/// A single-pass walker yielding the region's interface association
/// descriptors as typed views.
pub struct InterfaceAssociationDescriptors<'a> {
    pub inner: TypedDescriptors<'a>,
}

impl<'a> InterfaceAssociationDescriptors<'a> {
    /// The record offsets the walker has still to visit.
    pub open spec fn remaining_spec(self) -> Seq<int> {
        self.inner.remaining_spec()
    }

    /// A walker over the region's interface association descriptors.
    pub fn new(region: &'a [u8]) -> (r: InterfaceAssociationDescriptors<'a>)
        ensures
            r.inner.region == region,
            r.remaining_spec() == walk_offsets_spec(
                region@,
                0,
                Option::Some(11u8),
                Option::None,
            ),
    {
        InterfaceAssociationDescriptors { inner: TypedDescriptors::new(region, 11) }
    }

    /// The next interface association descriptor, or `None` when the walk
    /// ends or the next matching record is shorter than an association
    /// descriptor.
    pub fn next(&mut self) -> (r: Option<InterfaceAssociationDescriptor>)
        ensures
            final(self).inner.region == old(self).inner.region,
            old(self).remaining_spec().len() > 0 ==> {
                &&& r == InterfaceAssociationDescriptor::parse_spec(
                    old(self).inner.region@,
                    old(self).remaining_spec()[0],
                )
                &&& final(self).remaining_spec() =~= old(self).remaining_spec().skip(1)
            },
            old(self).remaining_spec().len() == 0 ==> r is None
                && final(self).remaining_spec().len() == 0,
    {
        match self.inner.next() {
            Option::Some(h) => InterfaceAssociationDescriptor::parse(self.inner.region, h.offset),
            Option::None => Option::None,
        }
    }
}

/// A single-pass walker yielding the endpoint descriptors scoped to one
/// interface record, as typed views.
pub struct EndpointDescriptors<'a> {
    pub inner: TypedAssociatedDescriptors<'a>,
}

impl<'a> EndpointDescriptors<'a> {
    /// The record offsets the walker has still to visit.
    pub open spec fn remaining_spec(self) -> Seq<int> {
        self.inner.remaining_spec()
    }

    /// A walker over the endpoint records owned by the record
    /// `interface`, which must be a well-formed record of the region.
    pub fn new(region: &'a [u8], interface: &DescriptorHeader) -> (r: EndpointDescriptors<'a>)
        requires
            record_at_spec(region@, interface.offset as int),
            interface.length == record_len_spec(region@, interface.offset as int),
            interface.type_byte == record_type_spec(region@, interface.offset as int),
        ensures
            r.inner.region == region,
            r.remaining_spec() == walk_offsets_spec(
                region@,
                interface.offset + interface.length,
                Option::Some(5u8),
                Option::Some(interface.type_byte),
            ),
    {
        EndpointDescriptors { inner: TypedAssociatedDescriptors::new(region, interface, 5) }
    }

    /// The next endpoint descriptor in the interface's scope, or `None`
    /// when the scope ends or the next endpoint record is shorter than an
    /// endpoint descriptor.
    pub fn next(&mut self) -> (r: Option<EndpointDescriptor>)
        ensures
            final(self).inner.region == old(self).inner.region,
            old(self).remaining_spec().len() > 0 ==> {
                &&& r == EndpointDescriptor::parse_spec(
                    old(self).inner.region@,
                    old(self).remaining_spec()[0],
                )
                &&& final(self).remaining_spec() =~= old(self).remaining_spec().skip(1)
            },
            old(self).remaining_spec().len() == 0 ==> r is None
                && final(self).remaining_spec().len() == 0,
    {
        match self.inner.next() {
            Option::Some(h) => EndpointDescriptor::parse(self.inner.region, h.offset),
            Option::None => Option::None,
        }
    }
}


/// The offsets of the interface descriptors whose interface number is
/// `number`, in region order.
pub open spec fn numbered_interface_offsets_spec(region: Seq<u8>, i: int, number: u8) -> Seq<int>
    decreases region.len() - i,
    when 0 <= i
{
    if record_at_spec(region, i) {
        if typed_record_at_spec(region, i, 4, 9) && region[i + 2] == number {
            seq![i] + numbered_interface_offsets_spec(region, i + region[i], number)
        } else {
            numbered_interface_offsets_spec(region, i + region[i], number)
        }
    } else {
        Seq::<int>::empty()
    }
}

/// The first interface descriptor of the region with the given interface
/// number, or `None` when the region holds none before its end or first
/// malformed record.
pub fn get_interface(region: &[u8], interface_number: u8) -> (r: Option<InterfaceDescriptor>)
    ensures
        ({
            let offs = numbered_interface_offsets_spec(region@, 0, interface_number);
            &&& offs.len() > 0 ==> r == InterfaceDescriptor::parse_spec(region@, offs[0])
                && r is Some
            &&& offs.len() == 0 ==> r is None
        }),
{
    let n = region.len();
    let mut pos: usize = 0;
    loop
        invariant
            n == region@.len(),
            numbered_interface_offsets_spec(region@, pos as int, interface_number)
                =~= numbered_interface_offsets_spec(region@, 0, interface_number),
        decreases region@.len() - pos,
    {
        let cursor = DescriptorCursor { region, pos };
        if !cursor.has_record() {
            return Option::None;
        }
        proof {
            assert(pos + 2 <= n);
        }
        let len = region[pos];
        let next = pos + len as usize;
        if region[pos + 1] == 4 && len >= 9 {
            proof {
                assert(pos + 9 <= n);
            }
            if region[pos + 2] == interface_number {
                proof {
                    let offs = numbered_interface_offsets_spec(
                        region@,
                        pos as int,
                        interface_number,
                    );
                    assert(offs =~= seq![pos as int] + numbered_interface_offsets_spec(
                        region@,
                        next as int,
                        interface_number,
                    ));
                }
                return InterfaceDescriptor::parse(region, pos);
            }
        }
        pos = next;
    }
}

/// The first interface descriptor with the given interface number, as
/// `get_interface` finds it.
pub fn get_interface_by_value(region: &[u8], interface_number: u8) -> (r: Option<
    InterfaceDescriptor,
>)
    ensures
        ({
            let offs = numbered_interface_offsets_spec(region@, 0, interface_number);
            &&& offs.len() > 0 ==> r == InterfaceDescriptor::parse_spec(region@, offs[0])
                && r is Some
            &&& offs.len() == 0 ==> r is None
        }),
{
    get_interface(region, interface_number)
}


/// A walker over the region's interface descriptors, as
/// `InterfaceDescriptors::new` builds it.
pub fn interface_descriptors<'a>(region: &'a [u8]) -> (r: InterfaceDescriptors<'a>)
    ensures
        r.inner.region == region,
        r.remaining_spec() == walk_offsets_spec(region@, 0, Option::Some(4u8), Option::None),
{
    InterfaceDescriptors::new(region)
}

/// A walker over the region's interface association descriptors, as
/// `InterfaceAssociationDescriptors::new` builds it.
pub fn interface_association_descriptors<'a>(region: &'a [u8]) -> (r:
    InterfaceAssociationDescriptors<'a>)
    ensures
        r.inner.region == region,
        r.remaining_spec() == walk_offsets_spec(region@, 0, Option::Some(11u8), Option::None),
{
    InterfaceAssociationDescriptors::new(region)
}

/// A walker over the endpoint descriptors owned by the interface record,
/// as `EndpointDescriptors::new` builds it.
pub fn endpoint_descriptors<'a>(region: &'a [u8], interface: &DescriptorHeader) -> (r:
    EndpointDescriptors<'a>)
    requires
        record_at_spec(region@, interface.offset as int),
        interface.length == record_len_spec(region@, interface.offset as int),
        interface.type_byte == record_type_spec(region@, interface.offset as int),
    ensures
        r.inner.region == region,
        r.remaining_spec() == walk_offsets_spec(
            region@,
            interface.offset + interface.length,
            Option::Some(5u8),
            Option::Some(interface.type_byte),
        ),
{
    EndpointDescriptors::new(region, interface)
}

} // verus!
