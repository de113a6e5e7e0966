//! The closed sets of codes used by the descriptor format and the
//! host-controller protocol: descriptor kinds, device speeds, link states,
//! the coarse states of the four lifecycle machines, and message statuses.
//! Each enum carries an exact two-way mapping to its raw wire value.

use vstd::prelude::*;

verus! {

/// The kind tag carried in the second byte of every descriptor record.
#[derive(Clone, Copy, PartialEq, Eq, Structural, Debug)]
pub enum DescriptorType {
    Device,
    Configuration,
    String,
    Interface,
    Endpoint,
    DeviceQualifier,
    OtherSpeedConfig,
    InterfacePower,
    OTG,
    Debug,
    InterfaceAssociation,
    CapabilityDescriptor,
    DeviceCapability,
    HID,
    Report,
    Physical,
    Hub,
    SuperSpeedHub,
    SuperSpeedEndpointCompanion,
    SuperSpeedPlusIsochronousEndpointCompanion,
    Other(u8),
}

impl DescriptorType {
    pub open spec fn value_spec(self) -> u8 {
        match self {
            DescriptorType::Device => 1,
            DescriptorType::Configuration => 2,
            DescriptorType::String => 3,
            DescriptorType::Interface => 4,
            DescriptorType::Endpoint => 5,
            DescriptorType::DeviceQualifier => 6,
            DescriptorType::OtherSpeedConfig => 7,
            DescriptorType::InterfacePower => 8,
            DescriptorType::OTG => 9,
            DescriptorType::Debug => 10,
            DescriptorType::InterfaceAssociation => 11,
            DescriptorType::CapabilityDescriptor => 15,
            DescriptorType::DeviceCapability => 16,
            DescriptorType::HID => 33,
            DescriptorType::Report => 34,
            DescriptorType::Physical => 35,
            DescriptorType::Hub => 41,
            DescriptorType::SuperSpeedHub => 42,
            DescriptorType::SuperSpeedEndpointCompanion => 48,
            DescriptorType::SuperSpeedPlusIsochronousEndpointCompanion => 49,
            DescriptorType::Other(o) => o,
        }
    }

    pub open spec fn from_value_spec(num: u8) -> DescriptorType {
        match num {
            1u8 => DescriptorType::Device,
            2u8 => DescriptorType::Configuration,
            3u8 => DescriptorType::String,
            4u8 => DescriptorType::Interface,
            5u8 => DescriptorType::Endpoint,
            6u8 => DescriptorType::DeviceQualifier,
            7u8 => DescriptorType::OtherSpeedConfig,
            8u8 => DescriptorType::InterfacePower,
            9u8 => DescriptorType::OTG,
            10u8 => DescriptorType::Debug,
            11u8 => DescriptorType::InterfaceAssociation,
            15u8 => DescriptorType::CapabilityDescriptor,
            16u8 => DescriptorType::DeviceCapability,
            33u8 => DescriptorType::HID,
            34u8 => DescriptorType::Report,
            35u8 => DescriptorType::Physical,
            41u8 => DescriptorType::Hub,
            42u8 => DescriptorType::SuperSpeedHub,
            48u8 => DescriptorType::SuperSpeedEndpointCompanion,
            49u8 => DescriptorType::SuperSpeedPlusIsochronousEndpointCompanion,
            other => DescriptorType::Other(other),
        }
    }

    /// The raw type byte this kind encodes to.
    pub fn value(&self) -> (r: u8)
        ensures
            r == self.value_spec(),
    {
        match self {
            DescriptorType::Device => 1,
            DescriptorType::Configuration => 2,
            DescriptorType::String => 3,
            DescriptorType::Interface => 4,
            DescriptorType::Endpoint => 5,
            DescriptorType::DeviceQualifier => 6,
            DescriptorType::OtherSpeedConfig => 7,
            DescriptorType::InterfacePower => 8,
            DescriptorType::OTG => 9,
            DescriptorType::Debug => 10,
            DescriptorType::InterfaceAssociation => 11,
            DescriptorType::CapabilityDescriptor => 15,
            DescriptorType::DeviceCapability => 16,
            DescriptorType::HID => 33,
            DescriptorType::Report => 34,
            DescriptorType::Physical => 35,
            DescriptorType::Hub => 41,
            DescriptorType::SuperSpeedHub => 42,
            DescriptorType::SuperSpeedEndpointCompanion => 48,
            DescriptorType::SuperSpeedPlusIsochronousEndpointCompanion => 49,
            DescriptorType::Other(o) => *o,
        }
    }
}

impl From<u8> for DescriptorType {
    /// Decode a raw descriptor type byte.
    fn from(num: u8) -> (r: DescriptorType) {
        match num {
            1u8 => DescriptorType::Device,
            2u8 => DescriptorType::Configuration,
            3u8 => DescriptorType::String,
            4u8 => DescriptorType::Interface,
            5u8 => DescriptorType::Endpoint,
            6u8 => DescriptorType::DeviceQualifier,
            7u8 => DescriptorType::OtherSpeedConfig,
            8u8 => DescriptorType::InterfacePower,
            9u8 => DescriptorType::OTG,
            10u8 => DescriptorType::Debug,
            11u8 => DescriptorType::InterfaceAssociation,
            15u8 => DescriptorType::CapabilityDescriptor,
            16u8 => DescriptorType::DeviceCapability,
            33u8 => DescriptorType::HID,
            34u8 => DescriptorType::Report,
            35u8 => DescriptorType::Physical,
            41u8 => DescriptorType::Hub,
            42u8 => DescriptorType::SuperSpeedHub,
            48u8 => DescriptorType::SuperSpeedEndpointCompanion,
            49u8 => DescriptorType::SuperSpeedPlusIsochronousEndpointCompanion,
            other => DescriptorType::Other(other),
        }
    }
}

impl vstd::std_specs::convert::FromSpecImpl<u8> for DescriptorType {
    open spec fn obeys_from_spec() -> bool {
        true
    }

    open spec fn from_spec(num: u8) -> DescriptorType {
        DescriptorType::from_value_spec(num)
    }
}

/// The negotiated speed of a device, as reported by the port.
#[derive(Clone, Copy, PartialEq, Eq, Structural, Debug)]
pub enum DeviceSpeed {
    Unspecified,
    Full,
    Low,
    High,
    Super,
    SuperPlus,
    SuperPlusBy2,
    Other(u32),
}

impl DeviceSpeed {
    pub open spec fn value_spec(self) -> u32 {
        match self {
            DeviceSpeed::Unspecified => 0,
            DeviceSpeed::Full => 1,
            DeviceSpeed::Low => 2,
            DeviceSpeed::High => 3,
            DeviceSpeed::Super => 4,
            DeviceSpeed::SuperPlus => 5,
            DeviceSpeed::SuperPlusBy2 => 6,
            DeviceSpeed::Other(o) => o,
        }
    }

    pub open spec fn from_value_spec(num: u32) -> DeviceSpeed {
        match num {
            0u32 => DeviceSpeed::Unspecified,
            1u32 => DeviceSpeed::Full,
            2u32 => DeviceSpeed::Low,
            3u32 => DeviceSpeed::High,
            4u32 => DeviceSpeed::Super,
            5u32 => DeviceSpeed::SuperPlus,
            6u32 => DeviceSpeed::SuperPlusBy2,
            other => DeviceSpeed::Other(other),
        }
    }

    pub fn value(&self) -> (r: u32)
        ensures
            r == self.value_spec(),
    {
        match self {
            DeviceSpeed::Unspecified => 0,
            DeviceSpeed::Full => 1,
            DeviceSpeed::Low => 2,
            DeviceSpeed::High => 3,
            DeviceSpeed::Super => 4,
            DeviceSpeed::SuperPlus => 5,
            DeviceSpeed::SuperPlusBy2 => 6,
            DeviceSpeed::Other(o) => *o,
        }
    }

    /// True of the SuperSpeed and faster speed classes, whose power unit and
    /// companion-descriptor rules differ from the USB 2.0 classes.
    pub open spec fn is_super_or_faster_spec(self) -> bool {
        self.value_spec() >= 4 && !(self is Other)
    }

    pub fn is_super_or_faster(&self) -> (r: bool)
        ensures
            r == self.is_super_or_faster_spec(),
    {
        match self {
            DeviceSpeed::Super => true,
            DeviceSpeed::SuperPlus => true,
            DeviceSpeed::SuperPlusBy2 => true,
            _ => false,
        }
    }
}

impl From<u32> for DeviceSpeed {
    /// Decode a raw speed code.
    fn from(num: u32) -> (r: DeviceSpeed) {
        match num {
            0u32 => DeviceSpeed::Unspecified,
            1u32 => DeviceSpeed::Full,
            2u32 => DeviceSpeed::Low,
            3u32 => DeviceSpeed::High,
            4u32 => DeviceSpeed::Super,
            5u32 => DeviceSpeed::SuperPlus,
            6u32 => DeviceSpeed::SuperPlusBy2,
            other => DeviceSpeed::Other(other),
        }
    }
}

impl vstd::std_specs::convert::FromSpecImpl<u32> for DeviceSpeed {
    open spec fn obeys_from_spec() -> bool {
        true
    }

    open spec fn from_spec(num: u32) -> DeviceSpeed {
        DeviceSpeed::from_value_spec(num)
    }
}

/// The link training state of a port.
#[derive(Clone, Copy, PartialEq, Eq, Structural, Debug)]
pub enum LinkState {
    U0,
    U1,
    U2,
    U3,
    Disabled,
    RxDetect,
    Inactive,
    Polling,
    Recovery,
    Reset,
    Compliance,
    Test,
    Resume,
    Other(u32),
}

impl LinkState {
    pub open spec fn value_spec(self) -> u32 {
        match self {
            LinkState::U0 => 0,
            LinkState::U1 => 1,
            LinkState::U2 => 2,
            LinkState::U3 => 3,
            LinkState::Disabled => 4,
            LinkState::RxDetect => 5,
            LinkState::Inactive => 6,
            LinkState::Polling => 7,
            LinkState::Recovery => 8,
            LinkState::Reset => 9,
            LinkState::Compliance => 10,
            LinkState::Test => 11,
            LinkState::Resume => 15,
            LinkState::Other(o) => o,
        }
    }

    pub open spec fn from_value_spec(num: u32) -> LinkState {
        match num {
            0u32 => LinkState::U0,
            1u32 => LinkState::U1,
            2u32 => LinkState::U2,
            3u32 => LinkState::U3,
            4u32 => LinkState::Disabled,
            5u32 => LinkState::RxDetect,
            6u32 => LinkState::Inactive,
            7u32 => LinkState::Polling,
            8u32 => LinkState::Recovery,
            9u32 => LinkState::Reset,
            10u32 => LinkState::Compliance,
            11u32 => LinkState::Test,
            15u32 => LinkState::Resume,
            other => LinkState::Other(other),
        }
    }

    pub fn value(&self) -> (r: u32)
        ensures
            r == self.value_spec(),
    {
        match self {
            LinkState::U0 => 0,
            LinkState::U1 => 1,
            LinkState::U2 => 2,
            LinkState::U3 => 3,
            LinkState::Disabled => 4,
            LinkState::RxDetect => 5,
            LinkState::Inactive => 6,
            LinkState::Polling => 7,
            LinkState::Recovery => 8,
            LinkState::Reset => 9,
            LinkState::Compliance => 10,
            LinkState::Test => 11,
            LinkState::Resume => 15,
            LinkState::Other(o) => *o,
        }
    }
}

impl From<u32> for LinkState {
    /// Decode a raw link state code.
    fn from(num: u32) -> (r: LinkState) {
        match num {
            0u32 => LinkState::U0,
            1u32 => LinkState::U1,
            2u32 => LinkState::U2,
            3u32 => LinkState::U3,
            4u32 => LinkState::Disabled,
            5u32 => LinkState::RxDetect,
            6u32 => LinkState::Inactive,
            7u32 => LinkState::Polling,
            8u32 => LinkState::Recovery,
            9u32 => LinkState::Reset,
            10u32 => LinkState::Compliance,
            11u32 => LinkState::Test,
            15u32 => LinkState::Resume,
            other => LinkState::Other(other),
        }
    }
}

impl vstd::std_specs::convert::FromSpecImpl<u32> for LinkState {
    open spec fn obeys_from_spec() -> bool {
        true
    }

    open spec fn from_spec(num: u32) -> LinkState {
        LinkState::from_value_spec(num)
    }
}

/// The coarse lifecycle state of the controller machine.
#[derive(Clone, Copy, PartialEq, Eq, Structural, Debug)]
pub enum ControllerState {
    Off,
    Paused,
    Active,
    Other(u32),
}

impl ControllerState {
    pub open spec fn from_value_spec(num: u32) -> ControllerState {
        match num {
            0u32 => ControllerState::Off,
            1u32 => ControllerState::Paused,
            2u32 => ControllerState::Active,
            other => ControllerState::Other(other),
        }
    }
}

impl From<u32> for ControllerState {
    fn from(num: u32) -> (r: ControllerState) {
        match num {
            0u32 => ControllerState::Off,
            1u32 => ControllerState::Paused,
            2u32 => ControllerState::Active,
            other => ControllerState::Other(other),
        }
    }
}

impl vstd::std_specs::convert::FromSpecImpl<u32> for ControllerState {
    open spec fn obeys_from_spec() -> bool {
        true
    }

    open spec fn from_spec(num: u32) -> ControllerState {
        ControllerState::from_value_spec(num)
    }
}

/// The coarse lifecycle state of a port machine.
#[derive(Clone, Copy, PartialEq, Eq, Structural, Debug)]
pub enum PortState {
    Off,
    Powered,
    Suspended,
    Active,
    Other(u32),
}

impl PortState {
    pub open spec fn from_value_spec(num: u32) -> PortState {
        match num {
            0u32 => PortState::Off,
            1u32 => PortState::Powered,
            2u32 => PortState::Suspended,
            3u32 => PortState::Active,
            other => PortState::Other(other),
        }
    }
}

impl From<u32> for PortState {
    fn from(num: u32) -> (r: PortState) {
        match num {
            0u32 => PortState::Off,
            1u32 => PortState::Powered,
            2u32 => PortState::Suspended,
            3u32 => PortState::Active,
            other => PortState::Other(other),
        }
    }
}

impl vstd::std_specs::convert::FromSpecImpl<u32> for PortState {
    open spec fn obeys_from_spec() -> bool {
        true
    }

    open spec fn from_spec(num: u32) -> PortState {
        PortState::from_value_spec(num)
    }
}

/// The coarse lifecycle state of a device machine.
#[derive(Clone, Copy, PartialEq, Eq, Structural, Debug)]
pub enum DeviceState {
    Destroyed,
    Paused,
    Active,
    Other(u32),
}

impl DeviceState {
    pub open spec fn from_value_spec(num: u32) -> DeviceState {
        match num {
            0u32 => DeviceState::Destroyed,
            1u32 => DeviceState::Paused,
            2u32 => DeviceState::Active,
            other => DeviceState::Other(other),
        }
    }
}

impl From<u32> for DeviceState {
    fn from(num: u32) -> (r: DeviceState) {
        match num {
            0u32 => DeviceState::Destroyed,
            1u32 => DeviceState::Paused,
            2u32 => DeviceState::Active,
            other => DeviceState::Other(other),
        }
    }
}

impl vstd::std_specs::convert::FromSpecImpl<u32> for DeviceState {
    open spec fn obeys_from_spec() -> bool {
        true
    }

    open spec fn from_spec(num: u32) -> DeviceState {
        DeviceState::from_value_spec(num)
    }
}

/// The coarse lifecycle state of an endpoint machine.
#[derive(Clone, Copy, PartialEq, Eq, Structural, Debug)]
pub enum EndpointState {
    Destroyed,
    Halted,
    Paused,
    Active,
    Other(u32),
}

impl EndpointState {
    pub open spec fn from_value_spec(num: u32) -> EndpointState {
        match num {
            0u32 => EndpointState::Destroyed,
            1u32 => EndpointState::Halted,
            2u32 => EndpointState::Paused,
            3u32 => EndpointState::Active,
            other => EndpointState::Other(other),
        }
    }
}

impl From<u32> for EndpointState {
    fn from(num: u32) -> (r: EndpointState) {
        match num {
            0u32 => EndpointState::Destroyed,
            1u32 => EndpointState::Halted,
            2u32 => EndpointState::Paused,
            3u32 => EndpointState::Active,
            other => EndpointState::Other(other),
        }
    }
}

impl vstd::std_specs::convert::FromSpecImpl<u32> for EndpointState {
    open spec fn obeys_from_spec() -> bool {
        true
    }

    open spec fn from_spec(num: u32) -> EndpointState {
        EndpointState::from_value_spec(num)
    }
}

/// The status code carried in a response or completion message.
#[derive(Clone, Copy, PartialEq, Eq, Structural, Debug)]
pub enum MessageStatus {
    Success,
    Offline,
    NotPermitted,
    BadArgument,
    Timeout,
    NoResources,
    EndpointStopped,
    ProtocolError,
    TransactionError,
    OverrunError,
    StallError,
    MissedServiceError,
    Error,
    Other(u32),
}

impl MessageStatus {
    pub open spec fn value_spec(self) -> u32 {
        match self {
            MessageStatus::Success => 1,
            MessageStatus::Offline => 2,
            MessageStatus::NotPermitted => 3,
            MessageStatus::BadArgument => 4,
            MessageStatus::Timeout => 5,
            MessageStatus::NoResources => 6,
            MessageStatus::EndpointStopped => 7,
            MessageStatus::ProtocolError => 8,
            MessageStatus::TransactionError => 9,
            MessageStatus::OverrunError => 10,
            MessageStatus::StallError => 11,
            MessageStatus::MissedServiceError => 12,
            MessageStatus::Error => 13,
            MessageStatus::Other(o) => o,
        }
    }

    pub open spec fn from_value_spec(num: u32) -> MessageStatus {
        match num {
            1u32 => MessageStatus::Success,
            2u32 => MessageStatus::Offline,
            3u32 => MessageStatus::NotPermitted,
            4u32 => MessageStatus::BadArgument,
            5u32 => MessageStatus::Timeout,
            6u32 => MessageStatus::NoResources,
            7u32 => MessageStatus::EndpointStopped,
            8u32 => MessageStatus::ProtocolError,
            9u32 => MessageStatus::TransactionError,
            10u32 => MessageStatus::OverrunError,
            11u32 => MessageStatus::StallError,
            12u32 => MessageStatus::MissedServiceError,
            13u32 => MessageStatus::Error,
            other => MessageStatus::Other(other),
        }
    }

    /// The raw status code this status encodes to.
    pub fn value(&self) -> (r: u32)
        ensures
            r == self.value_spec(),
    {
        match self {
            MessageStatus::Success => 1,
            MessageStatus::Offline => 2,
            MessageStatus::NotPermitted => 3,
            MessageStatus::BadArgument => 4,
            MessageStatus::Timeout => 5,
            MessageStatus::NoResources => 6,
            MessageStatus::EndpointStopped => 7,
            MessageStatus::ProtocolError => 8,
            MessageStatus::TransactionError => 9,
            MessageStatus::OverrunError => 10,
            MessageStatus::StallError => 11,
            MessageStatus::MissedServiceError => 12,
            MessageStatus::Error => 13,
            MessageStatus::Other(o) => *o,
        }
    }
}

/// The direction encoded in an endpoint address.
#[derive(Clone, Copy, PartialEq, Eq, Structural, Debug)]
pub enum EndpointDirection {
    Out,
    In,
    Unknown,
}

impl EndpointDirection {
    pub open spec fn from_value_spec(num: u8) -> EndpointDirection {
        match num {
            0u8 => EndpointDirection::Out,
            1u8 => EndpointDirection::In,
            _ => EndpointDirection::Unknown,
        }
    }
}

impl From<u8> for EndpointDirection {
    fn from(num: u8) -> (r: EndpointDirection) {
        match num {
            0u8 => EndpointDirection::Out,
            1u8 => EndpointDirection::In,
            _ => EndpointDirection::Unknown,
        }
    }
}

impl vstd::std_specs::convert::FromSpecImpl<u8> for EndpointDirection {
    open spec fn obeys_from_spec() -> bool {
        true
    }

    open spec fn from_spec(num: u8) -> EndpointDirection {
        EndpointDirection::from_value_spec(num)
    }
}

/// The transfer type of an endpoint, from the low bits of its attributes.
#[derive(Clone, Copy, PartialEq, Eq, Structural, Debug)]
pub enum EndpointType {
    Control,
    Isochronous,
    Bulk,
    Interrupt,
}

impl EndpointType {
    pub open spec fn from_value_spec(num: u8) -> EndpointType {
        match num {
            0u8 => EndpointType::Control,
            1u8 => EndpointType::Isochronous,
            2u8 => EndpointType::Bulk,
            _ => EndpointType::Interrupt,
        }
    }
}

/// The synchronization mode of an isochronous endpoint.
#[derive(Clone, Copy, PartialEq, Eq, Structural, Debug)]
pub enum SynchronizationType {
    NoSynchronization,
    Asynchronous,
    Adaptive,
    Synchronous,
    Other(u8),
}

impl SynchronizationType {
    pub open spec fn from_value_spec(num: u8) -> SynchronizationType {
        match num {
            0u8 => SynchronizationType::NoSynchronization,
            1u8 => SynchronizationType::Asynchronous,
            2u8 => SynchronizationType::Adaptive,
            3u8 => SynchronizationType::Synchronous,
            other => SynchronizationType::Other(other),
        }
    }
}

impl From<u8> for SynchronizationType {
    fn from(num: u8) -> (r: SynchronizationType) {
        match num {
            0u8 => SynchronizationType::NoSynchronization,
            1u8 => SynchronizationType::Asynchronous,
            2u8 => SynchronizationType::Adaptive,
            3u8 => SynchronizationType::Synchronous,
            other => SynchronizationType::Other(other),
        }
    }
}

impl vstd::std_specs::convert::FromSpecImpl<u8> for SynchronizationType {
    open spec fn obeys_from_spec() -> bool {
        true
    }

    open spec fn from_spec(num: u8) -> SynchronizationType {
        SynchronizationType::from_value_spec(num)
    }
}

/// The capability kind carried in the third byte of a BOS capability record.
#[derive(Clone, Copy, PartialEq, Eq, Structural, Debug)]
pub enum DeviceCapabilityType {
    Wireless,
    Usb2Extension,
    SuperSpeed,
    ContainerID,
    Platform,
    PowerDelivery,
    BatteryInfo,
    PdConsumerPort,
    PdProviderPort,
    SuperSpeedPlus,
    PrecisionMeasurement,
    WirelessExt,
    Billboard,
    BillboardAltMode,
    Other(u8),
}

impl DeviceCapabilityType {
    pub open spec fn value_spec(self) -> u8 {
        match self {
            DeviceCapabilityType::Wireless => 1,
            DeviceCapabilityType::Usb2Extension => 2,
            DeviceCapabilityType::SuperSpeed => 3,
            DeviceCapabilityType::ContainerID => 4,
            DeviceCapabilityType::Platform => 5,
            DeviceCapabilityType::PowerDelivery => 6,
            DeviceCapabilityType::BatteryInfo => 7,
            DeviceCapabilityType::PdConsumerPort => 8,
            DeviceCapabilityType::PdProviderPort => 9,
            DeviceCapabilityType::SuperSpeedPlus => 10,
            DeviceCapabilityType::PrecisionMeasurement => 11,
            DeviceCapabilityType::WirelessExt => 12,
            DeviceCapabilityType::Billboard => 13,
            DeviceCapabilityType::BillboardAltMode => 15,
            DeviceCapabilityType::Other(o) => o,
        }
    }

    pub open spec fn from_value_spec(num: u8) -> DeviceCapabilityType {
        match num {
            1u8 => DeviceCapabilityType::Wireless,
            2u8 => DeviceCapabilityType::Usb2Extension,
            3u8 => DeviceCapabilityType::SuperSpeed,
            4u8 => DeviceCapabilityType::ContainerID,
            5u8 => DeviceCapabilityType::Platform,
            6u8 => DeviceCapabilityType::PowerDelivery,
            7u8 => DeviceCapabilityType::BatteryInfo,
            8u8 => DeviceCapabilityType::PdConsumerPort,
            9u8 => DeviceCapabilityType::PdProviderPort,
            10u8 => DeviceCapabilityType::SuperSpeedPlus,
            11u8 => DeviceCapabilityType::PrecisionMeasurement,
            12u8 => DeviceCapabilityType::WirelessExt,
            13u8 => DeviceCapabilityType::Billboard,
            15u8 => DeviceCapabilityType::BillboardAltMode,
            other => DeviceCapabilityType::Other(other),
        }
    }

    /// The raw capability kind byte this kind encodes to.
    pub fn value(&self) -> (r: u8)
        ensures
            r == self.value_spec(),
    {
        match self {
            DeviceCapabilityType::Wireless => 1,
            DeviceCapabilityType::Usb2Extension => 2,
            DeviceCapabilityType::SuperSpeed => 3,
            DeviceCapabilityType::ContainerID => 4,
            DeviceCapabilityType::Platform => 5,
            DeviceCapabilityType::PowerDelivery => 6,
            DeviceCapabilityType::BatteryInfo => 7,
            DeviceCapabilityType::PdConsumerPort => 8,
            DeviceCapabilityType::PdProviderPort => 9,
            DeviceCapabilityType::SuperSpeedPlus => 10,
            DeviceCapabilityType::PrecisionMeasurement => 11,
            DeviceCapabilityType::WirelessExt => 12,
            DeviceCapabilityType::Billboard => 13,
            DeviceCapabilityType::BillboardAltMode => 15,
            DeviceCapabilityType::Other(o) => *o,
        }
    }
}

impl From<u8> for DeviceCapabilityType {
    fn from(num: u8) -> (r: DeviceCapabilityType) {
        match num {
            1u8 => DeviceCapabilityType::Wireless,
            2u8 => DeviceCapabilityType::Usb2Extension,
            3u8 => DeviceCapabilityType::SuperSpeed,
            4u8 => DeviceCapabilityType::ContainerID,
            5u8 => DeviceCapabilityType::Platform,
            6u8 => DeviceCapabilityType::PowerDelivery,
            7u8 => DeviceCapabilityType::BatteryInfo,
            8u8 => DeviceCapabilityType::PdConsumerPort,
            9u8 => DeviceCapabilityType::PdProviderPort,
            10u8 => DeviceCapabilityType::SuperSpeedPlus,
            11u8 => DeviceCapabilityType::PrecisionMeasurement,
            12u8 => DeviceCapabilityType::WirelessExt,
            13u8 => DeviceCapabilityType::Billboard,
            15u8 => DeviceCapabilityType::BillboardAltMode,
            other => DeviceCapabilityType::Other(other),
        }
    }
}

impl vstd::std_specs::convert::FromSpecImpl<u8> for DeviceCapabilityType {
    open spec fn obeys_from_spec() -> bool {
        true
    }

    open spec fn from_spec(num: u8) -> DeviceCapabilityType {
        DeviceCapabilityType::from_value_spec(num)
    }
}

/// Whether an abort of outstanding requests waits for them to drain.
#[derive(Clone, Copy, PartialEq, Eq, Structural, Debug)]
pub enum AbortOption {
    Asynchronous,
    Synchronous,
}

impl AbortOption {
    pub open spec fn value_spec(self) -> u32 {
        match self {
            AbortOption::Asynchronous => 0,
            AbortOption::Synchronous => 1,
        }
    }

    /// The raw option code this choice encodes to.
    pub fn value(&self) -> (r: u32)
        ensures
            r == self.value_spec(),
    {
        match self {
            AbortOption::Asynchronous => 0,
            AbortOption::Synchronous => 1,
        }
    }
}

/// Options applied when claiming a host object.
#[derive(Clone, Copy, PartialEq, Eq, Structural, Debug, Default)]
pub enum HostObjectInitOptions {
    #[default]
    NoOptions,
    DeviceCapture,
}

impl HostObjectInitOptions {
    pub open spec fn value_spec(self) -> u32 {
        match self {
            HostObjectInitOptions::NoOptions => 0,
            HostObjectInitOptions::DeviceCapture => 1,
        }
    }

    /// The raw option code this choice encodes to.
    pub fn value(&self) -> (r: u32)
        ensures
            r == self.value_spec(),
    {
        match self {
            HostObjectInitOptions::NoOptions => 0,
            HostObjectInitOptions::DeviceCapture => 1,
        }
    }
}

/// Options applied to an isochronous transaction list.
#[derive(Clone, Copy, PartialEq, Eq, Structural, Debug)]
pub enum IsochronousTransactionOptions {
    NoOptions,
    Wrap,
}

impl IsochronousTransactionOptions {
    pub open spec fn value_spec(self) -> u32 {
        match self {
            IsochronousTransactionOptions::NoOptions => 0,
            IsochronousTransactionOptions::Wrap => 1,
        }
    }

    /// The raw option code this choice encodes to.
    pub fn value(&self) -> (r: u32)
        ensures
            r == self.value_spec(),
    {
        match self {
            IsochronousTransactionOptions::NoOptions => 0,
            IsochronousTransactionOptions::Wrap => 1,
        }
    }
}


/// A named field or flag of the port status bitmap: the three electrical
/// flags, the masks of the link-state and speed fields, and the change
/// bits. A bitmap combining several of them decodes to `Other`.
#[derive(Clone, Copy, PartialEq, Eq, Structural, Debug)]
pub enum PortStatus {
    Powered,
    Overcurrent,
    Connected,
    LinkState,
    Speed,
    SpeedPhase,
    OvercurrentChange,
    ConnectChange,
    LinkStateChange,
    Other(u32),
}

impl PortStatus {
    pub open spec fn from_value_spec(num: u32) -> PortStatus {
        match num {
            1u32 => PortStatus::Powered,
            2u32 => PortStatus::Overcurrent,
            4u32 => PortStatus::Connected,
            240u32 => PortStatus::LinkState,
            1792u32 => PortStatus::Speed,
            8u32 => PortStatus::SpeedPhase,
            131072u32 => PortStatus::OvercurrentChange,
            262144u32 => PortStatus::ConnectChange,
            1048576u32 => PortStatus::LinkStateChange,
            other => PortStatus::Other(other),
        }
    }
}

impl From<u32> for PortStatus {
    fn from(num: u32) -> (r: PortStatus) {
        match num {
            1u32 => PortStatus::Powered,
            2u32 => PortStatus::Overcurrent,
            4u32 => PortStatus::Connected,
            240u32 => PortStatus::LinkState,
            1792u32 => PortStatus::Speed,
            8u32 => PortStatus::SpeedPhase,
            131072u32 => PortStatus::OvercurrentChange,
            262144u32 => PortStatus::ConnectChange,
            1048576u32 => PortStatus::LinkStateChange,
            other => PortStatus::Other(other),
        }
    }
}

impl vstd::std_specs::convert::FromSpecImpl<u32> for PortStatus {
    open spec fn obeys_from_spec() -> bool {
        true
    }

    open spec fn from_spec(num: u32) -> PortStatus {
        PortStatus::from_value_spec(num)
    }
}


/// The protocol exceptions the controller layer can raise.
#[derive(Clone, Copy, PartialEq, Eq, Structural, Debug)]
pub enum Exception {
    Unknown,
    InvalidCapabilities,
    Terminated,
    CommandReadCollision,
    WriteFailed,
    Timeout,
    Failure,
    InvalidInterrupt,
    InterruptOverflow,
    DoorbellReadCollision,
    DoorbellOverflow,
    ProtocolError,
    FrameUpdateError,
}

/// The physical kind of a root port.
#[derive(Clone, Copy, PartialEq, Eq, Structural, Debug)]
pub enum PortType {
    Standard,
    Captive,
    Internal,
    Accessory,
    ExpressCard,
}

/// The direction bit of a control request's type byte.
#[derive(Clone, Copy, PartialEq, Eq, Structural, Debug)]
pub enum DeviceRequestDirectionValue {
    Out,
    In,
}

/// The request-type class of a control request.
#[derive(Clone, Copy, PartialEq, Eq, Structural, Debug)]
pub enum DeviceRequestTypeValue {
    Standard,
    Class,
    Vendor,
    Other(u32),
}

impl DeviceRequestTypeValue {
    pub open spec fn value_spec(self) -> u32 {
        match self {
            DeviceRequestTypeValue::Standard => 0,
            DeviceRequestTypeValue::Class => 1,
            DeviceRequestTypeValue::Vendor => 2,
            DeviceRequestTypeValue::Other(o) => o,
        }
    }

    /// The raw request-type class this value encodes to.
    pub fn value(&self) -> (r: u32)
        ensures
            r == self.value_spec(),
    {
        match self {
            DeviceRequestTypeValue::Standard => 0,
            DeviceRequestTypeValue::Class => 1,
            DeviceRequestTypeValue::Vendor => 2,
            DeviceRequestTypeValue::Other(o) => *o,
        }
    }
}

/// The recipient of a control request.
#[derive(Clone, Copy, PartialEq, Eq, Structural, Debug)]
pub enum DeviceRequestRecipientValue {
    Device,
    Interface,
    Endpoint,
    Other,
}

impl DeviceRequestRecipientValue {
    pub open spec fn value_spec(self) -> u32 {
        match self {
            DeviceRequestRecipientValue::Device => 0,
            DeviceRequestRecipientValue::Interface => 1,
            DeviceRequestRecipientValue::Endpoint => 2,
            DeviceRequestRecipientValue::Other => 3,
        }
    }

    /// The raw recipient code this value encodes to.
    pub fn value(&self) -> (r: u32)
        ensures
            r == self.value_spec(),
    {
        match self {
            DeviceRequestRecipientValue::Device => 0,
            DeviceRequestRecipientValue::Interface => 1,
            DeviceRequestRecipientValue::Endpoint => 2,
            DeviceRequestRecipientValue::Other => 3,
        }
    }
}

/// The named masks, phases and flag values of a control request's type
/// byte.
#[derive(Clone, Copy, PartialEq, Eq, Structural, Debug)]
pub enum DeviceRequestType {
    Size,
    DirectionPhase,
    DirectionOut,
    DirectionIn,
    TypePhase,
    TypeClass,
    TypeVendor,
    RecipientInterface,
    RecipientEndpoint,
    RecipientOther,
    Other(u8),
}

impl DeviceRequestType {
    pub open spec fn value_spec(self) -> u8 {
        match self {
            DeviceRequestType::Size => 8,
            DeviceRequestType::DirectionPhase => 7,
            DeviceRequestType::DirectionOut => 0,
            DeviceRequestType::DirectionIn => 128,
            DeviceRequestType::TypePhase => 5,
            DeviceRequestType::TypeClass => 32,
            DeviceRequestType::TypeVendor => 64,
            DeviceRequestType::RecipientInterface => 1,
            DeviceRequestType::RecipientEndpoint => 2,
            DeviceRequestType::RecipientOther => 3,
            DeviceRequestType::Other(o) => o,
        }
    }

    /// The raw type-byte value this name encodes to.
    pub fn value(&self) -> (r: u8)
        ensures
            r == self.value_spec(),
    {
        match self {
            DeviceRequestType::Size => 8,
            DeviceRequestType::DirectionPhase => 7,
            DeviceRequestType::DirectionOut => 0,
            DeviceRequestType::DirectionIn => 128,
            DeviceRequestType::TypePhase => 5,
            DeviceRequestType::TypeClass => 32,
            DeviceRequestType::TypeVendor => 64,
            DeviceRequestType::RecipientInterface => 1,
            DeviceRequestType::RecipientEndpoint => 2,
            DeviceRequestType::RecipientOther => 3,
            DeviceRequestType::Other(o) => *o,
        }
    }
}


/// The message types of the host-controller protocol, by their code in
/// bits 0..6 of a message's control word.
#[derive(Clone, Copy, PartialEq, Eq, Structural, Debug)]
pub enum MessageType {
    ControllerCapabilities,
    PortCapabilities,
    PortEvent,
    FrameNumberUpdate,
    FrameTimestampUpdate,
    ControllerPowerOn,
    ControllerPowerOff,
    ControllerStart,
    ControllerPause,
    ControllerFrameNumner,
    PortPowerOn,
    PortPowerOff,
    PortResume,
    PortSuspend,
    PortReset,
    PortDisable,
    PortStatus,
    DeviceCreate,
    DeviceDestroy,
    DeviceStart,
    DevicePause,
    DeviceUpdate,
    EndpointCreate,
    EndpointDesroy,
    EndpointPause,
    EndpointUpdate,
    EndpointRest,
    EndpointSetNextTransfer,
    CommandMax,
    SetupTransfer,
    NormalTransfer,
    StatusTransfer,
    IsochronousTransfer,
    Link,
    TransferComplete,
}

impl MessageType {
    pub open spec fn value_spec(self) -> u32 {
        match self {
            MessageType::ControllerCapabilities => 0,
            MessageType::PortCapabilities => 1,
            MessageType::PortEvent => 8,
            MessageType::FrameNumberUpdate => 9,
            MessageType::FrameTimestampUpdate => 10,
            MessageType::ControllerPowerOn => 16,
            MessageType::ControllerPowerOff => 17,
            MessageType::ControllerStart => 18,
            MessageType::ControllerPause => 19,
            MessageType::ControllerFrameNumner => 20,
            MessageType::PortPowerOn => 24,
            MessageType::PortPowerOff => 25,
            MessageType::PortResume => 26,
            MessageType::PortSuspend => 27,
            MessageType::PortReset => 28,
            MessageType::PortDisable => 29,
            MessageType::PortStatus => 30,
            MessageType::DeviceCreate => 32,
            MessageType::DeviceDestroy => 33,
            MessageType::DeviceStart => 34,
            MessageType::DevicePause => 35,
            MessageType::DeviceUpdate => 36,
            MessageType::EndpointCreate => 40,
            MessageType::EndpointDesroy => 41,
            MessageType::EndpointPause => 43,
            MessageType::EndpointUpdate => 44,
            MessageType::EndpointRest => 45,
            MessageType::EndpointSetNextTransfer => 46,
            MessageType::CommandMax => 55,
            MessageType::SetupTransfer => 56,
            MessageType::NormalTransfer => 57,
            MessageType::StatusTransfer => 58,
            MessageType::IsochronousTransfer => 59,
            MessageType::Link => 60,
            MessageType::TransferComplete => 61,
        }
    }

    /// The raw message type code this name encodes to.
    pub fn value(&self) -> (r: u32)
        ensures
            r == self.value_spec(),
    {
        match self {
            MessageType::ControllerCapabilities => 0,
            MessageType::PortCapabilities => 1,
            MessageType::PortEvent => 8,
            MessageType::FrameNumberUpdate => 9,
            MessageType::FrameTimestampUpdate => 10,
            MessageType::ControllerPowerOn => 16,
            MessageType::ControllerPowerOff => 17,
            MessageType::ControllerStart => 18,
            MessageType::ControllerPause => 19,
            MessageType::ControllerFrameNumner => 20,
            MessageType::PortPowerOn => 24,
            MessageType::PortPowerOff => 25,
            MessageType::PortResume => 26,
            MessageType::PortSuspend => 27,
            MessageType::PortReset => 28,
            MessageType::PortDisable => 29,
            MessageType::PortStatus => 30,
            MessageType::DeviceCreate => 32,
            MessageType::DeviceDestroy => 33,
            MessageType::DeviceStart => 34,
            MessageType::DevicePause => 35,
            MessageType::DeviceUpdate => 36,
            MessageType::EndpointCreate => 40,
            MessageType::EndpointDesroy => 41,
            MessageType::EndpointPause => 43,
            MessageType::EndpointUpdate => 44,
            MessageType::EndpointRest => 45,
            MessageType::EndpointSetNextTransfer => 46,
            MessageType::CommandMax => 55,
            MessageType::SetupTransfer => 56,
            MessageType::NormalTransfer => 57,
            MessageType::StatusTransfer => 58,
            MessageType::IsochronousTransfer => 59,
            MessageType::Link => 60,
            MessageType::TransferComplete => 61,
        }
    }
}

} // verus!
