//! The one-byte enumerations of the control protocol.
use vstd::prelude::*;
use vstd::std_specs::convert::FromSpecImpl;
use crate::base::traits::U8Enum;

verus! {

/// The commands of the control protocol.
#[derive(Debug, PartialEq, Eq, Copy, Clone, Structural, Ord, PartialOrd)]
pub enum CommandCode {
    /// Reserved.
    Reserved,
    /// Assigns an EID to the endpoint at a physical address.
    SetEndpointID,
    /// Asks an endpoint for the EID it presently has.
    GetEndpointID,
    /// Asks for the unique identifier of the device.
    GetEndpointUUID,
    /// Lists the supported versions of the protocol.
    GetMCTPVersionSupport,
    /// Lists the message types an endpoint understands.
    GetMessageTypeSupport,
    /// Lists the vendor-defined message types an endpoint understands.
    GetVendorDefinedMessageSupport,
    /// Asks for the physical address behind an EID.
    ResolveEndpointID,
    /// Hands a pool of EIDs to a bridge.
    AllocateEndpointIDs,
    /// Extends or updates the routing table of a bridge.
    RoutingInformationUpdate,
    /// Reads the routing table of a bridge.
    GetRoutingTableEntries,
    /// Clears the discovered flag of the endpoints on a bus.
    PrepareForEndpointDiscovery,
    /// Finds the endpoints on a bus that are not discovered yet.
    EndpointDiscovery,
    /// Tells the bus owner that a device has appeared.
    DiscoveryNotify,
    /// Asks for the network identifier.
    GetNetworkID,
    /// Asks which bridge is next on the way to an endpoint.
    QueryHop,
    /// Finds the endpoint with a given unique identifier.
    ResolveUUID,
    /// Asks for the receive data-rate limits of an endpoint.
    QueryRateLimit,
    /// Asks for a transmit data-rate limit.
    RequestTXRateLimit,
    /// Announces a changed transmit data rate.
    UpdateRateLimit,
    /// Lists the MCTP interfaces of a device.
    QuerySupportedInterfaces,
    /// Any code without a meaning of its own.
    Unknown,
}

impl Default for CommandCode {
    fn default() -> (e: Self)
        ensures
            e == CommandCode::Unknown,
    {
        CommandCode::Unknown
    }
}

impl U8Enum for CommandCode {
    open spec fn spec_from_u8(value: u8) -> Self {
        match value {
            0x00 => CommandCode::Reserved,
            0x01 => CommandCode::SetEndpointID,
            0x02 => CommandCode::GetEndpointID,
            0x03 => CommandCode::GetEndpointUUID,
            0x04 => CommandCode::GetMCTPVersionSupport,
            0x05 => CommandCode::GetMessageTypeSupport,
            0x06 => CommandCode::GetVendorDefinedMessageSupport,
            0x07 => CommandCode::ResolveEndpointID,
            0x08 => CommandCode::AllocateEndpointIDs,
            0x09 => CommandCode::RoutingInformationUpdate,
            0x0A => CommandCode::GetRoutingTableEntries,
            0x0B => CommandCode::PrepareForEndpointDiscovery,
            0x0C => CommandCode::EndpointDiscovery,
            0x0D => CommandCode::DiscoveryNotify,
            0x0E => CommandCode::GetNetworkID,
            0x0F => CommandCode::QueryHop,
            0x10 => CommandCode::ResolveUUID,
            0x11 => CommandCode::QueryRateLimit,
            0x12 => CommandCode::RequestTXRateLimit,
            0x13 => CommandCode::UpdateRateLimit,
            0x14 => CommandCode::QuerySupportedInterfaces,
            _ => CommandCode::Unknown,
        }
    }

    open spec fn spec_to_u8(&self) -> u8 {
        match self {
            CommandCode::Reserved => 0x00,
            CommandCode::SetEndpointID => 0x01,
            CommandCode::GetEndpointID => 0x02,
            CommandCode::GetEndpointUUID => 0x03,
            CommandCode::GetMCTPVersionSupport => 0x04,
            CommandCode::GetMessageTypeSupport => 0x05,
            CommandCode::GetVendorDefinedMessageSupport => 0x06,
            CommandCode::ResolveEndpointID => 0x07,
            CommandCode::AllocateEndpointIDs => 0x08,
            CommandCode::RoutingInformationUpdate => 0x09,
            CommandCode::GetRoutingTableEntries => 0x0A,
            CommandCode::PrepareForEndpointDiscovery => 0x0B,
            CommandCode::EndpointDiscovery => 0x0C,
            CommandCode::DiscoveryNotify => 0x0D,
            CommandCode::GetNetworkID => 0x0E,
            CommandCode::QueryHop => 0x0F,
            CommandCode::ResolveUUID => 0x10,
            CommandCode::QueryRateLimit => 0x11,
            CommandCode::RequestTXRateLimit => 0x12,
            CommandCode::UpdateRateLimit => 0x13,
            CommandCode::QuerySupportedInterfaces => 0x14,
            CommandCode::Unknown => 0xFF,
        }
    }

    fn from_u8(value: u8) -> (e: Self) {
        match value {
            0x00 => CommandCode::Reserved,
            0x01 => CommandCode::SetEndpointID,
            0x02 => CommandCode::GetEndpointID,
            0x03 => CommandCode::GetEndpointUUID,
            0x04 => CommandCode::GetMCTPVersionSupport,
            0x05 => CommandCode::GetMessageTypeSupport,
            0x06 => CommandCode::GetVendorDefinedMessageSupport,
            0x07 => CommandCode::ResolveEndpointID,
            0x08 => CommandCode::AllocateEndpointIDs,
            0x09 => CommandCode::RoutingInformationUpdate,
            0x0A => CommandCode::GetRoutingTableEntries,
            0x0B => CommandCode::PrepareForEndpointDiscovery,
            0x0C => CommandCode::EndpointDiscovery,
            0x0D => CommandCode::DiscoveryNotify,
            0x0E => CommandCode::GetNetworkID,
            0x0F => CommandCode::QueryHop,
            0x10 => CommandCode::ResolveUUID,
            0x11 => CommandCode::QueryRateLimit,
            0x12 => CommandCode::RequestTXRateLimit,
            0x13 => CommandCode::UpdateRateLimit,
            0x14 => CommandCode::QuerySupportedInterfaces,
            _ => CommandCode::Unknown,
        }
    }

    fn to_u8(&self) -> (v: u8) {
        match self {
            CommandCode::Reserved => 0x00,
            CommandCode::SetEndpointID => 0x01,
            CommandCode::GetEndpointID => 0x02,
            CommandCode::GetEndpointUUID => 0x03,
            CommandCode::GetMCTPVersionSupport => 0x04,
            CommandCode::GetMessageTypeSupport => 0x05,
            CommandCode::GetVendorDefinedMessageSupport => 0x06,
            CommandCode::ResolveEndpointID => 0x07,
            CommandCode::AllocateEndpointIDs => 0x08,
            CommandCode::RoutingInformationUpdate => 0x09,
            CommandCode::GetRoutingTableEntries => 0x0A,
            CommandCode::PrepareForEndpointDiscovery => 0x0B,
            CommandCode::EndpointDiscovery => 0x0C,
            CommandCode::DiscoveryNotify => 0x0D,
            CommandCode::GetNetworkID => 0x0E,
            CommandCode::QueryHop => 0x0F,
            CommandCode::ResolveUUID => 0x10,
            CommandCode::QueryRateLimit => 0x11,
            CommandCode::RequestTXRateLimit => 0x12,
            CommandCode::UpdateRateLimit => 0x13,
            CommandCode::QuerySupportedInterfaces => 0x14,
            CommandCode::Unknown => 0xFF,
        }
    }

    proof fn lemma_from_to(&self) {
    }
}

impl From<u8> for CommandCode {
    fn from(value: u8) -> (e: Self) {
        CommandCode::from_u8(value)
    }
}

impl FromSpecImpl<u8> for CommandCode {
    open spec fn obeys_from_spec() -> bool {
        true
    }

    open spec fn from_spec(value: u8) -> Self {
        CommandCode::spec_from_u8(value)
    }
}

/// First body byte of every response: whether the command completed, and if not, why.
#[derive(Debug, PartialEq, Eq, Copy, Clone, Structural)]
pub enum CompletionCode {
    /// The request was accepted and completed.
    Success,
    /// A failure that no other code describes.
    Error,
    /// The request held invalid data or an illegal parameter.
    ErrorInvalidData,
    /// The request body had the wrong length.
    ErrorInvalidLength,
    /// The receiver cannot take the request for the moment.
    ErrorNotReady,
    /// The command is unspecified or not supported by this endpoint.
    ErrorUnsupportedCmd,
}

impl Default for CompletionCode {
    fn default() -> (e: Self)
        ensures
            e == CompletionCode::ErrorUnsupportedCmd,
    {
        CompletionCode::ErrorUnsupportedCmd
    }
}

impl U8Enum for CompletionCode {
    open spec fn spec_from_u8(value: u8) -> Self {
        match value {
            0x00 => CompletionCode::Success,
            0x01 => CompletionCode::Error,
            0x02 => CompletionCode::ErrorInvalidData,
            0x03 => CompletionCode::ErrorInvalidLength,
            0x04 => CompletionCode::ErrorNotReady,
            _ => CompletionCode::ErrorUnsupportedCmd,
        }
    }

    open spec fn spec_to_u8(&self) -> u8 {
        match self {
            CompletionCode::Success => 0x00,
            CompletionCode::Error => 0x01,
            CompletionCode::ErrorInvalidData => 0x02,
            CompletionCode::ErrorInvalidLength => 0x03,
            CompletionCode::ErrorNotReady => 0x04,
            CompletionCode::ErrorUnsupportedCmd => 0x05,
        }
    }

    fn from_u8(value: u8) -> (e: Self) {
        match value {
            0x00 => CompletionCode::Success,
            0x01 => CompletionCode::Error,
            0x02 => CompletionCode::ErrorInvalidData,
            0x03 => CompletionCode::ErrorInvalidLength,
            0x04 => CompletionCode::ErrorNotReady,
            _ => CompletionCode::ErrorUnsupportedCmd,
        }
    }

    fn to_u8(&self) -> (v: u8) {
        match self {
            CompletionCode::Success => 0x00,
            CompletionCode::Error => 0x01,
            CompletionCode::ErrorInvalidData => 0x02,
            CompletionCode::ErrorInvalidLength => 0x03,
            CompletionCode::ErrorNotReady => 0x04,
            CompletionCode::ErrorUnsupportedCmd => 0x05,
        }
    }

    proof fn lemma_from_to(&self) {
    }
}

impl From<u8> for CompletionCode {
    fn from(value: u8) -> (e: Self) {
        CompletionCode::from_u8(value)
    }
}

impl FromSpecImpl<u8> for CompletionCode {
    open spec fn obeys_from_spec() -> bool {
        true
    }

    open spec fn from_spec(value: u8) -> Self {
        CompletionCode::spec_from_u8(value)
    }
}

/// The kind of message an MCTP packet carries.
#[derive(Debug, PartialEq, Eq, Copy, Clone, Structural)]
pub enum MessageType {
    /// MCTP control messages.
    Control,
    /// Platform Level Data Model.
    Pldm,
    /// NC-SI control traffic.
    NCSIOverMCTP,
    /// Ethernet traffic.
    EthernetOverMCTP,
    /// NVM Express management messages.
    NvmExpressOverMCTP,
    /// Security Protocol and Data Model.
    SpdmOverMCTP,
    /// Secured messages over SPDM.
    SecuredMessages,
    /// CXL fabric manager API.
    CxlFmApiOverMCTP,
    /// CXL component command interface.
    CxlCciOverMCTP,
    /// Vendor-defined messages, vendor named by a PCI identifier.
    VendorDefinedPCI,
    /// Vendor-defined messages, vendor named by an IANA number.
    VendorDefinedIANA,
    /// No message type; for internal use.
    Invalid,
}

impl Default for MessageType {
    fn default() -> (e: Self)
        ensures
            e == MessageType::Invalid,
    {
        MessageType::Invalid
    }
}

impl U8Enum for MessageType {
    open spec fn spec_from_u8(value: u8) -> Self {
        match value {
            0x00 => MessageType::Control,
            0x01 => MessageType::Pldm,
            0x02 => MessageType::NCSIOverMCTP,
            0x03 => MessageType::EthernetOverMCTP,
            0x04 => MessageType::NvmExpressOverMCTP,
            0x05 => MessageType::SpdmOverMCTP,
            0x06 => MessageType::SecuredMessages,
            0x07 => MessageType::CxlFmApiOverMCTP,
            0x08 => MessageType::CxlCciOverMCTP,
            0x7E => MessageType::VendorDefinedPCI,
            0x7F => MessageType::VendorDefinedIANA,
            _ => MessageType::Invalid,
        }
    }

    open spec fn spec_to_u8(&self) -> u8 {
        match self {
            MessageType::Control => 0x00,
            MessageType::Pldm => 0x01,
            MessageType::NCSIOverMCTP => 0x02,
            MessageType::EthernetOverMCTP => 0x03,
            MessageType::NvmExpressOverMCTP => 0x04,
            MessageType::SpdmOverMCTP => 0x05,
            MessageType::SecuredMessages => 0x06,
            MessageType::CxlFmApiOverMCTP => 0x07,
            MessageType::CxlCciOverMCTP => 0x08,
            MessageType::VendorDefinedPCI => 0x7E,
            MessageType::VendorDefinedIANA => 0x7F,
            MessageType::Invalid => 0xFF,
        }
    }

    fn from_u8(value: u8) -> (e: Self) {
        match value {
            0x00 => MessageType::Control,
            0x01 => MessageType::Pldm,
            0x02 => MessageType::NCSIOverMCTP,
            0x03 => MessageType::EthernetOverMCTP,
            0x04 => MessageType::NvmExpressOverMCTP,
            0x05 => MessageType::SpdmOverMCTP,
            0x06 => MessageType::SecuredMessages,
            0x07 => MessageType::CxlFmApiOverMCTP,
            0x08 => MessageType::CxlCciOverMCTP,
            0x7E => MessageType::VendorDefinedPCI,
            0x7F => MessageType::VendorDefinedIANA,
            _ => MessageType::Invalid,
        }
    }

    fn to_u8(&self) -> (v: u8) {
        match self {
            MessageType::Control => 0x00,
            MessageType::Pldm => 0x01,
            MessageType::NCSIOverMCTP => 0x02,
            MessageType::EthernetOverMCTP => 0x03,
            MessageType::NvmExpressOverMCTP => 0x04,
            MessageType::SpdmOverMCTP => 0x05,
            MessageType::SecuredMessages => 0x06,
            MessageType::CxlFmApiOverMCTP => 0x07,
            MessageType::CxlCciOverMCTP => 0x08,
            MessageType::VendorDefinedPCI => 0x7E,
            MessageType::VendorDefinedIANA => 0x7F,
            MessageType::Invalid => 0xFF,
        }
    }

    proof fn lemma_from_to(&self) {
    }
}

impl From<u8> for MessageType {
    fn from(value: u8) -> (e: Self) {
        MessageType::from_u8(value)
    }
}

impl FromSpecImpl<u8> for MessageType {
    open spec fn obeys_from_spec() -> bool {
        true
    }

    open spec fn from_spec(value: u8) -> Self {
        MessageType::spec_from_u8(value)
    }
}

/// The physical medium of an interface.
#[allow(non_camel_case_types)]
#[derive(Debug, PartialEq, Eq, Copy, Clone, Structural)]
pub enum PhysicalMediumIdentifier {
    /// Not specified.
    Unspecified,
    /// SMBus 2.0, 100 kHz.
    SMBUS_2_0_100khz,
    /// SMBus 2.0 with I2C, 100 kHz.
    SMBUS_2_0_I2C_100khz,
    /// I2C, 100 kHz.
    I2C_100khz,
    /// SMBus 3.0 or I2C, 400 kHz.
    SMBUS_3_0_I2C_400khz,
    /// SMBus 3.0 or I2C, 1 MHz.
    SMBUS_3_0_I2C_1mhz,
    /// I2C, 3.4 MHz.
    I2C_3_4mhz,
    /// PCIe revision 1.1.
    PCIeRev_1_1,
    /// PCIe revision 2.0.
    PCIeRev_2_0,
    /// PCIe revision 2.1.
    PCIeRev_2_1,
    /// PCIe revision 3.
    PCIeRev_3,
    /// PCIe revision 4.
    PCIeRev_4,
    /// PCIe revision 5.
    PCIeRev_5,
    /// PCI compatible.
    PCICompatible,
    /// USB 1.1.
    USB_1_1,
    /// USB 2.
    USB_2,
    /// USB 3.
    USB_3,
    /// NC-SI over RBT.
    NCSIOverRBT,
    /// KCS, legacy.
    KCSLegacy,
    /// KCS over PCI.
    KCSPCI,
    /// Serial host, legacy.
    SerialHostLegacy,
    /// Serial host over PCI.
    SerialHostPCI,
    /// Asynchronous serial.
    AsyncSerial,
    /// I3C basic.
    I3CBasic,
}

impl Default for PhysicalMediumIdentifier {
    fn default() -> (e: Self)
        ensures
            e == PhysicalMediumIdentifier::Unspecified,
    {
        PhysicalMediumIdentifier::Unspecified
    }
}

impl U8Enum for PhysicalMediumIdentifier {
    open spec fn spec_from_u8(value: u8) -> Self {
        match value {
            0x01 => PhysicalMediumIdentifier::SMBUS_2_0_100khz,
            0x02 => PhysicalMediumIdentifier::SMBUS_2_0_I2C_100khz,
            0x03 => PhysicalMediumIdentifier::I2C_100khz,
            0x04 => PhysicalMediumIdentifier::SMBUS_3_0_I2C_400khz,
            0x05 => PhysicalMediumIdentifier::SMBUS_3_0_I2C_1mhz,
            0x06 => PhysicalMediumIdentifier::I2C_3_4mhz,
            0x08 => PhysicalMediumIdentifier::PCIeRev_1_1,
            0x09 => PhysicalMediumIdentifier::PCIeRev_2_0,
            0x0A => PhysicalMediumIdentifier::PCIeRev_2_1,
            0x0B => PhysicalMediumIdentifier::PCIeRev_3,
            0x0C => PhysicalMediumIdentifier::PCIeRev_4,
            0x0D => PhysicalMediumIdentifier::PCIeRev_5,
            0x0F => PhysicalMediumIdentifier::PCICompatible,
            0x10 => PhysicalMediumIdentifier::USB_1_1,
            0x11 => PhysicalMediumIdentifier::USB_2,
            0x12 => PhysicalMediumIdentifier::USB_3,
            0x18 => PhysicalMediumIdentifier::NCSIOverRBT,
            0x20 => PhysicalMediumIdentifier::KCSLegacy,
            0x21 => PhysicalMediumIdentifier::KCSPCI,
            0x22 => PhysicalMediumIdentifier::SerialHostLegacy,
            0x23 => PhysicalMediumIdentifier::SerialHostPCI,
            0x24 => PhysicalMediumIdentifier::AsyncSerial,
            0x30 => PhysicalMediumIdentifier::I3CBasic,
            _ => PhysicalMediumIdentifier::Unspecified,
        }
    }

    open spec fn spec_to_u8(&self) -> u8 {
        match self {
            PhysicalMediumIdentifier::Unspecified => 0x00,
            PhysicalMediumIdentifier::SMBUS_2_0_100khz => 0x01,
            PhysicalMediumIdentifier::SMBUS_2_0_I2C_100khz => 0x02,
            PhysicalMediumIdentifier::I2C_100khz => 0x03,
            PhysicalMediumIdentifier::SMBUS_3_0_I2C_400khz => 0x04,
            PhysicalMediumIdentifier::SMBUS_3_0_I2C_1mhz => 0x05,
            PhysicalMediumIdentifier::I2C_3_4mhz => 0x06,
            PhysicalMediumIdentifier::PCIeRev_1_1 => 0x08,
            PhysicalMediumIdentifier::PCIeRev_2_0 => 0x09,
            PhysicalMediumIdentifier::PCIeRev_2_1 => 0x0A,
            PhysicalMediumIdentifier::PCIeRev_3 => 0x0B,
            PhysicalMediumIdentifier::PCIeRev_4 => 0x0C,
            PhysicalMediumIdentifier::PCIeRev_5 => 0x0D,
            PhysicalMediumIdentifier::PCICompatible => 0x0F,
            PhysicalMediumIdentifier::USB_1_1 => 0x10,
            PhysicalMediumIdentifier::USB_2 => 0x11,
            PhysicalMediumIdentifier::USB_3 => 0x12,
            PhysicalMediumIdentifier::NCSIOverRBT => 0x18,
            PhysicalMediumIdentifier::KCSLegacy => 0x20,
            PhysicalMediumIdentifier::KCSPCI => 0x21,
            PhysicalMediumIdentifier::SerialHostLegacy => 0x22,
            PhysicalMediumIdentifier::SerialHostPCI => 0x23,
            PhysicalMediumIdentifier::AsyncSerial => 0x24,
            PhysicalMediumIdentifier::I3CBasic => 0x30,
        }
    }

    fn from_u8(value: u8) -> (e: Self) {
        match value {
            0x01 => PhysicalMediumIdentifier::SMBUS_2_0_100khz,
            0x02 => PhysicalMediumIdentifier::SMBUS_2_0_I2C_100khz,
            0x03 => PhysicalMediumIdentifier::I2C_100khz,
            0x04 => PhysicalMediumIdentifier::SMBUS_3_0_I2C_400khz,
            0x05 => PhysicalMediumIdentifier::SMBUS_3_0_I2C_1mhz,
            0x06 => PhysicalMediumIdentifier::I2C_3_4mhz,
            0x08 => PhysicalMediumIdentifier::PCIeRev_1_1,
            0x09 => PhysicalMediumIdentifier::PCIeRev_2_0,
            0x0A => PhysicalMediumIdentifier::PCIeRev_2_1,
            0x0B => PhysicalMediumIdentifier::PCIeRev_3,
            0x0C => PhysicalMediumIdentifier::PCIeRev_4,
            0x0D => PhysicalMediumIdentifier::PCIeRev_5,
            0x0F => PhysicalMediumIdentifier::PCICompatible,
            0x10 => PhysicalMediumIdentifier::USB_1_1,
            0x11 => PhysicalMediumIdentifier::USB_2,
            0x12 => PhysicalMediumIdentifier::USB_3,
            0x18 => PhysicalMediumIdentifier::NCSIOverRBT,
            0x20 => PhysicalMediumIdentifier::KCSLegacy,
            0x21 => PhysicalMediumIdentifier::KCSPCI,
            0x22 => PhysicalMediumIdentifier::SerialHostLegacy,
            0x23 => PhysicalMediumIdentifier::SerialHostPCI,
            0x24 => PhysicalMediumIdentifier::AsyncSerial,
            0x30 => PhysicalMediumIdentifier::I3CBasic,
            _ => PhysicalMediumIdentifier::Unspecified,
        }
    }

    fn to_u8(&self) -> (v: u8) {
        match self {
            PhysicalMediumIdentifier::Unspecified => 0x00,
            PhysicalMediumIdentifier::SMBUS_2_0_100khz => 0x01,
            PhysicalMediumIdentifier::SMBUS_2_0_I2C_100khz => 0x02,
            PhysicalMediumIdentifier::I2C_100khz => 0x03,
            PhysicalMediumIdentifier::SMBUS_3_0_I2C_400khz => 0x04,
            PhysicalMediumIdentifier::SMBUS_3_0_I2C_1mhz => 0x05,
            PhysicalMediumIdentifier::I2C_3_4mhz => 0x06,
            PhysicalMediumIdentifier::PCIeRev_1_1 => 0x08,
            PhysicalMediumIdentifier::PCIeRev_2_0 => 0x09,
            PhysicalMediumIdentifier::PCIeRev_2_1 => 0x0A,
            PhysicalMediumIdentifier::PCIeRev_3 => 0x0B,
            PhysicalMediumIdentifier::PCIeRev_4 => 0x0C,
            PhysicalMediumIdentifier::PCIeRev_5 => 0x0D,
            PhysicalMediumIdentifier::PCICompatible => 0x0F,
            PhysicalMediumIdentifier::USB_1_1 => 0x10,
            PhysicalMediumIdentifier::USB_2 => 0x11,
            PhysicalMediumIdentifier::USB_3 => 0x12,
            PhysicalMediumIdentifier::NCSIOverRBT => 0x18,
            PhysicalMediumIdentifier::KCSLegacy => 0x20,
            PhysicalMediumIdentifier::KCSPCI => 0x21,
            PhysicalMediumIdentifier::SerialHostLegacy => 0x22,
            PhysicalMediumIdentifier::SerialHostPCI => 0x23,
            PhysicalMediumIdentifier::AsyncSerial => 0x24,
            PhysicalMediumIdentifier::I3CBasic => 0x30,
        }
    }

    proof fn lemma_from_to(&self) {
    }
}

impl From<u8> for PhysicalMediumIdentifier {
    fn from(value: u8) -> (e: Self) {
        PhysicalMediumIdentifier::from_u8(value)
    }
}

impl FromSpecImpl<u8> for PhysicalMediumIdentifier {
    open spec fn obeys_from_spec() -> bool {
        true
    }

    open spec fn from_spec(value: u8) -> Self {
        PhysicalMediumIdentifier::spec_from_u8(value)
    }
}

/// The transport binding of an interface.
#[derive(Debug, PartialEq, Eq, Copy, Clone, Structural)]
pub enum PhysicalTransportBinding {
    /// Reserved.
    Reserved,
    /// MCTP over SMBus.
    MCTPoverSMBus,
    /// MCTP over PCIe vendor-defined messages.
    MCTPoverPcieVdm,
    /// MCTP over KCS.
    MCTPoverKCS,
    /// MCTP over serial.
    MCTPoverSerial,
    /// MCTP over I3C.
    MCTPoverI3C,
    /// Vendor defined; also every unassigned value.
    VendorDefined,
}

impl Default for PhysicalTransportBinding {
    fn default() -> (e: Self)
        ensures
            e == PhysicalTransportBinding::VendorDefined,
    {
        PhysicalTransportBinding::VendorDefined
    }
}

impl U8Enum for PhysicalTransportBinding {
    open spec fn spec_from_u8(value: u8) -> Self {
        match value {
            0x00 => PhysicalTransportBinding::Reserved,
            0x01 => PhysicalTransportBinding::MCTPoverSMBus,
            0x02 => PhysicalTransportBinding::MCTPoverPcieVdm,
            0x04 => PhysicalTransportBinding::MCTPoverKCS,
            0x05 => PhysicalTransportBinding::MCTPoverSerial,
            0x06 => PhysicalTransportBinding::MCTPoverI3C,
            _ => PhysicalTransportBinding::VendorDefined,
        }
    }

    open spec fn spec_to_u8(&self) -> u8 {
        match self {
            PhysicalTransportBinding::Reserved => 0x00,
            PhysicalTransportBinding::MCTPoverSMBus => 0x01,
            PhysicalTransportBinding::MCTPoverPcieVdm => 0x02,
            PhysicalTransportBinding::MCTPoverKCS => 0x04,
            PhysicalTransportBinding::MCTPoverSerial => 0x05,
            PhysicalTransportBinding::MCTPoverI3C => 0x06,
            PhysicalTransportBinding::VendorDefined => 0xFF,
        }
    }

    fn from_u8(value: u8) -> (e: Self) {
        match value {
            0x00 => PhysicalTransportBinding::Reserved,
            0x01 => PhysicalTransportBinding::MCTPoverSMBus,
            0x02 => PhysicalTransportBinding::MCTPoverPcieVdm,
            0x04 => PhysicalTransportBinding::MCTPoverKCS,
            0x05 => PhysicalTransportBinding::MCTPoverSerial,
            0x06 => PhysicalTransportBinding::MCTPoverI3C,
            _ => PhysicalTransportBinding::VendorDefined,
        }
    }

    fn to_u8(&self) -> (v: u8) {
        match self {
            PhysicalTransportBinding::Reserved => 0x00,
            PhysicalTransportBinding::MCTPoverSMBus => 0x01,
            PhysicalTransportBinding::MCTPoverPcieVdm => 0x02,
            PhysicalTransportBinding::MCTPoverKCS => 0x04,
            PhysicalTransportBinding::MCTPoverSerial => 0x05,
            PhysicalTransportBinding::MCTPoverI3C => 0x06,
            PhysicalTransportBinding::VendorDefined => 0xFF,
        }
    }

    proof fn lemma_from_to(&self) {
    }
}

impl From<u8> for PhysicalTransportBinding {
    fn from(value: u8) -> (e: Self) {
        PhysicalTransportBinding::from_u8(value)
    }
}

impl FromSpecImpl<u8> for PhysicalTransportBinding {
    open spec fn obeys_from_spec() -> bool {
        true
    }

    open spec fn from_spec(value: u8) -> Self {
        PhysicalTransportBinding::spec_from_u8(value)
    }
}

} // verus!
