//! PCI-X capability of Type 00h and Type 01h (bridge) configuration space headers.
use vstd::prelude::*;
use vstd::arithmetic::power2::pow2;
use crate::bits::{field, flag, get_flag, get_u8, le_u16, le_u32, pow2_usize, read_u16, read_u32};

verus! {

broadcast use crate::bits::lemma_field_le_mask;

/// PCI-X Errors
#[derive(Debug, Clone, PartialEq, Eq)]
pub enum PciXError {
    /// Command and status registers are unreadable
    CommandAndStatus,
    /// Mode 2 ECC registers are unreadable
    EccMode2Only,
    /// Mode 1/2 ECC registers are unreadable
    EccMode1OrMode2,
}

/// Type 00h Configuration Space header PCI-X Capabilities
#[derive(Debug, Clone, PartialEq, Eq)]
pub struct PciX {
    pub command: Command,
    pub status: Status,
    pub ecc: Ecc,
}

impl PciX {
    /// Size of the Command and Status registers
    pub const MANDATORY_SIZE: usize = 6;

    /// The capability that `bytes` (the data after the capability header) holds.
    pub open spec fn spec_parse(bytes: Seq<u8>) -> Result<PciX, PciXError> {
        if bytes.len() < 6 {
            Err(PciXError::CommandAndStatus)
        } else {
            let command = le_u16(bytes, 0);
            let version = field(command as u32, 12, 0x3);
            let ecc_bytes = bytes.skip(6);
            let ecc = if version == 1 && ecc_bytes.len() < 16 {
                Err(PciXError::EccMode2Only)
            } else if version == 2 && ecc_bytes.len() < 16 {
                Err(PciXError::EccMode1OrMode2)
            } else {
                Ok(Ecc::spec_parse(version as u8, ecc_bytes))
            };
            match ecc {
                Ok(ecc) => Ok(PciX {
                    command: Command::spec_from(command),
                    status: Status::spec_from(le_u32(bytes, 2)),
                    ecc,
                }),
                Err(e) => Err(e),
            }
        }
    }
}

impl vstd::std_specs::convert::TryFromSpecImpl<&[u8]> for PciX {
    open spec fn obeys_try_from_spec() -> bool {
        true
    }

    open spec fn try_from_spec(slice: &[u8]) -> Result<Self, Self::Error> {
        Self::spec_parse(slice@)
    }
}

impl TryFrom<&[u8]> for PciX {
    type Error = PciXError;

    fn try_from(slice: &[u8]) -> (r: Result<Self, Self::Error>) {
        if slice.len() < 6 {
            return Err(PciXError::CommandAndStatus);
        }
        let command = read_u16(slice, 0);
        let status = read_u32(slice, 2);
        let version = get_u8(command as u32, 12, 0x3);
        let tail = &slice[6..slice.len()];
        assert(tail@ == slice@.skip(6));
        if version == 1 && tail.len() < 16 {
            return Err(PciXError::EccMode2Only);
        }
        if version == 2 && tail.len() < 16 {
            return Err(PciXError::EccMode1OrMode2);
        }
        let ecc = Ecc::parse(version, tail);
        Ok(PciX { command: Command::from(command), status: Status::from(status), ecc })
    }
}

/// Controls various modes and features of the PCI-X device
#[derive(Debug, Clone, PartialEq, Eq)]
pub struct Command {
    /// Enable the device to attempt to recover from uncorrectable data errors
    pub uncorrectable_data_error_recovery_enable: bool,
    /// Permitted to set the Relaxed Ordering bit in the Requester Attributes
    pub enable_relaxed_ordering: bool,
    pub maximum_memory_read_byte_count: MaximumByteCount,
    pub maximum_outstanding_split_transactions: MaximumOutstandingSplitTransactions,
}

impl Command {
    /// The fields of the register value `word`.
    pub open spec fn spec_from(word: u16) -> Self {
        Command {
            uncorrectable_data_error_recovery_enable: flag(word as u32, 0),
            enable_relaxed_ordering: flag(word as u32, 1),
            maximum_memory_read_byte_count: MaximumByteCount(field(word as u32, 2, 0x3) as u8),
            maximum_outstanding_split_transactions: MaximumOutstandingSplitTransactions(field(word as u32, 4, 0x7) as u8),
        }
    }
}

impl vstd::std_specs::convert::FromSpecImpl<u16> for Command {
    open spec fn obeys_from_spec() -> bool {
        true
    }

    open spec fn from_spec(word: u16) -> Self {
        Self::spec_from(word)
    }
}

impl From<u16> for Command {
    fn from(word: u16) -> (r: Self) {
        let w = word as u32;
        Command {
            uncorrectable_data_error_recovery_enable: get_flag(w, 0),
            enable_relaxed_ordering: get_flag(w, 1),
            maximum_memory_read_byte_count: MaximumByteCount(get_u8(w, 2, 0x3)),
            maximum_outstanding_split_transactions: MaximumOutstandingSplitTransactions(get_u8(w, 4, 0x7)),
        }
    }
}

/// Maximum byte count the device uses when initiating a Sequence with one of the burst memory read commands
#[derive(Debug, Clone, PartialEq, Eq)]
pub struct MaximumByteCount(pub u8);

/// A number that is greater than or equal to the maximum number of Split Transactions
#[derive(Debug, Clone, PartialEq, Eq)]
pub struct MaximumOutstandingSplitTransactions(pub u8);

/// Capabilities and current operating mode of the device
#[derive(Debug, Clone, PartialEq, Eq)]
pub struct Status {
    pub function_number: u8,
    pub device_number: u8,
    pub bus_number: u8,
    pub device_64_bit: bool,
    /// Device is capable of 133 MHz operation in PCI-X mode
    pub pci_x_133_capable: bool,
    pub slit_completion_discarded: bool,
    pub unexpected_split_completion: bool,
    pub device_complexity: DeviceComplexity,
    pub designed_maximum_memory_read_byte_count: MaximumByteCount,
    pub designed_maximum_outstanding_split_transactions: MaximumOutstandingSplitTransactions,
    pub designed_maximum_cumulative_read_size: MaximumCumulativeReadSize,
    pub received_split_completion_error_message: bool,
    pub pci_x_266_capable: bool,
    pub pci_x_533_capable: bool,
}

impl Status {
    /// The fields of the register value `dword`.
    pub open spec fn spec_from(dword: u32) -> Self {
        Status {
            function_number: field(dword, 0, 0x7) as u8,
            device_number: field(dword, 3, 0x1f) as u8,
            bus_number: field(dword, 8, 0xff) as u8,
            device_64_bit: flag(dword, 16),
            pci_x_133_capable: flag(dword, 17),
            slit_completion_discarded: flag(dword, 18),
            unexpected_split_completion: flag(dword, 19),
            device_complexity: DeviceComplexity::spec_from(flag(dword, 20)),
            designed_maximum_memory_read_byte_count: MaximumByteCount(field(dword, 21, 0x3) as u8),
            designed_maximum_outstanding_split_transactions: MaximumOutstandingSplitTransactions(field(dword, 23, 0x7) as u8),
            designed_maximum_cumulative_read_size: MaximumCumulativeReadSize(field(dword, 26, 0x7) as u8),
            received_split_completion_error_message: flag(dword, 29),
            pci_x_266_capable: flag(dword, 30),
            pci_x_533_capable: flag(dword, 31),
        }
    }
}

impl vstd::std_specs::convert::FromSpecImpl<u32> for Status {
    open spec fn obeys_from_spec() -> bool {
        true
    }

    open spec fn from_spec(dword: u32) -> Self {
        Self::spec_from(dword)
    }
}

impl From<u32> for Status {
    fn from(dword: u32) -> (r: Self) {
        Status {
            function_number: get_u8(dword, 0, 0x7),
            device_number: get_u8(dword, 3, 0x1f),
            bus_number: get_u8(dword, 8, 0xff),
            device_64_bit: get_flag(dword, 16),
            pci_x_133_capable: get_flag(dword, 17),
            slit_completion_discarded: get_flag(dword, 18),
            unexpected_split_completion: get_flag(dword, 19),
            device_complexity: DeviceComplexity::from(get_flag(dword, 20)),
            designed_maximum_memory_read_byte_count: MaximumByteCount(get_u8(dword, 21, 0x3)),
            designed_maximum_outstanding_split_transactions: MaximumOutstandingSplitTransactions(get_u8(dword, 23, 0x7)),
            designed_maximum_cumulative_read_size: MaximumCumulativeReadSize(get_u8(dword, 26, 0x7)),
            received_split_completion_error_message: get_flag(dword, 29),
            pci_x_266_capable: get_flag(dword, 30),
            pci_x_533_capable: get_flag(dword, 31),
        }
    }
}

/// Whether this device is a simple device or a bridge device
#[derive(Debug, Clone, Copy, PartialEq, Eq)]
pub enum DeviceComplexity {
    Simple,
    Bridge,
}

impl DeviceComplexity {
    /// The value that `b` encodes.
    pub open spec fn spec_from(b: bool) -> Self {
        if b {
            Self::Bridge
        } else {
            Self::Simple
        }
    }
}

impl vstd::std_specs::convert::FromSpecImpl<bool> for DeviceComplexity {
    open spec fn obeys_from_spec() -> bool {
        true
    }

    open spec fn from_spec(b: bool) -> Self {
        Self::spec_from(b)
    }
}

impl From<bool> for DeviceComplexity {
    fn from(b: bool) -> (r: Self) {
        if b {
            Self::Bridge
        } else {
            Self::Simple
        }
    }
}

/// A number that is greater than or equal to the maximum cumulative size of all burst memory read transactions outstanding at one time
#[derive(Debug, Clone, PartialEq, Eq)]
pub struct MaximumCumulativeReadSize(pub u8);

/// Indicate the format of the PCI-X Capabilities List item, and whether the device supports ECC
/// in Mode 1
#[derive(Debug, Clone, PartialEq, Eq)]
pub enum Ecc {
    NoEcc,
    Mode2Only {
        control_and_status: EccControlAndStatus,
        first_address: u32,
        second_address: u32,
        attribute: u32,
    },
    Mode1OrMode2 {
        control_and_status: EccControlAndStatus,
        first_address: u32,
        second_address: u32,
        attribute: u32,
    },
    Reserved,
}

impl Ecc {
    /// The ECC registers that the capability list item `version` announces in `bytes`.
    pub open spec fn spec_parse(version: u8, bytes: Seq<u8>) -> Ecc {
        if version == 0 {
            Ecc::NoEcc
        } else if version == 1 {
            Ecc::Mode2Only {
                control_and_status: EccControlAndStatus::spec_from(le_u32(bytes, 0)),
                first_address: le_u32(bytes, 4),
                second_address: le_u32(bytes, 8),
                attribute: le_u32(bytes, 12),
            }
        } else if version == 2 {
            Ecc::Mode1OrMode2 {
                control_and_status: EccControlAndStatus::spec_from(le_u32(bytes, 0)),
                first_address: le_u32(bytes, 4),
                second_address: le_u32(bytes, 8),
                attribute: le_u32(bytes, 12),
            }
        } else {
            Ecc::Reserved
        }
    }

    fn parse(version: u8, bytes: &[u8]) -> (r: Ecc)
        requires
            version < 4,
            version == 1 || version == 2 ==> bytes@.len() >= 16,
        ensures
            r == Ecc::spec_parse(version, bytes@),
    {
        if version == 0 {
            Ecc::NoEcc
        } else if version == 3 {
            Ecc::Reserved
        } else {
            let control_and_status = EccControlAndStatus::from(read_u32(bytes, 0));
            let first_address = read_u32(bytes, 4);
            let second_address = read_u32(bytes, 8);
            let attribute = read_u32(bytes, 12);
            if version == 1 {
                Ecc::Mode2Only { control_and_status, first_address, second_address, attribute }
            } else {
                Ecc::Mode1OrMode2 { control_and_status, first_address, second_address, attribute }
            }
        }
    }
}

/// Provides information about detected ECC errors
#[derive(Debug, Clone, PartialEq, Eq)]
pub struct EccControlAndStatus {
    pub select_secondary_ecc_registers: bool,
    pub error_present_in_other_ecc_register_bank: bool,
    pub additional_correctable_ecc_error: bool,
    pub additional_uncorrectable_ecc_error: bool,
    pub ecc_error_phase: EccErrorPhase,
    pub ecc_error_corrected: bool,
    pub syndrome: Syndrome,
    pub error_first_command: u8,
    pub error_second_command: u8,
    pub error_upper_attributes: u8,
    pub ecc_control_update_enable: bool,
    pub disable_single_bit_error_correction: bool,
    pub ecc_mode: bool,
}

impl EccControlAndStatus {
    /// The fields of the register value `dword`.
    pub open spec fn spec_from(dword: u32) -> Self {
        EccControlAndStatus {
            select_secondary_ecc_registers: flag(dword, 0),
            error_present_in_other_ecc_register_bank: flag(dword, 1),
            additional_correctable_ecc_error: flag(dword, 2),
            additional_uncorrectable_ecc_error: flag(dword, 3),
            ecc_error_phase: EccErrorPhase::spec_from_bits(field(dword, 4, 0x7) as u8),
            ecc_error_corrected: flag(dword, 7),
            syndrome: Syndrome::spec_from(field(dword, 8, 0xff) as u8),
            error_first_command: field(dword, 16, 0xf) as u8,
            error_second_command: field(dword, 20, 0xf) as u8,
            error_upper_attributes: field(dword, 24, 0xf) as u8,
            ecc_control_update_enable: flag(dword, 28),
            disable_single_bit_error_correction: flag(dword, 30),
            ecc_mode: flag(dword, 31),
        }
    }
}

impl vstd::std_specs::convert::FromSpecImpl<u32> for EccControlAndStatus {
    open spec fn obeys_from_spec() -> bool {
        true
    }

    open spec fn from_spec(dword: u32) -> Self {
        Self::spec_from(dword)
    }
}

impl From<u32> for EccControlAndStatus {
    fn from(dword: u32) -> (r: Self) {
        EccControlAndStatus {
            select_secondary_ecc_registers: get_flag(dword, 0),
            error_present_in_other_ecc_register_bank: get_flag(dword, 1),
            additional_correctable_ecc_error: get_flag(dword, 2),
            additional_uncorrectable_ecc_error: get_flag(dword, 3),
            ecc_error_phase: EccErrorPhase::from_bits(get_u8(dword, 4, 0x7)),
            ecc_error_corrected: get_flag(dword, 7),
            syndrome: Syndrome::from(get_u8(dword, 8, 0xff)),
            error_first_command: get_u8(dword, 16, 0xf),
            error_second_command: get_u8(dword, 20, 0xf),
            error_upper_attributes: get_u8(dword, 24, 0xf),
            ecc_control_update_enable: get_flag(dword, 28),
            disable_single_bit_error_correction: get_flag(dword, 30),
            ecc_mode: get_flag(dword, 31),
        }
    }
}

/// ECC Error Phase
#[derive(Debug, Clone, Copy, PartialEq, Eq)]
pub enum EccErrorPhase {
    /// No error
    NoError,
    /// First 32 bits of address
    First32bits,
    /// Second 32 bits of address
    Second32bits,
    /// Attribute phase
    AttributePhase,
    /// 32- or 16-bit data phase
    Phase32or16bit,
    /// 64-bit data phase
    Phase64bit,
    /// Reserved
    Reserved,
}

impl EccErrorPhase {
    /// The value that the field `byte` encodes; a field holds less than 8.
    pub open spec fn spec_from_bits(byte: u8) -> Self {
        match byte {
            0 => Self::NoError,
            1 => Self::First32bits,
            2 => Self::Second32bits,
            3 => Self::AttributePhase,
            4 => Self::Phase32or16bit,
            5 => Self::Phase64bit,
            _ => Self::Reserved,
        }
    }

    /// Decodes the field `byte`.
    pub fn from_bits(byte: u8) -> (r: Self)
        requires
            byte < 8,
        ensures
            r == Self::spec_from_bits(byte),
    {
        match byte {
            0 => Self::NoError,
            1 => Self::First32bits,
            2 => Self::Second32bits,
            3 => Self::AttributePhase,
            4 => Self::Phase32or16bit,
            5 => Self::Phase64bit,
            _ => Self::Reserved,
        }
    }
}

/// The syndrome indicates information about the bit or bits that are in error
#[derive(Debug, Clone, PartialEq, Eq)]
pub struct Syndrome {
    pub e0: bool,
    pub e1: bool,
    pub e2: bool,
    pub e3: bool,
    pub e4: bool,
    pub e5: bool,
    pub e6: bool,
    /// E7 for 64-bit data, 0b for 32-bit data, or E16/Chk for 16-bit data
    pub e7: bool,
}

impl Syndrome {
    /// The fields of the register value `byte`.
    pub open spec fn spec_from(byte: u8) -> Self {
        Syndrome {
            e0: flag(byte as u32, 0),
            e1: flag(byte as u32, 1),
            e2: flag(byte as u32, 2),
            e3: flag(byte as u32, 3),
            e4: flag(byte as u32, 4),
            e5: flag(byte as u32, 5),
            e6: flag(byte as u32, 6),
            e7: flag(byte as u32, 7),
        }
    }
}

impl vstd::std_specs::convert::FromSpecImpl<u8> for Syndrome {
    open spec fn obeys_from_spec() -> bool {
        true
    }

    open spec fn from_spec(byte: u8) -> Self {
        Self::spec_from(byte)
    }
}

impl From<u8> for Syndrome {
    fn from(byte: u8) -> (r: Self) {
        let w = byte as u32;
        Syndrome {
            e0: get_flag(w, 0),
            e1: get_flag(w, 1),
            e2: get_flag(w, 2),
            e3: get_flag(w, 3),
            e4: get_flag(w, 4),
            e5: get_flag(w, 5),
            e6: get_flag(w, 6),
            e7: get_flag(w, 7),
        }
    }
}

impl MaximumByteCount {
    /// The byte count: two to the power of the field plus nine.
    pub fn value(&self) -> (r: usize)
        requires
            self.0 + 9 < usize::BITS,
        ensures
            r == pow2((self.0 + 9) as nat),
    {
        pow2_usize(self.0 as u32 + 9)
    }
}

impl MaximumOutstandingSplitTransactions {
    /// The number of split transactions that the field encodes.
    pub open spec fn spec_value(&self) -> u8 {
        match self.0 {
            0 => 1,
            1 => 2,
            2 => 3,
            3 => 4,
            4 => 8,
            5 => 12,
            6 => 16,
            _ => 32,
        }
    }

    /// The number of split transactions that the field encodes.
    pub fn value(&self) -> (r: u8)
        requires
            self.0 < 8,
        ensures
            r == self.spec_value(),
    {
        match self.0 {
            0 => 1,
            1 => 2,
            2 => 3,
            3 => 4,
            4 => 8,
            5 => 12,
            6 => 16,
            _ => 32,
        }
    }
}

impl MaximumCumulativeReadSize {
    /// The size in ADQs (128 bytes): two to the power of the field plus three.
    pub fn adqs(&self) -> (r: usize)
        requires
            self.0 + 3 < usize::BITS,
        ensures
            r == pow2((self.0 + 3) as nat),
    {
        pow2_usize(self.0 as u32 + 3)
    }

    /// Two to the power of the field.
    pub fn bytes(&self) -> (r: usize)
        requires
            self.0 < usize::BITS,
        ensures
            r == pow2(self.0 as nat),
    {
        pow2_usize(self.0 as u32)
    }
}

/// PCI-X Bridge Errors
#[derive(Debug, Clone, PartialEq, Eq)]
pub enum PciXBridgeError {
    /// Statuses and split transaction control registers are unreadable
    Mandatory,
    /// Mode 2 ECC registers are unreadable
    BridgeEccMode2Only,
    /// Mode 1/2 ECC registers are unreadable
    BridgeEccMode1OrMode2,
}

/// Type 01h Configuration Space header (Bridge) PCI-X Capabilities
#[derive(Debug, Clone, PartialEq, Eq)]
pub struct PciXBridge {
    pub secondary_status: SecondaryStatus,
    pub bridge_status: BridgeStatus,
    pub upstream_split_transaction_control: SplitTransactionControl,
    pub downstream_split_transaction_control: SplitTransactionControl,
    pub ecc: Ecc,
}

impl PciXBridge {
    /// The capability that `bytes` (the data after the capability header) holds.
    pub open spec fn spec_parse(bytes: Seq<u8>) -> Result<PciXBridge, PciXBridgeError> {
        if bytes.len() < 14 {
            Err(PciXBridgeError::Mandatory)
        } else {
            let secondary_status = le_u16(bytes, 0);
            let version = field(secondary_status as u32, 12, 0x3);
            let ecc_bytes = bytes.skip(14);
            if version == 1 && ecc_bytes.len() < 16 {
                Err(PciXBridgeError::BridgeEccMode2Only)
            } else if version == 2 && ecc_bytes.len() < 16 {
                Err(PciXBridgeError::BridgeEccMode1OrMode2)
            } else {
                Ok(PciXBridge {
                    secondary_status: SecondaryStatus::spec_from(secondary_status),
                    bridge_status: BridgeStatus::spec_from(le_u32(bytes, 2)),
                    upstream_split_transaction_control: SplitTransactionControl {
                        split_transaction_capacity: le_u16(bytes, 6),
                        split_transaction_commitment_limit: le_u16(bytes, 8),
                    },
                    downstream_split_transaction_control: SplitTransactionControl {
                        split_transaction_capacity: le_u16(bytes, 10),
                        split_transaction_commitment_limit: le_u16(bytes, 12),
                    },
                    ecc: Ecc::spec_parse(version as u8, ecc_bytes),
                })
            }
        }
    }
}

impl vstd::std_specs::convert::TryFromSpecImpl<&[u8]> for PciXBridge {
    open spec fn obeys_try_from_spec() -> bool {
        true
    }

    open spec fn try_from_spec(slice: &[u8]) -> Result<Self, Self::Error> {
        Self::spec_parse(slice@)
    }
}

impl TryFrom<&[u8]> for PciXBridge {
    type Error = PciXBridgeError;

    fn try_from(slice: &[u8]) -> (r: Result<Self, Self::Error>) {
        if slice.len() < 14 {
            return Err(PciXBridgeError::Mandatory);
        }
        let secondary_status = read_u16(slice, 0);
        let version = get_u8(secondary_status as u32, 12, 0x3);
        let tail = &slice[14..slice.len()];
        assert(tail@ == slice@.skip(14));
        if version == 1 && tail.len() < 16 {
            return Err(PciXBridgeError::BridgeEccMode2Only);
        }
        if version == 2 && tail.len() < 16 {
            return Err(PciXBridgeError::BridgeEccMode1OrMode2);
        }
        Ok(PciXBridge {
            secondary_status: SecondaryStatus::from(secondary_status),
            bridge_status: BridgeStatus::from(read_u32(slice, 2)),
            upstream_split_transaction_control: SplitTransactionControl {
                split_transaction_capacity: read_u16(slice, 6),
                split_transaction_commitment_limit: read_u16(slice, 8),
            },
            downstream_split_transaction_control: SplitTransactionControl {
                split_transaction_capacity: read_u16(slice, 10),
                split_transaction_commitment_limit: read_u16(slice, 12),
            },
            ecc: Ecc::parse(version, tail),
        })
    }
}

/// Reports status information about the secondary bus
#[derive(Debug, Clone, PartialEq, Eq)]
pub struct SecondaryStatus {
    pub device_64_bit: bool,
    pub pci_x_133_capable: bool,
    pub slit_completion_discarded: bool,
    pub unexpected_split_completion: bool,
    pub split_completion_overrun: bool,
    pub split_request_delayed: bool,
    pub secondary_bus_mode: SecondaryBusMode,
    pub error_protection: ErrorProtection,
    pub secondary_bus_frequency: SecondaryBusFrequency,
    pub pci_x_266_capable: bool,
    pub pci_x_533_capable: bool,
}

impl SecondaryStatus {
    /// The fields of the register value `word`.
    pub open spec fn spec_from(word: u16) -> Self {
        SecondaryStatus {
            device_64_bit: flag(word as u32, 0),
            pci_x_133_capable: flag(word as u32, 1),
            slit_completion_discarded: flag(word as u32, 2),
            unexpected_split_completion: flag(word as u32, 3),
            split_completion_overrun: flag(word as u32, 4),
            split_request_delayed: flag(word as u32, 5),
            secondary_bus_mode: SecondaryBusMode::spec_from_bits(field(word as u32, 6, 0xf) as u8),
            error_protection: ErrorProtection::spec_from_bits(field(word as u32, 6, 0xf) as u8),
            secondary_bus_frequency: SecondaryBusFrequency::spec_from_bits(field(word as u32, 6, 0xf) as u8),
            pci_x_266_capable: flag(word as u32, 14),
            pci_x_533_capable: flag(word as u32, 15),
        }
    }
}

impl vstd::std_specs::convert::FromSpecImpl<u16> for SecondaryStatus {
    open spec fn obeys_from_spec() -> bool {
        true
    }

    open spec fn from_spec(word: u16) -> Self {
        Self::spec_from(word)
    }
}

impl From<u16> for SecondaryStatus {
    fn from(word: u16) -> (r: Self) {
        let w = word as u32;
        SecondaryStatus {
            device_64_bit: get_flag(w, 0),
            pci_x_133_capable: get_flag(w, 1),
            slit_completion_discarded: get_flag(w, 2),
            unexpected_split_completion: get_flag(w, 3),
            split_completion_overrun: get_flag(w, 4),
            split_request_delayed: get_flag(w, 5),
            secondary_bus_mode: SecondaryBusMode::from_bits(get_u8(w, 6, 0xf)),
            error_protection: ErrorProtection::from_bits(get_u8(w, 6, 0xf)),
            secondary_bus_frequency: SecondaryBusFrequency::from_bits(get_u8(w, 6, 0xf)),
            pci_x_266_capable: get_flag(w, 14),
            pci_x_533_capable: get_flag(w, 15),
        }
    }
}

impl SecondaryStatus {
    /// The 4-bit Secondary Bus Mode and Frequency field that the mode, the error protection and
    /// the frequency encode together, where they are one of its combinations.
    pub open spec fn spec_secondary_bus_mode_and_frequency(&self) -> Option<u8> {
        match (self.secondary_bus_mode, self.error_protection, self.secondary_bus_frequency) {
            (SecondaryBusMode::Conventional, ErrorProtection::Parity, SecondaryBusFrequency::NotAvailable) => Some(0x0),
            (SecondaryBusMode::Mode1, ErrorProtection::Parity, SecondaryBusFrequency::Freq66MHz) => Some(0x1),
            (SecondaryBusMode::Mode1, ErrorProtection::Parity, SecondaryBusFrequency::Freq100MHz) => Some(0x2),
            (SecondaryBusMode::Mode1, ErrorProtection::Parity, SecondaryBusFrequency::Freq133MHz) => Some(0x3),
            (SecondaryBusMode::Mode1, ErrorProtection::Ecc, SecondaryBusFrequency::Reserved) => Some(0x4),
            (SecondaryBusMode::Mode1, ErrorProtection::Ecc, SecondaryBusFrequency::Freq66MHz) => Some(0x5),
            (SecondaryBusMode::Mode1, ErrorProtection::Ecc, SecondaryBusFrequency::Freq100MHz) => Some(0x6),
            (SecondaryBusMode::Mode1, ErrorProtection::Ecc, SecondaryBusFrequency::Freq133MHz) => Some(0x7),
            (SecondaryBusMode::PciX266, ErrorProtection::Ecc, SecondaryBusFrequency::Reserved) => Some(0x8),
            (SecondaryBusMode::PciX266, ErrorProtection::Ecc, SecondaryBusFrequency::Freq66MHz) => Some(0x9),
            (SecondaryBusMode::PciX266, ErrorProtection::Ecc, SecondaryBusFrequency::Freq100MHz) => Some(0xA),
            (SecondaryBusMode::PciX266, ErrorProtection::Ecc, SecondaryBusFrequency::Freq133MHz) => Some(0xB),
            (SecondaryBusMode::PciX533, ErrorProtection::Ecc, SecondaryBusFrequency::Reserved) => Some(0xC),
            (SecondaryBusMode::PciX533, ErrorProtection::Ecc, SecondaryBusFrequency::Freq66MHz) => Some(0xD),
            (SecondaryBusMode::PciX533, ErrorProtection::Ecc, SecondaryBusFrequency::Freq100MHz) => Some(0xE),
            (SecondaryBusMode::PciX533, ErrorProtection::Ecc, SecondaryBusFrequency::Freq133MHz) => Some(0xF),
            _ => None,
        }
    }

    /// Encodes the mode, the error protection and the frequency back into the 4-bit Secondary
    /// Bus Mode and Frequency field.
    pub fn secondary_bus_mode_and_frequency(&self) -> (r: u8)
        requires
            self.spec_secondary_bus_mode_and_frequency() is Some,
        ensures
            Some(r) == self.spec_secondary_bus_mode_and_frequency(),
    {
        match (self.secondary_bus_mode, self.error_protection, self.secondary_bus_frequency) {
            (SecondaryBusMode::Conventional, ErrorProtection::Parity, SecondaryBusFrequency::NotAvailable) => 0x0,
            (SecondaryBusMode::Mode1, ErrorProtection::Parity, SecondaryBusFrequency::Freq66MHz) => 0x1,
            (SecondaryBusMode::Mode1, ErrorProtection::Parity, SecondaryBusFrequency::Freq100MHz) => 0x2,
            (SecondaryBusMode::Mode1, ErrorProtection::Parity, SecondaryBusFrequency::Freq133MHz) => 0x3,
            (SecondaryBusMode::Mode1, ErrorProtection::Ecc, SecondaryBusFrequency::Reserved) => 0x4,
            (SecondaryBusMode::Mode1, ErrorProtection::Ecc, SecondaryBusFrequency::Freq66MHz) => 0x5,
            (SecondaryBusMode::Mode1, ErrorProtection::Ecc, SecondaryBusFrequency::Freq100MHz) => 0x6,
            (SecondaryBusMode::Mode1, ErrorProtection::Ecc, SecondaryBusFrequency::Freq133MHz) => 0x7,
            (SecondaryBusMode::PciX266, ErrorProtection::Ecc, SecondaryBusFrequency::Reserved) => 0x8,
            (SecondaryBusMode::PciX266, ErrorProtection::Ecc, SecondaryBusFrequency::Freq66MHz) => 0x9,
            (SecondaryBusMode::PciX266, ErrorProtection::Ecc, SecondaryBusFrequency::Freq100MHz) => 0xA,
            (SecondaryBusMode::PciX266, ErrorProtection::Ecc, SecondaryBusFrequency::Freq133MHz) => 0xB,
            (SecondaryBusMode::PciX533, ErrorProtection::Ecc, SecondaryBusFrequency::Reserved) => 0xC,
            (SecondaryBusMode::PciX533, ErrorProtection::Ecc, SecondaryBusFrequency::Freq66MHz) => 0xD,
            (SecondaryBusMode::PciX533, ErrorProtection::Ecc, SecondaryBusFrequency::Freq100MHz) => 0xE,
            (SecondaryBusMode::PciX533, ErrorProtection::Ecc, SecondaryBusFrequency::Freq133MHz) => 0xF,
            _ => 0xF,
        }
    }
}

/// Decoding a Secondary Status register and encoding its mode, error protection and frequency
/// again gives back the 4-bit Secondary Bus Mode and Frequency field of the register.
pub proof fn lemma_secondary_bus_mode_and_frequency_roundtrip(word: u16)
    ensures
        SecondaryStatus::spec_from(word).spec_secondary_bus_mode_and_frequency() == Some(
            field(word as u32, 6, 0xf) as u8,
        ),
{
    let v = field(word as u32, 6, 0xf);
    assert(v <= 0xf);
}

/// Secondary Bus Mode
#[derive(Debug, Clone, Copy, PartialEq, Eq)]
pub enum SecondaryBusMode {
    /// Conventional
    Conventional,
    /// PCI-X Mode 1
    Mode1,
    /// PCI-X 266 (Mode 2)
    PciX266,
    /// PCI-X 533 (Mode 2)
    PciX533,
}

impl SecondaryBusMode {
    /// The value that the field `byte` encodes; a field holds less than 16.
    pub open spec fn spec_from_bits(byte: u8) -> Self {
        match byte {
            0x0 => Self::Conventional,
            byte if 0x1 <= byte && byte <= 0x7 => Self::Mode1,
            byte if 0x8 <= byte && byte <= 0xB => Self::PciX266,
            _ => Self::PciX533,
        }
    }

    /// Decodes the field `byte`.
    pub fn from_bits(byte: u8) -> (r: Self)
        requires
            byte < 16,
        ensures
            r == Self::spec_from_bits(byte),
    {
        match byte {
            0x0 => Self::Conventional,
            byte if 0x1 <= byte && byte <= 0x7 => Self::Mode1,
            byte if 0x8 <= byte && byte <= 0xB => Self::PciX266,
            _ => Self::PciX533,
        }
    }
}

/// Error Protection
#[derive(Debug, Clone, Copy, PartialEq, Eq)]
pub enum ErrorProtection {
    /// Parity
    Parity,
    /// ECC
    Ecc,
}

impl ErrorProtection {
    /// The value that the field `byte` encodes; a field holds less than 16.
    pub open spec fn spec_from_bits(byte: u8) -> Self {
        match byte {
            byte if 0x0 <= byte && byte <= 0x3 => Self::Parity,
            _ => Self::Ecc,
        }
    }

    /// Decodes the field `byte`.
    pub fn from_bits(byte: u8) -> (r: Self)
        requires
            byte < 16,
        ensures
            r == Self::spec_from_bits(byte),
    {
        match byte {
            byte if 0x0 <= byte && byte <= 0x3 => Self::Parity,
            _ => Self::Ecc,
        }
    }
}

/// Secondary Bus Max Clock Freq and Min Clock Period
#[derive(Debug, Clone, Copy, PartialEq, Eq)]
pub enum SecondaryBusFrequency {
    /// N/A
    NotAvailable,
    /// Max Clock Freq 66 MHz, Min Clock Period 15 ns
    Freq66MHz,
    /// Max Clock Freq 100 MHz, Min Clock Period 10 ns
    Freq100MHz,
    /// Max Clock Freq 133 MHz, Min Clock Period 7.5 ns
    Freq133MHz,
    /// Reserved
    Reserved,
}

impl SecondaryBusFrequency {
    /// The value that the field `byte` encodes; a field holds less than 16.
    pub open spec fn spec_from_bits(byte: u8) -> Self {
        match byte {
            0x0 => Self::NotAvailable,
            0x1 | 0x5 | 0x9 | 0xD => Self::Freq66MHz,
            0x2 | 0x6 | 0xA | 0xE => Self::Freq100MHz,
            0x3 | 0x7 | 0xB | 0xF => Self::Freq133MHz,
            _ => Self::Reserved,
        }
    }

    /// Decodes the field `byte`.
    pub fn from_bits(byte: u8) -> (r: Self)
        requires
            byte < 16,
        ensures
            r == Self::spec_from_bits(byte),
    {
        match byte {
            0x0 => Self::NotAvailable,
            0x1 | 0x5 | 0x9 | 0xD => Self::Freq66MHz,
            0x2 | 0x6 | 0xA | 0xE => Self::Freq100MHz,
            0x3 | 0x7 | 0xB | 0xF => Self::Freq133MHz,
            _ => Self::Reserved,
        }
    }
}

/// Capabilities and current operating mode of the bridge on its primary bus
#[derive(Debug, Clone, PartialEq, Eq)]
pub struct BridgeStatus {
    pub function_number: u8,
    pub device_number: u8,
    pub bus_number: u8,
    pub device_64_bit: bool,
    pub pci_x_133_capable: bool,
    pub slit_completion_discarded: bool,
    pub unexpected_split_completion: bool,
    pub split_completion_overrun: bool,
    pub split_request_delayed: bool,
    pub device_id_messaging_capable: bool,
    pub pci_x_266_capable: bool,
    pub pci_x_533_capable: bool,
}

impl BridgeStatus {
    /// The fields of the register value `dword`.
    pub open spec fn spec_from(dword: u32) -> Self {
        BridgeStatus {
            function_number: field(dword, 0, 0x7) as u8,
            device_number: field(dword, 3, 0x1f) as u8,
            bus_number: field(dword, 8, 0xff) as u8,
            device_64_bit: flag(dword, 16),
            pci_x_133_capable: flag(dword, 17),
            slit_completion_discarded: flag(dword, 18),
            unexpected_split_completion: flag(dword, 19),
            split_completion_overrun: flag(dword, 20),
            split_request_delayed: flag(dword, 21),
            device_id_messaging_capable: flag(dword, 29),
            pci_x_266_capable: flag(dword, 30),
            pci_x_533_capable: flag(dword, 31),
        }
    }
}

impl vstd::std_specs::convert::FromSpecImpl<u32> for BridgeStatus {
    open spec fn obeys_from_spec() -> bool {
        true
    }

    open spec fn from_spec(dword: u32) -> Self {
        Self::spec_from(dword)
    }
}

impl From<u32> for BridgeStatus {
    fn from(dword: u32) -> (r: Self) {
        BridgeStatus {
            function_number: get_u8(dword, 0, 0x7),
            device_number: get_u8(dword, 3, 0x1f),
            bus_number: get_u8(dword, 8, 0xff),
            device_64_bit: get_flag(dword, 16),
            pci_x_133_capable: get_flag(dword, 17),
            slit_completion_discarded: get_flag(dword, 18),
            unexpected_split_completion: get_flag(dword, 19),
            split_completion_overrun: get_flag(dword, 20),
            split_request_delayed: get_flag(dword, 21),
            device_id_messaging_capable: get_flag(dword, 29),
            pci_x_266_capable: get_flag(dword, 30),
            pci_x_533_capable: get_flag(dword, 31),
        }
    }
}

/// Controls behavior of the bridge buffers for forwarding Split Transactions
#[derive(Debug, Clone, PartialEq, Eq)]
pub struct SplitTransactionControl {
    /// Split Transaction Capacity
    pub split_transaction_capacity: u16,
    /// Split Transaction Commitment Limit
    pub split_transaction_commitment_limit: u16,
}

} // verus!
