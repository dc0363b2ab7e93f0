use pcics::capabilities::pci_x::{BridgeStatus, Command, DeviceComplexity, Ecc, EccControlAndStatus, EccErrorPhase, ErrorProtection, MaximumByteCount, MaximumCumulativeReadSize, MaximumOutstandingSplitTransactions, PciX, PciXBridge, SecondaryBusFrequency, SecondaryBusMode, SecondaryStatus, SplitTransactionControl, Status, Syndrome};

#[test]
fn pci_x_device_with_mode_1_or_2_ecc() {
    let data = [
        0x07, 0x00, // Header
        0x24, 0b0010_0000, // Command
        0x21, 0x04, 0xAA, 0xAA, // Status
        0xAA, 0xAA, 0xAA, 0xAA, // ECC Control and Status
        0x01, 0x00, 0x00, 0x00, // ECC First Address
        0x02, 0x00, 0x00, 0x00, // ECC Second Address
        0x03, 0x00, 0x00, 0x00, // ECC Attribute
    ];
    let result: PciX = data[2..].try_into().unwrap();
    let sample = PciX {
        command: Command {
            uncorrectable_data_error_recovery_enable: false,
            enable_relaxed_ordering: false,
            maximum_memory_read_byte_count: MaximumByteCount(1),
            maximum_outstanding_split_transactions: MaximumOutstandingSplitTransactions(2),
        },
        status: Status {
            function_number: 1,
            device_number: 4,
            bus_number: 4,
            device_64_bit: false,
            pci_x_133_capable: true,
            slit_completion_discarded: false,
            unexpected_split_completion: true,
            device_complexity: DeviceComplexity::Simple,
            designed_maximum_memory_read_byte_count: MaximumByteCount(1),
            designed_maximum_outstanding_split_transactions:
                MaximumOutstandingSplitTransactions(5),
            designed_maximum_cumulative_read_size: MaximumCumulativeReadSize(2),
            received_split_completion_error_message: true,
            pci_x_266_capable: false,
            pci_x_533_capable: true,
        },
        ecc: Ecc::Mode1OrMode2 {
            control_and_status: EccControlAndStatus {
                select_secondary_ecc_registers: false,
                error_present_in_other_ecc_register_bank: true,
                additional_correctable_ecc_error: false,
                additional_uncorrectable_ecc_error: true,
                ecc_error_phase: EccErrorPhase::Second32bits,
                ecc_error_corrected: true,
                syndrome: Syndrome {
                    e0: false,
                    e1: true,
                    e2: false,
                    e3: true,
                    e4: false,
                    e5: true,
                    e6: false,
                    e7: true,
                },
                error_first_command: 0xA,
                error_second_command: 0xA,
                error_upper_attributes: 0xA,
                ecc_control_update_enable: false,
                disable_single_bit_error_correction: false,
                ecc_mode: true,
            },
            first_address: 0x01,
            second_address: 0x02,
            attribute: 0x03,
        },
    };
    assert_eq!(sample, result);
}

#[test]
fn pci_x_bridge_without_ecc() {
    let data = [
        0x07, 0x00, // Header
        0x55, 0x05, // Secondary Status
        0x55, 0x55, 0x55, 0x55, // Bridge Status
        0x00, 0x11, 0x22, 0x33, // Upstream Split Transaction
        0x44, 0x55, 0x66, 0x77, // Downstream Split Transaction
    ];
    let result: PciXBridge = data[2..].try_into().unwrap();
    let sample = PciXBridge {
        secondary_status: SecondaryStatus {
            device_64_bit: true,
            pci_x_133_capable: false,
            slit_completion_discarded: true,
            unexpected_split_completion: false,
            split_completion_overrun: true,
            split_request_delayed: false,
            secondary_bus_mode: SecondaryBusMode::Mode1,
            error_protection: ErrorProtection::Ecc,
            secondary_bus_frequency: SecondaryBusFrequency::Freq66MHz,
            pci_x_266_capable: false,
            pci_x_533_capable: false,
        },
        bridge_status: BridgeStatus {
            function_number: 5,
            device_number: 10,
            bus_number: 0x55,
            device_64_bit: true,
            pci_x_133_capable: false,
            slit_completion_discarded: true,
            unexpected_split_completion: false,
            split_completion_overrun: true,
            split_request_delayed: false,
            device_id_messaging_capable: false,
            pci_x_266_capable: true,
            pci_x_533_capable: false,
        },
        upstream_split_transaction_control: SplitTransactionControl {
            split_transaction_capacity: 0x1100,
            split_transaction_commitment_limit: 0x3322,
        },
        downstream_split_transaction_control: SplitTransactionControl {
            split_transaction_capacity: 0x5544,
            split_transaction_commitment_limit: 0x7766,
        },
        ecc: Ecc::NoEcc,
    };
    assert_eq!(sample, result);
}
