use pcics::capabilities::accelerated_graphics_port::{AcceleratedGraphicsPort, ApertureSize, CalCycle, Command, Control, DataRateEnabled, DataRateSupport, EnabledAperturePageSize, GartPointer, Identifier, IsochErrorCode, IsochY, IsochronousCommand, IsochronousStatus, Status};

#[test]
fn accelerated_graphics_port_parse() {
    let data = [
        0x02, 0x00, // Header
        0x33, 0x00, // Identifier
        0b0101_0001, 0b0101_1101, 0b0000_0010, 0x07, // Status
        0x51, 0b0101_1101, 0x55, 0x55, // Command
        0x55, 0x55, 0x55, 0x55, // IsochronousStatus
        0x55, 0x55, 0x55, 0x55, // Control
        0x55, 0x55, // ApertureSize
        0x55, 0x55, // EnabledAperturePageSize
        0x78, 0x56, 0x34, 0x12, // GartPointer Lo
        0xFF, 0x00, 0x00, 0x00, // GartPointer Hi
        0x55, 0x55, 0x55, 0x55, // IsochronousCommand
        0x55, 0x55, // Status
    ];
    let result: AcceleratedGraphicsPort = data[2..].try_into().unwrap();
    let sample = AcceleratedGraphicsPort {
        identifier: Identifier { minor: 3, major: 3 },
        status: Status {
            rq: 7,
            isoch_support: true,
            reserved: false,
            arqsz: 2,
            cal_cycle: CalCycle::CalibrationCycleNotNeeded,
            sba: false,
            ita_coh: true,
            gart64b: false,
            htrans: true,
            over4g: false,
            fw: true,
            agp_3_0_mode: false,
            rate: DataRateSupport::Speed4x,
        },
        command: Command {
            prq: 0x55,
            parqsz: 2,
            pcal_cycle: CalCycle::CalibrationCycleNotNeeded,
            sba_enable: false,
            agp_enable: true,
            gart64b: false,
            over4g: false,
            fw_enable: true,
            drate: DataRateEnabled::Speed4x,
        },
        isochronous_status: Some(IsochronousStatus {
            maxbw: 0x55,
            isoch_n: 0x55,
            isoch_y: IsochY(1),
            isoch_l: 2,
            isoch_error_code: IsochErrorCode(1),
        }),
        control: Some(Control {
            cal_cycle_dis: false,
            aperenb: true,
            gtlben: false,
        }),
        aperture_size: Some(ApertureSize(0x5555)),
        enabled_aperture_page_size: Some(EnabledAperturePageSize(0x5555)),
        gart_pointer: Some(GartPointer {
            gartlo: 0x12345678,
            garthi: 0xff,
        }),
        isochronous_command: Some(IsochronousCommand {
            pisoch_n: 0x55,
            pisoch_y: 1,
        }),
    };
    assert_eq!(sample, result);
}
