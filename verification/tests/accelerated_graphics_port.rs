use pcics::capabilities::accelerated_graphics_port::{AcceleratedGraphicsPort, ApertureSize, CalCycle, Command, Control, DataRateEnabled, DataRateSupport, EnabledAperturePageSize, GartPointer, Identifier, IsochErrorCode, IsochY, IsochronousCommand, IsochronousStatus, Status};

#[test]
fn decode_all_bits_are_one() {
    let data = [0xffu8; 48];
    let result: AcceleratedGraphicsPort = data[2..].try_into().unwrap();
    let sample = AcceleratedGraphicsPort {
        identifier: Identifier {
            minor: 15,
            major: 15,
        },
        status: Status {
            rq: 255,
            isoch_support: true,
            reserved: true,
            arqsz: 7,
            cal_cycle: CalCycle::CalibrationCycleNotNeeded,
            sba: true,
            ita_coh: true,
            gart64b: true,
            htrans: true,
            over4g: true,
            fw: true,
            agp_3_0_mode: true,
            rate: DataRateSupport::Reserved(7),
        },
        command: Command {
            prq: 0xff,
            parqsz: 7,
            pcal_cycle: CalCycle::CalibrationCycleNotNeeded,
            sba_enable: true,
            agp_enable: true,
            gart64b: true,
            over4g: true,
            fw_enable: true,
            drate: DataRateEnabled::Reserved(7),
        },
        isochronous_status: Some(IsochronousStatus {
            maxbw: 0xff,
            isoch_n: 0xff,
            isoch_y: IsochY(3),
            isoch_l: 7,
            isoch_error_code: IsochErrorCode(3),
        }),
        control: Some(Control {
            cal_cycle_dis: true,
            aperenb: true,
            gtlben: true,
        }),
        aperture_size: Some(ApertureSize(0xffff)),
        enabled_aperture_page_size: Some(EnabledAperturePageSize(0xffff)),
        gart_pointer: Some(GartPointer {
            gartlo: u32::MAX,
            garthi: u32::MAX,
        }),
        isochronous_command: Some(IsochronousCommand {
            pisoch_n: 0xff,
            pisoch_y: 3,
        }),
    };
    assert_eq!(sample, result);
}
