use pcics::capabilities::vendor_specific::{Virtio};

#[test]
fn virtio() {
    // Capabilities: [b4] Vendor Specific Information: VirtIO: Notify
    //         BAR=4 offset=00003000 size=00001000 multiplier=00000004
    let data = [
        0x09, // Vendor Specific ID = 0x09
        0xa4, // next capabilities pointer
        0x14, // length = 20
        0x02, // Virtio type
        0x04, // BAR
        0x00, 0x00, 0x00,       // skipped
        0x00, 0x30, 0x00, 0x00, // offset
        0x00, 0x10, 0x00, 0x00, // size
        0x04, 0x00, 0x00, 0x00  // multiplier
    ];
    let vc: Virtio = data[3..].try_into().unwrap();
    let sample = Virtio::Notify {
        bar: 4, offset: 0x00003000, size: 0x00001000,
        multiplier: Some(0x00000004)
    };
    assert_eq!(sample, vc);
}
