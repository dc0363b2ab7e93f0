use pcics::extended_capabilities::vf_resizable_bar::{
    ResizableBar, ResizableBarCapability, ResizableBarControl, ResizableBarEntry,
    ResizableBarError,
};

const DATA: [u8; 20] = [
    /* 00h */ 0x15, 0x00, 0x01, 0x00, // Capability header
    /* 04h */ 0x00, 0x11, 0x22, 0x44, // Resizable BAR Capability (0)
    /* 08h */ 0x40, 0x03, 0x24, 0x01, // Resizable BAR Control (0)
    /* 0Ch */ 0x10, 0x20, 0x40, 0x80, // Resizable BAR Capability (1)
    /* 10h */ 0x01, 0x0f, 0x10, 0x42, // Resizable BAR Control (1)
];

#[test]
fn resizable_bar_entries() {
    let mut rebar: ResizableBar = DATA.as_slice().try_into().unwrap();
    let result = rebar.clone().entries();
    let sample = vec![
        ResizableBarEntry {
            capability: ResizableBarCapability {
                support_map_from_1mb_to_128tb: 0x44221100,
            },
            control: ResizableBarControl {
                bar_index: 0,
                number_of_resizable_bars: 2,
                bar_size: 3,
                support_map_from_256tb_to_8eb: 0x0124,
            },
        },
        ResizableBarEntry {
            capability: ResizableBarCapability {
                support_map_from_1mb_to_128tb: 0x80402010,
            },
            control: ResizableBarControl {
                bar_index: 1,
                number_of_resizable_bars: 0,
                bar_size: 15,
                support_map_from_256tb_to_8eb: 0x4210,
            },
        },
    ];
    assert_eq!(sample, result);

    let _first_entry = rebar.next().unwrap();
    let second_entry = rebar.next().unwrap();
    assert_eq!(None, rebar.next());
    let supported_sizes = ResizableBarEntry::BAR_SIZES
        .iter()
        .enumerate()
        .filter_map(|(n, s)| {
            if second_entry.is_function_supports_power_of_two(n + 20) {
                Some(s)
            } else {
                None
            }
        })
        .collect::<Vec<_>>();
    assert_eq!(
        vec![&"1MB", &"512MB", &"256GB", &"128TB", &"4PB", &"128PB", &"4EB",],
        supported_sizes
    );
}

#[test]
fn resizable_bar_power_of_two_out_of_range() {
    let rebar: ResizableBar = DATA.as_slice().try_into().unwrap();
    let entry = rebar.clone().entries().remove(0);
    // 2^19 and 2^64 lie outside the sizes that the registers describe
    assert!(!entry.is_function_supports_power_of_two(19));
    assert!(!entry.is_function_supports_power_of_two(64));
    // 0x44221100: bit 8 (2^28) is set, bit 0 (2^20) is not
    assert!(entry.is_function_supports_power_of_two(28));
    assert!(!entry.is_function_supports_power_of_two(20));
}

#[test]
fn resizable_bar_errors() {
    let short: Result<ResizableBar, _> = DATA[..11].try_into();
    assert_eq!(Err(ResizableBarError::FirstEntry), short);
    let mut zero_bars = DATA;
    zero_bars[8] = 0x00;
    let zero: Result<ResizableBar, _> = zero_bars.as_slice().try_into();
    assert_eq!(
        Err(ResizableBarError::NumberOfResizableBars { value: 0 }),
        zero
    );
    let mut three_bars = DATA;
    three_bars[8] = 0x60;
    let three: Result<ResizableBar, _> = three_bars.as_slice().try_into();
    assert_eq!(Err(ResizableBarError::ShortData), three);
}
