use pcics::capabilities::pci_x::{SecondaryStatus};

#[test]
fn secondary_bus_mode_and_frequency() {
    for word in 0..256u16 {
        let ss: SecondaryStatus = (word << 6).into();
        assert_eq!((word & 0b1111) as u8, ss.secondary_bus_mode_and_frequency());
    }
}
