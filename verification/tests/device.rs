use ens160_aq::Ens160;

#[test]
fn new_driver_talks_to_the_primary_address() {
    let device = Ens160::new("bus", "timer");
    assert_eq!(device.address(), 0x52);
}

#[test]
fn secondary_driver_talks_to_the_secondary_address() {
    let device = Ens160::new_secondary_address("bus", "timer");
    assert_eq!(device.address(), 0x53);
}

#[test]
fn release_gives_the_bus_back() {
    let device = Ens160::new(vec![1u8, 2, 3], 0u32);
    assert_eq!(device.release(), vec![1u8, 2, 3]);
    let device = Ens160::new_secondary_address(7u64, ());
    assert_eq!(device.release(), 7u64);
}

#[test]
fn bus_and_timer_can_be_borrowed_and_changed() {
    let mut device = Ens160::new(vec![0u8], 10u32);
    device.bus().push(9);
    *device.delayer() += 5;
    assert_eq!(*device.delayer(), 15);
    assert_eq!(device.address(), 0x52);
    assert_eq!(device.release(), vec![0u8, 9]);
}
