use mos6510::bus::{Bus, Memory};

#[test]
fn should_read_and_write() {
    let mut bus = Bus::new(Memory::new(0xff));

    let address = 0x1000;

    let value = bus.read(address);
    assert_eq!(value, 0xff);

    bus.write(address, 0x80);
    let value = bus.read(address);
    assert_eq!(value, 0x80);
}

#[test]
fn writes_leave_other_addresses_alone() {
    let mut bus = Bus::new(Memory::new(0));
    bus.write(0x0000, 0x11);
    bus.write(0xffff, 0x22);
    assert_eq!(bus.read(0x0000), 0x11);
    assert_eq!(bus.read(0xffff), 0x22);
    assert_eq!(bus.read(0x8000), 0x00);
}
