use wx_gb::bus::BUS;

#[test]
fn write_then_read_same_address() {
    let mut bus = BUS::new();
    bus.write(0x0000, 0x11);
    bus.write(0x3FFF, 0x22);
    bus.write(0x4000, 0x33);
    bus.write(0x7FFF, 0x44);
    bus.write(0x8000, 0x55);
    bus.write(0xA000, 0x66);
    bus.write(0xC000, 0x77);
    bus.write(0xFE00, 0x88);
    bus.write(0xFF00, 0x99);
    bus.write(0xFF80, 0xAA);
    bus.write(0xFFFF, 0xBB);
    assert_eq!(bus.read(0x0000), 0x11);
    assert_eq!(bus.read(0x3FFF), 0x22);
    assert_eq!(bus.read(0x4000), 0x33);
    assert_eq!(bus.read(0x7FFF), 0x44);
    assert_eq!(bus.read(0x8000), 0x55);
    assert_eq!(bus.read(0xA000), 0x66);
    assert_eq!(bus.read(0xC000), 0x77);
    assert_eq!(bus.read(0xFE00), 0x88);
    assert_eq!(bus.read(0xFF00), 0x99);
    assert_eq!(bus.read(0xFF80), 0xAA);
    assert_eq!(bus.read(0xFFFF), 0xBB);
}

#[test]
fn unusable_range_discards_writes_and_reads_ff() {
    let mut bus = BUS::new();
    assert_eq!(bus.read(0xFEA0), 0xFF);
    assert_eq!(bus.read(0xFEFF), 0xFF);
    bus.write(0xFEA0, 0x12);
    bus.write(0xFECD, 0x34);
    bus.write(0xFEFF, 0x56);
    assert_eq!(bus.read(0xFEA0), 0xFF);
    assert_eq!(bus.read(0xFECD), 0xFF);
    assert_eq!(bus.read(0xFEFF), 0xFF);
}

#[test]
fn adjacent_regions_do_not_bleed() {
    let mut bus = BUS::new();
    bus.write(0x3FFF, 0x7A);
    assert_eq!(bus.read(0x4000), 0x00);
    bus.write(0x4000, 0x7B);
    assert_eq!(bus.read(0x3FFF), 0x7A);
    bus.write(0x9FFF, 0x7C);
    assert_eq!(bus.read(0xA000), 0x00);
    bus.write(0xFE9F, 0x7D);
    assert_eq!(bus.read(0xFEA0), 0xFF);
    bus.write(0xFF7F, 0x7E);
    assert_eq!(bus.read(0xFF80), 0x00);
    bus.write(0xFFFE, 0x7F);
    assert_eq!(bus.read(0xFFFF), 0x00);
}

#[test]
fn echo_window_aliases_work_memory() {
    let mut bus = BUS::new();
    bus.write(0xC000, 0x42);
    assert_eq!(bus.read(0xE000), 0x42);
    bus.write(0xE123, 0x43);
    assert_eq!(bus.read(0xC123), 0x43);
    // the last 512 bytes of work memory have no echo alias
    bus.write(0xDFFF, 0x44);
    assert_eq!(bus.read(0xDFFF), 0x44);
}

#[test]
fn fresh_bus_is_zeroed() {
    let mut bus = BUS::new();
    assert_eq!(bus.read(0x0000), 0x00);
    assert_eq!(bus.read(0x9ABC), 0x00);
    assert_eq!(bus.read(0xFFFF), 0x00);
    assert_eq!(bus.read(0xFEB0), 0xFF);
}
