use wx_gb::cartridge::CartridgeHeader;
use wx_gb::cpu::CARTRIDGE_ADDR;
use wx_gb::cpu::CPU;

#[test]
fn init_sets_reset_registers() {
    let header = CartridgeHeader::new(vec![0u8; 0x8000]).unwrap();
    let mut cpu = CPU::new(header);
    assert_eq!(cpu.pc, 0x0000);
    assert_eq!(cpu.sp, 0x0000);
    cpu.init();
    assert_eq!(cpu.pc, CARTRIDGE_ADDR);
    assert_eq!(cpu.pc, 0x0100);
    assert_eq!(cpu.sp, 0xFFFE);
}

#[test]
fn init_copies_first_32_kib() {
    let mut rom = vec![0u8; 0x8000];
    rom[0x0000] = 0xAB;
    rom[0x0100] = 0x12;
    rom[0x3FFF] = 0x34;
    rom[0x4000] = 0x56;
    rom[0x7FFF] = 0x78;
    let header = CartridgeHeader::new(rom).unwrap();
    let mut cpu = CPU::new(header);
    cpu.init();
    assert_eq!(cpu.bus.read(0x0000), 0xAB);
    assert_eq!(cpu.bus.read(0x0100), 0x12);
    assert_eq!(cpu.bus.read(0x3FFF), 0x34);
    assert_eq!(cpu.bus.read(0x4000), 0x56);
    assert_eq!(cpu.bus.read(0x7FFF), 0x78);
    assert_eq!(cpu.bus.read(0x0001), 0x00);
}

#[test]
fn init_stops_at_rom_windows() {
    // bytes past offset 0x7FFF are not copied at boot
    let mut rom = vec![0u8; 0x10000];
    rom[0x7FFF] = 0x11;
    rom[0x8000] = 0x99;
    rom[0xFFFF] = 0x77;
    let header = CartridgeHeader::new(rom).unwrap();
    let mut cpu = CPU::new(header);
    cpu.init();
    assert_eq!(cpu.bus.read(0x7FFF), 0x11);
    assert_eq!(cpu.bus.read(0x8000), 0x00);
    assert_eq!(cpu.bus.read(0xFFFF), 0x00);
    assert_eq!(cpu.bus.read(0xFEB0), 0xFF);
}

#[test]
fn new_cpu_state_is_cleared() {
    let header = CartridgeHeader::new(vec![0u8; 0x8000]).unwrap();
    let mut cpu = CPU::new(header);
    assert_eq!(cpu.register, vec![0u8; 8]);
    assert_eq!(cpu.bus.read(0x1234), 0x00);
    cpu.load(vec![1, 2, 3]);
    assert_eq!(cpu.pc, 0x0000);
}
