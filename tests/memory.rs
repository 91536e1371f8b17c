use chippers::cpu::CPU;
use chippers::machine::Fault;

#[test]
fn test_mem_read() {
    let cpu = CPU::new();

    assert_eq!(cpu.read_memory(0x00), 0xF090);
    assert_eq!(cpu.read_memory(0x01), 0x9090);
    assert_eq!(cpu.read_memory(0x02), 0x9090);
    assert_eq!(cpu.read_memory(0x03), 0x90F0);
    assert_eq!(cpu.read_memory(0x04), 0xF020);
    assert_eq!(cpu.read_memory(0x05), 0x2060);
    assert_eq!(cpu.read_memory(0x06), 0x6020);
    assert_eq!(cpu.read_memory(0x07), 0x2020);
    assert_eq!(cpu.read_memory(0x08), 0x2070);
    assert_eq!(cpu.read_memory(0x09), 0x70F0);
}

#[test]
fn test_mem_write() {
    let mut cpu = CPU::new();
    cpu.write_memory(0x00, 0xFF);
    cpu.write_memory(0x01, 0xFF);
    cpu.write_memory(0x02, 0xFF);
    cpu.write_memory(0x03, 0xFF);
    cpu.write_memory(0x04, 0xFF);
    cpu.write_memory(0x05, 0xFF);
    cpu.write_memory(0x06, 0xFF);
    cpu.write_memory(0x07, 0xFF);
    cpu.write_memory(0x08, 0xFF);
    cpu.write_memory(0x09, 0xFF);

    assert_eq!(cpu.read_memory(0x00), 0xFFFF);
    assert_eq!(cpu.read_memory(0x01), 0xFFFF);
    assert_eq!(cpu.read_memory(0x02), 0xFFFF);
    assert_eq!(cpu.read_memory(0x03), 0xFFFF);
    assert_eq!(cpu.read_memory(0x04), 0xFFFF);
    assert_eq!(cpu.read_memory(0x05), 0xFFFF);
    assert_eq!(cpu.read_memory(0x06), 0xFFFF);
    assert_eq!(cpu.read_memory(0x07), 0xFFFF);
    assert_eq!(cpu.read_memory(0x08), 0xFFFF);
    assert_eq!(cpu.read_memory(0x09), 0xFFF0);
}

#[test]
fn new_machine_state() {
    let cpu = CPU::new();
    assert_eq!(cpu.PC, 0x200);
    assert_eq!(cpu.I, 0);
    assert_eq!(cpu.DT, 0);
    assert_eq!(cpu.ST, 0);
    assert_eq!(cpu.V, [0u8; 16]);
    assert_eq!(cpu.stack.depth(), 0);
    assert!(cpu.ram[80..].iter().all(|b| *b == 0));
    for y in 0..32 {
        for x in 0..64 {
            assert!(!cpu.display.pixel(x, y));
        }
    }
}

#[test]
fn rom_too_large_is_rejected_untouched() {
    let mut cpu = CPU::new();
    let before = cpu.ram;
    let rom = vec![0xAAu8; 3585];
    assert_eq!(cpu.load_rom(&rom), Err(Fault::RomTooLarge));
    assert_eq!(cpu.ram, before);
    let rom = vec![0xAAu8; 5000];
    assert_eq!(cpu.load_rom(&rom), Err(Fault::RomTooLarge));
    assert_eq!(cpu.ram, before);
}

#[test]
fn rom_of_largest_size_fills_memory() {
    let mut cpu = CPU::new();
    let rom: Vec<u8> = (0..3584u32).map(|i| (i % 251) as u8).collect();
    assert_eq!(cpu.load_rom(&rom), Ok(()));
    assert_eq!(cpu.ram[0x1FF], 0);
    assert_eq!(cpu.ram[0x200], 0);
    assert_eq!(cpu.ram[0x201], 1);
    assert_eq!(cpu.ram[0xFFF], (3583 % 251) as u8);
    assert_eq!(cpu.ram[0], 0xF0);
}

#[test]
fn empty_rom_changes_nothing() {
    let mut cpu = CPU::new();
    let before = cpu.ram;
    assert_eq!(cpu.load_rom(&[]), Ok(()));
    assert_eq!(cpu.ram, before);
}

#[test]
fn font_glyph_addresses() {
    let glyphs: [[u8; 5]; 16] = [
        [0xF0, 0x90, 0x90, 0x90, 0xF0],
        [0x20, 0x60, 0x20, 0x20, 0x70],
        [0xF0, 0x10, 0xF0, 0x80, 0xF0],
        [0xF0, 0x10, 0xF0, 0x10, 0xF0],
        [0x90, 0x90, 0xF0, 0x10, 0x10],
        [0xF0, 0x80, 0xF0, 0x10, 0xF0],
        [0xF0, 0x80, 0xF0, 0x90, 0xF0],
        [0xF0, 0x10, 0x20, 0x40, 0x40],
        [0xF0, 0x90, 0xF0, 0x90, 0xF0],
        [0xF0, 0x90, 0xF0, 0x10, 0xF0],
        [0xF0, 0x90, 0xF0, 0x90, 0x90],
        [0xE0, 0x90, 0xE0, 0x90, 0xE0],
        [0xF0, 0x80, 0x80, 0x80, 0xF0],
        [0xE0, 0x90, 0x90, 0x90, 0xE0],
        [0xF0, 0x80, 0xF0, 0x80, 0xF0],
        [0xF0, 0x80, 0xF0, 0x80, 0x80],
    ];
    let mut cpu = CPU::new();
    for d in 0..16u8 {
        cpu.V[3] = d;
        cpu.font_address(3);
        assert_eq!(cpu.I, 5 * d as u16);
        let at = cpu.I as usize;
        assert_eq!(&cpu.ram[at..at + 5], &glyphs[d as usize][..]);
    }
}

#[test]
fn bcd_store_and_register_dump_load() {
    let mut cpu = CPU::new();
    cpu.V[2] = 234;
    cpu.I = 0x300;
    assert_eq!(cpu.store_bcd(2), Ok(()));
    assert_eq!(&cpu.ram[0x300..0x303], &[2, 3, 4]);
    assert_eq!(cpu.PC, 0x202);

    for r in 0..16 {
        cpu.V[r] = (r as u8) * 3 + 1;
    }
    cpu.I = 0x400;
    assert_eq!(cpu.store_registers(4), Ok(()));
    assert_eq!(&cpu.ram[0x400..0x406], &[1, 4, 7, 10, 13, 0]);
    assert_eq!(cpu.I, 0x400);

    cpu.ram[0x500] = 0x11;
    cpu.ram[0x501] = 0x22;
    cpu.ram[0x502] = 0x33;
    cpu.I = 0x500;
    assert_eq!(cpu.load_registers(1), Ok(()));
    assert_eq!(cpu.V[0], 0x11);
    assert_eq!(cpu.V[1], 0x22);
    assert_eq!(cpu.V[2], 7);
}

#[test]
fn memory_faults_leave_state_unchanged() {
    let mut cpu = CPU::new();
    cpu.I = 0xFFE;
    cpu.V[0] = 99;
    assert_eq!(cpu.store_bcd(0), Err(Fault::MemoryOutOfRange));
    assert_eq!(cpu.PC, 0x200);
    assert_eq!(cpu.ram[0xFFE], 0);
    assert_eq!(cpu.store_registers(2), Err(Fault::MemoryOutOfRange));
    assert_eq!(cpu.load_registers(2), Err(Fault::MemoryOutOfRange));
    assert_eq!(cpu.V[0], 99);
    assert_eq!(cpu.DRW(0, 0, 3), Err(Fault::MemoryOutOfRange));
    assert_eq!(cpu.V[15], 0);
    assert_eq!(cpu.PC, 0x200);
}
