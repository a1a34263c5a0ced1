use nes_emulator::cpu::Memory as CpuBus;
use nes_emulator::header::parse_header;
use nes_emulator::memory::{routes_to_ppu, Memory, Memory_Request, CPU_Memory, PPU_Memory};
use nes_emulator::utils::{convert_addr, cross_boundary};

#[test]
fn write_then_read_every_address() {
    let mut m = CpuBus::new();
    for addr in (0..=0xFFFFu16).step_by(7) {
        let v = (addr % 251) as u8;
        m.write(addr, v);
        assert_eq!(m.read(addr), v);
    }
}

#[test]
fn ram_is_mirrored() {
    let mut m = CpuBus::new();
    m.write(0x0001, 0xAB);
    assert_eq!(m.read(0x0801), 0xAB);
    assert_eq!(m.read(0x1001), 0xAB);
    assert_eq!(m.read(0x1801), 0xAB);
    m.write(0x2009, 0x11);
    assert_eq!(m.read(0x2001), 0x11);
    assert_eq!(m.read(0x3FF9), 0x11);
}

#[test]
fn rom_is_right_aligned() {
    let mut m = CpuBus::new();
    let rom: Vec<u8> = (0..16u8).collect();
    m.load_rom(&rom, rom.len());
    assert_eq!(m.read(0xFFF0), 0);
    assert_eq!(m.read(0xFFFF), 15);
    assert_eq!(m.read(0xFFEF), 0);
}

#[test]
fn cpu_bus_leaves_ppu_window_to_the_ppu() {
    let rom = vec![7u8; 0x4000];
    let mut m = CPU_Memory::new(&rom, rom.len());
    m.write(0x2000, 5);
    assert_eq!(m.read(0x2000), 0);
    assert_eq!(m.read(0xC000), 7);
    assert_eq!(m.read(0xBFFF), 0);
    m.write(0x4000, 9);
    assert_eq!(m.read(0x4000), 9);
    m.write(0x0000, 3);
    assert_eq!(m.read(0x1800), 3);
}

#[test]
fn ppu_bus_mirrors() {
    let chr = vec![1u8, 2, 3];
    let mut m = PPU_Memory::new(&chr, chr.len());
    assert_eq!(m.read(0x0002), 3);
    assert_eq!(m.read(0x0003), 0);
    m.write(0x2005, 0x44);
    assert_eq!(m.read(0x3005), 0x44);
    m.write(0x3F01, 0x55);
    assert_eq!(m.read(0x3F21), 0x55);
    m.write(0x4000, 0x66);
    assert_eq!(m.read(0x4000), 0);
}

#[test]
fn router_serves_both_requests() {
    let mut image = vec![0u8; 16];
    image[4] = 1;
    image[5] = 1;
    let head = parse_header(&image);
    let mut bytes = vec![0u8; 0x6000];
    bytes[0x3FFC] = 0x00;
    bytes[0x3FFD] = 0xC0;
    bytes[0x4000] = 0x99;
    let mut mem = Memory::new(head, &bytes);
    let r = mem.request(Memory_Request::Read(0xFFFD), Memory_Request::Read(0x0000));
    assert_eq!(r.cpu_response, Some(0xC0));
    assert_eq!(r.ppu_response, Some(0x99));
    let w = mem.request(Memory_Request::Write(0x0010, 4), Memory_Request::Write(0x2400, 8));
    assert_eq!(w.cpu_response, None);
    assert_eq!(w.ppu_response, None);
    let r = mem.request(Memory_Request::Read(0x0010), Memory_Request::Read(0x2000 + 0x1400));
    assert_eq!(r.cpu_response, Some(4));
    assert_eq!(r.ppu_response, Some(8));
}

#[test]
fn little_endian_addresses() {
    assert_eq!(convert_addr(&[0x34, 0x12]), 0x1234);
    assert_eq!(convert_addr(&[0xFF, 0x00, 0x77]), 0x00FF);
}

#[test]
fn page_crossing() {
    assert!(cross_boundary(0x00FF, 1));
    assert!(!cross_boundary(0x0010, 5));
    assert!(cross_boundary(0xFFFF, 1));
    assert!(!cross_boundary(0x1200, 0xFF));
}

#[test]
fn ppu_window_is_routed_away() {
    assert!(!routes_to_ppu(0x1FFF));
    assert!(routes_to_ppu(0x2000));
    assert!(routes_to_ppu(0x3FFF));
    assert!(!routes_to_ppu(0x4000));
}
