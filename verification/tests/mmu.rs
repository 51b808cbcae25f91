use nest::nes::mmu::Mmu;

fn zeroed() -> Mmu {
    Mmu { memory: vec![0u8; 0x10000] }
}

#[test]
fn read_write_roundtrip() {
    let mut m = zeroed();
    m.write(0x1234, 0xAB);
    assert_eq!(m.read(0x1234), 0xAB);
    assert_eq!(m.read(0x1235), 0x00);
}

#[test]
fn new_is_zeroed() {
    let m = Mmu::new();
    assert_eq!(m.read(0x0000), 0);
    assert_eq!(m.read(0xFFFF), 0);
}

#[test]
fn chomp_reads_and_advances() {
    let mut m = zeroed();
    m.write(0x8000, 0x42);
    let mut addr: u16 = 0x8000;
    let byte = m.chomp(&mut addr);
    assert_eq!(byte, 0x42);
    assert_eq!(addr, 0x8001);
}

#[test]
fn chomp_wraps_at_top_of_memory() {
    let mut m = zeroed();
    m.write(0xFFFF, 0x99);
    let mut addr: u16 = 0xFFFF;
    let byte = m.chomp(&mut addr);
    assert_eq!(byte, 0x99);
    assert_eq!(addr, 0x0000);
}

#[test]
fn read_u16_is_little_endian() {
    let mut m = zeroed();
    m.write(0x0300, 0xCD);
    m.write(0x0301, 0xAB);
    assert_eq!(m.read_u16(0x0300), 0xABCD);
}

#[test]
fn read_u16_wraps_per_byte_at_top_of_memory() {
    let mut m = zeroed();
    m.write(0xFFFF, 0x34);
    m.write(0x0000, 0x12);
    assert_eq!(m.read_u16(0xFFFF), 0x1234);
}

#[test]
fn write_u16_is_little_endian() {
    let mut m = zeroed();
    m.write_u16(0x0400, 0xBEEF);
    assert_eq!(m.read(0x0400), 0xEF);
    assert_eq!(m.read(0x0401), 0xBE);
    assert_eq!(m.read_u16(0x0400), 0xBEEF);
}

#[test]
fn indexed_indirect_wraps_in_zero_page() {
    let mut m = zeroed();
    // Zero-page pointer cell: 0xFF + 0x03 wraps to 0x02 within the page.
    m.write(0x0002, 0x34);
    m.write(0x0003, 0x12);
    m.write(0x1234, 0x77);
    assert_eq!(m.read_indirect_pre_index(0xFF, 0x03), 0x77);
}

#[test]
fn indexed_indirect_write_resolves_like_read() {
    let mut m = zeroed();
    m.write(0x0040, 0x00);
    m.write(0x0041, 0x20);
    m.write_indirect_pre_index(0x30, 0x10, 0x5A);
    assert_eq!(m.read(0x2000), 0x5A);
    assert_eq!(m.read_indirect_pre_index(0x30, 0x10), 0x5A);
}

#[test]
fn indirect_indexed_reads_past_pointer() {
    let mut m = zeroed();
    m.write(0x0020, 0x00);
    m.write(0x0021, 0x30);
    m.write(0x3005, 0x66);
    let (value, crossed) = m.read_indirect_post_index(0x20, 0x05);
    assert_eq!(value, 0x66);
    assert!(!crossed);
}

#[test]
fn indirect_indexed_flags_page_crossing() {
    let mut m = zeroed();
    // Pointer 0x30FF plus index 0x01 overflows the pointer's low byte.
    m.write(0x0020, 0xFF);
    m.write(0x0021, 0x30);
    m.write(0x3100, 0x55);
    let (value, crossed) = m.read_indirect_post_index(0x20, 0x01);
    assert_eq!(value, 0x55);
    assert!(crossed);
}

#[test]
fn indirect_indexed_write_reports_crossing() {
    let mut m = zeroed();
    m.write(0x0010, 0xFE);
    m.write(0x0011, 0x40);
    let crossed = m.write_indirect_post_index(0x10, 0x03, 0x9C);
    assert_eq!(m.read(0x4101), 0x9C);
    assert!(crossed);
    let not_crossed = m.write_indirect_post_index(0x10, 0x01, 0x9D);
    assert_eq!(m.read(0x40FF), 0x9D);
    assert!(!not_crossed);
}
