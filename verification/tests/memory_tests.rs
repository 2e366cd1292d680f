use cpuem::disk::disk;
use cpuem::ram::RamUnit;
use cpuem::registers::{Flags, Registers};

#[test]
fn ram_reads_back_writes() {
    let mut ram = RamUnit::new();
    assert_eq!(ram.fetch(7), 0);
    ram.write(7, 123);
    ram.write(255, 9);
    assert_eq!(ram.fetch(7), 123);
    assert_eq!(ram.fetch(255), 9);
    assert_eq!(ram.fetch(8), 0);
}

#[test]
fn ram_snapshot_is_row_low_nibble_column_high_nibble() {
    let mut ram = RamUnit::new();
    ram.write(0x35, 77);
    let grid = ram.snapshot();
    assert_eq!(grid[5][3], 77);
    assert_eq!(grid[3][5], 0);
}

#[test]
fn r0_ignores_writes() {
    let mut regs = Registers::new();
    regs.set(0, 99);
    regs.set(5, 42);
    assert_eq!(regs.get(0), 0);
    assert_eq!(regs.get(5), 42);
    assert_eq!(Registers::MAX_TO_CARRY, u32::MAX);
    assert_eq!(RamUnit::SIZE, 256);
    assert_eq!(RamUnit::GRID, 16);
}

#[test]
fn flags_clear() {
    let mut f = Flags::new();
    f.carry = true;
    f.fault = true;
    f.clear();
    assert!(!f.zero && !f.carry && !f.fault);
}

#[test]
fn disk_starts_zeroed_and_reads_back_words() {
    let mut d = disk::new();
    assert_eq!(d.path(), "diskBin.txt");
    assert_eq!(d.read(0), 0);
    d.write(10, 0xDEAD_BEEF);
    assert_eq!(d.read(10), 0xDEAD_BEEF);
    // big-endian byte order
    assert_eq!(d.read(11), 0xADBE_EF00);
    d.write(65532, 1);
    assert_eq!(d.read(65532), 1);
    d.reformat();
    assert_eq!(d.read(10), 0);
}

#[test]
fn disk_image_has_4096_lines_of_16_cells() {
    let mut d = disk::new();
    d.write(0, 0x8000_0001);
    let text = d.image();
    let lines: Vec<&str> = text.split('\n').collect();
    assert_eq!(lines.len(), 4097);
    assert_eq!(lines[4096], "");
    assert!(lines[0].starts_with("[10000000][00000000][00000000][00000001][00000000]"));
    assert_eq!(lines[1], "[00000000]".repeat(16));
    assert_eq!(disk::ROWS, 4096);
    assert_eq!(disk::COLS, 16);
}
