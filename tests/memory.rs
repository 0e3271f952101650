use gbcpu::memory::{Memory, IO, MEMORY_SIZE, VRAM};

#[test]
fn new_memory_is_zero() {
    let m = Memory::new();
    assert_eq!(MEMORY_SIZE, 0x10000);
    assert_eq!(m.read(0), 0);
    assert_eq!(m.read(0x8000), 0);
    assert_eq!(m.read(0xffff), 0);
}

#[test]
fn write_then_read_everywhere() {
    let mut m = Memory::new();
    for addr in 0..MEMORY_SIZE {
        let b = (addr % 251) as u8;
        m.write(addr, b);
        assert_eq!(m.read(addr), b);
    }
    assert_eq!(m.read(0x1234), (0x1234 % 251) as u8);
}

#[test]
fn write_touches_one_address() {
    let mut m = Memory::new();
    m.write(0xffff, 0xaa);
    m.write(0x0000, 0x55);
    assert_eq!(m.read(0xffff), 0xaa);
    assert_eq!(m.read(0xfffe), 0);
    assert_eq!(m.read(0x0000), 0x55);
    assert_eq!(m.read(0x0001), 0);
}

#[test]
fn clear_vram_zeroes_only_video_ram() {
    let mut m = Memory::new();
    m.write(VRAM.0 as usize - 1, 1);
    m.write(VRAM.0 as usize, 2);
    m.write(0x9000, 3);
    m.write(VRAM.1 as usize, 4);
    m.write(VRAM.1 as usize + 1, 5);
    m.write(IO.0 as usize, 6);
    m.clear_vram();
    assert_eq!(m.read(VRAM.0 as usize - 1), 1);
    assert_eq!(m.read(VRAM.0 as usize), 0);
    assert_eq!(m.read(0x9000), 0);
    assert_eq!(m.read(VRAM.1 as usize), 0);
    assert_eq!(m.read(VRAM.1 as usize + 1), 5);
    assert_eq!(m.read(0xff00), 6);
}
