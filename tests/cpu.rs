use gbcpu::cpu::{DecodeState, TraceEvent, CPU};
use gbcpu::error::CpuError;
use gbcpu::instructions::Instructions;

fn run_ok(cpu: &mut CPU) -> TraceEvent {
    match cpu.step() {
        Ok(Some(ev)) => ev,
        Ok(None) => panic!("expected an executed instruction, got the escape opcode"),
        Err(e) => panic!("unexpected fault {:?}", e),
    }
}

fn image_at(addr: usize, bytes: &[u8]) -> Vec<u8> {
    let mut rom = vec![0u8; addr + bytes.len() + 16];
    rom[addr..addr + bytes.len()].copy_from_slice(bytes);
    rom
}

#[test]
fn new_cpu_starts_clean() {
    let cpu = CPU::new(vec![0xaf], true);
    assert_eq!(cpu.registers.pc, 0);
    assert_eq!(cpu.registers.get_af(), 0);
    assert_eq!(cpu.stack.len(), 0);
    assert_eq!(cpu.memory.read(0xff00), 0);
    assert_eq!(cpu.state, DecodeState::Normal);
    assert!(cpu.verbose);
}

#[test]
fn read_8_and_read_16() {
    let mut cpu = CPU::new(vec![0x34, 0x12, 0x78, 0x56], false);
    assert_eq!(cpu.read_8(), 0x34);
    assert_eq!(cpu.registers.pc, 1);
    assert_eq!(cpu.read_8(), 0x12);
    assert_eq!(cpu.read_16(), 0x5678);
    assert_eq!(cpu.registers.pc, 4);
}

#[test]
fn xor_a_clears_a_for_every_value() {
    for a in 0..=255u8 {
        let mut cpu = CPU::new(vec![0xaf], false);
        cpu.registers.set_a(a);
        cpu.registers.set_f(0x70 | (a & 0x0f));
        let ev = run_ok(&mut cpu);
        assert_eq!(ev.descriptor.tag, Instructions::XOR_A);
        assert!(ev.data.is_none());
        assert_eq!(cpu.registers.get_a(), 0);
        assert_eq!(cpu.registers.get_flag_z(), 1);
        assert_eq!(cpu.registers.get_flag_n(), 0);
        assert_eq!(cpu.registers.get_flag_h(), 0);
        assert_eq!(cpu.registers.get_flag_c(), 0);
        assert_eq!(cpu.registers.get_f() & 0x0f, a & 0x0f);
        assert_eq!(cpu.registers.pc, 1);
    }
}

#[test]
fn bit_7_h_with_bit_clear() {
    let mut cpu = CPU::new(vec![0xcb, 0x7c], false);
    cpu.registers.set_h(0x00);
    cpu.registers.set_f(0x50);
    assert!(matches!(cpu.step(), Ok(None)));
    assert_eq!(cpu.state, DecodeState::Prefixed);
    let ev = run_ok(&mut cpu);
    assert!(ev.prefixed);
    assert_eq!(ev.descriptor.tag, Instructions::BIT_7_H);
    assert_eq!(cpu.state, DecodeState::Normal);
    assert_eq!(cpu.registers.get_flag_z(), 1);
    assert_eq!(cpu.registers.get_flag_n(), 0);
    assert_eq!(cpu.registers.get_flag_h(), 1);
    assert_eq!(cpu.registers.get_flag_c(), 1);
    assert_eq!(cpu.registers.pc, 2);
}

#[test]
fn bit_7_h_with_bit_set() {
    let mut cpu = CPU::new(vec![0xcb, 0x7c], false);
    cpu.registers.set_h(0x80);
    cpu.registers.set_f(0x40);
    cpu.step().unwrap();
    run_ok(&mut cpu);
    assert_eq!(cpu.registers.get_flag_z(), 0);
    assert_eq!(cpu.registers.get_flag_n(), 0);
    assert_eq!(cpu.registers.get_flag_h(), 1);
    assert_eq!(cpu.registers.get_flag_c(), 0);
    assert_eq!(cpu.registers.get_h(), 0x80);
}

#[test]
fn jr_nz_taken_goes_back_two() {
    let mut cpu = CPU::new(image_at(0x10, &[0x20, 0xfe]), false);
    cpu.registers.pc = 0x10;
    let ev = run_ok(&mut cpu);
    assert_eq!(ev.data, Some(vec![0xfe]));
    assert_eq!(cpu.registers.pc, 0x10 + 2 - 2);
}

#[test]
fn jr_nz_not_taken_when_z_set() {
    let mut cpu = CPU::new(image_at(0x10, &[0x20, 0xfe]), false);
    cpu.registers.pc = 0x10;
    cpu.registers.set_flag_z();
    run_ok(&mut cpu);
    assert_eq!(cpu.registers.pc, 0x12);
}

#[test]
fn jr_nz_forward() {
    let mut cpu = CPU::new(image_at(0x10, &[0x20, 0x05]), false);
    cpu.registers.pc = 0x10;
    run_ok(&mut cpu);
    assert_eq!(cpu.registers.pc, 0x17);
}

#[test]
fn call_pushes_return_address() {
    let mut cpu = CPU::new(image_at(0x0150, &[0xcd, 0x00, 0x02]), false);
    cpu.registers.pc = 0x0150;
    cpu.registers.sp = 0xfffe;
    let ev = run_ok(&mut cpu);
    assert_eq!(ev.data, Some(vec![0x0200]));
    assert_eq!(cpu.stack.peek(), Some(0x0153));
    assert_eq!(cpu.stack.len(), 1);
    assert_eq!(cpu.registers.pc, 0x0200);
    assert_eq!(cpu.registers.sp, 0xfffc);
    assert_eq!(cpu.stack.pop(), Ok(0x0153));
}

const PRIMARY: [u8; 18] = [
    0xcb, 0x21, 0x31, 0x32, 0xaf, 0x20, 0x0e, 0x3e, 0xe2, 0x0c, 0x77, 0xe0, 0x11, 0x1a, 0xcd, 0x4f,
    0x06, 0xc5,
];
const PREFIXED: [u8; 2] = [0x7c, 0x11];

#[test]
fn every_unlisted_opcode_is_a_decode_error() {
    for op in 0..=255u8 {
        let mut cpu = CPU::new(vec![op, 0, 0], false);
        let r = cpu.step();
        if PRIMARY.contains(&op) {
            assert!(r.is_ok(), "opcode {:02x}", op);
        } else {
            assert_eq!(r.err(), Some(CpuError::UnknownOpcode { opcode: op, prefixed: false }));
            assert_eq!(cpu.registers.pc, 1);
        }
    }
}

#[test]
fn every_unlisted_prefixed_opcode_is_a_decode_error() {
    for op in 0..=255u8 {
        let mut cpu = CPU::new(vec![0xcb, op], false);
        assert!(matches!(cpu.step(), Ok(None)));
        let r = cpu.step();
        if PREFIXED.contains(&op) {
            assert!(r.is_ok(), "prefixed opcode {:02x}", op);
        } else {
            assert_eq!(r.err(), Some(CpuError::UnknownOpcode { opcode: op, prefixed: true }));
        }
        assert_eq!(cpu.state, DecodeState::Normal);
    }
}

#[test]
fn loads_of_immediates() {
    let rom = vec![
        0x31, 0xfe, 0xff, // LD SP, $fffe
        0x21, 0xff, 0x9f, // LD HL, $9fff
        0x11, 0x34, 0x12, // LD DE, $1234
        0x0e, 0x11, // LD C, $11
        0x06, 0x22, // LD B, $22
        0x3e, 0x33, // LD A, $33
    ];
    let mut cpu = CPU::new(rom, false);
    assert_eq!(run_ok(&mut cpu).data, Some(vec![0xfffe]));
    assert_eq!(cpu.registers.sp, 0xfffe);
    assert_eq!(run_ok(&mut cpu).data, Some(vec![0x9fff]));
    assert_eq!(cpu.registers.get_hl(), 0x9fff);
    run_ok(&mut cpu);
    assert_eq!(cpu.registers.get_de(), 0x1234);
    assert_eq!(run_ok(&mut cpu).data, Some(vec![0x11]));
    run_ok(&mut cpu);
    assert_eq!(cpu.registers.get_bc(), 0x2211);
    run_ok(&mut cpu);
    assert_eq!(cpu.registers.get_a(), 0x33);
    assert_eq!(cpu.registers.pc, 15);
}

#[test]
fn stores_of_a() {
    let rom = vec![
        0x32, // LD (HL-), A
        0x77, // LD (HL), A
        0xe0, 0x44, // LD ($FF00+$44), A
        0xe2, // LD ($FF00+C), A
    ];
    let mut cpu = CPU::new(rom, false);
    cpu.registers.set_a(0x5a);
    cpu.registers.set_hl(0x9fff);
    cpu.registers.set_c(0x10);
    run_ok(&mut cpu);
    assert_eq!(cpu.memory.read(0x9fff), 0x5a);
    assert_eq!(cpu.registers.get_hl(), 0x9ffe);
    run_ok(&mut cpu);
    assert_eq!(cpu.memory.read(0x9ffe), 0x5a);
    assert_eq!(run_ok(&mut cpu).data, Some(vec![0x44]));
    assert_eq!(cpu.memory.read(0xff44), 0x5a);
    run_ok(&mut cpu);
    assert_eq!(cpu.memory.read(0xff10), 0x5a);
}

#[test]
fn ld_hld_a_wraps_hl() {
    let mut cpu = CPU::new(vec![0x32], false);
    cpu.registers.set_a(7);
    run_ok(&mut cpu);
    assert_eq!(cpu.memory.read(0), 7);
    assert_eq!(cpu.registers.get_hl(), 0xffff);
}

#[test]
fn register_moves() {
    let mut cpu = CPU::new(vec![0x4f, 0x1a], false);
    cpu.registers.set_a(0x99);
    run_ok(&mut cpu);
    assert_eq!(cpu.registers.get_c(), 0x99);
    cpu.memory.write(0xff99, 0x42);
    run_ok(&mut cpu);
    assert_eq!(cpu.registers.get_a(), 0x42);
}

#[test]
fn inc_c_sets_flags() {
    let mut cpu = CPU::new(vec![0x0c, 0x0c, 0x0c], false);
    cpu.registers.set_c(0x0e);
    cpu.registers.set_f(0x50);
    run_ok(&mut cpu);
    assert_eq!(cpu.registers.get_c(), 0x0f);
    assert_eq!(cpu.registers.get_f(), 0x10);
    run_ok(&mut cpu);
    assert_eq!(cpu.registers.get_c(), 0x10);
    assert_eq!(cpu.registers.get_f(), 0x30);
    cpu.registers.set_c(0xff);
    run_ok(&mut cpu);
    assert_eq!(cpu.registers.get_c(), 0x00);
    assert_eq!(cpu.registers.get_f(), 0xb0);
}

#[test]
fn rl_c_rotates_through_carry() {
    let mut cpu = CPU::new(vec![0xcb, 0x11, 0xcb, 0x11], false);
    cpu.registers.set_c(0x80);
    cpu.step().unwrap();
    run_ok(&mut cpu);
    assert_eq!(cpu.registers.get_c(), 0x00);
    assert_eq!(cpu.registers.get_flag_c(), 1);
    assert_eq!(cpu.registers.get_flag_z(), 1);
    cpu.step().unwrap();
    run_ok(&mut cpu);
    assert_eq!(cpu.registers.get_c(), 0x01);
    assert_eq!(cpu.registers.get_flag_c(), 0);
    assert_eq!(cpu.registers.get_flag_z(), 0);
}

#[test]
fn push_bc_puts_pair_on_stack() {
    let mut cpu = CPU::new(vec![0xc5], false);
    cpu.registers.set_bc(0xbeef);
    cpu.registers.sp = 0xfffe;
    let ev = run_ok(&mut cpu);
    assert!(ev.data.is_none());
    assert_eq!(cpu.stack.peek(), Some(0xbeef));
    assert_eq!(cpu.registers.sp, 0xfffc);
}

#[test]
fn fetch_past_image_is_reported() {
    let mut cpu = CPU::new(vec![], false);
    assert_eq!(cpu.step().err(), Some(CpuError::FetchOutOfBounds { pc: 0 }));
    let mut cpu = CPU::new(vec![0x21, 0x00], false);
    assert_eq!(cpu.step().err(), Some(CpuError::FetchOutOfBounds { pc: 0 }));
    assert_eq!(cpu.registers.pc, 0);
    assert_eq!(cpu.state, DecodeState::Normal);
}

#[test]
fn execute_runs_one_tag() {
    let mut cpu = CPU::new(vec![0x34, 0x12], false);
    let data = cpu.execute(Instructions::LD_HL_D16);
    assert_eq!(data, Some(vec![0x1234]));
    assert_eq!(cpu.registers.get_hl(), 0x1234);
}

#[test]
fn small_program_until_decode_error() {
    let rom = vec![
        0x31, 0xfe, 0xff, // LD SP, $fffe
        0xaf, // XOR A
        0x21, 0xff, 0x9f, // LD HL, $9fff
        0x32, // LD (HL-), A
        0xcb, 0x7c, // BIT 7, H
        0x20, 0xfb, // JR NZ, -5
        0xff, // unknown
    ];
    let mut cpu = CPU::new(rom, true);
    let mut executed = 0;
    let err = loop {
        match cpu.step() {
            Ok(Some(_)) => executed += 1,
            Ok(None) => {}
            Err(e) => break e,
        }
        assert!(executed < 100_000);
    };
    assert_eq!(err, CpuError::UnknownOpcode { opcode: 0xff, prefixed: false });
    assert_eq!(executed, 6);
    assert_eq!(cpu.registers.get_hl(), 0x9ffe);
    assert_eq!(cpu.registers.sp, 0xfffe);
    assert_eq!(cpu.registers.pc, 0x0d);
}
