use vstd::prelude::*;
use crate::error::CpuError;
use crate::instructions::{
    Descriptor,
    Instructions,
    PREFIX_OPCODE,
    find_instruction,
    find_prefixed_instruction,
    prefixed_entry,
    primary_entry,
};
use crate::memory::{Memory, IO, MEMORY_SIZE};
use crate::registers::{
    FLAG_C,
    FLAG_H,
    FLAG_N,
    FLAG_Z,
    Register,
    Registers,
    bit_of,
    join,
    signed_value,
    with_bit,
    without_bit,
};
use crate::stack::Stack;

verus! {

/// Which table the next fetched byte is looked up in.
#[derive(Clone, Copy, Debug, PartialEq, Eq, Structural)]
pub enum DecodeState {
    Normal,
    Prefixed,
}

/// What one executed instruction hands to a tracer: its opcode, the table it
/// came from, its table entry and the operand values it consumed or produced.
pub struct TraceEvent {
    pub opcode: u8,
    pub prefixed: bool,
    pub descriptor: Descriptor,
    pub data: Option<Vec<usize>>,
}

/// The processor as a mathematical value.
pub struct CpuState {
    pub rom: Seq<u8>,
    pub registers: Registers,
    pub memory: Seq<u8>,
    pub stack: Seq<u16>,
    pub verbose: bool,
    pub state: DecodeState,
}

/// `x` reduced into the 16-bit address space.
pub open spec fn wrap16(x: int) -> u16 {
    (x % 0x10000) as u16
}

/// The table entry that `op` selects in decode state `state`.
pub open spec fn lookup(state: DecodeState, op: u8) -> Descriptor {
    match state {
        DecodeState::Normal => primary_entry(op),
        DecodeState::Prefixed => prefixed_entry(op),
    }
}

/// How many operand bytes follow the opcode of an instruction.
pub open spec fn operand_len(tag: Instructions) -> int {
    match tag {
        Instructions::LD_SP_D16 | Instructions::LD_HL_D16 | Instructions::LD_DE_D16
        | Instructions::CALL_A16 => 2,
        Instructions::LD_C_D8 | Instructions::LD_B_D8 | Instructions::LD_A_D8
        | Instructions::LDH_D8_A | Instructions::JR_NZ_8 => 1,
        _ => 0,
    }
}

/// F after a result `result` is tested for zero: Z set if it is 0, cleared otherwise.
pub open spec fn zero_flag(f: u8, result: u8) -> u8 {
    if result == 0 {
        with_bit(f, FLAG_Z)
    } else {
        without_bit(f, FLAG_Z)
    }
}

/// F after `XOR A`: Z set, N, H and C cleared.
pub open spec fn xor_flags(f: u8) -> u8 {
    without_bit(without_bit(without_bit(with_bit(f, FLAG_Z), FLAG_N), FLAG_H), FLAG_C)
}

/// F after a bit test that found `bit`: Z set if it is 0 (left alone otherwise),
/// N cleared, H set, C left alone.
pub open spec fn bit_test_flags(f: u8, bit: u8) -> u8 {
    with_bit(without_bit(if bit == 0 { with_bit(f, FLAG_Z) } else { f }, FLAG_N), FLAG_H)
}

/// F after an 8-bit increment from `before` to `result`: Z by the result,
/// N cleared, H set on a carry out of the low nibble, C left alone.
pub open spec fn inc_flags(f: u8, before: u8, result: u8) -> u8 {
    let f2 = without_bit(zero_flag(f, result), FLAG_N);
    if before % 16 == 15 {
        with_bit(f2, FLAG_H)
    } else {
        without_bit(f2, FLAG_H)
    }
}

/// `v` rotated left through the carry bit `carry`.
pub open spec fn rl_value(v: u8, carry: u8) -> u8 {
    ((v * 2 + carry) % 256) as u8
}

/// F after a rotate through carry whose result is `result` and whose
/// bit shifted out is `out`: Z by the result, N and H cleared, C = `out`.
pub open spec fn rl_flags(f: u8, result: u8, out: u8) -> u8 {
    let f2 = without_bit(without_bit(zero_flag(f, result), FLAG_N), FLAG_H);
    if out == 1 {
        with_bit(f2, FLAG_C)
    } else {
        without_bit(f2, FLAG_C)
    }
}

/// The registers after rotating the 8-bit register `reg` left through carry.
pub open spec fn rl_registers(r: Registers, reg: Register) -> Registers {
    let v = r.r8(reg);
    let res = rl_value(v, r.flag(FLAG_C));
    let r1 = r.with_r8(reg, res);
    r1.with_f(rl_flags(r1.f(), res, bit_of(v, 7)))
}

impl CpuState {
    /// The byte of the program image `k` places after `pc`.
    pub open spec fn byte_at(self, k: int) -> u8 {
        self.rom[wrap16(self.registers.pc + k) as int]
    }

    /// Whether the `n` bytes from `pc` on (at most two) lie in the image.
    pub open spec fn can_fetch(self, n: int) -> bool {
        &&& n >= 1 ==> wrap16(self.registers.pc + 0) < self.rom.len()
        &&& n >= 2 ==> wrap16(self.registers.pc + 1) < self.rom.len()
    }

    /// The 8-bit operand at `pc`.
    pub open spec fn imm8(self) -> u8 {
        self.byte_at(0)
    }

    /// The 16-bit operand at `pc`, low byte first.
    pub open spec fn imm16(self) -> u16 {
        join(self.byte_at(1), self.byte_at(0))
    }

    /// The same state with `pc` moved on by `n`.
    pub open spec fn advance(self, n: int) -> CpuState {
        CpuState { registers: Registers { pc: wrap16(self.registers.pc + n), ..self.registers }, ..self }
    }

    /// The state in which a fetched instruction runs: `pc` just past its
    /// opcode, decode state back to normal.
    pub open spec fn after_opcode(self) -> CpuState {
        CpuState { state: DecodeState::Normal, ..self.advance(1) }
    }

    pub open spec fn with_registers(self, r: Registers) -> CpuState {
        CpuState { registers: r, ..self }
    }

    /// The state after the instruction `tag` runs, with `pc` at its first
    /// operand byte (just past its opcode).
    #[verifier::opaque]
    pub open spec fn execute(self, tag: Instructions) -> CpuState {
        let s = self.advance(operand_len(tag));
        let r = s.registers;
        match tag {
            Instructions::LD_SP_D16 => s.with_registers(Registers { sp: self.imm16(), ..r }),
            Instructions::LD_HL_D16 => s.with_registers(Registers { hl: self.imm16(), ..r }),
            Instructions::LD_DE_D16 => s.with_registers(Registers { de: self.imm16(), ..r }),
            Instructions::LD_HLD_A => CpuState {
                memory: s.memory.update(r.hl as int, r.a()),
                registers: Registers { hl: r.hl.wrapping_sub(1), ..r },
                ..s
            },
            Instructions::LD_HL_A => CpuState { memory: s.memory.update(r.hl as int, r.a()), ..s },
            Instructions::LD_FFC_A => CpuState {
                memory: s.memory.update(IO.0 + r.c(), r.a()),
                ..s
            },
            Instructions::LDH_D8_A => CpuState {
                memory: s.memory.update(IO.0 + self.imm8(), r.a()),
                ..s
            },
            Instructions::LD_C_D8 => s.with_registers(r.with_r8(Register::C, self.imm8())),
            Instructions::LD_B_D8 => s.with_registers(r.with_r8(Register::B, self.imm8())),
            Instructions::LD_A_D8 => s.with_registers(r.with_r8(Register::A, self.imm8())),
            Instructions::LD_C_A => s.with_registers(r.with_r8(Register::C, r.a())),
            Instructions::LD_A_DE => s.with_registers(
                r.with_r8(Register::A, s.memory[IO.0 + r.c()]),
            ),
            Instructions::XOR_A => s.with_registers(
                Registers { af: join(0, xor_flags(r.f())), ..r },
            ),
            Instructions::BIT_7_H => s.with_registers(
                r.with_f(bit_test_flags(r.f(), bit_of(r.h(), 7))),
            ),
            Instructions::JR_NZ_8 => if r.flag(FLAG_Z) == 0 {
                s.advance(signed_value(self.imm8()))
            } else {
                s
            },
            Instructions::INC_C => {
                let res = r.c().wrapping_add(1);
                let r1 = r.with_r8(Register::C, res);
                s.with_registers(r1.with_f(inc_flags(r1.f(), r.c(), res)))
            },
            Instructions::CALL_A16 => CpuState {
                stack: s.stack.push(r.pc),
                registers: Registers { pc: self.imm16(), sp: r.sp.wrapping_sub(2), ..r },
                ..s
            },
            Instructions::PUSH_BC => CpuState {
                stack: s.stack.push(r.bc),
                registers: Registers { sp: r.sp.wrapping_sub(2), ..r },
                ..s
            },
            Instructions::RL_C => s.with_registers(rl_registers(r, Register::C)),
            _ => s,
        }
    }

    /// The operand values that the instruction `tag` reports for tracing,
    /// with `pc` at its first operand byte.
    #[verifier::opaque]
    pub open spec fn operands(self, tag: Instructions) -> Option<Seq<usize>> {
        match tag {
            Instructions::LD_SP_D16 | Instructions::LD_HL_D16 | Instructions::LD_DE_D16
            | Instructions::CALL_A16 => Some(seq![self.imm16() as usize]),
            Instructions::LD_C_D8 | Instructions::LD_B_D8 | Instructions::LD_A_D8
            | Instructions::LDH_D8_A | Instructions::JR_NZ_8 => Some(seq![self.imm8() as usize]),
            _ => None,
        }
    }
}

/// `XOR A` leaves A = 0, sets Z and clears N, H and C, whatever A held
/// before; the low nibble of F and every other register are kept.
pub proof fn lemma_xor_a(s: CpuState)
    ensures
        ({
            let t = s.execute(Instructions::XOR_A);
            &&& t.registers.a() == 0
            &&& t.registers.flag(FLAG_Z) == 1
            &&& t.registers.flag(FLAG_N) == 0
            &&& t.registers.flag(FLAG_H) == 0
            &&& t.registers.flag(FLAG_C) == 0
            &&& forall|i: u8| i < 4 ==> #[trigger] t.registers.flag(i) == s.registers.flag(i)
            &&& t.registers == (Registers { af: t.registers.af, ..s.registers })
        }),
{
    reveal(CpuState::execute);
    let f = s.registers.f();
    assert(bit_of(xor_flags(f), 7) == 1 && bit_of(xor_flags(f), 6) == 0 && bit_of(xor_flags(f), 5)
        == 0 && bit_of(xor_flags(f), 4) == 0) by (bit_vector);
    assert forall|i: u8| i < 4 implies bit_of(xor_flags(f), i) == bit_of(f, i) by {
        assert(i < 4 ==> bit_of(xor_flags(f), i) == bit_of(f, i)) by (bit_vector);
    }
}

/// `BIT 7, H`: when bit 7 of H is 0, Z is set; when it is 1, Z is left as
/// it was. Either way N is cleared, H is set, C and every register but F
/// are kept.
pub proof fn lemma_bit_7_h(s: CpuState)
    ensures
        ({
            let t = s.execute(Instructions::BIT_7_H);
            let h = s.registers.h();
            &&& bit_of(h, 7) == 0 ==> t.registers.flag(FLAG_Z) == 1
            &&& bit_of(h, 7) == 1 ==> t.registers.flag(FLAG_Z) == s.registers.flag(FLAG_Z)
            &&& t.registers.flag(FLAG_N) == 0
            &&& t.registers.flag(FLAG_H) == 1
            &&& t.registers.flag(FLAG_C) == s.registers.flag(FLAG_C)
            &&& t.registers.a() == s.registers.a()
            &&& t.registers == (Registers { af: t.registers.af, ..s.registers })
        }),
{
    reveal(CpuState::execute);
    let f = s.registers.f();
    let h = s.registers.h();
    assert(bit_of(h, 7) == 0 ==> bit_of(bit_test_flags(f, bit_of(h, 7)), 7) == 1) by (bit_vector);
    assert(bit_of(h, 7) == 1 ==> bit_of(bit_test_flags(f, bit_of(h, 7)), 7) == bit_of(f, 7))
        by (bit_vector);
    assert(bit_of(bit_test_flags(f, bit_of(h, 7)), 6) == 0 && bit_of(
        bit_test_flags(f, bit_of(h, 7)),
        5,
    ) == 1 && bit_of(bit_test_flags(f, bit_of(h, 7)), 4) == bit_of(f, 4)) by (bit_vector);
}

/// `JR NZ, d` at address `p`: with Z clear the next `pc` is `p + 2 + d`
/// (`d` read as a signed byte), with Z set it is `p + 2`; nothing else but
/// `pc` changes.
pub proof fn lemma_jr_nz(s: CpuState)
    requires
        s.state == DecodeState::Normal,
        s.can_fetch(2),
        s.imm8() == 0x20,
    ensures
        lookup(s.state, s.imm8()).tag == Instructions::JR_NZ_8,
        s.after_opcode().can_fetch(operand_len(Instructions::JR_NZ_8)),
        ({
            let t = s.after_opcode().execute(Instructions::JR_NZ_8);
            &&& s.registers.flag(FLAG_Z) == 0 ==> t.registers.pc == wrap16(
                s.registers.pc + 2 + signed_value(s.byte_at(1)),
            )
            &&& s.registers.flag(FLAG_Z) == 1 ==> t.registers.pc == wrap16(s.registers.pc + 2)
            &&& t == (CpuState { registers: Registers { pc: t.registers.pc, ..s.registers }, ..s })
        }),
{
    reveal(CpuState::execute);
    let p = s.registers.pc as int;
    vstd::arithmetic::div_mod::lemma_add_mod_noop(p + 1, 1, 0x10000);
    vstd::arithmetic::div_mod::lemma_mod_twice(p + 1, 0x10000);
    vstd::arithmetic::div_mod::lemma_add_mod_noop(p + 2, signed_value(s.byte_at(1)), 0x10000);
    vstd::arithmetic::div_mod::lemma_mod_twice(p + 2, 0x10000);
    assert(wrap16(wrap16(p + 1) + 0) == wrap16(p + 1));
    assert(wrap16(wrap16(p + 1) + 1) == wrap16(p + 2));
}

/// `CALL a16` at address `p`: the address after its three bytes, `p + 3`,
/// is pushed onto the stack and `pc` becomes the 16-bit operand; `sp`
/// moves down by two and nothing else changes.
pub proof fn lemma_call(s: CpuState)
    requires
        s.state == DecodeState::Normal,
        s.can_fetch(1),
        s.after_opcode().can_fetch(2),
        s.imm8() == 0xcd,
    ensures
        lookup(s.state, s.imm8()).tag == Instructions::CALL_A16,
        ({
            let t = s.after_opcode().execute(Instructions::CALL_A16);
            &&& t.stack == s.stack.push(wrap16(s.registers.pc + 3))
            &&& t.registers.pc == join(s.byte_at(2), s.byte_at(1))
            &&& t.registers.sp == s.registers.sp.wrapping_sub(2)
            &&& t.registers == (Registers { pc: t.registers.pc, sp: t.registers.sp, ..s.registers })
            &&& t.memory == s.memory
        }),
{
    reveal(CpuState::execute);
    let p = s.registers.pc as int;
    vstd::arithmetic::div_mod::lemma_add_mod_noop(p + 1, 1, 0x10000);
    vstd::arithmetic::div_mod::lemma_add_mod_noop(p + 1, 2, 0x10000);
    vstd::arithmetic::div_mod::lemma_mod_twice(p + 1, 0x10000);
    assert(wrap16(wrap16(p + 1) + 0) == wrap16(p + 1));
    assert(wrap16(wrap16(p + 1) + 1) == wrap16(p + 2));
    assert(wrap16(wrap16(p + 1) + 2) == wrap16(p + 3));
}

/// How many operand bytes follow the opcode of `tag`.
fn operand_count(tag: Instructions) -> (n: usize)
    ensures
        n == operand_len(tag),
{
    match tag {
        Instructions::LD_SP_D16 | Instructions::LD_HL_D16 | Instructions::LD_DE_D16
        | Instructions::CALL_A16 => 2,
        Instructions::LD_C_D8 | Instructions::LD_B_D8 | Instructions::LD_A_D8
        | Instructions::LDH_D8_A | Instructions::JR_NZ_8 => 1,
        _ => 0,
    }
}

/// The values of an optional operand list.
pub open spec fn data_view(d: Option<Vec<usize>>) -> Option<Seq<usize>> {
    match d {
        Some(v) => Some(v@),
        None => None,
    }
}

/// The processor: program image, registers, memory, call stack, the trace
/// switch and the decode state.
///
/// Return addresses and pushed pairs live in the separate call stack, not
/// in memory: calls and pushes move `sp` down by two as bookkeeping, and
/// `sp` never addresses memory.
pub struct CPU {
    pub rom: Vec<u8>,
    pub registers: Registers,
    pub memory: Memory,
    pub stack: Stack,
    pub verbose: bool,
    pub state: DecodeState,
}

impl View for CPU {
    type V = CpuState;

    open spec fn view(&self) -> CpuState {
        CpuState {
            rom: self.rom@,
            registers: self.registers,
            memory: self.memory@,
            stack: self.stack@,
            verbose: self.verbose,
            state: self.state,
        }
    }
}

impl CPU {
    /// A processor at address 0 of `rom`, with every register and memory
    /// byte zero, an empty stack, in the normal decode state.
    pub fn new(rom: Vec<u8>, verbose: bool) -> (c: CPU)
        ensures
            c@ == (CpuState {
                rom: rom@,
                registers: Registers { af: 0, bc: 0, de: 0, hl: 0, sp: 0, pc: 0 },
                memory: Seq::new(MEMORY_SIZE as nat, |i: int| 0u8),
                stack: Seq::empty(),
                verbose,
                state: DecodeState::Normal,
            }),
    {
        let registers = Registers::new();
        let memory = Memory::new();
        let stack = Stack::new();
        CPU { rom, registers, memory, stack, verbose, state: DecodeState::Normal }
    }

    /// Fetches the byte at `pc` from the image and moves `pc` past it.
    pub fn read_8(&mut self) -> (r: u8)
        requires
            old(self)@.can_fetch(1),
        ensures
            r == old(self)@.imm8(),
            final(self)@ == old(self)@.advance(1),
    {
        let byte = self.rom[self.registers.pc as usize];
        self.registers.step(1);
        byte
    }

    /// Fetches a 16-bit value, low byte first, and moves `pc` past it.
    pub fn read_16(&mut self) -> (r: u16)
        requires
            old(self)@.can_fetch(2),
        ensures
            r == old(self)@.imm16(),
            final(self)@ == old(self)@.advance(2),
    {
        let x = self.read_8();
        let y = self.read_8();
        (y as u16) * 256 + x as u16
    }

    /// Runs one cycle of the fetch-decode-execute loop.
    ///
    /// The byte at `pc` is fetched. In the normal state the escape opcode
    /// only switches to the prefixed state. Any other byte is looked up in
    /// the table of the current state, the state goes back to normal, and
    /// the instruction runs and is reported for tracing. An opcode with no
    /// entry is a decode error. An instruction whose bytes run past the end
    /// of the image is not run, and the processor is left as it was.
    pub fn step(&mut self) -> (r: Result<Option<TraceEvent>, CpuError>)
        ensures
            !old(self)@.can_fetch(1) ==> r == Err::<Option<TraceEvent>, CpuError>(
                (CpuError::FetchOutOfBounds { pc: old(self).registers.pc }),
            ) && final(self)@ == old(self)@,
            old(self)@.can_fetch(1) && old(self).state == DecodeState::Normal && old(self)@.imm8()
                == PREFIX_OPCODE ==> (r matches Ok(None) && final(self)@ == (CpuState {
                state: DecodeState::Prefixed,
                ..old(self)@.advance(1)
            })),
            old(self)@.can_fetch(1) && !(old(self).state == DecodeState::Normal && old(self)@.imm8()
                == PREFIX_OPCODE) ==> ({
                let op = old(self)@.imm8();
                let d = lookup(old(self).state, op);
                let mid = old(self)@.after_opcode();
                &&& d.tag == Instructions::Unknown ==> r == Err::<Option<TraceEvent>, CpuError>(
                    (CpuError::UnknownOpcode {
                        opcode: op,
                        prefixed: old(self).state == DecodeState::Prefixed,
                    }),
                ) && final(self)@ == mid
                &&& d.tag != Instructions::Unknown && !mid.can_fetch(operand_len(d.tag)) ==> r
                    == Err::<Option<TraceEvent>, CpuError>(
                    (CpuError::FetchOutOfBounds { pc: old(self).registers.pc }),
                ) && final(self)@ == old(self)@
                &&& d.tag != Instructions::Unknown && mid.can_fetch(operand_len(d.tag)) ==> (r matches Ok(
                    Some(ev),
                ) && ev.opcode == op && ev.prefixed == (old(self).state == DecodeState::Prefixed)
                    && ev.descriptor == d && data_view(ev.data) == mid.operands(d.tag) && final(self)@
                    == mid.execute(d.tag))
            }),
    {
        let pc = self.registers.pc;
        if pc as usize >= self.rom.len() {
            return Err(CpuError::FetchOutOfBounds { pc });
        }
        let prefixed = match self.state {
            DecodeState::Normal => false,
            DecodeState::Prefixed => true,
        };
        let opcode = self.read_8();
        if !prefixed && opcode == PREFIX_OPCODE {
            self.state = DecodeState::Prefixed;
            return Ok(None);
        }
        let descriptor = if prefixed {
            find_prefixed_instruction(opcode)
        } else {
            find_instruction(opcode)
        };
        self.state = DecodeState::Normal;
        if descriptor.tag == Instructions::Unknown {
            return Err(CpuError::UnknownOpcode { opcode, prefixed });
        }
        let n = operand_count(descriptor.tag);
        let next = self.registers.pc;
        if (n >= 1 && next as usize >= self.rom.len()) || (n >= 2 && next.wrapping_add(1) as usize
            >= self.rom.len()) {
            self.registers.pc = pc;
            self.state = if prefixed {
                DecodeState::Prefixed
            } else {
                DecodeState::Normal
            };
            return Err(CpuError::FetchOutOfBounds { pc });
        }
        let data = self.execute(descriptor.tag);
        Ok(Some(TraceEvent { opcode, prefixed, descriptor, data }))
    }

    /// Runs the instruction `tag`, with `pc` at its first operand byte, and
    /// returns the operand values it reports.
    pub fn execute(&mut self, tag: Instructions) -> (r: Option<Vec<usize>>)
        requires
            old(self)@.can_fetch(operand_len(tag)),
        ensures
            final(self)@ == old(self)@.execute(tag),
            data_view(r) == old(self)@.operands(tag),
    {
        proof {
            reveal(CpuState::execute);
            reveal(CpuState::operands);
        }
        match tag {
            Instructions::LD_SP_D16 => self.ld_sp_d16(),
            Instructions::XOR_A => self.xora(),
            Instructions::LD_HL_D16 => self.ld_hl_d16(),
            Instructions::LD_HLD_A => self.ld_hld_a(),
            Instructions::BIT_7_H => self.bit_h(7),
            Instructions::JR_NZ_8 => self.jr_nz_8(),
            Instructions::LD_C_D8 => self.ld_x_d8(Register::C),
            Instructions::LD_A_D8 => self.ld_a_d8(),
            Instructions::LD_FFC_A => self.ld_ffc_a(),
            Instructions::INC_C => self.inc_c(),
            Instructions::LD_HL_A => self.ld_hl_a(),
            Instructions::LDH_D8_A => self.ldh_d8_a(),
            Instructions::LD_DE_D16 => self.ld_de_d16(),
            Instructions::LD_A_DE => self.ld_a_de(),
            Instructions::CALL_A16 => self.call_a16(),
            Instructions::LD_C_A => self.ld_c_a(),
            Instructions::LD_B_D8 => self.ld_x_d8(Register::B),
            Instructions::PUSH_BC => self.push(Register::BC),
            Instructions::RL_C => self.rl(Register::C),
            _ => None,
        }
    }

    fn ld_sp_d16(&mut self) -> (r: Option<Vec<usize>>)
        requires
            old(self)@.can_fetch(2),
        ensures
            final(self)@ == old(self)@.execute(Instructions::LD_SP_D16),
            data_view(r) == old(self)@.operands(Instructions::LD_SP_D16),
    {
        proof {
            reveal(CpuState::execute);
            reveal(CpuState::operands);
        }
        let data = self.read_16();
        self.registers.sp = data;
        Some(vec![data as usize])
    }

    /// Rotates the 8-bit register `register` left through the carry flag.
    fn rl(&mut self, register: Register) -> (r: Option<Vec<usize>>)
        requires
            !register.is_pair(),
        ensures
            final(self)@ == old(self)@.with_registers(rl_registers(old(self).registers, register)),
            r is None,
    {
        let carry = self.registers.get_flag_c();
        let v = self.registers.get_r8(register);
        let out = self.registers.get_bit(v, 7);
        let res = ((v as u16 * 2 + carry as u16) % 256) as u8;
        self.registers.set_r8(register, res);
        if res == 0 {
            self.registers.set_flag_z();
        } else {
            self.registers.clear_flag_z();
        }
        self.registers.clear_flag_n();
        self.registers.clear_flag_h();
        if out == 1 {
            self.registers.set_flag_c();
        } else {
            self.registers.clear_flag_c();
        }
        None
    }

    /// Pushes the pair `register` onto the call stack; `sp` moves down by two
    /// as bookkeeping (the stack itself is not kept in memory).
    fn push(&mut self, register: Register) -> (r: Option<Vec<usize>>)
        requires
            register.is_pair(),
        ensures
            final(self)@ == (CpuState {
                stack: old(self)@.stack.push(old(self).registers.r16(register)),
                registers: Registers {
                    sp: old(self).registers.sp.wrapping_sub(2),
                    ..old(self).registers
                },
                ..old(self)@
            }),
            r is None,
    {
        let v = self.registers.get_r16(register);
        self.stack.push(v);
        self.registers.sp = self.registers.sp.wrapping_sub(2);
        None
    }

    /// Pushes the address after the call and jumps to the 16-bit operand;
    /// `sp` moves down by two as bookkeeping.
    fn call_a16(&mut self) -> (r: Option<Vec<usize>>)
        requires
            old(self)@.can_fetch(2),
        ensures
            final(self)@ == old(self)@.execute(Instructions::CALL_A16),
            data_view(r) == old(self)@.operands(Instructions::CALL_A16),
    {
        proof {
            reveal(CpuState::execute);
            reveal(CpuState::operands);
        }
        let data = self.read_16();
        let address = self.registers.pc;
        self.stack.push(address);
        self.registers.sp = self.registers.sp.wrapping_sub(2);
        self.registers.jump(data);
        Some(vec![data as usize])
    }

    fn ld_de_d16(&mut self) -> (r: Option<Vec<usize>>)
        requires
            old(self)@.can_fetch(2),
        ensures
            final(self)@ == old(self)@.execute(Instructions::LD_DE_D16),
            data_view(r) == old(self)@.operands(Instructions::LD_DE_D16),
    {
        proof {
            reveal(CpuState::execute);
            reveal(CpuState::operands);
        }
        let data = self.read_16();
        self.registers.set_de(data);
        Some(vec![data as usize])
    }

    fn ld_hl_d16(&mut self) -> (r: Option<Vec<usize>>)
        requires
            old(self)@.can_fetch(2),
        ensures
            final(self)@ == old(self)@.execute(Instructions::LD_HL_D16),
            data_view(r) == old(self)@.operands(Instructions::LD_HL_D16),
    {
        proof {
            reveal(CpuState::execute);
            reveal(CpuState::operands);
        }
        let data = self.read_16();
        self.registers.set_hl(data);
        Some(vec![data as usize])
    }

    /// Stores A at the address in HL, then decrements HL.
    fn ld_hld_a(&mut self) -> (r: Option<Vec<usize>>)
        ensures
            final(self)@ == old(self)@.execute(Instructions::LD_HLD_A),
            r is None,
    {
        proof {
            reveal(CpuState::execute);
        }
        let hl = self.registers.get_hl();
        let a = self.registers.get_a();
        self.memory.write(hl as usize, a);
        self.registers.dec_hl();
        None
    }

    /// Loads the 8-bit operand into the 8-bit register `register`.
    fn ld_x_d8(&mut self, register: Register) -> (r: Option<Vec<usize>>)
        requires
            old(self)@.can_fetch(1),
            !register.is_pair(),
        ensures
            final(self)@ == old(self)@.advance(1).with_registers(
                old(self)@.advance(1).registers.with_r8(register, old(self)@.imm8()),
            ),
            data_view(r) == Some(seq![old(self)@.imm8() as usize]),
    {
        let byte = self.read_8();
        self.registers.set_r8(register, byte);
        Some(vec![byte as usize])
    }

    /// Stores A at 0xFF00 plus the 8-bit operand.
    fn ldh_d8_a(&mut self) -> (r: Option<Vec<usize>>)
        requires
            old(self)@.can_fetch(1),
        ensures
            final(self)@ == old(self)@.execute(Instructions::LDH_D8_A),
            data_view(r) == old(self)@.operands(Instructions::LDH_D8_A),
    {
        proof {
            reveal(CpuState::execute);
            reveal(CpuState::operands);
        }
        let byte = self.read_8() as usize;
        let a = self.registers.get_a();
        self.memory.write((IO.0 as usize) + byte, a);
        Some(vec![byte])
    }

    /// Stores A at 0xFF00 plus C.
    fn ld_ffc_a(&mut self) -> (r: Option<Vec<usize>>)
        ensures
            final(self)@ == old(self)@.execute(Instructions::LD_FFC_A),
            r is None,
    {
        proof {
            reveal(CpuState::execute);
        }
        let c = self.registers.get_c() as usize;
        let a = self.registers.get_a();
        self.memory.write((IO.0 as usize) + c, a);
        None
    }

    fn ld_c_a(&mut self) -> (r: Option<Vec<usize>>)
        ensures
            final(self)@ == old(self)@.execute(Instructions::LD_C_A),
            r is None,
    {
        proof {
            reveal(CpuState::execute);
        }
        let a = self.registers.get_a();
        self.registers.set_c(a);
        None
    }

    /// Stores A at the address in HL.
    fn ld_hl_a(&mut self) -> (r: Option<Vec<usize>>)
        ensures
            final(self)@ == old(self)@.execute(Instructions::LD_HL_A),
            r is None,
    {
        proof {
            reveal(CpuState::execute);
        }
        let hl = self.registers.get_hl();
        let a = self.registers.get_a();
        self.memory.write(hl as usize, a);
        None
    }

    fn ld_a_d8(&mut self) -> (r: Option<Vec<usize>>)
        requires
            old(self)@.can_fetch(1),
        ensures
            final(self)@ == old(self)@.execute(Instructions::LD_A_D8),
            data_view(r) == old(self)@.operands(Instructions::LD_A_D8),
    {
        proof {
            reveal(CpuState::execute);
            reveal(CpuState::operands);
        }
        let byte = self.read_8();
        self.registers.set_a(byte);
        Some(vec![byte as usize])
    }

    /// Loads A from the I/O byte selected by C (0xFF00 plus C): this is how
    /// the model executes the `LD A, (DE)` opcode.
    fn ld_a_de(&mut self) -> (r: Option<Vec<usize>>)
        ensures
            final(self)@ == old(self)@.execute(Instructions::LD_A_DE),
            r is None,
    {
        proof {
            reveal(CpuState::execute);
        }
        let c = self.registers.get_c() as usize;
        let byte = self.memory.read((IO.0 as usize) + c);
        self.registers.set_a(byte);
        None
    }

    /// A = A xor A, which is 0: Z set, N, H and C cleared.
    fn xora(&mut self) -> (r: Option<Vec<usize>>)
        ensures
            final(self)@ == old(self)@.execute(Instructions::XOR_A),
            final(self).registers.a() == 0,
            final(self).registers.flag(FLAG_Z) == 1,
            final(self).registers.flag(FLAG_N) == 0,
            final(self).registers.flag(FLAG_H) == 0,
            final(self).registers.flag(FLAG_C) == 0,
            forall|i: u8| i < 4 ==> #[trigger] final(self).registers.flag(i) == old(self).registers.flag(i),
            r is None,
    {
        proof {
            reveal(CpuState::execute);
        }
        let a = self.registers.get_a();
        let result = a ^ a;
        assert(a ^ a == 0) by (bit_vector);
        self.registers.set_a(result);
        if result == 0 {
            self.registers.set_flag_z();
        }
        self.registers.clear_flag_n();
        self.registers.clear_flag_h();
        self.registers.clear_flag_c();
        None
    }

    /// Tests bit `bit` of H: Z set if it is 0 (left alone otherwise), N
    /// cleared, H set, C left alone.
    fn bit_h(&mut self, bit: u8) -> (r: Option<Vec<usize>>)
        requires
            bit < 8,
        ensures
            final(self)@ == old(self)@.with_registers(
                old(self).registers.with_f(
                    bit_test_flags(old(self).registers.f(), bit_of(old(self).registers.h(), bit)),
                ),
            ),
            bit_of(old(self).registers.h(), bit) == 0 ==> final(self).registers.flag(FLAG_Z) == 1,
            bit_of(old(self).registers.h(), bit) == 1 ==> final(self).registers.flag(FLAG_Z)
                == old(self).registers.flag(FLAG_Z),
            final(self).registers.flag(FLAG_N) == 0,
            final(self).registers.flag(FLAG_H) == 1,
            final(self).registers.flag(FLAG_C) == old(self).registers.flag(FLAG_C),
            r is None,
    {
        let h = self.registers.get_h();
        let n = self.registers.get_bit(h, bit);
        if n == 0 {
            self.registers.set_flag_z();
        }
        self.registers.clear_flag_n();
        self.registers.set_flag_h();
        None
    }

    /// If Z is clear, moves `pc` by the signed 8-bit operand, counted from
    /// the end of the instruction.
    fn jr_nz_8(&mut self) -> (r: Option<Vec<usize>>)
        requires
            old(self)@.can_fetch(1),
        ensures
            final(self)@ == old(self)@.execute(Instructions::JR_NZ_8),
            data_view(r) == old(self)@.operands(Instructions::JR_NZ_8),
    {
        proof {
            reveal(CpuState::execute);
            reveal(CpuState::operands);
        }
        let n = self.read_8();
        let z = self.registers.get_flag_z();
        let signed_n = self.registers.to_signed_byte(n) as isize;
        if z == 0 {
            self.registers.step(signed_n);
        }
        Some(vec![n as usize])
    }

    /// Increments C: Z by the result, N cleared, H set on a carry out of
    /// the low nibble, C left alone.
    fn inc_c(&mut self) -> (r: Option<Vec<usize>>)
        ensures
            final(self)@ == old(self)@.execute(Instructions::INC_C),
            r is None,
    {
        proof {
            reveal(CpuState::execute);
        }
        let before = self.registers.get_c();
        self.registers.inc_c();
        let res = self.registers.get_c();
        if res == 0 {
            self.registers.set_flag_z();
        } else {
            self.registers.clear_flag_z();
        }
        self.registers.clear_flag_n();
        if before % 16 == 15 {
            self.registers.set_flag_h();
        } else {
            self.registers.clear_flag_h();
        }
        None
    }
}

} // verus!
