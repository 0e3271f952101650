use vstd::prelude::*;
use crate::hex::{hex_digits, push_hex};

verus! {

/// The escape opcode that selects the prefixed table for the next byte.
pub const PREFIX_OPCODE: u8 = 0xcb;

/// What an opcode means: one tag per modeled instruction, the escape
/// marker, and the default for opcodes that no table lists.
#[allow(non_camel_case_types)]
#[derive(Clone, Copy, Debug, PartialEq, Eq, Structural)]
pub enum Instructions {
    LD_SP_D16,
    LD_HL_D16,
    LD_HLD_A,
    LD_HL_A,
    XOR_A,
    Prefixed,
    BIT_7_H,
    JR_NZ_8,
    LD_C_D8,
    LD_A_D8,
    LD_FFC_A,
    INC_C,
    LDH_D8_A,
    LD_DE_D16,
    LD_A_DE,
    CALL_A16,
    LD_C_A,
    LD_B_D8,
    PUSH_BC,
    RL_C,
    Unknown,
}

/// One table entry: the opcode, its mnemonic, the trace template (each `{}`
/// stands for one operand) and its tag.
#[derive(Clone, Copy, Debug)]
pub struct Descriptor {
    pub opcode: u8,
    pub mnemonic: &'static str,
    pub template: &'static str,
    pub tag: Instructions,
}

/// The entry of the primary table for `op`; unlisted opcodes get the
/// unknown entry (opcode 0, empty texts).
pub open spec fn primary_entry(op: u8) -> Descriptor {
    match op {
        0xcb => Descriptor {
            opcode: 0xcb,
            mnemonic: "",
            template: "",
            tag: Instructions::Prefixed,
        },
        0x21 => Descriptor {
            opcode: 0x21,
            mnemonic: "LD HL, d16",
            template: "LD HL, ${}",
            tag: Instructions::LD_HL_D16,
        },
        0x31 => Descriptor {
            opcode: 0x31,
            mnemonic: "LD SP, d16",
            template: "LD SP, ${}",
            tag: Instructions::LD_SP_D16,
        },
        0x32 => Descriptor {
            opcode: 0x32,
            mnemonic: "LD (HL-), A",
            template: "LD (HL-), A",
            tag: Instructions::LD_HLD_A,
        },
        0xaf => Descriptor {
            opcode: 0xaf,
            mnemonic: "XOR A",
            template: "XOR A",
            tag: Instructions::XOR_A,
        },
        0x20 => Descriptor {
            opcode: 0x20,
            mnemonic: "JR NZ, r8",
            template: "JR NZ, ${}",
            tag: Instructions::JR_NZ_8,
        },
        0x0e => Descriptor {
            opcode: 0x0e,
            mnemonic: "LD C, d8",
            template: "LD C, ${}",
            tag: Instructions::LD_C_D8,
        },
        0x3e => Descriptor {
            opcode: 0x3e,
            mnemonic: "LD A, d8",
            template: "LD A, ${}",
            tag: Instructions::LD_A_D8,
        },
        0xe2 => Descriptor {
            opcode: 0xe2,
            mnemonic: "LD ($FF00+C), A",
            template: "LD ($FF00+C), A",
            tag: Instructions::LD_FFC_A,
        },
        0x0c => Descriptor {
            opcode: 0x0c,
            mnemonic: "INC C",
            template: "INC C",
            tag: Instructions::INC_C,
        },
        0x77 => Descriptor {
            opcode: 0x77,
            mnemonic: "LD (HL), A ",
            template: "LD (HL), A",
            tag: Instructions::LD_HL_A,
        },
        0xe0 => Descriptor {
            opcode: 0xe0,
            mnemonic: "LD ($FF00+d8), A",
            template: "LD ($FF00+${}), A",
            tag: Instructions::LDH_D8_A,
        },
        0x11 => Descriptor {
            opcode: 0x11,
            mnemonic: "LD DE, d16",
            template: "LD DE, ${}",
            tag: Instructions::LD_DE_D16,
        },
        0x1a => Descriptor {
            opcode: 0x1a,
            mnemonic: "LD A, (DE)",
            template: "LD A, (DE)",
            tag: Instructions::LD_A_DE,
        },
        0xcd => Descriptor {
            opcode: 0xcd,
            mnemonic: "CALL a16",
            template: "CALL ${}",
            tag: Instructions::CALL_A16,
        },
        0x4f => Descriptor {
            opcode: 0x4f,
            mnemonic: "LD C, A",
            template: "LD C, A",
            tag: Instructions::LD_C_A,
        },
        0x06 => Descriptor {
            opcode: 0x06,
            mnemonic: "LD B, d8",
            template: "LD B, ${}",
            tag: Instructions::LD_B_D8,
        },
        0xc5 => Descriptor {
            opcode: 0xc5,
            mnemonic: "PUSH BC",
            template: "PUSH BC",
            tag: Instructions::PUSH_BC,
        },
        _ => Descriptor { opcode: 0x00, mnemonic: "", template: "", tag: Instructions::Unknown },
    }
}

/// The entry of the prefixed table for `op`, reached after the escape opcode.
pub open spec fn prefixed_entry(op: u8) -> Descriptor {
    match op {
        0x7c => Descriptor {
            opcode: 0x7c,
            mnemonic: "BIT 7, H",
            template: "BIT 7, H",
            tag: Instructions::BIT_7_H,
        },
        0x11 => Descriptor {
            opcode: 0x11,
            mnemonic: "RL C",
            template: "RL C",
            tag: Instructions::RL_C,
        },
        _ => Descriptor { opcode: 0x00, mnemonic: "", template: "", tag: Instructions::Unknown },
    }
}

pub(crate) fn find_instruction(instr: u8) -> (r: Descriptor)
    ensures
        r == primary_entry(instr),
{
    match instr {
        0xcb => Descriptor {
            opcode: 0xcb,
            mnemonic: "",
            template: "",
            tag: Instructions::Prefixed,
        },
        0x21 => Descriptor {
            opcode: 0x21,
            mnemonic: "LD HL, d16",
            template: "LD HL, ${}",
            tag: Instructions::LD_HL_D16,
        },
        0x31 => Descriptor {
            opcode: 0x31,
            mnemonic: "LD SP, d16",
            template: "LD SP, ${}",
            tag: Instructions::LD_SP_D16,
        },
        0x32 => Descriptor {
            opcode: 0x32,
            mnemonic: "LD (HL-), A",
            template: "LD (HL-), A",
            tag: Instructions::LD_HLD_A,
        },
        0xaf => Descriptor {
            opcode: 0xaf,
            mnemonic: "XOR A",
            template: "XOR A",
            tag: Instructions::XOR_A,
        },
        0x20 => Descriptor {
            opcode: 0x20,
            mnemonic: "JR NZ, r8",
            template: "JR NZ, ${}",
            tag: Instructions::JR_NZ_8,
        },
        0x0e => Descriptor {
            opcode: 0x0e,
            mnemonic: "LD C, d8",
            template: "LD C, ${}",
            tag: Instructions::LD_C_D8,
        },
        0x3e => Descriptor {
            opcode: 0x3e,
            mnemonic: "LD A, d8",
            template: "LD A, ${}",
            tag: Instructions::LD_A_D8,
        },
        0xe2 => Descriptor {
            opcode: 0xe2,
            mnemonic: "LD ($FF00+C), A",
            template: "LD ($FF00+C), A",
            tag: Instructions::LD_FFC_A,
        },
        0x0c => Descriptor {
            opcode: 0x0c,
            mnemonic: "INC C",
            template: "INC C",
            tag: Instructions::INC_C,
        },
        0x77 => Descriptor {
            opcode: 0x77,
            mnemonic: "LD (HL), A ",
            template: "LD (HL), A",
            tag: Instructions::LD_HL_A,
        },
        0xe0 => Descriptor {
            opcode: 0xe0,
            mnemonic: "LD ($FF00+d8), A",
            template: "LD ($FF00+${}), A",
            tag: Instructions::LDH_D8_A,
        },
        0x11 => Descriptor {
            opcode: 0x11,
            mnemonic: "LD DE, d16",
            template: "LD DE, ${}",
            tag: Instructions::LD_DE_D16,
        },
        0x1a => Descriptor {
            opcode: 0x1a,
            mnemonic: "LD A, (DE)",
            template: "LD A, (DE)",
            tag: Instructions::LD_A_DE,
        },
        0xcd => Descriptor {
            opcode: 0xcd,
            mnemonic: "CALL a16",
            template: "CALL ${}",
            tag: Instructions::CALL_A16,
        },
        0x4f => Descriptor {
            opcode: 0x4f,
            mnemonic: "LD C, A",
            template: "LD C, A",
            tag: Instructions::LD_C_A,
        },
        0x06 => Descriptor {
            opcode: 0x06,
            mnemonic: "LD B, d8",
            template: "LD B, ${}",
            tag: Instructions::LD_B_D8,
        },
        0xc5 => Descriptor {
            opcode: 0xc5,
            mnemonic: "PUSH BC",
            template: "PUSH BC",
            tag: Instructions::PUSH_BC,
        },
        _ => Descriptor { opcode: 0x00, mnemonic: "", template: "", tag: Instructions::Unknown },
    }
}

pub(crate) fn find_prefixed_instruction(instr: u8) -> (r: Descriptor)
    ensures
        r == prefixed_entry(instr),
{
    match instr {
        0x7c => Descriptor {
            opcode: 0x7c,
            mnemonic: "BIT 7, H",
            template: "BIT 7, H",
            tag: Instructions::BIT_7_H,
        },
        0x11 => Descriptor {
            opcode: 0x11,
            mnemonic: "RL C",
            template: "RL C",
            tag: Instructions::RL_C,
        },
        _ => Descriptor { opcode: 0x00, mnemonic: "", template: "", tag: Instructions::Unknown },
    }
}

/// How one operand is rendered in a trace: two digits for a value that
/// fits a byte, four digits (or more, as needed) for a larger one.
pub open spec fn hex_operand(d: usize) -> Seq<char> {
    if d <= 255 {
        hex_digits(d as nat, 2)
    } else {
        hex_digits(d as nat, 4)
    }
}

/// The template `t` with its `{}` placeholders replaced, left to right, by
/// the rendered operands `data`; placeholders beyond the operands stay as
/// they are, and operands beyond the placeholders are dropped.
pub open spec fn render(t: Seq<char>, data: Seq<usize>) -> Seq<char>
    decreases t.len(),
{
    if t.len() == 0 {
        Seq::empty()
    } else if t.len() >= 2 && t[0] == '{' && t[1] == '}' && data.len() > 0 {
        hex_operand(data[0]) + render(t.skip(2), data.skip(1))
    } else {
        seq![t[0]] + render(t.skip(1), data)
    }
}

/// A one-byte operand is rendered as two hex digits, a 16-bit operand
/// above 255 as four.
pub proof fn lemma_operand_width(d: usize)
    ensures
        d <= 255 ==> hex_operand(d).len() == 2,
        256 <= d <= 0xFFFF ==> hex_operand(d).len() == 4,
{
    reveal_with_fuel(hex_digits, 5);
    if d <= 255 {
        assert(d / 16 < 16);
    } else if d <= 0xFFFF {
        assert(d / 16 / 16 / 16 < 16);
        assert(d / 16 >= 16);
        assert(d / 16 / 16 >= 1);
    }
}

/// Appends one rendered operand.
fn push_operand(out: &mut String, d: usize)
    ensures
        final(out)@ == old(out)@ + hex_operand(d),
{
    if d <= 255 {
        push_hex(out, d, 2);
    } else {
        push_hex(out, d, 4);
    }
}

/// Fills the placeholders of `template` with `data`, left to right.
pub fn format_trace(template: &str, data: &Vec<usize>) -> (r: String)
    ensures
        r@ == render(template@, data@),
{
    let len = template.unicode_len();
    let mut out = String::new();
    let mut i: usize = 0;
    let mut k: usize = 0;
    assert(template@.skip(0) =~= template@);
    assert(data@.skip(0) =~= data@);
    assert(out@ + render(template@, data@) =~= render(template@, data@));
    while i < len
        invariant
            i <= len,
            len == template@.len(),
            k <= data.len(),
            render(template@, data@) == out@ + render(template@.skip(i as int), data@.skip(k as int)),
        decreases len - i,
    {
        let ghost t = template@.skip(i as int);
        let ghost rest = data@.skip(k as int);
        if i + 1 < len && k < data.len() && template.get_char(i) == '{' && template.get_char(i + 1)
            == '}' {
            assert(t.skip(2) =~= template@.skip(i + 2));
            assert(rest.skip(1) =~= data@.skip(k + 1));
            push_operand(&mut out, data[k]);
            i = i + 2;
            k = k + 1;
        } else {
            assert(t.skip(1) =~= template@.skip(i + 1));
            let piece = template.substring_char(i, i + 1);
            assert(piece@ =~= seq![t[0]]);
            out.append(piece);
            i = i + 1;
        }
    }
    out
}

/// The trace line of `instr` from the primary table, with `data` filled in.
pub fn get_debug(instr: u8, data: Vec<usize>) -> (r: String)
    ensures
        r@ == render(primary_entry(instr).template@, data@),
{
    let i = find_instruction(instr);
    format_trace(i.template, &data)
}

/// The trace line of `instr` from the prefixed table, with `data` filled in.
pub fn get_prefixed_debug(instr: u8, data: Vec<usize>) -> (r: String)
    ensures
        r@ == render(prefixed_entry(instr).template@, data@),
{
    let i = find_prefixed_instruction(instr);
    format_trace(i.template, &data)
}

/// The mnemonic of `instr` in the primary table.
pub fn get_assembly(instr: u8) -> (r: String)
    ensures
        r@ == primary_entry(instr).mnemonic@,
{
    let i = find_instruction(instr);
    String::from_str(i.mnemonic)
}

/// The mnemonic of `instr` in the prefixed table.
pub fn get_prefixed_assembly(instr: u8) -> (r: String)
    ensures
        r@ == prefixed_entry(instr).mnemonic@,
{
    let i = find_prefixed_instruction(instr);
    String::from_str(i.mnemonic)
}

/// The tag of `instr` in the primary table.
pub fn get_instruction(instr: u8) -> (r: Instructions)
    ensures
        r == primary_entry(instr).tag,
{
    find_instruction(instr).tag
}

/// The tag of `instr` in the prefixed table.
pub fn get_prefixed_instruction(instr: u8) -> (r: Instructions)
    ensures
        r == prefixed_entry(instr).tag,
{
    find_prefixed_instruction(instr).tag
}

} // verus!
