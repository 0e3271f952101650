use vstd::prelude::*;
use crate::hex::{hex_digits, push_hex};

verus! {

/// Bit position of the zero flag in F.
pub const FLAG_Z: u8 = 7;

/// Bit position of the subtract flag in F.
pub const FLAG_N: u8 = 6;

/// Bit position of the half-carry flag in F.
pub const FLAG_H: u8 = 5;

/// Bit position of the carry flag in F.
pub const FLAG_C: u8 = 4;

/// Names of the 8-bit registers and of the 16-bit pairs.
#[derive(Clone, Copy, Debug, PartialEq, Eq, Structural)]
pub enum Register {
    A,
    B,
    C,
    D,
    E,
    F,
    H,
    L,
    AF,
    BC,
    DE,
    HL,
}

/// The high (first-named) half of a register pair.
pub open spec fn hi(x: u16) -> u8 {
    (x / 256) as u8
}

/// The low (second-named) half of a register pair.
pub open spec fn lo(x: u16) -> u8 {
    (x % 256) as u8
}

/// The pair whose high half is `h` and whose low half is `l`.
pub open spec fn join(h: u8, l: u8) -> u16 {
    (h * 256 + l) as u16
}

/// Bit `n` of `byte`, as 0 or 1.
pub open spec fn bit_of(byte: u8, n: u8) -> u8 {
    (byte >> n) & 1
}

/// `byte` with bit `n` set.
pub open spec fn with_bit(byte: u8, n: u8) -> u8 {
    byte | (1u8 << n)
}

/// `byte` with bit `n` cleared.
pub open spec fn without_bit(byte: u8, n: u8) -> u8 {
    byte & !(1u8 << n)
}

/// The two's-complement value of an 8-bit pattern.
pub open spec fn signed_value(byte: u8) -> int {
    if byte < 128 {
        byte as int
    } else {
        byte - 256
    }
}

/// Splitting a pair into its halves and joining them again are inverse.
pub proof fn lemma_pair_halves(x: u16, h: u8, l: u8)
    ensures
        hi(join(h, l)) == h,
        lo(join(h, l)) == l,
        join(hi(x), lo(x)) == x,
{
}

/// Setting bit `n` changes bit `n` to 1 and no other bit.
pub proof fn lemma_with_bit(byte: u8, n: u8, i: u8)
    requires
        n < 8,
        i < 8,
    ensures
        bit_of(with_bit(byte, n), i) == (if i == n { 1u8 } else { bit_of(byte, i) }),
{
    assert(((byte | (1u8 << n)) >> i) & 1 == (if i == n { 1u8 } else { (byte >> i) & 1 }))
        by (bit_vector)
        requires
            n < 8,
            i < 8,
    ;
}

/// Clearing bit `n` changes bit `n` to 0 and no other bit.
pub proof fn lemma_without_bit(byte: u8, n: u8, i: u8)
    requires
        n < 8,
        i < 8,
    ensures
        bit_of(without_bit(byte, n), i) == (if i == n { 0u8 } else { bit_of(byte, i) }),
{
    assert(((byte & !(1u8 << n)) >> i) & 1 == (if i == n { 0u8 } else { (byte >> i) & 1 }))
        by (bit_vector)
        requires
            n < 8,
            i < 8,
    ;
}

impl Register {
    /// Whether this names one of the four 16-bit pairs.
    pub open spec fn is_pair(self) -> bool {
        self is AF || self is BC || self is DE || self is HL
    }
}

/// `prefix` followed by `value` in hex with at least `width` digits.
fn hex_line(prefix: &str, value: usize, width: usize) -> (r: String)
    ensures
        r@ == prefix@ + hex_digits(value as nat, width as nat),
{
    let mut s = String::from_str(prefix);
    push_hex(&mut s, value, width);
    s
}

/// The register file: four 16-bit pair cells, each readable and writable
/// as a whole or by its two 8-bit halves, and the free-standing `sp` and `pc`.
#[derive(Clone, Copy, Debug, PartialEq, Eq, Structural)]
pub struct Registers {
    pub af: u16,
    pub bc: u16,
    pub de: u16,
    pub hl: u16,
    pub sp: u16,
    pub pc: u16,
}

impl Registers {
    pub open spec fn a(&self) -> u8 {
        hi(self.af)
    }

    pub open spec fn f(&self) -> u8 {
        lo(self.af)
    }

    pub open spec fn b(&self) -> u8 {
        hi(self.bc)
    }

    pub open spec fn c(&self) -> u8 {
        lo(self.bc)
    }

    pub open spec fn d(&self) -> u8 {
        hi(self.de)
    }

    pub open spec fn e(&self) -> u8 {
        lo(self.de)
    }

    pub open spec fn h(&self) -> u8 {
        hi(self.hl)
    }

    pub open spec fn l(&self) -> u8 {
        lo(self.hl)
    }

    /// Flag bit `n` of F, as 0 or 1.
    pub open spec fn flag(&self, n: u8) -> u8 {
        bit_of(self.f(), n)
    }

    /// The same registers with F replaced by `f` (A is kept).
    pub open spec fn with_f(self, f: u8) -> Registers {
        Registers { af: join(self.a(), f), ..self }
    }

    /// The 8-bit register named by `r` (0 for a pair name).
    pub open spec fn r8(&self, r: Register) -> u8 {
        match r {
            Register::A => self.a(),
            Register::B => self.b(),
            Register::C => self.c(),
            Register::D => self.d(),
            Register::E => self.e(),
            Register::F => self.f(),
            Register::H => self.h(),
            Register::L => self.l(),
            _ => 0,
        }
    }

    /// The same registers with the 8-bit register `r` replaced by `v`, its
    /// partner half kept (unchanged for a pair name).
    pub open spec fn with_r8(self, r: Register, v: u8) -> Registers {
        match r {
            Register::A => Registers { af: join(v, self.f()), ..self },
            Register::F => Registers { af: join(self.a(), v), ..self },
            Register::B => Registers { bc: join(v, self.c()), ..self },
            Register::C => Registers { bc: join(self.b(), v), ..self },
            Register::D => Registers { de: join(v, self.e()), ..self },
            Register::E => Registers { de: join(self.d(), v), ..self },
            Register::H => Registers { hl: join(v, self.l()), ..self },
            Register::L => Registers { hl: join(self.h(), v), ..self },
            _ => self,
        }
    }

    /// The 16-bit pair named by `r` (0 for an 8-bit name).
    pub open spec fn r16(&self, r: Register) -> u16 {
        match r {
            Register::AF => self.af,
            Register::BC => self.bc,
            Register::DE => self.de,
            Register::HL => self.hl,
            _ => 0,
        }
    }

    /// The diagnostic listing, one line each: the eight 8-bit registers in
    /// two hex digits, the four pairs, `pc` and `sp` in four, then a heading
    /// and the eight bits of F from bit 7 down.
    pub open spec fn dump_lines(self) -> Seq<Seq<char>> {
        seq![
            "A:  $"@ + hex_digits(self.a() as nat, 2),
            "B:  $"@ + hex_digits(self.b() as nat, 2),
            "C:  $"@ + hex_digits(self.c() as nat, 2),
            "D:  $"@ + hex_digits(self.d() as nat, 2),
            "E:  $"@ + hex_digits(self.e() as nat, 2),
            "F:  $"@ + hex_digits(self.f() as nat, 2),
            "H:  $"@ + hex_digits(self.h() as nat, 2),
            "L:  $"@ + hex_digits(self.l() as nat, 2),
            "AF: $"@ + hex_digits(self.af as nat, 4),
            "BC: $"@ + hex_digits(self.bc as nat, 4),
            "DE: $"@ + hex_digits(self.de as nat, 4),
            "HL: $"@ + hex_digits(self.hl as nat, 4),
            "PC: $"@ + hex_digits(self.pc as nat, 4),
            "SP: $"@ + hex_digits(self.sp as nat, 4),
            "ZNHC3210"@,
            hex_digits(self.flag(7) as nat, 1) + hex_digits(self.flag(6) as nat, 1) + hex_digits(
                self.flag(5) as nat,
                1,
            ) + hex_digits(self.flag(4) as nat, 1) + hex_digits(self.flag(3) as nat, 1)
                + hex_digits(self.flag(2) as nat, 1) + hex_digits(self.flag(1) as nat, 1)
                + hex_digits(self.flag(0) as nat, 1),
        ]
    }

    /// Every register zero.
    pub fn new() -> (r: Registers)
        ensures
            r == (Registers { af: 0, bc: 0, de: 0, hl: 0, sp: 0, pc: 0 }),
    {
        Registers { af: 0, bc: 0, de: 0, hl: 0, sp: 0, pc: 0 }
    }

    pub fn get_af(&self) -> (r: u16)
        ensures
            r == self.af,
    {
        self.af
    }

    pub fn get_a(&self) -> (r: u8)
        ensures
            r == self.a(),
    {
        (self.af / 256) as u8
    }

    pub fn get_f(&self) -> (r: u8)
        ensures
            r == self.f(),
    {
        (self.af % 256) as u8
    }

    pub fn set_af(&mut self, data: u16)
        ensures
            *final(self) == (Registers { af: data, ..*old(self) }),
            final(self).a() == hi(data),
            final(self).f() == lo(data),
    {
        self.af = data;
    }

    pub fn set_a(&mut self, byte: u8)
        ensures
            *final(self) == (Registers { af: join(byte, old(self).f()), ..*old(self) }),
            final(self).a() == byte,
            final(self).f() == old(self).f(),
    {
        self.af = (byte as u16) * 256 + self.af % 256;
    }

    pub fn set_f(&mut self, byte: u8)
        ensures
            *final(self) == (Registers { af: join(old(self).a(), byte), ..*old(self) }),
            final(self).a() == old(self).a(),
            final(self).f() == byte,
    {
        self.af = (self.af / 256) * 256 + byte as u16;
    }

    pub fn get_bc(&self) -> (r: u16)
        ensures
            r == self.bc,
    {
        self.bc
    }

    pub fn get_b(&self) -> (r: u8)
        ensures
            r == self.b(),
    {
        (self.bc / 256) as u8
    }

    pub fn get_c(&self) -> (r: u8)
        ensures
            r == self.c(),
    {
        (self.bc % 256) as u8
    }

    pub fn set_bc(&mut self, data: u16)
        ensures
            *final(self) == (Registers { bc: data, ..*old(self) }),
            final(self).b() == hi(data),
            final(self).c() == lo(data),
    {
        self.bc = data;
    }

    pub fn set_b(&mut self, byte: u8)
        ensures
            *final(self) == (Registers { bc: join(byte, old(self).c()), ..*old(self) }),
            final(self).b() == byte,
            final(self).c() == old(self).c(),
    {
        self.bc = (byte as u16) * 256 + self.bc % 256;
    }

    pub fn set_c(&mut self, byte: u8)
        ensures
            *final(self) == (Registers { bc: join(old(self).b(), byte), ..*old(self) }),
            final(self).b() == old(self).b(),
            final(self).c() == byte,
    {
        self.bc = (self.bc / 256) * 256 + byte as u16;
    }

    pub fn get_de(&self) -> (r: u16)
        ensures
            r == self.de,
    {
        self.de
    }

    pub fn get_d(&self) -> (r: u8)
        ensures
            r == self.d(),
    {
        (self.de / 256) as u8
    }

    pub fn get_e(&self) -> (r: u8)
        ensures
            r == self.e(),
    {
        (self.de % 256) as u8
    }

    pub fn set_de(&mut self, data: u16)
        ensures
            *final(self) == (Registers { de: data, ..*old(self) }),
            final(self).d() == hi(data),
            final(self).e() == lo(data),
    {
        self.de = data;
    }

    pub fn set_d(&mut self, byte: u8)
        ensures
            *final(self) == (Registers { de: join(byte, old(self).e()), ..*old(self) }),
            final(self).d() == byte,
            final(self).e() == old(self).e(),
    {
        self.de = (byte as u16) * 256 + self.de % 256;
    }

    pub fn set_e(&mut self, byte: u8)
        ensures
            *final(self) == (Registers { de: join(old(self).d(), byte), ..*old(self) }),
            final(self).d() == old(self).d(),
            final(self).e() == byte,
    {
        self.de = (self.de / 256) * 256 + byte as u16;
    }

    pub fn get_hl(&self) -> (r: u16)
        ensures
            r == self.hl,
    {
        self.hl
    }

    pub fn get_h(&self) -> (r: u8)
        ensures
            r == self.h(),
    {
        (self.hl / 256) as u8
    }

    pub fn get_l(&self) -> (r: u8)
        ensures
            r == self.l(),
    {
        (self.hl % 256) as u8
    }

    pub fn set_hl(&mut self, data: u16)
        ensures
            *final(self) == (Registers { hl: data, ..*old(self) }),
            final(self).h() == hi(data),
            final(self).l() == lo(data),
    {
        self.hl = data;
    }

    pub fn set_h(&mut self, byte: u8)
        ensures
            *final(self) == (Registers { hl: join(byte, old(self).l()), ..*old(self) }),
            final(self).h() == byte,
            final(self).l() == old(self).l(),
    {
        self.hl = (byte as u16) * 256 + self.hl % 256;
    }

    pub fn set_l(&mut self, byte: u8)
        ensures
            *final(self) == (Registers { hl: join(old(self).h(), byte), ..*old(self) }),
            final(self).h() == old(self).h(),
            final(self).l() == byte,
    {
        self.hl = (self.hl / 256) * 256 + byte as u16;
    }

    /// Sets the zero flag, leaving every other bit of F and every other register as it was.
    pub fn set_flag_z(&mut self)
        ensures
            *final(self) == old(self).with_f(with_bit(old(self).f(), FLAG_Z)),
            forall|i: u8|
                i < 8 ==> #[trigger] final(self).flag(i) == (if i == FLAG_Z {
                    1u8
                } else {
                    old(self).flag(i)
                }),
    {
        let f = self.get_f();
        let v = self.set_bit(f, FLAG_Z);
        self.set_f(v);
        proof {
            assert forall|i: u8| i < 8 implies #[trigger] self.flag(i) == (if i == FLAG_Z {
                1u8
            } else {
                old(self).flag(i)
            }) by {
                lemma_with_bit(f, FLAG_Z, i);
            }
        }
    }

    /// Clears the zero flag, leaving every other bit of F and every other register as it was.
    pub fn clear_flag_z(&mut self)
        ensures
            *final(self) == old(self).with_f(without_bit(old(self).f(), FLAG_Z)),
            forall|i: u8|
                i < 8 ==> #[trigger] final(self).flag(i) == (if i == FLAG_Z {
                    0u8
                } else {
                    old(self).flag(i)
                }),
    {
        let f = self.get_f();
        let v = self.clear_bit(f, FLAG_Z);
        self.set_f(v);
        proof {
            assert forall|i: u8| i < 8 implies #[trigger] self.flag(i) == (if i == FLAG_Z {
                0u8
            } else {
                old(self).flag(i)
            }) by {
                lemma_without_bit(f, FLAG_Z, i);
            }
        }
    }

    /// The zero flag, as 0 or 1.
    pub fn get_flag_z(&self) -> (r: u8)
        ensures
            r == self.flag(FLAG_Z),
    {
        let f = self.get_f();
        self.get_bit(f, FLAG_Z)
    }

    /// Sets the subtract flag, leaving every other bit of F and every other register as it was.
    pub fn set_flag_n(&mut self)
        ensures
            *final(self) == old(self).with_f(with_bit(old(self).f(), FLAG_N)),
            forall|i: u8|
                i < 8 ==> #[trigger] final(self).flag(i) == (if i == FLAG_N {
                    1u8
                } else {
                    old(self).flag(i)
                }),
    {
        let f = self.get_f();
        let v = self.set_bit(f, FLAG_N);
        self.set_f(v);
        proof {
            assert forall|i: u8| i < 8 implies #[trigger] self.flag(i) == (if i == FLAG_N {
                1u8
            } else {
                old(self).flag(i)
            }) by {
                lemma_with_bit(f, FLAG_N, i);
            }
        }
    }

    /// Clears the subtract flag, leaving every other bit of F and every other register as it was.
    pub fn clear_flag_n(&mut self)
        ensures
            *final(self) == old(self).with_f(without_bit(old(self).f(), FLAG_N)),
            forall|i: u8|
                i < 8 ==> #[trigger] final(self).flag(i) == (if i == FLAG_N {
                    0u8
                } else {
                    old(self).flag(i)
                }),
    {
        let f = self.get_f();
        let v = self.clear_bit(f, FLAG_N);
        self.set_f(v);
        proof {
            assert forall|i: u8| i < 8 implies #[trigger] self.flag(i) == (if i == FLAG_N {
                0u8
            } else {
                old(self).flag(i)
            }) by {
                lemma_without_bit(f, FLAG_N, i);
            }
        }
    }

    /// The subtract flag, as 0 or 1.
    pub fn get_flag_n(&self) -> (r: u8)
        ensures
            r == self.flag(FLAG_N),
    {
        let f = self.get_f();
        self.get_bit(f, FLAG_N)
    }

    /// Sets the half-carry flag, leaving every other bit of F and every other register as it was.
    pub fn set_flag_h(&mut self)
        ensures
            *final(self) == old(self).with_f(with_bit(old(self).f(), FLAG_H)),
            forall|i: u8|
                i < 8 ==> #[trigger] final(self).flag(i) == (if i == FLAG_H {
                    1u8
                } else {
                    old(self).flag(i)
                }),
    {
        let f = self.get_f();
        let v = self.set_bit(f, FLAG_H);
        self.set_f(v);
        proof {
            assert forall|i: u8| i < 8 implies #[trigger] self.flag(i) == (if i == FLAG_H {
                1u8
            } else {
                old(self).flag(i)
            }) by {
                lemma_with_bit(f, FLAG_H, i);
            }
        }
    }

    /// Clears the half-carry flag, leaving every other bit of F and every other register as it was.
    pub fn clear_flag_h(&mut self)
        ensures
            *final(self) == old(self).with_f(without_bit(old(self).f(), FLAG_H)),
            forall|i: u8|
                i < 8 ==> #[trigger] final(self).flag(i) == (if i == FLAG_H {
                    0u8
                } else {
                    old(self).flag(i)
                }),
    {
        let f = self.get_f();
        let v = self.clear_bit(f, FLAG_H);
        self.set_f(v);
        proof {
            assert forall|i: u8| i < 8 implies #[trigger] self.flag(i) == (if i == FLAG_H {
                0u8
            } else {
                old(self).flag(i)
            }) by {
                lemma_without_bit(f, FLAG_H, i);
            }
        }
    }

    /// The half-carry flag, as 0 or 1.
    pub fn get_flag_h(&self) -> (r: u8)
        ensures
            r == self.flag(FLAG_H),
    {
        let f = self.get_f();
        self.get_bit(f, FLAG_H)
    }

    /// Sets the carry flag, leaving every other bit of F and every other register as it was.
    pub fn set_flag_c(&mut self)
        ensures
            *final(self) == old(self).with_f(with_bit(old(self).f(), FLAG_C)),
            forall|i: u8|
                i < 8 ==> #[trigger] final(self).flag(i) == (if i == FLAG_C {
                    1u8
                } else {
                    old(self).flag(i)
                }),
    {
        let f = self.get_f();
        let v = self.set_bit(f, FLAG_C);
        self.set_f(v);
        proof {
            assert forall|i: u8| i < 8 implies #[trigger] self.flag(i) == (if i == FLAG_C {
                1u8
            } else {
                old(self).flag(i)
            }) by {
                lemma_with_bit(f, FLAG_C, i);
            }
        }
    }

    /// Clears the carry flag, leaving every other bit of F and every other register as it was.
    pub fn clear_flag_c(&mut self)
        ensures
            *final(self) == old(self).with_f(without_bit(old(self).f(), FLAG_C)),
            forall|i: u8|
                i < 8 ==> #[trigger] final(self).flag(i) == (if i == FLAG_C {
                    0u8
                } else {
                    old(self).flag(i)
                }),
    {
        let f = self.get_f();
        let v = self.clear_bit(f, FLAG_C);
        self.set_f(v);
        proof {
            assert forall|i: u8| i < 8 implies #[trigger] self.flag(i) == (if i == FLAG_C {
                0u8
            } else {
                old(self).flag(i)
            }) by {
                lemma_without_bit(f, FLAG_C, i);
            }
        }
    }

    /// The carry flag, as 0 or 1.
    pub fn get_flag_c(&self) -> (r: u8)
        ensures
            r == self.flag(FLAG_C),
    {
        let f = self.get_f();
        self.get_bit(f, FLAG_C)
    }

    /// Reads the 8-bit register `r`.
    pub fn get_r8(&self, r: Register) -> (v: u8)
        requires
            !r.is_pair(),
        ensures
            v == self.r8(r),
    {
        match r {
            Register::A => self.get_a(),
            Register::B => self.get_b(),
            Register::C => self.get_c(),
            Register::D => self.get_d(),
            Register::E => self.get_e(),
            Register::F => self.get_f(),
            Register::H => self.get_h(),
            _ => self.get_l(),
        }
    }

    /// Writes the 8-bit register `r`, keeping its partner half.
    pub fn set_r8(&mut self, r: Register, v: u8)
        requires
            !r.is_pair(),
        ensures
            *final(self) == old(self).with_r8(r, v),
    {
        match r {
            Register::A => self.set_a(v),
            Register::B => self.set_b(v),
            Register::C => self.set_c(v),
            Register::D => self.set_d(v),
            Register::E => self.set_e(v),
            Register::F => self.set_f(v),
            Register::H => self.set_h(v),
            _ => self.set_l(v),
        }
    }

    /// Reads the 16-bit pair `r`.
    pub fn get_r16(&self, r: Register) -> (v: u16)
        requires
            r.is_pair(),
        ensures
            v == self.r16(r),
    {
        match r {
            Register::AF => self.get_af(),
            Register::BC => self.get_bc(),
            Register::DE => self.get_de(),
            _ => self.get_hl(),
        }
    }

    /// The diagnostic listing of every register, as lines of text.
    pub fn dump(&self) -> (lines: Vec<String>)
        ensures
            lines@.map_values(|s: String| s@) == self.dump_lines(),
    {
        let mut lines: Vec<String> = Vec::new();
        lines.push(hex_line("A:  $", self.get_a() as usize, 2));
        lines.push(hex_line("B:  $", self.get_b() as usize, 2));
        lines.push(hex_line("C:  $", self.get_c() as usize, 2));
        lines.push(hex_line("D:  $", self.get_d() as usize, 2));
        lines.push(hex_line("E:  $", self.get_e() as usize, 2));
        lines.push(hex_line("F:  $", self.get_f() as usize, 2));
        lines.push(hex_line("H:  $", self.get_h() as usize, 2));
        lines.push(hex_line("L:  $", self.get_l() as usize, 2));
        lines.push(hex_line("AF: $", self.af as usize, 4));
        lines.push(hex_line("BC: $", self.bc as usize, 4));
        lines.push(hex_line("DE: $", self.de as usize, 4));
        lines.push(hex_line("HL: $", self.hl as usize, 4));
        lines.push(hex_line("PC: $", self.pc as usize, 4));
        lines.push(hex_line("SP: $", self.sp as usize, 4));
        lines.push(String::from_str("ZNHC3210"));
        let f = self.get_f();
        let mut bits = String::new();
        push_hex(&mut bits, self.get_bit(f, 7) as usize, 1);
        push_hex(&mut bits, self.get_bit(f, 6) as usize, 1);
        push_hex(&mut bits, self.get_bit(f, 5) as usize, 1);
        push_hex(&mut bits, self.get_bit(f, 4) as usize, 1);
        push_hex(&mut bits, self.get_bit(f, 3) as usize, 1);
        push_hex(&mut bits, self.get_bit(f, 2) as usize, 1);
        push_hex(&mut bits, self.get_bit(f, 1) as usize, 1);
        push_hex(&mut bits, self.get_bit(f, 0) as usize, 1);
        assert(bits@ =~= self.dump_lines()[15]);
        lines.push(bits);
        assert(lines@.map_values(|s: String| s@) =~= self.dump_lines());
        lines
    }

    /// Decrements HL, wrapping from 0 to 0xFFFF.
    pub fn dec_hl(&mut self)
        ensures
            *final(self) == (Registers { hl: old(self).hl.wrapping_sub(1), ..*old(self) }),
            final(self).hl == (if old(self).hl == 0 { 0xFFFFu16 } else { (old(self).hl - 1) as u16 }),
    {
        self.hl = self.hl.wrapping_sub(1);
    }

    /// Increments C, wrapping from 0xFF to 0; B and the flags are kept.
    pub fn inc_c(&mut self)
        ensures
            *final(self) == (Registers {
                bc: join(old(self).b(), old(self).c().wrapping_add(1)),
                ..*old(self)
            }),
            final(self).c() == (if old(self).c() == 255 { 0u8 } else { (old(self).c() + 1) as u8 }),
            final(self).b() == old(self).b(),
    {
        let c = self.get_c();
        self.set_c(c.wrapping_add(1));
    }

    /// `byte` with bit `n` set.
    pub fn set_bit(&self, byte: u8, n: u8) -> (r: u8)
        requires
            n < 8,
        ensures
            r == with_bit(byte, n),
    {
        byte | (1u8 << n)
    }

    /// `byte` with bit `n` cleared.
    pub fn clear_bit(&self, byte: u8, n: u8) -> (r: u8)
        requires
            n < 8,
        ensures
            r == without_bit(byte, n),
    {
        byte & !(1u8 << n)
    }

    /// Bit `bit` of `byte`, as 0 or 1.
    pub fn get_bit(&self, byte: u8, bit: u8) -> (r: u8)
        requires
            bit < 8,
        ensures
            r == bit_of(byte, bit),
            r <= 1,
    {
        proof {
            assert((byte >> bit) & 1 <= 1) by (bit_vector);
            assert((byte & (1u8 << bit)) >> bit == (byte >> bit) & 1) by (bit_vector)
                requires
                    bit < 8,
            ;
        }
        (byte & (1u8 << bit)) >> bit
    }

    /// The two's-complement reading of `byte`.
    pub fn to_signed_byte(&self, byte: u8) -> (r: i8)
        ensures
            r as int == signed_value(byte),
    {
        if byte < 128 {
            byte as i8
        } else {
            (byte as i16 - 256) as i8
        }
    }

    /// Moves `pc` by `length`, forward or backward, modulo the 16-bit address space.
    pub fn step(&mut self, length: isize)
        ensures
            *final(self) == (Registers { pc: final(self).pc, ..*old(self) }),
            final(self).pc as int == (old(self).pc + length) % 0x10000,
    {
        let m: isize = match length.checked_rem_euclid(0x10000) {
            Some(m) => m,
            None => 0,
        };
        proof {
            assert(m as int == length % 0x10000);
            vstd::arithmetic::div_mod::lemma_add_mod_noop(self.pc as int, length as int, 0x10000);
            vstd::arithmetic::div_mod::lemma_mod_twice(length as int, 0x10000);
        }
        self.pc = self.pc.wrapping_add(m as u16);
    }

    /// Sets `pc` to `address`.
    pub fn jump(&mut self, address: u16)
        ensures
            *final(self) == (Registers { pc: address, ..*old(self) }),
    {
        self.pc = address;
    }
}

} // verus!
