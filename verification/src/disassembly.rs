use vstd::prelude::*;
use crate::cpu::{ADDRESSING_MODES, word, spec_lookup, lookup};
use crate::bus::Bus;
use crate::cpu::Component6502;
use crate::nes::{Nes, NesView, nes_bus_read, nes_read_ok};
use crate::cartridge::{cartridge_fits, lemma_fits_accesses_ok};
use crate::ppu::Component2C02;
use crate::text::{hex2, hex4, hex_pad, push_hex, push_text};

verus! {

/// `n` spaces.
pub open spec fn spaces(n: nat) -> Seq<char> {
    Seq::new(n, |i: int| ' ')
}

/// Appends `n` spaces.
pub fn push_spaces(s: &mut String, n: u8)
    ensures
        final(s)@ == old(s)@ + spaces(n as nat),
{
    proof {
        reveal_strlit(" ");
    }
    let mut i: u8 = 0;
    while i < n
        invariant
            i <= n,
            s@ == old(s)@ + spaces(i as nat),
        decreases n - i,
    {
        proof {
            reveal_strlit(" ");
        }
        push_text(s, " ");
        i = i + 1;
        assert(s@ =~= old(s)@ + spaces(i as nat));
    }
}

/// The bytes that `format_operands` reads are there: the operands of the
/// addressing mode after the opcode (both operands for `JSR` and `JMP`),
/// the whole address space in `ram`, and for indirect addressing the
/// pointer after `pc`.
pub open spec fn format_operands_defined(
    mode: ADDRESSING_MODES,
    bytes: Seq<u8>,
    ram: Seq<u8>,
    opcode: u8,
    pc: u16,
) -> bool {
    &&& ram.len() >= 0x10000
    &&& bytes.len() > 0 ==> {
        if opcode == 0x20 || opcode == 0x4C {
            bytes.len() >= 3
        } else {
            &&& bytes.len() > mode.spec_operands_nb()
            &&& mode == ADDRESSING_MODES::IND ==> pc <= 0xFFFD
        }
    }
}

/// The relative branch target printed for offset byte `b` at `pc`.
pub open spec fn rel_target(pc: u16, b: u8) -> u16 {
    let offset: u16 = if b >= 0x80 {
        (b + 0xFF00) as u16
    } else {
        b as u16
    };
    pc.wrapping_add(2).wrapping_add(offset)
}

/// The address that an indirect `JMP` through the pointer at `pc + 1`
/// jumps to, with the page-wrap bug of the 6502.
pub open spec fn ind_target(ram: Seq<u8>, pc: u16) -> u16 {
    let lo = ram[pc + 1];
    let hi = ram[pc + 2];
    let ptr = word(lo, hi);
    if lo == 0xFF {
        word(ram[ptr as int], ram[word(0, hi) as int])
    } else {
        word(ram[ptr as int], ram[ptr + 1])
    }
}

/// `$` and the operand bytes, then the byte at the address they make.
pub open spec fn fmt_abs(b1: u8, b2: u8, ram: Seq<u8>) -> Seq<char> {
    seq!['$'] + hex2(b2) + hex2(b1) + seq![' ', '=', ' '] + hex2(ram[word(b1, b2) as int])
        + spaces(16)
}

/// A zero-page operand indexed by `r` (named `reg`): the operand, the
/// effective address and the byte there.
pub open spec fn fmt_zp_indexed(b1: u8, ram: Seq<u8>, reg: char, r: u8) -> Seq<char> {
    let a = b1.wrapping_add(r);
    seq!['$'] + hex2(b1) + seq![',', reg, ' ', '@', ' '] + hex2(a) + seq![' ', '=', ' '] + hex2(
        ram[a as int],
    ) + spaces(11)
}

/// An absolute operand indexed by `r` (named `reg`).
pub open spec fn fmt_abs_indexed(b1: u8, b2: u8, ram: Seq<u8>, reg: char, r: u8) -> Seq<char> {
    let a = word(b1, b2).wrapping_add(r as u16);
    seq!['$'] + hex2(b2) + hex2(b1) + seq![',', reg, ' ', '@', ' '] + hex4(a) + seq![' ', '=', ' ']
        + hex2(ram[a as int]) + spaces(7)
}

/// An indexed-indirect operand: the pointer in the zero page at `b1 + x`.
pub open spec fn fmt_izx(b1: u8, ram: Seq<u8>, x: u8) -> Seq<char> {
    let z = ((b1 + x) % 256) as u8;
    let a = word(ram[z as int], ram[(b1 + x + 1) % 256]);
    seq!['(', '$'] + hex2(b1) + seq![',', 'X', ')', ' ', '@', ' '] + hex2(z) + seq![' ', '=', ' ']
        + hex4(a) + seq![' ', '=', ' '] + hex2(ram[a as int]) + spaces(2)
}

/// An indirect-indexed operand: the pointer in the zero page at `b1`, plus `y`.
pub open spec fn fmt_izy(b1: u8, ram: Seq<u8>, y: u8) -> Seq<char> {
    let a = word(ram[b1 as int], ram[(b1 + 1) % 256]).wrapping_add(y as u16);
    seq!['(', '$'] + hex2(b1) + seq![')', ',', 'Y', ' ', '=', ' '] + hex4(a.wrapping_sub(y as u16))
        + seq![' ', '@', ' '] + hex4(a) + seq![' ', '=', ' '] + hex2(ram[a as int])
}

/// The operand column of a trace line in the style of the `nestest` log:
/// the operand, the effective address and the byte there, padded with
/// spaces.
pub open spec fn spec_format_operands(
    mode: ADDRESSING_MODES,
    bytes: Seq<u8>,
    ram: Seq<u8>,
    opcode: u8,
    pc: u16,
    x: u8,
    y: u8,
) -> Seq<char> {
    let b1 = bytes[1];
    let b2 = bytes[2];
    if bytes.len() == 0 {
        Seq::empty()
    } else if opcode == 0x20 || opcode == 0x4C {
        seq!['$'] + hex2(b2) + hex2(b1) + spaces(21)
    } else {
        match mode {
            ADDRESSING_MODES::ACC => seq!['A'] + spaces(25),
            ADDRESSING_MODES::IMP => spaces(26),
            ADDRESSING_MODES::IMM => seq!['#', '$'] + hex2(b1) + spaces(22),
            ADDRESSING_MODES::ZP0 => seq!['$'] + hex2(b1) + seq![' ', '=', ' '] + hex2(
                ram[b1 as int],
            ) + spaces(18),
            ADDRESSING_MODES::ZPX => fmt_zp_indexed(b1, ram, 'X', x),
            ADDRESSING_MODES::ZPY => fmt_zp_indexed(b1, ram, 'Y', y),
            ADDRESSING_MODES::REL => seq!['$'] + hex4(rel_target(pc, b1)) + spaces(21),
            ADDRESSING_MODES::ABS => fmt_abs(b1, b2, ram),
            ADDRESSING_MODES::ABX => fmt_abs_indexed(b1, b2, ram, 'X', x),
            ADDRESSING_MODES::ABY => fmt_abs_indexed(b1, b2, ram, 'Y', y),
            ADDRESSING_MODES::IND => seq!['(', '$'] + hex2(b2) + hex2(b1) + seq![')', ' ', '=', ' ']
                + hex4(ind_target(ram, pc)) + spaces(12),
            ADDRESSING_MODES::IZX => fmt_izx(b1, ram, x),
            ADDRESSING_MODES::IZY => fmt_izy(b1, ram, y),
        }
    }
}

/// Appends `$`, the operand byte, then `,X @ ` or `,Y @ `.
fn push_indexed_head(s: &mut String, b1: u8, reg_x: bool)
    ensures
        final(s)@ == old(s)@ + seq!['$'] + hex2(b1) + seq![
            ',',
            if reg_x {
                'X'
            } else {
                'Y'
            },
            ' ',
            '@',
            ' ',
        ],
{
    proof {
        reveal_strlit("$");
        reveal_strlit(",X @ ");
        reveal_strlit(",Y @ ");
    }
    push_text(s, "$");
    push_hex(s, b1 as u16, 2);
    if reg_x {
        push_text(s, ",X @ ");
    } else {
        push_text(s, ",Y @ ");
    }
    assert(s@ =~= old(s)@ + seq!['$'] + hex2(b1) + seq![
        ',',
        if reg_x {
            'X'
        } else {
            'Y'
        },
        ' ',
        '@',
        ' ',
    ]);
}

/// Appends ` = ` and a byte.
fn push_equals_byte(s: &mut String, b: u8)
    ensures
        final(s)@ == old(s)@ + seq![' ', '=', ' '] + hex2(b),
{
    proof {
        reveal_strlit(" = ");
    }
    push_text(s, " = ");
    push_hex(s, b as u16, 2);
    assert(s@ =~= old(s)@ + seq![' ', '=', ' '] + hex2(b));
}

/// The zero-page indexed operand column.
fn format_zp_indexed(b1: u8, ram: &[u8], reg_x: bool, r: u8) -> (s: String)
    requires
        ram@.len() >= 0x10000,
    ensures
        s@ == fmt_zp_indexed(
            b1,
            ram@,
            if reg_x {
                'X'
            } else {
                'Y'
            },
            r,
        ),
{
    let mut s = String::new();
    let addr = b1.wrapping_add(r);
    push_indexed_head(&mut s, b1, reg_x);
    push_hex(&mut s, addr as u16, 2);
    push_equals_byte(&mut s, ram[addr as usize]);
    push_spaces(&mut s, 11);
    assert(s@ =~= fmt_zp_indexed(
        b1,
        ram@,
        if reg_x {
            'X'
        } else {
            'Y'
        },
        r,
    ));
    s
}

/// The absolute operand column.
fn format_abs(b1: u8, b2: u8, ram: &[u8]) -> (s: String)
    requires
        ram@.len() >= 0x10000,
    ensures
        s@ == fmt_abs(b1, b2, ram@),
{
    proof {
        reveal_strlit("$");
        crate::addressing_modes::lemma_word(b1, b2);
    }
    let mut s = String::new();
    let addr = (b2 as u16) << 8 | b1 as u16;
    push_text(&mut s, "$");
    push_hex(&mut s, b2 as u16, 2);
    push_hex(&mut s, b1 as u16, 2);
    push_equals_byte(&mut s, ram[addr as usize]);
    push_spaces(&mut s, 16);
    assert(s@ =~= fmt_abs(b1, b2, ram@));
    s
}

/// The absolute indexed operand column.
fn format_abs_indexed(b1: u8, b2: u8, ram: &[u8], reg_x: bool, r: u8) -> (s: String)
    requires
        ram@.len() >= 0x10000,
    ensures
        s@ == fmt_abs_indexed(
            b1,
            b2,
            ram@,
            if reg_x {
                'X'
            } else {
                'Y'
            },
            r,
        ),
{
    proof {
        reveal_strlit("$");
        reveal_strlit(",X @ ");
        reveal_strlit(",Y @ ");
        crate::addressing_modes::lemma_word(b1, b2);
    }
    let mut s = String::new();
    let addr = ((b2 as u16) << 8 | b1 as u16).wrapping_add(r as u16);
    push_text(&mut s, "$");
    push_hex(&mut s, b2 as u16, 2);
    push_hex(&mut s, b1 as u16, 2);
    if reg_x {
        push_text(&mut s, ",X @ ");
    } else {
        push_text(&mut s, ",Y @ ");
    }
    push_hex(&mut s, addr, 4);
    push_equals_byte(&mut s, ram[addr as usize]);
    push_spaces(&mut s, 7);
    assert(s@ =~= fmt_abs_indexed(
        b1,
        b2,
        ram@,
        if reg_x {
            'X'
        } else {
            'Y'
        },
        r,
    ));
    s
}

/// The indirect operand column.
fn format_ind(b1: u8, b2: u8, ram: &[u8], pc: u16) -> (s: String)
    requires
        ram@.len() >= 0x10000,
        pc <= 0xFFFD,
    ensures
        s@ == seq!['(', '$'] + hex2(b2) + hex2(b1) + seq![')', ' ', '=', ' '] + hex4(
            ind_target(ram@, pc),
        ) + spaces(12),
{
    proof {
        reveal_strlit("($");
        reveal_strlit(") = ");
    }
    let ptr_lo = ram[(pc + 1) as usize] as u16;
    let ptr_hi = ram[(pc + 2) as usize] as u16;

    let ptr = (ptr_hi << 8) | ptr_lo;
    proof {
        crate::addressing_modes::lemma_word(ram[pc + 1], ram[pc + 2]);
        crate::addressing_modes::lemma_word(0, ram[pc + 2]);
        let h = ram[pc + 2];
        let l = ram[pc + 1];
        crate::bits::lemma_word_bits(l, h);
    }

    let addr = if ptr_lo == 0x00FF {
        // Simulate bug :D
        let a = (ram[(ptr & 0xFF00) as usize] as u16) << 8 | ram[ptr as usize] as u16;
        proof {
            crate::addressing_modes::lemma_word(ram[ptr as int], ram[(ptr & 0xFF00) as int]);
        }
        a
    } else {
        proof {
            let l = ram[pc + 1];
            let h = ram[pc + 2];
            crate::bits::lemma_word_bits(l, h);
        }
        let a = (ram[(ptr + 1) as usize] as u16) << 8 | ram[ptr as usize] as u16;
        proof {
            crate::addressing_modes::lemma_word(ram[ptr as int], ram[ptr + 1]);
        }
        a
    };
    let mut s = String::new();
    push_text(&mut s, "($");
    push_hex(&mut s, b2 as u16, 2);
    push_hex(&mut s, b1 as u16, 2);
    push_text(&mut s, ") = ");
    push_hex(&mut s, addr, 4);
    push_spaces(&mut s, 12);
    assert(s@ =~= seq!['(', '$'] + hex2(b2) + hex2(b1) + seq![')', ' ', '=', ' '] + hex4(
        ind_target(ram@, pc),
    ) + spaces(12));
    s
}

/// The indexed-indirect operand column.
fn format_izx(b1: u8, ram: &[u8], x: u8) -> (s: String)
    requires
        ram@.len() >= 0x10000,
    ensures
        s@ == fmt_izx(b1, ram@, x),
{
    proof {
        reveal_strlit("($");
        reveal_strlit(",X) @ ");
        reveal_strlit(" = ");
    }
    let z = (b1 as u16 + x as u16) & 0x00FF;
    let lo = ram[z as usize] as u16;
    let z1 = (b1 as u16 + x as u16 + 1) & 0x00FF;
    let hi = ram[z1 as usize] as u16;
    let addr = (hi << 8) | lo;
    proof {
        crate::bits::lemma_byte_sum_bits(b1, x);
        crate::addressing_modes::lemma_word(ram[z as int], ram[z1 as int]);
    }
    let mut s = String::new();
    push_text(&mut s, "($");
    push_hex(&mut s, b1 as u16, 2);
    push_text(&mut s, ",X) @ ");
    push_hex(&mut s, z, 2);
    push_text(&mut s, " = ");
    push_hex(&mut s, addr, 4);
    push_equals_byte(&mut s, ram[addr as usize]);
    push_spaces(&mut s, 2);
    assert(s@ =~= fmt_izx(b1, ram@, x));
    s
}

/// The indirect-indexed operand column.
fn format_izy(b1: u8, ram: &[u8], y: u8) -> (s: String)
    requires
        ram@.len() >= 0x10000,
    ensures
        s@ == fmt_izy(b1, ram@, y),
{
    proof {
        reveal_strlit("($");
        reveal_strlit("),Y = ");
        reveal_strlit(" @ ");
    }
    let lo = ram[(b1 as u16 & 0x00FF) as usize] as u16;
    let z1 = (b1 as u16 + 1) & 0x00FF;
    let hi = ram[z1 as usize] as u16;
    let mut addr = (hi << 8) | lo;
    proof {
        crate::bits::lemma_u8_bits(b1);
        crate::bits::lemma_byte_sum_bits(b1, 0);
        crate::addressing_modes::lemma_word(ram[b1 as int], ram[z1 as int]);
    }
    addr = addr.wrapping_add(y as u16);
    let mut s = String::new();
    push_text(&mut s, "($");
    push_hex(&mut s, b1 as u16, 2);
    push_text(&mut s, "),Y = ");
    push_hex(&mut s, addr.wrapping_sub(y as u16), 4);
    push_text(&mut s, " @ ");
    push_hex(&mut s, addr, 4);
    push_equals_byte(&mut s, ram[addr as usize]);
    assert(s@ =~= fmt_izy(b1, ram@, y));
    s
}

impl ADDRESSING_MODES {
    /// The operand column of a trace line in the style of the `nestest`
    /// log. `bytes` holds the opcode and its operands; `ram` is the address
    /// space, from which the effective address and the byte there are shown.
    pub fn format_operands(self, bytes: &[u8], ram: &[u8], opcode: u8, pc: u16, x: u8, y: u8) -> (r:
        String)
        requires
            format_operands_defined(self, bytes@, ram@, opcode, pc),
        ensures
            r@ == spec_format_operands(self, bytes@, ram@, opcode, pc, x, y),
    {
        let mut s = String::new();
        if bytes.len() == 0 {
            return s;
        }
        let index: usize = 1;
        if opcode == 0x20 || opcode == 0x4C {
            proof {
                reveal_strlit("$");
            }
            push_text(&mut s, "$");
            push_hex(&mut s, bytes[index + 1] as u16, 2);
            push_hex(&mut s, bytes[index] as u16, 2);
            push_spaces(&mut s, 21);
            assert(s@ =~= spec_format_operands(self, bytes@, ram@, opcode, pc, x, y));
            return s;
        }
        match self {
            ADDRESSING_MODES::ACC => {
                proof {
                    reveal_strlit("A");
                }
                push_text(&mut s, "A");
                push_spaces(&mut s, 25);
                assert(s@ =~= spec_format_operands(self, bytes@, ram@, opcode, pc, x, y));
                s
            },
            ADDRESSING_MODES::IMP => {
                push_spaces(&mut s, 26);
                assert(s@ =~= spec_format_operands(self, bytes@, ram@, opcode, pc, x, y));
                s
            },
            ADDRESSING_MODES::IMM => {
                proof {
                    reveal_strlit("#$");
                }
                push_text(&mut s, "#$");
                push_hex(&mut s, bytes[index] as u16, 2);
                push_spaces(&mut s, 22);
                assert(s@ =~= spec_format_operands(self, bytes@, ram@, opcode, pc, x, y));
                s
            },
            ADDRESSING_MODES::ZP0 => {
                proof {
                    reveal_strlit("$");
                }
                push_text(&mut s, "$");
                push_hex(&mut s, bytes[index] as u16, 2);
                push_equals_byte(&mut s, ram[bytes[index] as usize]);
                push_spaces(&mut s, 18);
                assert(s@ =~= spec_format_operands(self, bytes@, ram@, opcode, pc, x, y));
                s
            },
            ADDRESSING_MODES::ZPX => format_zp_indexed(bytes[index], ram, true, x),
            ADDRESSING_MODES::ZPY => format_zp_indexed(bytes[index], ram, false, y),
            ADDRESSING_MODES::REL => {
                proof {
                    reveal_strlit("$");
                }
                let mut addr = bytes[index] as u16;
                if (addr & 0x80) != 0 {
                    addr = addr | 0xFF00;
                }
                proof {
                    let b1 = bytes[1];
                    crate::bits::lemma_u8_bits(b1);
                }
                addr = pc.wrapping_add(2).wrapping_add(addr);
                push_text(&mut s, "$");
                push_hex(&mut s, addr, 4);
                push_spaces(&mut s, 21);
                assert(s@ =~= spec_format_operands(self, bytes@, ram@, opcode, pc, x, y));
                s
            },
            ADDRESSING_MODES::ABS => format_abs(bytes[index], bytes[index + 1], ram),
            ADDRESSING_MODES::ABX => format_abs_indexed(bytes[index], bytes[index + 1], ram, true, x),
            ADDRESSING_MODES::ABY => format_abs_indexed(
                bytes[index],
                bytes[index + 1],
                ram,
                false,
                y,
            ),
            ADDRESSING_MODES::IND => format_ind(bytes[index], bytes[index + 1], ram, pc),
            ADDRESSING_MODES::IZX => format_izx(bytes[index], ram, x),
            ADDRESSING_MODES::IZY => format_izy(bytes[index], ram, y),
        }
    }
}

/// The listing of an instruction without operand bytes.
pub open spec fn list_implied(tag: Seq<char>, name: Seq<char>, s0: NesView, pc: u16) -> (
    Seq<char>,
    u16,
    NesView,
) {
    (tag + name, pc.wrapping_add(1), s0)
}

/// The listing of an immediate operand.
#[verifier::opaque]
pub open spec fn list_imm(name: Seq<char>, s0: NesView, pc: u16) -> (Seq<char>, u16, NesView) {
    let (data, s1) = nes_bus_read(s0, pc.wrapping_add(1));
    (
        seq![' ', '(', 'I', 'M', 'M', ')', ' '] + name + seq![' ', '#', '$'] + hex2(data),
        pc.wrapping_add(2),
        s1,
    )
}

/// The listing of an absolute operand, between `tag` and `suffix`.
#[verifier::opaque]
pub open spec fn list_abs(
    tag: Seq<char>,
    suffix: Seq<char>,
    name: Seq<char>,
    s0: NesView,
    pc: u16,
) -> (Seq<char>, u16, NesView) {
    let (lo, s1) = nes_bus_read(s0, pc.wrapping_add(1));
    let (hi, s2) = nes_bus_read(s1, pc.wrapping_add(2));
    (tag + name + seq![' ', '$'] + hex4(word(lo, hi)) + suffix, pc.wrapping_add(3), s2)
}

/// The listing of a zero-page operand, before `suffix`.
#[verifier::opaque]
pub open spec fn list_zp(suffix: Seq<char>, name: Seq<char>, s0: NesView, pc: u16) -> (
    Seq<char>,
    u16,
    NesView,
) {
    let (addr, s1) = nes_bus_read(s0, pc.wrapping_add(1));
    (seq![' '] + name + seq![' ', '$'] + hex2(addr) + suffix, pc.wrapping_add(2), s1)
}

/// The listing of a branch: the offset byte and the target.
#[verifier::opaque]
pub open spec fn list_rel(name: Seq<char>, s0: NesView, pc: u16) -> (Seq<char>, u16, NesView) {
    let (addr, s1) = nes_bus_read(s0, pc.wrapping_add(1));
    (
        seq![' ', '(', 'R', 'E', 'L', ')', ' '] + name + seq![' ', '$'] + hex2(addr) + seq![' ', '[']
            + hex4(pc.wrapping_add(2).wrapping_add(addr as u16)) + seq![']'],
        pc.wrapping_add(2),
        s1,
    )
}

/// The target of an indirect jump through the pointer `lo`, `hi`, read
/// from the console, and the console after the reads.
#[verifier::opaque]
pub open spec fn read_ind_target(s2: NesView, lo: u8, hi: u8) -> (u16, NesView) {
    let ptr = word(lo, hi);
    if lo == 0xFF {
        let (a, s3) = nes_bus_read(s2, word(0, hi));
        let (b, s4) = nes_bus_read(s3, ptr);
        (word(a, b), s4)
    } else {
        let (a, s3) = nes_bus_read(s2, (ptr + 1) as u16);
        let (b, s4) = nes_bus_read(s3, ptr);
        (word(b, a), s4)
    }
}

/// The listing of an indirect jump.
#[verifier::opaque]
pub open spec fn list_ind(name: Seq<char>, s0: NesView, pc: u16) -> (Seq<char>, u16, NesView) {
    let (lo, s1) = nes_bus_read(s0, pc.wrapping_add(1));
    let (hi, s2) = nes_bus_read(s1, pc.wrapping_add(2));
    let (addr, s4) = read_ind_target(s2, lo, hi);
    (seq![' '] + name + seq![' ', '(', '$'] + hex4(addr) + seq![')'], pc.wrapping_add(3), s4)
}

/// The listing of an indexed-indirect operand.
#[verifier::opaque]
pub open spec fn list_izx(name: Seq<char>, s0: NesView, pc: u16) -> (Seq<char>, u16, NesView) {
    let (addr, s1) = nes_bus_read(s0, pc.wrapping_add(1));
    let x = s0.cpu.x;
    let (lo, s2) = nes_bus_read(s1, ((addr + x) % 256) as u16);
    let (hi, s3) = nes_bus_read(s2, ((addr + x + 1) % 256) as u16);
    (
        seq![' '] + name + seq![' ', '(', '$'] + hex2(addr) + seq![',', ' ', 'X', ')', ' ', '@', ' ']
            + hex_pad((addr + x) as nat, 2) + seq![' ', '=', ' '] + hex4(word(lo, hi)),
        pc.wrapping_add(2),
        s3,
    )
}

/// The listing of an indirect-indexed operand.
#[verifier::opaque]
pub open spec fn list_izy(name: Seq<char>, s0: NesView, pc: u16) -> (Seq<char>, u16, NesView) {
    let (addr, s1) = nes_bus_read(s0, pc.wrapping_add(1));
    let y = s0.cpu.y;
    let (lo, s2) = nes_bus_read(s1, addr as u16);
    let (hi, s3) = nes_bus_read(s2, ((addr + 1) % 256) as u16);
    let ptr = word(lo, hi).wrapping_add(y as u16);
    (
        seq![' '] + name + seq![' ', '(', '$'] + hex2(addr) + seq![')', ',', ' ', 'Y', ' ', '=', ' ']
            + hex4(ptr.wrapping_add(y as u16)),
        pc.wrapping_add(2),
        s3,
    )
}

/// The listing after the opcode, by addressing mode.
pub open spec fn list_tail(mode: ADDRESSING_MODES, name: Seq<char>, s0: NesView, pc: u16) -> (
    Seq<char>,
    u16,
    NesView,
) {
    match mode {
        ADDRESSING_MODES::ACC => list_implied(" (ACC) "@, name, s0, pc),
        ADDRESSING_MODES::IMP => list_implied(" (IMP) "@, name, s0, pc),
        ADDRESSING_MODES::IMM => list_imm(name, s0, pc),
        ADDRESSING_MODES::ABS => list_abs(" (ABS) "@, ""@, name, s0, pc),
        ADDRESSING_MODES::ABX => list_abs(" (ABSx) "@, ", X"@, name, s0, pc),
        ADDRESSING_MODES::ABY => list_abs(" "@, ", Y"@, name, s0, pc),
        ADDRESSING_MODES::ZP0 => list_zp(""@, name, s0, pc),
        ADDRESSING_MODES::ZPX => list_zp(", X"@, name, s0, pc),
        ADDRESSING_MODES::ZPY => list_zp(", Y"@, name, s0, pc),
        ADDRESSING_MODES::REL => list_rel(name, s0, pc),
        ADDRESSING_MODES::IND => list_ind(name, s0, pc),
        ADDRESSING_MODES::IZX => list_izx(name, s0, pc),
        ADDRESSING_MODES::IZY => list_izy(name, s0, pc),
    }
}

/// One line of the instruction listing of the debugger, for the
/// instruction at `pc`: the opcode, the mode for some modes, the mnemonic
/// and the operand; then the address of the next instruction and the console
/// after the reads that the listing made.
#[verifier::opaque]
pub open spec fn disassemble_one(s: NesView, pc: u16) -> (Seq<char>, u16, NesView) {
    let (opcode, s0) = nes_bus_read(s, pc);
    let ins = spec_lookup(opcode);
    let t = list_tail(ins.addr_mode, ins.name@, s0, pc);
    (hex2(opcode) + t.0, t.1, t.2)
}

/// The listing of `n` instructions from `pc` on, and the console after the
/// reads that it made.
pub open spec fn disassembly(s: NesView, pc: u16, n: nat) -> (Seq<Seq<char>>, NesView)
    decreases n,
{
    if n == 0 {
        (Seq::empty(), s)
    } else {
        let (line, next, s1) = disassemble_one(s, pc);
        let (rest, s2) = disassembly(s1, next, (n - 1) as nat);
        (seq![line] + rest, s2)
    }
}

/// The two reads of an indirect jump's target through the pointer `lo`,
/// `hi` do not fault.
pub open spec fn ind_target_reads_ok(s2: NesView, lo: u8, hi: u8) -> bool {
    let ptr = word(lo, hi);
    let first = if lo == 0xFF {
        word(0, hi)
    } else {
        (ptr + 1) as u16
    };
    nes_read_ok(s2, first) && nes_read_ok(nes_bus_read(s2, first).1, ptr)
}

/// The reads that the listing makes after the opcode at `pc`, by addressing
/// mode, do not fault. (The zero-page reads of the indirect modes go to work
/// RAM and never fault.)
pub open spec fn tail_reads_ok(mode: ADDRESSING_MODES, s0: NesView, pc: u16) -> bool {
    let (b1, s1) = nes_bus_read(s0, pc.wrapping_add(1));
    let (b2, s2) = nes_bus_read(s1, pc.wrapping_add(2));
    match mode {
        ADDRESSING_MODES::ACC | ADDRESSING_MODES::IMP => true,
        ADDRESSING_MODES::ABS | ADDRESSING_MODES::ABX | ADDRESSING_MODES::ABY => {
            nes_read_ok(s0, pc.wrapping_add(1)) && nes_read_ok(s1, pc.wrapping_add(2))
        },
        ADDRESSING_MODES::IND => {
            &&& nes_read_ok(s0, pc.wrapping_add(1))
            &&& nes_read_ok(s1, pc.wrapping_add(2))
            &&& ind_target_reads_ok(s2, b1, b2)
        },
        _ => nes_read_ok(s0, pc.wrapping_add(1)),
    }
}

/// The reads that the listing line of the instruction at `pc` makes do not
/// fault.
pub open spec fn line_reads_ok(s: NesView, pc: u16) -> bool {
    let (opcode, s0) = nes_bus_read(s, pc);
    nes_read_ok(s, pc) && tail_reads_ok(spec_lookup(opcode).addr_mode, s0, pc)
}

/// The reads that a listing of `n` instructions from `pc` makes do not
/// fault.
pub open spec fn listing_reads_ok(s: NesView, pc: u16, n: nat) -> bool
    decreases n,
{
    n == 0 || ({
        let (line, next, s1) = disassemble_one(s, pc);
        line_reads_ok(s, pc) && listing_reads_ok(s1, next, (n - 1) as nat)
    })
}

/// A read of the zero page goes to work RAM and does not fault.
pub proof fn lemma_zero_page_read_ok(s: NesView, addr: u16)
    requires
        addr <= 0xFF,
    ensures
        nes_read_ok(s, addr),
{
}

/// With a cartridge that fits its mapper no read faults.
proof fn lemma_fits_read_ok(s: NesView, addr: u16)
    requires
        cartridge_fits(s.cartridge),
    ensures
        nes_read_ok(s, addr),
{
    lemma_fits_accesses_ok(s.cartridge, addr, 0);
    lemma_fits_accesses_ok(s.cartridge, s.ppu.vram_addr & 0x3FFF, 0);
}

/// With a cartridge that fits its mapper no read of a listing faults, however
/// long the listing is.
pub proof fn lemma_fits_listing_ok(s: NesView, pc: u16, n: nat)
    requires
        cartridge_fits(s.cartridge),
    ensures
        listing_reads_ok(s, pc, n),
    decreases n,
{
    if n > 0 {
        reveal(disassemble_one);
        reveal(list_imm);
        reveal(list_abs);
        reveal(list_zp);
        reveal(list_rel);
        reveal(read_ind_target);
        reveal(list_ind);
        reveal(list_izx);
        reveal(list_izy);
        let (opcode, s0) = nes_bus_read(s, pc);
        lemma_fits_read_ok(s, pc);
        lemma_fits_read_ok(s0, pc.wrapping_add(1));
        let (b1, s1) = nes_bus_read(s0, pc.wrapping_add(1));
        lemma_fits_read_ok(s1, pc.wrapping_add(2));
        let (b2, s2) = nes_bus_read(s1, pc.wrapping_add(2));
        let ptr = word(b1, b2);
        let first = if b1 == 0xFF {
            word(0, b2)
        } else {
            (ptr + 1) as u16
        };
        lemma_fits_read_ok(s2, first);
        lemma_fits_read_ok(nes_bus_read(s2, first).1, ptr);
        let (line, next, s3) = disassemble_one(s, pc);
        assert(s3.cartridge == s.cartridge);
        lemma_fits_listing_ok(s3, next, (n - 1) as nat);
    }
}

/// The texts of a sequence of strings.
pub open spec fn string_views(v: Seq<String>) -> Seq<Seq<char>> {
    v.map_values(|t: String| t@)
}

/// The number of lines that a listing from `start` to `end` has.
pub open spec fn listing_len(start: u16, end: u16) -> nat {
    if start < end {
        (end - start) as nat
    } else {
        0
    }
}

/// Lists an instruction without operand bytes.
fn list_without_operand(pc: u16, tag: &str, name: &str) -> (r: (String, u16))
    ensures
        r.0@ == tag@ + name@,
        r.1 == pc.wrapping_add(1),
{
    let mut line = String::new();
    push_text(&mut line, tag);
    push_text(&mut line, name);
    (line, pc.wrapping_add(1))
}

impl Nes {
    /// A read of the listing, through the CPU bus.
    fn listing_read(&mut self, addr: u16) -> (data: u8)
        requires
            old(self).wf(),
            nes_read_ok(old(self).view(), addr),
        ensures
            final(self).wf(),
            final(self).has_cartridge() == old(self).has_cartridge(),
            (data, final(self).view()) == nes_bus_read(old(self).view(), addr),
    {
        self.cpu_read(addr)
    }

    /// Lists an immediate operand.
    fn list_imm(&mut self, pc: u16, name: &str) -> (r: (String, u16))
        requires
            old(self).wf(),
            nes_read_ok(old(self).view(), pc.wrapping_add(1)),
        ensures
            final(self).wf(),
            final(self).has_cartridge() == old(self).has_cartridge(),
            (r.0@, r.1, final(self).view()) == list_imm(name@, old(self).view(), pc),
    {
        proof {
            reveal(list_imm);
        }
        proof {
            reveal_strlit(" (IMM) ");
            reveal_strlit(" #$");
        }
        let data = self.listing_read(pc.wrapping_add(1));
        let mut line = String::new();
        push_text(&mut line, " (IMM) ");
        push_text(&mut line, name);
        push_text(&mut line, " #$");
        push_hex(&mut line, data as u16, 2);
        assert(line@ =~= list_imm(name@, old(self).view(), pc).0);
        (line, pc.wrapping_add(2))
    }

    /// Lists an absolute operand between `tag` and `suffix`.
    fn list_abs(&mut self, pc: u16, tag: &str, suffix: &str, name: &str) -> (r: (String, u16))
        requires
            old(self).wf(),
            tail_reads_ok(ADDRESSING_MODES::ABS, old(self).view(), pc),
        ensures
            final(self).wf(),
            final(self).has_cartridge() == old(self).has_cartridge(),
            (r.0@, r.1, final(self).view()) == list_abs(
                tag@,
                suffix@,
                name@,
                old(self).view(),
                pc,
            ),
    {
        proof {
            reveal(list_abs);
        }
        proof {
            reveal_strlit(" $");
        }
        let lo = self.listing_read(pc.wrapping_add(1));
        let hi = self.listing_read(pc.wrapping_add(2));
        let addr = (hi as u16) << 8 | lo as u16;
        proof {
            crate::addressing_modes::lemma_word(lo, hi);
        }
        let mut line = String::new();
        push_text(&mut line, tag);
        push_text(&mut line, name);
        push_text(&mut line, " $");
        push_hex(&mut line, addr, 4);
        push_text(&mut line, suffix);
        assert(line@ =~= list_abs(tag@, suffix@, name@, old(self).view(), pc).0);
        (line, pc.wrapping_add(3))
    }

    /// Lists a zero-page operand before `suffix`.
    fn list_zp(&mut self, pc: u16, suffix: &str, name: &str) -> (r: (String, u16))
        requires
            old(self).wf(),
            nes_read_ok(old(self).view(), pc.wrapping_add(1)),
        ensures
            final(self).wf(),
            final(self).has_cartridge() == old(self).has_cartridge(),
            (r.0@, r.1, final(self).view()) == list_zp(suffix@, name@, old(self).view(), pc),
    {
        proof {
            reveal(list_zp);
        }
        proof {
            reveal_strlit(" ");
            reveal_strlit(" $");
        }
        let addr = self.listing_read(pc.wrapping_add(1));
        let mut line = String::new();
        push_text(&mut line, " ");
        push_text(&mut line, name);
        push_text(&mut line, " $");
        push_hex(&mut line, addr as u16, 2);
        push_text(&mut line, suffix);
        assert(line@ =~= list_zp(suffix@, name@, old(self).view(), pc).0);
        (line, pc.wrapping_add(2))
    }

    /// Lists a branch.
    fn list_rel(&mut self, pc: u16, name: &str) -> (r: (String, u16))
        requires
            old(self).wf(),
            nes_read_ok(old(self).view(), pc.wrapping_add(1)),
        ensures
            final(self).wf(),
            final(self).has_cartridge() == old(self).has_cartridge(),
            (r.0@, r.1, final(self).view()) == list_rel(name@, old(self).view(), pc),
    {
        proof {
            reveal(list_rel);
        }
        proof {
            reveal_strlit(" (REL) ");
            reveal_strlit(" $");
            reveal_strlit(" [");
            reveal_strlit("]");
        }
        let addr = self.listing_read(pc.wrapping_add(1));
        let mut line = String::new();
        push_text(&mut line, " (REL) ");
        push_text(&mut line, name);
        push_text(&mut line, " $");
        push_hex(&mut line, addr as u16, 2);
        push_text(&mut line, " [");
        push_hex(&mut line, pc.wrapping_add(2).wrapping_add(addr as u16), 4);
        push_text(&mut line, "]");
        assert(line@ =~= list_rel(name@, old(self).view(), pc).0);
        (line, pc.wrapping_add(2))
    }

    /// Reads the target of an indirect jump through the pointer `lo`, `hi`.
    fn read_ind_target(&mut self, lo: u8, hi: u8) -> (addr: u16)
        requires
            old(self).wf(),
            ind_target_reads_ok(old(self).view(), lo, hi),
        ensures
            final(self).wf(),
            final(self).has_cartridge() == old(self).has_cartridge(),
            (addr, final(self).view()) == read_ind_target(old(self).view(), lo, hi),
    {
        proof {
            reveal(read_ind_target);
        }
        let ptr = (hi as u16) << 8 | lo as u16;
        proof {
            crate::addressing_modes::lemma_word(lo, hi);
            crate::addressing_modes::lemma_word(0, hi);
            crate::bits::lemma_word_bits(lo, hi);
        }
        if lo == 0xFF {
            let a = self.listing_read(ptr & 0xFF00);
            let b = self.listing_read(ptr);
            proof {
                crate::addressing_modes::lemma_word(a, b);
                crate::bits::lemma_word_bits(a, b);
            }
            (a as u16) | (b as u16) << 8
        } else {
            proof {
                crate::bits::lemma_word_bits(lo, hi);
            }
            let a = self.listing_read(ptr + 1);
            let b = self.listing_read(ptr);
            proof {
                crate::addressing_modes::lemma_word(b, a);
            }
            (a as u16) << 8 | b as u16
        }
    }

    /// Lists an indirect jump.
    fn list_ind(&mut self, pc: u16, name: &str) -> (r: (String, u16))
        requires
            old(self).wf(),
            tail_reads_ok(ADDRESSING_MODES::IND, old(self).view(), pc),
        ensures
            final(self).wf(),
            final(self).has_cartridge() == old(self).has_cartridge(),
            (r.0@, r.1, final(self).view()) == list_ind(name@, old(self).view(), pc),
    {
        proof {
            reveal(list_ind);
        }
        proof {
            reveal_strlit(" ");
            reveal_strlit(" ($");
            reveal_strlit(")");
        }
        let lo = self.listing_read(pc.wrapping_add(1));
        let hi = self.listing_read(pc.wrapping_add(2));
        let addr = self.read_ind_target(lo, hi);
        let mut line = String::new();
        push_text(&mut line, " ");
        push_text(&mut line, name);
        push_text(&mut line, " ($");
        push_hex(&mut line, addr, 4);
        push_text(&mut line, ")");
        assert(line@ =~= list_ind(name@, old(self).view(), pc).0);
        (line, pc.wrapping_add(3))
    }

    /// Lists an indexed-indirect operand.
    fn list_izx(&mut self, pc: u16, name: &str) -> (r: (String, u16))
        requires
            old(self).wf(),
            nes_read_ok(old(self).view(), pc.wrapping_add(1)),
        ensures
            final(self).wf(),
            final(self).has_cartridge() == old(self).has_cartridge(),
            (r.0@, r.1, final(self).view()) == list_izx(name@, old(self).view(), pc),
    {
        proof {
            reveal(list_izx);
        }
        proof {
            reveal_strlit(" ");
            reveal_strlit(" ($");
            reveal_strlit(", X) @ ");
            reveal_strlit(" = ");
        }
        let x = self.get_cpu_info().reg_x;
        let addr = self.listing_read(pc.wrapping_add(1)) as u16;
        let z = (addr + x as u16) & 0x00FF;
        let z1 = (addr + x as u16 + 1) & 0x00FF;
        proof {
            let a8 = addr as u8;
            crate::bits::lemma_byte_sum_bits(a8, x);
        }
        let lo = self.listing_read(z);
        let hi = self.listing_read(z1);
        let ptr = (hi as u16) << 8 | lo as u16;
        proof {
            crate::addressing_modes::lemma_word(lo, hi);
        }
        let mut line = String::new();
        push_text(&mut line, " ");
        push_text(&mut line, name);
        push_text(&mut line, " ($");
        push_hex(&mut line, addr, 2);
        push_text(&mut line, ", X) @ ");
        push_hex(&mut line, addr + x as u16, 2);
        push_text(&mut line, " = ");
        push_hex(&mut line, ptr, 4);
        assert(line@ =~= list_izx(name@, old(self).view(), pc).0);
        (line, pc.wrapping_add(2))
    }

    /// Lists an indirect-indexed operand.
    fn list_izy(&mut self, pc: u16, name: &str) -> (r: (String, u16))
        requires
            old(self).wf(),
            nes_read_ok(old(self).view(), pc.wrapping_add(1)),
        ensures
            final(self).wf(),
            final(self).has_cartridge() == old(self).has_cartridge(),
            (r.0@, r.1, final(self).view()) == list_izy(name@, old(self).view(), pc),
    {
        proof {
            reveal(list_izy);
        }
        proof {
            reveal_strlit(" ");
            reveal_strlit(" ($");
            reveal_strlit("), Y = ");
        }
        let y = self.get_cpu_info().reg_y;
        let addr = self.listing_read(pc.wrapping_add(1)) as u16;
        let z1 = (addr + 1) & 0x00FF;
        proof {
            let a8 = addr as u8;
            crate::bits::lemma_u8_bits(a8);
            crate::bits::lemma_byte_sum_bits(a8, 0);
        }
        let lo = self.listing_read(addr & 0x00FF);
        let hi = self.listing_read(z1);
        let mut ptr = (hi as u16) << 8 | lo as u16;
        proof {
            crate::addressing_modes::lemma_word(lo, hi);
        }
        ptr = ptr.wrapping_add(y as u16);
        let mut line = String::new();
        push_text(&mut line, " ");
        push_text(&mut line, name);
        push_text(&mut line, " ($");
        push_hex(&mut line, addr, 2);
        push_text(&mut line, "), Y = ");
        push_hex(&mut line, ptr.wrapping_add(y as u16), 4);
        assert(line@ =~= list_izy(name@, old(self).view(), pc).0);
        (line, pc.wrapping_add(2))
    }

    /// Lists one instruction for the debugger; returns the line and the
    /// address of the next instruction.
    fn disassemble_one(&mut self, pc: u16) -> (r: (String, u16))
        requires
            old(self).wf(),
            line_reads_ok(old(self).view(), pc),
        ensures
            final(self).wf(),
            final(self).has_cartridge() == old(self).has_cartridge(),
            (r.0@, r.1, final(self).view()) == disassemble_one(old(self).view(), pc),
    {
        proof {
            reveal(disassemble_one);
        }
        let opcode = self.listing_read(pc);
        let instruction = lookup(opcode);
        let name = instruction.name;
        let (tail, next) = match instruction.addr_mode {
            ADDRESSING_MODES::ACC => list_without_operand(pc, " (ACC) ", name),
            ADDRESSING_MODES::IMP => list_without_operand(pc, " (IMP) ", name),
            ADDRESSING_MODES::IMM => self.list_imm(pc, name),
            ADDRESSING_MODES::ABS => self.list_abs(pc, " (ABS) ", "", name),
            ADDRESSING_MODES::ABX => self.list_abs(pc, " (ABSx) ", ", X", name),
            ADDRESSING_MODES::ABY => self.list_abs(pc, " ", ", Y", name),
            ADDRESSING_MODES::ZP0 => self.list_zp(pc, "", name),
            ADDRESSING_MODES::ZPX => self.list_zp(pc, ", X", name),
            ADDRESSING_MODES::ZPY => self.list_zp(pc, ", Y", name),
            ADDRESSING_MODES::REL => self.list_rel(pc, name),
            ADDRESSING_MODES::IND => self.list_ind(pc, name),
            ADDRESSING_MODES::IZX => self.list_izx(pc, name),
            ADDRESSING_MODES::IZY => self.list_izy(pc, name),
        };
        let mut line = String::new();
        push_hex(&mut line, opcode as u16, 2);
        push_text(&mut line, tail.as_str());
        assert(line@ =~= disassemble_one(old(self).view(), pc).0);
        (line, next)
    }

    /// The instruction listing of the debugger: one line for each of the
    /// `end - start` instructions from `start` on (none when `end <= start`).
    /// The reads go through the CPU bus, with their effects; none of them may
    /// fault, which work RAM and a cartridge that fits its mapper never do.
    pub fn get_instruction_string_range(&mut self, start: u16, end: u16) -> (r: Vec<String>)
        requires
            old(self).wf(),
            listing_reads_ok(old(self).view(), start, listing_len(start, end)),
        ensures
            final(self).wf(),
            final(self).has_cartridge() == old(self).has_cartridge(),
            (string_views(r@), final(self).view()) == disassembly(
                old(self).view(),
                start,
                listing_len(start, end),
            ),
    {
        let mut instruction_string: Vec<String> = Vec::new();
        let mut local_pc = start;
        let mut count = start;
        let ghost total = listing_len(start, end);
        let ghost s0 = self.view();
        assert(string_views(instruction_string@) =~= Seq::<Seq<char>>::empty());
        while count < end
            invariant
                self.wf(),
                self.has_cartridge() == old(self).has_cartridge(),
                listing_reads_ok(
                    self.view(),
                    local_pc,
                    (total - instruction_string@.len()) as nat,
                ),
                total == listing_len(start, end),
                count < end ==> instruction_string@.len() + (end - count) == total,
                count >= end ==> instruction_string@.len() == total,
                ({
                    let rest = disassembly(
                        self.view(),
                        local_pc,
                        (total - instruction_string@.len()) as nat,
                    );
                    disassembly(s0, start, total) == (
                        string_views(instruction_string@) + rest.0,
                        rest.1,
                    )
                }),
            decreases end - count,
        {
            let ghost before = self.view();
            let ghost k = instruction_string@.len();
            let ghost old_views = string_views(instruction_string@);
            let (line, next) = self.disassemble_one(local_pc);
            proof {
                let rest = disassembly(before, local_pc, (total - k) as nat);
                let rest2 = disassembly(self.view(), next, (total - k - 1) as nat);
                assert(rest.0 == seq![line@] + rest2.0);
                assert(old_views + rest.0 =~= old_views.push(line@) + rest2.0);
            }
            instruction_string.push(line);
            proof {
                assert(string_views(instruction_string@) =~= old_views.push(line@));
            }
            local_pc = next;
            count = count + 1;
        }
        proof {
            assert(string_views(instruction_string@) + Seq::<Seq<char>>::empty()
                =~= string_views(instruction_string@));
        }
        instruction_string
    }
}

/// The state of the machine before an instruction, as the trace log
/// prints it.
pub struct Snapshot {
    pub cpu: Component6502,
    pub ppu: Component2C02,
    pub bus: Bus,
}

/// Bytes in hexadecimal, each followed by a space.
pub open spec fn hex_bytes_spaced(bytes: Seq<u8>) -> Seq<char>
    decreases bytes.len(),
{
    if bytes.len() == 0 {
        Seq::empty()
    } else {
        hex_bytes_spaced(bytes.drop_last()) + hex2(bytes.last()) + seq![' ']
    }
}

/// The opcode and operand bytes of the instruction at `pc`, read from `ram`.
pub open spec fn instruction_bytes(ram: Seq<u8>, pc: u16) -> Seq<u8> {
    let n = spec_lookup(ram[pc as int]).addr_mode.spec_operands_nb();
    Seq::new((n + 1) as nat, |i: int| ram[pc.wrapping_add(i as u16) as int])
}

/// A line of the trace log in the style of `nestest`: the address, the
/// instruction bytes, the mnemonic and its operand, then the registers.
pub open spec fn nestest_line(cpu: Component6502, ram: Seq<u8>) -> Seq<char> {
    let bytes = instruction_bytes(ram, cpu.pc);
    let ins = spec_lookup(bytes[0]);
    let n = ins.addr_mode.spec_operands_nb();
    hex4(cpu.pc) + spaces(2) + hex_bytes_spaced(bytes) + spaces(
        if n == 0 {
            6
        } else if n == 1 {
            3
        } else {
            0
        },
    ) + ins.name@ + seq![' '] + spec_format_operands(
        ins.addr_mode,
        bytes,
        ram,
        bytes[0],
        cpu.pc,
        cpu.x,
        cpu.y,
    ) + spaces(2) + seq!['A', ':'] + hex2(cpu.a) + seq![' ', 'X', ':'] + hex2(cpu.x) + seq![
        ' ',
        'Y',
        ':',
    ] + hex2(cpu.y) + seq![' ', 'P', ':'] + hex2(cpu.status) + seq![' ', 'S', 'P', ':'] + hex2(
        cpu.sp,
    )
}

/// Appends the registers of `cpu` as the trace log prints them.
fn push_registers(s: &mut String, cpu: &Component6502)
    ensures
        final(s)@ == old(s)@ + seq!['A', ':'] + hex2(cpu.a) + seq![' ', 'X', ':'] + hex2(cpu.x)
            + seq![' ', 'Y', ':'] + hex2(cpu.y) + seq![' ', 'P', ':'] + hex2(cpu.status) + seq![
            ' ',
            'S',
            'P',
            ':',
        ] + hex2(cpu.sp),
{
    proof {
        reveal_strlit("A:");
        reveal_strlit(" X:");
        reveal_strlit(" Y:");
        reveal_strlit(" P:");
        reveal_strlit(" SP:");
    }
    // accumulator
    push_text(s, "A:");
    push_hex(s, cpu.a as u16, 2);
    // x register
    push_text(s, " X:");
    push_hex(s, cpu.x as u16, 2);
    // y register
    push_text(s, " Y:");
    push_hex(s, cpu.y as u16, 2);
    // flags
    push_text(s, " P:");
    push_hex(s, cpu.status as u16, 2);
    // stack pointer
    push_text(s, " SP:");
    push_hex(s, cpu.sp as u16, 2);
    assert(s@ =~= old(s)@ + seq!['A', ':'] + hex2(cpu.a) + seq![' ', 'X', ':'] + hex2(cpu.x)
        + seq![' ', 'Y', ':'] + hex2(cpu.y) + seq![' ', 'P', ':'] + hex2(cpu.status) + seq![
        ' ',
        'S',
        'P',
        ':',
    ] + hex2(cpu.sp));
}

impl Nes {
    /// A line of the trace log in the style of `nestest` for the instruction
    /// at the program counter of the snapshot, read from its work RAM.
    pub fn nestest_format_log(snapshot: &Snapshot) -> (line: String)
        requires
            snapshot.bus.wf(),
            spec_lookup(snapshot.bus.ram@[snapshot.cpu.pc as int]).addr_mode
                == ADDRESSING_MODES::IND ==> snapshot.cpu.pc <= 0xFFFD,
        ensures
            line@ == nestest_line(snapshot.cpu, snapshot.bus.ram@),
    {
        proof {
            reveal_strlit("  ");
            reveal_strlit(" ");
        }
        let ram = snapshot.bus.ram.as_slice();
        let cpu = &snapshot.cpu;
        let instruction = lookup(ram[cpu.pc as usize]);
        let mut line = String::new();
        // opcode
        push_hex(&mut line, cpu.pc, 4);
        push_spaces(&mut line, 2);
        // operands
        let operands_nb = instruction.addr_mode.get_operands_nb();
        let mut operands: Vec<u8> = Vec::new();
        let mut i: u8 = 0;
        while i <= operands_nb
            invariant
                operands_nb <= 2,
                i <= operands_nb + 1,
                ram@.len() == 0x10000,
                operands@ =~= Seq::new(
                    i as nat,
                    |k: int| ram@[cpu.pc.wrapping_add(k as u16) as int],
                ),
                line@ == hex4(cpu.pc) + spaces(2) + hex_bytes_spaced(operands@),
            decreases operands_nb + 1 - i,
        {
            let operand = ram[cpu.pc.wrapping_add(i as u16) as usize];
            let ghost before = operands@;
            push_hex(&mut line, operand as u16, 2);
            push_spaces(&mut line, 1);
            operands.push(operand);
            proof {
                assert(operands@.drop_last() =~= before);
                assert(spaces(1) =~= seq![' ']);
            }
            i = i + 1;
        }
        proof {
            assert(operands@ =~= instruction_bytes(ram@, cpu.pc));
        }
        let pad: u8 = if operands_nb == 0 {
            6
        } else if operands_nb == 1 {
            3
        } else {
            0
        };
        push_spaces(&mut line, pad);
        // instruction name
        push_text(&mut line, instruction.name);
        push_text(&mut line, " ");
        // detailed operands
        let detail = instruction.addr_mode.format_operands(
            operands.as_slice(),
            ram,
            operands[0],
            cpu.pc,
            cpu.x,
            cpu.y,
        );
        push_text(&mut line, detail.as_str());
        push_spaces(&mut line, 2);
        push_registers(&mut line, cpu);
        assert(line@ =~= nestest_line(snapshot.cpu, snapshot.bus.ram@));
        line
    }
}

} // verus!
