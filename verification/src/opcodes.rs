use vstd::prelude::*;
use crate::cpu::{
    Component6502, Flags, Operation, ADDRESSING_MODES, STACK_ADDRESS, spec_lookup, lookup,
    spec_fetch, flag_set, with_flag, with_zn, stack_addr, word, bus_write,
};
use crate::cpu_bus::{CpuBus, bus_read};
use crate::addressing_modes::{lemma_word, crosses_page, page_fix_address};

verus! {

/// Bit 7 of a byte is its sign: set exactly when the byte is at least `0x80`.
pub broadcast proof fn lemma_bit7(x: u8)
    ensures
        #[trigger] (x & 0x80) != 0 <==> x >= 0x80,
{
    crate::bits::lemma_u8_bits(x);
}

/// Bit 0 of a byte is its parity.
pub broadcast proof fn lemma_bit0(x: u8)
    ensures
        #[trigger] (x & 0x01) != 0 <==> x % 2 == 1,
{
    crate::bits::lemma_u8_bits(x);
}

/// 1 when the carry flag of `status` is set, else 0.
pub open spec fn carry_in(status: u8) -> int {
    if flag_set(status, Flags::C) {
        1
    } else {
        0
    }
}

/// Signed overflow of an addition: both operands have the same sign and the
/// result has the other one.
pub open spec fn add_overflows(a: u8, m: u8, r: u8) -> bool {
    (a >= 0x80) == (m >= 0x80) && (r >= 0x80) != (a >= 0x80)
}

/// Signed overflow of a subtraction `a - m`: the operands have different
/// signs and the result does not have the sign of `a`.
pub open spec fn sub_overflows(a: u8, m: u8, r: u8) -> bool {
    (a >= 0x80) != (m >= 0x80) && (r >= 0x80) != (a >= 0x80)
}

/// ADC: `A + M + C`, the carry out in C, signed overflow in V.
pub open spec fn spec_adc<B: CpuBus>(c: Component6502, s: B::State) -> (Component6502, B::State) {
    let (c1, s1) = spec_fetch::<B>(c, s);
    let sum = c1.a + c1.fetched + carry_in(c1.status);
    let r = (sum % 256) as u8;
    let st = with_flag(
        with_flag(
            with_flag(with_flag(c1.status, Flags::C, sum > 255), Flags::Z, r == 0),
            Flags::V,
            add_overflows(c1.a, c1.fetched, r),
        ),
        Flags::N,
        r >= 0x80,
    );
    (Component6502 { a: r, status: st, ..c1 }, s1)
}

/// SBC: `A - M - (1 - C)`, C set when no borrow, signed overflow in V.
pub open spec fn spec_sbc<B: CpuBus>(c: Component6502, s: B::State) -> (Component6502, B::State) {
    let (c1, s1) = spec_fetch::<B>(c, s);
    let diff = c1.a - c1.fetched - (1 - carry_in(c1.status));
    let r = (diff % 256) as u8;
    let st = with_flag(
        with_flag(
            with_flag(with_flag(c1.status, Flags::C, diff >= 0), Flags::Z, r == 0),
            Flags::V,
            sub_overflows(c1.a, c1.fetched, r),
        ),
        Flags::N,
        r >= 0x80,
    );
    (Component6502 { a: r, status: st, ..c1 }, s1)
}

/// The kinds of bitwise combination of the accumulator with the operand.
pub enum Logic {
    And,
    Or,
    Xor,
}

/// AND, ORA, EOR: the accumulator combined with the operand; Z and N from the result.
pub open spec fn spec_logic<B: CpuBus>(c: Component6502, s: B::State, k: Logic) -> (
    Component6502,
    B::State,
) {
    let (c1, s1) = spec_fetch::<B>(c, s);
    let r = match k {
        Logic::And => c1.a & c1.fetched,
        Logic::Or => c1.a | c1.fetched,
        Logic::Xor => c1.a ^ c1.fetched,
    };
    (Component6502 { a: r, status: with_zn(c1.status, r), ..c1 }, s1)
}

/// The kinds of shift and rotation.
pub enum Shift {
    ShiftLeft,
    ShiftRight,
    RotateLeft,
    RotateRight,
}

/// The result of a shift or rotation of `m` with carry flag `carry` (0 or 1).
pub open spec fn shift_result(k: Shift, m: u8, carry: int) -> u8 {
    match k {
        Shift::ShiftLeft => ((m * 2) % 256) as u8,
        Shift::ShiftRight => (m / 2) as u8,
        Shift::RotateLeft => ((m * 2 + carry) % 256) as u8,
        Shift::RotateRight => (m / 2 + 128 * carry) as u8,
    }
}

/// The carry out of a shift or rotation of `m`: the bit shifted out.
pub open spec fn shift_carry(k: Shift, m: u8) -> bool {
    match k {
        Shift::ShiftLeft | Shift::RotateLeft => m >= 0x80,
        Shift::ShiftRight | Shift::RotateRight => m % 2 == 1,
    }
}

/// ASL, LSR, ROL, ROR: the accumulator in accumulator mode, memory otherwise.
/// In memory mode ASL/ROL/ROR first write the old value back (LSR reads it
/// again) and then write the result.
pub open spec fn spec_shift<B: CpuBus>(c: Component6502, s: B::State, k: Shift) -> (
    Component6502,
    B::State,
) {
    let (c1, s1) = spec_fetch::<B>(c, s);
    let acc = spec_lookup(c1.opcode).addr_mode == ADDRESSING_MODES::ACC;
    let m = c1.fetched;
    let s2 = if acc {
        s1
    } else {
        match k {
            Shift::ShiftRight => B::after_read(s1, c1.addr_abs),
            _ => bus_write::<B>(s1, c1.addr_abs, m),
        }
    };
    let r = shift_result(k, m, carry_in(c1.status));
    let st = with_zn(with_flag(c1.status, Flags::C, shift_carry(k, m)), r);
    if acc {
        (Component6502 { a: r, status: st, ..c1 }, s2)
    } else {
        (Component6502 { status: st, ..c1 }, bus_write::<B>(s2, c1.addr_abs, r))
    }
}

/// BIT: Z from `A & M`, N and V copied from bits 7 and 6 of the operand.
pub open spec fn spec_bit<B: CpuBus>(c: Component6502, s: B::State) -> (Component6502, B::State) {
    let (c1, s1) = spec_fetch::<B>(c, s);
    let m = c1.fetched;
    let st = with_flag(
        with_flag(with_flag(c1.status, Flags::Z, c1.a & m == 0), Flags::N, m >= 0x80),
        Flags::V,
        m & 0x40 != 0,
    );
    (Component6502 { status: st, ..c1 }, s1)
}

/// BRK: pushes the return address (past the padding byte) and the status
/// with B set, sets I, and jumps through the vector at `0xFFFE`.
pub open spec fn spec_brk<B: CpuBus>(c: Component6502, s: B::State) -> (Component6502, B::State) {
    let s1 = B::after_read(s, c.pc);
    let pc1 = c.pc.wrapping_add(1);
    let s2 = bus_write::<B>(s1, stack_addr(c.sp), (pc1 / 256) as u8);
    let sp1 = c.sp.wrapping_sub(1);
    let s3 = bus_write::<B>(s2, stack_addr(sp1), (pc1 % 256) as u8);
    let sp2 = sp1.wrapping_sub(1);
    let st1 = with_flag(c.status, Flags::B, true);
    let s4 = bus_write::<B>(s3, stack_addr(sp2), st1);
    let st2 = with_flag(st1, Flags::I, true);
    let sp3 = sp2.wrapping_sub(1);
    let st3 = with_flag(st2, Flags::B, false);
    let (low, s5) = bus_read::<B>(s4, 0xFFFE);
    let (high, s6) = bus_read::<B>(s5, 0xFFFF);
    (Component6502 { pc: word(low, high), sp: sp3, status: st3, ..c }, s6)
}

/// A taken branch: one more cycle, a dummy read, and one more cycle and
/// dummy read when the target is in another page.
pub open spec fn spec_branch<B: CpuBus>(c: Component6502, s: B::State) -> (
    Component6502,
    B::State,
) {
    let target = c.pc.wrapping_add(c.addr_rel);
    let s1 = B::after_read(s, c.pc);
    if crosses_page(target, c.pc) {
        (
            Component6502 { cycles: (c.cycles + 2) as u8, pc: target, ..c },
            B::after_read(s1, page_fix_address(c.pc, target)),
        )
    } else {
        (Component6502 { cycles: (c.cycles + 1) as u8, pc: target, ..c }, s1)
    }
}

/// A conditional branch: taken when `taken` holds.
pub open spec fn spec_branch_if<B: CpuBus>(c: Component6502, s: B::State, taken: bool) -> (
    Component6502,
    B::State,
) {
    if taken {
        spec_branch::<B>(c, s)
    } else {
        (c, s)
    }
}

/// CMP, CPX, CPY: C when `reg >= M`, Z when equal, N from `reg - M`.
pub open spec fn spec_compare<B: CpuBus>(c: Component6502, s: B::State, reg: u8) -> (
    Component6502,
    B::State,
) {
    let (c1, s1) = spec_fetch::<B>(c, s);
    let m = c1.fetched;
    let st = with_flag(
        with_flag(with_flag(c1.status, Flags::C, reg >= m), Flags::Z, reg == m),
        Flags::N,
        reg.wrapping_sub(m) >= 0x80,
    );
    (Component6502 { status: st, ..c1 }, s1)
}

/// DEC and INC: the old value is written back, then the new one.
pub open spec fn spec_step_memory<B: CpuBus>(c: Component6502, s: B::State, up: bool) -> (
    Component6502,
    B::State,
) {
    let (c1, s1) = spec_fetch::<B>(c, s);
    let s2 = bus_write::<B>(s1, c1.addr_abs, c1.fetched);
    let r = if up {
        c1.fetched.wrapping_add(1)
    } else {
        c1.fetched.wrapping_sub(1)
    };
    (Component6502 { status: with_zn(c1.status, r), ..c1 }, bus_write::<B>(s2, c1.addr_abs, r))
}

/// JSR: pushes the address of the last operand byte, reads the high byte
/// of the target and jumps.
pub open spec fn spec_jsr<B: CpuBus>(c: Component6502, s: B::State) -> (Component6502, B::State) {
    let s1 = B::after_read(s, stack_addr(c.sp));
    let s2 = bus_write::<B>(s1, stack_addr(c.sp), (c.pc / 256) as u8);
    let sp1 = c.sp.wrapping_sub(1);
    let s3 = bus_write::<B>(s2, stack_addr(sp1), (c.pc % 256) as u8);
    let sp2 = sp1.wrapping_sub(1);
    let (high, s4) = bus_read::<B>(s3, c.pc);
    (Component6502 { pc: ((high as u16) << 8u16) | c.addr_abs, sp: sp2, ..c }, s4)
}

/// PHP: pushes the status with B and U set; B is clear afterwards.
pub open spec fn spec_php<B: CpuBus>(c: Component6502, s: B::State) -> (Component6502, B::State) {
    let st1 = with_flag(with_flag(c.status, Flags::B, true), Flags::U, true);
    (
        Component6502 { sp: c.sp.wrapping_sub(1), status: with_flag(st1, Flags::B, false), ..c },
        bus_write::<B>(s, stack_addr(c.sp), st1),
    )
}

/// PLA: a dummy read of the stack, then the pulled byte into A.
pub open spec fn spec_pla<B: CpuBus>(c: Component6502, s: B::State) -> (Component6502, B::State) {
    let s1 = B::after_read(s, stack_addr(c.sp));
    let sp1 = c.sp.wrapping_add(1);
    let (v, s2) = bus_read::<B>(s1, stack_addr(sp1));
    (Component6502 { sp: sp1, a: v, status: with_zn(c.status, v), ..c }, s2)
}

/// The status as pulled from the stack: B clear, U set.
pub open spec fn pulled_status(v: u8) -> u8 {
    with_flag(with_flag(v, Flags::B, false), Flags::U, true)
}

/// PLP: a dummy read of the stack, then the pulled status.
pub open spec fn spec_plp<B: CpuBus>(c: Component6502, s: B::State) -> (Component6502, B::State) {
    let s1 = B::after_read(s, stack_addr(c.sp));
    let sp1 = c.sp.wrapping_add(1);
    let (v, s2) = bus_read::<B>(s1, stack_addr(sp1));
    (Component6502 { sp: sp1, status: pulled_status(v), ..c }, s2)
}

/// RTI: pulls the status, then the program counter.
pub open spec fn spec_rti<B: CpuBus>(c: Component6502, s: B::State) -> (Component6502, B::State) {
    let s1 = B::after_read(s, stack_addr(c.sp));
    let sp1 = c.sp.wrapping_add(1);
    let (v, s2) = bus_read::<B>(s1, stack_addr(sp1));
    let sp2 = sp1.wrapping_add(1);
    let (low, s3) = bus_read::<B>(s2, stack_addr(sp2));
    let sp3 = sp2.wrapping_add(1);
    let (high, s4) = bus_read::<B>(s3, stack_addr(sp3));
    (Component6502 { sp: sp3, status: pulled_status(v), pc: word(low, high), ..c }, s4)
}

/// RTS: pulls the program counter and steps past the JSR operand.
pub open spec fn spec_rts<B: CpuBus>(c: Component6502, s: B::State) -> (Component6502, B::State) {
    let s1 = B::after_read(s, stack_addr(c.sp));
    let sp1 = c.sp.wrapping_add(1);
    let (low, s2) = bus_read::<B>(s1, stack_addr(sp1));
    let sp2 = sp1.wrapping_add(1);
    let (high, s3) = bus_read::<B>(s2, stack_addr(sp2));
    let pc = word(low, high).wrapping_add(1);
    (Component6502 { sp: sp2, pc: pc, ..c }, B::after_read(s3, pc))
}

/// The effect of operation `op` once the addressing mode has run.
pub open spec fn spec_operation<B: CpuBus>(op: Operation, c: Component6502, s: B::State) -> (
    Component6502,
    B::State,
) {
    match op {
        Operation::XXX | Operation::NOP => (c, s),
        Operation::ADC => spec_adc::<B>(c, s),
        Operation::AND => spec_logic::<B>(c, s, Logic::And),
        Operation::ASL => spec_shift::<B>(c, s, Shift::ShiftLeft),
        Operation::BCC => spec_branch_if::<B>(c, s, !flag_set(c.status, Flags::C)),
        Operation::BCS => spec_branch_if::<B>(c, s, flag_set(c.status, Flags::C)),
        Operation::BEQ => spec_branch_if::<B>(c, s, flag_set(c.status, Flags::Z)),
        Operation::BIT => spec_bit::<B>(c, s),
        Operation::BMI => spec_branch_if::<B>(c, s, flag_set(c.status, Flags::N)),
        Operation::BNE => spec_branch_if::<B>(c, s, !flag_set(c.status, Flags::Z)),
        Operation::BPL => spec_branch_if::<B>(c, s, !flag_set(c.status, Flags::N)),
        Operation::BRK => spec_brk::<B>(c, s),
        Operation::BVC => spec_branch_if::<B>(c, s, !flag_set(c.status, Flags::V)),
        Operation::BVS => spec_branch_if::<B>(c, s, flag_set(c.status, Flags::V)),
        Operation::CLC => (Component6502 { status: with_flag(c.status, Flags::C, false), ..c }, s),
        Operation::CLD => (Component6502 { status: with_flag(c.status, Flags::D, false), ..c }, s),
        Operation::CLI => (Component6502 { status: with_flag(c.status, Flags::I, false), ..c }, s),
        Operation::CLV => (Component6502 { status: with_flag(c.status, Flags::V, false), ..c }, s),
        Operation::CMP => spec_compare::<B>(c, s, c.a),
        Operation::CPX => spec_compare::<B>(c, s, c.x),
        Operation::CPY => spec_compare::<B>(c, s, c.y),
        Operation::DEC => spec_step_memory::<B>(c, s, false),
        Operation::DEX => {
            let r = c.x.wrapping_sub(1);
            (Component6502 { x: r, status: with_zn(c.status, r), ..c }, s)
        },
        Operation::DEY => {
            let r = c.y.wrapping_sub(1);
            (Component6502 { y: r, status: with_zn(c.status, r), ..c }, s)
        },
        Operation::EOR => spec_logic::<B>(c, s, Logic::Xor),
        Operation::INC => spec_step_memory::<B>(c, s, true),
        Operation::INX => {
            let r = c.x.wrapping_add(1);
            (Component6502 { x: r, status: with_zn(c.status, r), ..c }, s)
        },
        Operation::INY => {
            let r = c.y.wrapping_add(1);
            (Component6502 { y: r, status: with_zn(c.status, r), ..c }, s)
        },
        Operation::JMP => (Component6502 { pc: c.addr_abs, ..c }, s),
        Operation::JSR => spec_jsr::<B>(c, s),
        Operation::LDA => {
            let (c1, s1) = spec_fetch::<B>(c, s);
            (Component6502 { a: c1.fetched, status: with_zn(c1.status, c1.fetched), ..c1 }, s1)
        },
        Operation::LDX => {
            let (c1, s1) = spec_fetch::<B>(c, s);
            (Component6502 { x: c1.fetched, status: with_zn(c1.status, c1.fetched), ..c1 }, s1)
        },
        Operation::LDY => {
            let (c1, s1) = spec_fetch::<B>(c, s);
            (Component6502 { y: c1.fetched, status: with_zn(c1.status, c1.fetched), ..c1 }, s1)
        },
        Operation::LSR => spec_shift::<B>(c, s, Shift::ShiftRight),
        Operation::ORA => spec_logic::<B>(c, s, Logic::Or),
        Operation::PHA => (
            Component6502 { sp: c.sp.wrapping_sub(1), ..c },
            bus_write::<B>(s, stack_addr(c.sp), c.a),
        ),
        Operation::PHP => spec_php::<B>(c, s),
        Operation::PLA => spec_pla::<B>(c, s),
        Operation::PLP => spec_plp::<B>(c, s),
        Operation::ROL => spec_shift::<B>(c, s, Shift::RotateLeft),
        Operation::ROR => spec_shift::<B>(c, s, Shift::RotateRight),
        Operation::RTI => spec_rti::<B>(c, s),
        Operation::RTS => spec_rts::<B>(c, s),
        Operation::SBC => spec_sbc::<B>(c, s),
        Operation::SEC => (Component6502 { status: with_flag(c.status, Flags::C, true), ..c }, s),
        Operation::SED => (Component6502 { status: with_flag(c.status, Flags::D, true), ..c }, s),
        Operation::SEI => (Component6502 { status: with_flag(c.status, Flags::I, true), ..c }, s),
        Operation::STA => (c, bus_write::<B>(s, c.addr_abs, c.a)),
        Operation::STX => (c, bus_write::<B>(s, c.addr_abs, c.x)),
        Operation::STY => (c, bus_write::<B>(s, c.addr_abs, c.y)),
        Operation::TAX => (Component6502 { x: c.a, status: with_zn(c.status, c.a), ..c }, s),
        Operation::TAY => (Component6502 { y: c.a, status: with_zn(c.status, c.a), ..c }, s),
        Operation::TSX => (Component6502 { x: c.sp, status: with_zn(c.status, c.sp), ..c }, s),
        Operation::TXA => (Component6502 { a: c.x, status: with_zn(c.status, c.x), ..c }, s),
        Operation::TXS => (Component6502 { sp: c.x, ..c }, s),
        Operation::TYA => (Component6502 { a: c.y, status: with_zn(c.status, c.y), ..c }, s),
    }
}

/// The bits of an addition, as the ADC code computes them.
proof fn lemma_adc_bits(a: u8, m: u8, carry: u16, tmp: u16)
    requires
        carry <= 1,
        tmp == a as u16 + m as u16 + carry,
    ensures
        ((tmp & 0x00FF) as u8) == (tmp % 256) as u8,
        ((tmp & 0x00FF) == 0) == (tmp % 256 == 0),
        ((tmp & 0x80) != 0) == (tmp % 256 >= 0x80),
        ((((!((a as u16) ^ (m as u16))) & ((a as u16) ^ tmp)) & 0x0080) != 0) == ((a >= 0x80)
            == (m >= 0x80) && ((tmp % 256) as u8 >= 0x80) != (a >= 0x80)),
{
    assert({
        &&& ((tmp & 0x00FF) as u8) == (tmp % 256) as u8
        &&& ((tmp & 0x00FF) == 0) == (tmp % 256 == 0)
        &&& ((tmp & 0x80) != 0) == (tmp % 256 >= 0x80)
        &&& ((((!((a as u16) ^ (m as u16))) & ((a as u16) ^ tmp)) & 0x0080) != 0) == ((a >= 0x80)
            == (m >= 0x80) && ((tmp % 256) as u8 >= 0x80) != (a >= 0x80))
    }) by (bit_vector)
        requires
            carry <= 1,
            tmp == a as u16 + m as u16 + carry,
    ;
}

/// The bits of a subtraction, as the SBC code computes them.
proof fn lemma_sbc_bits(a: u8, m: u8, carry: u16, value: u16, tmp: u16)
    requires
        carry <= 1,
        value == (m as u16) ^ 0x00FF,
        tmp == a as u16 + value + carry,
    ensures
        value == 255 - m,
        ((tmp & 0x00FF) as u8) == (tmp % 256) as u8,
        ((tmp & 0xFF00) != 0) == (tmp > 255),
        ((tmp & 0x00FF) == 0) == (tmp % 256 == 0),
        ((tmp & 0x80) != 0) == (tmp % 256 >= 0x80),
        ((tmp ^ (a as u16)) & (tmp ^ value) & 0x0080 != 0) == ((a >= 0x80) != (m >= 0x80) && ((
            tmp % 256) as u8 >= 0x80) != (a >= 0x80)),
{
    assert({
        &&& value == 255 - m
        &&& ((tmp & 0x00FF) as u8) == (tmp % 256) as u8
        &&& ((tmp & 0xFF00) != 0) == (tmp > 255)
        &&& ((tmp & 0x00FF) == 0) == (tmp % 256 == 0)
        &&& ((tmp & 0x80) != 0) == (tmp % 256 >= 0x80)
        &&& ((tmp ^ (a as u16)) & (tmp ^ value) & 0x0080 != 0) == ((a >= 0x80) != (m >= 0x80)
            && ((tmp % 256) as u8 >= 0x80) != (a >= 0x80))
    }) by (bit_vector)
        requires
            carry <= 1,
            value == (m as u16) ^ 0x00FF,
            tmp == a as u16 + value + carry,
    ;
}

/// Shifting and rotating a byte, as the code computes them.
proof fn lemma_shift_bits(m: u8, c: u8)
    requires
        c <= 1,
    ensures
        m << 1u32 == ((m * 2) % 256) as u8,
        m >> 1u32 == (m / 2) as u8,
        (m << 1u32) | c == ((m * 2 + c) % 256) as u8,
        (m >> 1u32) | (c << 7u8) == (m / 2 + 128 * c) as u8,
{
    assert({
        &&& m << 1u32 == ((m * 2) % 256) as u8
        &&& m >> 1u32 == (m / 2) as u8
        &&& (m << 1u32) | c == ((m * 2 + c) % 256) as u8
        &&& (m >> 1u32) | (c << 7u8) == (m / 2 + 128 * c) as u8
    }) by (bit_vector)
        requires
            c <= 1,
    ;
}

#[allow(non_snake_case)]
impl Component6502 {
    /// Illegal opcode
    pub fn xxx<B: CpuBus>(&mut self, bus: &mut B)
        ensures
            *final(self) == *old(self),
            *final(bus) == *old(bus),
    {
    }

    /// Add Memory to Accumulator with Carry
    pub fn ADC<B: CpuBus>(&mut self, bus: &mut B)
        requires
            old(bus).inv(),
        ensures
            final(bus).inv(),
            (*final(self), final(bus).state()) == spec_adc::<B>(*old(self), old(bus).state()),
    {
        self.fetch(bus);
        let carry: u16 = if self.get_flag(Flags::C) {
            1
        } else {
            0
        };
        let tmp = (self.a as u16).wrapping_add(self.fetched as u16).wrapping_add(carry);
        proof {
            lemma_adc_bits(self.a, self.fetched, carry, tmp);
        }
        // Set Carry Flag if overflowed
        self.set_flag(Flags::C, tmp > 255);
        self.set_flag(Flags::Z, (tmp & 0x00FF) == 0);
        // Set Overflow Flag if any of the additions overflowed
        self.set_flag(
            Flags::V,
            (((!((self.a as u16) ^ (self.fetched as u16))) & ((self.a as u16) ^ tmp)) & 0x0080)
                != 0,
        );
        self.set_flag(Flags::N, (tmp & 0x80) != 0);

        self.a = (tmp & 0x00FF) as u8;
    }

    /// "AND" Memory with Accumulator
    pub fn AND<B: CpuBus>(&mut self, bus: &mut B)
        requires
            old(bus).inv(),
        ensures
            final(bus).inv(),
            (*final(self), final(bus).state()) == spec_logic::<B>(
                *old(self),
                old(bus).state(),
                Logic::And,
            ),
    {
        broadcast use lemma_bit7;

        self.fetch(bus);
        self.a = self.a & self.fetched;

        self.set_flag(Flags::Z, self.a == 0x00);
        self.set_flag(Flags::N, self.a & 0x80 != 0);
    }

    /// The shared body of ASL, LSR, ROL and ROR.
    fn shift<B: CpuBus>(&mut self, bus: &mut B, k: Shift)
        requires
            old(bus).inv(),
        ensures
            final(bus).inv(),
            (*final(self), final(bus).state()) == spec_shift::<B>(*old(self), old(bus).state(), k),
    {
        broadcast use lemma_bit7, lemma_bit0;

        self.fetch(bus);
        let acc = lookup(self.opcode).addr_mode == ADDRESSING_MODES::ACC;
        if !acc {
            match k {
                Shift::ShiftRight => {
                    self.read(self.addr_abs, bus);
                },
                _ => self.write(self.addr_abs, self.fetched, bus),
            }
        }
        let carry: u8 = if self.get_flag(Flags::C) {
            1
        } else {
            0
        };
        proof {
            lemma_shift_bits(self.fetched, carry);
        }
        let result = match k {
            Shift::ShiftLeft => self.fetched.wrapping_shl(1),
            Shift::ShiftRight => self.fetched.wrapping_shr(1),
            Shift::RotateLeft => self.fetched.wrapping_shl(1) | carry,
            Shift::RotateRight => self.fetched.wrapping_shr(1) | (carry << 7u8),
        };
        let carry_out = match k {
            Shift::ShiftLeft | Shift::RotateLeft => (self.fetched & 0x80) != 0,
            Shift::ShiftRight | Shift::RotateRight => (self.fetched & 0x01) != 0,
        };

        self.set_flag(Flags::C, carry_out);
        self.set_flag(Flags::Z, result == 0x00);
        self.set_flag(Flags::N, result & 0x80 != 0);

        if acc {
            self.a = result;
        } else {
            self.write(self.addr_abs, result, bus);
        }
    }

    /// Shift Left One Bit (Memory or Accumulator)
    pub fn ASL<B: CpuBus>(&mut self, bus: &mut B)
        requires
            old(bus).inv(),
        ensures
            final(bus).inv(),
            (*final(self), final(bus).state()) == spec_shift::<B>(
                *old(self),
                old(bus).state(),
                Shift::ShiftLeft,
            ),
    {
        self.shift(bus, Shift::ShiftLeft)
    }

    /// Test Bits in Memory with Accumulator
    pub fn BIT<B: CpuBus>(&mut self, bus: &mut B)
        requires
            old(bus).inv(),
        ensures
            final(bus).inv(),
            (*final(self), final(bus).state()) == spec_bit::<B>(*old(self), old(bus).state()),
    {
        broadcast use lemma_bit7;

        self.fetch(bus);

        let tmp: u8 = self.a & self.fetched;

        self.set_flag(Flags::Z, tmp == 0x00);
        self.set_flag(Flags::N, self.fetched & 0x80 != 0);
        self.set_flag(Flags::V, self.fetched & 0x40 != 0);
    }

    /// Force Break
    pub fn BRK<B: CpuBus>(&mut self, bus: &mut B)
        requires
            old(bus).inv(),
        ensures
            final(bus).inv(),
            (*final(self), final(bus).state()) == spec_brk::<B>(*old(self), old(bus).state()),
    {
        self.read(self.pc, bus);
        self.pc = self.pc.wrapping_add(1);

        self.write(STACK_ADDRESS + self.sp as u16, (self.pc / 256) as u8, bus);
        self.sp = self.sp.wrapping_sub(1);
        self.write(STACK_ADDRESS + self.sp as u16, (self.pc % 256) as u8, bus);
        self.sp = self.sp.wrapping_sub(1);

        self.set_flag(Flags::B, true);
        self.write(STACK_ADDRESS + self.sp as u16, self.status, bus);
        self.set_flag(Flags::I, true);
        self.sp = self.sp.wrapping_sub(1);
        self.set_flag(Flags::B, false);

        let low = self.read(0xFFFE, bus);
        let high = self.read(0xFFFF, bus);
        proof {
            lemma_word(low, high);
        }
        self.pc = ((high as u16) << 8) | low as u16;
    }

    /// Generic branch instruction
    pub fn branch<B: CpuBus>(&mut self, bus: &mut B)
        requires
            old(bus).inv(),
            old(self).cycles <= 253,
        ensures
            final(bus).inv(),
            (*final(self), final(bus).state()) == spec_branch::<B>(*old(self), old(bus).state()),
    {
        self.cycles += 1;

        let data = self.pc.wrapping_add(self.addr_rel);
        self.read(self.pc, bus);

        if data & 0xFF00 != self.pc & 0xFF00 {
            self.cycles += 1;
            self.read(self.pc & 0xFF00 | data & 0x00FF, bus);
        }

        self.pc = data;
    }

    /// Branch on Carry Clear
    pub fn BCC<B: CpuBus>(&mut self, bus: &mut B)
        requires
            old(bus).inv(),
            old(self).cycles <= 253,
        ensures
            final(bus).inv(),
            (*final(self), final(bus).state()) == spec_branch_if::<B>(
                *old(self),
                old(bus).state(),
                !flag_set(old(self).status, Flags::C),
            ),
    {
        if !self.get_flag(Flags::C) {
            self.branch(bus);
        }
    }

    /// Branch on Carry Set
    pub fn BCS<B: CpuBus>(&mut self, bus: &mut B)
        requires
            old(bus).inv(),
            old(self).cycles <= 253,
        ensures
            final(bus).inv(),
            (*final(self), final(bus).state()) == spec_branch_if::<B>(
                *old(self),
                old(bus).state(),
                flag_set(old(self).status, Flags::C),
            ),
    {
        if self.get_flag(Flags::C) {
            self.branch(bus);
        }
    }

    /// Branch on Result Zero
    pub fn BEQ<B: CpuBus>(&mut self, bus: &mut B)
        requires
            old(bus).inv(),
            old(self).cycles <= 253,
        ensures
            final(bus).inv(),
            (*final(self), final(bus).state()) == spec_branch_if::<B>(
                *old(self),
                old(bus).state(),
                flag_set(old(self).status, Flags::Z),
            ),
    {
        if self.get_flag(Flags::Z) {
            self.branch(bus);
        }
    }

    /// Branch on Result Minus
    pub fn BMI<B: CpuBus>(&mut self, bus: &mut B)
        requires
            old(bus).inv(),
            old(self).cycles <= 253,
        ensures
            final(bus).inv(),
            (*final(self), final(bus).state()) == spec_branch_if::<B>(
                *old(self),
                old(bus).state(),
                flag_set(old(self).status, Flags::N),
            ),
    {
        if self.get_flag(Flags::N) {
            self.branch(bus);
        }
    }

    /// Branch on Result not Zero
    pub fn BNE<B: CpuBus>(&mut self, bus: &mut B)
        requires
            old(bus).inv(),
            old(self).cycles <= 253,
        ensures
            final(bus).inv(),
            (*final(self), final(bus).state()) == spec_branch_if::<B>(
                *old(self),
                old(bus).state(),
                !flag_set(old(self).status, Flags::Z),
            ),
    {
        if !self.get_flag(Flags::Z) {
            self.branch(bus);
        }
    }

    /// Branch on Result Plus
    pub fn BPL<B: CpuBus>(&mut self, bus: &mut B)
        requires
            old(bus).inv(),
            old(self).cycles <= 253,
        ensures
            final(bus).inv(),
            (*final(self), final(bus).state()) == spec_branch_if::<B>(
                *old(self),
                old(bus).state(),
                !flag_set(old(self).status, Flags::N),
            ),
    {
        if !self.get_flag(Flags::N) {
            self.branch(bus);
        }
    }

    /// Branch on Overflow Clear
    pub fn BVC<B: CpuBus>(&mut self, bus: &mut B)
        requires
            old(bus).inv(),
            old(self).cycles <= 253,
        ensures
            final(bus).inv(),
            (*final(self), final(bus).state()) == spec_branch_if::<B>(
                *old(self),
                old(bus).state(),
                !flag_set(old(self).status, Flags::V),
            ),
    {
        if !self.get_flag(Flags::V) {
            self.branch(bus);
        }
    }

    /// Branch on Overflow Set
    pub fn BVS<B: CpuBus>(&mut self, bus: &mut B)
        requires
            old(bus).inv(),
            old(self).cycles <= 253,
        ensures
            final(bus).inv(),
            (*final(self), final(bus).state()) == spec_branch_if::<B>(
                *old(self),
                old(bus).state(),
                flag_set(old(self).status, Flags::V),
            ),
    {
        if self.get_flag(Flags::V) {
            self.branch(bus);
        }
    }

    /// Clear Carry Flag
    pub fn CLC(&mut self)
        ensures
            *final(self) == (Component6502 {
                status: with_flag(old(self).status, Flags::C, false),
                ..*old(self)
            }),
    {
        self.set_flag(Flags::C, false);
    }

    /// Clear Decimal Mode Flag
    pub fn CLD(&mut self)
        ensures
            *final(self) == (Component6502 {
                status: with_flag(old(self).status, Flags::D, false),
                ..*old(self)
            }),
    {
        self.set_flag(Flags::D, false);
    }

    /// Clear Interrupt Disable Bit Flag
    pub fn CLI(&mut self)
        ensures
            *final(self) == (Component6502 {
                status: with_flag(old(self).status, Flags::I, false),
                ..*old(self)
            }),
    {
        self.set_flag(Flags::I, false);
    }

    /// Clear Overflow Flag
    pub fn CLV(&mut self)
        ensures
            *final(self) == (Component6502 {
                status: with_flag(old(self).status, Flags::V, false),
                ..*old(self)
            }),
    {
        self.set_flag(Flags::V, false);
    }

    /// The shared body of CMP, CPX and CPY.
    fn compare<B: CpuBus>(&mut self, bus: &mut B, reg: u8)
        requires
            old(bus).inv(),
        ensures
            final(bus).inv(),
            (*final(self), final(bus).state()) == spec_compare::<B>(
                *old(self),
                old(bus).state(),
                reg,
            ),
    {
        broadcast use lemma_bit7;

        self.fetch(bus);

        let tmp: u8 = reg.wrapping_sub(self.fetched);

        self.set_flag(Flags::C, reg >= self.fetched);
        self.set_flag(Flags::Z, tmp == 0x00);
        self.set_flag(Flags::N, (tmp & 0x80) != 0);
    }

    /// Compare Memory and Accumulator
    pub fn CMP<B: CpuBus>(&mut self, bus: &mut B)
        requires
            old(bus).inv(),
        ensures
            final(bus).inv(),
            (*final(self), final(bus).state()) == spec_compare::<B>(
                *old(self),
                old(bus).state(),
                old(self).a,
            ),
    {
        let a = self.a;
        self.compare(bus, a)
    }

    /// Compare Memory and Index X
    pub fn CPX<B: CpuBus>(&mut self, bus: &mut B)
        requires
            old(bus).inv(),
        ensures
            final(bus).inv(),
            (*final(self), final(bus).state()) == spec_compare::<B>(
                *old(self),
                old(bus).state(),
                old(self).x,
            ),
    {
        let x = self.x;
        self.compare(bus, x)
    }

    /// Compare Memory and Index Y
    pub fn CPY<B: CpuBus>(&mut self, bus: &mut B)
        requires
            old(bus).inv(),
        ensures
            final(bus).inv(),
            (*final(self), final(bus).state()) == spec_compare::<B>(
                *old(self),
                old(bus).state(),
                old(self).y,
            ),
    {
        let y = self.y;
        self.compare(bus, y)
    }

    /// The shared body of DEC and INC.
    fn step_memory<B: CpuBus>(&mut self, bus: &mut B, up: bool)
        requires
            old(bus).inv(),
        ensures
            final(bus).inv(),
            (*final(self), final(bus).state()) == spec_step_memory::<B>(
                *old(self),
                old(bus).state(),
                up,
            ),
    {
        broadcast use lemma_bit7;

        self.fetch(bus);

        self.write(self.addr_abs, self.fetched, bus);
        let tmp = if up {
            self.fetched.wrapping_add(1)
        } else {
            self.fetched.wrapping_sub(1)
        };

        self.set_flag(Flags::Z, tmp == 0x00);
        self.set_flag(Flags::N, tmp & 0x80 != 0);

        self.write(self.addr_abs, tmp, bus);
    }

    /// Decrement Memory by One
    pub fn DEC<B: CpuBus>(&mut self, bus: &mut B)
        requires
            old(bus).inv(),
        ensures
            final(bus).inv(),
            (*final(self), final(bus).state()) == spec_step_memory::<B>(
                *old(self),
                old(bus).state(),
                false,
            ),
    {
        self.step_memory(bus, false)
    }

    /// Decrement Index X by One
    pub fn DEX(&mut self)
        ensures
            *final(self) == (Component6502 {
                x: old(self).x.wrapping_sub(1),
                status: with_zn(old(self).status, old(self).x.wrapping_sub(1)),
                ..*old(self)
            }),
    {
        broadcast use lemma_bit7;

        self.x = self.x.wrapping_sub(1);

        self.set_flag(Flags::Z, self.x == 0x00);
        self.set_flag(Flags::N, self.x & 0x80 != 0);
    }

    /// Decrement Index Y by One
    pub fn DEY(&mut self)
        ensures
            *final(self) == (Component6502 {
                y: old(self).y.wrapping_sub(1),
                status: with_zn(old(self).status, old(self).y.wrapping_sub(1)),
                ..*old(self)
            }),
    {
        broadcast use lemma_bit7;

        self.y = self.y.wrapping_sub(1);

        self.set_flag(Flags::Z, self.y == 0x00);
        self.set_flag(Flags::N, self.y & 0x80 != 0);
    }

    /// "Exclusive-OR" Memory with Accumulator
    pub fn EOR<B: CpuBus>(&mut self, bus: &mut B)
        requires
            old(bus).inv(),
        ensures
            final(bus).inv(),
            (*final(self), final(bus).state()) == spec_logic::<B>(
                *old(self),
                old(bus).state(),
                Logic::Xor,
            ),
    {
        broadcast use lemma_bit7;

        self.fetch(bus);
        self.a = self.a ^ self.fetched;

        self.set_flag(Flags::Z, self.a == 0x00);
        self.set_flag(Flags::N, self.a & 0x80 != 0);
    }

    /// Increment Memory by One
    pub fn INC<B: CpuBus>(&mut self, bus: &mut B)
        requires
            old(bus).inv(),
        ensures
            final(bus).inv(),
            (*final(self), final(bus).state()) == spec_step_memory::<B>(
                *old(self),
                old(bus).state(),
                true,
            ),
    {
        self.step_memory(bus, true)
    }

    /// Increment Index X by One
    pub fn INX(&mut self)
        ensures
            *final(self) == (Component6502 {
                x: old(self).x.wrapping_add(1),
                status: with_zn(old(self).status, old(self).x.wrapping_add(1)),
                ..*old(self)
            }),
    {
        broadcast use lemma_bit7;

        self.x = self.x.wrapping_add(1);

        self.set_flag(Flags::Z, self.x == 0x00);
        self.set_flag(Flags::N, self.x & 0x80 != 0);
    }

    /// Increment Index Y by One
    pub fn INY(&mut self)
        ensures
            *final(self) == (Component6502 {
                y: old(self).y.wrapping_add(1),
                status: with_zn(old(self).status, old(self).y.wrapping_add(1)),
                ..*old(self)
            }),
    {
        broadcast use lemma_bit7;

        self.y = self.y.wrapping_add(1);

        self.set_flag(Flags::Z, self.y == 0x00);
        self.set_flag(Flags::N, self.y & 0x80 != 0);
    }

    /// Jump to New Location
    pub fn JMP(&mut self)
        ensures
            *final(self) == (Component6502 { pc: old(self).addr_abs, ..*old(self) }),
    {
        self.pc = self.addr_abs;
    }

    /// Jump to New Location Saving Return Address
    pub fn JSR<B: CpuBus>(&mut self, bus: &mut B)
        requires
            old(bus).inv(),
        ensures
            final(bus).inv(),
            (*final(self), final(bus).state()) == spec_jsr::<B>(*old(self), old(bus).state()),
    {
        self.read(STACK_ADDRESS + self.sp as u16, bus);

        self.write(STACK_ADDRESS + self.sp as u16, (self.pc / 256) as u8, bus);
        self.sp = self.sp.wrapping_sub(1);
        self.write(STACK_ADDRESS + self.sp as u16, (self.pc % 256) as u8, bus);
        self.sp = self.sp.wrapping_sub(1);

        let high = self.read(self.pc, bus);
        self.pc = ((high as u16) << 8u16) | self.addr_abs;
    }

    /// Load Accumulator with Memory
    pub fn LDA<B: CpuBus>(&mut self, bus: &mut B)
        requires
            old(bus).inv(),
        ensures
            final(bus).inv(),
            (*final(self), final(bus).state()) == spec_operation::<B>(
                Operation::LDA,
                *old(self),
                old(bus).state(),
            ),
    {
        broadcast use lemma_bit7;

        self.fetch(bus);
        self.a = self.fetched;

        self.set_flag(Flags::Z, self.a == 0x00);
        self.set_flag(Flags::N, self.a & 0x80 != 0);
    }

    /// Load Index X with Memory
    pub fn LDX<B: CpuBus>(&mut self, bus: &mut B)
        requires
            old(bus).inv(),
        ensures
            final(bus).inv(),
            (*final(self), final(bus).state()) == spec_operation::<B>(
                Operation::LDX,
                *old(self),
                old(bus).state(),
            ),
    {
        broadcast use lemma_bit7;

        self.fetch(bus);
        self.x = self.fetched;

        self.set_flag(Flags::Z, self.x == 0x00);
        self.set_flag(Flags::N, self.x & 0x80 != 0);
    }

    /// Load Index Y with Memory
    pub fn LDY<B: CpuBus>(&mut self, bus: &mut B)
        requires
            old(bus).inv(),
        ensures
            final(bus).inv(),
            (*final(self), final(bus).state()) == spec_operation::<B>(
                Operation::LDY,
                *old(self),
                old(bus).state(),
            ),
    {
        broadcast use lemma_bit7;

        self.fetch(bus);
        self.y = self.fetched;

        self.set_flag(Flags::Z, self.y == 0x00);
        self.set_flag(Flags::N, self.y & 0x80 != 0);
    }

    /// Shift Right One Bit (Memory or Accumulator)
    pub fn LSR<B: CpuBus>(&mut self, bus: &mut B)
        requires
            old(bus).inv(),
        ensures
            final(bus).inv(),
            (*final(self), final(bus).state()) == spec_shift::<B>(
                *old(self),
                old(bus).state(),
                Shift::ShiftRight,
            ),
    {
        self.shift(bus, Shift::ShiftRight)
    }

    /// No Operation
    pub fn NOP<B: CpuBus>(&mut self, bus: &mut B)
        ensures
            *final(self) == *old(self),
            *final(bus) == *old(bus),
    {
    }

    /// "OR" Memory with Accumulator
    pub fn ORA<B: CpuBus>(&mut self, bus: &mut B)
        requires
            old(bus).inv(),
        ensures
            final(bus).inv(),
            (*final(self), final(bus).state()) == spec_logic::<B>(
                *old(self),
                old(bus).state(),
                Logic::Or,
            ),
    {
        broadcast use lemma_bit7;

        self.fetch(bus);
        self.a = self.a | self.fetched;

        self.set_flag(Flags::Z, self.a == 0x00);
        self.set_flag(Flags::N, self.a & 0x80 != 0);
    }

    /// Push Accumulator on Stack
    pub fn PHA<B: CpuBus>(&mut self, bus: &mut B)
        requires
            old(bus).inv(),
        ensures
            final(bus).inv(),
            (*final(self), final(bus).state()) == spec_operation::<B>(
                Operation::PHA,
                *old(self),
                old(bus).state(),
            ),
    {
        self.write(STACK_ADDRESS + self.sp as u16, self.a, bus);
        self.sp = self.sp.wrapping_sub(1);
    }

    /// Push Processor Status on Stack
    pub fn PHP<B: CpuBus>(&mut self, bus: &mut B)
        requires
            old(bus).inv(),
        ensures
            final(bus).inv(),
            (*final(self), final(bus).state()) == spec_php::<B>(*old(self), old(bus).state()),
    {
        self.set_flag(Flags::B, true);
        self.set_flag(Flags::U, true);
        self.write(STACK_ADDRESS + self.sp as u16, self.status, bus);
        self.sp = self.sp.wrapping_sub(1);
        self.set_flag(Flags::B, false);
    }

    /// Pull Accumulator from Stack
    pub fn PLA<B: CpuBus>(&mut self, bus: &mut B)
        requires
            old(bus).inv(),
        ensures
            final(bus).inv(),
            (*final(self), final(bus).state()) == spec_pla::<B>(*old(self), old(bus).state()),
    {
        broadcast use lemma_bit7;

        self.read(STACK_ADDRESS + self.sp as u16, bus);
        self.sp = self.sp.wrapping_add(1);
        self.a = self.read(STACK_ADDRESS + self.sp as u16, bus);

        self.set_flag(Flags::Z, self.a == 0x00);
        self.set_flag(Flags::N, (self.a & 0x80) != 0);
    }

    /// Pull Processor Status from Stack
    pub fn PLP<B: CpuBus>(&mut self, bus: &mut B)
        requires
            old(bus).inv(),
        ensures
            final(bus).inv(),
            (*final(self), final(bus).state()) == spec_plp::<B>(*old(self), old(bus).state()),
    {
        self.read(STACK_ADDRESS + self.sp as u16, bus);
        self.sp = self.sp.wrapping_add(1);
        self.status = self.read(STACK_ADDRESS + self.sp as u16, bus);
        self.set_flag(Flags::B, false);
        self.set_flag(Flags::U, true);
    }

    /// Rotate One Bit Left (Memory or Accumulator)
    pub fn ROL<B: CpuBus>(&mut self, bus: &mut B)
        requires
            old(bus).inv(),
        ensures
            final(bus).inv(),
            (*final(self), final(bus).state()) == spec_shift::<B>(
                *old(self),
                old(bus).state(),
                Shift::RotateLeft,
            ),
    {
        self.shift(bus, Shift::RotateLeft)
    }

    /// Rotate One Bit Right (Memory or Accumulator)
    pub fn ROR<B: CpuBus>(&mut self, bus: &mut B)
        requires
            old(bus).inv(),
        ensures
            final(bus).inv(),
            (*final(self), final(bus).state()) == spec_shift::<B>(
                *old(self),
                old(bus).state(),
                Shift::RotateRight,
            ),
    {
        self.shift(bus, Shift::RotateRight)
    }

    /// Return from Interrupt
    pub fn RTI<B: CpuBus>(&mut self, bus: &mut B)
        requires
            old(bus).inv(),
        ensures
            final(bus).inv(),
            (*final(self), final(bus).state()) == spec_rti::<B>(*old(self), old(bus).state()),
    {
        self.read(STACK_ADDRESS + self.sp as u16, bus);
        self.sp = self.sp.wrapping_add(1);
        self.status = self.read(STACK_ADDRESS + self.sp as u16, bus);
        self.set_flag(Flags::B, false);
        self.set_flag(Flags::U, true);

        self.sp = self.sp.wrapping_add(1);
        let low = self.read(STACK_ADDRESS + self.sp as u16, bus);
        self.sp = self.sp.wrapping_add(1);
        let high = self.read(STACK_ADDRESS + self.sp as u16, bus);
        proof {
            lemma_word(low, high);
        }
        self.pc = ((high as u16) << 8) | low as u16;
    }

    /// Return from Subroutine
    pub fn RTS<B: CpuBus>(&mut self, bus: &mut B)
        requires
            old(bus).inv(),
        ensures
            final(bus).inv(),
            (*final(self), final(bus).state()) == spec_rts::<B>(*old(self), old(bus).state()),
    {
        self.read(STACK_ADDRESS + self.sp as u16, bus);
        self.sp = self.sp.wrapping_add(1);
        let low = self.read(STACK_ADDRESS + self.sp as u16, bus);
        self.sp = self.sp.wrapping_add(1);
        let high = self.read(STACK_ADDRESS + self.sp as u16, bus);
        proof {
            lemma_word(low, high);
        }
        self.pc = ((high as u16) << 8) | low as u16;

        self.pc = self.pc.wrapping_add(1);
        self.read(self.pc, bus);
    }

    /// Subtract Memory from Accumulator with Borrow
    pub fn SBC<B: CpuBus>(&mut self, bus: &mut B)
        requires
            old(bus).inv(),
        ensures
            final(bus).inv(),
            (*final(self), final(bus).state()) == spec_sbc::<B>(*old(self), old(bus).state()),
    {
        self.fetch(bus);

        let value = (self.fetched as u16) ^ 0x00FF;
        let carry: u16 = if self.get_flag(Flags::C) {
            1
        } else {
            0
        };
        proof {
            let m = self.fetched;
            crate::bits::lemma_u8_bits(m);
        }
        let tmp = (self.a as u16).wrapping_add(value).wrapping_add(carry);
        proof {
            lemma_sbc_bits(self.a, self.fetched, carry, value, tmp);
            assert((tmp as int) % 256 == (self.a - self.fetched - (1 - carry)) % 256);
        }

        self.set_flag(Flags::C, (tmp & 0xFF00) != 0);
        self.set_flag(Flags::Z, (tmp & 0x00FF) == 0);
        self.set_flag(Flags::V, ((tmp ^ (self.a as u16)) & (tmp ^ value) & 0x0080) != 0);
        self.set_flag(Flags::N, (tmp & 0x80) != 0);

        self.a = (tmp & 0x00FF) as u8;
    }

    /// Set Carry Flag
    pub fn SEC(&mut self)
        ensures
            *final(self) == (Component6502 {
                status: with_flag(old(self).status, Flags::C, true),
                ..*old(self)
            }),
    {
        self.set_flag(Flags::C, true);
    }

    /// Set Decimal Mode
    pub fn SED(&mut self)
        ensures
            *final(self) == (Component6502 {
                status: with_flag(old(self).status, Flags::D, true),
                ..*old(self)
            }),
    {
        self.set_flag(Flags::D, true);
    }

    /// Set Interrupt Disable Status
    pub fn SEI(&mut self)
        ensures
            *final(self) == (Component6502 {
                status: with_flag(old(self).status, Flags::I, true),
                ..*old(self)
            }),
    {
        self.set_flag(Flags::I, true);
    }

    /// Store Accumulator in Memory
    pub fn STA<B: CpuBus>(&mut self, bus: &mut B)
        requires
            old(bus).inv(),
        ensures
            final(bus).inv(),
            *final(self) == *old(self),
            final(bus).state() == bus_write::<B>(old(bus).state(), old(self).addr_abs, old(self).a),
    {
        self.write(self.addr_abs, self.a, bus);
    }

    /// Store Index X in Memory
    pub fn STX<B: CpuBus>(&mut self, bus: &mut B)
        requires
            old(bus).inv(),
        ensures
            final(bus).inv(),
            *final(self) == *old(self),
            final(bus).state() == bus_write::<B>(old(bus).state(), old(self).addr_abs, old(self).x),
    {
        self.write(self.addr_abs, self.x, bus);
    }

    /// Store Index Y in Memory
    pub fn STY<B: CpuBus>(&mut self, bus: &mut B)
        requires
            old(bus).inv(),
        ensures
            final(bus).inv(),
            *final(self) == *old(self),
            final(bus).state() == bus_write::<B>(old(bus).state(), old(self).addr_abs, old(self).y),
    {
        self.write(self.addr_abs, self.y, bus);
    }

    /// Transfer Accumulator to Index X
    pub fn TAX(&mut self)
        ensures
            *final(self) == (Component6502 {
                x: old(self).a,
                status: with_zn(old(self).status, old(self).a),
                ..*old(self)
            }),
    {
        broadcast use lemma_bit7;

        self.x = self.a;

        self.set_flag(Flags::Z, self.x == 0x00);
        self.set_flag(Flags::N, self.x & 0x80 != 0);
    }

    /// Transfer Accumulator to Index Y
    pub fn TAY(&mut self)
        ensures
            *final(self) == (Component6502 {
                y: old(self).a,
                status: with_zn(old(self).status, old(self).a),
                ..*old(self)
            }),
    {
        broadcast use lemma_bit7;

        self.y = self.a;

        self.set_flag(Flags::Z, self.y == 0x00);
        self.set_flag(Flags::N, self.y & 0x80 != 0);
    }

    /// Transfer Stack Pointer to Index X
    pub fn TSX(&mut self)
        ensures
            *final(self) == (Component6502 {
                x: old(self).sp,
                status: with_zn(old(self).status, old(self).sp),
                ..*old(self)
            }),
    {
        broadcast use lemma_bit7;

        self.x = self.sp;

        self.set_flag(Flags::Z, self.x == 0x00);
        self.set_flag(Flags::N, self.x & 0x80 != 0);
    }

    /// Transfer Index X to Accumulator
    pub fn TXA(&mut self)
        ensures
            *final(self) == (Component6502 {
                a: old(self).x,
                status: with_zn(old(self).status, old(self).x),
                ..*old(self)
            }),
    {
        broadcast use lemma_bit7;

        self.a = self.x;

        self.set_flag(Flags::Z, self.a == 0x00);
        self.set_flag(Flags::N, self.a & 0x80 != 0);
    }

    /// Transfer Index X to Stack Pointer
    pub fn TXS(&mut self)
        ensures
            *final(self) == (Component6502 { sp: old(self).x, ..*old(self) }),
    {
        self.sp = self.x;
    }

    /// Transfer Index Y to Accumulator
    pub fn TYA(&mut self)
        ensures
            *final(self) == (Component6502 {
                a: old(self).y,
                status: with_zn(old(self).status, old(self).y),
                ..*old(self)
            }),
    {
        broadcast use lemma_bit7;

        self.a = self.y;

        self.set_flag(Flags::Z, self.a == 0x00);
        self.set_flag(Flags::N, self.a & 0x80 != 0);
    }

    /// Runs operation `op` of the current instruction.
    pub fn run_operation<B: CpuBus>(&mut self, op: Operation, bus: &mut B)
        requires
            old(bus).inv(),
            old(self).cycles <= 253,
        ensures
            final(bus).inv(),
            (*final(self), final(bus).state()) == spec_operation::<B>(
                op,
                *old(self),
                old(bus).state(),
            ),
    {
        match op {
            Operation::XXX => self.xxx(bus),
            Operation::ADC => self.ADC(bus),
            Operation::AND => self.AND(bus),
            Operation::ASL => self.ASL(bus),
            Operation::BCC => self.BCC(bus),
            Operation::BCS => self.BCS(bus),
            Operation::BEQ => self.BEQ(bus),
            Operation::BIT => self.BIT(bus),
            Operation::BMI => self.BMI(bus),
            Operation::BNE => self.BNE(bus),
            Operation::BPL => self.BPL(bus),
            Operation::BRK => self.BRK(bus),
            Operation::BVC => self.BVC(bus),
            Operation::BVS => self.BVS(bus),
            Operation::CLC => self.CLC(),
            Operation::CLD => self.CLD(),
            Operation::CLI => self.CLI(),
            Operation::CLV => self.CLV(),
            Operation::CMP => self.CMP(bus),
            Operation::CPX => self.CPX(bus),
            Operation::CPY => self.CPY(bus),
            Operation::DEC => self.DEC(bus),
            Operation::DEX => self.DEX(),
            Operation::DEY => self.DEY(),
            Operation::EOR => self.EOR(bus),
            Operation::INC => self.INC(bus),
            Operation::INX => self.INX(),
            Operation::INY => self.INY(),
            Operation::JMP => self.JMP(),
            Operation::JSR => self.JSR(bus),
            Operation::LDA => self.LDA(bus),
            Operation::LDX => self.LDX(bus),
            Operation::LDY => self.LDY(bus),
            Operation::LSR => self.LSR(bus),
            Operation::NOP => self.NOP(bus),
            Operation::ORA => self.ORA(bus),
            Operation::PHA => self.PHA(bus),
            Operation::PHP => self.PHP(bus),
            Operation::PLA => self.PLA(bus),
            Operation::PLP => self.PLP(bus),
            Operation::ROL => self.ROL(bus),
            Operation::ROR => self.ROR(bus),
            Operation::RTI => self.RTI(bus),
            Operation::RTS => self.RTS(bus),
            Operation::SBC => self.SBC(bus),
            Operation::SEC => self.SEC(),
            Operation::SED => self.SED(),
            Operation::SEI => self.SEI(),
            Operation::STA => self.STA(bus),
            Operation::STX => self.STX(bus),
            Operation::STY => self.STY(bus),
            Operation::TAX => self.TAX(),
            Operation::TAY => self.TAY(),
            Operation::TSX => self.TSX(),
            Operation::TXA => self.TXA(),
            Operation::TXS => self.TXS(),
            Operation::TYA => self.TYA(),
        }
    }
}

} // verus!
