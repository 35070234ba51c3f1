use vstd::prelude::*;
use crate::cpu::{Component6502, word, ADDRESSING_MODES};
use crate::cpu_bus::{CpuBus, bus_read};

verus! {

/// `((hi as u16) << 8) | lo` is the word `hi * 256 + lo`.
pub proof fn lemma_word(lo: u8, hi: u8)
    ensures
        ((hi as u16) << 8u16) | (lo as u16) == word(lo, hi),
        word(lo, hi) as int == hi as int * 256 + lo as int,
{
    crate::bits::lemma_word_bits(lo, hi);
}

/// Opcodes of the instructions that only read their operand from memory.
pub open spec fn spec_is_read(opcode: u8) -> bool {
    opcode == 0x69 || opcode == 0x65 || opcode == 0x75 || opcode == 0x6D || opcode == 0x7D
        || opcode == 0x79 || opcode == 0x61 || opcode == 0x71  // ADC
        || opcode == 0x29 || opcode == 0x25 || opcode == 0x35 || opcode == 0x2D || opcode == 0x3D
        || opcode == 0x39 || opcode == 0x21 || opcode == 0x31  // AND
        || opcode == 0x24 || opcode == 0x2C  // BIT
        || opcode == 0xCD || opcode == 0xDD || opcode == 0xD9 || opcode == 0xD1  // CMP
        || opcode == 0xEC  // CPX
        || opcode == 0xCC  // CPY
        || opcode == 0x4D || opcode == 0x5D || opcode == 0x59 || opcode == 0x51  // EOR
        || opcode == 0xAD || opcode == 0xBD || opcode == 0xB9 || opcode == 0xB1  // LDA
        || opcode == 0xAE || opcode == 0xBE  // LDX
        || opcode == 0xAC || opcode == 0xBC  // LDY
        || opcode == 0x0D || opcode == 0x1D || opcode == 0x19 || opcode == 0x11  // ORA
        || opcode == 0xED || opcode == 0xFD || opcode == 0xF9 || opcode == 0xF1  // SBC
}

/// Opcodes of the read-modify-write instructions.
pub open spec fn spec_is_read_modify_write(opcode: u8) -> bool {
    opcode == 0x0A || opcode == 0x06 || opcode == 0x16 || opcode == 0x0E || opcode == 0x1E  // ASL
        || opcode == 0xC6 || opcode == 0xD6 || opcode == 0xCE || opcode == 0xDE  // DEC
        || opcode == 0xEE || opcode == 0xFE  // INC
        || opcode == 0x4E || opcode == 0x5E  // LSR
        || opcode == 0x2E || opcode == 0x3E  // ROL
        || opcode == 0x6E || opcode == 0x7E  // ROR
}

/// Opcodes of the instructions that only write their operand to memory.
pub open spec fn spec_is_write(opcode: u8) -> bool {
    opcode == 0x8D || opcode == 0x9D || opcode == 0x99 || opcode == 0x91  // STA
        || opcode == 0x8E  // STX
        || opcode == 0x8C  // STY
}

/// Opcodes of the instructions that use the stack.
pub open spec fn spec_is_stack(opcode: u8) -> bool {
    opcode == 0x00 || opcode == 0x40 || opcode == 0x60 || opcode == 0x48 || opcode == 0x08
        || opcode == 0x68 || opcode == 0x28 || opcode == 0x20
}

fn is_a_read_instruction(opcode: u8) -> (r: bool)
    ensures
        r == spec_is_read(opcode),
{
    match opcode {
        0x69 | 0x65 | 0x75 | 0x6D | 0x7D | 0x79 | 0x61 | 0x71 |  // ADC
        0x29 | 0x25 | 0x35 | 0x2D | 0x3D | 0x39 | 0x21 | 0x31 |  // AND
        0x24 | 0x2C |  // BIT
        0xCD | 0xDD | 0xD9 | 0xD1 |  // CMP
        0xEC |  // CPX
        0xCC |  // CPY
        0x4D | 0x5D | 0x59 | 0x51 |  // EOR
        0xAD | 0xBD | 0xB9 | 0xB1 |  // LDA
        0xAE | 0xBE |  // LDX
        0xAC | 0xBC |  // LDY
        0x0D | 0x1D | 0x19 | 0x11 |  // ORA
        0xED | 0xFD | 0xF9 | 0xF1  // SBC
        => true,
        _ => false,
    }
}

fn is_a_read_modify_write_instruction(opcode: u8) -> (r: bool)
    ensures
        r == spec_is_read_modify_write(opcode),
{
    match opcode {
        0x0A | 0x06 | 0x16 | 0x0E | 0x1E |  // ASL
        0xC6 | 0xD6 | 0xCE | 0xDE |  // DEC
        0xEE | 0xFE |  // INC
        0x4E | 0x5E |  // LSR
        0x2E | 0x3E |  // ROL
        0x6E | 0x7E  // ROR
        => true,
        _ => false,
    }
}

fn is_a_write_instruction(opcode: u8) -> (r: bool)
    ensures
        r == spec_is_write(opcode),
{
    match opcode {
        0x8D | 0x9D | 0x99 | 0x91 |  // STA
        0x8E |  // STX
        0x8C  // STY
        => true,
        _ => false,
    }
}

fn is_a_stack_instruction(opcode: u8) -> (r: bool)
    ensures
        r == spec_is_stack(opcode),
{
    match opcode {
        0x00 | 0x40 | 0x60 | 0x48 | 0x08 | 0x68 | 0x28 | 0x20 => true,
        _ => false,
    }
}

/// The address of the dummy read made when an indexed address crosses into
/// another page: the high byte of the base address, the low byte of the final one.
pub open spec fn page_fix_address(base: u16, target: u16) -> u16 {
    (base & 0xFF00) | (target & 0x00FF)
}

/// Whether `a` and `b` lie in different 256-byte pages.
pub open spec fn crosses_page(a: u16, b: u16) -> bool {
    a & 0xFF00 != b & 0xFF00
}

/// Accumulator mode: a dummy read at the program counter, the operand is the accumulator.
pub open spec fn spec_addr_acc<B: CpuBus>(c: Component6502, s: B::State) -> (
    Component6502,
    B::State,
) {
    (Component6502 { fetched: c.a, ..c }, B::after_read(s, c.pc))
}

/// Immediate mode: the operand is the byte after the opcode.
pub open spec fn spec_addr_imm<B: CpuBus>(c: Component6502, s: B::State) -> (
    Component6502,
    B::State,
) {
    (Component6502 { addr_abs: c.pc, pc: c.pc.wrapping_add(1), ..c }, s)
}

/// Absolute mode: a two-byte address follows the opcode (only its low byte
/// for JSR, which reads the high byte itself).
pub open spec fn spec_addr_abs<B: CpuBus>(c: Component6502, s: B::State) -> (
    Component6502,
    B::State,
) {
    let (low, s1) = bus_read::<B>(s, c.pc);
    let pc1 = c.pc.wrapping_add(1);
    let (high, s2, pc2) = if c.opcode == 0x20 {
        (0u8, s1, pc1)
    } else {
        let (h, s2) = bus_read::<B>(s1, pc1);
        (h, s2, pc1.wrapping_add(1))
    };
    let keeps = c.opcode == 0x4C || spec_is_read(c.opcode) || spec_is_read_modify_write(c.opcode)
        || spec_is_write(c.opcode) || spec_is_stack(c.opcode);
    (
        Component6502 {
            pc: pc2,
            addr_abs: if keeps {
                word(low, high)
            } else {
                c.addr_abs
            },
            ..c
        },
        s2,
    )
}

/// Absolute mode indexed by `index`: the dummy read and extra cycle of a
/// page crossing follow the instruction's class.
pub open spec fn spec_addr_abs_indexed<B: CpuBus>(c: Component6502, s: B::State, index: u8) -> (
    Component6502,
    B::State,
) {
    let (low, s1) = bus_read::<B>(s, c.pc);
    let (high, s2) = bus_read::<B>(s1, c.pc.wrapping_add(1));
    let base = word(low, high);
    let target = base.wrapping_add(index as u16);
    let c2 = Component6502 { pc: c.pc.wrapping_add(1).wrapping_add(1), addr_abs: target, ..c };
    spec_page_cross::<B>(c2, s2, base, target)
}

/// The extra cycle and dummy read of an indexed access that crosses a page.
pub open spec fn spec_page_cross<B: CpuBus>(
    c: Component6502,
    s: B::State,
    base: u16,
    target: u16,
) -> (Component6502, B::State) {
    if spec_is_read(c.opcode) {
        if crosses_page(base, target) {
            (
                Component6502 { cycles: (c.cycles + 1) as u8, ..c },
                B::after_read(s, page_fix_address(base, target)),
            )
        } else {
            (c, s)
        }
    } else if spec_is_read_modify_write(c.opcode) || spec_is_write(c.opcode) {
        (c, B::after_read(s, page_fix_address(base, target)))
    } else {
        (c, s)
    }
}

/// Zero page mode: the operand's address is the byte after the opcode.
pub open spec fn spec_addr_zp0<B: CpuBus>(c: Component6502, s: B::State) -> (
    Component6502,
    B::State,
) {
    let (addr, s1) = bus_read::<B>(s, c.pc);
    (Component6502 { pc: c.pc.wrapping_add(1), addr_abs: addr as u16, ..c }, s1)
}

/// Zero page mode indexed by `index`, wrapping inside the zero page.
pub open spec fn spec_addr_zp_indexed<B: CpuBus>(c: Component6502, s: B::State, index: u8) -> (
    Component6502,
    B::State,
) {
    let (addr, s1) = bus_read::<B>(s, c.pc);
    let s2 = B::after_read(s1, addr as u16);
    (
        Component6502 {
            pc: c.pc.wrapping_add(1),
            addr_abs: addr.wrapping_add(index) as u16,
            ..c
        },
        s2,
    )
}

/// Implied mode: a dummy read at the program counter (none for BRK).
pub open spec fn spec_addr_imp<B: CpuBus>(c: Component6502, s: B::State) -> (
    Component6502,
    B::State,
) {
    if c.opcode != 0x00 {
        (c, B::after_read(s, c.pc))
    } else {
        (c, s)
    }
}

/// The signed byte `b` widened to 16 bits.
pub open spec fn sign_extend(b: u8) -> u16 {
    if b >= 0x80 {
        (b as int + 0xFF00) as u16
    } else {
        b as u16
    }
}

/// Relative mode: the signed offset after the opcode.
pub open spec fn spec_addr_rel<B: CpuBus>(c: Component6502, s: B::State) -> (
    Component6502,
    B::State,
) {
    let (operand, s1) = bus_read::<B>(s, c.pc);
    (Component6502 { pc: c.pc.wrapping_add(1), addr_rel: sign_extend(operand), ..c }, s1)
}

/// Indirect mode, with the hardware bug: a pointer at the end of a page
/// takes its high byte from the start of the same page.
pub open spec fn spec_addr_ind<B: CpuBus>(c: Component6502, s: B::State) -> (
    Component6502,
    B::State,
) {
    let (ptr_lo, s1) = bus_read::<B>(s, c.pc);
    let (ptr_hi, s2) = bus_read::<B>(s1, c.pc.wrapping_add(1));
    let ptr = word(ptr_lo, ptr_hi);
    let high_addr = if ptr_lo == 0xFF {
        word(0, ptr_hi)
    } else {
        (ptr + 1) as u16
    };
    let (hi, s3) = bus_read::<B>(s2, high_addr);
    let (lo, s4) = bus_read::<B>(s3, ptr);
    (
        Component6502 {
            pc: c.pc.wrapping_add(1).wrapping_add(1),
            addr_abs: word(lo, hi),
            ..c
        },
        s4,
    )
}

/// Indexed indirect mode: the pointer is in the zero page at operand + X.
pub open spec fn spec_addr_izx<B: CpuBus>(c: Component6502, s: B::State) -> (
    Component6502,
    B::State,
) {
    let (pointer, s1) = bus_read::<B>(s, c.pc);
    let s2 = B::after_read(s1, pointer as u16);
    let p = pointer.wrapping_add(c.x);
    let (low, s3) = bus_read::<B>(s2, p as u16);
    let (high, s4) = bus_read::<B>(s3, p.wrapping_add(1) as u16);
    (Component6502 { pc: c.pc.wrapping_add(1), addr_abs: word(low, high), ..c }, s4)
}

/// Indirect indexed mode: the pointer is in the zero page, Y is added to it.
pub open spec fn spec_addr_izy<B: CpuBus>(c: Component6502, s: B::State) -> (
    Component6502,
    B::State,
) {
    let (pointer, s1) = bus_read::<B>(s, c.pc);
    let (low, s2) = bus_read::<B>(s1, pointer as u16);
    let (high, s3) = bus_read::<B>(s2, pointer.wrapping_add(1) as u16);
    let base = word(low, high);
    let target = base.wrapping_add(c.y as u16);
    let c3 = Component6502 { pc: c.pc.wrapping_add(1), addr_abs: target, ..c };
    spec_page_cross::<B>(c3, s3, base, target)
}

/// The effect of addressing mode `mode`.
pub open spec fn spec_addressing<B: CpuBus>(
    mode: ADDRESSING_MODES,
    c: Component6502,
    s: B::State,
) -> (Component6502, B::State) {
    match mode {
        ADDRESSING_MODES::ACC => spec_addr_acc::<B>(c, s),
        ADDRESSING_MODES::IMP => spec_addr_imp::<B>(c, s),
        ADDRESSING_MODES::IMM => spec_addr_imm::<B>(c, s),
        ADDRESSING_MODES::ZP0 => spec_addr_zp0::<B>(c, s),
        ADDRESSING_MODES::ZPX => spec_addr_zp_indexed::<B>(c, s, c.x),
        ADDRESSING_MODES::ZPY => spec_addr_zp_indexed::<B>(c, s, c.y),
        ADDRESSING_MODES::REL => spec_addr_rel::<B>(c, s),
        ADDRESSING_MODES::ABS => spec_addr_abs::<B>(c, s),
        ADDRESSING_MODES::ABX => spec_addr_abs_indexed::<B>(c, s, c.x),
        ADDRESSING_MODES::ABY => spec_addr_abs_indexed::<B>(c, s, c.y),
        ADDRESSING_MODES::IND => spec_addr_ind::<B>(c, s),
        ADDRESSING_MODES::IZX => spec_addr_izx::<B>(c, s),
        ADDRESSING_MODES::IZY => spec_addr_izy::<B>(c, s),
    }
}

/// The number of operand bytes of a mode is how far the mode moves the
/// program counter past the opcode. The one exception is JSR (opcode
/// `0x20`): its absolute mode reads only the low address byte, and the
/// instruction reads the high byte itself.
pub proof fn lemma_operands_nb_is_pc_advance<B: CpuBus>(
    mode: ADDRESSING_MODES,
    c: Component6502,
    s: B::State,
)
    ensures
        mode.spec_operands_nb() <= 2,
        !(mode == ADDRESSING_MODES::ABS && c.opcode == 0x20) ==> spec_addressing::<B>(
            mode,
            c,
            s,
        ).0.pc == c.pc.wrapping_add(mode.spec_operands_nb() as u16),
        mode == ADDRESSING_MODES::ABS && c.opcode == 0x20 ==> spec_addressing::<B>(
            mode,
            c,
            s,
        ).0.pc == c.pc.wrapping_add(1),
{
    assert(c.pc.wrapping_add(1).wrapping_add(1) == c.pc.wrapping_add(2));
    assert(c.pc.wrapping_add(0) == c.pc);
}

#[allow(non_snake_case)]
impl Component6502 {
    /// Accumulator addressing mode
    pub fn addr_ACC<B: CpuBus>(&mut self, bus: &mut B)
        requires
            old(bus).inv(),
        ensures
            final(bus).inv(),
            (*final(self), final(bus).state()) == spec_addr_acc::<B>(*old(self), old(bus).state()),
    {
        self.read(self.pc, bus);
        self.fetched = self.a;
    }

    /// Immediate addressing mode
    pub fn addr_IMM<B: CpuBus>(&mut self, bus: &mut B)
        requires
            old(bus).inv(),
        ensures
            final(bus).inv(),
            (*final(self), final(bus).state()) == spec_addr_imm::<B>(*old(self), old(bus).state()),
    {
        self.addr_abs = self.pc;
        self.pc = self.pc.wrapping_add(1);
    }

    /// Absolute addressing mode
    pub fn addr_ABS<B: CpuBus>(&mut self, bus: &mut B)
        requires
            old(bus).inv(),
        ensures
            final(bus).inv(),
            (*final(self), final(bus).state()) == spec_addr_abs::<B>(*old(self), old(bus).state()),
    {
        let low = self.read(self.pc, bus);
        self.pc = self.pc.wrapping_add(1);

        let high = if self.opcode == 0x20 {
            0
        } else {
            let res = self.read(self.pc, bus);
            self.pc = self.pc.wrapping_add(1);
            res
        };

        let effective_address = ((high as u16) << 8) | low as u16;
        proof {
            lemma_word(low, high);
        }

        if self.opcode == 0x4C || is_a_read_instruction(self.opcode)
            || is_a_read_modify_write_instruction(self.opcode) || is_a_write_instruction(
            self.opcode,
        ) || is_a_stack_instruction(self.opcode) {
            self.addr_abs = effective_address;
        }
    }

    /// The dummy read and extra cycle of an indexed access across pages.
    fn page_cross<B: CpuBus>(&mut self, base: u16, target: u16, bus: &mut B)
        requires
            old(bus).inv(),
            old(self).cycles < 255,
        ensures
            final(bus).inv(),
            (*final(self), final(bus).state()) == spec_page_cross::<B>(
                *old(self),
                old(bus).state(),
                base,
                target,
            ),
    {
        if is_a_read_instruction(self.opcode) {
            if base & 0xFF00 != target & 0xFF00 {
                self.cycles += 1;
                self.read(base & 0xFF00 | target & 0x00FF, bus);
            }
        } else if is_a_read_modify_write_instruction(self.opcode) || is_a_write_instruction(
            self.opcode,
        ) {
            self.read(base & 0xFF00 | target & 0x00FF, bus);
        }
    }

    /// Absolute addressing mode with X offset
    pub fn addr_ABX<B: CpuBus>(&mut self, bus: &mut B)
        requires
            old(bus).inv(),
            old(self).cycles < 255,
        ensures
            final(bus).inv(),
            (*final(self), final(bus).state()) == spec_addr_abs_indexed::<B>(
                *old(self),
                old(bus).state(),
                old(self).x,
            ),
    {
        let low = self.read(self.pc, bus);
        self.pc = self.pc.wrapping_add(1);
        let high = self.read(self.pc, bus);
        self.pc = self.pc.wrapping_add(1);

        let effective_address = ((high as u16) << 8) | low as u16;
        proof {
            lemma_word(low, high);
        }
        let absolute_address = effective_address.wrapping_add(self.x as u16);
        self.addr_abs = absolute_address;
        self.page_cross(effective_address, absolute_address, bus);
    }

    /// Absolute addressing mode with Y offset
    pub fn addr_ABY<B: CpuBus>(&mut self, bus: &mut B)
        requires
            old(bus).inv(),
            old(self).cycles < 255,
        ensures
            final(bus).inv(),
            (*final(self), final(bus).state()) == spec_addr_abs_indexed::<B>(
                *old(self),
                old(bus).state(),
                old(self).y,
            ),
    {
        let low = self.read(self.pc, bus);
        self.pc = self.pc.wrapping_add(1);
        let high = self.read(self.pc, bus);
        self.pc = self.pc.wrapping_add(1);

        let effective_address = ((high as u16) << 8) | low as u16;
        proof {
            lemma_word(low, high);
        }
        let absolute_address = effective_address.wrapping_add(self.y as u16);
        self.addr_abs = absolute_address;
        self.page_cross(effective_address, absolute_address, bus);
    }

    /// Zero Page addressing mode
    pub fn addr_ZP0<B: CpuBus>(&mut self, bus: &mut B)
        requires
            old(bus).inv(),
        ensures
            final(bus).inv(),
            (*final(self), final(bus).state()) == spec_addr_zp0::<B>(*old(self), old(bus).state()),
    {
        let effective_address = self.read(self.pc, bus);
        self.pc = self.pc.wrapping_add(1);

        self.addr_abs = effective_address as u16;
    }

    /// Zero Page addressing mode with X offset
    pub fn addr_ZPX<B: CpuBus>(&mut self, bus: &mut B)
        requires
            old(bus).inv(),
        ensures
            final(bus).inv(),
            (*final(self), final(bus).state()) == spec_addr_zp_indexed::<B>(
                *old(self),
                old(bus).state(),
                old(self).x,
            ),
    {
        let address = self.read(self.pc, bus);
        self.pc = self.pc.wrapping_add(1);

        self.read(address as u16, bus);

        let effective_address = address.wrapping_add(self.x);

        self.addr_abs = effective_address as u16;
    }

    /// Zero Page addressing mode with Y offset
    pub fn addr_ZPY<B: CpuBus>(&mut self, bus: &mut B)
        requires
            old(bus).inv(),
        ensures
            final(bus).inv(),
            (*final(self), final(bus).state()) == spec_addr_zp_indexed::<B>(
                *old(self),
                old(bus).state(),
                old(self).y,
            ),
    {
        let address = self.read(self.pc, bus);
        self.pc = self.pc.wrapping_add(1);

        self.read(address as u16, bus);

        let effective_address = address.wrapping_add(self.y);

        self.addr_abs = effective_address as u16;
    }

    /// Implied addressing mode
    pub fn addr_IMP<B: CpuBus>(&mut self, bus: &mut B)
        requires
            old(bus).inv(),
        ensures
            final(bus).inv(),
            (*final(self), final(bus).state()) == spec_addr_imp::<B>(*old(self), old(bus).state()),
    {
        if self.opcode != 0x00 {
            self.read(self.pc, bus);
        }
    }

    /// Relative addressing mode
    pub fn addr_REL<B: CpuBus>(&mut self, bus: &mut B)
        requires
            old(bus).inv(),
        ensures
            final(bus).inv(),
            (*final(self), final(bus).state()) == spec_addr_rel::<B>(*old(self), old(bus).state()),
    {
        let operand = self.read(self.pc, bus);
        self.pc = self.pc.wrapping_add(1);

        // sign extension of the 8-bit offset
        self.addr_rel = if operand >= 0x80 {
            operand as u16 + 0xFF00
        } else {
            operand as u16
        };
    }

    /// Indirect addressing mode
    /// (implements a hardware bug)
    pub fn addr_IND<B: CpuBus>(&mut self, bus: &mut B)
        requires
            old(bus).inv(),
        ensures
            final(bus).inv(),
            (*final(self), final(bus).state()) == spec_addr_ind::<B>(*old(self), old(bus).state()),
    {
        let ptr_lo = self.read(self.pc, bus);
        self.pc = self.pc.wrapping_add(1);

        let ptr_hi = self.read(self.pc, bus);
        self.pc = self.pc.wrapping_add(1);

        let ptr = ((ptr_hi as u16) << 8) | ptr_lo as u16;
        proof {
            lemma_word(ptr_lo, ptr_hi);
            lemma_word(0, ptr_hi);
        }

        let hi = if ptr_lo == 0xFF {
            self.read(ptr & 0xFF00, bus)
        } else {
            self.read(ptr + 1, bus)
        };
        let lo = self.read(ptr, bus);
        proof {
            crate::bits::lemma_word_bits(ptr_lo, ptr_hi);
            lemma_word(lo, hi);
        }
        self.addr_abs = ((hi as u16) << 8) | lo as u16;
    }

    /// Indirect addressing mode with X offset (zero page)
    pub fn addr_IZX<B: CpuBus>(&mut self, bus: &mut B)
        requires
            old(bus).inv(),
        ensures
            final(bus).inv(),
            (*final(self), final(bus).state()) == spec_addr_izx::<B>(*old(self), old(bus).state()),
    {
        let pointer = self.read(self.pc, bus);
        self.pc = self.pc.wrapping_add(1);

        self.read(pointer as u16, bus);
        let effective_addr = pointer.wrapping_add(self.x);

        let low = self.read(effective_addr as u16, bus);
        let high = self.read(effective_addr.wrapping_add(1) as u16, bus);
        proof {
            lemma_word(low, high);
        }

        self.addr_abs = ((high as u16) << 8) | low as u16;
    }

    /// Indirect addressing mode with Y offset (zero page)
    pub fn addr_IZY<B: CpuBus>(&mut self, bus: &mut B)
        requires
            old(bus).inv(),
            old(self).cycles < 255,
        ensures
            final(bus).inv(),
            (*final(self), final(bus).state()) == spec_addr_izy::<B>(*old(self), old(bus).state()),
    {
        let pointer = self.read(self.pc, bus);
        self.pc = self.pc.wrapping_add(1);

        let low = self.read(pointer as u16, bus);
        let high = self.read(pointer.wrapping_add(1) as u16, bus);

        let effective_address = ((high as u16) << 8) | low as u16;
        proof {
            lemma_word(low, high);
        }
        let indirect_address = effective_address.wrapping_add(self.y as u16);
        self.addr_abs = indirect_address;
        self.page_cross(effective_address, indirect_address, bus);
    }

    /// Runs addressing mode `mode`.
    pub fn run_addressing_mode<B: CpuBus>(&mut self, mode: ADDRESSING_MODES, bus: &mut B)
        requires
            old(bus).inv(),
            old(self).cycles < 255,
        ensures
            final(bus).inv(),
            (*final(self), final(bus).state()) == spec_addressing::<B>(
                mode,
                *old(self),
                old(bus).state(),
            ),
    {
        match mode {
            ADDRESSING_MODES::ACC => self.addr_ACC(bus),
            ADDRESSING_MODES::IMP => self.addr_IMP(bus),
            ADDRESSING_MODES::IMM => self.addr_IMM(bus),
            ADDRESSING_MODES::ZP0 => self.addr_ZP0(bus),
            ADDRESSING_MODES::ZPX => self.addr_ZPX(bus),
            ADDRESSING_MODES::ZPY => self.addr_ZPY(bus),
            ADDRESSING_MODES::REL => self.addr_REL(bus),
            ADDRESSING_MODES::ABS => self.addr_ABS(bus),
            ADDRESSING_MODES::ABX => self.addr_ABX(bus),
            ADDRESSING_MODES::ABY => self.addr_ABY(bus),
            ADDRESSING_MODES::IND => self.addr_IND(bus),
            ADDRESSING_MODES::IZX => self.addr_IZX(bus),
            ADDRESSING_MODES::IZY => self.addr_IZY(bus),
        }
    }
}

} // verus!
