use vstd::prelude::*;
use crate::cpu_bus::{CpuBus, bus_read};
use crate::addressing_modes::{spec_addressing, lemma_word};
use crate::opcodes::spec_operation;

verus! {

/// Base address of the CPU stack page.
pub const STACK_ADDRESS: u16 = 0x0100;

/// The eight bits of the processor status register.
#[derive(Clone, Copy, Debug, PartialEq, Eq, Structural)]
pub enum Flags {
    /// bit 0 | Carry
    C,
    /// bit 1 | Zero
    Z,
    /// bit 2 | Interrupt Disable
    I,
    /// bit 3 | Decimal Mode
    D,
    /// bit 4 | Doesn't actually exist | Break Command
    B,
    /// bit 5 | Doesn't actually exist | Unused
    U,
    /// bit 6 | Overflow
    V,
    /// bit 7 | Negative
    N,
}

impl Flags {
    /// Position of the flag in the status register.
    pub open spec fn spec_bit(self) -> u8 {
        match self {
            Flags::C => 0,
            Flags::Z => 1,
            Flags::I => 2,
            Flags::D => 3,
            Flags::B => 4,
            Flags::U => 5,
            Flags::V => 6,
            Flags::N => 7,
        }
    }

    /// The one-bit mask of the flag.
    pub open spec fn spec_mask(self) -> u8 {
        match self {
            Flags::C => 0x01,
            Flags::Z => 0x02,
            Flags::I => 0x04,
            Flags::D => 0x08,
            Flags::B => 0x10,
            Flags::U => 0x20,
            Flags::V => 0x40,
            Flags::N => 0x80,
        }
    }

    /// The one-bit mask of the flag.
    pub fn mask(self) -> (m: u8)
        ensures
            m == self.spec_mask(),
            m == 1u8 << self.spec_bit(),
    {
        let m: u8 = match self {
            Flags::C => 0x01,
            Flags::Z => 0x02,
            Flags::I => 0x04,
            Flags::D => 0x08,
            Flags::B => 0x10,
            Flags::U => 0x20,
            Flags::V => 0x40,
            Flags::N => 0x80,
        };
        proof {
            lemma_flag_masks();
        }
        m
    }
}

/// Each flag mask is one bit shifted to the flag's position.
pub proof fn lemma_flag_masks()
    ensures
        1u8 << 0u8 == 0x01u8,
        1u8 << 1u8 == 0x02u8,
        1u8 << 2u8 == 0x04u8,
        1u8 << 3u8 == 0x08u8,
        1u8 << 4u8 == 0x10u8,
        1u8 << 5u8 == 0x20u8,
        1u8 << 6u8 == 0x40u8,
        1u8 << 7u8 == 0x80u8,
{
    assert({
        &&& 1u8 << 0u8 == 0x01u8
        &&& 1u8 << 1u8 == 0x02u8
        &&& 1u8 << 2u8 == 0x04u8
        &&& 1u8 << 3u8 == 0x08u8
        &&& 1u8 << 4u8 == 0x10u8
        &&& 1u8 << 5u8 == 0x20u8
        &&& 1u8 << 6u8 == 0x40u8
        &&& 1u8 << 7u8 == 0x80u8
    }) by (bit_vector)
    ;
}

/// Whether `flag` is set in the status byte `status`.
pub open spec fn flag_set(status: u8, flag: Flags) -> bool {
    status & flag.spec_mask() != 0
}

/// The status byte `status` with `flag` set to `value` and every other bit kept.
pub open spec fn with_flag(status: u8, flag: Flags, value: bool) -> u8 {
    if value {
        status | flag.spec_mask()
    } else {
        status & !flag.spec_mask()
    }
}

/// The status byte with the zero and negative flags set from `result`.
pub open spec fn with_zn(status: u8, result: u8) -> u8 {
    with_flag(with_flag(status, Flags::Z, result == 0), Flags::N, result >= 0x80)
}

/// How an instruction finds its operand.
#[allow(non_camel_case_types, clippy::upper_case_acronyms)]
#[derive(Debug, Copy, Clone, PartialEq, Eq, Structural)]
pub enum ADDRESSING_MODES {
    /// Accumulator
    ACC,
    /// Implied
    IMP,
    /// Immediate
    IMM,
    /// Zero Page
    ZP0,
    /// Zero Page with X Offset
    ZPX,
    /// Zero Page with Y Offset
    ZPY,
    /// Relative
    REL,
    /// Absolute
    ABS,
    /// Absolute with X Offset
    ABX,
    /// Absolute with Y Offset
    ABY,
    /// Indirect
    IND,
    /// Indirect with X Offset
    IZX,
    /// Indirect with Y Offset
    IZY,
}

impl ADDRESSING_MODES {
    /// Number of operand bytes that follow the opcode.
    pub open spec fn spec_operands_nb(self) -> u8 {
        match self {
            ADDRESSING_MODES::ACC | ADDRESSING_MODES::IMP => 0,
            ADDRESSING_MODES::IMM | ADDRESSING_MODES::ZP0 | ADDRESSING_MODES::ZPX
            | ADDRESSING_MODES::ZPY | ADDRESSING_MODES::REL | ADDRESSING_MODES::IZX
            | ADDRESSING_MODES::IZY => 1,
            ADDRESSING_MODES::ABS | ADDRESSING_MODES::ABX | ADDRESSING_MODES::ABY
            | ADDRESSING_MODES::IND => 2,
        }
    }

    /// Number of operand bytes that follow the opcode.
    pub fn get_operands_nb(self) -> (n: u8)
        ensures
            n == self.spec_operands_nb(),
            n <= 2,
    {
        match self {
            ADDRESSING_MODES::ACC | ADDRESSING_MODES::IMP => 0,
            ADDRESSING_MODES::IMM | ADDRESSING_MODES::ZP0 | ADDRESSING_MODES::ZPX
            | ADDRESSING_MODES::ZPY | ADDRESSING_MODES::REL | ADDRESSING_MODES::IZX
            | ADDRESSING_MODES::IZY => 1,
            ADDRESSING_MODES::ABS | ADDRESSING_MODES::ABX | ADDRESSING_MODES::ABY
            | ADDRESSING_MODES::IND => 2,
        }
    }
}

/// What an instruction does once its operand is found.
#[derive(Debug, Copy, Clone, PartialEq, Eq, Structural)]
pub enum Operation {
    XXX,
    ADC,
    AND,
    ASL,
    BCC,
    BCS,
    BEQ,
    BIT,
    BMI,
    BNE,
    BPL,
    BRK,
    BVC,
    BVS,
    CLC,
    CLD,
    CLI,
    CLV,
    CMP,
    CPX,
    CPY,
    DEC,
    DEX,
    DEY,
    EOR,
    INC,
    INX,
    INY,
    JMP,
    JSR,
    LDA,
    LDX,
    LDY,
    LSR,
    NOP,
    ORA,
    PHA,
    PHP,
    PLA,
    PLP,
    ROL,
    ROR,
    RTI,
    RTS,
    SBC,
    SEC,
    SED,
    SEI,
    STA,
    STX,
    STY,
    TAX,
    TAY,
    TSX,
    TXA,
    TXS,
    TYA,
}

/// One entry of the opcode table.
#[derive(Debug, Copy, Clone, PartialEq, Eq)]
pub struct Instruction {
    /// Mnemonic, prefixed with `*` for unofficial opcodes.
    pub name: &'static str,
    /// Base number of clock cycles.
    pub cycles: u8,
    pub addr_mode: ADDRESSING_MODES,
    pub operation: Operation,
}

/// The opcode table.
pub open spec fn spec_lookup(opcode: u8) -> Instruction {
    match opcode {
        0x00 => Instruction { name: " BRK", cycles: 7, addr_mode: ADDRESSING_MODES::IMP, operation: Operation::BRK },
        0x01 => Instruction { name: " ORA", cycles: 6, addr_mode: ADDRESSING_MODES::IZX, operation: Operation::ORA },
        0x02 => Instruction { name: "/!\\", cycles: 2, addr_mode: ADDRESSING_MODES::IMP, operation: Operation::XXX },
        0x03 => Instruction { name: "*SLO", cycles: 8, addr_mode: ADDRESSING_MODES::IZX, operation: Operation::XXX },
        0x04 => Instruction { name: "*NOP", cycles: 3, addr_mode: ADDRESSING_MODES::ZP0, operation: Operation::NOP },
        0x05 => Instruction { name: " ORA", cycles: 3, addr_mode: ADDRESSING_MODES::ZP0, operation: Operation::ORA },
        0x06 => Instruction { name: " ASL", cycles: 5, addr_mode: ADDRESSING_MODES::ZP0, operation: Operation::ASL },
        0x07 => Instruction { name: "*SLO", cycles: 5, addr_mode: ADDRESSING_MODES::ZP0, operation: Operation::XXX },
        0x08 => Instruction { name: " PHP", cycles: 3, addr_mode: ADDRESSING_MODES::IMP, operation: Operation::PHP },
        0x09 => Instruction { name: " ORA", cycles: 2, addr_mode: ADDRESSING_MODES::IMM, operation: Operation::ORA },
        0x0A => Instruction { name: " ASL", cycles: 2, addr_mode: ADDRESSING_MODES::ACC, operation: Operation::ASL },
        0x0B => Instruction { name: "*ANC", cycles: 2, addr_mode: ADDRESSING_MODES::IMM, operation: Operation::XXX },
        0x0C => Instruction { name: "*NOP", cycles: 4, addr_mode: ADDRESSING_MODES::ABS, operation: Operation::NOP },
        0x0D => Instruction { name: " ORA", cycles: 4, addr_mode: ADDRESSING_MODES::ABS, operation: Operation::ORA },
        0x0E => Instruction { name: " ASL", cycles: 6, addr_mode: ADDRESSING_MODES::ABS, operation: Operation::ASL },
        0x0F => Instruction { name: "*SLO", cycles: 6, addr_mode: ADDRESSING_MODES::ABS, operation: Operation::XXX },
        0x10 => Instruction { name: " BPL", cycles: 2, addr_mode: ADDRESSING_MODES::REL, operation: Operation::BPL },
        0x11 => Instruction { name: " ORA", cycles: 5, addr_mode: ADDRESSING_MODES::IZY, operation: Operation::ORA },
        0x12 => Instruction { name: "/!\\", cycles: 2, addr_mode: ADDRESSING_MODES::IMP, operation: Operation::XXX },
        0x13 => Instruction { name: "*SLO", cycles: 8, addr_mode: ADDRESSING_MODES::IZY, operation: Operation::XXX },
        0x14 => Instruction { name: "*NOP", cycles: 4, addr_mode: ADDRESSING_MODES::ZPX, operation: Operation::NOP },
        0x15 => Instruction { name: " ORA", cycles: 4, addr_mode: ADDRESSING_MODES::ZPX, operation: Operation::ORA },
        0x16 => Instruction { name: " ASL", cycles: 6, addr_mode: ADDRESSING_MODES::ZPX, operation: Operation::ASL },
        0x17 => Instruction { name: "*SLO", cycles: 6, addr_mode: ADDRESSING_MODES::ZPX, operation: Operation::XXX },
        0x18 => Instruction { name: " CLC", cycles: 2, addr_mode: ADDRESSING_MODES::IMP, operation: Operation::CLC },
        0x19 => Instruction { name: " ORA", cycles: 4, addr_mode: ADDRESSING_MODES::ABY, operation: Operation::ORA },
        0x1A => Instruction { name: "*NOP", cycles: 2, addr_mode: ADDRESSING_MODES::IMP, operation: Operation::NOP },
        0x1B => Instruction { name: "*SLO", cycles: 7, addr_mode: ADDRESSING_MODES::ABY, operation: Operation::XXX },
        0x1C => Instruction { name: "*NOP", cycles: 4, addr_mode: ADDRESSING_MODES::ABX, operation: Operation::NOP },
        0x1D => Instruction { name: " ORA", cycles: 4, addr_mode: ADDRESSING_MODES::ABX, operation: Operation::ORA },
        0x1E => Instruction { name: " ASL", cycles: 7, addr_mode: ADDRESSING_MODES::ABX, operation: Operation::ASL },
        0x1F => Instruction { name: "*SLO", cycles: 7, addr_mode: ADDRESSING_MODES::ABX, operation: Operation::XXX },
        0x20 => Instruction { name: " JSR", cycles: 6, addr_mode: ADDRESSING_MODES::ABS, operation: Operation::JSR },
        0x21 => Instruction { name: " AND", cycles: 6, addr_mode: ADDRESSING_MODES::IZX, operation: Operation::AND },
        0x22 => Instruction { name: "/!\\", cycles: 2, addr_mode: ADDRESSING_MODES::IMP, operation: Operation::XXX },
        0x23 => Instruction { name: "*RLA", cycles: 8, addr_mode: ADDRESSING_MODES::IZX, operation: Operation::XXX },
        0x24 => Instruction { name: " BIT", cycles: 3, addr_mode: ADDRESSING_MODES::ZP0, operation: Operation::BIT },
        0x25 => Instruction { name: " AND", cycles: 3, addr_mode: ADDRESSING_MODES::ZP0, operation: Operation::AND },
        0x26 => Instruction { name: " ROL", cycles: 5, addr_mode: ADDRESSING_MODES::ZP0, operation: Operation::ROL },
        0x27 => Instruction { name: "*RLA", cycles: 5, addr_mode: ADDRESSING_MODES::ZP0, operation: Operation::XXX },
        0x28 => Instruction { name: " PLP", cycles: 4, addr_mode: ADDRESSING_MODES::IMP, operation: Operation::PLP },
        0x29 => Instruction { name: " AND", cycles: 2, addr_mode: ADDRESSING_MODES::IMM, operation: Operation::AND },
        0x2A => Instruction { name: " ROL", cycles: 2, addr_mode: ADDRESSING_MODES::ACC, operation: Operation::ROL },
        0x2B => Instruction { name: "*ANC", cycles: 2, addr_mode: ADDRESSING_MODES::IMM, operation: Operation::XXX },
        0x2C => Instruction { name: " BIT", cycles: 4, addr_mode: ADDRESSING_MODES::ABS, operation: Operation::BIT },
        0x2D => Instruction { name: " AND", cycles: 4, addr_mode: ADDRESSING_MODES::ABS, operation: Operation::AND },
        0x2E => Instruction { name: " ROL", cycles: 6, addr_mode: ADDRESSING_MODES::ABS, operation: Operation::ROL },
        0x2F => Instruction { name: "*RLA", cycles: 6, addr_mode: ADDRESSING_MODES::ABS, operation: Operation::XXX },
        0x30 => Instruction { name: " BMI", cycles: 2, addr_mode: ADDRESSING_MODES::REL, operation: Operation::BMI },
        0x31 => Instruction { name: " AND", cycles: 5, addr_mode: ADDRESSING_MODES::IZY, operation: Operation::AND },
        0x32 => Instruction { name: "/!\\", cycles: 2, addr_mode: ADDRESSING_MODES::IMP, operation: Operation::XXX },
        0x33 => Instruction { name: "*RLA", cycles: 8, addr_mode: ADDRESSING_MODES::IZY, operation: Operation::XXX },
        0x34 => Instruction { name: "*NOP", cycles: 4, addr_mode: ADDRESSING_MODES::ZPX, operation: Operation::NOP },
        0x35 => Instruction { name: " AND", cycles: 4, addr_mode: ADDRESSING_MODES::ZPX, operation: Operation::AND },
        0x36 => Instruction { name: " ROL", cycles: 6, addr_mode: ADDRESSING_MODES::ZPX, operation: Operation::ROL },
        0x37 => Instruction { name: "*RLA", cycles: 6, addr_mode: ADDRESSING_MODES::ZPX, operation: Operation::XXX },
        0x38 => Instruction { name: " SEC", cycles: 2, addr_mode: ADDRESSING_MODES::IMP, operation: Operation::SEC },
        0x39 => Instruction { name: " AND", cycles: 4, addr_mode: ADDRESSING_MODES::ABY, operation: Operation::AND },
        0x3A => Instruction { name: "*NOP", cycles: 2, addr_mode: ADDRESSING_MODES::IMP, operation: Operation::NOP },
        0x3B => Instruction { name: "*RLA", cycles: 7, addr_mode: ADDRESSING_MODES::ABY, operation: Operation::XXX },
        0x3C => Instruction { name: "*NOP", cycles: 4, addr_mode: ADDRESSING_MODES::ABX, operation: Operation::NOP },
        0x3D => Instruction { name: " AND", cycles: 4, addr_mode: ADDRESSING_MODES::ABX, operation: Operation::AND },
        0x3E => Instruction { name: " ROL", cycles: 7, addr_mode: ADDRESSING_MODES::ABX, operation: Operation::ROL },
        0x3F => Instruction { name: "*RLA", cycles: 7, addr_mode: ADDRESSING_MODES::ABX, operation: Operation::XXX },
        0x40 => Instruction { name: " RTI", cycles: 6, addr_mode: ADDRESSING_MODES::IMP, operation: Operation::RTI },
        0x41 => Instruction { name: " EOR", cycles: 6, addr_mode: ADDRESSING_MODES::IZX, operation: Operation::EOR },
        0x42 => Instruction { name: "/!\\", cycles: 2, addr_mode: ADDRESSING_MODES::IMP, operation: Operation::XXX },
        0x43 => Instruction { name: "*SRE", cycles: 8, addr_mode: ADDRESSING_MODES::IZX, operation: Operation::XXX },
        0x44 => Instruction { name: "*NOP", cycles: 3, addr_mode: ADDRESSING_MODES::ZP0, operation: Operation::NOP },
        0x45 => Instruction { name: " EOR", cycles: 3, addr_mode: ADDRESSING_MODES::ZP0, operation: Operation::EOR },
        0x46 => Instruction { name: " LSR", cycles: 5, addr_mode: ADDRESSING_MODES::ZP0, operation: Operation::LSR },
        0x47 => Instruction { name: "*SRE", cycles: 5, addr_mode: ADDRESSING_MODES::ZP0, operation: Operation::XXX },
        0x48 => Instruction { name: " PHA", cycles: 3, addr_mode: ADDRESSING_MODES::IMP, operation: Operation::PHA },
        0x49 => Instruction { name: " EOR", cycles: 2, addr_mode: ADDRESSING_MODES::IMM, operation: Operation::EOR },
        0x4A => Instruction { name: " LSR", cycles: 2, addr_mode: ADDRESSING_MODES::ACC, operation: Operation::LSR },
        0x4B => Instruction { name: "*ALR", cycles: 2, addr_mode: ADDRESSING_MODES::IMM, operation: Operation::XXX },
        0x4C => Instruction { name: " JMP", cycles: 3, addr_mode: ADDRESSING_MODES::ABS, operation: Operation::JMP },
        0x4D => Instruction { name: " EOR", cycles: 4, addr_mode: ADDRESSING_MODES::ABS, operation: Operation::EOR },
        0x4E => Instruction { name: " LSR", cycles: 6, addr_mode: ADDRESSING_MODES::ABS, operation: Operation::LSR },
        0x4F => Instruction { name: "*SRE", cycles: 6, addr_mode: ADDRESSING_MODES::ABS, operation: Operation::XXX },
        0x50 => Instruction { name: " BVC", cycles: 2, addr_mode: ADDRESSING_MODES::REL, operation: Operation::BVC },
        0x51 => Instruction { name: " EOR", cycles: 5, addr_mode: ADDRESSING_MODES::IZY, operation: Operation::EOR },
        0x52 => Instruction { name: "/!\\", cycles: 2, addr_mode: ADDRESSING_MODES::IMP, operation: Operation::XXX },
        0x53 => Instruction { name: "*SRE", cycles: 8, addr_mode: ADDRESSING_MODES::IZY, operation: Operation::XXX },
        0x54 => Instruction { name: "*NOP", cycles: 4, addr_mode: ADDRESSING_MODES::ZPX, operation: Operation::NOP },
        0x55 => Instruction { name: " EOR", cycles: 4, addr_mode: ADDRESSING_MODES::ZPX, operation: Operation::EOR },
        0x56 => Instruction { name: " LSR", cycles: 6, addr_mode: ADDRESSING_MODES::ZPX, operation: Operation::LSR },
        0x57 => Instruction { name: "*SRE", cycles: 6, addr_mode: ADDRESSING_MODES::ZPX, operation: Operation::XXX },
        0x58 => Instruction { name: " CLI", cycles: 2, addr_mode: ADDRESSING_MODES::IMP, operation: Operation::CLI },
        0x59 => Instruction { name: " EOR", cycles: 4, addr_mode: ADDRESSING_MODES::ABY, operation: Operation::EOR },
        0x5A => Instruction { name: "*NOP", cycles: 2, addr_mode: ADDRESSING_MODES::IMP, operation: Operation::NOP },
        0x5B => Instruction { name: "*SRE", cycles: 7, addr_mode: ADDRESSING_MODES::ABY, operation: Operation::XXX },
        0x5C => Instruction { name: "*NOP", cycles: 4, addr_mode: ADDRESSING_MODES::ABX, operation: Operation::NOP },
        0x5D => Instruction { name: " EOR", cycles: 4, addr_mode: ADDRESSING_MODES::ABX, operation: Operation::EOR },
        0x5E => Instruction { name: " LSR", cycles: 7, addr_mode: ADDRESSING_MODES::ABX, operation: Operation::LSR },
        0x5F => Instruction { name: "*SRE", cycles: 7, addr_mode: ADDRESSING_MODES::ABX, operation: Operation::XXX },
        0x60 => Instruction { name: " RTS", cycles: 6, addr_mode: ADDRESSING_MODES::IMP, operation: Operation::RTS },
        0x61 => Instruction { name: " ADC", cycles: 6, addr_mode: ADDRESSING_MODES::IZX, operation: Operation::ADC },
        0x62 => Instruction { name: "/!\\", cycles: 2, addr_mode: ADDRESSING_MODES::IMP, operation: Operation::XXX },
        0x63 => Instruction { name: "*RRA", cycles: 8, addr_mode: ADDRESSING_MODES::IZX, operation: Operation::XXX },
        0x64 => Instruction { name: "*NOP", cycles: 3, addr_mode: ADDRESSING_MODES::ZP0, operation: Operation::NOP },
        0x65 => Instruction { name: " ADC", cycles: 3, addr_mode: ADDRESSING_MODES::ZP0, operation: Operation::ADC },
        0x66 => Instruction { name: " ROR", cycles: 5, addr_mode: ADDRESSING_MODES::ZP0, operation: Operation::ROR },
        0x67 => Instruction { name: "*RRA", cycles: 5, addr_mode: ADDRESSING_MODES::ZP0, operation: Operation::XXX },
        0x68 => Instruction { name: " PLA", cycles: 4, addr_mode: ADDRESSING_MODES::IMP, operation: Operation::PLA },
        0x69 => Instruction { name: " ADC", cycles: 2, addr_mode: ADDRESSING_MODES::IMM, operation: Operation::ADC },
        0x6A => Instruction { name: " ROR", cycles: 2, addr_mode: ADDRESSING_MODES::ACC, operation: Operation::ROR },
        0x6B => Instruction { name: "*ARR", cycles: 2, addr_mode: ADDRESSING_MODES::IMM, operation: Operation::XXX },
        0x6C => Instruction { name: " JMP", cycles: 5, addr_mode: ADDRESSING_MODES::IND, operation: Operation::JMP },
        0x6D => Instruction { name: " ADC", cycles: 4, addr_mode: ADDRESSING_MODES::ABS, operation: Operation::ADC },
        0x6E => Instruction { name: " ROR", cycles: 6, addr_mode: ADDRESSING_MODES::ABS, operation: Operation::ROR },
        0x6F => Instruction { name: "*RRA", cycles: 6, addr_mode: ADDRESSING_MODES::ABS, operation: Operation::XXX },
        0x70 => Instruction { name: " BVS", cycles: 2, addr_mode: ADDRESSING_MODES::REL, operation: Operation::BVS },
        0x71 => Instruction { name: " ADC", cycles: 5, addr_mode: ADDRESSING_MODES::IZY, operation: Operation::ADC },
        0x72 => Instruction { name: "/!\\", cycles: 2, addr_mode: ADDRESSING_MODES::IMP, operation: Operation::XXX },
        0x73 => Instruction { name: "*RRA", cycles: 8, addr_mode: ADDRESSING_MODES::IZY, operation: Operation::XXX },
        0x74 => Instruction { name: "*NOP", cycles: 4, addr_mode: ADDRESSING_MODES::ZPX, operation: Operation::NOP },
        0x75 => Instruction { name: " ADC", cycles: 4, addr_mode: ADDRESSING_MODES::ZPX, operation: Operation::ADC },
        0x76 => Instruction { name: " ROR", cycles: 6, addr_mode: ADDRESSING_MODES::ZPX, operation: Operation::ROR },
        0x77 => Instruction { name: "*RRA", cycles: 6, addr_mode: ADDRESSING_MODES::ZPX, operation: Operation::XXX },
        0x78 => Instruction { name: " SEI", cycles: 2, addr_mode: ADDRESSING_MODES::IMP, operation: Operation::SEI },
        0x79 => Instruction { name: " ADC", cycles: 4, addr_mode: ADDRESSING_MODES::ABY, operation: Operation::ADC },
        0x7A => Instruction { name: "*NOP", cycles: 2, addr_mode: ADDRESSING_MODES::IMP, operation: Operation::NOP },
        0x7B => Instruction { name: "*RRA", cycles: 7, addr_mode: ADDRESSING_MODES::ABY, operation: Operation::XXX },
        0x7C => Instruction { name: "*NOP", cycles: 4, addr_mode: ADDRESSING_MODES::ABX, operation: Operation::NOP },
        0x7D => Instruction { name: " ADC", cycles: 4, addr_mode: ADDRESSING_MODES::ABX, operation: Operation::ADC },
        0x7E => Instruction { name: " ROR", cycles: 7, addr_mode: ADDRESSING_MODES::ABX, operation: Operation::ROR },
        0x7F => Instruction { name: "*RRA", cycles: 7, addr_mode: ADDRESSING_MODES::ABX, operation: Operation::XXX },
        0x80 => Instruction { name: "*NOP", cycles: 2, addr_mode: ADDRESSING_MODES::IMM, operation: Operation::NOP },
        0x81 => Instruction { name: " STA", cycles: 6, addr_mode: ADDRESSING_MODES::IZX, operation: Operation::STA },
        0x82 => Instruction { name: "*NOP", cycles: 2, addr_mode: ADDRESSING_MODES::IMM, operation: Operation::NOP },
        0x83 => Instruction { name: "*SAX", cycles: 6, addr_mode: ADDRESSING_MODES::IZX, operation: Operation::XXX },
        0x84 => Instruction { name: " STY", cycles: 3, addr_mode: ADDRESSING_MODES::ZP0, operation: Operation::STY },
        0x85 => Instruction { name: " STA", cycles: 3, addr_mode: ADDRESSING_MODES::ZP0, operation: Operation::STA },
        0x86 => Instruction { name: " STX", cycles: 3, addr_mode: ADDRESSING_MODES::ZP0, operation: Operation::STX },
        0x87 => Instruction { name: "*SAX", cycles: 3, addr_mode: ADDRESSING_MODES::ZP0, operation: Operation::XXX },
        0x88 => Instruction { name: " DEY", cycles: 2, addr_mode: ADDRESSING_MODES::IMP, operation: Operation::DEY },
        0x89 => Instruction { name: "*NOP", cycles: 2, addr_mode: ADDRESSING_MODES::IMM, operation: Operation::NOP },
        0x8A => Instruction { name: " TXA", cycles: 2, addr_mode: ADDRESSING_MODES::IMP, operation: Operation::TXA },
        0x8B => Instruction { name: "*ANE", cycles: 2, addr_mode: ADDRESSING_MODES::IMM, operation: Operation::XXX },
        0x8C => Instruction { name: " STY", cycles: 4, addr_mode: ADDRESSING_MODES::ABS, operation: Operation::STY },
        0x8D => Instruction { name: " STA", cycles: 4, addr_mode: ADDRESSING_MODES::ABS, operation: Operation::STA },
        0x8E => Instruction { name: " STX", cycles: 4, addr_mode: ADDRESSING_MODES::ABS, operation: Operation::STX },
        0x8F => Instruction { name: "*SAX", cycles: 4, addr_mode: ADDRESSING_MODES::ABS, operation: Operation::XXX },
        0x90 => Instruction { name: " BCC", cycles: 2, addr_mode: ADDRESSING_MODES::REL, operation: Operation::BCC },
        0x91 => Instruction { name: " STA", cycles: 6, addr_mode: ADDRESSING_MODES::IZY, operation: Operation::STA },
        0x92 => Instruction { name: "/!\\", cycles: 2, addr_mode: ADDRESSING_MODES::IMP, operation: Operation::XXX },
        0x93 => Instruction { name: "*SHA", cycles: 6, addr_mode: ADDRESSING_MODES::IZY, operation: Operation::XXX },
        0x94 => Instruction { name: " STY", cycles: 4, addr_mode: ADDRESSING_MODES::ZPX, operation: Operation::STY },
        0x95 => Instruction { name: " STA", cycles: 4, addr_mode: ADDRESSING_MODES::ZPX, operation: Operation::STA },
        0x96 => Instruction { name: " STX", cycles: 4, addr_mode: ADDRESSING_MODES::ZPY, operation: Operation::STX },
        0x97 => Instruction { name: "*SAX", cycles: 4, addr_mode: ADDRESSING_MODES::ZPY, operation: Operation::XXX },
        0x98 => Instruction { name: " TYA", cycles: 2, addr_mode: ADDRESSING_MODES::IMP, operation: Operation::TYA },
        0x99 => Instruction { name: " STA", cycles: 5, addr_mode: ADDRESSING_MODES::ABY, operation: Operation::STA },
        0x9A => Instruction { name: " TXS", cycles: 2, addr_mode: ADDRESSING_MODES::IMP, operation: Operation::TXS },
        0x9B => Instruction { name: "*TAS", cycles: 5, addr_mode: ADDRESSING_MODES::ABY, operation: Operation::XXX },
        0x9C => Instruction { name: "*SHY", cycles: 5, addr_mode: ADDRESSING_MODES::ABX, operation: Operation::NOP },
        0x9D => Instruction { name: " STA", cycles: 5, addr_mode: ADDRESSING_MODES::ABX, operation: Operation::STA },
        0x9E => Instruction { name: "*SHX", cycles: 5, addr_mode: ADDRESSING_MODES::ABY, operation: Operation::XXX },
        0x9F => Instruction { name: "*SHA", cycles: 5, addr_mode: ADDRESSING_MODES::ABY, operation: Operation::XXX },
        0xA0 => Instruction { name: " LDY", cycles: 2, addr_mode: ADDRESSING_MODES::IMM, operation: Operation::LDY },
        0xA1 => Instruction { name: " LDA", cycles: 6, addr_mode: ADDRESSING_MODES::IZX, operation: Operation::LDA },
        0xA2 => Instruction { name: " LDX", cycles: 2, addr_mode: ADDRESSING_MODES::IMM, operation: Operation::LDX },
        0xA3 => Instruction { name: "*LAX", cycles: 6, addr_mode: ADDRESSING_MODES::IZX, operation: Operation::XXX },
        0xA4 => Instruction { name: " LDY", cycles: 3, addr_mode: ADDRESSING_MODES::ZP0, operation: Operation::LDY },
        0xA5 => Instruction { name: " LDA", cycles: 3, addr_mode: ADDRESSING_MODES::ZP0, operation: Operation::LDA },
        0xA6 => Instruction { name: " LDX", cycles: 3, addr_mode: ADDRESSING_MODES::ZP0, operation: Operation::LDX },
        0xA7 => Instruction { name: "*LAX", cycles: 3, addr_mode: ADDRESSING_MODES::ZP0, operation: Operation::XXX },
        0xA8 => Instruction { name: " TAY", cycles: 2, addr_mode: ADDRESSING_MODES::IMP, operation: Operation::TAY },
        0xA9 => Instruction { name: " LDA", cycles: 2, addr_mode: ADDRESSING_MODES::IMM, operation: Operation::LDA },
        0xAA => Instruction { name: " TAX", cycles: 2, addr_mode: ADDRESSING_MODES::IMP, operation: Operation::TAX },
        0xAB => Instruction { name: "*LXA", cycles: 2, addr_mode: ADDRESSING_MODES::IMM, operation: Operation::XXX },
        0xAC => Instruction { name: " LDY", cycles: 4, addr_mode: ADDRESSING_MODES::ABS, operation: Operation::LDY },
        0xAD => Instruction { name: " LDA", cycles: 4, addr_mode: ADDRESSING_MODES::ABS, operation: Operation::LDA },
        0xAE => Instruction { name: " LDX", cycles: 4, addr_mode: ADDRESSING_MODES::ABS, operation: Operation::LDX },
        0xAF => Instruction { name: "*LAX", cycles: 4, addr_mode: ADDRESSING_MODES::ABS, operation: Operation::XXX },
        0xB0 => Instruction { name: " BCS", cycles: 2, addr_mode: ADDRESSING_MODES::REL, operation: Operation::BCS },
        0xB1 => Instruction { name: " LDA", cycles: 5, addr_mode: ADDRESSING_MODES::IZY, operation: Operation::LDA },
        0xB2 => Instruction { name: "/!\\", cycles: 2, addr_mode: ADDRESSING_MODES::IMP, operation: Operation::XXX },
        0xB3 => Instruction { name: "*LAX", cycles: 5, addr_mode: ADDRESSING_MODES::IZY, operation: Operation::XXX },
        0xB4 => Instruction { name: " LDY", cycles: 4, addr_mode: ADDRESSING_MODES::ZPX, operation: Operation::LDY },
        0xB5 => Instruction { name: " LDA", cycles: 4, addr_mode: ADDRESSING_MODES::ZPX, operation: Operation::LDA },
        0xB6 => Instruction { name: " LDX", cycles: 4, addr_mode: ADDRESSING_MODES::ZPY, operation: Operation::LDX },
        0xB7 => Instruction { name: "*LAX", cycles: 4, addr_mode: ADDRESSING_MODES::ZPY, operation: Operation::XXX },
        0xB8 => Instruction { name: " CLV", cycles: 2, addr_mode: ADDRESSING_MODES::IMP, operation: Operation::CLV },
        0xB9 => Instruction { name: " LDA", cycles: 4, addr_mode: ADDRESSING_MODES::ABY, operation: Operation::LDA },
        0xBA => Instruction { name: " TSX", cycles: 2, addr_mode: ADDRESSING_MODES::IMP, operation: Operation::TSX },
        0xBB => Instruction { name: "*LAS", cycles: 4, addr_mode: ADDRESSING_MODES::ABY, operation: Operation::XXX },
        0xBC => Instruction { name: " LDY", cycles: 4, addr_mode: ADDRESSING_MODES::ABX, operation: Operation::LDY },
        0xBD => Instruction { name: " LDA", cycles: 4, addr_mode: ADDRESSING_MODES::ABX, operation: Operation::LDA },
        0xBE => Instruction { name: " LDX", cycles: 4, addr_mode: ADDRESSING_MODES::ABY, operation: Operation::LDX },
        0xBF => Instruction { name: "*LAX", cycles: 4, addr_mode: ADDRESSING_MODES::ABY, operation: Operation::XXX },
        0xC0 => Instruction { name: " CPY", cycles: 2, addr_mode: ADDRESSING_MODES::IMM, operation: Operation::CPY },
        0xC1 => Instruction { name: " CMP", cycles: 6, addr_mode: ADDRESSING_MODES::IZX, operation: Operation::CMP },
        0xC2 => Instruction { name: "*NOP", cycles: 2, addr_mode: ADDRESSING_MODES::IMM, operation: Operation::NOP },
        0xC3 => Instruction { name: "*DCP", cycles: 8, addr_mode: ADDRESSING_MODES::IZX, operation: Operation::XXX },
        0xC4 => Instruction { name: " CPY", cycles: 3, addr_mode: ADDRESSING_MODES::ZP0, operation: Operation::CPY },
        0xC5 => Instruction { name: " CMP", cycles: 3, addr_mode: ADDRESSING_MODES::ZP0, operation: Operation::CMP },
        0xC6 => Instruction { name: " DEC", cycles: 5, addr_mode: ADDRESSING_MODES::ZP0, operation: Operation::DEC },
        0xC7 => Instruction { name: "*DCP", cycles: 5, addr_mode: ADDRESSING_MODES::ZP0, operation: Operation::XXX },
        0xC8 => Instruction { name: " INY", cycles: 2, addr_mode: ADDRESSING_MODES::IMP, operation: Operation::INY },
        0xC9 => Instruction { name: " CMP", cycles: 2, addr_mode: ADDRESSING_MODES::IMM, operation: Operation::CMP },
        0xCA => Instruction { name: " DEX", cycles: 2, addr_mode: ADDRESSING_MODES::IMP, operation: Operation::DEX },
        0xCB => Instruction { name: "*SBX", cycles: 2, addr_mode: ADDRESSING_MODES::IMM, operation: Operation::XXX },
        0xCC => Instruction { name: " CPY", cycles: 4, addr_mode: ADDRESSING_MODES::ABS, operation: Operation::CPY },
        0xCD => Instruction { name: " CMP", cycles: 4, addr_mode: ADDRESSING_MODES::ABS, operation: Operation::CMP },
        0xCE => Instruction { name: " DEC", cycles: 6, addr_mode: ADDRESSING_MODES::ABS, operation: Operation::DEC },
        0xCF => Instruction { name: "*DCP", cycles: 6, addr_mode: ADDRESSING_MODES::ABS, operation: Operation::XXX },
        0xD0 => Instruction { name: " BNE", cycles: 2, addr_mode: ADDRESSING_MODES::REL, operation: Operation::BNE },
        0xD1 => Instruction { name: " CMP", cycles: 5, addr_mode: ADDRESSING_MODES::IZY, operation: Operation::CMP },
        0xD2 => Instruction { name: "/!\\", cycles: 2, addr_mode: ADDRESSING_MODES::IMP, operation: Operation::XXX },
        0xD3 => Instruction { name: "*DCP", cycles: 8, addr_mode: ADDRESSING_MODES::IZY, operation: Operation::XXX },
        0xD4 => Instruction { name: "*NOP", cycles: 4, addr_mode: ADDRESSING_MODES::ZPX, operation: Operation::NOP },
        0xD5 => Instruction { name: " CMP", cycles: 4, addr_mode: ADDRESSING_MODES::ZPX, operation: Operation::CMP },
        0xD6 => Instruction { name: " DEC", cycles: 6, addr_mode: ADDRESSING_MODES::ZPX, operation: Operation::DEC },
        0xD7 => Instruction { name: "*DCP", cycles: 6, addr_mode: ADDRESSING_MODES::ZPX, operation: Operation::XXX },
        0xD8 => Instruction { name: " CLD", cycles: 2, addr_mode: ADDRESSING_MODES::IMP, operation: Operation::CLD },
        0xD9 => Instruction { name: " CMP", cycles: 4, addr_mode: ADDRESSING_MODES::ABY, operation: Operation::CMP },
        0xDA => Instruction { name: "*NOP", cycles: 2, addr_mode: ADDRESSING_MODES::IMP, operation: Operation::NOP },
        0xDB => Instruction { name: "*DCP", cycles: 7, addr_mode: ADDRESSING_MODES::ABY, operation: Operation::XXX },
        0xDC => Instruction { name: "*NOP", cycles: 4, addr_mode: ADDRESSING_MODES::ABX, operation: Operation::NOP },
        0xDD => Instruction { name: " CMP", cycles: 4, addr_mode: ADDRESSING_MODES::ABX, operation: Operation::CMP },
        0xDE => Instruction { name: " DEC", cycles: 7, addr_mode: ADDRESSING_MODES::ABX, operation: Operation::DEC },
        0xDF => Instruction { name: "*DCP", cycles: 7, addr_mode: ADDRESSING_MODES::ABX, operation: Operation::XXX },
        0xE0 => Instruction { name: " CPX", cycles: 2, addr_mode: ADDRESSING_MODES::IMM, operation: Operation::CPX },
        0xE1 => Instruction { name: " SBC", cycles: 6, addr_mode: ADDRESSING_MODES::IZX, operation: Operation::SBC },
        0xE2 => Instruction { name: "*NOP", cycles: 2, addr_mode: ADDRESSING_MODES::IMM, operation: Operation::NOP },
        0xE3 => Instruction { name: "*ISC", cycles: 8, addr_mode: ADDRESSING_MODES::IZX, operation: Operation::XXX },
        0xE4 => Instruction { name: " CPX", cycles: 3, addr_mode: ADDRESSING_MODES::ZP0, operation: Operation::CPX },
        0xE5 => Instruction { name: " SBC", cycles: 3, addr_mode: ADDRESSING_MODES::ZP0, operation: Operation::SBC },
        0xE6 => Instruction { name: " INC", cycles: 5, addr_mode: ADDRESSING_MODES::ZP0, operation: Operation::INC },
        0xE7 => Instruction { name: "*ISC", cycles: 5, addr_mode: ADDRESSING_MODES::ZP0, operation: Operation::XXX },
        0xE8 => Instruction { name: " INX", cycles: 2, addr_mode: ADDRESSING_MODES::IMP, operation: Operation::INX },
        0xE9 => Instruction { name: " SBC", cycles: 2, addr_mode: ADDRESSING_MODES::IMM, operation: Operation::SBC },
        0xEA => Instruction { name: " NOP", cycles: 2, addr_mode: ADDRESSING_MODES::IMP, operation: Operation::NOP },
        0xEB => Instruction { name: "USBC", cycles: 2, addr_mode: ADDRESSING_MODES::IMM, operation: Operation::SBC },
        0xEC => Instruction { name: " CPX", cycles: 4, addr_mode: ADDRESSING_MODES::ABS, operation: Operation::CPX },
        0xED => Instruction { name: " SBC", cycles: 4, addr_mode: ADDRESSING_MODES::ABS, operation: Operation::SBC },
        0xEE => Instruction { name: " INC", cycles: 6, addr_mode: ADDRESSING_MODES::ABS, operation: Operation::INC },
        0xEF => Instruction { name: "*ISC", cycles: 6, addr_mode: ADDRESSING_MODES::ABS, operation: Operation::XXX },
        0xF0 => Instruction { name: " BEQ", cycles: 2, addr_mode: ADDRESSING_MODES::REL, operation: Operation::BEQ },
        0xF1 => Instruction { name: " SBC", cycles: 5, addr_mode: ADDRESSING_MODES::IZY, operation: Operation::SBC },
        0xF2 => Instruction { name: "/!\\", cycles: 2, addr_mode: ADDRESSING_MODES::IMP, operation: Operation::XXX },
        0xF3 => Instruction { name: "*ISC", cycles: 8, addr_mode: ADDRESSING_MODES::IZY, operation: Operation::XXX },
        0xF4 => Instruction { name: "*NOP", cycles: 4, addr_mode: ADDRESSING_MODES::ZPX, operation: Operation::NOP },
        0xF5 => Instruction { name: " SBC", cycles: 4, addr_mode: ADDRESSING_MODES::ZPX, operation: Operation::SBC },
        0xF6 => Instruction { name: " INC", cycles: 6, addr_mode: ADDRESSING_MODES::ZPX, operation: Operation::INC },
        0xF7 => Instruction { name: "*ISC", cycles: 6, addr_mode: ADDRESSING_MODES::ZPX, operation: Operation::XXX },
        0xF8 => Instruction { name: " SED", cycles: 2, addr_mode: ADDRESSING_MODES::IMP, operation: Operation::SED },
        0xF9 => Instruction { name: " SBC", cycles: 4, addr_mode: ADDRESSING_MODES::ABY, operation: Operation::SBC },
        0xFA => Instruction { name: "*NOP", cycles: 2, addr_mode: ADDRESSING_MODES::IMP, operation: Operation::NOP },
        0xFB => Instruction { name: "*ISC", cycles: 7, addr_mode: ADDRESSING_MODES::ABY, operation: Operation::XXX },
        0xFC => Instruction { name: "*NOP", cycles: 4, addr_mode: ADDRESSING_MODES::ABX, operation: Operation::NOP },
        0xFD => Instruction { name: " SBC", cycles: 4, addr_mode: ADDRESSING_MODES::ABX, operation: Operation::SBC },
        0xFE => Instruction { name: " INC", cycles: 7, addr_mode: ADDRESSING_MODES::ABX, operation: Operation::INC },
        _ => Instruction { name: "*ISC", cycles: 7, addr_mode: ADDRESSING_MODES::ABX, operation: Operation::XXX },
    }
}

/// The opcode table entry of `opcode`.
pub fn lookup(opcode: u8) -> (ins: Instruction)
    ensures
        ins == spec_lookup(opcode),
        2 <= ins.cycles <= 8,
{
    match opcode {
        0x00 => Instruction { name: " BRK", cycles: 7, addr_mode: ADDRESSING_MODES::IMP, operation: Operation::BRK },
        0x01 => Instruction { name: " ORA", cycles: 6, addr_mode: ADDRESSING_MODES::IZX, operation: Operation::ORA },
        0x02 => Instruction { name: "/!\\", cycles: 2, addr_mode: ADDRESSING_MODES::IMP, operation: Operation::XXX },
        0x03 => Instruction { name: "*SLO", cycles: 8, addr_mode: ADDRESSING_MODES::IZX, operation: Operation::XXX },
        0x04 => Instruction { name: "*NOP", cycles: 3, addr_mode: ADDRESSING_MODES::ZP0, operation: Operation::NOP },
        0x05 => Instruction { name: " ORA", cycles: 3, addr_mode: ADDRESSING_MODES::ZP0, operation: Operation::ORA },
        0x06 => Instruction { name: " ASL", cycles: 5, addr_mode: ADDRESSING_MODES::ZP0, operation: Operation::ASL },
        0x07 => Instruction { name: "*SLO", cycles: 5, addr_mode: ADDRESSING_MODES::ZP0, operation: Operation::XXX },
        0x08 => Instruction { name: " PHP", cycles: 3, addr_mode: ADDRESSING_MODES::IMP, operation: Operation::PHP },
        0x09 => Instruction { name: " ORA", cycles: 2, addr_mode: ADDRESSING_MODES::IMM, operation: Operation::ORA },
        0x0A => Instruction { name: " ASL", cycles: 2, addr_mode: ADDRESSING_MODES::ACC, operation: Operation::ASL },
        0x0B => Instruction { name: "*ANC", cycles: 2, addr_mode: ADDRESSING_MODES::IMM, operation: Operation::XXX },
        0x0C => Instruction { name: "*NOP", cycles: 4, addr_mode: ADDRESSING_MODES::ABS, operation: Operation::NOP },
        0x0D => Instruction { name: " ORA", cycles: 4, addr_mode: ADDRESSING_MODES::ABS, operation: Operation::ORA },
        0x0E => Instruction { name: " ASL", cycles: 6, addr_mode: ADDRESSING_MODES::ABS, operation: Operation::ASL },
        0x0F => Instruction { name: "*SLO", cycles: 6, addr_mode: ADDRESSING_MODES::ABS, operation: Operation::XXX },
        0x10 => Instruction { name: " BPL", cycles: 2, addr_mode: ADDRESSING_MODES::REL, operation: Operation::BPL },
        0x11 => Instruction { name: " ORA", cycles: 5, addr_mode: ADDRESSING_MODES::IZY, operation: Operation::ORA },
        0x12 => Instruction { name: "/!\\", cycles: 2, addr_mode: ADDRESSING_MODES::IMP, operation: Operation::XXX },
        0x13 => Instruction { name: "*SLO", cycles: 8, addr_mode: ADDRESSING_MODES::IZY, operation: Operation::XXX },
        0x14 => Instruction { name: "*NOP", cycles: 4, addr_mode: ADDRESSING_MODES::ZPX, operation: Operation::NOP },
        0x15 => Instruction { name: " ORA", cycles: 4, addr_mode: ADDRESSING_MODES::ZPX, operation: Operation::ORA },
        0x16 => Instruction { name: " ASL", cycles: 6, addr_mode: ADDRESSING_MODES::ZPX, operation: Operation::ASL },
        0x17 => Instruction { name: "*SLO", cycles: 6, addr_mode: ADDRESSING_MODES::ZPX, operation: Operation::XXX },
        0x18 => Instruction { name: " CLC", cycles: 2, addr_mode: ADDRESSING_MODES::IMP, operation: Operation::CLC },
        0x19 => Instruction { name: " ORA", cycles: 4, addr_mode: ADDRESSING_MODES::ABY, operation: Operation::ORA },
        0x1A => Instruction { name: "*NOP", cycles: 2, addr_mode: ADDRESSING_MODES::IMP, operation: Operation::NOP },
        0x1B => Instruction { name: "*SLO", cycles: 7, addr_mode: ADDRESSING_MODES::ABY, operation: Operation::XXX },
        0x1C => Instruction { name: "*NOP", cycles: 4, addr_mode: ADDRESSING_MODES::ABX, operation: Operation::NOP },
        0x1D => Instruction { name: " ORA", cycles: 4, addr_mode: ADDRESSING_MODES::ABX, operation: Operation::ORA },
        0x1E => Instruction { name: " ASL", cycles: 7, addr_mode: ADDRESSING_MODES::ABX, operation: Operation::ASL },
        0x1F => Instruction { name: "*SLO", cycles: 7, addr_mode: ADDRESSING_MODES::ABX, operation: Operation::XXX },
        0x20 => Instruction { name: " JSR", cycles: 6, addr_mode: ADDRESSING_MODES::ABS, operation: Operation::JSR },
        0x21 => Instruction { name: " AND", cycles: 6, addr_mode: ADDRESSING_MODES::IZX, operation: Operation::AND },
        0x22 => Instruction { name: "/!\\", cycles: 2, addr_mode: ADDRESSING_MODES::IMP, operation: Operation::XXX },
        0x23 => Instruction { name: "*RLA", cycles: 8, addr_mode: ADDRESSING_MODES::IZX, operation: Operation::XXX },
        0x24 => Instruction { name: " BIT", cycles: 3, addr_mode: ADDRESSING_MODES::ZP0, operation: Operation::BIT },
        0x25 => Instruction { name: " AND", cycles: 3, addr_mode: ADDRESSING_MODES::ZP0, operation: Operation::AND },
        0x26 => Instruction { name: " ROL", cycles: 5, addr_mode: ADDRESSING_MODES::ZP0, operation: Operation::ROL },
        0x27 => Instruction { name: "*RLA", cycles: 5, addr_mode: ADDRESSING_MODES::ZP0, operation: Operation::XXX },
        0x28 => Instruction { name: " PLP", cycles: 4, addr_mode: ADDRESSING_MODES::IMP, operation: Operation::PLP },
        0x29 => Instruction { name: " AND", cycles: 2, addr_mode: ADDRESSING_MODES::IMM, operation: Operation::AND },
        0x2A => Instruction { name: " ROL", cycles: 2, addr_mode: ADDRESSING_MODES::ACC, operation: Operation::ROL },
        0x2B => Instruction { name: "*ANC", cycles: 2, addr_mode: ADDRESSING_MODES::IMM, operation: Operation::XXX },
        0x2C => Instruction { name: " BIT", cycles: 4, addr_mode: ADDRESSING_MODES::ABS, operation: Operation::BIT },
        0x2D => Instruction { name: " AND", cycles: 4, addr_mode: ADDRESSING_MODES::ABS, operation: Operation::AND },
        0x2E => Instruction { name: " ROL", cycles: 6, addr_mode: ADDRESSING_MODES::ABS, operation: Operation::ROL },
        0x2F => Instruction { name: "*RLA", cycles: 6, addr_mode: ADDRESSING_MODES::ABS, operation: Operation::XXX },
        0x30 => Instruction { name: " BMI", cycles: 2, addr_mode: ADDRESSING_MODES::REL, operation: Operation::BMI },
        0x31 => Instruction { name: " AND", cycles: 5, addr_mode: ADDRESSING_MODES::IZY, operation: Operation::AND },
        0x32 => Instruction { name: "/!\\", cycles: 2, addr_mode: ADDRESSING_MODES::IMP, operation: Operation::XXX },
        0x33 => Instruction { name: "*RLA", cycles: 8, addr_mode: ADDRESSING_MODES::IZY, operation: Operation::XXX },
        0x34 => Instruction { name: "*NOP", cycles: 4, addr_mode: ADDRESSING_MODES::ZPX, operation: Operation::NOP },
        0x35 => Instruction { name: " AND", cycles: 4, addr_mode: ADDRESSING_MODES::ZPX, operation: Operation::AND },
        0x36 => Instruction { name: " ROL", cycles: 6, addr_mode: ADDRESSING_MODES::ZPX, operation: Operation::ROL },
        0x37 => Instruction { name: "*RLA", cycles: 6, addr_mode: ADDRESSING_MODES::ZPX, operation: Operation::XXX },
        0x38 => Instruction { name: " SEC", cycles: 2, addr_mode: ADDRESSING_MODES::IMP, operation: Operation::SEC },
        0x39 => Instruction { name: " AND", cycles: 4, addr_mode: ADDRESSING_MODES::ABY, operation: Operation::AND },
        0x3A => Instruction { name: "*NOP", cycles: 2, addr_mode: ADDRESSING_MODES::IMP, operation: Operation::NOP },
        0x3B => Instruction { name: "*RLA", cycles: 7, addr_mode: ADDRESSING_MODES::ABY, operation: Operation::XXX },
        0x3C => Instruction { name: "*NOP", cycles: 4, addr_mode: ADDRESSING_MODES::ABX, operation: Operation::NOP },
        0x3D => Instruction { name: " AND", cycles: 4, addr_mode: ADDRESSING_MODES::ABX, operation: Operation::AND },
        0x3E => Instruction { name: " ROL", cycles: 7, addr_mode: ADDRESSING_MODES::ABX, operation: Operation::ROL },
        0x3F => Instruction { name: "*RLA", cycles: 7, addr_mode: ADDRESSING_MODES::ABX, operation: Operation::XXX },
        0x40 => Instruction { name: " RTI", cycles: 6, addr_mode: ADDRESSING_MODES::IMP, operation: Operation::RTI },
        0x41 => Instruction { name: " EOR", cycles: 6, addr_mode: ADDRESSING_MODES::IZX, operation: Operation::EOR },
        0x42 => Instruction { name: "/!\\", cycles: 2, addr_mode: ADDRESSING_MODES::IMP, operation: Operation::XXX },
        0x43 => Instruction { name: "*SRE", cycles: 8, addr_mode: ADDRESSING_MODES::IZX, operation: Operation::XXX },
        0x44 => Instruction { name: "*NOP", cycles: 3, addr_mode: ADDRESSING_MODES::ZP0, operation: Operation::NOP },
        0x45 => Instruction { name: " EOR", cycles: 3, addr_mode: ADDRESSING_MODES::ZP0, operation: Operation::EOR },
        0x46 => Instruction { name: " LSR", cycles: 5, addr_mode: ADDRESSING_MODES::ZP0, operation: Operation::LSR },
        0x47 => Instruction { name: "*SRE", cycles: 5, addr_mode: ADDRESSING_MODES::ZP0, operation: Operation::XXX },
        0x48 => Instruction { name: " PHA", cycles: 3, addr_mode: ADDRESSING_MODES::IMP, operation: Operation::PHA },
        0x49 => Instruction { name: " EOR", cycles: 2, addr_mode: ADDRESSING_MODES::IMM, operation: Operation::EOR },
        0x4A => Instruction { name: " LSR", cycles: 2, addr_mode: ADDRESSING_MODES::ACC, operation: Operation::LSR },
        0x4B => Instruction { name: "*ALR", cycles: 2, addr_mode: ADDRESSING_MODES::IMM, operation: Operation::XXX },
        0x4C => Instruction { name: " JMP", cycles: 3, addr_mode: ADDRESSING_MODES::ABS, operation: Operation::JMP },
        0x4D => Instruction { name: " EOR", cycles: 4, addr_mode: ADDRESSING_MODES::ABS, operation: Operation::EOR },
        0x4E => Instruction { name: " LSR", cycles: 6, addr_mode: ADDRESSING_MODES::ABS, operation: Operation::LSR },
        0x4F => Instruction { name: "*SRE", cycles: 6, addr_mode: ADDRESSING_MODES::ABS, operation: Operation::XXX },
        0x50 => Instruction { name: " BVC", cycles: 2, addr_mode: ADDRESSING_MODES::REL, operation: Operation::BVC },
        0x51 => Instruction { name: " EOR", cycles: 5, addr_mode: ADDRESSING_MODES::IZY, operation: Operation::EOR },
        0x52 => Instruction { name: "/!\\", cycles: 2, addr_mode: ADDRESSING_MODES::IMP, operation: Operation::XXX },
        0x53 => Instruction { name: "*SRE", cycles: 8, addr_mode: ADDRESSING_MODES::IZY, operation: Operation::XXX },
        0x54 => Instruction { name: "*NOP", cycles: 4, addr_mode: ADDRESSING_MODES::ZPX, operation: Operation::NOP },
        0x55 => Instruction { name: " EOR", cycles: 4, addr_mode: ADDRESSING_MODES::ZPX, operation: Operation::EOR },
        0x56 => Instruction { name: " LSR", cycles: 6, addr_mode: ADDRESSING_MODES::ZPX, operation: Operation::LSR },
        0x57 => Instruction { name: "*SRE", cycles: 6, addr_mode: ADDRESSING_MODES::ZPX, operation: Operation::XXX },
        0x58 => Instruction { name: " CLI", cycles: 2, addr_mode: ADDRESSING_MODES::IMP, operation: Operation::CLI },
        0x59 => Instruction { name: " EOR", cycles: 4, addr_mode: ADDRESSING_MODES::ABY, operation: Operation::EOR },
        0x5A => Instruction { name: "*NOP", cycles: 2, addr_mode: ADDRESSING_MODES::IMP, operation: Operation::NOP },
        0x5B => Instruction { name: "*SRE", cycles: 7, addr_mode: ADDRESSING_MODES::ABY, operation: Operation::XXX },
        0x5C => Instruction { name: "*NOP", cycles: 4, addr_mode: ADDRESSING_MODES::ABX, operation: Operation::NOP },
        0x5D => Instruction { name: " EOR", cycles: 4, addr_mode: ADDRESSING_MODES::ABX, operation: Operation::EOR },
        0x5E => Instruction { name: " LSR", cycles: 7, addr_mode: ADDRESSING_MODES::ABX, operation: Operation::LSR },
        0x5F => Instruction { name: "*SRE", cycles: 7, addr_mode: ADDRESSING_MODES::ABX, operation: Operation::XXX },
        0x60 => Instruction { name: " RTS", cycles: 6, addr_mode: ADDRESSING_MODES::IMP, operation: Operation::RTS },
        0x61 => Instruction { name: " ADC", cycles: 6, addr_mode: ADDRESSING_MODES::IZX, operation: Operation::ADC },
        0x62 => Instruction { name: "/!\\", cycles: 2, addr_mode: ADDRESSING_MODES::IMP, operation: Operation::XXX },
        0x63 => Instruction { name: "*RRA", cycles: 8, addr_mode: ADDRESSING_MODES::IZX, operation: Operation::XXX },
        0x64 => Instruction { name: "*NOP", cycles: 3, addr_mode: ADDRESSING_MODES::ZP0, operation: Operation::NOP },
        0x65 => Instruction { name: " ADC", cycles: 3, addr_mode: ADDRESSING_MODES::ZP0, operation: Operation::ADC },
        0x66 => Instruction { name: " ROR", cycles: 5, addr_mode: ADDRESSING_MODES::ZP0, operation: Operation::ROR },
        0x67 => Instruction { name: "*RRA", cycles: 5, addr_mode: ADDRESSING_MODES::ZP0, operation: Operation::XXX },
        0x68 => Instruction { name: " PLA", cycles: 4, addr_mode: ADDRESSING_MODES::IMP, operation: Operation::PLA },
        0x69 => Instruction { name: " ADC", cycles: 2, addr_mode: ADDRESSING_MODES::IMM, operation: Operation::ADC },
        0x6A => Instruction { name: " ROR", cycles: 2, addr_mode: ADDRESSING_MODES::ACC, operation: Operation::ROR },
        0x6B => Instruction { name: "*ARR", cycles: 2, addr_mode: ADDRESSING_MODES::IMM, operation: Operation::XXX },
        0x6C => Instruction { name: " JMP", cycles: 5, addr_mode: ADDRESSING_MODES::IND, operation: Operation::JMP },
        0x6D => Instruction { name: " ADC", cycles: 4, addr_mode: ADDRESSING_MODES::ABS, operation: Operation::ADC },
        0x6E => Instruction { name: " ROR", cycles: 6, addr_mode: ADDRESSING_MODES::ABS, operation: Operation::ROR },
        0x6F => Instruction { name: "*RRA", cycles: 6, addr_mode: ADDRESSING_MODES::ABS, operation: Operation::XXX },
        0x70 => Instruction { name: " BVS", cycles: 2, addr_mode: ADDRESSING_MODES::REL, operation: Operation::BVS },
        0x71 => Instruction { name: " ADC", cycles: 5, addr_mode: ADDRESSING_MODES::IZY, operation: Operation::ADC },
        0x72 => Instruction { name: "/!\\", cycles: 2, addr_mode: ADDRESSING_MODES::IMP, operation: Operation::XXX },
        0x73 => Instruction { name: "*RRA", cycles: 8, addr_mode: ADDRESSING_MODES::IZY, operation: Operation::XXX },
        0x74 => Instruction { name: "*NOP", cycles: 4, addr_mode: ADDRESSING_MODES::ZPX, operation: Operation::NOP },
        0x75 => Instruction { name: " ADC", cycles: 4, addr_mode: ADDRESSING_MODES::ZPX, operation: Operation::ADC },
        0x76 => Instruction { name: " ROR", cycles: 6, addr_mode: ADDRESSING_MODES::ZPX, operation: Operation::ROR },
        0x77 => Instruction { name: "*RRA", cycles: 6, addr_mode: ADDRESSING_MODES::ZPX, operation: Operation::XXX },
        0x78 => Instruction { name: " SEI", cycles: 2, addr_mode: ADDRESSING_MODES::IMP, operation: Operation::SEI },
        0x79 => Instruction { name: " ADC", cycles: 4, addr_mode: ADDRESSING_MODES::ABY, operation: Operation::ADC },
        0x7A => Instruction { name: "*NOP", cycles: 2, addr_mode: ADDRESSING_MODES::IMP, operation: Operation::NOP },
        0x7B => Instruction { name: "*RRA", cycles: 7, addr_mode: ADDRESSING_MODES::ABY, operation: Operation::XXX },
        0x7C => Instruction { name: "*NOP", cycles: 4, addr_mode: ADDRESSING_MODES::ABX, operation: Operation::NOP },
        0x7D => Instruction { name: " ADC", cycles: 4, addr_mode: ADDRESSING_MODES::ABX, operation: Operation::ADC },
        0x7E => Instruction { name: " ROR", cycles: 7, addr_mode: ADDRESSING_MODES::ABX, operation: Operation::ROR },
        0x7F => Instruction { name: "*RRA", cycles: 7, addr_mode: ADDRESSING_MODES::ABX, operation: Operation::XXX },
        0x80 => Instruction { name: "*NOP", cycles: 2, addr_mode: ADDRESSING_MODES::IMM, operation: Operation::NOP },
        0x81 => Instruction { name: " STA", cycles: 6, addr_mode: ADDRESSING_MODES::IZX, operation: Operation::STA },
        0x82 => Instruction { name: "*NOP", cycles: 2, addr_mode: ADDRESSING_MODES::IMM, operation: Operation::NOP },
        0x83 => Instruction { name: "*SAX", cycles: 6, addr_mode: ADDRESSING_MODES::IZX, operation: Operation::XXX },
        0x84 => Instruction { name: " STY", cycles: 3, addr_mode: ADDRESSING_MODES::ZP0, operation: Operation::STY },
        0x85 => Instruction { name: " STA", cycles: 3, addr_mode: ADDRESSING_MODES::ZP0, operation: Operation::STA },
        0x86 => Instruction { name: " STX", cycles: 3, addr_mode: ADDRESSING_MODES::ZP0, operation: Operation::STX },
        0x87 => Instruction { name: "*SAX", cycles: 3, addr_mode: ADDRESSING_MODES::ZP0, operation: Operation::XXX },
        0x88 => Instruction { name: " DEY", cycles: 2, addr_mode: ADDRESSING_MODES::IMP, operation: Operation::DEY },
        0x89 => Instruction { name: "*NOP", cycles: 2, addr_mode: ADDRESSING_MODES::IMM, operation: Operation::NOP },
        0x8A => Instruction { name: " TXA", cycles: 2, addr_mode: ADDRESSING_MODES::IMP, operation: Operation::TXA },
        0x8B => Instruction { name: "*ANE", cycles: 2, addr_mode: ADDRESSING_MODES::IMM, operation: Operation::XXX },
        0x8C => Instruction { name: " STY", cycles: 4, addr_mode: ADDRESSING_MODES::ABS, operation: Operation::STY },
        0x8D => Instruction { name: " STA", cycles: 4, addr_mode: ADDRESSING_MODES::ABS, operation: Operation::STA },
        0x8E => Instruction { name: " STX", cycles: 4, addr_mode: ADDRESSING_MODES::ABS, operation: Operation::STX },
        0x8F => Instruction { name: "*SAX", cycles: 4, addr_mode: ADDRESSING_MODES::ABS, operation: Operation::XXX },
        0x90 => Instruction { name: " BCC", cycles: 2, addr_mode: ADDRESSING_MODES::REL, operation: Operation::BCC },
        0x91 => Instruction { name: " STA", cycles: 6, addr_mode: ADDRESSING_MODES::IZY, operation: Operation::STA },
        0x92 => Instruction { name: "/!\\", cycles: 2, addr_mode: ADDRESSING_MODES::IMP, operation: Operation::XXX },
        0x93 => Instruction { name: "*SHA", cycles: 6, addr_mode: ADDRESSING_MODES::IZY, operation: Operation::XXX },
        0x94 => Instruction { name: " STY", cycles: 4, addr_mode: ADDRESSING_MODES::ZPX, operation: Operation::STY },
        0x95 => Instruction { name: " STA", cycles: 4, addr_mode: ADDRESSING_MODES::ZPX, operation: Operation::STA },
        0x96 => Instruction { name: " STX", cycles: 4, addr_mode: ADDRESSING_MODES::ZPY, operation: Operation::STX },
        0x97 => Instruction { name: "*SAX", cycles: 4, addr_mode: ADDRESSING_MODES::ZPY, operation: Operation::XXX },
        0x98 => Instruction { name: " TYA", cycles: 2, addr_mode: ADDRESSING_MODES::IMP, operation: Operation::TYA },
        0x99 => Instruction { name: " STA", cycles: 5, addr_mode: ADDRESSING_MODES::ABY, operation: Operation::STA },
        0x9A => Instruction { name: " TXS", cycles: 2, addr_mode: ADDRESSING_MODES::IMP, operation: Operation::TXS },
        0x9B => Instruction { name: "*TAS", cycles: 5, addr_mode: ADDRESSING_MODES::ABY, operation: Operation::XXX },
        0x9C => Instruction { name: "*SHY", cycles: 5, addr_mode: ADDRESSING_MODES::ABX, operation: Operation::NOP },
        0x9D => Instruction { name: " STA", cycles: 5, addr_mode: ADDRESSING_MODES::ABX, operation: Operation::STA },
        0x9E => Instruction { name: "*SHX", cycles: 5, addr_mode: ADDRESSING_MODES::ABY, operation: Operation::XXX },
        0x9F => Instruction { name: "*SHA", cycles: 5, addr_mode: ADDRESSING_MODES::ABY, operation: Operation::XXX },
        0xA0 => Instruction { name: " LDY", cycles: 2, addr_mode: ADDRESSING_MODES::IMM, operation: Operation::LDY },
        0xA1 => Instruction { name: " LDA", cycles: 6, addr_mode: ADDRESSING_MODES::IZX, operation: Operation::LDA },
        0xA2 => Instruction { name: " LDX", cycles: 2, addr_mode: ADDRESSING_MODES::IMM, operation: Operation::LDX },
        0xA3 => Instruction { name: "*LAX", cycles: 6, addr_mode: ADDRESSING_MODES::IZX, operation: Operation::XXX },
        0xA4 => Instruction { name: " LDY", cycles: 3, addr_mode: ADDRESSING_MODES::ZP0, operation: Operation::LDY },
        0xA5 => Instruction { name: " LDA", cycles: 3, addr_mode: ADDRESSING_MODES::ZP0, operation: Operation::LDA },
        0xA6 => Instruction { name: " LDX", cycles: 3, addr_mode: ADDRESSING_MODES::ZP0, operation: Operation::LDX },
        0xA7 => Instruction { name: "*LAX", cycles: 3, addr_mode: ADDRESSING_MODES::ZP0, operation: Operation::XXX },
        0xA8 => Instruction { name: " TAY", cycles: 2, addr_mode: ADDRESSING_MODES::IMP, operation: Operation::TAY },
        0xA9 => Instruction { name: " LDA", cycles: 2, addr_mode: ADDRESSING_MODES::IMM, operation: Operation::LDA },
        0xAA => Instruction { name: " TAX", cycles: 2, addr_mode: ADDRESSING_MODES::IMP, operation: Operation::TAX },
        0xAB => Instruction { name: "*LXA", cycles: 2, addr_mode: ADDRESSING_MODES::IMM, operation: Operation::XXX },
        0xAC => Instruction { name: " LDY", cycles: 4, addr_mode: ADDRESSING_MODES::ABS, operation: Operation::LDY },
        0xAD => Instruction { name: " LDA", cycles: 4, addr_mode: ADDRESSING_MODES::ABS, operation: Operation::LDA },
        0xAE => Instruction { name: " LDX", cycles: 4, addr_mode: ADDRESSING_MODES::ABS, operation: Operation::LDX },
        0xAF => Instruction { name: "*LAX", cycles: 4, addr_mode: ADDRESSING_MODES::ABS, operation: Operation::XXX },
        0xB0 => Instruction { name: " BCS", cycles: 2, addr_mode: ADDRESSING_MODES::REL, operation: Operation::BCS },
        0xB1 => Instruction { name: " LDA", cycles: 5, addr_mode: ADDRESSING_MODES::IZY, operation: Operation::LDA },
        0xB2 => Instruction { name: "/!\\", cycles: 2, addr_mode: ADDRESSING_MODES::IMP, operation: Operation::XXX },
        0xB3 => Instruction { name: "*LAX", cycles: 5, addr_mode: ADDRESSING_MODES::IZY, operation: Operation::XXX },
        0xB4 => Instruction { name: " LDY", cycles: 4, addr_mode: ADDRESSING_MODES::ZPX, operation: Operation::LDY },
        0xB5 => Instruction { name: " LDA", cycles: 4, addr_mode: ADDRESSING_MODES::ZPX, operation: Operation::LDA },
        0xB6 => Instruction { name: " LDX", cycles: 4, addr_mode: ADDRESSING_MODES::ZPY, operation: Operation::LDX },
        0xB7 => Instruction { name: "*LAX", cycles: 4, addr_mode: ADDRESSING_MODES::ZPY, operation: Operation::XXX },
        0xB8 => Instruction { name: " CLV", cycles: 2, addr_mode: ADDRESSING_MODES::IMP, operation: Operation::CLV },
        0xB9 => Instruction { name: " LDA", cycles: 4, addr_mode: ADDRESSING_MODES::ABY, operation: Operation::LDA },
        0xBA => Instruction { name: " TSX", cycles: 2, addr_mode: ADDRESSING_MODES::IMP, operation: Operation::TSX },
        0xBB => Instruction { name: "*LAS", cycles: 4, addr_mode: ADDRESSING_MODES::ABY, operation: Operation::XXX },
        0xBC => Instruction { name: " LDY", cycles: 4, addr_mode: ADDRESSING_MODES::ABX, operation: Operation::LDY },
        0xBD => Instruction { name: " LDA", cycles: 4, addr_mode: ADDRESSING_MODES::ABX, operation: Operation::LDA },
        0xBE => Instruction { name: " LDX", cycles: 4, addr_mode: ADDRESSING_MODES::ABY, operation: Operation::LDX },
        0xBF => Instruction { name: "*LAX", cycles: 4, addr_mode: ADDRESSING_MODES::ABY, operation: Operation::XXX },
        0xC0 => Instruction { name: " CPY", cycles: 2, addr_mode: ADDRESSING_MODES::IMM, operation: Operation::CPY },
        0xC1 => Instruction { name: " CMP", cycles: 6, addr_mode: ADDRESSING_MODES::IZX, operation: Operation::CMP },
        0xC2 => Instruction { name: "*NOP", cycles: 2, addr_mode: ADDRESSING_MODES::IMM, operation: Operation::NOP },
        0xC3 => Instruction { name: "*DCP", cycles: 8, addr_mode: ADDRESSING_MODES::IZX, operation: Operation::XXX },
        0xC4 => Instruction { name: " CPY", cycles: 3, addr_mode: ADDRESSING_MODES::ZP0, operation: Operation::CPY },
        0xC5 => Instruction { name: " CMP", cycles: 3, addr_mode: ADDRESSING_MODES::ZP0, operation: Operation::CMP },
        0xC6 => Instruction { name: " DEC", cycles: 5, addr_mode: ADDRESSING_MODES::ZP0, operation: Operation::DEC },
        0xC7 => Instruction { name: "*DCP", cycles: 5, addr_mode: ADDRESSING_MODES::ZP0, operation: Operation::XXX },
        0xC8 => Instruction { name: " INY", cycles: 2, addr_mode: ADDRESSING_MODES::IMP, operation: Operation::INY },
        0xC9 => Instruction { name: " CMP", cycles: 2, addr_mode: ADDRESSING_MODES::IMM, operation: Operation::CMP },
        0xCA => Instruction { name: " DEX", cycles: 2, addr_mode: ADDRESSING_MODES::IMP, operation: Operation::DEX },
        0xCB => Instruction { name: "*SBX", cycles: 2, addr_mode: ADDRESSING_MODES::IMM, operation: Operation::XXX },
        0xCC => Instruction { name: " CPY", cycles: 4, addr_mode: ADDRESSING_MODES::ABS, operation: Operation::CPY },
        0xCD => Instruction { name: " CMP", cycles: 4, addr_mode: ADDRESSING_MODES::ABS, operation: Operation::CMP },
        0xCE => Instruction { name: " DEC", cycles: 6, addr_mode: ADDRESSING_MODES::ABS, operation: Operation::DEC },
        0xCF => Instruction { name: "*DCP", cycles: 6, addr_mode: ADDRESSING_MODES::ABS, operation: Operation::XXX },
        0xD0 => Instruction { name: " BNE", cycles: 2, addr_mode: ADDRESSING_MODES::REL, operation: Operation::BNE },
        0xD1 => Instruction { name: " CMP", cycles: 5, addr_mode: ADDRESSING_MODES::IZY, operation: Operation::CMP },
        0xD2 => Instruction { name: "/!\\", cycles: 2, addr_mode: ADDRESSING_MODES::IMP, operation: Operation::XXX },
        0xD3 => Instruction { name: "*DCP", cycles: 8, addr_mode: ADDRESSING_MODES::IZY, operation: Operation::XXX },
        0xD4 => Instruction { name: "*NOP", cycles: 4, addr_mode: ADDRESSING_MODES::ZPX, operation: Operation::NOP },
        0xD5 => Instruction { name: " CMP", cycles: 4, addr_mode: ADDRESSING_MODES::ZPX, operation: Operation::CMP },
        0xD6 => Instruction { name: " DEC", cycles: 6, addr_mode: ADDRESSING_MODES::ZPX, operation: Operation::DEC },
        0xD7 => Instruction { name: "*DCP", cycles: 6, addr_mode: ADDRESSING_MODES::ZPX, operation: Operation::XXX },
        0xD8 => Instruction { name: " CLD", cycles: 2, addr_mode: ADDRESSING_MODES::IMP, operation: Operation::CLD },
        0xD9 => Instruction { name: " CMP", cycles: 4, addr_mode: ADDRESSING_MODES::ABY, operation: Operation::CMP },
        0xDA => Instruction { name: "*NOP", cycles: 2, addr_mode: ADDRESSING_MODES::IMP, operation: Operation::NOP },
        0xDB => Instruction { name: "*DCP", cycles: 7, addr_mode: ADDRESSING_MODES::ABY, operation: Operation::XXX },
        0xDC => Instruction { name: "*NOP", cycles: 4, addr_mode: ADDRESSING_MODES::ABX, operation: Operation::NOP },
        0xDD => Instruction { name: " CMP", cycles: 4, addr_mode: ADDRESSING_MODES::ABX, operation: Operation::CMP },
        0xDE => Instruction { name: " DEC", cycles: 7, addr_mode: ADDRESSING_MODES::ABX, operation: Operation::DEC },
        0xDF => Instruction { name: "*DCP", cycles: 7, addr_mode: ADDRESSING_MODES::ABX, operation: Operation::XXX },
        0xE0 => Instruction { name: " CPX", cycles: 2, addr_mode: ADDRESSING_MODES::IMM, operation: Operation::CPX },
        0xE1 => Instruction { name: " SBC", cycles: 6, addr_mode: ADDRESSING_MODES::IZX, operation: Operation::SBC },
        0xE2 => Instruction { name: "*NOP", cycles: 2, addr_mode: ADDRESSING_MODES::IMM, operation: Operation::NOP },
        0xE3 => Instruction { name: "*ISC", cycles: 8, addr_mode: ADDRESSING_MODES::IZX, operation: Operation::XXX },
        0xE4 => Instruction { name: " CPX", cycles: 3, addr_mode: ADDRESSING_MODES::ZP0, operation: Operation::CPX },
        0xE5 => Instruction { name: " SBC", cycles: 3, addr_mode: ADDRESSING_MODES::ZP0, operation: Operation::SBC },
        0xE6 => Instruction { name: " INC", cycles: 5, addr_mode: ADDRESSING_MODES::ZP0, operation: Operation::INC },
        0xE7 => Instruction { name: "*ISC", cycles: 5, addr_mode: ADDRESSING_MODES::ZP0, operation: Operation::XXX },
        0xE8 => Instruction { name: " INX", cycles: 2, addr_mode: ADDRESSING_MODES::IMP, operation: Operation::INX },
        0xE9 => Instruction { name: " SBC", cycles: 2, addr_mode: ADDRESSING_MODES::IMM, operation: Operation::SBC },
        0xEA => Instruction { name: " NOP", cycles: 2, addr_mode: ADDRESSING_MODES::IMP, operation: Operation::NOP },
        0xEB => Instruction { name: "USBC", cycles: 2, addr_mode: ADDRESSING_MODES::IMM, operation: Operation::SBC },
        0xEC => Instruction { name: " CPX", cycles: 4, addr_mode: ADDRESSING_MODES::ABS, operation: Operation::CPX },
        0xED => Instruction { name: " SBC", cycles: 4, addr_mode: ADDRESSING_MODES::ABS, operation: Operation::SBC },
        0xEE => Instruction { name: " INC", cycles: 6, addr_mode: ADDRESSING_MODES::ABS, operation: Operation::INC },
        0xEF => Instruction { name: "*ISC", cycles: 6, addr_mode: ADDRESSING_MODES::ABS, operation: Operation::XXX },
        0xF0 => Instruction { name: " BEQ", cycles: 2, addr_mode: ADDRESSING_MODES::REL, operation: Operation::BEQ },
        0xF1 => Instruction { name: " SBC", cycles: 5, addr_mode: ADDRESSING_MODES::IZY, operation: Operation::SBC },
        0xF2 => Instruction { name: "/!\\", cycles: 2, addr_mode: ADDRESSING_MODES::IMP, operation: Operation::XXX },
        0xF3 => Instruction { name: "*ISC", cycles: 8, addr_mode: ADDRESSING_MODES::IZY, operation: Operation::XXX },
        0xF4 => Instruction { name: "*NOP", cycles: 4, addr_mode: ADDRESSING_MODES::ZPX, operation: Operation::NOP },
        0xF5 => Instruction { name: " SBC", cycles: 4, addr_mode: ADDRESSING_MODES::ZPX, operation: Operation::SBC },
        0xF6 => Instruction { name: " INC", cycles: 6, addr_mode: ADDRESSING_MODES::ZPX, operation: Operation::INC },
        0xF7 => Instruction { name: "*ISC", cycles: 6, addr_mode: ADDRESSING_MODES::ZPX, operation: Operation::XXX },
        0xF8 => Instruction { name: " SED", cycles: 2, addr_mode: ADDRESSING_MODES::IMP, operation: Operation::SED },
        0xF9 => Instruction { name: " SBC", cycles: 4, addr_mode: ADDRESSING_MODES::ABY, operation: Operation::SBC },
        0xFA => Instruction { name: "*NOP", cycles: 2, addr_mode: ADDRESSING_MODES::IMP, operation: Operation::NOP },
        0xFB => Instruction { name: "*ISC", cycles: 7, addr_mode: ADDRESSING_MODES::ABY, operation: Operation::XXX },
        0xFC => Instruction { name: "*NOP", cycles: 4, addr_mode: ADDRESSING_MODES::ABX, operation: Operation::NOP },
        0xFD => Instruction { name: " SBC", cycles: 4, addr_mode: ADDRESSING_MODES::ABX, operation: Operation::SBC },
        0xFE => Instruction { name: " INC", cycles: 7, addr_mode: ADDRESSING_MODES::ABX, operation: Operation::INC },
        _ => Instruction { name: "*ISC", cycles: 7, addr_mode: ADDRESSING_MODES::ABX, operation: Operation::XXX },
    }
}


/// Register file and internal latches of the 6502 CPU.
#[derive(Debug, Copy, Clone, PartialEq, Eq, Structural)]
pub struct Component6502 {
    pub a: u8,
    pub x: u8,
    pub y: u8,
    pub sp: u8,
    pub pc: u16,
    pub status: u8,
    pub opcode: u8,
    pub fetched: u8,
    /// Absolute address calculated from the addressing mode which will be
    /// used to read/write data during the instruction execution
    pub addr_abs: u16,
    /// Only changed by the relative addressing mode
    pub addr_rel: u16,
    pub cycles: u8,
}

/// The address of stack slot `sp`.
pub open spec fn stack_addr(sp: u8) -> u16 {
    (0x0100 + sp) as u16
}

/// The state after a write, as a pair with the unchanged CPU.
pub open spec fn bus_write<B: CpuBus>(s: B::State, addr: u16, data: u8) -> B::State {
    B::after_write(s, addr, data)
}

/// The 16-bit word made of `lo` and `hi`.
pub open spec fn word(lo: u8, hi: u8) -> u16 {
    (hi as int * 256 + lo as int) as u16
}

impl Component6502 {
    /// The CPU as it is at power-on.
    pub open spec fn spec_new() -> Component6502 {
        Component6502 {
            a: 0,
            x: 0,
            y: 0,
            sp: 0xFD,
            pc: 0xC000,
            status: 0x20,
            opcode: 0,
            fetched: 0,
            addr_abs: 0,
            addr_rel: 0,
            cycles: 0,
        }
    }

    /// The CPU as it is at power-on: stack pointer at `0xFD`, program
    /// counter at `0xC000`, only the unused flag set.
    pub fn new() -> (cpu: Self)
        ensures
            cpu == Self::spec_new(),
    {
        Self {
            a: 0,
            x: 0,
            y: 0,
            sp: 0xFD,
            pc: 0xC000,
            status: 0x20,  // U flag is always set
            opcode: 0,
            fetched: 0,
            addr_abs: 0,
            addr_rel: 0,
            cycles: 0,
        }
    }

    /// The opcode table entry of `opcode` (the table is the same for every CPU).
    pub fn instruction(&self, opcode: u8) -> (ins: Instruction)
        ensures
            ins == spec_lookup(opcode),
    {
        lookup(opcode)
    }

    /// Reads one byte from the bus.
    pub fn read<B: CpuBus>(&self, addr: u16, bus: &mut B) -> (data: u8)
        requires
            old(bus).inv(),
        ensures
            final(bus).inv(),
            (data, final(bus).state()) == bus_read::<B>(old(bus).state(), addr),
    {
        bus.read(addr)
    }

    /// Writes one byte to the bus.
    pub fn write<B: CpuBus>(&mut self, addr: u16, data: u8, bus: &mut B)
        requires
            old(bus).inv(),
        ensures
            final(bus).inv(),
            *final(self) == *old(self),
            final(bus).state() == bus_write::<B>(old(bus).state(), addr, data),
    {
        bus.write(addr, data)
    }

    /// Whether `flag` is set in the status register.
    pub fn get_flag(&self, flag: Flags) -> (r: bool)
        ensures
            r == flag_set(self.status, flag),
    {
        self.status & flag.mask() > 0
    }

    /// Sets or clears `flag` in the status register.
    pub fn set_flag(&mut self, flag: Flags, value: bool)
        ensures
            *final(self) == (Component6502 {
                status: with_flag(old(self).status, flag, value),
                ..*old(self)
            }),
    {
        if value {
            self.status = self.status | flag.mask();
        } else {
            self.status = self.status & !flag.mask();
        }
    }

    /// Loads the operand of the current instruction into `fetched`, unless
    /// the addressing mode already provides it (accumulator or implied).
    pub fn fetch<B: CpuBus>(&mut self, bus: &mut B) -> (r: u8)
        requires
            old(bus).inv(),
        ensures
            final(bus).inv(),
            (*final(self), final(bus).state()) == spec_fetch::<B>(*old(self), old(bus).state()),
            r == final(self).fetched,
    {
        let mode = lookup(self.opcode).addr_mode;
        if mode != ADDRESSING_MODES::ACC && mode != ADDRESSING_MODES::IMP {
            self.fetched = self.read(self.addr_abs, bus);
        }
        self.fetched
    }
}

/// The operand of the current instruction: read from `addr_abs`, unless the
/// addressing mode is accumulator or implied.
pub open spec fn spec_fetch<B: CpuBus>(c: Component6502, s: B::State) -> (Component6502, B::State) {
    let mode = spec_lookup(c.opcode).addr_mode;
    if mode != ADDRESSING_MODES::ACC && mode != ADDRESSING_MODES::IMP {
        let (v, s1) = bus_read::<B>(s, c.addr_abs);
        (Component6502 { fetched: v, ..c }, s1)
    } else {
        (c, s)
    }
}

/// The effect of the addressing mode of an opcode on the cycle counter:
/// at most one extra cycle.
pub proof fn lemma_addressing_cycles<B: CpuBus>(mode: ADDRESSING_MODES, c: Component6502, s: B::State)
    requires
        c.cycles < 255,
    ensures
        spec_addressing::<B>(mode, c, s).0.cycles == c.cycles
            || spec_addressing::<B>(mode, c, s).0.cycles == c.cycles + 1,
{
}

/// The effect of an operation on the cycle counter: at most two extra cycles.
pub proof fn lemma_operation_cycles<B: CpuBus>(op: Operation, c: Component6502, s: B::State)
    requires
        c.cycles <= 253,
    ensures
        c.cycles <= spec_operation::<B>(op, c, s).0.cycles <= c.cycles + 2,
{
}

/// One clock cycle: when the previous instruction has used up its cycles,
/// the next opcode is read and the whole instruction runs at once; then the
/// cycle counter counts down.
pub open spec fn spec_tick<B: CpuBus>(c: Component6502, s: B::State) -> (Component6502, B::State) {
    if c.cycles == 0 {
        let (opcode, s1) = bus_read::<B>(s, c.pc);
        let ins = spec_lookup(opcode);
        let c1 = Component6502 {
            opcode: opcode,
            pc: c.pc.wrapping_add(1),
            cycles: ins.cycles,
            ..c
        };
        let (c2, s2) = spec_addressing::<B>(ins.addr_mode, c1, s1);
        let (c3, s3) = spec_operation::<B>(ins.operation, c2, s2);
        (Component6502 { cycles: (c3.cycles - 1) as u8, ..c3 }, s3)
    } else {
        (Component6502 { cycles: (c.cycles - 1) as u8, ..c }, s)
    }
}

/// The reset signal: registers cleared, stack pointer at `0xFD`, program
/// counter from the vector at `0xFFFC`, eight cycles of delay.
pub open spec fn spec_reset<B: CpuBus>(c: Component6502, s: B::State) -> (Component6502, B::State) {
    let (lo, s1) = bus_read::<B>(s, 0xFFFC);
    let (hi, s2) = bus_read::<B>(s1, 0xFFFD);
    (
        Component6502 {
            a: 0,
            x: 0,
            y: 0,
            sp: 0xFD,
            pc: word(lo, hi),
            status: Flags::U.spec_mask(),
            fetched: 0,
            addr_abs: 0,
            addr_rel: 0,
            cycles: 8,
            ..c
        },
        s2,
    )
}

/// Pushes the program counter and the status, then jumps through `vector`.
pub open spec fn spec_interrupt<B: CpuBus>(
    c: Component6502,
    s: B::State,
    status: u8,
    vector: u16,
    cycles: u8,
) -> (Component6502, B::State) {
    let s1 = bus_write::<B>(s, stack_addr(c.sp), (c.pc / 256) as u8);
    let sp1 = c.sp.wrapping_sub(1);
    let s2 = bus_write::<B>(s1, stack_addr(sp1), (c.pc % 256) as u8);
    let sp2 = sp1.wrapping_sub(1);
    let s3 = bus_write::<B>(s2, stack_addr(sp2), status);
    let sp3 = sp2.wrapping_sub(1);
    let (lo, s4) = bus_read::<B>(s3, vector);
    let (hi, s5) = bus_read::<B>(s4, (vector + 1) as u16);
    (Component6502 { sp: sp3, status: status, pc: word(lo, hi), cycles: cycles, ..c }, s5)
}

/// The non-maskable interrupt: B cleared and I set in the pushed status,
/// vector at `0xFFFA`, eight cycles.
pub open spec fn spec_nmi<B: CpuBus>(c: Component6502, s: B::State) -> (Component6502, B::State) {
    spec_interrupt::<B>(
        c,
        s,
        with_flag(with_flag(c.status, Flags::B, false), Flags::I, true),
        0xFFFA,
        8,
    )
}

/// The interrupt request: ignored while I is set; otherwise B cleared, U
/// and I set in the pushed status, vector at `0xFFFE`, seven cycles.
pub open spec fn spec_irq<B: CpuBus>(c: Component6502, s: B::State) -> (Component6502, B::State) {
    if flag_set(c.status, Flags::I) {
        (c, s)
    } else {
        spec_interrupt::<B>(
            c,
            s,
            with_flag(
                with_flag(with_flag(c.status, Flags::B, false), Flags::U, true),
                Flags::I,
                true,
            ),
            0xFFFE,
            7,
        )
    }
}

impl Component6502 {
    /// Handle clock cycles
    pub fn tick<B: CpuBus>(&mut self, bus: &mut B)
        requires
            old(bus).inv(),
        ensures
            final(bus).inv(),
            (*final(self), final(bus).state()) == spec_tick::<B>(*old(self), old(bus).state()),
    {
        if self.cycles == 0 {
            self.opcode = self.read(self.pc, bus);

            self.pc = self.pc.wrapping_add(1);
            let ins = lookup(self.opcode);
            self.cycles = ins.cycles;

            proof {
                lemma_addressing_cycles::<B>(ins.addr_mode, *self, bus.state());
            }
            self.run_addressing_mode(ins.addr_mode, bus);
            proof {
                lemma_operation_cycles::<B>(ins.operation, *self, bus.state());
            }
            self.run_operation(ins.operation, bus);
        }
        self.cycles -= 1;
    }

    /// Reset signal
    pub fn reset<B: CpuBus>(&mut self, bus: &mut B)
        requires
            old(bus).inv(),
        ensures
            final(bus).inv(),
            (*final(self), final(bus).state()) == spec_reset::<B>(*old(self), old(bus).state()),
    {
        // Reset registers
        self.a = 0;
        self.x = 0;
        self.y = 0;
        // Reset SP
        self.sp = 0xFD;

        // Reset PC address is hardcoded at 0xFFFC and 0xFFFD
        let lo = self.read(0xFFFC, bus);
        let hi = self.read(0xFFFD, bus);
        proof {
            lemma_word(lo, hi);
        }
        self.pc = ((hi as u16) << 8) | lo as u16;

        // Reset Flags
        self.status = Flags::U.mask();

        // Reset custom variables
        self.fetched = 0;
        self.addr_abs = 0;
        self.addr_rel = 0;

        // Manually set cycles because reset takes time
        self.cycles = 8;
    }

    /// Pushes the program counter and `status`, then jumps through `vector`.
    fn interrupt<B: CpuBus>(&mut self, status: u8, vector: u16, cycles: u8, bus: &mut B)
        requires
            old(bus).inv(),
            vector < 0xFFFF,
        ensures
            final(bus).inv(),
            (*final(self), final(bus).state()) == spec_interrupt::<B>(
                *old(self),
                old(bus).state(),
                status,
                vector,
                cycles,
            ),
    {
        // Push PC to stack (16 bits to write)
        self.write(STACK_ADDRESS + self.sp as u16, (self.pc / 256) as u8, bus);
        self.sp = self.sp.wrapping_sub(1);
        self.write(STACK_ADDRESS + self.sp as u16, (self.pc % 256) as u8, bus);
        self.sp = self.sp.wrapping_sub(1);

        // Push Flags to stack
        self.status = status;
        self.write(STACK_ADDRESS + self.sp as u16, self.status, bus);
        self.sp = self.sp.wrapping_sub(1);

        // New PC address to handle the interrupt
        let lo = self.read(vector, bus);
        let hi = self.read(vector + 1, bus);
        proof {
            lemma_word(lo, hi);
        }
        self.pc = ((hi as u16) << 8) | lo as u16;

        // Manually set cycles because the interrupt takes time
        self.cycles = cycles;
    }

    /// Interrupt request signal
    pub fn irq<B: CpuBus>(&mut self, bus: &mut B)
        requires
            old(bus).inv(),
        ensures
            final(bus).inv(),
            (*final(self), final(bus).state()) == spec_irq::<B>(*old(self), old(bus).state()),
    {
        if !self.get_flag(Flags::I) {
            let mut flags = *self;
            flags.set_flag(Flags::B, false);
            flags.set_flag(Flags::U, true);
            flags.set_flag(Flags::I, true);
            self.interrupt(flags.status, 0xFFFE, 7, bus);
        }
    }

    /// Non-maskable interrupt request signal
    pub fn nmi<B: CpuBus>(&mut self, bus: &mut B)
        requires
            old(bus).inv(),
        ensures
            final(bus).inv(),
            (*final(self), final(bus).state()) == spec_nmi::<B>(*old(self), old(bus).state()),
    {
        let mut flags = *self;
        flags.set_flag(Flags::B, false);
        flags.set_flag(Flags::I, true);
        self.interrupt(flags.status, 0xFFFA, 8, bus);
    }
}

} // verus!
