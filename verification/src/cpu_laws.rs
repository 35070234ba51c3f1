use vstd::prelude::*;
use crate::cpu::{
    Component6502, Flags, Operation, ADDRESSING_MODES, flag_set, with_flag, with_zn, spec_lookup,
    spec_nmi, stack_addr, spec_tick,
};
use crate::cpu_bus::{CpuBus, FlatMemory, FlatState};
use crate::addressing_modes::spec_addressing;
use crate::opcodes::{spec_operation, pulled_status};
use crate::nes::{Nes, NesView, nes_bus_read, nes_bus_write, lemma_ram_mirror};

verus! {

/// Bit facts behind the flag laws: setting or clearing one flag bit of the
/// status changes that bit only.
proof fn lemma_flag_bits(st: u8, mf: u8, mg: u8)
    requires
        mf == 1 || mf == 2 || mf == 4 || mf == 8 || mf == 16 || mf == 32 || mf == 64 || mf == 128,
        mg == 1 || mg == 2 || mg == 4 || mg == 8 || mg == 16 || mg == 32 || mg == 64 || mg == 128,
    ensures
        ((st | mf) & mg != 0) == (mf == mg || st & mg != 0),
        ((st & !mf) & mg != 0) == (mf != mg && st & mg != 0),
{
    assert({
        &&& ((st | mf) & mg != 0) == (mf == mg || st & mg != 0)
        &&& ((st & !mf) & mg != 0) == (mf != mg && st & mg != 0)
    }) by (bit_vector)
        requires
            mf == 1 || mf == 2 || mf == 4 || mf == 8 || mf == 16 || mf == 32 || mf == 64 || mf
                == 128,
            mg == 1 || mg == 2 || mg == 4 || mg == 8 || mg == 16 || mg == 32 || mg == 64 || mg
                == 128,
    ;
}

/// Setting a flag and then reading it gives back the value that was set;
/// every other flag keeps its value.
pub proof fn lemma_flag_set_get(status: u8, flag: Flags, other: Flags, value: bool)
    ensures
        flag_set(with_flag(status, flag, value), flag) == value,
        other != flag ==> flag_set(with_flag(status, flag, value), other) == flag_set(
            status,
            other,
        ),
{
    lemma_flag_bits(status, flag.spec_mask(), flag.spec_mask());
    lemma_flag_bits(status, flag.spec_mask(), other.spec_mask());
}

/// Two status bytes with the same eight flags are equal.
proof fn lemma_status_ext(s: u8, t: u8)
    requires
        forall|f: Flags| flag_set(s, f) == flag_set(t, f),
    ensures
        s == t,
{
    assert(flag_set(s, Flags::C) == flag_set(t, Flags::C));
    assert(flag_set(s, Flags::Z) == flag_set(t, Flags::Z));
    assert(flag_set(s, Flags::I) == flag_set(t, Flags::I));
    assert(flag_set(s, Flags::D) == flag_set(t, Flags::D));
    assert(flag_set(s, Flags::B) == flag_set(t, Flags::B));
    assert(flag_set(s, Flags::U) == flag_set(t, Flags::U));
    assert(flag_set(s, Flags::V) == flag_set(t, Flags::V));
    assert(flag_set(s, Flags::N) == flag_set(t, Flags::N));
    assert((s & 1 != 0) == (t & 1 != 0) && (s & 2 != 0) == (t & 2 != 0) && (s & 4 != 0) == (t
        & 4 != 0) && (s & 8 != 0) == (t & 8 != 0) && (s & 16 != 0) == (t & 16 != 0) && (s & 32
        != 0) == (t & 32 != 0) && (s & 64 != 0) == (t & 64 != 0) && (s & 128 != 0) == (t & 128
        != 0) ==> s == t) by (bit_vector);
}

/// The memory is a whole address space.
pub open spec fn flat_wf(s: FlatState) -> bool {
    s.ram.len() == 0x10000
}

/// Whether the addressing mode of the opcode reads its operand from memory.
pub open spec fn reads_operand(opcode: u8) -> bool {
    let mode = spec_lookup(opcode).addr_mode;
    mode != ADDRESSING_MODES::ACC && mode != ADDRESSING_MODES::IMP
}

/// Subtracting with the carry set undoes adding with the carry clear: ADC
/// of an operand, then SBC of the same operand, gives back the accumulator.
pub proof fn lemma_adc_then_sbc(c: Component6502, s: FlatState)
    requires
        flat_wf(s),
        reads_operand(c.opcode),
        !flag_set(c.status, Flags::C),
    ensures
        ({
            let (c1, s1) = spec_operation::<FlatMemory>(Operation::ADC, c, s);
            let c2 = Component6502 { status: with_flag(c1.status, Flags::C, true), ..c1 };
            let (c3, s3) = spec_operation::<FlatMemory>(Operation::SBC, c2, s1);
            c3.a == c.a
        }),
{
    let (c1, s1) = spec_operation::<FlatMemory>(Operation::ADC, c, s);
    let c2 = Component6502 { status: with_flag(c1.status, Flags::C, true), ..c1 };
    lemma_flag_set_get(c1.status, Flags::C, Flags::C, true);
    let m = s.ram[c.addr_abs as int];
    assert(c1.fetched == m);
    assert(c1.a == ((c.a + m) % 256) as u8);
    let (c3, s3) = spec_operation::<FlatMemory>(Operation::SBC, c2, s1);
    assert(c3.a == ((c1.a - m) % 256) as u8);
}

/// A comparison sets the carry, zero and negative flags as a subtraction
/// with the carry set would, and leaves the accumulator alone.
pub proof fn lemma_compare_as_subtraction(c: Component6502, s: FlatState)
    requires
        flat_wf(s),
        reads_operand(c.opcode),
    ensures
        ({
            let (c1, s1) = spec_operation::<FlatMemory>(Operation::CMP, c, s);
            let c2 = Component6502 { status: with_flag(c.status, Flags::C, true), ..c };
            let (c3, s3) = spec_operation::<FlatMemory>(Operation::SBC, c2, s);
            &&& c1.a == c.a
            &&& flag_set(c1.status, Flags::C) == flag_set(c3.status, Flags::C)
            &&& flag_set(c1.status, Flags::Z) == flag_set(c3.status, Flags::Z)
            &&& flag_set(c1.status, Flags::N) == flag_set(c3.status, Flags::N)
        }),
{
    let (c1, s1) = spec_operation::<FlatMemory>(Operation::CMP, c, s);
    let c2 = Component6502 { status: with_flag(c.status, Flags::C, true), ..c };
    let (c3, s3) = spec_operation::<FlatMemory>(Operation::SBC, c2, s);
    let m = s.ram[c.addr_abs as int];
    lemma_flag_set_get(c.status, Flags::C, Flags::C, true);
    let st = c1.status;
    let st0 = with_flag(with_flag(c.status, Flags::C, c.a >= m), Flags::Z, c.a == m);
    let st1 = with_flag(st0, Flags::N, c.a.wrapping_sub(m) >= 0x80);
    assert(st == st1);
    let diff = c.a - m;
    let r = (diff % 256) as u8;
    let t0 = with_flag(with_flag(c2.status, Flags::C, diff >= 0), Flags::Z, r == 0);
    let t1 = with_flag(with_flag(t0, Flags::V, crate::opcodes::sub_overflows(c.a, m, r)), Flags::N, r >= 0x80);
    assert(c3.status == t1);
    lemma_flag_set_get(with_flag(c.status, Flags::C, c.a >= m), Flags::Z, Flags::C, c.a == m);
    lemma_flag_set_get(st0, Flags::N, Flags::C, c.a.wrapping_sub(m) >= 0x80);
    lemma_flag_set_get(st0, Flags::N, Flags::Z, c.a.wrapping_sub(m) >= 0x80);
    lemma_flag_set_get(st0, Flags::N, Flags::N, c.a.wrapping_sub(m) >= 0x80);
    lemma_flag_set_get(c.status, Flags::C, Flags::C, c.a >= m);
    lemma_flag_set_get(with_flag(c.status, Flags::C, c.a >= m), Flags::Z, Flags::Z, c.a == m);
    lemma_flag_set_get(c2.status, Flags::C, Flags::C, diff >= 0);
    lemma_flag_set_get(with_flag(c2.status, Flags::C, diff >= 0), Flags::Z, Flags::C, r == 0);
    lemma_flag_set_get(with_flag(c2.status, Flags::C, diff >= 0), Flags::Z, Flags::Z, r == 0);
    let v = crate::opcodes::sub_overflows(c.a, m, r);
    lemma_flag_set_get(t0, Flags::V, Flags::C, v);
    lemma_flag_set_get(t0, Flags::V, Flags::Z, v);
    lemma_flag_set_get(with_flag(t0, Flags::V, v), Flags::N, Flags::C, r >= 0x80);
    lemma_flag_set_get(with_flag(t0, Flags::V, v), Flags::N, Flags::Z, r >= 0x80);
    lemma_flag_set_get(with_flag(t0, Flags::V, v), Flags::N, Flags::N, r >= 0x80);
    assert(c.a.wrapping_sub(m) == r);
}

/// PLA after PHA gives back the accumulator and the stack pointer.
pub proof fn lemma_pha_then_pla(c: Component6502, s: FlatState)
    requires
        flat_wf(s),
    ensures
        ({
            let (c1, s1) = spec_operation::<FlatMemory>(Operation::PHA, c, s);
            let (c2, s2) = spec_operation::<FlatMemory>(Operation::PLA, c1, s1);
            c2.a == c.a && c2.sp == c.sp && s2.ram == s1.ram
        }),
{
    assert(c.sp.wrapping_sub(1).wrapping_add(1) == c.sp);
}

/// PLP after PHP gives back every flag but B, which comes back clear, and
/// U, which comes back set; the stack pointer is restored.
pub proof fn lemma_php_then_plp(c: Component6502, s: FlatState)
    requires
        flat_wf(s),
    ensures
        ({
            let (c1, s1) = spec_operation::<FlatMemory>(Operation::PHP, c, s);
            let (c2, s2) = spec_operation::<FlatMemory>(Operation::PLP, c1, s1);
            &&& c2.sp == c.sp
            &&& c2.status == with_flag(with_flag(c.status, Flags::B, false), Flags::U, true)
        }),
{
    let (c1, s1) = spec_operation::<FlatMemory>(Operation::PHP, c, s);
    let (c2, s2) = spec_operation::<FlatMemory>(Operation::PLP, c1, s1);
    assert(c.sp.wrapping_sub(1).wrapping_add(1) == c.sp);
    let pushed = with_flag(with_flag(c.status, Flags::B, true), Flags::U, true);
    assert(c2.status == pulled_status(pushed));
    let want = with_flag(with_flag(c.status, Flags::B, false), Flags::U, true);
    assert forall|f: Flags| flag_set(c2.status, f) == flag_set(want, f) by {
        lemma_flag_set_get(c.status, Flags::B, f, true);
        lemma_flag_set_get(with_flag(c.status, Flags::B, true), Flags::U, f, true);
        lemma_flag_set_get(pushed, Flags::B, f, false);
        lemma_flag_set_get(with_flag(pushed, Flags::B, false), Flags::U, f, true);
        lemma_flag_set_get(c.status, Flags::B, f, false);
        lemma_flag_set_get(with_flag(c.status, Flags::B, false), Flags::U, f, true);
    }
    lemma_status_ext(c2.status, want);
}

/// RTS after JSR returns to the byte after the last operand byte of the
/// JSR, with the stack pointer restored.
pub proof fn lemma_jsr_then_rts(c: Component6502, s: FlatState)
    requires
        flat_wf(s),
    ensures
        ({
            let (c1, s1) = spec_operation::<FlatMemory>(Operation::JSR, c, s);
            let (c2, s2) = spec_operation::<FlatMemory>(Operation::RTS, c1, s1);
            c2.pc == c.pc.wrapping_add(1) && c2.sp == c.sp
        }),
{
    let sp1 = c.sp.wrapping_sub(1);
    assert(sp1.wrapping_sub(1).wrapping_add(1) == sp1);
    assert(sp1.wrapping_add(1) == c.sp);
    assert(stack_addr(c.sp) != stack_addr(sp1));
    crate::addressing_modes::lemma_word((c.pc % 256) as u8, (c.pc / 256) as u8);
}

/// RTI after an NMI resumes at the interrupted instruction with the stack
/// pointer restored; the status comes back with B clear and U and I set.
pub proof fn lemma_nmi_then_rti(c: Component6502, s: FlatState)
    requires
        flat_wf(s),
    ensures
        ({
            let (c1, s1) = spec_nmi::<FlatMemory>(c, s);
            let (c2, s2) = spec_operation::<FlatMemory>(Operation::RTI, c1, s1);
            &&& c2.pc == c.pc
            &&& c2.sp == c.sp
            &&& c2.status == pulled_status(
                with_flag(with_flag(c.status, Flags::B, false), Flags::I, true),
            )
        }),
{
    let sp1 = c.sp.wrapping_sub(1);
    let sp2 = sp1.wrapping_sub(1);
    let sp3 = sp2.wrapping_sub(1);
    assert(sp3.wrapping_add(1) == sp2);
    assert(sp2.wrapping_add(1) == sp1);
    assert(sp1.wrapping_add(1) == c.sp);
    assert(stack_addr(c.sp) != stack_addr(sp1));
    assert(stack_addr(c.sp) != stack_addr(sp2));
    assert(stack_addr(sp1) != stack_addr(sp2));
    crate::addressing_modes::lemma_word((c.pc % 256) as u8, (c.pc / 256) as u8);
}

/// On the console the stack page is work RAM, so PLA after PHA gives back
/// the accumulator there too.
pub proof fn lemma_console_pha_then_pla(c: Component6502, s: NesView)
    requires
        s.bus.ram.len() == 0x10000,
    ensures
        ({
            let (c1, s1) = spec_operation::<Nes>(Operation::PHA, c, s);
            let (c2, s2) = spec_operation::<Nes>(Operation::PLA, c1, s1);
            c2.a == c.a && c2.sp == c.sp
        }),
{
    let sp = c.sp;
    assert(sp.wrapping_sub(1).wrapping_add(1) == sp);
    let addr = stack_addr(sp);
    assert(0x100 <= addr <= 0x1FF);
    let s1 = nes_bus_write(s, addr, c.a);
    lemma_ram_mirror(s, addr, addr, c.a);
    let s2 = nes_bus_read(s1, stack_addr(sp.wrapping_sub(1))).1;
    assert(s2.bus == s1.bus);
    assert(nes_bus_read(s2, addr).0 == c.a);
}

/// The zero and negative flags that a loaded byte leaves.
proof fn lemma_zn_flags(status: u8, v: u8)
    ensures
        flag_set(with_zn(status, v), Flags::Z) == (v == 0),
        flag_set(with_zn(status, v), Flags::N) == (v & 0x80 != 0),
{
    lemma_flag_set_get(with_flag(status, Flags::Z, v == 0), Flags::N, Flags::Z, v >= 0x80);
    lemma_flag_set_get(status, Flags::Z, Flags::Z, v == 0);
    lemma_flag_set_get(with_flag(status, Flags::Z, v == 0), Flags::N, Flags::N, v >= 0x80);
    assert((v >= 0x80) == (v & 0x80 != 0)) by (bit_vector);
}

/// PLA gives back what PHA pushed, whatever ran in between, as long as the
/// stack pointer is back where PHA left it and the pushed byte is still in
/// its cell: the accumulator and the stack pointer return, and the zero and
/// negative flags describe the byte.
pub proof fn lemma_pha_then_pla_across(
    c: Component6502,
    s: FlatState,
    c_mid: Component6502,
    s_mid: FlatState,
)
    requires
        flat_wf(s),
        flat_wf(s_mid),
        c_mid.sp == spec_operation::<FlatMemory>(Operation::PHA, c, s).0.sp,
        s_mid.ram[stack_addr(c.sp) as int] == spec_operation::<FlatMemory>(
            Operation::PHA,
            c,
            s,
        ).1.ram[stack_addr(c.sp) as int],
    ensures
        spec_operation::<FlatMemory>(Operation::PHA, c, s).1.ram[stack_addr(c.sp) as int] == c.a,
        ({
            let (c2, s2) = spec_operation::<FlatMemory>(Operation::PLA, c_mid, s_mid);
            &&& c2.a == c.a
            &&& c2.sp == c.sp
            &&& flag_set(c2.status, Flags::Z) == (c.a == 0)
            &&& flag_set(c2.status, Flags::N) == (c.a & 0x80 != 0)
        }),
{
    assert(c.sp.wrapping_sub(1).wrapping_add(1) == c.sp);
    lemma_zn_flags(c_mid.status, c.a);
}

/// RTS returns after a JSR whatever the subroutine did, as long as it left
/// the stack pointer where the JSR did and the two bytes the JSR pushed are
/// still in their cells: execution resumes after the JSR's last operand byte
/// with the stack pointer restored.
pub proof fn lemma_jsr_then_rts_across(
    c: Component6502,
    s: FlatState,
    c_mid: Component6502,
    s_mid: FlatState,
)
    requires
        flat_wf(s),
        flat_wf(s_mid),
        c_mid.sp == spec_operation::<FlatMemory>(Operation::JSR, c, s).0.sp,
        s_mid.ram[stack_addr(c.sp) as int] == spec_operation::<FlatMemory>(
            Operation::JSR,
            c,
            s,
        ).1.ram[stack_addr(c.sp) as int],
        s_mid.ram[stack_addr(c.sp.wrapping_sub(1)) as int] == spec_operation::<FlatMemory>(
            Operation::JSR,
            c,
            s,
        ).1.ram[stack_addr(c.sp.wrapping_sub(1)) as int],
    ensures
        ({
            let (c2, s2) = spec_operation::<FlatMemory>(Operation::RTS, c_mid, s_mid);
            c2.pc == c.pc.wrapping_add(1) && c2.sp == c.sp
        }),
{
    let sp1 = c.sp.wrapping_sub(1);
    assert(sp1.wrapping_sub(1).wrapping_add(1) == sp1);
    assert(sp1.wrapping_add(1) == c.sp);
    assert(stack_addr(c.sp) != stack_addr(sp1));
    crate::addressing_modes::lemma_word((c.pc % 256) as u8, (c.pc / 256) as u8);
}

/// A read of work RAM on the console returns the cell and changes nothing.
proof fn lemma_console_ram_read(s: NesView, addr: u16)
    requires
        s.bus.ram.len() == 0x10000,
        0x100 <= addr <= 0x1FF,
    ensures
        nes_bus_read(s, addr) == (s.bus.ram[addr as int], s),
{
    assert(addr % 0x0800 == addr);
}

/// A write to work RAM on the console changes that cell of RAM.
proof fn lemma_console_ram_write(s: NesView, addr: u16, data: u8)
    requires
        s.bus.ram.len() == 0x10000,
        0x100 <= addr <= 0x1FF,
    ensures
        nes_bus_write(s, addr, data).bus.ram == s.bus.ram.update(addr as int, data),
{
    assert(addr % 0x0800 == addr);
}

/// On the console, PLA gives back what PHA pushed whatever ran in between,
/// as long as the stack pointer is back where PHA left it and the pushed
/// byte is still in work RAM: the accumulator and the stack pointer return,
/// and the zero and negative flags describe the byte.
pub proof fn lemma_console_pha_then_pla_across(
    c: Component6502,
    s: NesView,
    c_mid: Component6502,
    s_mid: NesView,
)
    requires
        s.bus.ram.len() == 0x10000,
        s_mid.bus.ram.len() == 0x10000,
        c_mid.sp == spec_operation::<Nes>(Operation::PHA, c, s).0.sp,
        s_mid.bus.ram[stack_addr(c.sp) as int] == spec_operation::<Nes>(
            Operation::PHA,
            c,
            s,
        ).1.bus.ram[stack_addr(c.sp) as int],
    ensures
        spec_operation::<Nes>(Operation::PHA, c, s).1.bus.ram[stack_addr(c.sp) as int] == c.a,
        ({
            let (c2, s2) = spec_operation::<Nes>(Operation::PLA, c_mid, s_mid);
            &&& c2.a == c.a
            &&& c2.sp == c.sp
            &&& flag_set(c2.status, Flags::Z) == (c.a == 0)
            &&& flag_set(c2.status, Flags::N) == (c.a & 0x80 != 0)
        }),
{
    let sp = c.sp;
    let sp1 = sp.wrapping_sub(1);
    assert(sp1.wrapping_add(1) == sp);
    let addr = stack_addr(sp);
    lemma_console_ram_write(s, addr, c.a);
    let (c1, s1) = spec_operation::<Nes>(Operation::PHA, c, s);
    assert(s1 == nes_bus_write(s, addr, c.a));
    lemma_console_ram_read(s_mid, stack_addr(sp1));
    lemma_console_ram_read(s_mid, addr);
    let (c2, s2) = spec_operation::<Nes>(Operation::PLA, c_mid, s_mid);
    assert(c2.a == s_mid.bus.ram[addr as int]);
    lemma_zn_flags(c_mid.status, c.a);
}

/// On the console, RTS returns after a JSR whatever the subroutine did, as
/// long as it left the stack pointer where the JSR did and the two bytes the
/// JSR pushed are still in work RAM: execution resumes after the JSR's last
/// operand byte with the stack pointer restored.
pub proof fn lemma_console_jsr_then_rts_across(
    c: Component6502,
    s: NesView,
    c_mid: Component6502,
    s_mid: NesView,
)
    requires
        s.bus.ram.len() == 0x10000,
        s_mid.bus.ram.len() == 0x10000,
        c_mid.sp == spec_operation::<Nes>(Operation::JSR, c, s).0.sp,
        s_mid.bus.ram[stack_addr(c.sp) as int] == spec_operation::<Nes>(
            Operation::JSR,
            c,
            s,
        ).1.bus.ram[stack_addr(c.sp) as int],
        s_mid.bus.ram[stack_addr(c.sp.wrapping_sub(1)) as int] == spec_operation::<Nes>(
            Operation::JSR,
            c,
            s,
        ).1.bus.ram[stack_addr(c.sp.wrapping_sub(1)) as int],
    ensures
        ({
            let (c2, s2) = spec_operation::<Nes>(Operation::RTS, c_mid, s_mid);
            c2.pc == c.pc.wrapping_add(1) && c2.sp == c.sp
        }),
{
    let sp1 = c.sp.wrapping_sub(1);
    let sp2 = sp1.wrapping_sub(1);
    assert(sp2.wrapping_add(1) == sp1);
    assert(sp1.wrapping_add(1) == c.sp);
    let a0 = stack_addr(c.sp);
    let a1 = stack_addr(sp1);
    assert(a0 != a1);
    crate::addressing_modes::lemma_word((c.pc % 256) as u8, (c.pc / 256) as u8);
    lemma_console_ram_read(s, a0);
    let s1 = nes_bus_write(s, a0, (c.pc / 256) as u8);
    lemma_console_ram_write(s, a0, (c.pc / 256) as u8);
    lemma_console_ram_write(s1, a1, (c.pc % 256) as u8);
    let s2 = nes_bus_write(s1, a1, (c.pc % 256) as u8);
    assert(s2.bus.ram[a0 as int] == (c.pc / 256) as u8);
    assert(s2.bus.ram[a1 as int] == (c.pc % 256) as u8);
    let (c1, s4) = spec_operation::<Nes>(Operation::JSR, c, s);
    assert(s4.bus.ram == s2.bus.ram);
    lemma_console_ram_read(s_mid, stack_addr(sp2));
    lemma_console_ram_read(s_mid, a1);
    lemma_console_ram_read(s_mid, a0);
    let (c2, s5) = spec_operation::<Nes>(Operation::RTS, c_mid, s_mid);
    assert(c2.sp == c.sp);
}

/// On the console, with the clock: a JSR whose opcode the CPU fetches at
/// address `j`, and later the RTS that ends the subroutine, resume execution
/// at `j + 3`, right after the three bytes of the JSR, with the stack pointer
/// restored, whatever ran in between, as long as the subroutine left the
/// stack pointer where the JSR did and the two bytes it pushed in work RAM.
pub proof fn lemma_console_jsr_rts_ticks(
    c: Component6502,
    s: NesView,
    c_mid: Component6502,
    s_mid: NesView,
)
    requires
        s.bus.ram.len() == 0x10000,
        s_mid.bus.ram.len() == 0x10000,
        c.cycles == 0,
        nes_bus_read(s, c.pc).0 == 0x20,
        c_mid.cycles == 0,
        nes_bus_read(s_mid, c_mid.pc).0 == 0x60,
        c_mid.sp == spec_tick::<Nes>(c, s).0.sp,
        s_mid.bus.ram[stack_addr(c.sp) as int] == spec_tick::<Nes>(c, s).1.bus.ram[stack_addr(
            c.sp,
        ) as int],
        s_mid.bus.ram[stack_addr(c.sp.wrapping_sub(1)) as int] == spec_tick::<Nes>(
            c,
            s,
        ).1.bus.ram[stack_addr(c.sp.wrapping_sub(1)) as int],
    ensures
        ({
            let (c2, s2) = spec_tick::<Nes>(c_mid, s_mid);
            c2.pc == c.pc.wrapping_add(3) && c2.sp == c.sp
        }),
{
    // the JSR: opcode, low address byte, then the operation
    let (op, s1) = nes_bus_read(s, c.pc);
    let ins = spec_lookup(0x20);
    assert(ins.addr_mode == ADDRESSING_MODES::ABS && ins.operation == Operation::JSR);
    let c1 = Component6502 { opcode: op, pc: c.pc.wrapping_add(1), cycles: ins.cycles, ..c };
    let (c2, s2) = crate::addressing_modes::spec_addressing::<Nes>(ins.addr_mode, c1, s1);
    assert(c2.pc == c.pc.wrapping_add(1).wrapping_add(1));
    assert(c2.sp == c.sp);
    assert(spec_tick::<Nes>(c, s).1 == spec_operation::<Nes>(Operation::JSR, c2, s2).1);
    assert(spec_tick::<Nes>(c, s).0.sp == spec_operation::<Nes>(Operation::JSR, c2, s2).0.sp);
    assert(s2.bus.ram.len() == 0x10000);
    // the RTS: opcode, dummy read, then the operation
    let (op2, t1) = nes_bus_read(s_mid, c_mid.pc);
    let ins2 = spec_lookup(0x60);
    assert(ins2.addr_mode == ADDRESSING_MODES::IMP && ins2.operation == Operation::RTS);
    let d1 = Component6502 {
        opcode: op2,
        pc: c_mid.pc.wrapping_add(1),
        cycles: ins2.cycles,
        ..c_mid
    };
    let (d2, t2) = crate::addressing_modes::spec_addressing::<Nes>(ins2.addr_mode, d1, t1);
    assert(t1.bus == s_mid.bus);
    assert(t2.bus == s_mid.bus);
    assert(d2.sp == c_mid.sp);
    lemma_console_jsr_then_rts_across(c2, s2, d2, t2);
    assert(c.pc.wrapping_add(1).wrapping_add(1).wrapping_add(1) == c.pc.wrapping_add(3));
}

/// BIT tests the accumulator against the operand byte `m` it reads: Z is set
/// exactly when `A & m` is zero, N is bit 7 of `m` and V is bit 6 of `m`;
/// the accumulator and the other flags are left alone.
pub proof fn lemma_bit_flags<B: CpuBus>(c: Component6502, s: B::State)
    requires
        reads_operand(c.opcode),
    ensures
        ({
            let m = B::peek(s, c.addr_abs);
            let (c1, s1) = spec_operation::<B>(Operation::BIT, c, s);
            &&& flag_set(c1.status, Flags::Z) == (c.a & m == 0)
            &&& flag_set(c1.status, Flags::N) == (m & 0x80 != 0)
            &&& flag_set(c1.status, Flags::V) == (m & 0x40 != 0)
            &&& c1.a == c.a
            &&& forall|f: Flags|
                f != Flags::Z && f != Flags::N && f != Flags::V ==> flag_set(c1.status, f)
                    == flag_set(c.status, f)
        }),
{
    let m = B::peek(s, c.addr_abs);
    let st0 = c.status;
    let st1 = with_flag(st0, Flags::Z, c.a & m == 0);
    let st2 = with_flag(st1, Flags::N, m >= 0x80);
    let (c1, s1) = spec_operation::<B>(Operation::BIT, c, s);
    assert(c1.status == with_flag(st2, Flags::V, m & 0x40 != 0));
    lemma_flag_set_get(st2, Flags::V, Flags::V, m & 0x40 != 0);
    lemma_flag_set_get(st2, Flags::V, Flags::N, m & 0x40 != 0);
    lemma_flag_set_get(st2, Flags::V, Flags::Z, m & 0x40 != 0);
    lemma_flag_set_get(st1, Flags::N, Flags::N, m >= 0x80);
    lemma_flag_set_get(st1, Flags::N, Flags::Z, m >= 0x80);
    lemma_flag_set_get(st0, Flags::Z, Flags::Z, c.a & m == 0);
    assert((m >= 0x80) == (m & 0x80 != 0)) by (bit_vector);
    assert forall|f: Flags| f != Flags::Z && f != Flags::N && f != Flags::V implies flag_set(
        c1.status,
        f,
    ) == flag_set(c.status, f) by {
        lemma_flag_set_get(st2, Flags::V, f, m & 0x40 != 0);
        lemma_flag_set_get(st1, Flags::N, f, m >= 0x80);
        lemma_flag_set_get(st0, Flags::Z, f, c.a & m == 0);
    }
}

/// The value of `b` read as a two's complement signed byte.
pub open spec fn signed_byte(b: u8) -> int {
    if b >= 0x80 {
        b as int - 256
    } else {
        b as int
    }
}

/// The relative mode reads the offset byte `b` after the opcode, moves the
/// program counter past it, and a branch taken from there lands `b` bytes
/// away, `b` read as a signed byte: backwards for `b >= 0x80`. The address
/// space wraps around.
pub proof fn lemma_relative_branch_target<B: CpuBus>(c: Component6502, s: B::State)
    ensures
        ({
            let b = B::peek(s, c.pc);
            let (c1, s1) = spec_addressing::<B>(ADDRESSING_MODES::REL, c, s);
            &&& c1.pc == c.pc.wrapping_add(1)
            &&& c1.pc.wrapping_add(c1.addr_rel) as int == (c.pc as int + 1 + signed_byte(b))
                % 0x10000
        }),
{
    let b = B::peek(s, c.pc);
    let (c1, s1) = spec_addressing::<B>(ADDRESSING_MODES::REL, c, s);
    let pc1 = c.pc.wrapping_add(1);
    assert(pc1 as int == (c.pc as int + 1) % 0x10000);
    if b >= 0x80 {
        assert(c1.addr_rel == b as int + 0xFF00);
    } else {
        assert(c1.addr_rel == b as int);
    }
    assert(pc1.wrapping_add(c1.addr_rel) as int == (pc1 as int + c1.addr_rel as int) % 0x10000);
    assert((pc1 as int + c1.addr_rel as int) % 0x10000 == (c.pc as int + 1 + signed_byte(b))
        % 0x10000) by {
        if b >= 0x80 {
            assert(c1.addr_rel as int == signed_byte(b) + 0x10000);
        }
    }
}

} // verus!
