use vstd::prelude::*;
use crate::cpu::Component6502;
use crate::cpu_bus::{CpuBus, FlatMemory};

verus! {

/// The state of the CPU and of some memory cells before or after one
/// instruction, as the single-step CPU tests give it.
#[derive(Debug, Clone)]
pub struct TestState {
    pub pc: u16,
    pub s: u8,
    pub a: u8,
    pub x: u8,
    pub y: u8,
    pub p: u8,
    pub ram: Vec<(u16, u8)>,
}

/// `ram` with the cells of `cells` stored in order (a later cell wins).
pub open spec fn ram_with(ram: Seq<u8>, cells: Seq<(u16, u8)>) -> Seq<u8>
    decreases cells.len(),
{
    if cells.len() == 0 {
        ram
    } else {
        ram_with(ram, cells.drop_last()).update(cells.last().0 as int, cells.last().1)
    }
}

/// The CPU with the registers of the state.
pub open spec fn cpu_with_registers(c: Component6502, pc: u16, s: u8, a: u8, x: u8, y: u8, p: u8) -> Component6502 {
    Component6502 { pc: pc, sp: s, a: a, x: x, y: y, status: p, ..c }
}

impl TestState {
    /// Whether the registers of `cpu` and the cells of `ram` are those of
    /// the state.
    pub open spec fn spec_matches(&self, cpu: Component6502, ram: Seq<u8>) -> bool {
        &&& cpu.pc == self.pc
        &&& cpu.sp == self.s
        &&& cpu.a == self.a
        &&& cpu.x == self.x
        &&& cpu.y == self.y
        &&& cpu.status == self.p
        &&& forall|i: int|
            0 <= i < self.ram@.len() ==> ram[#[trigger] self.ram@[i].0 as int] == self.ram@[i].1
    }

    /// Loads the state: the registers into `cpu`, the cells into `mem`
    /// (without recording accesses).
    pub fn apply(&self, cpu: &mut Component6502, mem: &mut FlatMemory)
        requires
            old(mem).inv(),
        ensures
            final(mem).inv(),
            *final(cpu) == cpu_with_registers(*old(cpu), self.pc, self.s, self.a, self.x, self.y, self.p),
            final(mem).ram_view() == ram_with(old(mem).ram_view(), self.ram@),
            final(mem).trace_view() == old(mem).trace_view(),
    {
        cpu.pc = self.pc;
        cpu.sp = self.s;
        cpu.a = self.a;
        cpu.x = self.x;
        cpu.y = self.y;
        cpu.status = self.p;

        let mut i: usize = 0;
        while i < self.ram.len()
            invariant
                i <= self.ram@.len(),
                mem.inv(),
                mem.ram_view() == ram_with(old(mem).ram_view(), self.ram@.subrange(0, i as int)),
                mem.trace_view() == old(mem).trace_view(),
            decreases self.ram@.len() - i,
        {
            let (addr, data) = self.ram[i];
            mem.poke(addr, data);
            proof {
                assert(self.ram@.subrange(0, i + 1).drop_last() =~= self.ram@.subrange(0, i as int));
            }
            i = i + 1;
        }
        proof {
            assert(self.ram@.subrange(0, self.ram@.len() as int) =~= self.ram@);
        }
    }

    /// Whether `cpu` and `mem` are in the state.
    pub fn matches(&self, cpu: &Component6502, mem: &FlatMemory) -> (r: bool)
        requires
            mem.inv(),
        ensures
            r == self.spec_matches(*cpu, mem.ram_view()),
    {
        if !(cpu.pc == self.pc && cpu.sp == self.s && cpu.a == self.a && cpu.x == self.x
            && cpu.y == self.y && cpu.status == self.p) {
            return false;
        }
        let mut i: usize = 0;
        while i < self.ram.len()
            invariant
                i <= self.ram@.len(),
                mem.inv(),
                forall|k: int|
                    0 <= k < i ==> mem.ram_view()[#[trigger] self.ram@[k].0 as int]
                        == self.ram@[k].1,
            decreases self.ram@.len() - i,
        {
            let (addr, data) = self.ram[i];
            if mem.load(addr) != data {
                return false;
            }
            i = i + 1;
        }
        true
    }
}

} // verus!
