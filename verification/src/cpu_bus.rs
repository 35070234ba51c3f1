use vstd::prelude::*;

verus! {

/// What the CPU sees of the machine around it: a 16-bit address space that
/// can be read and written one byte at a time.
///
/// A read may change the device behind the address (a PPU status read clears
/// the vertical blank flag, a controller read shifts its register), so the
/// abstract state after a read is part of the specification.
pub trait CpuBus: Sized {
    /// Abstract state of the bus.
    type State;

    /// The abstract state of this bus.
    spec fn state(&self) -> Self::State;

    /// Well-formedness of the bus.
    spec fn inv(&self) -> bool;

    /// The byte that a read of `addr` returns in state `s`.
    spec fn peek(s: Self::State, addr: u16) -> u8;

    /// The state after a read of `addr` in state `s`.
    spec fn after_read(s: Self::State, addr: u16) -> Self::State;

    /// The state after `data` is written to `addr` in state `s`.
    spec fn after_write(s: Self::State, addr: u16, data: u8) -> Self::State;

    /// Reads one byte.
    fn read(&mut self, addr: u16) -> (data: u8)
        requires
            old(self).inv(),
        ensures
            final(self).inv(),
            data == Self::peek(old(self).state(), addr),
            final(self).state() == Self::after_read(old(self).state(), addr),
    ;

    /// Writes one byte.
    fn write(&mut self, addr: u16, data: u8)
        requires
            old(self).inv(),
        ensures
            final(self).inv(),
            final(self).state() == Self::after_write(old(self).state(), addr, data),
    ;
}

/// The byte read at `addr` and the state after the read.
pub open spec fn bus_read<B: CpuBus>(s: B::State, addr: u16) -> (u8, B::State) {
    (B::peek(s, addr), B::after_read(s, addr))
}

/// Kind of a recorded bus access.
#[derive(Clone, Copy, Debug, PartialEq, Eq, Structural)]
pub enum AccessKind {
    Read,
    Write,
}

/// One access that the CPU made to a [`FlatMemory`].
#[derive(Clone, Copy, Debug, PartialEq, Eq, Structural)]
pub struct BusAccess {
    pub address: u16,
    pub value: u8,
    pub kind: AccessKind,
}

/// Abstract state of a [`FlatMemory`].
pub struct FlatState {
    pub ram: Seq<u8>,
    pub trace: Seq<BusAccess>,
}

/// A plain 64 KiB memory with no devices mapped into it, which records every
/// access that goes through it. The CPU is tested against it, one access per
/// clock cycle.
pub struct FlatMemory {
    ram: Vec<u8>,
    trace: Vec<BusAccess>,
}

impl FlatMemory {
    /// The memory contents.
    pub closed spec fn ram_view(&self) -> Seq<u8> {
        self.ram@
    }

    /// The accesses recorded so far, oldest first.
    pub closed spec fn trace_view(&self) -> Seq<BusAccess> {
        self.trace@
    }

    /// A memory filled with zeros and an empty trace.
    pub fn new() -> (m: FlatMemory)
        ensures
            m.inv(),
            m.ram_view() == Seq::new(0x10000, |i: int| 0u8),
            m.trace_view() == Seq::<BusAccess>::empty(),
    {
        let ram: Vec<u8> = vec![0u8; 0x10000];
        let m = FlatMemory { ram, trace: Vec::new() };
        assert(m.ram_view() =~= Seq::new(0x10000, |i: int| 0u8));
        m
    }

    /// Stores a byte without recording an access.
    pub fn poke(&mut self, addr: u16, data: u8)
        requires
            old(self).inv(),
        ensures
            final(self).inv(),
            final(self).ram_view() == old(self).ram_view().update(addr as int, data),
            final(self).trace_view() == old(self).trace_view(),
    {
        self.ram.set(addr as usize, data);
    }

    /// Loads a byte without recording an access.
    pub fn load(&self, addr: u16) -> (data: u8)
        requires
            self.inv(),
        ensures
            data == self.ram_view()[addr as int],
    {
        self.ram[addr as usize]
    }

    /// Clears the recorded accesses and zeroes the memory.
    pub fn clear(&mut self)
        ensures
            final(self).inv(),
            final(self).ram_view() == Seq::new(0x10000, |i: int| 0u8),
            final(self).trace_view() == Seq::<BusAccess>::empty(),
    {
        *self = FlatMemory::new();
    }

    /// Number of recorded accesses.
    pub fn trace_len(&self) -> (n: usize)
        ensures
            n == self.trace_view().len(),
    {
        self.trace.len()
    }

    /// The recorded access at position `i`.
    pub fn trace_entry(&self, i: usize) -> (e: BusAccess)
        requires
            i < self.trace_view().len(),
        ensures
            e == self.trace_view()[i as int],
    {
        self.trace[i]
    }
}

impl CpuBus for FlatMemory {
    type State = FlatState;

    open spec fn state(&self) -> FlatState {
        FlatState { ram: self.ram_view(), trace: self.trace_view() }
    }

    open spec fn inv(&self) -> bool {
        self.ram_view().len() == 0x10000
    }

    open spec fn peek(s: FlatState, addr: u16) -> u8 {
        s.ram[addr as int]
    }

    open spec fn after_read(s: FlatState, addr: u16) -> FlatState {
        FlatState {
            ram: s.ram,
            trace: s.trace.push(
                BusAccess { address: addr, value: s.ram[addr as int], kind: AccessKind::Read },
            ),
        }
    }

    open spec fn after_write(s: FlatState, addr: u16, data: u8) -> FlatState {
        FlatState {
            ram: s.ram.update(addr as int, data),
            trace: s.trace.push(BusAccess { address: addr, value: data, kind: AccessKind::Write }),
        }
    }

    fn read(&mut self, addr: u16) -> (data: u8) {
        let data = self.ram[addr as usize];
        self.trace.push(BusAccess { address: addr, value: data, kind: AccessKind::Read });
        data
    }

    fn write(&mut self, addr: u16, data: u8) {
        self.ram.set(addr as usize, data);
        self.trace.push(BusAccess { address: addr, value: data, kind: AccessKind::Write });
    }
}

} // verus!
