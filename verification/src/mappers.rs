use vstd::prelude::*;
use crate::cartridge::Mirror;

verus! {

/// How a cartridge translates CPU and PPU addresses into offsets of its
/// program and character memories.
///
/// Each translation returns whether the cartridge answers the address, and
/// leaves the offset in `mapped_addr`.
pub trait Mapper: Sized {
    /// A mapper for `prg_banks_count` 16 KiB program banks and
    /// `chr_banks_count` 8 KiB character banks.
    spec fn spec_new(prg_banks_count: u8, chr_banks_count: u8) -> Self;

    /// Whether a CPU read of `addr` can be translated without fault.
    spec fn cpu_read_defined(&self, addr: u16) -> bool;

    /// Whether the cartridge answers a CPU read of `addr`, and the offset
    /// left in `mapped_addr` (which held `mapped` before).
    spec fn spec_cpu_map_read(&self, addr: u16, mapped: u32) -> (bool, u32);

    /// The same for a CPU write, with the mapper as it is after the write.
    spec fn spec_cpu_map_write(&self, addr: u16, mapped: u32, data: u8) -> (bool, u32, Self);

    /// The same for a PPU read.
    spec fn spec_ppu_map_read(&self, addr: u16, mapped: u32) -> (bool, u32);

    /// The same for a PPU write.
    spec fn spec_ppu_map_write(&self, addr: u16, mapped: u32) -> (bool, u32);

    /// The mapper after a reset.
    spec fn spec_reset(&self) -> Self;

    /// The name table arrangement that the mapper imposes.
    spec fn spec_mirror(&self) -> Mirror;

    fn new(prg_banks_count: u8, chr_banks_count: u8) -> (m: Self)
        ensures
            m == Self::spec_new(prg_banks_count, chr_banks_count),
    ;

    fn cpu_map_read(&self, addr: u16, mapped_addr: &mut u32) -> (r: bool)
        requires
            self.cpu_read_defined(addr),
        ensures
            (r, *final(mapped_addr)) == self.spec_cpu_map_read(addr, *old(mapped_addr)),
    ;

    fn cpu_map_write(&mut self, addr: u16, mapped_addr: &mut u32, data: u8) -> (r: bool)
        ensures
            (r, *final(mapped_addr), *final(self)) == old(self).spec_cpu_map_write(
                addr,
                *old(mapped_addr),
                data,
            ),
    ;

    fn ppu_map_read(&self, addr: u16, mapped_addr: &mut u32) -> (r: bool)
        ensures
            (r, *final(mapped_addr)) == self.spec_ppu_map_read(addr, *old(mapped_addr)),
    ;

    fn ppu_map_write(&self, addr: u16, mapped_addr: &mut u32) -> (r: bool)
        ensures
            (r, *final(mapped_addr)) == self.spec_ppu_map_write(addr, *old(mapped_addr)),
    ;

    fn reset(&mut self)
        ensures
            *final(self) == old(self).spec_reset(),
    ;

    fn mirror(&self) -> (m: Mirror)
        ensures
            m == self.spec_mirror(),
    ;
}

/// NROM: 16 or 32 KiB of program ROM at `0x8000` (16 KiB mirrored twice),
/// 8 KiB of character memory.
#[derive(Debug, Copy, Clone, PartialEq, Eq, Structural)]
pub struct Mapper000 {
    pub prg_banks_count: u8,
    pub chr_banks_count: u8,
}

/// The offset of CPU address `addr` in an NROM program ROM.
pub open spec fn nrom_prg_offset(prg_banks_count: u8, addr: u16) -> u32 {
    if prg_banks_count > 1 {
        (addr % 0x8000) as u32
    } else {
        (addr % 0x4000) as u32
    }
}

impl Mapper for Mapper000 {
    open spec fn spec_new(prg_banks_count: u8, chr_banks_count: u8) -> Self {
        Mapper000 { prg_banks_count, chr_banks_count }
    }

    open spec fn cpu_read_defined(&self, addr: u16) -> bool {
        true
    }

    open spec fn spec_cpu_map_read(&self, addr: u16, mapped: u32) -> (bool, u32) {
        if addr >= 0x8000 {
            (true, nrom_prg_offset(self.prg_banks_count, addr))
        } else {
            (false, mapped)
        }
    }

    open spec fn spec_cpu_map_write(&self, addr: u16, mapped: u32, data: u8) -> (bool, u32, Self) {
        let (r, m) = self.spec_cpu_map_read(addr, mapped);
        (r, m, *self)
    }

    open spec fn spec_ppu_map_read(&self, addr: u16, mapped: u32) -> (bool, u32) {
        if addr <= 0x1FFF {
            (true, addr as u32)
        } else {
            (false, mapped)
        }
    }

    open spec fn spec_ppu_map_write(&self, addr: u16, mapped: u32) -> (bool, u32) {
        (false, mapped)
    }

    open spec fn spec_reset(&self) -> Self {
        *self
    }

    open spec fn spec_mirror(&self) -> Mirror {
        Mirror::Hardware
    }

    fn new(prg_banks_count: u8, chr_banks_count: u8) -> (m: Self) {
        Self { prg_banks_count, chr_banks_count }
    }

    fn cpu_map_read(&self, addr: u16, mapped_addr: &mut u32) -> (r: bool) {
        if addr >= 0x8000 {
            *mapped_addr = if self.prg_banks_count > 1 {
                (addr & 0x7FFF) as u32
            } else {
                (addr & 0x3FFF) as u32
            };
            proof {
                crate::bits::lemma_u16_bits(addr);
            }
            return true;
        }
        false
    }

    fn cpu_map_write(&mut self, addr: u16, mapped_addr: &mut u32, data: u8) -> (r: bool) {
        if addr >= 0x8000 {
            *mapped_addr = if self.prg_banks_count > 1 {
                (addr & 0x7FFF) as u32
            } else {
                (addr & 0x3FFF) as u32
            };
            proof {
                crate::bits::lemma_u16_bits(addr);
            }
            return true;
        }
        false
    }

    fn ppu_map_read(&self, addr: u16, mapped_addr: &mut u32) -> (r: bool) {
        if addr <= 0x1FFF {
            *mapped_addr = addr as u32;
            return true;
        }
        false
    }

    fn ppu_map_write(&self, addr: u16, mapped_addr: &mut u32) -> (r: bool) {
        false
    }

    fn reset(&mut self) {
    }

    fn mirror(&self) -> (m: Mirror) {
        Mirror::Hardware
    }
}

/// UxROM: a switchable 16 KiB program bank at `0x8000`, the last bank fixed
/// at `0xC000`, and character RAM when the cartridge has no character ROM.
#[derive(Debug, Copy, Clone, PartialEq, Eq, Structural)]
pub struct Mapper002 {
    pub prg_banks_count: u8,
    pub chr_banks_count: u8,
    pub prg_top_bank: u8,
}

impl Mapper for Mapper002 {
    open spec fn spec_new(prg_banks_count: u8, chr_banks_count: u8) -> Self {
        Mapper002 { prg_banks_count, chr_banks_count, prg_top_bank: 0 }
    }

    /// A bank is chosen modulo the bank count, so there must be one.
    open spec fn cpu_read_defined(&self, addr: u16) -> bool {
        addr < 0x8000 || self.prg_banks_count > 0
    }

    /// The offset is computed, but the cartridge does not answer the read.
    open spec fn spec_cpu_map_read(&self, addr: u16, mapped: u32) -> (bool, u32) {
        if addr >= 0x8000 {
            let bank = if addr <= 0xBFFF {
                self.prg_top_bank % 16
            } else {
                (self.prg_banks_count - 1) as u8
            };
            let bank = bank % self.prg_banks_count;
            (false, (bank * 0x4000 + addr % 0x4000) as u32)
        } else {
            (false, mapped)
        }
    }

    /// A write to `0x8000..=0xFFFF` selects the bank; the cartridge does not
    /// answer it.
    open spec fn spec_cpu_map_write(&self, addr: u16, mapped: u32, data: u8) -> (bool, u32, Self) {
        if addr >= 0x8000 {
            (false, mapped, Mapper002 { prg_top_bank: data, ..*self })
        } else {
            (false, mapped, *self)
        }
    }

    open spec fn spec_ppu_map_read(&self, addr: u16, mapped: u32) -> (bool, u32) {
        if addr < 0x2000 {
            (true, addr as u32)
        } else {
            (false, mapped)
        }
    }

    open spec fn spec_ppu_map_write(&self, addr: u16, mapped: u32) -> (bool, u32) {
        if addr < 0x1FFF && self.chr_banks_count == 0 {
            (true, addr as u32)
        } else {
            (false, mapped)
        }
    }

    open spec fn spec_reset(&self) -> Self {
        Mapper002 { prg_top_bank: 0, ..*self }
    }

    open spec fn spec_mirror(&self) -> Mirror {
        Mirror::Hardware
    }

    fn new(prg_banks_count: u8, chr_banks_count: u8) -> (m: Self) {
        Self { prg_banks_count, chr_banks_count, prg_top_bank: 0 }
    }

    fn cpu_map_read(&self, addr: u16, mapped_addr: &mut u32) -> (r: bool) {
        if addr >= 0x8000 {
            let mut bank = if addr <= 0xBFFF {
                self.prg_top_bank & 0x0F
            } else {
                self.prg_banks_count - 1
            } as usize;
            proof {
                let t = self.prg_top_bank;
                crate::bits::lemma_u8_bits(t);
            }

            bank %= self.prg_banks_count as usize;

            let start_of_bank = bank * 0x4000;

            proof {
                crate::bits::lemma_u16_bits(addr);
            }
            *mapped_addr = (start_of_bank + (addr & 0x3FFF) as usize) as u32;
        }
        false
    }

    fn cpu_map_write(&mut self, addr: u16, mapped_addr: &mut u32, data: u8) -> (r: bool) {
        if addr >= 0x8000 {
            self.prg_top_bank = data;
        }
        false
    }

    fn ppu_map_read(&self, addr: u16, mapped_addr: &mut u32) -> (r: bool) {
        if addr < 0x2000 {
            *mapped_addr = addr as u32;
            return true;
        }
        false
    }

    fn ppu_map_write(&self, addr: u16, mapped_addr: &mut u32) -> (r: bool) {
        if addr < 0x1FFF && self.chr_banks_count == 0 {
            *mapped_addr = addr as u32;
            return true;
        }
        false
    }

    fn reset(&mut self) {
        self.prg_top_bank = 0;
    }

    fn mirror(&self) -> (m: Mirror) {
        Mirror::Hardware
    }
}

/// With a single 16 KiB bank of program ROM, the CPU sees it twice: at
/// `0x8000` and again at `0xC000`.
pub proof fn lemma_nrom_mirror(m: Mapper000, addr: u16, mapped: u32)
    requires
        m.prg_banks_count <= 1,
        0x8000 <= addr <= 0xBFFF,
    ensures
        m.spec_cpu_map_read(addr, mapped) == m.spec_cpu_map_read((addr + 0x4000) as u16, mapped),
        m.spec_cpu_map_read(addr, mapped) == (true, (addr - 0x8000) as u32),
{
}

/// A bank selected by a write to the UxROM register is the one the lower
/// half of program space reads from (until the next write or a reset); the
/// upper half stays on the last bank.
pub proof fn lemma_uxrom_bank_select(m: Mapper002, sel: u16, data: u8, addr: u16, mapped: u32)
    requires
        m.prg_banks_count > 0,
        0x8000 <= sel,
        0x8000 <= addr,
    ensures
        ({
            let (_, _, m2) = m.spec_cpu_map_write(sel, mapped, data);
            let (_, offset) = m2.spec_cpu_map_read(addr, mapped);
            &&& addr <= 0xBFFF ==> offset == ((data % 16) % m.prg_banks_count) as int * 0x4000 + addr
                % 0x4000
            &&& addr > 0xBFFF ==> offset == (m.prg_banks_count - 1) as int * 0x4000 + addr % 0x4000
        }),
{
    let lower = ((data % 16) % m.prg_banks_count) as int;
    let upper = ((m.prg_banks_count - 1) as u8 % m.prg_banks_count) as int;
    assert(0 <= lower * 0x4000 <= 255 * 0x4000) by (nonlinear_arith)
        requires
            0 <= lower <= 255,
    ;
    assert(0 <= upper * 0x4000 <= 255 * 0x4000) by (nonlinear_arith)
        requires
            0 <= upper <= 255,
    ;
    vstd::arithmetic::div_mod::lemma_small_mod(
        (m.prg_banks_count - 1) as nat,
        m.prg_banks_count as nat,
    );
    assert(upper == m.prg_banks_count - 1);
}

} // verus!
