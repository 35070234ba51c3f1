use vstd::prelude::*;
use crate::mappers::{Mapper, Mapper000, Mapper002};

verus! {

/// The 16-byte header of an iNES file.
#[derive(Debug, Copy, Clone, PartialEq, Eq)]
pub struct HeaderCartridge {
    pub name: [u8; 4],
    pub prg_rom_chunks: u8,
    pub chr_rom_chunks: u8,
    pub mapper1: u8,
    pub mapper2: u8,
    pub prg_ram_size: u8,
    pub tv_system1: u8,
    pub tv_system2: u8,
    pub unused: [u8; 5],
}

impl HeaderCartridge {
    /// The header held by the first 16 bytes of `buffer`, field by field.
    pub open spec fn spec_from_bytes(buffer: Seq<u8>) -> HeaderCartridge {
        HeaderCartridge {
            name: [buffer[0], buffer[1], buffer[2], buffer[3]],
            prg_rom_chunks: buffer[4],
            chr_rom_chunks: buffer[5],
            mapper1: buffer[6],
            mapper2: buffer[7],
            prg_ram_size: buffer[8],
            tv_system1: buffer[9],
            tv_system2: buffer[10],
            unused: [buffer[11], buffer[12], buffer[13], buffer[14], buffer[15]],
        }
    }

    /// Decodes the first 16 bytes of `buffer`.
    pub fn from_bytes(buffer: &[u8]) -> (h: Self)
        requires
            buffer@.len() >= 16,
        ensures
            h == Self::spec_from_bytes(buffer@),
    {
        HeaderCartridge {
            name: [buffer[0], buffer[1], buffer[2], buffer[3]],
            prg_rom_chunks: buffer[4],
            chr_rom_chunks: buffer[5],
            mapper1: buffer[6],
            mapper2: buffer[7],
            prg_ram_size: buffer[8],
            tv_system1: buffer[9],
            tv_system2: buffer[10],
            unused: [buffer[11], buffer[12], buffer[13], buffer[14], buffer[15]],
        }
    }

    /// The mapper number: high nibble from `mapper2`, low nibble from `mapper1`.
    pub open spec fn spec_mapper_id(self) -> u8 {
        ((self.mapper2 / 16) * 16 + self.mapper1 / 16) as u8
    }

    /// Whether a 512-byte trainer sits between the header and the program ROM.
    pub open spec fn spec_has_trainer(self) -> bool {
        self.mapper1 & 0x04 != 0
    }

    /// Whether the file is in the NES 2.0 format.
    pub open spec fn spec_is_nes2(self) -> bool {
        self.mapper2 & 0x0C == 0x08
    }

    /// The name table arrangement wired on the board.
    pub open spec fn spec_mirror(self) -> Mirror {
        if self.mapper1 & 0x01 != 0 {
            Mirror::Vertical
        } else {
            Mirror::Horizontal
        }
    }
}

/// How the two name tables of the PPU are arranged.
#[derive(Debug, Copy, Clone, PartialEq, Eq, Structural)]
pub enum Mirror {
    Hardware,
    Horizontal,
    Vertical,
    OneScreenLo,
    OneScreenHi,
}

/// The mapper circuit of a cartridge.
#[derive(Debug, Copy, Clone, PartialEq, Eq, Structural)]
pub enum CartridgeMapper {
    Nrom(Mapper000),
    Uxrom(Mapper002),
}

/// Why an iNES image cannot be loaded.
#[derive(Debug, Copy, Clone, PartialEq, Eq, Structural)]
pub enum CartridgeError {
    /// Fewer than 16 bytes: no header.
    MissingHeader,
    /// The NES 2.0 format is not supported.
    UnsupportedFormat,
    /// The mapper with this number is not supported.
    UnsupportedMapper(u8),
}

/// A game cartridge: program ROM, character memory and the mapper circuit.
#[derive(Debug)]
pub struct ComponentCartridge {
    /// Program ROM
    prg_rom: Vec<u8>,
    /// Character ROM
    chr_rom: Vec<u8>,
    mapper: CartridgeMapper,
    pub hardware_mirror: Mirror,
}

/// Abstract state of a cartridge.
pub struct CartridgeView {
    pub prg_rom: Seq<u8>,
    pub chr_rom: Seq<u8>,
    pub mapper: CartridgeMapper,
    pub hardware_mirror: Mirror,
}

impl CartridgeMapper {
    pub open spec fn cpu_read_defined(self, addr: u16) -> bool {
        match self {
            CartridgeMapper::Nrom(m) => m.cpu_read_defined(addr),
            CartridgeMapper::Uxrom(m) => m.cpu_read_defined(addr),
        }
    }

    pub open spec fn spec_cpu_map_read(self, addr: u16, mapped: u32) -> (bool, u32) {
        match self {
            CartridgeMapper::Nrom(m) => m.spec_cpu_map_read(addr, mapped),
            CartridgeMapper::Uxrom(m) => m.spec_cpu_map_read(addr, mapped),
        }
    }

    pub open spec fn spec_cpu_map_write(self, addr: u16, mapped: u32, data: u8) -> (
        bool,
        u32,
        CartridgeMapper,
    ) {
        match self {
            CartridgeMapper::Nrom(m) => {
                let (r, a, m2) = m.spec_cpu_map_write(addr, mapped, data);
                (r, a, CartridgeMapper::Nrom(m2))
            },
            CartridgeMapper::Uxrom(m) => {
                let (r, a, m2) = m.spec_cpu_map_write(addr, mapped, data);
                (r, a, CartridgeMapper::Uxrom(m2))
            },
        }
    }

    pub open spec fn spec_ppu_map_read(self, addr: u16, mapped: u32) -> (bool, u32) {
        match self {
            CartridgeMapper::Nrom(m) => m.spec_ppu_map_read(addr, mapped),
            CartridgeMapper::Uxrom(m) => m.spec_ppu_map_read(addr, mapped),
        }
    }

    pub open spec fn spec_ppu_map_write(self, addr: u16, mapped: u32) -> (bool, u32) {
        match self {
            CartridgeMapper::Nrom(m) => m.spec_ppu_map_write(addr, mapped),
            CartridgeMapper::Uxrom(m) => m.spec_ppu_map_write(addr, mapped),
        }
    }

    pub open spec fn spec_reset(self) -> CartridgeMapper {
        match self {
            CartridgeMapper::Nrom(m) => CartridgeMapper::Nrom(m.spec_reset()),
            CartridgeMapper::Uxrom(m) => CartridgeMapper::Uxrom(m.spec_reset()),
        }
    }

    pub open spec fn spec_mirror(self) -> Mirror {
        match self {
            CartridgeMapper::Nrom(m) => m.spec_mirror(),
            CartridgeMapper::Uxrom(m) => m.spec_mirror(),
        }
    }

    /// The memory sizes under which every translated offset is in range.
    pub open spec fn fits(self, prg_len: nat, chr_len: nat) -> bool {
        match self {
            CartridgeMapper::Nrom(m) => {
                &&& prg_len >= (if m.prg_banks_count > 1 {
                    0x8000nat
                } else {
                    0x4000nat
                })
                &&& chr_len >= 0x2000
            },
            CartridgeMapper::Uxrom(m) => m.prg_banks_count > 0 && chr_len >= 0x2000,
        }
    }
}

/// Whether `mapper` and the memory sizes keep every access in range.
pub open spec fn cartridge_fits(c: CartridgeView) -> bool {
    c.mapper.fits(c.prg_rom.len(), c.chr_rom.len())
}

/// A CPU read of `addr` from the cartridge does not fault: the mapper can
/// translate it, and an offset it answers with lies in the program ROM.
pub open spec fn cpu_read_ok(c: CartridgeView, addr: u16) -> bool {
    &&& c.mapper.cpu_read_defined(addr)
    &&& ({
        let (hit, m) = c.mapper.spec_cpu_map_read(addr, 0);
        hit && m != 0xFFFFFFFF ==> m < c.prg_rom.len()
    })
}

/// A CPU write of `data` to `addr` does not fault: an offset the cartridge
/// answers with lies in the program ROM.
pub open spec fn cpu_write_ok(c: CartridgeView, addr: u16, data: u8) -> bool {
    let (hit, m, _) = c.mapper.spec_cpu_map_write(addr, 0, data);
    hit && m != 0xFFFFFFFF ==> m < c.prg_rom.len()
}

/// A PPU read of `addr` does not fault: an offset the cartridge answers with
/// lies in the character memory.
pub open spec fn ppu_read_ok(c: CartridgeView, addr: u16) -> bool {
    let (hit, m) = c.mapper.spec_ppu_map_read(addr, 0);
    hit ==> m < c.chr_rom.len()
}

/// A PPU write to `addr` does not fault.
pub open spec fn ppu_write_ok(c: CartridgeView, addr: u16) -> bool {
    let (hit, m) = c.mapper.spec_ppu_map_write(addr, 0);
    hit ==> m < c.chr_rom.len()
}

/// In a cartridge that fits its mapper no access faults.
pub proof fn lemma_fits_accesses_ok(c: CartridgeView, addr: u16, data: u8)
    requires
        cartridge_fits(c),
    ensures
        cpu_read_ok(c, addr),
        cpu_write_ok(c, addr, data),
        ppu_read_ok(c, addr),
        ppu_write_ok(c, addr),
{
}

/// The name table arrangement of a cartridge: the mapper's, unless the
/// mapper leaves it to the board.
pub open spec fn spec_cartridge_mirror(c: CartridgeView) -> Mirror {
    if c.mapper.spec_mirror() == Mirror::Hardware {
        c.hardware_mirror
    } else {
        c.mapper.spec_mirror()
    }
}

/// A CPU read from the cartridge: whether it answers, and the byte.
pub open spec fn spec_cartridge_cpu_read(c: CartridgeView, addr: u16, data: u8) -> (bool, u8) {
    let (hit, mapped) = c.mapper.spec_cpu_map_read(addr, 0);
    if hit {
        if mapped == 0xFFFFFFFF {
            (true, data)
        } else {
            (true, c.prg_rom[mapped as int])
        }
    } else {
        (false, data)
    }
}

/// A CPU write to the cartridge: whether it answers, and the cartridge after.
pub open spec fn spec_cartridge_cpu_write(c: CartridgeView, addr: u16, data: u8) -> (
    bool,
    CartridgeView,
) {
    let (hit, mapped, m2) = c.mapper.spec_cpu_map_write(addr, 0, data);
    let c2 = CartridgeView { mapper: m2, ..c };
    if hit {
        if mapped == 0xFFFFFFFF {
            (true, c2)
        } else {
            (true, CartridgeView { prg_rom: c.prg_rom.update(mapped as int, data), ..c2 })
        }
    } else {
        (false, c2)
    }
}

/// A PPU read from the cartridge: whether it answers, and the byte.
pub open spec fn spec_cartridge_ppu_read(c: CartridgeView, addr: u16, data: u8) -> (bool, u8) {
    let (hit, mapped) = c.mapper.spec_ppu_map_read(addr, 0);
    if hit {
        (true, c.chr_rom[mapped as int])
    } else {
        (false, data)
    }
}

/// A PPU write to the cartridge: whether it answers, and the cartridge after.
pub open spec fn spec_cartridge_ppu_write(c: CartridgeView, addr: u16, data: u8) -> (
    bool,
    CartridgeView,
) {
    let (hit, mapped) = c.mapper.spec_ppu_map_write(addr, 0);
    if hit {
        (true, CartridgeView { chr_rom: c.chr_rom.update(mapped as int, data), ..c })
    } else {
        (false, c)
    }
}

/// `len` bytes of `bytes` from `start`, padded with zeros past its end.
pub open spec fn padded_slice(bytes: Seq<u8>, start: int, len: int) -> Seq<u8> {
    Seq::new(
        len as nat,
        |i: int|
            if start + i < bytes.len() {
                bytes[start + i]
            } else {
                0u8
            },
    )
}

/// Where the program ROM starts in an iNES image.
pub open spec fn prg_start(h: HeaderCartridge) -> int {
    16 + if h.spec_has_trainer() {
        512int
    } else {
        0
    }
}

/// Size of the program ROM.
pub open spec fn prg_len(h: HeaderCartridge) -> int {
    h.prg_rom_chunks as int * 0x4000
}

/// Size of the character memory (8 KiB of RAM when the image has no ROM).
pub open spec fn chr_len(h: HeaderCartridge) -> int {
    if h.chr_rom_chunks == 0 {
        0x2000
    } else {
        h.chr_rom_chunks as int * 0x2000
    }
}

/// The outcome of loading an iNES image.
pub open spec fn spec_load(bytes: Seq<u8>) -> Result<CartridgeView, CartridgeError> {
    if bytes.len() < 16 {
        Err(CartridgeError::MissingHeader)
    } else {
        let h = HeaderCartridge::spec_from_bytes(bytes);
        if h.spec_is_nes2() {
            Err(CartridgeError::UnsupportedFormat)
        } else if h.spec_mapper_id() != 0 && h.spec_mapper_id() != 2 {
            Err(CartridgeError::UnsupportedMapper(h.spec_mapper_id()))
        } else {
            let mapper = if h.spec_mapper_id() == 0 {
                CartridgeMapper::Nrom(Mapper000::spec_new(h.prg_rom_chunks, h.chr_rom_chunks))
            } else {
                CartridgeMapper::Uxrom(Mapper002::spec_new(h.prg_rom_chunks, h.chr_rom_chunks))
            };
            Ok(
                CartridgeView {
                    prg_rom: padded_slice(bytes, prg_start(h), prg_len(h)),
                    chr_rom: padded_slice(bytes, prg_start(h) + prg_len(h), chr_len(h)),
                    mapper: mapper,
                    hardware_mirror: h.spec_mirror(),
                },
            )
        }
    }
}

/// Copies `len` bytes of `bytes` from `start`, with zeros past its end.
fn copy_padded(bytes: &[u8], start: usize, len: usize) -> (v: Vec<u8>)
    requires
        start + len <= usize::MAX,
    ensures
        v@ == padded_slice(bytes@, start as int, len as int),
{
    let mut v: Vec<u8> = Vec::new();
    let mut i: usize = 0;
    while i < len
        invariant
            i <= len,
            start + len <= usize::MAX,
            v@ == padded_slice(bytes@, start as int, i as int),
        decreases len - i,
    {
        let b = if start + i < bytes.len() {
            bytes[start + i]
        } else {
            0u8
        };
        v.push(b);
        i = i + 1;
        assert(v@ =~= padded_slice(bytes@, start as int, i as int));
    }
    v
}

impl ComponentCartridge {
    /// The abstract state of the cartridge.
    pub closed spec fn view(&self) -> CartridgeView {
        CartridgeView {
            prg_rom: self.prg_rom@,
            chr_rom: self.chr_rom@,
            mapper: self.mapper,
            hardware_mirror: self.hardware_mirror,
        }
    }

    /// Whether every translated offset is in range.
    pub open spec fn wf(&self) -> bool {
        cartridge_fits(self.view())
    }

    /// Whether the memories are large enough for the mapper, so that no
    /// access faults; false for an empty slot or an image without program ROM.
    pub fn fits_mapper(&self) -> (r: bool)
        ensures
            r == self.wf(),
    {
        match &self.mapper {
            CartridgeMapper::Nrom(m) => {
                let prg_needed: usize = if m.prg_banks_count > 1 {
                    0x8000
                } else {
                    0x4000
                };
                self.prg_rom.len() >= prg_needed && self.chr_rom.len() >= 0x2000
            },
            CartridgeMapper::Uxrom(m) => m.prg_banks_count > 0 && self.chr_rom.len() >= 0x2000,
        }
    }

    /// An empty slot: no memory, NROM with no banks, horizontal mirroring.
    pub fn new() -> (c: Self)
        ensures
            c.view() == (CartridgeView {
                prg_rom: Seq::empty(),
                chr_rom: Seq::empty(),
                mapper: CartridgeMapper::Nrom(Mapper000::spec_new(0, 0)),
                hardware_mirror: Mirror::Horizontal,
            }),
    {
        let c = Self {
            prg_rom: Vec::new(),
            chr_rom: Vec::new(),
            mapper: CartridgeMapper::Nrom(Mapper000::new(0, 0)),
            hardware_mirror: Mirror::Horizontal,
        };
        assert(c.view().prg_rom =~= Seq::empty());
        assert(c.view().chr_rom =~= Seq::empty());
        c
    }

    /// Loads an iNES image: the header, an optional 512-byte trainer that is
    /// skipped, the program ROM, then the character ROM. Data missing at the
    /// end of the image reads as zeros. An image without program ROM loads
    /// too: the cartridge fits its mapper exactly when the header gives at
    /// least one bank of program ROM.
    pub fn from_bytes(bytes: &[u8]) -> (r: Result<Self, CartridgeError>)
        ensures
            match (r, spec_load(bytes@)) {
                (Ok(c), Ok(v)) => c.view() == v && c.wf() == (bytes@[4] > 0),
                (Err(e), Err(f)) => e == f,
                _ => false,
            },
    {
        if bytes.len() < 16 {
            return Err(CartridgeError::MissingHeader);
        }
        let header = HeaderCartridge::from_bytes(bytes);

        let start: usize = if header.mapper1 & 0x04 != 0 {
            16 + 512
        } else {
            16
        };

        let mapper_id = ((header.mapper2 >> 4) << 4) | (header.mapper1 >> 4);
        proof {
            let m1 = header.mapper1;
            let m2 = header.mapper2;
            assert(((m2 >> 4u8) << 4u8) | (m1 >> 4u8) == ((m2 / 16) * 16 + m1 / 16) as u8)
                by (bit_vector);
        }
        let hardware_mirror = if header.mapper1 & 0x01 != 0 {
            Mirror::Vertical
        } else {
            Mirror::Horizontal
        };

        if header.mapper2 & 0x0C == 0x08 {
            return Err(CartridgeError::UnsupportedFormat);
        }
        if mapper_id != 0 && mapper_id != 2 {
            return Err(CartridgeError::UnsupportedMapper(mapper_id));
        }
        let prg_banks_count = header.prg_rom_chunks;
        let prg_size = prg_banks_count as usize * 16 * 1024;
        let prg_rom = copy_padded(bytes, start, prg_size);

        let chr_banks_count = header.chr_rom_chunks;
        let chr_size = if chr_banks_count == 0 {
            8 * 1024
        } else {
            chr_banks_count as usize * 8 * 1024
        };
        let chr_rom = copy_padded(bytes, start + prg_size, chr_size);

        let mapper = if mapper_id == 0 {
            CartridgeMapper::Nrom(Mapper000::new(prg_banks_count, chr_banks_count))
        } else {
            CartridgeMapper::Uxrom(Mapper002::new(prg_banks_count, chr_banks_count))
        };

        Ok(Self { prg_rom, chr_rom, mapper, hardware_mirror })
    }

    /// The name table arrangement in use.
    pub fn mirror(&self) -> (m: Mirror)
        ensures
            m == spec_cartridge_mirror(self.view()),
    {
        let mirror = match &self.mapper {
            CartridgeMapper::Nrom(m) => m.mirror(),
            CartridgeMapper::Uxrom(m) => m.mirror(),
        };

        if mirror == Mirror::Hardware {
            return self.hardware_mirror;
        }

        mirror
    }

    /// A CPU read: `true` when the cartridge answers the address, with the
    /// byte left in `data`.
    pub fn cpu_read(&self, addr: u16, data: &mut u8) -> (r: bool)
        requires
            cpu_read_ok(self.view(), addr),
        ensures
            (r, *final(data)) == spec_cartridge_cpu_read(self.view(), addr, *old(data)),
    {
        let mut mapped_addr: u32 = 0x0000;

        let hit = match &self.mapper {
            CartridgeMapper::Nrom(m) => m.cpu_map_read(addr, &mut mapped_addr),
            CartridgeMapper::Uxrom(m) => m.cpu_map_read(addr, &mut mapped_addr),
        };
        if hit {
            if mapped_addr == 0xFFFFFFFF {
                return true;
            } else {
                *data = self.prg_rom[mapped_addr as usize];
            }
            return true;
        }

        false
    }

    /// A CPU write: `true` when the cartridge answers the address (the mapper
    /// may change state either way).
    pub fn cpu_write(&mut self, addr: u16, data: u8) -> (r: bool)
        requires
            cpu_write_ok(old(self).view(), addr, data),
        ensures
            final(self).wf() == old(self).wf(),
            (r, final(self).view()) == spec_cartridge_cpu_write(old(self).view(), addr, data),
    {
        let mut mapped_addr: u32 = 0x0000;

        let hit = match &mut self.mapper {
            CartridgeMapper::Nrom(m) => m.cpu_map_write(addr, &mut mapped_addr, data),
            CartridgeMapper::Uxrom(m) => m.cpu_map_write(addr, &mut mapped_addr, data),
        };
        if hit {
            if mapped_addr == 0xFFFFFFFF {
                return true;
            } else {
                self.prg_rom.set(mapped_addr as usize, data);
            }
            return true;
        }

        false
    }

    /// A PPU read: `true` when the cartridge answers the address, with the
    /// byte left in `data`.
    pub fn ppu_read(&self, addr: u16, data: &mut u8) -> (r: bool)
        requires
            ppu_read_ok(self.view(), addr),
        ensures
            (r, *final(data)) == spec_cartridge_ppu_read(self.view(), addr, *old(data)),
    {
        let mut mapped_addr: u32 = 0x0000;

        let hit = match &self.mapper {
            CartridgeMapper::Nrom(m) => m.ppu_map_read(addr, &mut mapped_addr),
            CartridgeMapper::Uxrom(m) => m.ppu_map_read(addr, &mut mapped_addr),
        };
        if hit {
            *data = self.chr_rom[mapped_addr as usize];
            return true;
        }

        false
    }

    /// A PPU write: `true` when the cartridge answers the address.
    pub fn ppu_write(&mut self, addr: u16, data: u8) -> (r: bool)
        requires
            ppu_write_ok(old(self).view(), addr),
        ensures
            final(self).wf() == old(self).wf(),
            (r, final(self).view()) == spec_cartridge_ppu_write(old(self).view(), addr, data),
    {
        let mut mapped_addr: u32 = 0x000;

        let hit = match &self.mapper {
            CartridgeMapper::Nrom(m) => m.ppu_map_write(addr, &mut mapped_addr),
            CartridgeMapper::Uxrom(m) => m.ppu_map_write(addr, &mut mapped_addr),
        };
        if hit {
            self.chr_rom.set(mapped_addr as usize, data);
            return true;
        }

        false
    }

    /// Resets the mapper.
    pub fn reset(&mut self)
        ensures
            final(self).wf() == old(self).wf(),
            final(self).view() == (CartridgeView {
                mapper: old(self).view().mapper.spec_reset(),
                ..old(self).view()
            }),
    {
        match &mut self.mapper {
            CartridgeMapper::Nrom(m) => m.reset(),
            CartridgeMapper::Uxrom(m) => m.reset(),
        }
    }
}

} // verus!
