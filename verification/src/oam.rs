use vstd::prelude::*;

verus! {

/// One sprite of the Object Attribute Memory.
#[derive(Debug, Clone, Copy, PartialEq, Eq, Structural)]
pub struct EntryOA {
    pub y: u8,
    pub tile_index: u8,
    pub attributes: u8,
    pub x: u8,
}

/// Byte `k` (0 to 3) of a sprite: y, tile index, attributes, x.
pub open spec fn entry_byte(e: EntryOA, k: int) -> u8 {
    if k == 0 {
        e.y
    } else if k == 1 {
        e.tile_index
    } else if k == 2 {
        e.attributes
    } else {
        e.x
    }
}

/// The sprite `e` with byte `k` replaced by `data`.
pub open spec fn entry_with_byte(e: EntryOA, k: int, data: u8) -> EntryOA {
    if k == 0 {
        EntryOA { y: data, ..e }
    } else if k == 1 {
        EntryOA { tile_index: data, ..e }
    } else if k == 2 {
        EntryOA { attributes: data, ..e }
    } else {
        EntryOA { x: data, ..e }
    }
}

impl EntryOA {
    /// A sprite with every byte zero.
    pub fn new() -> (e: EntryOA)
        ensures
            e == (EntryOA { y: 0, tile_index: 0, attributes: 0, x: 0 }),
    {
        EntryOA { y: 0, tile_index: 0, attributes: 0, x: 0 }
    }

    /// Sets every byte of the sprite to `value`.
    pub fn set(&mut self, value: u8)
        ensures
            *final(self) == (EntryOA { y: value, tile_index: value, attributes: value, x: value }),
    {
        self.y = value;
        self.tile_index = value;
        self.attributes = value;
        self.x = value;
    }
}

/// The Object Attribute Memory: 64 sprites of 4 bytes, addressed bytewise.
#[allow(clippy::upper_case_acronyms)]
#[derive(Debug)]
pub struct OAM {
    pub oam: Vec<EntryOA>,
    pub address: u8,
}

/// The byte at `address` of the sprite memory `entries`.
pub open spec fn oam_byte(entries: Seq<EntryOA>, address: u8) -> u8 {
    entry_byte(entries[address as int / 4], address as int % 4)
}

/// The sprite memory `entries` with the byte at `address` replaced.
pub open spec fn oam_with_byte(entries: Seq<EntryOA>, address: u8, data: u8) -> Seq<EntryOA> {
    entries.update(
        address as int / 4,
        entry_with_byte(entries[address as int / 4], address as int % 4, data),
    )
}

impl OAM {
    /// 64 sprites.
    pub open spec fn wf(&self) -> bool {
        self.oam@.len() == 64
    }

    /// A cleared sprite memory, address 0.
    pub fn new() -> (o: OAM)
        ensures
            o.wf(),
            forall|i: int|
                0 <= i < 64 ==> o.oam@[i] == (EntryOA { y: 0, tile_index: 0, attributes: 0, x: 0 }),
            o.address == 0,
    {
        let mut oam: Vec<EntryOA> = Vec::new();
        let mut i: usize = 0;
        while i < 64
            invariant
                i <= 64,
                oam@.len() == i,
                forall|j: int|
                    0 <= j < i ==> oam@[j] == (EntryOA { y: 0, tile_index: 0, attributes: 0, x: 0 }),
            decreases 64 - i,
        {
            oam.push(EntryOA::new());
            i = i + 1;
        }
        OAM { oam, address: 0 }
    }

    /// Sprite number `index`.
    pub fn get_entry(&self, index: u8) -> (e: &EntryOA)
        requires
            self.wf(),
            index < 64,
        ensures
            *e == self.oam@[index as int],
    {
        &self.oam[index as usize]
    }

    /// Writes the byte at `address`.
    pub fn write(&mut self, address: u8, data: u8)
        requires
            old(self).wf(),
        ensures
            final(self).wf(),
            final(self).oam@ == oam_with_byte(old(self).oam@, address, data),
            final(self).address == old(self).address,
    {
        let i = address as usize / 4;
        let mut e = self.oam[i];
        match address % 4 {
            0 => e.y = data,
            1 => e.tile_index = data,
            2 => e.attributes = data,
            _ => e.x = data,
        }
        self.oam.set(i, e);
    }

    /// Reads the byte at the current address into `data`.
    pub fn read(&self, data: &mut u8)
        requires
            self.wf(),
        ensures
            *final(data) == oam_byte(self.oam@, self.address),
    {
        let e = self.oam[self.address as usize / 4];
        match self.address % 4 {
            0 => *data = e.y,
            1 => *data = e.tile_index,
            2 => *data = e.attributes,
            _ => *data = e.x,
        }
    }

    /// The current address.
    pub fn get_address(&self) -> (a: u8)
        ensures
            a == self.address,
    {
        self.address
    }

    /// Sets the current address.
    pub fn set_address(&mut self, address: u8)
        ensures
            final(self).oam@ == old(self).oam@,
            final(self).address == address,
    {
        self.address = address;
    }
}

/// A read at an address gives back the last byte written there, and a write
/// leaves every other byte as it was.
pub proof fn lemma_oam_read_after_write(entries: Seq<EntryOA>, a: u8, b: u8, data: u8)
    requires
        entries.len() == 64,
    ensures
        oam_with_byte(entries, a, data).len() == 64,
        oam_byte(oam_with_byte(entries, a, data), b) == if a == b {
            data
        } else {
            oam_byte(entries, b)
        },
{
}

} // verus!
