use vstd::prelude::*;

verus! {

/// Bit `i` of `b`.
pub open spec fn bit_of(b: u8, i: u8) -> bool {
    (b >> i) & 1 == 1
}

/// `b` with bit `i` set to `v`.
pub open spec fn with_bit(b: u8, i: u8, v: bool) -> u8 {
    if v {
        b | (1u8 << i)
    } else {
        b & !(1u8 << i)
    }
}

/// Setting one bit changes that bit and no other.
pub proof fn lemma_with_bit(b: u8, i: u8, v: bool, j: u8)
    requires
        i < 8,
        j < 8,
    ensures
        bit_of(with_bit(b, i, v), j) == if i == j {
            v
        } else {
            bit_of(b, j)
        },
{
    assert((((b | (1u8 << i)) >> j) & 1 == 1 <==> (i == j || (b >> j) & 1 == 1)) && (((b & !(1u8
        << i)) >> j) & 1 == 1 <==> (i != j && (b >> j) & 1 == 1))) by (bit_vector)
        requires
            i < 8,
            j < 8,
    ;
}

fn get_bit(b: u8, i: u8) -> (r: bool)
    requires
        i < 8,
    ensures
        r == bit_of(b, i),
{
    (b >> i) & 1 == 1
}

fn set_bit(b: u8, i: u8, v: bool) -> (r: u8)
    requires
        i < 8,
    ensures
        r == with_bit(b, i, v),
{
    if v {
        b | (1u8 << i)
    } else {
        b & !(1u8 << i)
    }
}

/// PPUSTATUS: bits 0-4 unused, then sprite overflow, sprite zero hit and
/// vertical blank in bit 7.
#[derive(Debug, Copy, Clone, PartialEq, Eq, Structural)]
pub struct RegisterStatus {
    bits: u8,
}

/// PPUMASK: grayscale, left-column background and sprites, background and
/// sprite rendering, and three colour emphasis bits.
#[derive(Debug, Copy, Clone, PartialEq, Eq, Structural)]
pub struct RegisterMask {
    bits: u8,
}

/// PPUCTRL: base name table (x, y), increment mode, sprite and background
/// pattern tables, sprite size, slave mode and NMI enable in bit 7.
#[derive(Debug, Copy, Clone, PartialEq, Eq, Structural)]
pub struct RegisterControl {
    bits: u8,
}

impl RegisterStatus {
    pub closed spec fn spec_bits(self) -> u8 {
        self.bits
    }

    pub fn new() -> (r: Self)
        ensures
            r.spec_bits() == 0,
    {
        RegisterStatus { bits: 0 }
    }

    pub fn from_bits(bits: u8) -> (r: Self)
        ensures
            r.spec_bits() == bits,
    {
        RegisterStatus { bits }
    }

    pub fn into_bits(self) -> (b: u8)
        ensures
            b == self.spec_bits(),
    {
        self.bits
    }

    pub fn sprite_overflow(&self) -> (r: bool)
        ensures
            r == bit_of(self.spec_bits(), 5),
    {
        get_bit(self.bits, 5)
    }

    pub fn set_sprite_overflow(&mut self, v: bool)
        ensures
            final(self).spec_bits() == with_bit(old(self).spec_bits(), 5, v),
    {
        self.bits = set_bit(self.bits, 5, v);
    }

    pub fn sprite_zero_hit(&self) -> (r: bool)
        ensures
            r == bit_of(self.spec_bits(), 6),
    {
        get_bit(self.bits, 6)
    }

    pub fn set_sprite_zero_hit(&mut self, v: bool)
        ensures
            final(self).spec_bits() == with_bit(old(self).spec_bits(), 6, v),
    {
        self.bits = set_bit(self.bits, 6, v);
    }

    pub fn vertical_blank(&self) -> (r: bool)
        ensures
            r == bit_of(self.spec_bits(), 7),
    {
        get_bit(self.bits, 7)
    }

    pub fn set_vertical_blank(&mut self, v: bool)
        ensures
            final(self).spec_bits() == with_bit(old(self).spec_bits(), 7, v),
    {
        self.bits = set_bit(self.bits, 7, v);
    }
}

impl RegisterMask {
    pub closed spec fn spec_bits(self) -> u8 {
        self.bits
    }

    pub fn new() -> (r: Self)
        ensures
            r.spec_bits() == 0,
    {
        RegisterMask { bits: 0 }
    }

    pub fn from_bits(bits: u8) -> (r: Self)
        ensures
            r.spec_bits() == bits,
    {
        RegisterMask { bits }
    }

    pub fn into_bits(self) -> (b: u8)
        ensures
            b == self.spec_bits(),
    {
        self.bits
    }

    pub fn grayscale(&self) -> (r: bool)
        ensures
            r == bit_of(self.spec_bits(), 0),
    {
        get_bit(self.bits, 0)
    }

    pub fn render_background_left(&self) -> (r: bool)
        ensures
            r == bit_of(self.spec_bits(), 1),
    {
        get_bit(self.bits, 1)
    }

    pub fn render_sprites_left(&self) -> (r: bool)
        ensures
            r == bit_of(self.spec_bits(), 2),
    {
        get_bit(self.bits, 2)
    }

    pub fn render_background(&self) -> (r: bool)
        ensures
            r == bit_of(self.spec_bits(), 3),
    {
        get_bit(self.bits, 3)
    }

    pub fn render_sprites(&self) -> (r: bool)
        ensures
            r == bit_of(self.spec_bits(), 4),
    {
        get_bit(self.bits, 4)
    }
}

impl RegisterControl {
    pub closed spec fn spec_bits(self) -> u8 {
        self.bits
    }

    pub fn new() -> (r: Self)
        ensures
            r.spec_bits() == 0,
    {
        RegisterControl { bits: 0 }
    }

    pub fn from_bits(bits: u8) -> (r: Self)
        ensures
            r.spec_bits() == bits,
    {
        RegisterControl { bits }
    }

    pub fn into_bits(self) -> (b: u8)
        ensures
            b == self.spec_bits(),
    {
        self.bits
    }

    pub fn nametable_x(&self) -> (r: bool)
        ensures
            r == bit_of(self.spec_bits(), 0),
    {
        get_bit(self.bits, 0)
    }

    pub fn nametable_y(&self) -> (r: bool)
        ensures
            r == bit_of(self.spec_bits(), 1),
    {
        get_bit(self.bits, 1)
    }

    pub fn increment_mode(&self) -> (r: bool)
        ensures
            r == bit_of(self.spec_bits(), 2),
    {
        get_bit(self.bits, 2)
    }

    pub fn pattern_sprite(&self) -> (r: bool)
        ensures
            r == bit_of(self.spec_bits(), 3),
    {
        get_bit(self.bits, 3)
    }

    pub fn pattern_background(&self) -> (r: bool)
        ensures
            r == bit_of(self.spec_bits(), 4),
    {
        get_bit(self.bits, 4)
    }

    pub fn sprite_size(&self) -> (r: bool)
        ensures
            r == bit_of(self.spec_bits(), 5),
    {
        get_bit(self.bits, 5)
    }

    pub fn enable_nmi(&self) -> (r: bool)
        ensures
            r == bit_of(self.spec_bits(), 7),
    {
        get_bit(self.bits, 7)
    }
}

/// The "loopy" VRAM address register: coarse x (bits 0-4), coarse y (5-9),
/// name table x (10) and y (11), fine y (12-14).
#[derive(Debug, Copy, Clone, PartialEq, Eq, Structural)]
pub struct RegisterLoopy {
    bits: u16,
}

/// Coarse x of a loopy address.
pub open spec fn loopy_coarse_x(b: u16) -> u16 {
    b & 0x1F
}

/// Coarse y of a loopy address.
pub open spec fn loopy_coarse_y(b: u16) -> u16 {
    (b >> 5u16) & 0x1F
}

/// Name table x of a loopy address.
pub open spec fn loopy_nametable_x(b: u16) -> bool {
    (b >> 10u16) & 1 == 1
}

/// Name table y of a loopy address.
pub open spec fn loopy_nametable_y(b: u16) -> bool {
    (b >> 11u16) & 1 == 1
}

/// Fine y of a loopy address.
pub open spec fn loopy_fine_y(b: u16) -> u16 {
    (b >> 12u16) & 0x7
}

/// Bit 15 of a loopy address.
pub open spec fn loopy_unused(b: u16) -> bool {
    (b >> 15u16) & 1 == 1
}

/// The loopy address made of its fields.
pub open spec fn loopy_from_fields(
    coarse_x: u16,
    coarse_y: u16,
    nametable_x: bool,
    nametable_y: bool,
    fine_y: u16,
    unused: bool,
) -> u16 {
    (coarse_x + coarse_y * 32 + (if nametable_x { 1024int } else { 0 }) + (if nametable_y { 2048int } else { 0 })
        + fine_y * 4096 + (if unused { 32768int } else { 0 })) as u16
}

/// A loopy address is the sum of its fields.
pub proof fn lemma_loopy_fields(b: u16)
    ensures
        loopy_coarse_x(b) < 32,
        loopy_coarse_y(b) < 32,
        loopy_fine_y(b) < 8,
        b == loopy_from_fields(
            loopy_coarse_x(b),
            loopy_coarse_y(b),
            loopy_nametable_x(b),
            loopy_nametable_y(b),
            loopy_fine_y(b),
            loopy_unused(b),
        ),
{
    lemma_loopy_bits(b);
}

/// The fields of a loopy address as masks and shifts.
proof fn lemma_loopy_bits(b: u16)
    ensures
        b & 0x1F < 32,
        (b >> 5u16) & 0x1F < 32,
        (b >> 12u16) & 0x7 < 8,
        (b >> 10u16) & 1 <= 1,
        (b >> 11u16) & 1 <= 1,
        (b >> 15u16) & 1 <= 1,
        b == (b & 0x1F) + ((b >> 5u16) & 0x1F) * 32 + ((b >> 10u16) & 1) * 1024 + ((b >> 11u16) & 1) * 2048 + ((b >> 12u16) & 0x7) * 4096 + ((b >> 15u16) & 1) * 32768,
{
    assert({
        &&& b & 0x1F < 32
        &&& (b >> 5u16) & 0x1F < 32
        &&& (b >> 12u16) & 0x7 < 8
        &&& (b >> 10u16) & 1 <= 1
        &&& (b >> 11u16) & 1 <= 1
        &&& (b >> 15u16) & 1 <= 1
        &&& b == (b & 0x1F) + ((b >> 5u16) & 0x1F) * 32 + ((b >> 10u16) & 1) * 1024 + ((b >> 11u16) & 1) * 2048 + ((b >> 12u16) & 0x7) * 4096 + ((b >> 15u16) & 1) * 32768
    }) by (bit_vector)
    ;
}

impl RegisterLoopy {
    pub closed spec fn spec_bits(self) -> u16 {
        self.bits
    }

    pub fn new() -> (r: Self)
        ensures
            r.spec_bits() == 0,
    {
        RegisterLoopy { bits: 0 }
    }

    pub fn from_bits(bits: u16) -> (r: Self)
        ensures
            r.spec_bits() == bits,
    {
        RegisterLoopy { bits }
    }

    pub fn into_bits(self) -> (b: u16)
        ensures
            b == self.spec_bits(),
    {
        self.bits
    }

    pub fn coarse_x(&self) -> (r: u16)
        ensures
            r == loopy_coarse_x(self.spec_bits()),
            r < 32,
    {
        proof {
            lemma_loopy_fields(self.bits);
        }
        self.bits & 0x1F
    }

    pub fn coarse_y(&self) -> (r: u16)
        ensures
            r == loopy_coarse_y(self.spec_bits()),
            r < 32,
    {
        proof {
            lemma_loopy_fields(self.bits);
        }
        (self.bits >> 5u16) & 0x1F
    }

    pub fn nametable_x(&self) -> (r: bool)
        ensures
            r == loopy_nametable_x(self.spec_bits()),
    {
        (self.bits >> 10u16) & 1 == 1
    }

    pub fn nametable_y(&self) -> (r: bool)
        ensures
            r == loopy_nametable_y(self.spec_bits()),
    {
        (self.bits >> 11u16) & 1 == 1
    }

    pub fn fine_y(&self) -> (r: u16)
        ensures
            r == loopy_fine_y(self.spec_bits()),
            r < 8,
    {
        proof {
            lemma_loopy_fields(self.bits);
        }
        (self.bits >> 12u16) & 0x7
    }

    pub fn set_coarse_x(&mut self, v: u16)
        requires
            v < 32,
        ensures
            final(self).spec_bits() == loopy_from_fields(
                v,
                loopy_coarse_y(old(self).spec_bits()),
                loopy_nametable_x(old(self).spec_bits()),
                loopy_nametable_y(old(self).spec_bits()),
                loopy_fine_y(old(self).spec_bits()),
                loopy_unused(old(self).spec_bits()),
            ),
    {
        let b = self.bits;
        let r = (b & !0x1Fu16) | v;
        proof {
            lemma_loopy_fields(b);
            lemma_loopy_fields(r);
            assert(loopy_coarse_x(r) == v && loopy_coarse_y(r) == loopy_coarse_y(b)
                && loopy_nametable_x(r) == loopy_nametable_x(b) && loopy_nametable_y(r)
                == loopy_nametable_y(b) && loopy_fine_y(r) == loopy_fine_y(b) && loopy_unused(r)
                == loopy_unused(b)) by (bit_vector)
                requires
                    r == (b & !0x1Fu16) | v,
                    v < 32,
            ;
        }
        self.bits = r;
    }

    pub fn set_coarse_y(&mut self, v: u16)
        requires
            v < 32,
        ensures
            final(self).spec_bits() == loopy_from_fields(
                loopy_coarse_x(old(self).spec_bits()),
                v,
                loopy_nametable_x(old(self).spec_bits()),
                loopy_nametable_y(old(self).spec_bits()),
                loopy_fine_y(old(self).spec_bits()),
                loopy_unused(old(self).spec_bits()),
            ),
    {
        let b = self.bits;
        let r = (b & !(0x1Fu16 << 5u16)) | (v << 5u16);
        proof {
            lemma_loopy_fields(b);
            lemma_loopy_fields(r);
            assert(loopy_coarse_x(r) == loopy_coarse_x(b) && loopy_coarse_y(r) == v
                && loopy_nametable_x(r) == loopy_nametable_x(b) && loopy_nametable_y(r)
                == loopy_nametable_y(b) && loopy_fine_y(r) == loopy_fine_y(b) && loopy_unused(r)
                == loopy_unused(b)) by (bit_vector)
                requires
                    r == (b & !(0x1Fu16 << 5u16)) | (v << 5u16),
                    v < 32,
            ;
        }
        self.bits = r;
    }

    pub fn set_nametable_x(&mut self, v: bool)
        ensures
            final(self).spec_bits() == loopy_from_fields(
                loopy_coarse_x(old(self).spec_bits()),
                loopy_coarse_y(old(self).spec_bits()),
                v,
                loopy_nametable_y(old(self).spec_bits()),
                loopy_fine_y(old(self).spec_bits()),
                loopy_unused(old(self).spec_bits()),
            ),
    {
        let b = self.bits;
        let r = if v {
            b | (1u16 << 10u16)
        } else {
            b & !(1u16 << 10u16)
        };
        proof {
            lemma_loopy_fields(b);
            lemma_loopy_fields(r);
            assert(loopy_coarse_x(r) == loopy_coarse_x(b) && loopy_coarse_y(r) == loopy_coarse_y(b)
                && loopy_nametable_x(r) == v && loopy_nametable_y(r) == loopy_nametable_y(b)
                && loopy_fine_y(r) == loopy_fine_y(b) && loopy_unused(r) == loopy_unused(b))
                by (bit_vector)
                requires
                    r == if v {
                        b | (1u16 << 10u16)
                    } else {
                        b & !(1u16 << 10u16)
                    },
            ;
        }
        self.bits = r;
    }

    pub fn set_nametable_y(&mut self, v: bool)
        ensures
            final(self).spec_bits() == loopy_from_fields(
                loopy_coarse_x(old(self).spec_bits()),
                loopy_coarse_y(old(self).spec_bits()),
                loopy_nametable_x(old(self).spec_bits()),
                v,
                loopy_fine_y(old(self).spec_bits()),
                loopy_unused(old(self).spec_bits()),
            ),
    {
        let b = self.bits;
        let r = if v {
            b | (1u16 << 11u16)
        } else {
            b & !(1u16 << 11u16)
        };
        proof {
            lemma_loopy_fields(b);
            lemma_loopy_fields(r);
            assert(loopy_coarse_x(r) == loopy_coarse_x(b) && loopy_coarse_y(r) == loopy_coarse_y(b)
                && loopy_nametable_x(r) == loopy_nametable_x(b) && loopy_nametable_y(r) == v
                && loopy_fine_y(r) == loopy_fine_y(b) && loopy_unused(r) == loopy_unused(b))
                by (bit_vector)
                requires
                    r == if v {
                        b | (1u16 << 11u16)
                    } else {
                        b & !(1u16 << 11u16)
                    },
            ;
        }
        self.bits = r;
    }

    pub fn set_fine_y(&mut self, v: u16)
        requires
            v < 8,
        ensures
            final(self).spec_bits() == loopy_from_fields(
                loopy_coarse_x(old(self).spec_bits()),
                loopy_coarse_y(old(self).spec_bits()),
                loopy_nametable_x(old(self).spec_bits()),
                loopy_nametable_y(old(self).spec_bits()),
                v,
                loopy_unused(old(self).spec_bits()),
            ),
    {
        let b = self.bits;
        let r = (b & !(0x7u16 << 12u16)) | (v << 12u16);
        proof {
            lemma_loopy_fields(b);
            lemma_loopy_fields(r);
            assert(loopy_coarse_x(r) == loopy_coarse_x(b) && loopy_coarse_y(r) == loopy_coarse_y(b)
                && loopy_nametable_x(r) == loopy_nametable_x(b) && loopy_nametable_y(r)
                == loopy_nametable_y(b) && loopy_fine_y(r) == v && loopy_unused(r) == loopy_unused(
                b,
            )) by (bit_vector)
                requires
                    r == (b & !(0x7u16 << 12u16)) | (v << 12u16),
                    v < 8,
            ;
        }
        self.bits = r;
    }
}

} // verus!
