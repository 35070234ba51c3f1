use vstd::prelude::*;

verus! {

/// Masks of a 16-bit word as remainders and multiples.
pub proof fn lemma_u16_bits(t: u16)
    ensures
        t & 0x07FF == t % 0x0800,
        t & 0x0007 == t % 8,
        t & 0x0001 == t % 2,
        t & 0x7FFF == t % 0x8000,
        t & 0x3FFF == t % 0x4000,
        t & 0x0FFF == t % 0x1000,
        t & 0x03FF == t % 0x400,
        t & 0x001F == t % 32,
        t & 0x00FF == t % 256,
        t & 0xFF00 == (t / 256) * 256,
        ((t & 0x00FF) as u8) == (t % 256) as u8,
        ((t & 0x00FF) == 0) == (t % 256 == 0),
        ((t & 0x80) != 0) == (t % 256 >= 0x80),
        t <= 511 ==> (((t & 0xFF00) != 0) == (t > 255)),
{
    assert({
        &&& t & 0x07FF == t % 0x0800
        &&& t & 0x0007 == t % 8
        &&& t & 0x0001 == t % 2
        &&& t & 0x7FFF == t % 0x8000
        &&& t & 0x3FFF == t % 0x4000
        &&& t & 0x0FFF == t % 0x1000
        &&& t & 0x03FF == t % 0x400
        &&& t & 0x001F == t % 32
        &&& t & 0x00FF == t % 256
        &&& t & 0xFF00 == (t / 256) * 256
        &&& ((t & 0x00FF) as u8) == (t % 256) as u8
        &&& ((t & 0x00FF) == 0) == (t % 256 == 0)
        &&& ((t & 0x80) != 0) == (t % 256 >= 0x80)
        &&& t <= 511 ==> (((t & 0xFF00) != 0) == (t > 255))
    }) by (bit_vector)
    ;
}

/// Masks and shifts of a byte as remainders, quotients and bounds.
pub proof fn lemma_u8_bits(d: u8)
    ensures
        d & 0x07 == d % 8,
        d >> 3u8 == d / 8,
        d & 0x3F == d % 64,
        d & 0x0F == d % 16,
        ((d & 0x80) != 0) == (d >= 0x80),
        ((d & 0x01) != 0) == (d % 2 == 1),
        ((d & 0x02) != 0) == ((d / 2) % 2 == 1),
        d & 0x03 <= 3,
        d & 0x3F < 64,
        (d as u16) ^ 0x00FF == 255 - d,
        (d as u16) & 0x00FF == d as u16,
        ((d as u16) & 0x80 != 0) == (d >= 0x80),
        d >= 0x80 ==> (d as u16) | 0xFF00 == (d + 0xFF00) as u16,
{
    assert({
        &&& d & 0x07 == d % 8
        &&& d >> 3u8 == d / 8
        &&& d & 0x3F == d % 64
        &&& d & 0x0F == d % 16
        &&& ((d & 0x80) != 0) == (d >= 0x80)
        &&& ((d & 0x01) != 0) == (d % 2 == 1)
        &&& ((d & 0x02) != 0) == ((d / 2) % 2 == 1)
        &&& d & 0x03 <= 3
        &&& d & 0x3F < 64
        &&& (d as u16) ^ 0x00FF == 255 - d
        &&& (d as u16) & 0x00FF == d as u16
        &&& ((d as u16) & 0x80 != 0) == (d >= 0x80)
        &&& d >= 0x80 ==> (d as u16) | 0xFF00 == (d + 0xFF00) as u16
    }) by (bit_vector)
    ;
}

/// The word made of two bytes, and the page it lies in.
pub proof fn lemma_word_bits(lo: u8, hi: u8)
    ensures
        ((hi as u16) << 8u16) | (lo as u16) == (hi as u16) * 256 + (lo as u16),
        (((hi as u16) << 8u16) | (lo as u16)) & 0xFF00 == ((hi as u16) << 8u16) | (0u8 as u16),
        lo != 0xFF ==> (((hi as u16) << 8u16) | (lo as u16)) < 0xFFFF,
        (lo as u16) | ((hi as u16) << 8u16) == ((hi as u16) << 8u16) | (lo as u16),
{
    assert({
        &&& ((hi as u16) << 8u16) | (lo as u16) == (hi as u16) * 256 + (lo as u16)
        &&& (((hi as u16) << 8u16) | (lo as u16)) & 0xFF00 == ((hi as u16) << 8u16) | (0u8 as u16)
        &&& lo != 0xFF ==> (((hi as u16) << 8u16) | (lo as u16)) < 0xFFFF
        &&& (lo as u16) | ((hi as u16) << 8u16) == ((hi as u16) << 8u16) | (lo as u16)
    }) by (bit_vector)
    ;
}

/// Zero-page sums of two bytes, as the 16-bit code computes them.
pub proof fn lemma_byte_sum_bits(b: u8, x: u8)
    ensures
        ((b as u16 + x as u16) as u16 & 0xFF) == (b + x) % 256,
        ((b as u16 + x as u16 + 1) as u16 & 0xFF) == (b + x + 1) % 256,
        ((b as u16 + 1) as u16 & 0xFF) == (b + 1) % 256,
{
    assert({
        &&& ((b as u16 + x as u16) as u16 & 0xFF) == (b + x) % 256
        &&& ((b as u16 + x as u16 + 1) as u16 & 0xFF) == (b + x + 1) % 256
        &&& ((b as u16 + 1) as u16 & 0xFF) == (b + 1) % 256
    }) by (bit_vector)
    ;
}

} // verus!
