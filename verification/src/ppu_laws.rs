use vstd::prelude::*;
use crate::cartridge::{CartridgeView, Mirror, spec_cartridge_mirror};
use crate::ppu::{
    PpuView, spec_cpu_write, spec_ppu_read, spec_ppu_write, name_table_slot, palette_mask,
    vram_increment, lemma_loopy_roundtrip, foreground_scan, background_pixel, spec_compose,
    spec_tick, spec_scanline_work,
};
use crate::ppu_registers::{
    bit_of,
    loopy_coarse_x, loopy_coarse_y, loopy_fine_y, loopy_nametable_x, loopy_nametable_y,
};

verus! {

/// The two writes of a VRAM address to PPUADDR, high byte first, set the
/// address the CPU reaches through PPUDATA: the high byte keeps six bits.
pub proof fn lemma_ppu_address_writes(p: PpuView, cart: CartridgeView, hi: u8, lo: u8)
    requires
        p.address_latch == 0,
    ensures
        ({
            let (p1, c1) = spec_cpu_write(p, cart, 6, hi);
            let (p2, c2) = spec_cpu_write(p1, c1, 6, lo);
            &&& p2.vram_addr == (hi % 64) as int * 256 + lo as int
            &&& p2.tram_addr == p2.vram_addr
            &&& p2.address_latch == 0
            &&& c2 == cart
        }),
{
    let (p1, c1) = spec_cpu_write(p, cart, 6, hi);
    assert(p1.tram_addr == (hi % 64) as int * 256 + p.tram_addr % 256);
    assert(p1.tram_addr / 256 == hi % 64);
}

/// A byte written to palette memory reads back at once (palette reads are
/// not delayed), seen through the grayscale mask.
pub proof fn lemma_palette_read_after_write(p: PpuView, cart: CartridgeView, addr: u16, data: u8)
    requires
        addr % 0x4000 >= 0x3F00,
        p.pallete_table.len() == 32,
    ensures
        ({
            let (p1, c1) = spec_ppu_write(p, cart, addr, data);
            spec_ppu_read(p1, c1, addr) == data & palette_mask(p.reg_mask)
        }),
{
}

/// A byte written at one name table address reads back at every address
/// that the cartridge's mirroring wires to the same cell.
pub proof fn lemma_name_table_read_after_write(
    p: PpuView,
    cart: CartridgeView,
    addr: u16,
    other: u16,
    data: u8,
)
    requires
        0x2000 <= addr % 0x4000 <= 0x3EFF,
        0x2000 <= other % 0x4000 <= 0x3EFF,
        p.name_table.len() == 2048,
        name_table_slot(spec_cartridge_mirror(cart), (addr % 0x1000) as u16) is Some,
        name_table_slot(spec_cartridge_mirror(cart), (addr % 0x1000) as u16) == name_table_slot(
            spec_cartridge_mirror(cart),
            (other % 0x1000) as u16,
        ),
    ensures
        ({
            let (p1, c1) = spec_ppu_write(p, cart, addr, data);
            spec_ppu_read(p1, c1, other) == data
        }),
{
    let a = (addr % 0x4000) as u16;
    let b = (other % 0x4000) as u16;
    assert(a % 0x1000 == addr % 0x1000);
    assert(b % 0x1000 == other % 0x1000);
}

/// Vertical mirroring wires the name tables at `0x2000` and `0x2800`
/// together, and those at `0x2400` and `0x2C00`; horizontal mirroring wires
/// `0x2000` with `0x2400` and `0x2800` with `0x2C00`.
pub proof fn lemma_name_table_mirroring(offset: u16)
    requires
        offset < 0x0400,
    ensures
        name_table_slot(Mirror::Vertical, offset) == name_table_slot(
            Mirror::Vertical,
            (offset + 0x0800) as u16,
        ),
        name_table_slot(Mirror::Vertical, (offset + 0x0400) as u16) == name_table_slot(
            Mirror::Vertical,
            (offset + 0x0C00) as u16,
        ),
        name_table_slot(Mirror::Horizontal, offset) == name_table_slot(
            Mirror::Horizontal,
            (offset + 0x0400) as u16,
        ),
        name_table_slot(Mirror::Horizontal, (offset + 0x0800) as u16) == name_table_slot(
            Mirror::Horizontal,
            (offset + 0x0C00) as u16,
        ),
        name_table_slot(Mirror::Vertical, offset) != name_table_slot(
            Mirror::Vertical,
            (offset + 0x0400) as u16,
        ),
        name_table_slot(Mirror::Horizontal, offset) != name_table_slot(
            Mirror::Horizontal,
            (offset + 0x0800) as u16,
        ),
{
}

/// Setting the VRAM address with two PPUADDR writes and then writing PPUDATA
/// stores the byte at that address of the name tables: it reads back there,
/// the address moves on by the step that PPUCTRL selects, and the next
/// PPUADDR write is again a high byte.
pub proof fn lemma_ppu_data_write_read_back(
    p: PpuView,
    cart: CartridgeView,
    hi: u8,
    lo: u8,
    data: u8,
)
    requires
        p.address_latch == 0,
        p.name_table.len() == 2048,
        0x2000 <= (hi % 64) as int * 256 + lo <= 0x3EFF,
        spec_cartridge_mirror(cart) == Mirror::Vertical || spec_cartridge_mirror(cart)
            == Mirror::Horizontal,
    ensures
        ({
            let a = ((hi % 64) as int * 256 + lo) as u16;
            let (p1, c1) = spec_cpu_write(p, cart, 6, hi);
            let (p2, c2) = spec_cpu_write(p1, c1, 6, lo);
            let (p3, c3) = spec_cpu_write(p2, c2, 7, data);
            &&& spec_ppu_read(p3, c3, a) == data
            &&& p3.vram_addr == a + vram_increment(p.reg_control)
            &&& p3.address_latch == 0
        }),
{
    let a = ((hi % 64) as int * 256 + lo) as u16;
    lemma_ppu_address_writes(p, cart, hi, lo);
    let (p1, c1) = spec_cpu_write(p, cart, 6, hi);
    let (p2, c2) = spec_cpu_write(p1, c1, 6, lo);
    assert(p2.vram_addr == a);
    assert(p2.reg_control == p.reg_control);
    assert(p2.name_table == p.name_table);
    lemma_name_table_read_after_write(p2, cart, a, a, data);
    let (p3, c3) = spec_cpu_write(p2, c2, 7, data);
    let (q, d) = spec_ppu_write(p2, cart, a, data);
    assert(p3.name_table == q.name_table);
    assert(vram_increment(p.reg_control) <= 32);
}

/// The loopy fields are within their widths.
proof fn lemma_loopy_field_bounds(b: u16)
    ensures
        loopy_coarse_x(b) < 32,
        loopy_coarse_y(b) < 32,
        loopy_fine_y(b) < 8,
{
    assert(b & 0x1F < 32 && (b >> 5u16) & 0x1F < 32 && (b >> 12u16) & 0x7 < 8) by (bit_vector);
}

/// The two writes of a scroll position to PPUSCROLL, X first: the first
/// sets the fine X scroll to `x % 8` and the temporary address's coarse X
/// to `x / 8`; the second sets its coarse Y to `y / 8` and fine Y to
/// `y % 8`, keeping coarse X and the name table bits. The VRAM address
/// itself is not touched, and the next write is again an X.
pub proof fn lemma_scroll_writes(p: PpuView, cart: CartridgeView, x: u8, y: u8)
    requires
        p.address_latch == 0,
    ensures
        ({
            let (p1, c1) = spec_cpu_write(p, cart, 5, x);
            let (p2, c2) = spec_cpu_write(p1, c1, 5, y);
            &&& p1.fine_x == x % 8
            &&& loopy_coarse_x(p1.tram_addr) == x / 8
            &&& p1.address_latch == 1
            &&& p2.fine_x == x % 8
            &&& loopy_coarse_x(p2.tram_addr) == x / 8
            &&& loopy_coarse_y(p2.tram_addr) == y / 8
            &&& loopy_fine_y(p2.tram_addr) == y % 8
            &&& loopy_nametable_x(p2.tram_addr) == loopy_nametable_x(p.tram_addr)
            &&& loopy_nametable_y(p2.tram_addr) == loopy_nametable_y(p.tram_addr)
            &&& p2.address_latch == 0
            &&& p2.vram_addr == p.vram_addr
            &&& c2 == cart
        }),
{
    let t0 = p.tram_addr;
    lemma_loopy_field_bounds(t0);
    let (p1, c1) = spec_cpu_write(p, cart, 5, x);
    lemma_loopy_roundtrip(
        (x / 8) as u16,
        loopy_coarse_y(t0),
        loopy_nametable_x(t0),
        loopy_nametable_y(t0),
        loopy_fine_y(t0),
        crate::ppu_registers::loopy_unused(t0),
    );
    let t1 = p1.tram_addr;
    lemma_loopy_roundtrip(
        loopy_coarse_x(t1),
        loopy_coarse_y(t1),
        loopy_nametable_x(t1),
        loopy_nametable_y(t1),
        (y % 8) as u16,
        crate::ppu_registers::loopy_unused(t1),
    );
    let t2 = crate::ppu::loopy_with_fine_y(t1, (y % 8) as u16);
    lemma_loopy_field_bounds(t2);
    lemma_loopy_roundtrip(
        loopy_coarse_x(t2),
        (y / 8) as u16,
        loopy_nametable_x(t2),
        loopy_nametable_y(t2),
        loopy_fine_y(t2),
        crate::ppu_registers::loopy_unused(t2),
    );
}

/// The 2-bit pixel that sprite slot `i` shows at the beam: bit 1 from the
/// top bit of its high pattern shifter, bit 0 from the top bit of its low one.
pub open spec fn sprite_pixel(p: PpuView, i: int) -> u8 {
    ((if p.sprite_shifter_pattern_hi[i] & 0x80 != 0 {
        2int
    } else {
        0
    }) + (if p.sprite_shifter_pattern_lo[i] & 0x80 != 0 {
        1int
    } else {
        0
    })) as u8
}

/// Slot `i` is the first of the scan line's sprites under the beam whose
/// pixel is opaque.
pub open spec fn first_opaque_sprite(p: PpuView, i: int) -> bool {
    &&& 0 <= i < p.sprite_count
    &&& p.sprites_scanline[i].x == 0
    &&& sprite_pixel(p, i) != 0
    &&& forall|j: int|
        0 <= j < i ==> p.sprites_scanline[j].x != 0 || #[trigger] sprite_pixel(p, j) == 0
}

/// The sprite scan stops at the first opaque sprite and reports its pixel,
/// palette and priority.
proof fn lemma_foreground_scan(p: PpuView, i: int, n: nat)
    requires
        p.sprites_scanline.len() == 8,
        p.sprite_shifter_pattern_lo.len() == 8,
        p.sprite_shifter_pattern_hi.len() == 8,
        p.sprite_count <= 8,
        first_opaque_sprite(p, i),
        n <= p.sprite_count,
    ensures
        n <= i ==> !foreground_scan(p, n).4,
        n > i ==> ({
            let f = foreground_scan(p, n);
            &&& f.0 == sprite_pixel(p, i)
            &&& f.1 == (p.sprites_scanline[i].attributes & 0x03) + 4
            &&& f.2 == (p.sprites_scanline[i].attributes & 0x20 == 0)
            &&& f.4
        }),
    decreases n,
{
    if n > 0 {
        lemma_foreground_scan(p, i, (n - 1) as nat);
        let k = n - 1;
        if k < i {
            assert(p.sprites_scanline[k].x != 0 || sprite_pixel(p, k) == 0);
        } else if k == i {
            let lo: u8 = if p.sprite_shifter_pattern_lo[k] & 0x80 > 0 {
                1
            } else {
                0
            };
            let hi: u8 = if p.sprite_shifter_pattern_hi[k] & 0x80 > 0 {
                1
            } else {
                0
            };
            assert((p.sprite_shifter_pattern_lo[k] & 0x80 > 0) == (p.sprite_shifter_pattern_lo[k]
                & 0x80 != 0));
            assert((p.sprite_shifter_pattern_hi[k] & 0x80 > 0) == (p.sprite_shifter_pattern_hi[k]
                & 0x80 != 0));
            assert((hi * 2 + lo) as u8 == sprite_pixel(p, i));
            let prev = foreground_scan(p, k as nat);
            assert(!prev.4);
            assert(foreground_scan(p, n).0 == (hi * 2 + lo) as u8);
            let at = p.sprites_scanline[k].attributes;
            assert(at & 0x03 <= 3) by (bit_vector);
            assert(foreground_scan(p, n).1 == (at & 0x03) + 4);
        }
    }
}

/// Where the background pixel and the first opaque sprite pixel under the
/// beam meet, the sprite shows exactly when bit 5 of its attributes is clear
/// (in front of the background); over a transparent background it always
/// shows. A shown sprite gives its pixel and palette `4 +` its attribute's
/// low two bits.
pub proof fn lemma_compose_priority(p: PpuView, i: int)
    requires
        p.sprites_scanline.len() == 8,
        p.sprite_shifter_pattern_lo.len() == 8,
        p.sprite_shifter_pattern_hi.len() == 8,
        p.sprite_count <= 8,
        bit_of(p.reg_mask, 4),
        first_opaque_sprite(p, i),
    ensures
        ({
            let (pixel, palette, p1) = spec_compose(p);
            let (bg, bg_palette) = background_pixel(p);
            let shows = bg == 0 || p.sprites_scanline[i].attributes & 0x20 == 0;
            &&& pixel == if shows {
                sprite_pixel(p, i)
            } else {
                bg
            }
            &&& palette == if shows {
                ((p.sprites_scanline[i].attributes & 0x03) + 4) as u8
            } else {
                bg_palette
            }
        }),
{
    lemma_foreground_scan(p, i, p.sprite_count as nat);
}

/// The scan line work leaves PPUCTRL and the NMI signal alone.
#[verifier::spinoff_prover]
#[verifier::rlimit(40)]
proof fn lemma_scanline_work_keeps_nmi(p: PpuView, cart: CartridgeView)
    ensures
        spec_scanline_work(p, cart).nmi_occurred == p.nmi_occurred,
        spec_scanline_work(p, cart).reg_control == p.reg_control,
{
}

/// Drawing the pixel leaves the NMI signal alone.
#[verifier::spinoff_prover]
proof fn lemma_compose_keeps_nmi(p: PpuView)
    ensures
        spec_compose(p).2.nmi_occurred == p.nmi_occurred,
{
}

/// A PPU clock raises the NMI signal only when PPUCTRL bit 7 enables it:
/// with that bit clear the signal is as it was before the clock; with it
/// set, the clock at scan line 241, cycle 1, where vertical blank starts,
/// raises it. That clock sets the vertical blank flag (PPUSTATUS bit 7)
/// either way.
pub proof fn lemma_tick_nmi(p: PpuView, cart: CartridgeView)
    ensures
        p.reg_control & 0x80 == 0 ==> spec_tick(p, cart).0.nmi_occurred == p.nmi_occurred,
        p.reg_control & 0x80 != 0 && p.scanline == 241 && p.cycle == 1 ==> spec_tick(
            p,
            cart,
        ).0.nmi_occurred,
        p.scanline == 241 && p.cycle == 1 ==> spec_tick(p, cart).0.reg_status & 0x80 != 0,
{
    let c = p.reg_control;
    assert(bit_of(c, 7) == (c & 0x80 != 0)) by (bit_vector);
    lemma_scanline_work_keeps_nmi(p, cart);
    let p1 = if p.scanline >= -1 && p.scanline < 240 {
        spec_scanline_work(p, cart)
    } else {
        p
    };
    let p2 = if p1.scanline == 241 && p1.cycle == 1 {
        PpuView {
            reg_status: crate::ppu_registers::with_bit(p1.reg_status, 7, true),
            nmi_occurred: if bit_of(p1.reg_control, 7) {
                true
            } else {
                p1.nmi_occurred
            },
            ..p1
        }
    } else {
        p1
    };
    lemma_compose_keeps_nmi(p2);
    let st = p2.reg_status;
    assert(crate::ppu_registers::with_bit(st, 6, true) & 0x80 == st & 0x80) by (bit_vector);
    let st0 = p1.reg_status;
    assert(crate::ppu_registers::with_bit(st0, 7, true) & 0x80 != 0) by (bit_vector);
}

} // verus!
