use vstd::prelude::*;
use crate::cartridge::{
    ComponentCartridge, CartridgeView, Mirror, spec_cartridge_mirror, spec_cartridge_ppu_read,
    spec_cartridge_ppu_write, ppu_read_ok, ppu_write_ok,
};
use crate::oam::{EntryOA, OAM, oam_byte, oam_with_byte};
use crate::screen::{Rgba, ScreenData, NES_SCREEN_WIDTH, NES_SCREEN_HEIGHT, nes_palette_color};
use crate::ppu_registers::{
    RegisterControl, RegisterLoopy, RegisterMask, RegisterStatus, bit_of, with_bit,
    loopy_coarse_x, loopy_coarse_y, loopy_nametable_x, loopy_nametable_y, loopy_fine_y,
    loopy_unused, loopy_from_fields, lemma_loopy_fields,
};

verus! {

/// Abstract state of the PPU.
pub struct PpuView {
    pub name_table: Seq<u8>,
    pub pattern_table: Seq<u8>,
    pub pallete_table: Seq<u8>,
    pub reg_status: u8,
    pub reg_mask: u8,
    pub reg_control: u8,
    pub nmi_occurred: bool,
    pub address_latch: u8,
    pub ppu_data_buffer: u8,
    pub vram_addr: u16,
    pub tram_addr: u16,
    pub fine_x: u8,
    pub bg_next_tile_id: u8,
    pub bg_next_tile_attribute: u8,
    pub bg_next_tile_lsb: u8,
    pub bg_next_tile_msb: u8,
    pub bg_shifter_pattern_lo: u16,
    pub bg_shifter_pattern_hi: u16,
    pub bg_shifter_attribute_lo: u16,
    pub bg_shifter_attribute_hi: u16,
    pub oam: Seq<EntryOA>,
    pub oam_address: u8,
    pub sprites_scanline: Seq<EntryOA>,
    pub sprite_count: u8,
    pub sprite_shifter_pattern_lo: Seq<u8>,
    pub sprite_shifter_pattern_hi: Seq<u8>,
    pub is_sprite_zero_hit_possible: bool,
    pub is_sprite_zero_being_rendered: bool,
    pub scanline: i16,
    pub cycle: i16,
    pub is_frame_complete: bool,
}

/// The loopy address `b` with coarse x replaced.
pub open spec fn loopy_with_coarse_x(b: u16, v: u16) -> u16 {
    loopy_from_fields(
        v,
        loopy_coarse_y(b),
        loopy_nametable_x(b),
        loopy_nametable_y(b),
        loopy_fine_y(b),
        loopy_unused(b),
    )
}

/// The loopy address `b` with coarse y replaced.
pub open spec fn loopy_with_coarse_y(b: u16, v: u16) -> u16 {
    loopy_from_fields(
        loopy_coarse_x(b),
        v,
        loopy_nametable_x(b),
        loopy_nametable_y(b),
        loopy_fine_y(b),
        loopy_unused(b),
    )
}

/// The loopy address `b` with name table x replaced.
pub open spec fn loopy_with_nametable_x(b: u16, v: bool) -> u16 {
    loopy_from_fields(
        loopy_coarse_x(b),
        loopy_coarse_y(b),
        v,
        loopy_nametable_y(b),
        loopy_fine_y(b),
        loopy_unused(b),
    )
}

/// The loopy address `b` with name table y replaced.
pub open spec fn loopy_with_nametable_y(b: u16, v: bool) -> u16 {
    loopy_from_fields(
        loopy_coarse_x(b),
        loopy_coarse_y(b),
        loopy_nametable_x(b),
        v,
        loopy_fine_y(b),
        loopy_unused(b),
    )
}

/// The loopy address `b` with fine y replaced.
pub open spec fn loopy_with_fine_y(b: u16, v: u16) -> u16 {
    loopy_from_fields(
        loopy_coarse_x(b),
        loopy_coarse_y(b),
        loopy_nametable_x(b),
        loopy_nametable_y(b),
        v,
        loopy_unused(b),
    )
}

/// The fields of a loopy address made of fields are those fields.
pub proof fn lemma_loopy_roundtrip(cx: u16, cy: u16, nx: bool, ny: bool, fy: u16, un: bool)
    requires
        cx < 32,
        cy < 32,
        fy < 8,
    ensures
        ({
            let b = loopy_from_fields(cx, cy, nx, ny, fy, un);
            &&& loopy_coarse_x(b) == cx
            &&& loopy_coarse_y(b) == cy
            &&& loopy_nametable_x(b) == nx
            &&& loopy_nametable_y(b) == ny
            &&& loopy_fine_y(b) == fy
            &&& loopy_unused(b) == un
        }),
{
    let x: u16 = if nx {
        1
    } else {
        0
    };
    let y: u16 = if ny {
        1
    } else {
        0
    };
    let u: u16 = if un {
        1
    } else {
        0
    };
    let b = loopy_from_fields(cx, cy, nx, ny, fy, un);
    assert(b == cx + cy * 32 + x * 1024 + y * 2048 + fy * 4096 + u * 32768);
    assert({
        &&& b & 0x1F == cx
        &&& (b >> 5u16) & 0x1F == cy
        &&& (b >> 10u16) & 1 == x
        &&& (b >> 11u16) & 1 == y
        &&& (b >> 12u16) & 0x7 == fy
        &&& (b >> 15u16) & 1 == u
    }) by (bit_vector)
        requires
            cx < 32,
            cy < 32,
            fy < 8,
            x <= 1,
            y <= 1,
            u <= 1,
            b == cx + cy * 32 + x * 1024 + y * 2048 + fy * 4096 + u * 32768,
    ;
}

/// Which of the two name tables, and where in it, address `a` (below
/// `0x1000`, relative to `0x2000`) lands under `mirror`; none for the
/// arrangements that the PPU does not wire.
pub open spec fn name_table_slot(mirror: Mirror, a: u16) -> Option<int> {
    match mirror {
        Mirror::Vertical => if a <= 0x03FF || (0x0800 <= a && a <= 0x0BFF) {
            Some((a % 0x400) as int)
        } else {
            Some(1024 + a % 0x400)
        },
        Mirror::Horizontal => if a <= 0x07FF {
            Some((a % 0x400) as int)
        } else {
            Some(1024 + a % 0x400)
        },
        _ => None,
    }
}

/// Where palette address `a` (below 32) is stored: the background colour of
/// the sprite palettes is shared with the background palettes.
pub open spec fn palette_slot(a: u16) -> int {
    if a == 0x10 {
        0
    } else if a == 0x14 {
        4
    } else if a == 0x18 {
        8
    } else if a == 0x1C {
        0xC
    } else {
        a as int
    }
}

/// Where pattern table address `a` (below `0x2000`) is stored: the table is
/// chosen by bit 0 of the address (`addr & 0x1000 >> 12` parses as
/// `addr & (0x1000 >> 12)`).
pub open spec fn pattern_slot(a: u16) -> int {
    (a % 2) * 4096 + a % 4096
}

/// The palette mask: grayscale keeps only the luminance bits.
pub open spec fn palette_mask(reg_mask: u8) -> u8 {
    if bit_of(reg_mask, 0) {
        0x30
    } else {
        0x3F
    }
}

/// A read of the PPU address space.
pub open spec fn spec_ppu_read(p: PpuView, cart: CartridgeView, addr: u16) -> u8 {
    let a = (addr % 0x4000) as u16;
    let (hit, d) = spec_cartridge_ppu_read(cart, a, 0);
    if hit {
        d
    } else if a <= 0x1FFF {
        p.pattern_table[pattern_slot(a)]
    } else if a <= 0x3EFF {
        match name_table_slot(spec_cartridge_mirror(cart), (a % 0x1000) as u16) {
            Some(i) => p.name_table[i],
            None => 0,
        }
    } else {
        p.pallete_table[palette_slot((a % 32) as u16)] & palette_mask(p.reg_mask)
    }
}

/// A write to the PPU address space.
pub open spec fn spec_ppu_write(p: PpuView, cart: CartridgeView, addr: u16, data: u8) -> (
    PpuView,
    CartridgeView,
) {
    let a = (addr % 0x4000) as u16;
    let (hit, cart2) = spec_cartridge_ppu_write(cart, a, data);
    if hit {
        (p, cart2)
    } else if a <= 0x1FFF {
        (PpuView { pattern_table: p.pattern_table.update(pattern_slot(a), data), ..p }, cart)
    } else if a <= 0x3EFF {
        match name_table_slot(spec_cartridge_mirror(cart), (a % 0x1000) as u16) {
            Some(i) => (PpuView { name_table: p.name_table.update(i, data), ..p }, cart),
            None => (p, cart),
        }
    } else {
        (
            PpuView {
                pallete_table: p.pallete_table.update(palette_slot((a % 32) as u16), data),
                ..p
            },
            cart,
        )
    }
}

/// How far PPUDATA accesses move the VRAM address: 32 (down a row) or 1.
pub open spec fn vram_increment(reg_control: u8) -> u16 {
    if bit_of(reg_control, 2) {
        32
    } else {
        1
    }
}

/// A CPU read of PPU register `addr` (0 to 7): the byte and the PPU after.
pub open spec fn spec_cpu_read(p: PpuView, cart: CartridgeView, addr: u16) -> (u8, PpuView) {
    if addr == 0x0002 {
        (
            (p.reg_status & 0xE0) | (p.ppu_data_buffer & 0x1F),
            PpuView { reg_status: with_bit(p.reg_status, 7, false), address_latch: 0, ..p },
        )
    } else if addr == 0x0004 {
        (oam_byte(p.oam, p.oam_address), p)
    } else if addr == 0x0007 {
        let buffered = spec_ppu_read(p, cart, p.vram_addr);
        (
            if p.vram_addr >= 0x3F00 {
                buffered
            } else {
                p.ppu_data_buffer
            },
            PpuView {
                ppu_data_buffer: buffered,
                vram_addr: p.vram_addr.wrapping_add(vram_increment(p.reg_control)),
                ..p
            },
        )
    } else {
        (0, p)
    }
}

/// A CPU write of `data` to PPU register `addr` (0 to 7).
pub open spec fn spec_cpu_write(p: PpuView, cart: CartridgeView, addr: u16, data: u8) -> (
    PpuView,
    CartridgeView,
) {
    if addr == 0x0000 {
        (
            PpuView {
                reg_control: data,
                tram_addr: loopy_with_nametable_y(
                    loopy_with_nametable_x(p.tram_addr, bit_of(data, 0)),
                    bit_of(data, 1),
                ),
                ..p
            },
            cart,
        )
    } else if addr == 0x0001 {
        (PpuView { reg_mask: data, ..p }, cart)
    } else if addr == 0x0003 {
        (PpuView { oam_address: data, ..p }, cart)
    } else if addr == 0x0004 {
        (PpuView { oam: oam_with_byte(p.oam, p.oam_address, data), ..p }, cart)
    } else if addr == 0x0005 {
        if p.address_latch == 0 {
            (
                PpuView {
                    fine_x: data % 8,
                    tram_addr: loopy_with_coarse_x(p.tram_addr, (data / 8) as u16),
                    address_latch: 1,
                    ..p
                },
                cart,
            )
        } else {
            (
                PpuView {
                    tram_addr: loopy_with_coarse_y(
                        loopy_with_fine_y(p.tram_addr, (data % 8) as u16),
                        (data / 8) as u16,
                    ),
                    address_latch: 0,
                    ..p
                },
                cart,
            )
        }
    } else if addr == 0x0006 {
        if p.address_latch == 0 {
            (
                PpuView {
                    tram_addr: ((data % 64) as int * 256 + p.tram_addr % 256) as u16,
                    address_latch: 1,
                    ..p
                },
                cart,
            )
        } else {
            let t = ((p.tram_addr / 256) as int * 256 + data) as u16;
            (PpuView { tram_addr: t, vram_addr: t, address_latch: 0, ..p }, cart)
        }
    } else if addr == 0x0007 {
        let (p2, cart2) = spec_ppu_write(p, cart, p.vram_addr, data);
        (
            PpuView {
                vram_addr: p.vram_addr.wrapping_add(vram_increment(p.reg_control)),
                ..p2
            },
            cart2,
        )
    } else {
        (p, cart)
    }
}

/// Whether rendering of the background or of the sprites is on.
pub open spec fn rendering_enabled(reg_mask: u8) -> bool {
    bit_of(reg_mask, 3) || bit_of(reg_mask, 4)
}

/// Moves the VRAM address one tile right, into the next name table past the
/// last column.
pub open spec fn spec_increment_scroll_x(p: PpuView) -> PpuView {
    if rendering_enabled(p.reg_mask) {
        let v = p.vram_addr;
        if loopy_coarse_x(v) == 31 {
            PpuView {
                vram_addr: loopy_with_nametable_x(
                    loopy_with_coarse_x(v, 0),
                    !loopy_nametable_x(v),
                ),
                ..p
            }
        } else {
            PpuView { vram_addr: loopy_with_coarse_x(v, (loopy_coarse_x(v) + 1) as u16), ..p }
        }
    } else {
        p
    }
}

/// Moves the VRAM address one pixel row down: into the next tile row after
/// fine y 7, into the next name table after tile row 29, wrapping without
/// switching after row 31.
pub open spec fn spec_increment_scroll_y(p: PpuView) -> PpuView {
    if rendering_enabled(p.reg_mask) {
        let v = p.vram_addr;
        if loopy_fine_y(v) < 7 {
            PpuView { vram_addr: loopy_with_fine_y(v, (loopy_fine_y(v) + 1) as u16), ..p }
        } else {
            let v1 = loopy_with_fine_y(v, 0);
            if loopy_coarse_y(v) == 29 {
                PpuView {
                    vram_addr: loopy_with_nametable_y(
                        loopy_with_coarse_y(v1, 0),
                        !loopy_nametable_y(v),
                    ),
                    ..p
                }
            } else if loopy_coarse_y(v) == 31 {
                PpuView { vram_addr: loopy_with_coarse_y(v1, 0), ..p }
            } else {
                PpuView {
                    vram_addr: loopy_with_coarse_y(v1, (loopy_coarse_y(v) + 1) as u16),
                    ..p
                }
            }
        }
    } else {
        p
    }
}

/// Copies the horizontal position from the temporary address.
pub open spec fn spec_transfer_address_x(p: PpuView) -> PpuView {
    if rendering_enabled(p.reg_mask) {
        PpuView {
            vram_addr: loopy_with_coarse_x(
                loopy_with_nametable_x(p.vram_addr, loopy_nametable_x(p.tram_addr)),
                loopy_coarse_x(p.tram_addr),
            ),
            ..p
        }
    } else {
        p
    }
}

/// Copies the vertical position from the temporary address.
pub open spec fn spec_transfer_address_y(p: PpuView) -> PpuView {
    if rendering_enabled(p.reg_mask) {
        PpuView {
            vram_addr: loopy_with_coarse_y(
                loopy_with_nametable_y(
                    loopy_with_fine_y(p.vram_addr, loopy_fine_y(p.tram_addr)),
                    loopy_nametable_y(p.tram_addr),
                ),
                loopy_coarse_y(p.tram_addr),
            ),
            ..p
        }
    } else {
        p
    }
}

/// Loads the next tile into the low bytes of the background shifters.
pub open spec fn spec_load_background_shifters(p: PpuView) -> PpuView {
    PpuView {
        bg_shifter_pattern_lo: ((p.bg_shifter_pattern_lo / 256) as int * 256
            + p.bg_next_tile_lsb) as u16,
        bg_shifter_pattern_hi: ((p.bg_shifter_pattern_hi / 256) as int * 256
            + p.bg_next_tile_msb) as u16,
        bg_shifter_attribute_lo: ((p.bg_shifter_attribute_lo / 256) as int * 256 + if p.bg_next_tile_attribute
            % 2 == 1 {
            0xFFint
        } else {
            0
        }) as u16,
        bg_shifter_attribute_hi: ((p.bg_shifter_attribute_hi / 256) as int * 256 + if (
        p.bg_next_tile_attribute / 2) % 2 == 1 {
            0xFFint
        } else {
            0
        }) as u16,
        ..p
    }
}

/// A 16-bit shift register shifted left by one.
pub open spec fn shl16(x: u16) -> u16 {
    ((x as int * 2) % 0x10000) as u16
}

/// A byte shifted left by one.
pub open spec fn shl8(x: u8) -> u8 {
    ((x as int * 2) % 0x100) as u8
}

/// Shifts the background shifters (when the background is drawn) and moves
/// the sprites of the scan line one pixel on (when sprites are drawn, on
/// the visible cycles): a sprite still to the right counts down its x, one
/// already reached shifts its pattern out.
pub open spec fn spec_update_shifters(p: PpuView) -> PpuView {
    let p1 = if bit_of(p.reg_mask, 3) {
        PpuView {
            bg_shifter_pattern_lo: shl16(p.bg_shifter_pattern_lo),
            bg_shifter_pattern_hi: shl16(p.bg_shifter_pattern_hi),
            bg_shifter_attribute_lo: shl16(p.bg_shifter_attribute_lo),
            bg_shifter_attribute_hi: shl16(p.bg_shifter_attribute_hi),
            ..p
        }
    } else {
        p
    };
    if bit_of(p.reg_mask, 4) && p.cycle >= 1 && p.cycle < 258 {
        PpuView {
            sprites_scanline: Seq::new(
                8,
                |i: int|
                    if i < p1.sprite_count && p1.sprites_scanline[i].x > 0 {
                        EntryOA { x: (p1.sprites_scanline[i].x - 1) as u8, ..p1.sprites_scanline[i] }
                    } else {
                        p1.sprites_scanline[i]
                    },
            ),
            sprite_shifter_pattern_lo: Seq::new(
                8,
                |i: int|
                    if i < p1.sprite_count && p1.sprites_scanline[i].x == 0 {
                        shl8(p1.sprite_shifter_pattern_lo[i])
                    } else {
                        p1.sprite_shifter_pattern_lo[i]
                    },
            ),
            sprite_shifter_pattern_hi: Seq::new(
                8,
                |i: int|
                    if i < p1.sprite_count && p1.sprites_scanline[i].x == 0 {
                        shl8(p1.sprite_shifter_pattern_hi[i])
                    } else {
                        p1.sprite_shifter_pattern_hi[i]
                    },
            ),
            ..p1
        }
    } else {
        p1
    }
}

/// Byte masks as the register code computes them.
pub proof fn lemma_byte_masks(d: u8, t: u16)
    ensures
        d & 0x07 == d % 8,
        d >> 3u8 == d / 8,
        d & 0x3F == d % 64,
        t & 0x00FF == t % 256,
        ((d & 0x3F) as u16) << 8u16 | (t & 0x00FF) == ((d % 64) as int * 256 + t % 256) as u16,
        (t & 0xFF00) | (d as u16) == ((t / 256) as int * 256 + d) as u16,
        t & 0x3FFF == t % 0x4000,
        t & 0x0FFF == t % 0x1000,
        t & 0x03FF == t % 0x400,
        t & 0x001F == t % 32,
        t & 0x0001 == t % 2,
        t & 0xFF00 == (t / 256) * 256,
{
    crate::bits::lemma_u8_bits(d);
    crate::bits::lemma_u16_bits(t);
    lemma_byte_merge_bits(d, t);
}

/// A byte merged into the high or low half of a word.
proof fn lemma_byte_merge_bits(d: u8, t: u16)
    ensures
        ((d & 0x3F) as u16) << 8u16 | (t & 0x00FF) == ((d % 64) as u16) * 256 + t % 256,
        (t & 0xFF00) | (d as u16) == (t / 256) * 256 + (d as u16),
{
    assert({
        &&& ((d & 0x3F) as u16) << 8u16 | (t & 0x00FF) == ((d % 64) as u16) * 256 + t % 256
        &&& (t & 0xFF00) | (d as u16) == (t / 256) * 256 + (d as u16)
    }) by (bit_vector)
    ;
}

/// The Picture Processing Unit.
#[derive(Debug)]
pub struct Component2C02 {
    /// (or VRAM) Background **_layout_**: two tables of 1 KiB
    name_table: Vec<u8>,
    /// Sprites (background & foreground): two tables of 4 KiB
    pattern_table: Vec<u8>,
    /// Colors
    pallete_table: Vec<u8>,
    reg_status: RegisterStatus,
    reg_mask: RegisterMask,
    reg_control: RegisterControl,
    pub nmi_occurred: bool,
    /// Knowing if we're writing to the low or high byte
    address_latch: u8,
    ppu_data_buffer: u8,
    vram_addr: RegisterLoopy,
    tram_addr: RegisterLoopy,
    fine_x: u8,
    // Background
    bg_next_tile_id: u8,
    bg_next_tile_attribute: u8,
    bg_next_tile_lsb: u8,
    bg_next_tile_msb: u8,
    bg_shifter_pattern_lo: u16,
    bg_shifter_pattern_hi: u16,
    bg_shifter_attribute_lo: u16,
    bg_shifter_attribute_hi: u16,
    /// (O)bject (A)ttribute (M)emory i.e. Sprites RAM
    pub oam: OAM,
    sprites_scanline: Vec<EntryOA>,
    sprite_count: u8,
    sprite_shifter_pattern_lo: Vec<u8>,
    sprite_shifter_pattern_hi: Vec<u8>,
    is_sprite_zero_hit_possible: bool,
    is_sprite_zero_being_rendered: bool,
    /// Row
    scanline: i16,
    /// Column
    cycle: i16,
    pub is_frame_complete: bool,
}

/// The PPU at power-on: memories and registers cleared, scan line 0,
/// cycle 0, no sprites.
pub open spec fn ppu_power_on() -> PpuView {
    PpuView {
        name_table: Seq::new(2048, |i: int| 0u8),
        pattern_table: Seq::new(8192, |i: int| 0u8),
        pallete_table: Seq::new(32, |i: int| 0u8),
        reg_status: 0,
        reg_mask: 0,
        reg_control: 0,
        nmi_occurred: false,
        address_latch: 0,
        ppu_data_buffer: 0,
        vram_addr: 0,
        tram_addr: 0,
        fine_x: 0,
        bg_next_tile_id: 0,
        bg_next_tile_attribute: 0,
        bg_next_tile_lsb: 0,
        bg_next_tile_msb: 0,
        bg_shifter_pattern_lo: 0,
        bg_shifter_pattern_hi: 0,
        bg_shifter_attribute_lo: 0,
        bg_shifter_attribute_hi: 0,
        oam: Seq::new(64, |i: int| EntryOA { y: 0, tile_index: 0, attributes: 0, x: 0 }),
        oam_address: 0,
        sprites_scanline: Seq::new(8, |i: int| EntryOA { y: 0, tile_index: 0, attributes: 0, x: 0 }),
        sprite_count: 0,
        sprite_shifter_pattern_lo: Seq::new(8, |i: int| 0u8),
        sprite_shifter_pattern_hi: Seq::new(8, |i: int| 0u8),
        is_sprite_zero_hit_possible: false,
        is_sprite_zero_being_rendered: false,
        scanline: 0,
        cycle: 0,
        is_frame_complete: false,
    }
}

/// A vector of `n` zero bytes.
fn zeros(n: usize) -> (v: Vec<u8>)
    ensures
        v@ == Seq::new(n as nat, |i: int| 0u8),
{
    let v: Vec<u8> = vec![0u8; n];
    assert(v@ =~= Seq::new(n as nat, |i: int| 0u8));
    v
}

impl Component2C02 {
    /// The abstract state of the PPU.
    pub closed spec fn view(&self) -> PpuView {
        PpuView {
            name_table: self.name_table@,
            pattern_table: self.pattern_table@,
            pallete_table: self.pallete_table@,
            reg_status: self.reg_status.spec_bits(),
            reg_mask: self.reg_mask.spec_bits(),
            reg_control: self.reg_control.spec_bits(),
            nmi_occurred: self.nmi_occurred,
            address_latch: self.address_latch,
            ppu_data_buffer: self.ppu_data_buffer,
            vram_addr: self.vram_addr.spec_bits(),
            tram_addr: self.tram_addr.spec_bits(),
            fine_x: self.fine_x,
            bg_next_tile_id: self.bg_next_tile_id,
            bg_next_tile_attribute: self.bg_next_tile_attribute,
            bg_next_tile_lsb: self.bg_next_tile_lsb,
            bg_next_tile_msb: self.bg_next_tile_msb,
            bg_shifter_pattern_lo: self.bg_shifter_pattern_lo,
            bg_shifter_pattern_hi: self.bg_shifter_pattern_hi,
            bg_shifter_attribute_lo: self.bg_shifter_attribute_lo,
            bg_shifter_attribute_hi: self.bg_shifter_attribute_hi,
            oam: self.oam.oam@,
            oam_address: self.oam.address,
            sprites_scanline: self.sprites_scanline@,
            sprite_count: self.sprite_count,
            sprite_shifter_pattern_lo: self.sprite_shifter_pattern_lo@,
            sprite_shifter_pattern_hi: self.sprite_shifter_pattern_hi@,
            is_sprite_zero_hit_possible: self.is_sprite_zero_hit_possible,
            is_sprite_zero_being_rendered: self.is_sprite_zero_being_rendered,
            scanline: self.scanline,
            cycle: self.cycle,
            is_frame_complete: self.is_frame_complete,
        }
    }

    /// The sizes of the memories, and the ranges of the counters.
    pub open spec fn wf(&self) -> bool {
        ppu_view_wf(self.view())
    }

    /// A PPU with every memory and register cleared, at scan line 0, cycle 0.
    pub fn new() -> (p: Self)
        ensures
            p.wf(),
            p.view() == ppu_power_on(),
    {
        let mut sprites_scanline: Vec<EntryOA> = Vec::new();
        let mut i: usize = 0;
        while i < 8
            invariant
                i <= 8,
                sprites_scanline@.len() == i,
                forall|k: int|
                    0 <= k < i ==> sprites_scanline@[k] == (EntryOA {
                        y: 0,
                        tile_index: 0,
                        attributes: 0,
                        x: 0,
                    }),
            decreases 8 - i,
        {
            sprites_scanline.push(EntryOA::new());
            i = i + 1;
        }
        assert(sprites_scanline@ =~= Seq::new(
            8,
            |k: int| EntryOA { y: 0, tile_index: 0, attributes: 0, x: 0 },
        ));
        let oam = OAM::new();
        assert(oam.oam@ =~= Seq::new(
            64,
            |k: int| EntryOA { y: 0, tile_index: 0, attributes: 0, x: 0 },
        ));
        Self {
            name_table: zeros(2 * 1024),
            pattern_table: zeros(2 * 4 * 1024),
            pallete_table: zeros(32),
            reg_status: RegisterStatus::new(),
            reg_mask: RegisterMask::new(),
            reg_control: RegisterControl::new(),
            nmi_occurred: false,
            address_latch: 0,
            ppu_data_buffer: 0,
            vram_addr: RegisterLoopy::new(),
            tram_addr: RegisterLoopy::new(),
            fine_x: 0,
            bg_next_tile_id: 0,
            bg_next_tile_attribute: 0,
            bg_next_tile_lsb: 0,
            bg_next_tile_msb: 0,
            bg_shifter_pattern_lo: 0,
            bg_shifter_pattern_hi: 0,
            bg_shifter_attribute_lo: 0,
            bg_shifter_attribute_hi: 0,
            oam,
            sprites_scanline,
            sprite_count: 0,
            sprite_shifter_pattern_lo: zeros(8),
            sprite_shifter_pattern_hi: zeros(8),
            is_sprite_zero_hit_possible: false,
            is_sprite_zero_being_rendered: false,
            scanline: 0,
            cycle: 0,
            is_frame_complete: false,
        }
    }

    /// Reads the PPU address space: cartridge first, then pattern tables,
    /// name tables and palette.
    pub fn ppu_read(&self, addr: u16, _read_only: bool, cartridge: &ComponentCartridge) -> (data: u8)
        requires
            self.wf(),
            ppu_read_ok(cartridge.view(), addr & 0x3FFF),
        ensures
            data == spec_ppu_read(self.view(), cartridge.view(), addr),
    {
        let mut data: u8 = 0x00;
        proof {
            lemma_byte_masks(0, addr);
        }
        let addr = addr & 0x3FFF;
        proof {
            lemma_byte_masks(0, addr);
        }

        // Cartridge has priority over everything else (mappers)
        if cartridge.ppu_read(addr, &mut data) {
            return data;
        }
        if addr <= 0x1FFF {
            // Pattern Table range
            data = self.pattern_table[(addr & 0x0001) as usize * 4096 + (addr & 0x0FFF) as usize];
        } else if addr <= 0x3EFF {
            // Name Table range
            let a = addr & 0x0FFF;
            proof {
                lemma_byte_masks(0, a);
            }
            match cartridge.mirror() {
                Mirror::Vertical => {
                    if a <= 0x03FF || (0x0800 <= a && a <= 0x0BFF) {
                        data = self.name_table[(a & 0x03FF) as usize];
                    } else {
                        data = self.name_table[1024 + (a & 0x03FF) as usize];
                    }
                },
                Mirror::Horizontal => {
                    if a <= 0x07FF {
                        data = self.name_table[(a & 0x03FF) as usize];
                    } else {
                        data = self.name_table[1024 + (a & 0x03FF) as usize];
                    }
                },
                _ => {},
            }
        } else {
            // Palette RAM range
            let mut a = addr & 0x001F;
            if a == 0x0010 {
                a = 0x0000;
            } else if a == 0x0014 {
                a = 0x0004;
            } else if a == 0x0018 {
                a = 0x0008;
            } else if a == 0x001C {
                a = 0x000C;
            }
            data = self.pallete_table[a as usize] & if self.reg_mask.grayscale() {
                0x30
            } else {
                0x3F
            };
        }

        data
    }

    /// Writes the PPU address space: cartridge first, then pattern tables,
    /// name tables and palette.
    pub fn ppu_write(&mut self, addr: u16, data: u8, cartridge: &mut ComponentCartridge)
        requires
            old(self).wf(),
            ppu_write_ok(old(cartridge).view(), addr & 0x3FFF),
        ensures
            final(self).wf(),
            final(cartridge).wf() == old(cartridge).wf(),
            (final(self).view(), final(cartridge).view()) == spec_ppu_write(
                old(self).view(),
                old(cartridge).view(),
                addr,
                data,
            ),
    {
        proof {
            lemma_byte_masks(0, addr);
        }
        let addr = addr & 0x3FFF;
        proof {
            lemma_byte_masks(0, addr);
        }

        // Cartridge has priority over everything else (mappers)
        if cartridge.ppu_write(addr, data) {
            return ;
        }
        if addr <= 0x1FFF {
            // Pattern Table range
            self.pattern_table.set((addr & 0x0001) as usize * 4096 + (addr & 0x0FFF) as usize, data);
        } else if addr <= 0x3EFF {
            // Name Table range
            let a = addr & 0x0FFF;
            proof {
                lemma_byte_masks(0, a);
            }
            match cartridge.mirror() {
                Mirror::Vertical => {
                    if a <= 0x03FF || (0x0800 <= a && a <= 0x0BFF) {
                        self.name_table.set((a & 0x03FF) as usize, data);
                    } else {
                        self.name_table.set(1024 + (a & 0x03FF) as usize, data);
                    }
                },
                Mirror::Horizontal => {
                    if a <= 0x07FF {
                        self.name_table.set((a & 0x03FF) as usize, data);
                    } else {
                        self.name_table.set(1024 + (a & 0x03FF) as usize, data);
                    }
                },
                _ => {},
            }
        } else {
            // Palette RAM range
            let mut a = addr & 0x001F;
            if a == 0x0010 {
                a = 0x0000;
            } else if a == 0x0014 {
                a = 0x0004;
            } else if a == 0x0018 {
                a = 0x0008;
            } else if a == 0x001C {
                a = 0x000C;
            }
            self.pallete_table.set(a as usize, data);
        }
    }
}

/// The sizes of the memories, and the ranges of the counters.
pub open spec fn ppu_view_wf(p: PpuView) -> bool {
    &&& p.name_table.len() == 2048
    &&& p.pattern_table.len() == 8192
    &&& p.pallete_table.len() == 32
    &&& p.oam.len() == 64
    &&& p.sprites_scanline.len() == 8
    &&& p.sprite_shifter_pattern_lo.len() == 8
    &&& p.sprite_shifter_pattern_hi.len() == 8
    &&& p.sprite_count <= 8
    &&& p.fine_x < 8
    &&& -1 <= p.scanline <= 260
    &&& 0 <= p.cycle <= 340
}

impl Component2C02 {
    /// A CPU read of PPU register `addr` (0 to 7).
    #[allow(clippy::match_same_arms)]
    pub fn cpu_read(&mut self, addr: u16, read_only: bool, cartridge: &ComponentCartridge) -> (data: u8)
        requires
            old(self).wf(),
            addr == 7 ==> ppu_read_ok(cartridge.view(), old(self).view().vram_addr & 0x3FFF),
        ensures
            final(self).wf(),
            (data, final(self).view()) == spec_cpu_read(old(self).view(), cartridge.view(), addr),
    {
        let mut data: u8 = 0x00;

        if addr == 0x0002 {
            // Status
            data = (self.reg_status.into_bits() & 0xE0) | (self.ppu_data_buffer & 0x1F);
            self.reg_status.set_vertical_blank(false);
            self.address_latch = 0;
        } else if addr == 0x0004 {
            // OAM Data
            self.oam.read(&mut data);
        } else if addr == 0x0007 {
            // PPU Data
            data = self.ppu_data_buffer;
            self.ppu_data_buffer = self.ppu_read(self.vram_addr.into_bits(), read_only, cartridge);

            if self.vram_addr.into_bits() >= 0x3F00 {
                data = self.ppu_data_buffer;
            }

            self.vram_addr = RegisterLoopy::from_bits(
                if self.reg_control.increment_mode() {
                    self.vram_addr.into_bits().wrapping_add(32)
                } else {
                    self.vram_addr.into_bits().wrapping_add(1)
                },
            );
        }
        // Control, Mask, OAM Address, Scroll and PPU Address are write-only

        data
    }

    /// A CPU write of `data` to PPU register `addr` (0 to 7).
    #[allow(clippy::match_same_arms)]
    pub fn cpu_write(&mut self, addr: u16, data: u8, cartridge: &mut ComponentCartridge)
        requires
            old(self).wf(),
            addr == 7 ==> ppu_write_ok(old(cartridge).view(), old(self).view().vram_addr & 0x3FFF),
        ensures
            final(self).wf(),
            final(cartridge).wf() == old(cartridge).wf(),
            (final(self).view(), final(cartridge).view()) == spec_cpu_write(
                old(self).view(),
                old(cartridge).view(),
                addr,
                data,
            ),
    {
        proof {
            lemma_byte_masks(data, self.tram_addr.spec_bits());
        }
        if addr == 0x0000 {
            // Control
            self.reg_control = RegisterControl::from_bits(data);
            self.tram_addr.set_nametable_x(self.reg_control.nametable_x());
            self.tram_addr.set_nametable_y(self.reg_control.nametable_y());
        } else if addr == 0x0001 {
            // Mask
            self.reg_mask = RegisterMask::from_bits(data);
        } else if addr == 0x0003 {
            // OAM Address
            self.oam.set_address(data);
        } else if addr == 0x0004 {
            // OAM Data
            let a = self.oam.get_address();
            self.oam.write(a, data);
        } else if addr == 0x0005 {
            // Scroll
            if self.address_latch == 0 {
                self.fine_x = data & 0x07;
                self.tram_addr.set_coarse_x((data >> 3) as u16);
                self.address_latch = 1;
            } else {
                self.tram_addr.set_fine_y((data & 0x07) as u16);
                self.tram_addr.set_coarse_y((data >> 3) as u16);
                self.address_latch = 0;
            }
        } else if addr == 0x0006 {
            // PPU Address
            if self.address_latch == 0 {
                self.tram_addr = RegisterLoopy::from_bits(
                    (((data & 0x3F) as u16) << 8) | (self.tram_addr.into_bits() & 0x00FF),
                );
                self.address_latch = 1;
            } else {
                self.tram_addr = RegisterLoopy::from_bits(
                    (self.tram_addr.into_bits() & 0xFF00) | data as u16,
                );
                self.vram_addr = self.tram_addr;
                self.address_latch = 0;
            }
        } else if addr == 0x0007 {
            // PPU Data
            self.ppu_write(self.vram_addr.into_bits(), data, cartridge);
            self.vram_addr = RegisterLoopy::from_bits(
                if self.reg_control.increment_mode() {
                    self.vram_addr.into_bits().wrapping_add(32)
                } else {
                    self.vram_addr.into_bits().wrapping_add(1)
                },
            );
        }
        // Status is read-only
    }

    /// Moves the VRAM address one tile right.
    pub fn increment_scroll_x(&mut self)
        requires
            old(self).wf(),
        ensures
            final(self).wf(),
            final(self).view() == spec_increment_scroll_x(old(self).view()),
    {
        if self.reg_mask.render_background() || self.reg_mask.render_sprites() {
            if self.vram_addr.coarse_x() == 31 {
                self.vram_addr.set_coarse_x(0);
                let nx = self.vram_addr.nametable_x();
                proof {
                    let b = old(self).vram_addr.spec_bits();
                    lemma_loopy_fields(b);
                    lemma_loopy_roundtrip(
                        0,
                        loopy_coarse_y(b),
                        loopy_nametable_x(b),
                        loopy_nametable_y(b),
                        loopy_fine_y(b),
                        loopy_unused(b),
                    );
                }
                self.vram_addr.set_nametable_x(!nx);
            } else {
                let cx = self.vram_addr.coarse_x();
                self.vram_addr.set_coarse_x(cx + 1);
            }
        }
    }

    /// Moves the VRAM address one pixel row down.
    pub fn increment_scroll_y(&mut self)
        requires
            old(self).wf(),
        ensures
            final(self).wf(),
            final(self).view() == spec_increment_scroll_y(old(self).view()),
    {
        if self.reg_mask.render_background() || self.reg_mask.render_sprites() {
            let b = self.vram_addr.into_bits();
            proof {
                lemma_loopy_fields(b);
            }
            if self.vram_addr.fine_y() < 7 {
                let fy = self.vram_addr.fine_y();
                self.vram_addr.set_fine_y(fy + 1);
            } else {
                self.vram_addr.set_fine_y(0);
                proof {
                    lemma_loopy_roundtrip(
                        loopy_coarse_x(b),
                        loopy_coarse_y(b),
                        loopy_nametable_x(b),
                        loopy_nametable_y(b),
                        0,
                        loopy_unused(b),
                    );
                }
                if self.vram_addr.coarse_y() == 29 {
                    self.vram_addr.set_coarse_y(0);
                    proof {
                        lemma_loopy_roundtrip(
                            loopy_coarse_x(b),
                            0,
                            loopy_nametable_x(b),
                            loopy_nametable_y(b),
                            0,
                            loopy_unused(b),
                        );
                    }
                    let ny = self.vram_addr.nametable_y();
                    self.vram_addr.set_nametable_y(!ny);
                } else if self.vram_addr.coarse_y() == 31 {
                    self.vram_addr.set_coarse_y(0);
                } else {
                    let cy = self.vram_addr.coarse_y();
                    self.vram_addr.set_coarse_y(cy + 1);
                }
            }
        }
    }

    /// Copies the horizontal position from the temporary address.
    pub fn transfer_address_x(&mut self)
        requires
            old(self).wf(),
        ensures
            final(self).wf(),
            final(self).view() == spec_transfer_address_x(old(self).view()),
    {
        if self.reg_mask.render_background() || self.reg_mask.render_sprites() {
            let b = self.vram_addr.into_bits();
            let t = self.tram_addr.into_bits();
            proof {
                lemma_loopy_fields(b);
                lemma_loopy_fields(t);
                lemma_loopy_roundtrip(
                    loopy_coarse_x(b),
                    loopy_coarse_y(b),
                    loopy_nametable_x(t),
                    loopy_nametable_y(b),
                    loopy_fine_y(b),
                    loopy_unused(b),
                );
            }
            self.vram_addr.set_nametable_x(self.tram_addr.nametable_x());
            self.vram_addr.set_coarse_x(self.tram_addr.coarse_x());
        }
    }

    /// Copies the vertical position from the temporary address.
    pub fn transfer_address_y(&mut self)
        requires
            old(self).wf(),
        ensures
            final(self).wf(),
            final(self).view() == spec_transfer_address_y(old(self).view()),
    {
        if self.reg_mask.render_background() || self.reg_mask.render_sprites() {
            let b = self.vram_addr.into_bits();
            let t = self.tram_addr.into_bits();
            proof {
                lemma_loopy_fields(b);
                lemma_loopy_fields(t);
                lemma_loopy_roundtrip(
                    loopy_coarse_x(b),
                    loopy_coarse_y(b),
                    loopy_nametable_x(b),
                    loopy_nametable_y(b),
                    loopy_fine_y(t),
                    loopy_unused(b),
                );
                lemma_loopy_roundtrip(
                    loopy_coarse_x(b),
                    loopy_coarse_y(b),
                    loopy_nametable_x(b),
                    loopy_nametable_y(t),
                    loopy_fine_y(t),
                    loopy_unused(b),
                );
            }
            self.vram_addr.set_fine_y(self.tram_addr.fine_y());
            self.vram_addr.set_nametable_y(self.tram_addr.nametable_y());
            self.vram_addr.set_coarse_y(self.tram_addr.coarse_y());
        }
    }

    /// Loads the next tile into the low bytes of the background shifters.
    pub fn load_background_shifters(&mut self)
        requires
            old(self).wf(),
        ensures
            final(self).wf(),
            final(self).view() == spec_load_background_shifters(old(self).view()),
    {
        proof {
            lemma_byte_masks(0, self.bg_shifter_pattern_lo);
            lemma_byte_masks(0, self.bg_shifter_pattern_hi);
            lemma_byte_masks(0, self.bg_shifter_attribute_lo);
            lemma_byte_masks(0, self.bg_shifter_attribute_hi);
            let t = self.bg_next_tile_attribute;
            crate::bits::lemma_u8_bits(t);
        }
        self.bg_shifter_pattern_lo = (self.bg_shifter_pattern_lo & 0xFF00)
            + self.bg_next_tile_lsb as u16;
        self.bg_shifter_pattern_hi = (self.bg_shifter_pattern_hi & 0xFF00)
            + self.bg_next_tile_msb as u16;

        self.bg_shifter_attribute_lo = (self.bg_shifter_attribute_lo & 0xFF00)
            + if self.bg_next_tile_attribute & 0b01 != 0 {
            0xFF
        } else {
            0x00
        };
        self.bg_shifter_attribute_hi = (self.bg_shifter_attribute_hi & 0xFF00)
            + if self.bg_next_tile_attribute & 0b10 != 0 {
            0xFF
        } else {
            0x00
        };
    }

    /// Shifts the background shifters and moves the sprites of the scan line
    /// one pixel on.
    pub fn update_shifters(&mut self)
        requires
            old(self).wf(),
        ensures
            final(self).wf(),
            final(self).view() == spec_update_shifters(old(self).view()),
    {
        if self.reg_mask.render_background() {
            self.bg_shifter_pattern_lo = ((self.bg_shifter_pattern_lo as u32 * 2) % 0x10000) as u16;
            self.bg_shifter_pattern_hi = ((self.bg_shifter_pattern_hi as u32 * 2) % 0x10000) as u16;

            self.bg_shifter_attribute_lo = ((self.bg_shifter_attribute_lo as u32 * 2) % 0x10000) as u16;
            self.bg_shifter_attribute_hi = ((self.bg_shifter_attribute_hi as u32 * 2) % 0x10000) as u16;
        }
        let ghost p1 = self.view();

        if self.reg_mask.render_sprites() && self.cycle >= 1 && self.cycle < 258 {
            let mut i: u8 = 0;
            while i < self.sprite_count
                invariant
                    ppu_view_wf(self.view()),
                    i <= self.sprite_count,
                    self.sprite_count == p1.sprite_count,
                    self.view() == (PpuView {
                        sprites_scanline: self.view().sprites_scanline,
                        sprite_shifter_pattern_lo: self.view().sprite_shifter_pattern_lo,
                        sprite_shifter_pattern_hi: self.view().sprite_shifter_pattern_hi,
                        ..p1
                    }),
                    forall|j: int|
                        0 <= j < 8 ==> self.view().sprites_scanline[j] == if j < i
                            && p1.sprites_scanline[j].x > 0 {
                            EntryOA {
                                x: (p1.sprites_scanline[j].x - 1) as u8,
                                ..p1.sprites_scanline[j]
                            }
                        } else {
                            p1.sprites_scanline[j]
                        },
                    forall|j: int|
                        0 <= j < 8 ==> self.view().sprite_shifter_pattern_lo[j] == if j < i
                            && p1.sprites_scanline[j].x == 0 {
                            shl8(p1.sprite_shifter_pattern_lo[j])
                        } else {
                            p1.sprite_shifter_pattern_lo[j]
                        },
                    forall|j: int|
                        0 <= j < 8 ==> self.view().sprite_shifter_pattern_hi[j] == if j < i
                            && p1.sprites_scanline[j].x == 0 {
                            shl8(p1.sprite_shifter_pattern_hi[j])
                        } else {
                            p1.sprite_shifter_pattern_hi[j]
                        },
                decreases self.sprite_count - i,
            {
                let k = i as usize;
                let e = self.sprites_scanline[k];
                if e.x > 0 {
                    self.sprites_scanline.set(k, EntryOA { x: e.x - 1, ..e });
                } else {
                    let lo = self.sprite_shifter_pattern_lo[k];
                    let hi = self.sprite_shifter_pattern_hi[k];
                    self.sprite_shifter_pattern_lo.set(k, ((lo as u16 * 2) % 0x100) as u8);
                    self.sprite_shifter_pattern_hi.set(k, ((hi as u16 * 2) % 0x100) as u8);
                }
                i = i + 1;
            }
            assert(self.view().sprites_scanline =~= spec_update_shifters(old(self).view()).sprites_scanline);
            assert(self.view().sprite_shifter_pattern_lo =~= spec_update_shifters(old(self).view()).sprite_shifter_pattern_lo);
            assert(self.view().sprite_shifter_pattern_hi =~= spec_update_shifters(old(self).view()).sprite_shifter_pattern_hi);
        }
    }
}

/// 1 for `true`, 0 for `false`.
pub open spec fn bit16(b: bool) -> u16 {
    if b {
        1
    } else {
        0
    }
}

/// The address of the attribute byte of the tile under the VRAM address.
pub open spec fn attribute_address(v: u16) -> u16 {
    0x23C0u16 | (bit16(loopy_nametable_y(v)) << 11u16) | (bit16(loopy_nametable_x(v)) << 10u16)
        | ((loopy_coarse_y(v) >> 2u16) << 3u16) | (loopy_coarse_x(v) >> 2u16)
}

/// The two palette bits of the tile under the VRAM address, from its
/// attribute byte.
pub open spec fn attribute_bits(attr: u8, v: u16) -> u8 {
    let a1 = if loopy_coarse_y(v) & 0x02 != 0 {
        attr >> 4u8
    } else {
        attr
    };
    let a2 = if loopy_coarse_x(v) & 0x02 != 0 {
        a1 >> 2u8
    } else {
        a1
    };
    a2 & 0x03
}

/// The address of the low plane of the background tile row being fetched.
pub open spec fn background_pattern_address(p: PpuView) -> u16 {
    ((bit16(bit_of(p.reg_control, 4)) << 12u16) + ((p.bg_next_tile_id as u16) << 4u16)
        + loopy_fine_y(p.vram_addr)) as u16
}

/// One step of the background fetch pipeline, on the cycles where it runs:
/// the shifters move, and by the position in the 8-cycle group the next
/// tile id, attribute, low plane or high plane is fetched, or the VRAM
/// address moves one tile right.
pub open spec fn spec_background_step(p: PpuView, cart: CartridgeView) -> PpuView {
    let p1 = spec_update_shifters(p);
    let phase = (p.cycle - 1) % 8;
    if phase == 0 {
        let p2 = spec_load_background_shifters(p1);
        PpuView {
            bg_next_tile_id: spec_ppu_read(p2, cart, 0x2000u16 | (p2.vram_addr & 0x0FFF)),
            ..p2
        }
    } else if phase == 2 {
        PpuView {
            bg_next_tile_attribute: attribute_bits(
                spec_ppu_read(p1, cart, attribute_address(p1.vram_addr)),
                p1.vram_addr,
            ),
            ..p1
        }
    } else if phase == 4 {
        PpuView {
            bg_next_tile_lsb: spec_ppu_read(p1, cart, background_pattern_address(p1)),
            ..p1
        }
    } else if phase == 6 {
        PpuView {
            bg_next_tile_msb: spec_ppu_read(
                p1,
                cart,
                (background_pattern_address(p1) + 8) as u16,
            ),
            ..p1
        }
    } else if phase == 7 {
        spec_increment_scroll_x(p1)
    } else {
        p1
    }
}

/// An unused sprite slot.
pub open spec fn empty_sprite() -> EntryOA {
    EntryOA { y: 0xFF, tile_index: 0xFF, attributes: 0xFF, x: 0xFF }
}

/// Whether sprite `e` covers scan line `scanline` for sprites `height` rows high.
pub open spec fn sprite_on_line(e: EntryOA, scanline: i16, height: int) -> bool {
    0 <= scanline - e.y < height
}

/// The scan of the first `n` sprites of `oam` for scan line `scanline`: the
/// slots (the first eight sprites on the line, in order, then unused), how
/// many are on the line, and whether sprite 0 is among them.
pub open spec fn evaluate_sprites(oam: Seq<EntryOA>, scanline: i16, height: int, n: nat) -> (
    Seq<EntryOA>,
    u8,
    bool,
)
    decreases n,
{
    if n == 0 {
        (Seq::new(8, |i: int| empty_sprite()), 0, false)
    } else {
        let (slots, count, zero) = evaluate_sprites(oam, scanline, height, (n - 1) as nat);
        let e = oam[n - 1];
        if sprite_on_line(e, scanline, height) && count < 8 {
            (slots.update(count as int, e), (count + 1) as u8, zero || n - 1 == 0)
        } else {
            (slots, count, zero)
        }
    }
}

/// The height of sprites: 16 rows in 8x16 mode, 8 otherwise.
pub open spec fn sprite_height(reg_control: u8) -> int {
    if bit_of(reg_control, 5) {
        16
    } else {
        8
    }
}

/// Sprite evaluation at the end of a visible scan line: the sprites of the
/// next line are chosen, their pattern shifters cleared.
pub open spec fn spec_sprite_evaluation(p: PpuView) -> PpuView {
    let (slots, count, zero) = evaluate_sprites(
        p.oam,
        p.scanline,
        sprite_height(p.reg_control),
        64,
    );
    PpuView {
        sprites_scanline: slots,
        sprite_count: count,
        sprite_shifter_pattern_lo: Seq::new(8, |i: int| 0u8),
        sprite_shifter_pattern_hi: Seq::new(8, |i: int| 0u8),
        is_sprite_zero_hit_possible: zero,
        reg_status: with_bit(p.reg_status, 5, count > 8),
        ..p
    }
}

/// The bits of `b` in reverse order.
pub open spec fn reverse8(b: u8) -> u8 {
    ((b & 0x01) << 7u8) | ((b & 0x02) << 5u8) | ((b & 0x04) << 3u8) | ((b & 0x08) << 1u8) | ((b
        & 0x10) >> 1u8) | ((b & 0x20) >> 3u8) | ((b & 0x40) >> 5u8) | ((b & 0x80) >> 7u8)
}

/// The address of the low plane of the row of sprite `e` on scan line
/// `scanline`, flipped vertically when attribute bit 7 is set. Differences
/// wrap around 16 bits (as the arithmetic of a release build does).
pub open spec fn sprite_pattern_address(reg_control: u8, e: EntryOA, scanline: i16) -> u16 {
    let row = (scanline as u16).wrapping_sub(e.y as u16);
    let flipped = e.attributes & 0x80 != 0;
    if !bit_of(reg_control, 5) {
        // 8x8 mode
        let base = (bit16(bit_of(reg_control, 3)) << 12u16) | ((e.tile_index as u16) << 4u16);
        if !flipped {
            base | row
        } else {
            base | 7u16.wrapping_sub(scanline as u16).wrapping_sub(e.y as u16)
        }
    } else {
        // 8x16 mode
        let table = ((e.tile_index & 0x01) as u16) << 12u16;
        let top = ((e.tile_index & 0xFE) as u16) << 4u16;
        let bottom = ((((e.tile_index & 0xFE) as u16) + 1) as u16) << 4u16;
        let upper_half = scanline - (e.y as i16) < 8;
        if !flipped {
            if upper_half {
                table | top | (row & 0x07)
            } else {
                table | bottom | (row & 0x07)
            }
        } else {
            if upper_half {
                table | bottom | 7u16.wrapping_sub(row)
            } else {
                table | top | 7u16.wrapping_sub(row)
            }
        }
    }
}

/// One plane of the row of sprite slot `i`: read at `addr`, mirrored when
/// the sprite is flipped horizontally.
pub open spec fn sprite_plane(p: PpuView, cart: CartridgeView, i: int, addr: u16) -> u8 {
    let bits = spec_ppu_read(p, cart, addr);
    if p.sprites_scanline[i].attributes & 0x40 != 0 {
        reverse8(bits)
    } else {
        bits
    }
}

/// The pattern rows of the sprites of the next line, loaded at the end of
/// the line.
pub open spec fn spec_fetch_sprite_patterns(p: PpuView, cart: CartridgeView) -> PpuView {
    PpuView {
        sprite_shifter_pattern_lo: Seq::new(
            8,
            |i: int|
                if i < p.sprite_count {
                    sprite_plane(
                        p,
                        cart,
                        i,
                        sprite_pattern_address(p.reg_control, p.sprites_scanline[i], p.scanline),
                    )
                } else {
                    p.sprite_shifter_pattern_lo[i]
                },
        ),
        sprite_shifter_pattern_hi: Seq::new(
            8,
            |i: int|
                if i < p.sprite_count {
                    sprite_plane(
                        p,
                        cart,
                        i,
                        sprite_pattern_address(
                            p.reg_control,
                            p.sprites_scanline[i],
                            p.scanline,
                        ).wrapping_add(8),
                    )
                } else {
                    p.sprite_shifter_pattern_hi[i]
                },
        ),
        ..p
    }
}

/// The work of the visible and pre-render scan lines, before the pixel.
pub open spec fn spec_scanline_work(p0: PpuView, cart: CartridgeView) -> PpuView {
    let p1 = if p0.scanline == 0 && p0.cycle == 0 {
        PpuView { cycle: 1, ..p0 }
    } else {
        p0
    };
    let p2 = if p1.scanline == -1 && p1.cycle == 1 {
        PpuView {
            reg_status: with_bit(with_bit(with_bit(p1.reg_status, 7, false), 6, false), 5, false),
            sprite_shifter_pattern_lo: Seq::new(8, |i: int| 0u8),
            sprite_shifter_pattern_hi: Seq::new(8, |i: int| 0u8),
            ..p1
        }
    } else {
        p1
    };
    let p3 = if (p2.cycle >= 2 && p2.cycle < 258) || (p2.cycle >= 321 && p2.cycle < 338) {
        spec_background_step(p2, cart)
    } else {
        p2
    };
    let p4 = if p3.cycle == 256 {
        spec_increment_scroll_y(p3)
    } else {
        p3
    };
    let p5 = if p4.cycle == 257 {
        spec_transfer_address_x(p4)
    } else {
        p4
    };
    let p6 = if p5.scanline == -1 && p5.cycle >= 280 && p5.cycle < 305 {
        spec_transfer_address_y(p5)
    } else {
        p5
    };
    let p7 = if p6.cycle == 338 || p6.cycle == 340 {
        PpuView {
            bg_next_tile_id: spec_ppu_read(p6, cart, 0x2000u16 | (p6.vram_addr & 0x0FFF)),
            ..p6
        }
    } else {
        p6
    };
    let p8 = if p7.cycle == 257 && p7.scanline >= 0 {
        spec_sprite_evaluation(p7)
    } else {
        p7
    };
    if p8.cycle == 340 {
        spec_fetch_sprite_patterns(p8, cart)
    } else {
        p8
    }
}

/// Whether bit `15 - fine_x` of a background shifter is set.
pub open spec fn shifter_bit(shifter: u16, fine_x: u8) -> u8 {
    if shifter & (0x8000u16 >> (fine_x as u16)) > 0 {
        1
    } else {
        0
    }
}

/// The background pixel (0 to 3) and palette (0 to 3) under the beam.
pub open spec fn background_pixel(p: PpuView) -> (u8, u8) {
    if bit_of(p.reg_mask, 3) {
        (
            (shifter_bit(p.bg_shifter_pattern_hi, p.fine_x) * 2 + shifter_bit(
                p.bg_shifter_pattern_lo,
                p.fine_x,
            )) as u8,
            (shifter_bit(p.bg_shifter_attribute_hi, p.fine_x) * 2 + shifter_bit(
                p.bg_shifter_attribute_lo,
                p.fine_x,
            )) as u8,
        )
    } else {
        (0, 0)
    }
}

/// The scan of the first `n` sprite slots for the foreground pixel: pixel,
/// palette and priority of the last sprite seen at its x position, whether
/// slot 0 gave an opaque pixel, and whether an opaque pixel stopped the scan.
pub open spec fn foreground_scan(p: PpuView, n: nat) -> (u8, u8, bool, bool, bool)
    decreases n,
{
    if n == 0 {
        (0, 0, false, false, false)
    } else {
        let prev = foreground_scan(p, (n - 1) as nat);
        let i = n - 1;
        if prev.4 || p.sprites_scanline[i].x != 0 {
            prev
        } else {
            let lo: u8 = if p.sprite_shifter_pattern_lo[i] & 0x80 > 0 {
                1
            } else {
                0
            };
            let hi: u8 = if p.sprite_shifter_pattern_hi[i] & 0x80 > 0 {
                1
            } else {
                0
            };
            let pixel = (hi * 2 + lo) as u8;
            let palette = ((p.sprites_scanline[i].attributes & 0x03) + 4) as u8;
            let priority = p.sprites_scanline[i].attributes & 0x20 == 0;
            (pixel, palette, priority, prev.3 || (pixel != 0 && i == 0), pixel != 0)
        }
    }
}

/// The pixel and palette that reach the screen, and the PPU after the sprite
/// zero bookkeeping.
pub open spec fn spec_compose(p: PpuView) -> (u8, u8, PpuView) {
    let (bg_pixel, bg_palette) = background_pixel(p);
    let (fg_pixel, fg_palette, fg_priority, zero_rendered, _done) = if bit_of(p.reg_mask, 4) {
        foreground_scan(p, p.sprite_count as nat)
    } else {
        (0u8, 0u8, false, p.is_sprite_zero_being_rendered, false)
    };
    let p1 = PpuView { is_sprite_zero_being_rendered: zero_rendered, ..p };
    if bg_pixel == 0 && fg_pixel == 0 {
        (0, 0, p1)
    } else if bg_pixel == 0 {
        (fg_pixel, fg_palette, p1)
    } else if fg_pixel == 0 {
        (bg_pixel, bg_palette, p1)
    } else {
        let hit_window = if !(bit_of(p.reg_mask, 1) || bit_of(p.reg_mask, 2)) {
            p.cycle >= 9 && p.cycle < 258
        } else {
            p.cycle >= 1 && p.cycle < 258
        };
        let hit = p1.is_sprite_zero_hit_possible && p1.is_sprite_zero_being_rendered && bit_of(
            p.reg_mask,
            3,
        ) && bit_of(p.reg_mask, 4) && hit_window;
        let p2 = if hit {
            PpuView { reg_status: with_bit(p1.reg_status, 6, true), ..p1 }
        } else {
            p1
        };
        if fg_priority {
            (fg_pixel, fg_palette, p2)
        } else {
            (bg_pixel, bg_palette, p2)
        }
    }
}

/// The colour number of `pixel` in palette `palette`.
pub open spec fn spec_palette_entry(p: PpuView, cart: CartridgeView, palette: u8, pixel: u8) -> u8 {
    spec_ppu_read(
        p,
        cart,
        (0x3F00u16 + (palette << 2u8) as u16 + pixel as u16) as u16,
    ) & 0x3F
}

/// The beam moves one cycle on: 341 cycles per line, 262 lines (the
/// pre-render line is -1) per frame.
pub open spec fn spec_advance(p: PpuView) -> PpuView {
    let cycle = p.cycle + 1;
    if cycle >= 341 {
        let scanline = p.scanline + 1;
        if scanline >= 261 {
            PpuView { cycle: 0, scanline: -1i16, is_frame_complete: true, ..p }
        } else {
            PpuView { cycle: 0, scanline: scanline as i16, ..p }
        }
    } else {
        PpuView { cycle: cycle as i16, ..p }
    }
}

/// One PPU clock: the scan line work, the vertical blank at line 241 (with
/// an NMI when enabled), one pixel drawn at (cycle - 1, scan line), and the
/// beam moving on. The result is the PPU after the clock, and the colour
/// number and position of the pixel.
pub open spec fn spec_tick(p0: PpuView, cart: CartridgeView) -> (PpuView, u8, u16, u16) {
    let p1 = if p0.scanline >= -1 && p0.scanline < 240 {
        spec_scanline_work(p0, cart)
    } else {
        p0
    };
    let p2 = if p1.scanline == 241 && p1.cycle == 1 {
        PpuView {
            reg_status: with_bit(p1.reg_status, 7, true),
            nmi_occurred: if bit_of(p1.reg_control, 7) {
                true
            } else {
                p1.nmi_occurred
            },
            ..p1
        }
    } else {
        p1
    };
    let (pixel, palette, p3) = spec_compose(p2);
    let color = spec_palette_entry(p3, cart, palette, pixel);
    (spec_advance(p3), color, (p3.cycle - 1) as u16, p3.scanline as u16)
}

/// The screen after pixel (`x`, `y`) is set to colour number `color`;
/// pixels outside the picture are ignored.
pub open spec fn screen_with_pixel(screen: Seq<Rgba>, x: u16, y: u16, color: u8) -> Seq<Rgba> {
    if x >= NES_SCREEN_WIDTH || y >= NES_SCREEN_HEIGHT {
        screen
    } else {
        screen.update(y as int * NES_SCREEN_WIDTH as int + x as int, nes_palette_color(color))
    }
}

/// The bits of `b` in reverse order.
pub fn reverse_bits(b: u8) -> (r: u8)
    ensures
        r == reverse8(b),
{
    ((b & 0x01) << 7u8) | ((b & 0x02) << 5u8) | ((b & 0x04) << 3u8) | ((b & 0x08) << 1u8) | ((b
        & 0x10) >> 1u8) | ((b & 0x20) >> 3u8) | ((b & 0x40) >> 5u8) | ((b & 0x80) >> 7u8)
}

/// Reversing the bits of a byte moves bit `i` to bit `7 - i`.
pub proof fn lemma_reverse8(b: u8, i: u8)
    requires
        i < 8,
    ensures
        bit_of(reverse8(b), i) == bit_of(b, (7 - i) as u8),
{
    assert(((((b & 0x01) << 7u8) | ((b & 0x02) << 5u8) | ((b & 0x04) << 3u8) | ((b & 0x08) << 1u8)
        | ((b & 0x10) >> 1u8) | ((b & 0x20) >> 3u8) | ((b & 0x40) >> 5u8) | ((b & 0x80) >> 7u8))
        >> i) & 1 == 1 <==> (b >> ((7 - i) as u8)) & 1 == 1) by (bit_vector)
        requires
            i < 8,
    ;
}

/// Once an opaque sprite pixel has stopped the scan, later slots change nothing.
proof fn lemma_foreground_scan_done(p: PpuView, i: nat, n: nat)
    requires
        i <= n,
        foreground_scan(p, i).4,
    ensures
        foreground_scan(p, n) == foreground_scan(p, i),
    decreases n - i,
{
    if i < n {
        lemma_foreground_scan_done(p, i, (n - 1) as nat);
    }
}

impl Component2C02 {
    /// The address of the low plane of the background tile row being fetched.
    fn background_pattern_address(&self) -> (a: u16)
        ensures
            a == background_pattern_address(self.view()),
            a <= 0x1FF7,
    {
        let pb: u16 = if self.reg_control.pattern_background() {
            1
        } else {
            0
        };
        let id = self.bg_next_tile_id as u16;
        let fy = self.vram_addr.fine_y();
        proof {
            assert((pb << 12u16) + (id << 4u16) + fy <= 0x1FF7) by (bit_vector)
                requires
                    pb <= 1,
                    id < 256,
                    fy < 8,
            ;
        }
        (pb << 12u16) + (id << 4u16) + fy
    }

    /// One step of the background fetch pipeline.
    fn background_step(&mut self, cartridge: &ComponentCartridge)
        requires
            old(self).wf(),
            cartridge.wf(),
            old(self).view().cycle >= 1,
        ensures
            final(self).wf(),
            final(self).view() == spec_background_step(old(self).view(), cartridge.view()),
    {
        self.update_shifters();

        let phase = (self.cycle - 1) % 8;
        if phase == 0 {
            self.load_background_shifters();
            self.bg_next_tile_id = self.ppu_read(
                0x2000 | (self.vram_addr.into_bits() & 0x0FFF),
                false,
                cartridge,
            );
        } else if phase == 2 {
            let ny: u16 = if self.vram_addr.nametable_y() {
                1
            } else {
                0
            };
            let nx: u16 = if self.vram_addr.nametable_x() {
                1
            } else {
                0
            };
            let addr = 0x23C0u16 | (ny << 11u16) | (nx << 10u16) | ((self.vram_addr.coarse_y()
                >> 2u16) << 3u16) | (self.vram_addr.coarse_x() >> 2u16);
            let mut attr = self.ppu_read(addr, false, cartridge);
            if self.vram_addr.coarse_y() & 0x02 != 0 {
                attr = attr >> 4u8;
            }
            if self.vram_addr.coarse_x() & 0x02 != 0 {
                attr = attr >> 2u8;
            }
            self.bg_next_tile_attribute = attr & 0x03;
        } else if phase == 4 {
            let a = self.background_pattern_address();
            self.bg_next_tile_lsb = self.ppu_read(a, false, cartridge);
        } else if phase == 6 {
            let a = self.background_pattern_address();
            self.bg_next_tile_msb = self.ppu_read(a + 8, false, cartridge);
        } else if phase == 7 {
            self.increment_scroll_x();
        }
    }

    /// Sprite evaluation: chooses the sprites of the next line.
    fn evaluate_sprites(&mut self)
        requires
            old(self).wf(),
            0 <= old(self).view().scanline < 240,
        ensures
            final(self).wf(),
            final(self).view() == spec_sprite_evaluation(old(self).view()),
    {
        let ghost p0 = self.view();
        let mut k: usize = 0;
        while k < 8
            invariant
                ppu_view_wf(self.view()),
                k <= 8,
                self.view() == (PpuView { sprites_scanline: self.view().sprites_scanline, ..p0 }),
                forall|j: int| 0 <= j < k ==> self.view().sprites_scanline[j] == empty_sprite(),
            decreases 8 - k,
        {
            let mut e = self.sprites_scanline[k];
            e.set(0xFF);
            self.sprites_scanline.set(k, e);
            k = k + 1;
        }
        assert(self.view().sprites_scanline =~= Seq::new(8, |i: int| empty_sprite()));
        self.sprite_count = 0;

        self.sprite_shifter_pattern_lo = zeros(8);
        self.sprite_shifter_pattern_hi = zeros(8);

        self.is_sprite_zero_hit_possible = false;
        let height: i16 = if self.reg_control.sprite_size() {
            16
        } else {
            8
        };
        let ghost p1 = self.view();
        let mut n: u8 = 0;
        while n < 64 && self.sprite_count < 9
            invariant
                ppu_view_wf(self.view()),
                n <= 64,
                0 <= self.view().scanline < 240,
                height == sprite_height(p0.reg_control),
                p1.oam == p0.oam,
                p1.scanline == p0.scanline,
                p1.reg_control == p0.reg_control,
                self.view() == (PpuView {
                    sprites_scanline: self.view().sprites_scanline,
                    sprite_count: self.view().sprite_count,
                    is_sprite_zero_hit_possible: self.view().is_sprite_zero_hit_possible,
                    ..p1
                }),
                (self.view().sprites_scanline, self.view().sprite_count, self.view().is_sprite_zero_hit_possible)
                    == evaluate_sprites(p0.oam, p0.scanline, sprite_height(p0.reg_control), n as nat),
            decreases 64 - n,
        {
            let e = *self.oam.get_entry(n);
            let diff = self.scanline.wrapping_sub(e.y as i16);
            assert(diff == self.scanline - e.y);
            assert(e == p0.oam[n as int]);

            if diff >= 0 && diff < height {
                if self.sprite_count < 8 {
                    if n == 0 {
                        self.is_sprite_zero_hit_possible = true;
                    }
                    self.sprites_scanline.set(self.sprite_count as usize, e);
                    self.sprite_count = self.sprite_count + 1;
                }
            }
            n = n + 1;
        }

        let overflow = self.sprite_count > 8;
        self.reg_status.set_sprite_overflow(overflow);
        assert(self.view().sprite_shifter_pattern_lo =~= Seq::new(8, |i: int| 0u8));
        assert(self.view().sprite_shifter_pattern_hi =~= Seq::new(8, |i: int| 0u8));
    }

    /// The address of the low plane of the row of sprite `e` on this line.
    fn sprite_pattern_address(&self, e: EntryOA) -> (a: u16)
        requires
            self.wf(),
        ensures
            a == sprite_pattern_address(self.view().reg_control, e, self.view().scanline),
    {
        let row = (self.scanline as u16).wrapping_sub(e.y as u16);
        let flipped = e.attributes & 0x80 != 0;
        if !self.reg_control.sprite_size() {
            // 8x8 mode
            let ps: u16 = if self.reg_control.pattern_sprite() {
                1
            } else {
                0
            };
            let base = (ps << 12u16) | ((e.tile_index as u16) << 4u16);
            if !flipped {
                base | row
            } else {
                base | 7u16.wrapping_sub(self.scanline as u16).wrapping_sub(e.y as u16)
            }
        } else {
            // 8x16 mode
            let table = ((e.tile_index & 0x01) as u16) << 12u16;
            let top = ((e.tile_index & 0xFE) as u16) << 4u16;
            let bottom = (((e.tile_index & 0xFE) as u16) + 1) << 4u16;
            let upper_half = self.scanline - (e.y as i16) < 8;
            if !flipped {
                if upper_half {
                    table | top | (row & 0x07)
                } else {
                    table | bottom | (row & 0x07)
                }
            } else {
                if upper_half {
                    table | bottom | 7u16.wrapping_sub(row)
                } else {
                    table | top | 7u16.wrapping_sub(row)
                }
            }
        }
    }

    /// Loads the pattern rows of the sprites of the next line.
    fn fetch_sprite_patterns(&mut self, cartridge: &ComponentCartridge)
        requires
            old(self).wf(),
            cartridge.wf(),
        ensures
            final(self).wf(),
            final(self).view() == spec_fetch_sprite_patterns(old(self).view(), cartridge.view()),
    {
        let ghost p0 = self.view();
        let mut i: u8 = 0;
        while i < self.sprite_count
            invariant
                ppu_view_wf(self.view()),
                ppu_view_wf(p0),
                i <= self.sprite_count,
                cartridge.wf(),
                self.view() == (PpuView {
                    sprite_shifter_pattern_lo: self.view().sprite_shifter_pattern_lo,
                    sprite_shifter_pattern_hi: self.view().sprite_shifter_pattern_hi,
                    ..p0
                }),
                forall|j: int|
                    0 <= j < 8 ==> self.view().sprite_shifter_pattern_lo[j] == if j < i {
                        spec_fetch_sprite_patterns(p0, cartridge.view()).sprite_shifter_pattern_lo[j]
                    } else {
                        p0.sprite_shifter_pattern_lo[j]
                    },
                forall|j: int|
                    0 <= j < 8 ==> self.view().sprite_shifter_pattern_hi[j] == if j < i {
                        spec_fetch_sprite_patterns(p0, cartridge.view()).sprite_shifter_pattern_hi[j]
                    } else {
                        p0.sprite_shifter_pattern_hi[j]
                    },
            decreases self.sprite_count - i,
        {
            let k = i as usize;
            let e = self.sprites_scanline[k];
            let addr_lo = self.sprite_pattern_address(e);
            let addr_hi = addr_lo.wrapping_add(8);
            let mut lo = self.ppu_read(addr_lo, false, cartridge);
            let mut hi = self.ppu_read(addr_hi, false, cartridge);

            if e.attributes & 0x40 != 0 {
                lo = reverse_bits(lo);
                hi = reverse_bits(hi);
            }

            self.sprite_shifter_pattern_lo.set(k, lo);
            self.sprite_shifter_pattern_hi.set(k, hi);
            i = i + 1;
        }
        assert(self.view().sprite_shifter_pattern_lo =~= spec_fetch_sprite_patterns(
            p0,
            cartridge.view(),
        ).sprite_shifter_pattern_lo);
        assert(self.view().sprite_shifter_pattern_hi =~= spec_fetch_sprite_patterns(
            p0,
            cartridge.view(),
        ).sprite_shifter_pattern_hi);
    }

    /// The work of the visible and pre-render scan lines, before the pixel.
    fn scanline_work(&mut self, cartridge: &ComponentCartridge)
        requires
            old(self).wf(),
            cartridge.wf(),
            -1 <= old(self).view().scanline < 240,
        ensures
            final(self).wf(),
            final(self).view() == spec_scanline_work(old(self).view(), cartridge.view()),
    {
        if self.scanline == 0 && self.cycle == 0 {
            self.cycle = 1;
        }

        if self.scanline == -1 && self.cycle == 1 {
            self.reg_status.set_vertical_blank(false);
            self.reg_status.set_sprite_zero_hit(false);
            self.reg_status.set_sprite_overflow(false);

            self.sprite_shifter_pattern_lo = zeros(8);
            self.sprite_shifter_pattern_hi = zeros(8);
        }

        if (self.cycle >= 2 && self.cycle < 258) || (self.cycle >= 321 && self.cycle < 338) {
            self.background_step(cartridge);
        }

        if self.cycle == 256 {
            self.increment_scroll_y();
        }

        if self.cycle == 257 {
            self.transfer_address_x();
        }

        if self.scanline == -1 && self.cycle >= 280 && self.cycle < 305 {
            self.transfer_address_y();
        }

        if self.cycle == 338 || self.cycle == 340 {
            self.bg_next_tile_id = self.ppu_read(
                0x2000 | (self.vram_addr.into_bits() & 0x0FFF),
                false,
                cartridge,
            );
        }

        // Sprite evaluation phase
        if self.cycle == 257 && self.scanline >= 0 {
            self.evaluate_sprites();
        }

        if self.cycle == 340 {
            self.fetch_sprite_patterns(cartridge);
        }
    }

    /// The pixel and palette that reach the screen, with the sprite zero
    /// bookkeeping.
    fn compose(&mut self) -> (r: (u8, u8))
        requires
            old(self).wf(),
        ensures
            final(self).wf(),
            (r.0, r.1, final(self).view()) == spec_compose(old(self).view()),
    {
        let ghost p0 = self.view();
        let (bg_pixel, bg_palette) = if self.reg_mask.render_background() {
            let bit_mux: u16 = 0x8000u16 >> (self.fine_x as u16);
            let p0_pixel: u8 = if (self.bg_shifter_pattern_lo & bit_mux) > 0 {
                1
            } else {
                0
            };
            let p1_pixel: u8 = if (self.bg_shifter_pattern_hi & bit_mux) > 0 {
                1
            } else {
                0
            };
            let bg_pal0: u8 = if (self.bg_shifter_attribute_lo & bit_mux) > 0 {
                1
            } else {
                0
            };
            let bg_pal1: u8 = if (self.bg_shifter_attribute_hi & bit_mux) > 0 {
                1
            } else {
                0
            };
            (p1_pixel * 2 + p0_pixel, bg_pal1 * 2 + bg_pal0)
        } else {
            (0, 0)
        };

        let mut fg_pixel: u8 = 0x00;
        let mut fg_palette: u8 = 0x00;
        let mut fg_priority = false;
        if self.reg_mask.render_sprites() {
            self.is_sprite_zero_being_rendered = false;

            let mut i: u8 = 0;
            let mut done = false;
            while i < self.sprite_count && !done
                invariant
                    ppu_view_wf(self.view()),
                    i <= self.sprite_count,
                    self.view() == (PpuView {
                        is_sprite_zero_being_rendered: self.view().is_sprite_zero_being_rendered,
                        ..p0
                    }),
                    (fg_pixel, fg_palette, fg_priority, self.view().is_sprite_zero_being_rendered, done)
                        == foreground_scan(p0, i as nat),
                decreases self.sprite_count - i,
            {
                let k = i as usize;
                let e = self.sprites_scanline[k];
                if e.x == 0 {
                    let fg_pixel_lo: u8 = if (self.sprite_shifter_pattern_lo[k] & 0x80) > 0 {
                        1
                    } else {
                        0
                    };
                    let fg_pixel_hi: u8 = if (self.sprite_shifter_pattern_hi[k] & 0x80) > 0 {
                        1
                    } else {
                        0
                    };
                    fg_pixel = fg_pixel_hi * 2 + fg_pixel_lo;

                    proof {
                        let at = e.attributes;
                        crate::bits::lemma_u8_bits(at);
                    }
                    fg_palette = (e.attributes & 0x03) + 0x04;
                    fg_priority = (e.attributes & 0x20) == 0;

                    if fg_pixel != 0 {
                        if i == 0 {
                            self.is_sprite_zero_being_rendered = true;
                        }
                        done = true;
                    }
                }
                i = i + 1;
            }
            proof {
                if done {
                    lemma_foreground_scan_done(p0, i as nat, p0.sprite_count as nat);
                }
            }
        }

        if bg_pixel == 0 && fg_pixel == 0 {
            (0, 0)
        } else if bg_pixel == 0 {
            (fg_pixel, fg_palette)
        } else if fg_pixel == 0 {
            (bg_pixel, bg_palette)
        } else {
            let res = if fg_priority {
                (fg_pixel, fg_palette)
            } else {
                (bg_pixel, bg_palette)
            };

            if self.is_sprite_zero_hit_possible && self.is_sprite_zero_being_rendered {
                if self.reg_mask.render_background() && self.reg_mask.render_sprites() {
                    if !(self.reg_mask.render_background_left()
                        || self.reg_mask.render_sprites_left()) {
                        if self.cycle >= 9 && self.cycle < 258 {
                            self.reg_status.set_sprite_zero_hit(true);
                        }
                    } else {
                        if self.cycle >= 1 && self.cycle < 258 {
                            self.reg_status.set_sprite_zero_hit(true);
                        }
                    }
                }
            }

            res
        }
    }

    /// The colour of `pixel_index` in palette `palette_index`.
    fn get_palette_color(
        &self,
        screen: &ScreenData,
        palette_index: u8,
        pixel_index: u8,
        cartridge: &ComponentCartridge,
    ) -> (c: Rgba)
        requires
            self.wf(),
            screen.wf(),
            cartridge.wf(),
        ensures
            c == nes_palette_color(
                spec_palette_entry(self.view(), cartridge.view(), palette_index, pixel_index),
            ),
    {
        let raw = self.ppu_read(
            0x3F00u16 + (palette_index << 2u8) as u16 + pixel_index as u16,
            false,
            cartridge,
        );
        let entry = raw & 0x3F;
        proof {
            crate::bits::lemma_u8_bits(raw);
        }
        screen.palette_color(entry)
    }

    /// The beam moves one cycle on.
    fn advance(&mut self)
        requires
            old(self).wf(),
        ensures
            final(self).wf(),
            final(self).view() == spec_advance(old(self).view()),
    {
        self.cycle = self.cycle + 1;

        if self.cycle >= 341 {
            self.cycle = 0;
            self.scanline = self.scanline + 1;

            if self.scanline >= 261 {
                self.scanline = -1;
                self.is_frame_complete = true;
            }
        }
    }

    /// One PPU clock: the scan line work, the vertical blank, one pixel
    /// drawn, and the beam moving on.
    pub fn tick(&mut self, screen: &mut ScreenData, cartridge: &ComponentCartridge)
        requires
            old(self).wf(),
            old(screen).wf(),
            cartridge.wf(),
        ensures
            final(self).wf(),
            final(screen).wf(),
            ({
                let (p, color, x, y) = spec_tick(old(self).view(), cartridge.view());
                &&& final(self).view() == p
                &&& final(screen).screen_view() == screen_with_pixel(
                    old(screen).screen_view(),
                    x,
                    y,
                    color,
                )
            }),
            final(screen).palette_view() == old(screen).palette_view(),
            final(screen).pattern_table_view(0) == old(screen).pattern_table_view(0),
            final(screen).pattern_table_view(1) == old(screen).pattern_table_view(1),
    {
        if self.scanline >= -1 && self.scanline < 240 {
            self.scanline_work(cartridge);
        }

        if self.scanline == 241 && self.scanline < 261 && self.cycle == 1 {
            self.reg_status.set_vertical_blank(true);
            if self.reg_control.enable_nmi() {
                self.nmi_occurred = true;
            }
        }

        let (pixel, palette) = self.compose();
        let color = self.get_palette_color(screen, palette, pixel, cartridge);
        proof {
            screen.lemma_wf();
        }

        screen.draw_pixel_screen((self.cycle - 1) as u16, self.scanline as u16, color);

        self.advance();
    }
}

/// The 2-bit pixel at (`x`, `y`) of the 128 x 128 picture of pattern table
/// `index`: 16 x 16 tiles of 8 x 8 pixels, 16 bytes per tile (8 rows of the
/// low plane, then 8 of the high plane), the leftmost pixel in bit 7.
pub open spec fn pattern_pixel(p: PpuView, cart: CartridgeView, index: u8, x: int, y: int) -> u8 {
    let offset = (y / 8) * 256 + (x / 8) * 16;
    let addr = index as int * 0x1000 + offset + y % 8;
    let col = (7 - x % 8) as u8;
    let lsb = spec_ppu_read(p, cart, addr as u16);
    let msb = spec_ppu_read(p, cart, (addr + 8) as u16);
    (((lsb >> col) & 1) + ((msb >> col) & 1) * 2) as u8
}

impl Component2C02 {
    /// Draws pattern table `index` with palette `palette_index` into its
    /// picture in `screen_data`.
    pub fn fill_pattern_table(
        &self,
        index: u8,
        palette_index: u8,
        screen_data: &mut ScreenData,
        cartridge: &ComponentCartridge,
    )
        requires
            self.wf(),
            old(screen_data).wf(),
            cartridge.wf(),
            index < 2,
        ensures
            final(screen_data).wf(),
            final(screen_data).screen_view() == old(screen_data).screen_view(),
            final(screen_data).palette_view() == old(screen_data).palette_view(),
            final(screen_data).pattern_table_view(1 - index) == old(
                screen_data,
            ).pattern_table_view(1 - index),
            final(screen_data).pattern_table_view(index as int).len() == 128 * 128,
            forall|x: int, y: int|
                0 <= x < 128 && 0 <= y < 128 ==> final(screen_data).pattern_table_view(
                    index as int,
                )[y * 128 + x] == nes_palette_color(
                    spec_palette_entry(
                        self.view(),
                        cartridge.view(),
                        palette_index,
                        pattern_pixel(self.view(), cartridge.view(), index, x, y),
                    ),
                ),
    {
        let ghost old_screen = *screen_data;
        proof {
            screen_data.lemma_wf();
        }
        let mut py: u16 = 0;
        while py < 128
            invariant
                self.wf(),
                cartridge.wf(),
                index < 2,
                py <= 128,
                screen_data.wf(),
                screen_data.screen_view() == old_screen.screen_view(),
                screen_data.palette_view() == old_screen.palette_view(),
                screen_data.pattern_table_view(1 - index) == old_screen.pattern_table_view(1 - index),
                screen_data.pattern_table_view(index as int).len() == 128 * 128,
                forall|x: int, y: int|
                    0 <= x < 128 && 0 <= y < py ==> screen_data.pattern_table_view(
                        index as int,
                    )[y * 128 + x] == nes_palette_color(
                        spec_palette_entry(
                            self.view(),
                            cartridge.view(),
                            palette_index,
                            pattern_pixel(self.view(), cartridge.view(), index, x, y),
                        ),
                    ),
            decreases 128 - py,
        {
            let mut px: u16 = 0;
            while px < 128
                invariant
                    self.wf(),
                    cartridge.wf(),
                    index < 2,
                    py < 128,
                    px <= 128,
                    screen_data.wf(),
                    screen_data.screen_view() == old_screen.screen_view(),
                    screen_data.palette_view() == old_screen.palette_view(),
                    screen_data.pattern_table_view(1 - index) == old_screen.pattern_table_view(
                        1 - index,
                    ),
                    screen_data.pattern_table_view(index as int).len() == 128 * 128,
                    forall|x: int, y: int|
                        0 <= x < 128 && 0 <= y < 128 && (y < py || (y == py && x < px))
                            ==> screen_data.pattern_table_view(index as int)[y * 128 + x]
                            == nes_palette_color(
                            spec_palette_entry(
                                self.view(),
                                cartridge.view(),
                                palette_index,
                                pattern_pixel(self.view(), cartridge.view(), index, x, y),
                            ),
                        ),
                decreases 128 - px,
            {
                let offset = (py / 8) * 256 + (px / 8) * 16;
                let addr = index as u16 * 0x1000 + offset + py % 8;
                let col = (7 - px % 8) as u8;
                let tile_lsb = self.ppu_read(addr, false, cartridge);
                let tile_msb = self.ppu_read(addr + 8, false, cartridge);
                proof {
                    assert((tile_lsb >> col) & 0x01 <= 1 && (tile_msb >> col) & 0x01 <= 1)
                        by (bit_vector);
                }
                let pixel = ((tile_lsb >> col) & 0x01) + ((tile_msb >> col) & 0x01) * 2;
                let ghost before = *screen_data;
                screen_data.draw_pixel_pattern_table(
                    index,
                    px,
                    py,
                    self.get_palette_color(screen_data, palette_index, pixel, cartridge),
                );
                assert forall|x: int, y: int|
                    0 <= x < 128 && 0 <= y < 128 && (y < py || (y == py && x < px + 1))
                        implies screen_data.pattern_table_view(index as int)[y * 128 + x]
                        == nes_palette_color(
                        spec_palette_entry(
                            self.view(),
                            cartridge.view(),
                            palette_index,
                            pattern_pixel(self.view(), cartridge.view(), index, x, y),
                        ),
                    ) by {
                    if y == py && x == px {
                    } else {
                        assert(y * 128 + x != py * 128 + px);
                        assert(before.pattern_table_view(index as int)[y * 128 + x]
                            == screen_data.pattern_table_view(index as int)[y * 128 + x]);
                    }
                }
                px = px + 1;
            }
            py = py + 1;
        }
    }
}

impl Component2C02 {
    /// Writes one byte of sprite memory, as the sprite DMA does.
    pub fn oam_dma_write(&mut self, address: u8, data: u8)
        requires
            old(self).wf(),
        ensures
            final(self).wf(),
            final(self).view() == (PpuView {
                oam: oam_with_byte(old(self).view().oam, address, data),
                ..old(self).view()
            }),
    {
        self.oam.write(address, data);
    }

    /// Whether an NMI is waiting for the CPU.
    pub fn nmi_occurred(&self) -> (r: bool)
        ensures
            r == self.view().nmi_occurred,
    {
        self.nmi_occurred
    }

    /// Sets or clears the waiting NMI.
    pub fn set_nmi_occurred(&mut self, value: bool)
        requires
            old(self).wf(),
        ensures
            final(self).wf(),
            final(self).view() == (PpuView { nmi_occurred: value, ..old(self).view() }),
    {
        self.nmi_occurred = value;
    }

    /// Whether a frame has been completed.
    pub fn is_frame_complete(&self) -> (r: bool)
        ensures
            r == self.view().is_frame_complete,
    {
        self.is_frame_complete
    }

    /// Sets or clears the frame-complete flag.
    pub fn set_frame_complete(&mut self, value: bool)
        requires
            old(self).wf(),
        ensures
            final(self).wf(),
            final(self).view() == (PpuView { is_frame_complete: value, ..old(self).view() }),
    {
        self.is_frame_complete = value;
    }
}

} // verus!
