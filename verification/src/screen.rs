use vstd::prelude::*;

verus! {

/// Width of the NES picture in pixels.
pub const NES_SCREEN_WIDTH: u16 = 256;

/// Height of the NES picture in pixels.
pub const NES_SCREEN_HEIGHT: u16 = 240;

/// Side of a pattern table picture in pixels.
pub const PATTERN_TABLE_SIDE: u16 = 128;

/// A colour with red, green, blue and alpha channels.
#[derive(Debug, Copy, Clone, PartialEq, Eq, Structural)]
pub struct Rgba {
    pub r: u8,
    pub g: u8,
    pub b: u8,
    pub a: u8,
}

impl Rgba {
    /// Fully transparent black.
    pub open spec fn spec_blank() -> Rgba {
        Rgba { r: 0, g: 0, b: 0, a: 0 }
    }

    /// Fully transparent black.
    pub fn blank() -> (c: Rgba)
        ensures
            c == Self::spec_blank(),
    {
        Rgba { r: 0, g: 0, b: 0, a: 0 }
    }
}

/// The 64 colours that the PPU can produce.
pub open spec fn nes_palette_color(i: u8) -> Rgba {
    match i {
        0 => Rgba { r: 84, g: 84, b: 84, a: 255 },
        1 => Rgba { r: 0, g: 30, b: 116, a: 255 },
        2 => Rgba { r: 8, g: 16, b: 144, a: 255 },
        3 => Rgba { r: 48, g: 0, b: 136, a: 255 },
        4 => Rgba { r: 68, g: 0, b: 100, a: 255 },
        5 => Rgba { r: 92, g: 0, b: 48, a: 255 },
        6 => Rgba { r: 84, g: 4, b: 0, a: 255 },
        7 => Rgba { r: 60, g: 24, b: 0, a: 255 },
        8 => Rgba { r: 32, g: 42, b: 0, a: 255 },
        9 => Rgba { r: 8, g: 58, b: 0, a: 255 },
        10 => Rgba { r: 0, g: 64, b: 0, a: 255 },
        11 => Rgba { r: 0, g: 60, b: 0, a: 255 },
        12 => Rgba { r: 0, g: 50, b: 60, a: 255 },
        13 => Rgba { r: 0, g: 0, b: 0, a: 255 },
        14 => Rgba { r: 0, g: 0, b: 0, a: 255 },
        15 => Rgba { r: 0, g: 0, b: 0, a: 255 },
        16 => Rgba { r: 152, g: 150, b: 152, a: 255 },
        17 => Rgba { r: 8, g: 76, b: 196, a: 255 },
        18 => Rgba { r: 48, g: 50, b: 236, a: 255 },
        19 => Rgba { r: 92, g: 30, b: 228, a: 255 },
        20 => Rgba { r: 136, g: 20, b: 176, a: 255 },
        21 => Rgba { r: 160, g: 20, b: 100, a: 255 },
        22 => Rgba { r: 152, g: 34, b: 32, a: 255 },
        23 => Rgba { r: 120, g: 60, b: 0, a: 255 },
        24 => Rgba { r: 84, g: 90, b: 0, a: 255 },
        25 => Rgba { r: 40, g: 114, b: 0, a: 255 },
        26 => Rgba { r: 8, g: 124, b: 0, a: 255 },
        27 => Rgba { r: 0, g: 118, b: 40, a: 255 },
        28 => Rgba { r: 0, g: 102, b: 120, a: 255 },
        29 => Rgba { r: 0, g: 0, b: 0, a: 255 },
        30 => Rgba { r: 0, g: 0, b: 0, a: 255 },
        31 => Rgba { r: 0, g: 0, b: 0, a: 255 },
        32 => Rgba { r: 236, g: 238, b: 236, a: 255 },
        33 => Rgba { r: 76, g: 154, b: 236, a: 255 },
        34 => Rgba { r: 120, g: 124, b: 236, a: 255 },
        35 => Rgba { r: 176, g: 98, b: 236, a: 255 },
        36 => Rgba { r: 228, g: 84, b: 236, a: 255 },
        37 => Rgba { r: 236, g: 88, b: 180, a: 255 },
        38 => Rgba { r: 236, g: 106, b: 100, a: 255 },
        39 => Rgba { r: 212, g: 136, b: 32, a: 255 },
        40 => Rgba { r: 160, g: 170, b: 0, a: 255 },
        41 => Rgba { r: 116, g: 196, b: 0, a: 255 },
        42 => Rgba { r: 76, g: 208, b: 32, a: 255 },
        43 => Rgba { r: 56, g: 204, b: 108, a: 255 },
        44 => Rgba { r: 56, g: 180, b: 204, a: 255 },
        45 => Rgba { r: 60, g: 60, b: 60, a: 255 },
        46 => Rgba { r: 0, g: 0, b: 0, a: 255 },
        47 => Rgba { r: 0, g: 0, b: 0, a: 255 },
        48 => Rgba { r: 236, g: 238, b: 236, a: 255 },
        49 => Rgba { r: 168, g: 204, b: 236, a: 255 },
        50 => Rgba { r: 188, g: 188, b: 236, a: 255 },
        51 => Rgba { r: 212, g: 178, b: 236, a: 255 },
        52 => Rgba { r: 236, g: 174, b: 236, a: 255 },
        53 => Rgba { r: 236, g: 174, b: 212, a: 255 },
        54 => Rgba { r: 236, g: 180, b: 176, a: 255 },
        55 => Rgba { r: 228, g: 196, b: 144, a: 255 },
        56 => Rgba { r: 204, g: 210, b: 120, a: 255 },
        57 => Rgba { r: 180, g: 222, b: 120, a: 255 },
        58 => Rgba { r: 168, g: 226, b: 144, a: 255 },
        59 => Rgba { r: 152, g: 226, b: 180, a: 255 },
        60 => Rgba { r: 160, g: 214, b: 228, a: 255 },
        61 => Rgba { r: 160, g: 162, b: 160, a: 255 },
        62 => Rgba { r: 0, g: 0, b: 0, a: 255 },
        _ => Rgba { r: 0, g: 0, b: 0, a: 255 },
    }
}

/// The NES palette, as a vector of 64 colours.
fn nes_palette() -> (v: Vec<Rgba>)
    ensures
        v@.len() == 64,
        forall|i: int| 0 <= i < 64 ==> v@[i] == nes_palette_color(i as u8),
{
    let mut v: Vec<Rgba> = Vec::new();
        v.push(Rgba { r: 84, g: 84, b: 84, a: 255 });
        v.push(Rgba { r: 0, g: 30, b: 116, a: 255 });
        v.push(Rgba { r: 8, g: 16, b: 144, a: 255 });
        v.push(Rgba { r: 48, g: 0, b: 136, a: 255 });
        v.push(Rgba { r: 68, g: 0, b: 100, a: 255 });
        v.push(Rgba { r: 92, g: 0, b: 48, a: 255 });
        v.push(Rgba { r: 84, g: 4, b: 0, a: 255 });
        v.push(Rgba { r: 60, g: 24, b: 0, a: 255 });
        v.push(Rgba { r: 32, g: 42, b: 0, a: 255 });
        v.push(Rgba { r: 8, g: 58, b: 0, a: 255 });
        v.push(Rgba { r: 0, g: 64, b: 0, a: 255 });
        v.push(Rgba { r: 0, g: 60, b: 0, a: 255 });
        v.push(Rgba { r: 0, g: 50, b: 60, a: 255 });
        v.push(Rgba { r: 0, g: 0, b: 0, a: 255 });
        v.push(Rgba { r: 0, g: 0, b: 0, a: 255 });
        v.push(Rgba { r: 0, g: 0, b: 0, a: 255 });
        v.push(Rgba { r: 152, g: 150, b: 152, a: 255 });
        v.push(Rgba { r: 8, g: 76, b: 196, a: 255 });
        v.push(Rgba { r: 48, g: 50, b: 236, a: 255 });
        v.push(Rgba { r: 92, g: 30, b: 228, a: 255 });
        v.push(Rgba { r: 136, g: 20, b: 176, a: 255 });
        v.push(Rgba { r: 160, g: 20, b: 100, a: 255 });
        v.push(Rgba { r: 152, g: 34, b: 32, a: 255 });
        v.push(Rgba { r: 120, g: 60, b: 0, a: 255 });
        v.push(Rgba { r: 84, g: 90, b: 0, a: 255 });
        v.push(Rgba { r: 40, g: 114, b: 0, a: 255 });
        v.push(Rgba { r: 8, g: 124, b: 0, a: 255 });
        v.push(Rgba { r: 0, g: 118, b: 40, a: 255 });
        v.push(Rgba { r: 0, g: 102, b: 120, a: 255 });
        v.push(Rgba { r: 0, g: 0, b: 0, a: 255 });
        v.push(Rgba { r: 0, g: 0, b: 0, a: 255 });
        v.push(Rgba { r: 0, g: 0, b: 0, a: 255 });
        v.push(Rgba { r: 236, g: 238, b: 236, a: 255 });
        v.push(Rgba { r: 76, g: 154, b: 236, a: 255 });
        v.push(Rgba { r: 120, g: 124, b: 236, a: 255 });
        v.push(Rgba { r: 176, g: 98, b: 236, a: 255 });
        v.push(Rgba { r: 228, g: 84, b: 236, a: 255 });
        v.push(Rgba { r: 236, g: 88, b: 180, a: 255 });
        v.push(Rgba { r: 236, g: 106, b: 100, a: 255 });
        v.push(Rgba { r: 212, g: 136, b: 32, a: 255 });
        v.push(Rgba { r: 160, g: 170, b: 0, a: 255 });
        v.push(Rgba { r: 116, g: 196, b: 0, a: 255 });
        v.push(Rgba { r: 76, g: 208, b: 32, a: 255 });
        v.push(Rgba { r: 56, g: 204, b: 108, a: 255 });
        v.push(Rgba { r: 56, g: 180, b: 204, a: 255 });
        v.push(Rgba { r: 60, g: 60, b: 60, a: 255 });
        v.push(Rgba { r: 0, g: 0, b: 0, a: 255 });
        v.push(Rgba { r: 0, g: 0, b: 0, a: 255 });
        v.push(Rgba { r: 236, g: 238, b: 236, a: 255 });
        v.push(Rgba { r: 168, g: 204, b: 236, a: 255 });
        v.push(Rgba { r: 188, g: 188, b: 236, a: 255 });
        v.push(Rgba { r: 212, g: 178, b: 236, a: 255 });
        v.push(Rgba { r: 236, g: 174, b: 236, a: 255 });
        v.push(Rgba { r: 236, g: 174, b: 212, a: 255 });
        v.push(Rgba { r: 236, g: 180, b: 176, a: 255 });
        v.push(Rgba { r: 228, g: 196, b: 144, a: 255 });
        v.push(Rgba { r: 204, g: 210, b: 120, a: 255 });
        v.push(Rgba { r: 180, g: 222, b: 120, a: 255 });
        v.push(Rgba { r: 168, g: 226, b: 144, a: 255 });
        v.push(Rgba { r: 152, g: 226, b: 180, a: 255 });
        v.push(Rgba { r: 160, g: 214, b: 228, a: 255 });
        v.push(Rgba { r: 160, g: 162, b: 160, a: 255 });
        v.push(Rgba { r: 0, g: 0, b: 0, a: 255 });
        v.push(Rgba { r: 0, g: 0, b: 0, a: 255 });
    assert forall|i: int| 0 <= i < 64 implies v@[i] == nes_palette_color(i as u8) by {
        assert(v@[i] == nes_palette_color(i as u8));
    }
    v
}

/// A vector of `n` blank pixels.
fn blank_pixels(n: usize) -> (v: Vec<Rgba>)
    ensures
        v@ == Seq::new(n as nat, |i: int| Rgba::spec_blank()),
{
    let mut v: Vec<Rgba> = Vec::new();
    let mut i: usize = 0;
    while i < n
        invariant
            i <= n,
            v@ == Seq::new(i as nat, |j: int| Rgba::spec_blank()),
        decreases n - i,
    {
        v.push(Rgba::blank());
        i = i + 1;
        assert(v@ =~= Seq::new(i as nat, |j: int| Rgba::spec_blank()));
    }
    v
}

/// What the emulator draws: the picture, and the two pattern tables as
/// 128 x 128 pictures.
#[derive(Debug)]
pub struct ScreenData {
    displayable_screen: Vec<Rgba>,
    screen_palette: Vec<Rgba>,
    displayable_pattern_table_0: Vec<Rgba>,
    displayable_pattern_table_1: Vec<Rgba>,
}

impl ScreenData {
    /// The pixels of the picture, row by row.
    pub closed spec fn screen_view(&self) -> Seq<Rgba> {
        self.displayable_screen@
    }

    /// The colours of the palette.
    pub closed spec fn palette_view(&self) -> Seq<Rgba> {
        self.screen_palette@
    }

    /// The pixels of pattern table `index`, row by row.
    pub closed spec fn pattern_table_view(&self, index: int) -> Seq<Rgba> {
        if index == 0 {
            self.displayable_pattern_table_0@
        } else {
            self.displayable_pattern_table_1@
        }
    }

    /// The sizes of the pictures, and the palette.
    pub closed spec fn wf(&self) -> bool {
        &&& self.displayable_screen@.len() == NES_SCREEN_WIDTH as int * NES_SCREEN_HEIGHT as int
        &&& self.pattern_table_view(0).len() == 128 * 128
        &&& self.pattern_table_view(1).len() == 128 * 128
        &&& self.palette_view().len() == 64
        &&& forall|i: int| 0 <= i < 64 ==> self.palette_view()[i] == nes_palette_color(i as u8)
    }

    /// The sizes of the pictures, and the palette.
    pub proof fn lemma_wf(&self)
        requires
            self.wf(),
        ensures
            self.screen_view().len() == NES_SCREEN_WIDTH as int * NES_SCREEN_HEIGHT as int,
            self.pattern_table_view(0).len() == 128 * 128,
            self.pattern_table_view(1).len() == 128 * 128,
            self.palette_view().len() == 64,
            forall|i: int| 0 <= i < 64 ==> self.palette_view()[i] == nes_palette_color(i as u8),
    {
    }

    /// The picture, row by row.
    pub fn get_screen(&self) -> (v: &Vec<Rgba>)
        ensures
            v@ == self.screen_view(),
    {
        &self.displayable_screen
    }

    /// Blank pictures and the NES palette.
    pub fn new() -> (s: Self)
        ensures
            s.wf(),
            s.screen_view() == Seq::new(256 * 240, |i: int| Rgba::spec_blank()),
            s.pattern_table_view(0) == Seq::new(128 * 128, |i: int| Rgba::spec_blank()),
            s.pattern_table_view(1) == Seq::new(128 * 128, |i: int| Rgba::spec_blank()),
    {
        Self {
            displayable_screen: blank_pixels(
                256 * 240,
            ),
            screen_palette: nes_palette(),
            displayable_pattern_table_0: blank_pixels(128 * 128),
            displayable_pattern_table_1: blank_pixels(128 * 128),
        }
    }

    /// Colour number `index` of the NES palette.
    pub fn palette_color(&self, index: u8) -> (c: Rgba)
        requires
            self.wf(),
            index < 64,
        ensures
            c == nes_palette_color(index),
    {
        self.screen_palette[index as usize]
    }

    /// Sets pixel (`x`, `y`) of the picture; pixels outside it are ignored.
    pub fn draw_pixel_screen(&mut self, x: u16, y: u16, color: Rgba)
        requires
            old(self).wf(),
        ensures
            final(self).wf(),
            final(self).palette_view() == old(self).palette_view(),
            final(self).pattern_table_view(0) == old(self).pattern_table_view(0),
            final(self).pattern_table_view(1) == old(self).pattern_table_view(1),
            final(self).screen_view() == if x >= NES_SCREEN_WIDTH || y >= NES_SCREEN_HEIGHT {
                old(self).screen_view()
            } else {
                old(self).screen_view().update(
                    y as int * NES_SCREEN_WIDTH as int + x as int,
                    color,
                )
            },
    {
        if x >= NES_SCREEN_WIDTH || y >= NES_SCREEN_HEIGHT {
            return ;
        }
        self.displayable_screen.set(
            y as usize * 256 + x as usize,
            color,
        );
    }

    /// Sets pixel (`x`, `y`) of the picture of pattern table `index`; pixels
    /// outside it are ignored.
    pub fn draw_pixel_pattern_table(&mut self, index: u8, x: u16, y: u16, color: Rgba)
        requires
            old(self).wf(),
            index < 2,
        ensures
            final(self).wf(),
            final(self).palette_view() == old(self).palette_view(),
            final(self).screen_view() == old(self).screen_view(),
            final(self).pattern_table_view(1 - index) == old(self).pattern_table_view(1 - index),
            final(self).pattern_table_view(index as int) == if x >= 128 || y >= 128 {
                old(self).pattern_table_view(index as int)
            } else {
                old(self).pattern_table_view(index as int).update(
                    y as int * 128 + x as int,
                    color,
                )
            },
    {
        if x >= 128 || y >= 128 {
            return ;
        }
        if index == 0 {
            self.displayable_pattern_table_0.set(y as usize * 128 + x as usize, color);
        } else {
            self.displayable_pattern_table_1.set(y as usize * 128 + x as usize, color);
        }
    }

    /// The picture of pattern table `index`.
    pub fn displayable_pattern_table(&self, index: u8) -> (t: &Vec<Rgba>)
        requires
            index < 2,
        ensures
            t@ == self.pattern_table_view(index as int),
    {
        if index == 0 {
            &self.displayable_pattern_table_0
        } else {
            &self.displayable_pattern_table_1
        }
    }
}

} // verus!
