use vstd::prelude::*;
use crate::bus::{Bus, BusView, spec_bus_read, spec_bus_write, bus_read_ok, bus_write_ok};
use crate::cartridge::{ComponentCartridge, CartridgeView, CartridgeMapper, Mirror, lemma_fits_accesses_ok};
use crate::mappers::{Mapper, Mapper000};
use crate::controller::{
    Controller, after_reads, button_held, buttons_byte, lemma_controller_reports_buttons,
};
use crate::cpu::{Component6502, spec_reset, spec_nmi, word};
use crate::cpu_bus::CpuBus;
use crate::oam::{oam_byte, oam_with_byte, lemma_oam_read_after_write};
use crate::ppu::{Component2C02, PpuView, screen_with_pixel, pattern_pixel, spec_palette_entry, ppu_power_on};
use crate::screen::{Rgba, ScreenData, nes_palette_color};

verus! {

/// The registers of the CPU, as the debugger shows them.
#[derive(Debug, Copy, Clone, PartialEq, Eq, Structural)]
pub struct CpuInfo {
    pub program_counter: u16,
    pub reg_a: u8,
    pub reg_x: u8,
    pub reg_y: u8,
    pub stack_pointer: u8,
    pub cycles: u8,
}

/// Abstract state of the whole console.
pub struct NesView {
    pub controllers: [Controller; 2],
    pub cartridge: CartridgeView,
    pub cpu: Component6502,
    pub ppu: PpuView,
    pub bus: BusView,
    pub screen: Seq<Rgba>,
    pub pattern_table_0: Seq<Rgba>,
    pub pattern_table_1: Seq<Rgba>,
    pub pause: bool,
    pub current_palette: u8,
    pub total_clock_ticks: u128,
}

/// The console: CPU, PPU, cartridge slot, work RAM, two controllers, and
/// the pictures it draws.
#[derive(Debug)]
pub struct Nes {
    pub controllers: [Controller; 2],
    cartridge: ComponentCartridge,
    cpu: Component6502,
    ppu: Component2C02,
    bus: Bus,
    screen: ScreenData,
    pub pause: bool,
    current_palette: u8,
    pub total_clock_ticks: u128,
}

/// A CPU read on the console: the byte and the console after the read.
pub open spec fn nes_bus_read(s: NesView, addr: u16) -> (u8, NesView) {
    let (d, cs, p) = spec_bus_read(s.bus, s.controllers, s.cartridge, s.ppu, addr);
    (d, NesView { controllers: cs, ppu: p, ..s })
}

/// A CPU read of `addr` on the console does not fault.
pub open spec fn nes_read_ok(s: NesView, addr: u16) -> bool {
    bus_read_ok(s.cartridge, s.ppu, addr)
}

/// A CPU write of `data` to `addr` on the console does not fault.
pub open spec fn nes_write_ok(s: NesView, addr: u16, data: u8) -> bool {
    bus_write_ok(s.cartridge, s.ppu, addr, data)
}

/// A CPU write on the console.
pub open spec fn nes_bus_write(s: NesView, addr: u16, data: u8) -> NesView {
    let (b, cs, c, p) = spec_bus_write(s.bus, s.controllers, s.cartridge, s.ppu, addr, data);
    NesView { bus: b, controllers: cs, cartridge: c, ppu: p, ..s }
}

/// One step of sprite DMA: on even clock ticks a byte of the source page
/// is read, on odd ones it is written to sprite memory and the address
/// moves on; the transfer ends when the address wraps around.
pub open spec fn spec_handle_dma(s: NesView) -> NesView {
    if s.total_clock_ticks % 2 == 0 {
        let (d, s1) = nes_bus_read(s, word(s.bus.dma_addr, s.bus.dma_page));
        NesView { bus: BusView { dma_data: d, ..s1.bus }, ..s1 }
    } else {
        let next = s.bus.dma_addr.wrapping_add(1);
        NesView {
            ppu: PpuView { oam: oam_with_byte(s.ppu.oam, s.bus.dma_addr, s.bus.dma_data), ..s.ppu },
            bus: BusView {
                dma_addr: next,
                is_dma_active: if next == 0 {
                    false
                } else {
                    s.bus.is_dma_active
                },
                dma_wait_for_sync: if next == 0 {
                    true
                } else {
                    s.bus.dma_wait_for_sync
                },
                ..s.bus
            },
            ..s
        }
    }
}

/// What the CPU does on a clock tick of the console (every third tick):
/// a DMA step, waiting for DMA to start on an odd tick, or a CPU cycle.
#[verifier::opaque]
pub open spec fn spec_cpu_turn(s: NesView) -> NesView {
    if s.bus.is_dma_active {
        if s.bus.dma_wait_for_sync {
            if s.total_clock_ticks % 2 == 1 {
                NesView { bus: BusView { dma_wait_for_sync: false, ..s.bus }, ..s }
            } else {
                s
            }
        } else {
            spec_handle_dma(s)
        }
    } else {
        let (c, t) = crate::cpu::spec_tick::<Nes>(s.cpu, s);
        NesView { cpu: c, ..t }
    }
}

/// A pending NMI is taken by the CPU and cleared.
#[verifier::opaque]
pub open spec fn spec_take_nmi(s: NesView) -> NesView {
    if s.ppu.nmi_occurred {
        let t = NesView { ppu: PpuView { nmi_occurred: false, ..s.ppu }, ..s };
        let (c, u) = spec_nmi::<Nes>(t.cpu, t);
        NesView { cpu: c, ..u }
    } else {
        s
    }
}

/// The PPU clock of a console tick: one pixel drawn on the screen.
#[verifier::opaque]
pub open spec fn spec_ppu_step(s: NesView) -> NesView {
    let (p, color, x, y) = crate::ppu::spec_tick(s.ppu, s.cartridge);
    NesView { ppu: p, screen: screen_with_pixel(s.screen, x, y, color), ..s }
}

/// One clock tick of the console: a PPU clock (one pixel), a CPU turn every
/// third tick, a pending NMI taken, and the tick counted.
pub open spec fn spec_nes_tick(s: NesView) -> NesView {
    let s1 = spec_ppu_step(s);
    let s2 = if s.total_clock_ticks % 3 == 0 {
        spec_cpu_turn(s1)
    } else {
        s1
    };
    let s3 = spec_take_nmi(s2);
    NesView { total_clock_ticks: (s.total_clock_ticks + 1) as u128, ..s3 }
}

/// The reset button: the CPU reset sequence, the mapper reset, the tick
/// counter cleared.
pub open spec fn spec_nes_reset(s: NesView) -> NesView {
    let (c, t) = spec_reset::<Nes>(s.cpu, s);
    NesView {
        cpu: c,
        cartridge: CartridgeView { mapper: t.cartridge.mapper.spec_reset(), ..t.cartridge },
        total_clock_ticks: 0,
        ..t
    }
}

/// The registers that the debugger shows.
pub open spec fn cpu_info_of(c: Component6502) -> CpuInfo {
    CpuInfo {
        program_counter: c.pc,
        reg_a: c.a,
        reg_x: c.x,
        reg_y: c.y,
        stack_pointer: c.sp,
        cycles: c.cycles,
    }
}

impl Nes {
    /// The abstract state of the console.
    pub closed spec fn view(&self) -> NesView {
        NesView {
            controllers: self.controllers,
            cartridge: self.cartridge.view(),
            cpu: self.cpu,
            ppu: self.ppu.view(),
            bus: self.bus.view(),
            screen: self.screen.screen_view(),
            pattern_table_0: self.screen.pattern_table_view(0),
            pattern_table_1: self.screen.pattern_table_view(1),
            pause: self.pause,
            current_palette: self.current_palette,
            total_clock_ticks: self.total_clock_ticks,
        }
    }

    /// The components are well formed and the palette number is below 8.
    pub closed spec fn wf(&self) -> bool {
        &&& self.ppu.wf()
        &&& self.bus.wf()
        &&& self.screen.wf()
        &&& self.current_palette < 8
    }

    /// A cartridge that fits its mapper is in the slot; without one, a CPU
    /// access to cartridge space would fault.
    pub closed spec fn has_cartridge(&self) -> bool {
        self.cartridge.wf()
    }

    /// With a cartridge that fits its mapper, no CPU access faults.
    pub proof fn lemma_has_cartridge_ok(&self, addr: u16, data: u8)
        requires
            self.has_cartridge(),
        ensures
            nes_read_ok(self.view(), addr),
            nes_write_ok(self.view(), addr, data),
    {
        let c = self.cartridge.view();
        lemma_fits_accesses_ok(c, addr, data);
        lemma_fits_accesses_ok(c, self.ppu.view().vram_addr & 0x3FFF, data);
        let c2 = crate::cartridge::spec_cartridge_cpu_write(c, addr, data).1;
        assert(crate::cartridge::cartridge_fits(c2));
        lemma_fits_accesses_ok(c2, self.ppu.view().vram_addr & 0x3FFF, data);
    }

    /// The number of clock ticks since power-on or the last reset.
    pub fn get_total_clock_ticks(&self) -> (t: u128)
        ensures
            t == self.view().total_clock_ticks,
    {
        self.total_clock_ticks
    }

    /// The well-formedness facts that the view shows.
    pub proof fn lemma_wf_view(&self)
        requires
            self.wf(),
        ensures
            self.view().bus.ram.len() == 0x10000,
            self.view().screen.len() == 256 * 240,
            self.view().pattern_table_0.len() == 128 * 128,
            self.view().pattern_table_1.len() == 128 * 128,
            self.view().current_palette < 8,
    {
        self.screen.lemma_wf();
    }

    /// A console with an empty cartridge slot, cleared memory and
    /// registers, paused.
    pub fn new() -> (n: Self)
        ensures
            n.wf(),
            n.view().cartridge == (CartridgeView {
                prg_rom: Seq::empty(),
                chr_rom: Seq::empty(),
                mapper: CartridgeMapper::Nrom(Mapper000::spec_new(0, 0)),
                hardware_mirror: Mirror::Horizontal,
            }),
            n.view().ppu == ppu_power_on(),
            n.view().bus == (BusView {
                ram: Seq::new(0x10000, |i: int| 0u8),
                dma_page: 0,
                dma_addr: 0,
                dma_data: 0,
                is_dma_active: false,
                dma_wait_for_sync: true,
            }),
            n.view().screen == Seq::new(256 * 240, |i: int| Rgba::spec_blank()),
            n.view().pattern_table_0 == Seq::new(128 * 128, |i: int| Rgba::spec_blank()),
            n.view().pattern_table_1 == Seq::new(128 * 128, |i: int| Rgba::spec_blank()),
            n.view().cpu == Component6502::spec_new(),
            n.view().controllers[0].spec_state() == 0,
            n.view().controllers[0].spec_shift_register() == 0,
            n.view().controllers[1].spec_state() == 0,
            n.view().controllers[1].spec_shift_register() == 0,
            n.view().pause,
            n.view().current_palette == 0,
            n.view().total_clock_ticks == 0,
    {
        Self {
            controllers: [Controller::new(), Controller::new()],
            cartridge: ComponentCartridge::new(),
            cpu: Component6502::new(),
            ppu: Component2C02::new(),
            bus: Bus::new(),
            screen: ScreenData::new(),
            pause: true,
            current_palette: 0,
            total_clock_ticks: 0,
        }
    }

    /// Puts `cartridge` in the slot.
    pub fn load_cartridge(&mut self, cartridge: ComponentCartridge)
        requires
            old(self).wf(),
        ensures
            final(self).wf(),
            final(self).has_cartridge() == cartridge.wf(),
            final(self).view() == (NesView { cartridge: cartridge.view(), ..old(self).view() }),
    {
        self.cartridge = cartridge;
    }

    /// A read by the CPU: what it returns and what it changes.
    pub fn cpu_read(&mut self, addr: u16) -> (data: u8)
        requires
            old(self).wf(),
            nes_read_ok(old(self).view(), addr),
        ensures
            final(self).wf(),
            final(self).has_cartridge() == old(self).has_cartridge(),
            (data, final(self).view()) == nes_bus_read(old(self).view(), addr),
    {
        self.bus.cpu_read(addr, false, &mut self.controllers, &self.cartridge, &mut self.ppu)
    }

    /// A write by the CPU.
    pub fn cpu_write(&mut self, addr: u16, data: u8)
        requires
            old(self).wf(),
            nes_write_ok(old(self).view(), addr, data),
        ensures
            final(self).wf(),
            final(self).has_cartridge() == old(self).has_cartridge(),
            final(self).view() == nes_bus_write(old(self).view(), addr, data),
    {
        self.bus.cpu_write(addr, data, &mut self.controllers, &mut self.cartridge, &mut self.ppu);
    }

    /// The reset button.
    pub fn reset(&mut self)
        requires
            old(self).wf(),
            old(self).has_cartridge(),
        ensures
            final(self).wf(),
            final(self).has_cartridge(),
            final(self).view() == spec_nes_reset(old(self).view()),
    {
        let mut cpu = self.cpu;
        cpu.reset(self);
        self.cpu = cpu;
        self.cartridge.reset();
        self.total_clock_ticks = 0;
    }

    /// One step of sprite DMA.
    pub fn handle_dma(&mut self)
        requires
            old(self).wf(),
            old(self).view().total_clock_ticks % 2 == 0 ==> nes_read_ok(
                old(self).view(),
                word(old(self).view().bus.dma_addr, old(self).view().bus.dma_page),
            ),
        ensures
            final(self).wf(),
            final(self).has_cartridge() == old(self).has_cartridge(),
            final(self).view() == spec_handle_dma(old(self).view()),
    {
        if self.total_clock_ticks % 2 == 0 {
            // on even cycles
            let addr = (self.bus.dma_page as u16) << 8 | self.bus.dma_addr as u16;
            proof {
                crate::addressing_modes::lemma_word(self.bus.dma_addr, self.bus.dma_page);
            }
            let data = self.cpu_read(addr);
            self.bus.dma_data = data;
        } else {
            // on odd cycles
            self.ppu.oam_dma_write(self.bus.dma_addr, self.bus.dma_data);
            self.bus.dma_addr = self.bus.dma_addr.wrapping_add(1);
            if self.bus.dma_addr == 0 {
                // DMA transfer complete because it wraps around
                self.bus.is_dma_active = false;
                self.bus.dma_wait_for_sync = true;
            }
        }
    }

    /// The PPU clock of a console tick.
    fn ppu_step(&mut self)
        requires
            old(self).wf(),
            old(self).has_cartridge(),
        ensures
            final(self).wf(),
            final(self).has_cartridge(),
            final(self).view() == spec_ppu_step(old(self).view()),
            final(self).total_clock_ticks == old(self).total_clock_ticks,
    {
        proof {
            reveal(spec_ppu_step);
        }
        self.ppu.tick(&mut self.screen, &self.cartridge);
    }

    /// The CPU's turn in a console tick: DMA, waiting for DMA, or a CPU cycle.
    fn cpu_turn(&mut self)
        requires
            old(self).wf(),
            old(self).has_cartridge(),
        ensures
            final(self).wf(),
            final(self).has_cartridge(),
            final(self).view() == spec_cpu_turn(old(self).view()),
    {
        proof {
            reveal(spec_cpu_turn);
        }
        if self.bus.is_dma_active {
            if self.bus.dma_wait_for_sync {
                if self.total_clock_ticks % 2 == 1 {
                    self.bus.dma_wait_for_sync = false;
                }
            } else {
                proof {
                    self.lemma_has_cartridge_ok(word(self.bus.dma_addr, self.bus.dma_page), 0);
                }
                self.handle_dma();
            }
        } else {
            let mut cpu = self.cpu;
            cpu.tick(self);
            self.cpu = cpu;
        }
    }

    /// Takes a pending NMI.
    fn take_nmi(&mut self)
        requires
            old(self).wf(),
            old(self).has_cartridge(),
        ensures
            final(self).wf(),
            final(self).has_cartridge(),
            final(self).view() == spec_take_nmi(old(self).view()),
    {
        proof {
            reveal(spec_take_nmi);
        }
        if self.ppu.nmi_occurred() {
            self.ppu.set_nmi_occurred(false);
            let mut cpu = self.cpu;
            cpu.nmi(self);
            self.cpu = cpu;
        }
    }

    /// One clock tick of the console.
    pub fn tick(&mut self)
        requires
            old(self).wf(),
            old(self).has_cartridge(),
            old(self).view().total_clock_ticks < u128::MAX,
        ensures
            final(self).wf(),
            final(self).has_cartridge(),
            final(self).view() == spec_nes_tick(old(self).view()),
    {
        let ticks = self.total_clock_ticks;
        self.ppu_step();
        if ticks % 3 == 0 {
            self.cpu_turn();
        }
        self.take_nmi();
        self.total_clock_ticks = ticks + 1;
    }

    /// Whether the CPU has used up the cycles of its last instruction.
    pub fn is_cpu_instruction_complete(&self) -> (r: bool)
        ensures
            r == (self.view().cpu.cycles == 0),
    {
        self.cpu.cycles == 0
    }

    /// Whether the PPU has finished a frame.
    pub fn is_ppu_frame_complete(&self) -> (r: bool)
        ensures
            r == self.view().ppu.is_frame_complete,
    {
        self.ppu.is_frame_complete()
    }

    /// Sets or clears the PPU's frame-complete flag.
    pub fn set_ppu_frame_complete(&mut self, value: bool)
        requires
            old(self).wf(),
        ensures
            final(self).wf(),
            final(self).has_cartridge() == old(self).has_cartridge(),
            final(self).view() == (NesView {
                ppu: PpuView { is_frame_complete: value, ..old(self).view().ppu },
                ..old(self).view()
            }),
    {
        self.ppu.set_frame_complete(value);
    }

    /// The bytes of work RAM from `low` up to, not including, `high`, with
    /// the bounds; nothing when `low > high`.
    pub fn get_ram(&self, low: u16, high: u16) -> (r: (u16, u16, &[u8]))
        requires
            self.wf(),
        ensures
            r.0 == low,
            r.1 == high,
            r.2@ == if low > high {
                Seq::<u8>::empty()
            } else {
                self.view().bus.ram.subrange(low as int, high as int)
            },
    {
        let ram = self.bus.ram.as_slice();
        if low > high {
            // Otherwise taking the slice panics
            return (low, high, vstd::slice::slice_subrange(ram, 0, 0));
        }
        (low, high, vstd::slice::slice_subrange(ram, low as usize, high as usize))
    }

    /// The CPU registers that the debugger shows.
    pub fn get_cpu_info(&self) -> (info: CpuInfo)
        ensures
            info == cpu_info_of(self.view().cpu),
    {
        CpuInfo {
            program_counter: self.cpu.pc,
            reg_a: self.cpu.a,
            reg_x: self.cpu.x,
            reg_y: self.cpu.y,
            stack_pointer: self.cpu.sp,
            cycles: self.cpu.cycles,
        }
    }

    /// The CPU status register.
    pub fn get_cpu_flags(&self) -> (flags: u8)
        ensures
            flags == self.view().cpu.status,
    {
        self.cpu.status
    }

    /// The picture, row by row.
    pub fn get_screen(&self) -> (v: &Vec<Rgba>)
        ensures
            v@ == self.view().screen,
    {
        self.screen.get_screen()
    }

    /// Draws pattern table `index` with the current palette and returns its
    /// picture.
    pub fn get_pattern_table(&mut self, index: u8) -> (t: &Vec<Rgba>)
        requires
            old(self).wf(),
            old(self).has_cartridge(),
            index < 2,
        ensures
            final(self).wf(),
            final(self).has_cartridge(),
            t@ == if index == 0 {
                final(self).view().pattern_table_0
            } else {
                final(self).view().pattern_table_1
            },
            final(self).view() == (NesView {
                pattern_table_0: final(self).view().pattern_table_0,
                pattern_table_1: final(self).view().pattern_table_1,
                ..old(self).view()
            }),
            forall|x: int, y: int|
                0 <= x < 128 && 0 <= y < 128 ==> #[trigger] t@[y * 128 + x] == nes_palette_color(
                    spec_palette_entry(
                        old(self).view().ppu,
                        old(self).view().cartridge,
                        old(self).view().current_palette,
                        pattern_pixel(old(self).view().ppu, old(self).view().cartridge, index, x, y),
                    ),
                ),
            (if index == 0 {
                final(self).view().pattern_table_1
            } else {
                final(self).view().pattern_table_0
            }) == (if index == 0 {
                old(self).view().pattern_table_1
            } else {
                old(self).view().pattern_table_0
            }),
    {
        self.ppu.fill_pattern_table(index, self.current_palette, &mut self.screen, &self.cartridge);
        self.screen.displayable_pattern_table(index)
    }

    /// Moves to the next of the eight palettes, after the last back to the first.
    pub fn cycle_palette(&mut self)
        requires
            old(self).wf(),
        ensures
            final(self).wf(),
            final(self).has_cartridge() == old(self).has_cartridge(),
            final(self).view() == (NesView {
                current_palette: next_palette(old(self).view().current_palette),
                ..old(self).view()
            }),
    {
        let p = self.current_palette;
        proof {
            crate::bits::lemma_u8_bits((p + 1) as u8);
        }
        self.current_palette = (p + 1) & 0x07;
    }
}

impl CpuBus for Nes {
    type State = NesView;

    open spec fn state(&self) -> NesView {
        self.view()
    }

    open spec fn inv(&self) -> bool {
        self.wf() && self.has_cartridge()
    }

    open spec fn peek(s: NesView, addr: u16) -> u8 {
        nes_bus_read(s, addr).0
    }

    open spec fn after_read(s: NesView, addr: u16) -> NesView {
        nes_bus_read(s, addr).1
    }

    open spec fn after_write(s: NesView, addr: u16, data: u8) -> NesView {
        nes_bus_write(s, addr, data)
    }

    fn read(&mut self, addr: u16) -> (data: u8) {
        self.bus.cpu_read(addr, false, &mut self.controllers, &self.cartridge, &mut self.ppu)
    }

    fn write(&mut self, addr: u16, data: u8) {
        self.bus.cpu_write(addr, data, &mut self.controllers, &mut self.cartridge, &mut self.ppu);
    }
}

/// A byte written to work RAM reads back at every mirror of its address
/// (the 2 KiB of RAM repeat four times below `0x2000`).
pub proof fn lemma_ram_mirror(s: NesView, addr: u16, mirror: u16, data: u8)
    requires
        s.bus.ram.len() == 0x10000,
        addr <= 0x1FFF,
        mirror <= 0x1FFF,
        addr % 0x0800 == mirror % 0x0800,
    ensures
        nes_bus_read(nes_bus_write(s, addr, data), mirror).0 == data,
{
}

/// A byte written to work RAM leaves the other cells of RAM as they were.
pub proof fn lemma_ram_write_isolated(s: NesView, addr: u16, other: u16, data: u8)
    requires
        s.bus.ram.len() == 0x10000,
        addr <= 0x1FFF,
        other <= 0x1FFF,
        addr % 0x0800 != other % 0x0800,
    ensures
        nes_bus_read(nes_bus_write(s, addr, data), other).0 == nes_bus_read(s, other).0,
{
}

/// The palette that cycling moves to from palette `p`.
pub open spec fn next_palette(p: u8) -> u8 {
    ((p + 1) % 8) as u8
}

/// Cycling the palette `n` times from `p`.
pub open spec fn cycle_palette_times(p: u8, n: nat) -> u8
    decreases n,
{
    if n == 0 {
        p
    } else {
        next_palette(cycle_palette_times(p, (n - 1) as nat))
    }
}

/// Cycling `n` times from `p` adds `n` modulo 8.
proof fn lemma_cycle_palette_times(p: u8, n: nat)
    requires
        p < 8,
    ensures
        cycle_palette_times(p, n) == (p + n) % 8,
    decreases n,
{
    if n > 0 {
        lemma_cycle_palette_times(p, (n - 1) as nat);
    }
}

/// Cycling the palette goes through all eight palettes and comes back to
/// the first after eight steps.
pub proof fn lemma_palette_cycle(p: u8)
    requires
        p < 8,
    ensures
        cycle_palette_times(p, 8) == p,
        forall|n: nat| 0 < n < 8 ==> #[trigger] cycle_palette_times(p, n) != p,
{
    lemma_cycle_palette_times(p, 8);
    assert forall|n: nat| 0 < n < 8 implies #[trigger] cycle_palette_times(p, n) != p by {
        lemma_cycle_palette_times(p, n);
    }
}

/// One step of sprite DMA on a CPU turn, and the three clock ticks up to
/// the next CPU turn.
#[verifier::opaque]
pub open spec fn dma_turn(s: NesView) -> NesView {
    let t = spec_handle_dma(s);
    NesView { total_clock_ticks: (t.total_clock_ticks + 3) as u128, ..t }
}

/// `k` CPU turns of sprite DMA.
pub open spec fn dma_turns(s: NesView, k: nat) -> NesView
    decreases k,
{
    if k == 0 {
        s
    } else {
        dma_turn(dma_turns(s, (k - 1) as nat))
    }
}

/// Whether reading page `page` leaves the console as it is: work RAM, or a
/// page above the PPU registers and the controller ports.
pub open spec fn quiet_page(page: u8) -> bool {
    page < 0x20 || page > 0x40
}

/// A transfer is under way from a page that reads without side effects, at
/// its start, on a turn that reads.
pub open spec fn dma_ready(s: NesView) -> bool {
    &&& s.bus.is_dma_active
    &&& !s.bus.dma_wait_for_sync
    &&& s.bus.dma_addr == 0
    &&& quiet_page(s.bus.dma_page)
    &&& s.total_clock_ticks % 2 == 0
    &&& s.total_clock_ticks + 3 * 512 < u128::MAX
    &&& s.bus.ram.len() == 0x10000
    &&& s.ppu.oam.len() == 64
}

/// The byte that a CPU read of address `i` of page `page` returns: what
/// sprite DMA from that page copies to sprite memory address `i`.
pub open spec fn dma_source(s: NesView, page: u8, i: int) -> u8 {
    nes_bus_read(s, word(i as u8, page)).0
}

/// A read of a quiet page changes nothing, and gives the same byte on two
/// consoles with the same work RAM and cartridge.
proof fn lemma_quiet_read(a: NesView, b: NesView, lo: u8, page: u8)
    requires
        quiet_page(page),
        a.bus.ram.len() == 0x10000,
        a.bus.ram == b.bus.ram,
        a.cartridge == b.cartridge,
    ensures
        nes_bus_read(a, word(lo, page)).1 == a,
        nes_bus_read(a, word(lo, page)).0 == nes_bus_read(b, word(lo, page)).0,
{
    crate::addressing_modes::lemma_word(lo, page);
}

/// A read turn of sprite DMA from a quiet page: the byte is latched, nothing
/// else changes but the clock.
proof fn lemma_dma_read_turn(e: NesView)
    requires
        e.total_clock_ticks % 2 == 0,
        e.total_clock_ticks + 3 < u128::MAX,
        quiet_page(e.bus.dma_page),
        e.bus.ram.len() == 0x10000,
    ensures
        ({
            let e1 = dma_turn(e);
            &&& e1.bus == (BusView {
                dma_data: dma_source(e, e.bus.dma_page, e.bus.dma_addr as int),
                ..e.bus
            })
            &&& e1.ppu.oam == e.ppu.oam
            &&& e1.cartridge == e.cartridge
            &&& e1.total_clock_ticks == e.total_clock_ticks + 3
        }),
{
    reveal(dma_turn);
    lemma_quiet_read(e, e, e.bus.dma_addr, e.bus.dma_page);
}

/// A write turn of sprite DMA: the latched byte goes to sprite memory and
/// the address moves on; the transfer ends when it wraps around.
proof fn lemma_dma_write_turn(e: NesView)
    requires
        e.total_clock_ticks % 2 == 1,
        e.total_clock_ticks + 3 < u128::MAX,
    ensures
        ({
            let e1 = dma_turn(e);
            let next = e.bus.dma_addr.wrapping_add(1);
            &&& e1.ppu.oam == oam_with_byte(e.ppu.oam, e.bus.dma_addr, e.bus.dma_data)
            &&& e1.bus.dma_addr == next
            &&& e1.bus.is_dma_active == (next != 0 && e.bus.is_dma_active)
            &&& e1.bus.dma_wait_for_sync == (next == 0 || e.bus.dma_wait_for_sync)
            &&& e1.bus.ram == e.bus.ram
            &&& e1.bus.dma_page == e.bus.dma_page
            &&& e1.cartridge == e.cartridge
            &&& e1.total_clock_ticks == e.total_clock_ticks + 3
        }),
{
    reveal(dma_turn);
}

/// After `2 * i` turns the first `i` bytes are copied and the transfer is at
/// byte `i`.
proof fn lemma_dma_progress(s: NesView, i: nat)
    requires
        dma_ready(s),
        i <= 256,
    ensures
        ({
            let e = dma_turns(s, 2 * i);
            &&& i < 256 ==> e.bus.dma_addr == i && e.bus.is_dma_active
            &&& i == 256 ==> e.bus.dma_addr == 0 && !e.bus.is_dma_active && e.bus.dma_wait_for_sync
            &&& !e.bus.dma_wait_for_sync || i == 256
            &&& e.total_clock_ticks == s.total_clock_ticks + 6 * i
            &&& e.bus.ram == s.bus.ram
            &&& e.cartridge == s.cartridge
            &&& e.bus.dma_page == s.bus.dma_page
            &&& e.ppu.oam.len() == 64
            &&& forall|j: int|
                0 <= j < i ==> #[trigger] oam_byte(e.ppu.oam, j as u8) == dma_source(
                    s,
                    s.bus.dma_page,
                    j,
                )
        }),
    decreases i,
{
    if i > 0 {
        let k = (i - 1) as nat;
        lemma_dma_progress(s, k);
        let e = dma_turns(s, 2 * k);
        let e1 = dma_turns(s, 2 * k + 1);
        let e2 = dma_turns(s, 2 * k + 2);
        assert(e1 == dma_turn(e));
        assert(e2 == dma_turn(e1));
        lemma_dma_read_turn(e);
        lemma_dma_write_turn(e1);
        let page = s.bus.dma_page;
        let data = e1.bus.dma_data;
        lemma_quiet_read(e, s, k as u8, page);
        assert(data == dma_source(s, page, k as int));
        assert forall|j: int| 0 <= j < i implies #[trigger] oam_byte(e2.ppu.oam, j as u8)
            == dma_source(s, page, j) by {
            lemma_oam_read_after_write(e1.ppu.oam, k as u8, j as u8, data);
        }
        lemma_oam_read_after_write(e1.ppu.oam, k as u8, 0, data);
    }
}

/// Sprite DMA copies the 256 bytes of the source page into sprite memory in
/// 512 CPU turns, then stops and waits to be started again; the source is a
/// page of work RAM, or one above the PPU registers and controller ports,
/// whose reads change nothing.
pub proof fn lemma_dma_copies_page(s: NesView)
    requires
        dma_ready(s),
    ensures
        ({
            let e = dma_turns(s, 512);
            &&& !e.bus.is_dma_active
            &&& e.bus.dma_wait_for_sync
            &&& e.bus.dma_addr == 0
            &&& e.bus.ram == s.bus.ram
            &&& forall|j: int|
                0 <= j < 256 ==> #[trigger] oam_byte(e.ppu.oam, j as u8) == dma_source(
                    s,
                    s.bus.dma_page,
                    j,
                )
        }),
{
    lemma_dma_progress(s, 256);
}

/// A write to a controller port (`0x4016` for the first controller,
/// `0x4017` for the second) latches that controller's buttons, and the next
/// read of the port reports the A button (bit 7) first.
pub proof fn lemma_controller_latch_then_read(s: NesView, port: u16, data: u8)
    requires
        port == 0x4016 || port == 0x4017,
    ensures
        nes_bus_read(nes_bus_write(s, port, data), port).0 == if s.controllers[(port
            - 0x4016) as int].spec_state() >= 0x80 {
            1u8
        } else {
            0u8
        },
{
    crate::controller::lemma_controller_transitions(s.controllers[(port - 0x4016) as int]);
}

/// The console after `k` CPU reads of `port`.
pub open spec fn port_reads(s: NesView, port: u16, k: nat) -> NesView
    decreases k,
{
    if k == 0 {
        s
    } else {
        nes_bus_read(port_reads(s, port, (k - 1) as nat), port).1
    }
}

/// Reads of a controller port go to that controller only.
proof fn lemma_port_reads(s: NesView, port: u16, k: nat)
    requires
        port == 0x4016 || port == 0x4017,
    ensures
        port_reads(s, port, k).controllers[(port - 0x4016) as int] == after_reads(
            s.controllers[(port - 0x4016) as int],
            k,
        ),
    decreases k,
{
    if k > 0 {
        lemma_port_reads(s, port, (k - 1) as nat);
    }
}

/// On the console, a write to a controller port latches that controller's
/// buttons; then the reads of the port report them one at a time: the
/// `k`-th read gives 1 when the `k`-th button (A, B, Select, Start, Up,
/// Down, Left, Right) is held and 0 when it is not, and every read after
/// the eighth gives 0.
pub proof fn lemma_console_controller_reports_buttons(
    s: NesView,
    port: u16,
    data: u8,
    a: bool,
    b: bool,
    select: bool,
    start: bool,
    up: bool,
    down: bool,
    left: bool,
    right: bool,
    k: nat,
)
    requires
        port == 0x4016 || port == 0x4017,
        s.controllers[(port - 0x4016) as int].spec_state() == buttons_byte(
            a,
            b,
            select,
            start,
            up,
            down,
            left,
            right,
        ),
    ensures
        nes_bus_read(port_reads(nes_bus_write(s, port, data), port, k), port).0 == if button_held(
            k,
            a,
            b,
            select,
            start,
            up,
            down,
            left,
            right,
        ) {
            1u8
        } else {
            0u8
        },
{
    let i = (port - 0x4016) as int;
    let s1 = nes_bus_write(s, port, data);
    assert(s1.controllers[i] == s.controllers[i].spec_after_write());
    lemma_port_reads(s1, port, k);
    lemma_controller_reports_buttons(
        s.controllers[i],
        a,
        b,
        select,
        start,
        up,
        down,
        left,
        right,
        k,
    );
}

} // verus!
