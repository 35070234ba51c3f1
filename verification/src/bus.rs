use vstd::prelude::*;
use crate::cartridge::{
    ComponentCartridge, CartridgeView, spec_cartridge_cpu_read, spec_cartridge_cpu_write,
    cpu_read_ok, cpu_write_ok, ppu_read_ok, ppu_write_ok,
};
use crate::controller::Controller;
use crate::ppu::{Component2C02, PpuView, spec_cpu_read, spec_cpu_write};

verus! {

/// The CPU bus: work RAM and the sprite DMA state.
#[derive(Debug)]
pub struct Bus {
    pub ram: Vec<u8>,
    pub dma_page: u8,
    pub dma_addr: u8,
    pub dma_data: u8,
    pub is_dma_active: bool,
    pub dma_wait_for_sync: bool,
}

/// Abstract state of the CPU bus.
pub struct BusView {
    pub ram: Seq<u8>,
    pub dma_page: u8,
    pub dma_addr: u8,
    pub dma_data: u8,
    pub is_dma_active: bool,
    pub dma_wait_for_sync: bool,
}

/// The two controllers with controller `i` replaced by `c`.
pub open spec fn controllers_with(cs: [Controller; 2], i: int, c: Controller) -> [Controller; 2] {
    if i == 0 {
        [c, cs[1]]
    } else {
        [cs[0], c]
    }
}

/// A CPU read of `addr` does not fault: the cartridge can answer it, and a
/// read of the PPU data register finds the PPU address answerable too.
pub open spec fn bus_read_ok(cart: CartridgeView, ppu: PpuView, addr: u16) -> bool {
    &&& cpu_read_ok(cart, addr)
    &&& (0x2000 <= addr <= 0x3FFF && addr % 8 == 7 ==> ppu_read_ok(cart, ppu.vram_addr & 0x3FFF))
}

/// A CPU write of `data` to `addr` does not fault: the cartridge can take it,
/// and a write to the PPU data register finds the PPU address answerable too.
pub open spec fn bus_write_ok(cart: CartridgeView, ppu: PpuView, addr: u16, data: u8) -> bool {
    &&& cpu_write_ok(cart, addr, data)
    &&& (0x2000 <= addr <= 0x3FFF && addr % 8 == 7 ==> ppu_write_ok(
        spec_cartridge_cpu_write(cart, addr, data).1,
        ppu.vram_addr & 0x3FFF,
    ))
}

/// What a CPU read returns: the byte, then the controllers and the PPU after it.
pub open spec fn spec_bus_read(
    b: BusView,
    controllers: [Controller; 2],
    cart: CartridgeView,
    ppu: PpuView,
    addr: u16,
) -> (u8, [Controller; 2], PpuView) {
    let (hit, d) = spec_cartridge_cpu_read(cart, addr, 0);
    if hit {
        // Cartridge has priority over everything else (mappers)
        (d, controllers, ppu)
    } else if addr <= 0x1FFF {
        // 2 KiB of RAM, mirrored four times
        (b.ram[(addr % 0x0800) as int], controllers, ppu)
    } else if addr <= 0x3FFF {
        // the eight PPU registers, mirrored
        let (d, p2) = spec_cpu_read(ppu, cart, (addr % 8) as u16);
        (d, controllers, p2)
    } else if 0x4016 <= addr <= 0x4017 {
        let i = addr % 2;
        (
            controllers[i as int].spec_read_value(),
            controllers_with(controllers, i as int, controllers[i as int].spec_after_read()),
            ppu,
        )
    } else {
        (0, controllers, ppu)
    }
}

/// What a CPU write changes: the bus, the controllers, the cartridge and the PPU.
pub open spec fn spec_bus_write(
    b: BusView,
    controllers: [Controller; 2],
    cart: CartridgeView,
    ppu: PpuView,
    addr: u16,
    data: u8,
) -> (BusView, [Controller; 2], CartridgeView, PpuView) {
    let (hit, cart2) = spec_cartridge_cpu_write(cart, addr, data);
    if hit {
        (b, controllers, cart2, ppu)
    } else if addr <= 0x1FFF {
        (BusView { ram: b.ram.update((addr % 0x0800) as int, data), ..b }, controllers, cart2, ppu)
    } else if addr <= 0x3FFF {
        let (p2, cart3) = spec_cpu_write(ppu, cart2, (addr % 8) as u16, data);
        (b, controllers, cart3, p2)
    } else if addr == 0x4014 {
        // Sprite DMA from page `data`
        (BusView { dma_page: data, dma_addr: 0, is_dma_active: true, ..b }, controllers, cart2, ppu)
    } else if 0x4016 <= addr <= 0x4017 {
        let i = addr % 2;
        (b, controllers_with(controllers, i as int, controllers[i as int].spec_after_write()), cart2, ppu)
    } else {
        (b, controllers, cart2, ppu)
    }
}

impl Bus {
    /// The abstract state of the bus.
    pub open spec fn view(&self) -> BusView {
        BusView {
            ram: self.ram@,
            dma_page: self.dma_page,
            dma_addr: self.dma_addr,
            dma_data: self.dma_data,
            is_dma_active: self.is_dma_active,
            dma_wait_for_sync: self.dma_wait_for_sync,
        }
    }

    /// The RAM spans the 64 KiB address space.
    pub open spec fn wf(&self) -> bool {
        self.ram@.len() == 0x10000
    }

    /// Cleared RAM, no DMA.
    pub fn new() -> (b: Bus)
        ensures
            b.wf(),
            b.ram@ == Seq::new(0x10000, |i: int| 0u8),
            b.dma_page == 0 && b.dma_addr == 0 && b.dma_data == 0,
            !b.is_dma_active,
            b.dma_wait_for_sync,
    {
        let ram: Vec<u8> = vec![0u8; 64 * 1024];
        assert(ram@ =~= Seq::new(0x10000, |i: int| 0u8));
        Bus {
            ram,
            dma_page: 0,
            dma_addr: 0,
            dma_data: 0,
            is_dma_active: false,
            dma_wait_for_sync: true,
        }
    }

    /// A CPU read: cartridge, RAM (mirrored every 2 KiB), PPU registers
    /// (mirrored every 8 bytes), controllers; 0 elsewhere.
    pub fn cpu_read(
        &self,
        addr: u16,
        read_only: bool,
        controllers: &mut [Controller; 2],
        cartridge: &ComponentCartridge,
        ppu: &mut Component2C02,
    ) -> (data: u8)
        requires
            self.wf(),
            old(ppu).wf(),
            bus_read_ok(cartridge.view(), old(ppu).view(), addr),
        ensures
            final(ppu).wf(),
            (data, *final(controllers), final(ppu).view()) == spec_bus_read(
                self.view(),
                *old(controllers),
                cartridge.view(),
                old(ppu).view(),
                addr,
            ),
    {
        let mut data: u8 = 0x00;

        proof {
            crate::bits::lemma_u16_bits(addr);
        }
        // Cartridge has priority over everything else (mappers)
        if cartridge.cpu_read(addr, &mut data) {
            return data;
        }
        if addr <= 0x1FFF {
            // RAM range
            data = self.ram[(addr & 0x07FF) as usize];
        } else if addr <= 0x3FFF {
            // PPU range
            data = ppu.cpu_read(addr & 0x0007, read_only, cartridge);
        } else if 0x4016 <= addr && addr <= 0x4017 {
            // Controller range
            let i = (addr & 0x0001) as usize;
            let mut c = controllers[i];
            data = c.read();
            controllers[i] = c;
            assert(*controllers =~= controllers_with(*old(controllers), i as int, old(controllers)[i as int].spec_after_read()));
        }

        data
    }

    /// A CPU write: cartridge, RAM (mirrored every 2 KiB), PPU registers
    /// (mirrored every 8 bytes), sprite DMA at `0x4014`, controller latch.
    pub fn cpu_write(
        &mut self,
        addr: u16,
        data: u8,
        controllers: &mut [Controller; 2],
        cartridge: &mut ComponentCartridge,
        ppu: &mut Component2C02,
    )
        requires
            old(self).wf(),
            old(ppu).wf(),
            bus_write_ok(old(cartridge).view(), old(ppu).view(), addr, data),
        ensures
            final(self).wf(),
            final(cartridge).wf() == old(cartridge).wf(),
            final(ppu).wf(),
            (final(self).view(), *final(controllers), final(cartridge).view(), final(ppu).view())
                == spec_bus_write(
                old(self).view(),
                *old(controllers),
                old(cartridge).view(),
                old(ppu).view(),
                addr,
                data,
            ),
    {
        proof {
            crate::bits::lemma_u16_bits(addr);
        }
        // Cartridge has priority over everything else (mappers)
        if cartridge.cpu_write(addr, data) {
            return ;
        }
        if addr <= 0x1FFF {
            // RAM range
            self.ram.set((addr & 0x07FF) as usize, data);
        } else if addr <= 0x3FFF {
            // PPU range
            ppu.cpu_write(addr & 0x0007, data, cartridge);
        } else if addr == 0x4014 {
            // DMA range
            self.dma_page = data;
            self.dma_addr = 0x00;
            self.is_dma_active = true;
        } else if 0x4016 <= addr && addr <= 0x4017 {
            // Controller range
            let i = (addr & 0x0001) as usize;
            let mut c = controllers[i];
            c.write();
            controllers[i] = c;
            assert(*controllers =~= controllers_with(*old(controllers), i as int, old(controllers)[i as int].spec_after_write()));
        }
    }
}

} // verus!
