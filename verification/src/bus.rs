//! The system bus: decodes CPU addresses onto work RAM, the PPU ports,
//! the joypad, and cartridge PRG ROM; forwards OAM DMA; and clocks the
//! PPU three dots per CPU cycle, latching a frame event at each NMI rise.

use vstd::prelude::*;

verus! {

use crate::EmuError;
use crate::bits::{bit_set, with_flag};
use crate::cart::Rom;
use crate::joypad::Joypad;
use crate::ppu::{
    MyPPU,
    TimingView,
    read_data_spec,
    same_storage,
    same_timing,
    tick_steps,
    timing_view,
    with_vz,
    write_to_data_spec,
};
use crate::ppu_regs::CTRL_GENERATE_NMI;
use crate::ppu_regs::STATUS_VBLANK;

pub struct Bus {
    /// 2 KiB of CPU work RAM.
    pub cpu_vram: Vec<u8>,
    /// Cartridge program ROM, 16 KiB or 32 KiB.
    pub prg_rom: Vec<u8>,
    pub ppu: MyPPU,
    /// Running CPU cycle counter.
    pub cycles: usize,
    pub joypad1: Joypad,
    /// Set when the PPU's NMI latch rises; the host polls it once per
    /// frame to render and gather input.
    pub frame_event: bool,
}

/// Work RAM cell behind an address in $0000-$1FFF: the two top bits of
/// the 13-bit offset are dropped, mirroring the 2 KiB every $800.
pub open spec fn spec_ram_index(addr: u16) -> int {
    addr as int % 0x800
}

/// The PPU port behind an address in $2000-$3FFF: ports repeat every 8.
pub open spec fn spec_ppu_port(addr: u16) -> u16 {
    (0x2000 + addr % 8) as u16
}

/// The PRG byte behind an address in $8000-$FFFF; a 16 KiB cartridge is
/// mirrored across the 32 KiB window.
pub open spec fn spec_prg_byte(b: Bus, addr: u16) -> u8 {
    let off = (addr - 0x8000) as int;
    if b.prg_rom@.len() == 0x4000 {
        b.prg_rom@[off % 0x4000]
    } else {
        b.prg_rom@[off]
    }
}

/// Reading this address returns a value that depends only on the current
/// state and leaves the machine unchanged. Only the PPU status port, the
/// PPU data port and the joypad port have read side effects.
pub open spec fn peekable(addr: u16) -> bool {
    if addr < 0x2000 {
        true
    } else if addr < 0x4000 {
        spec_ppu_port(addr) != 0x2002 && spec_ppu_port(addr) != 0x2007
    } else if addr == 0x4016 {
        false
    } else {
        true
    }
}

/// The value a side-effect-free read returns: RAM through its mirror,
/// OAM through port $2004, zero for write-only and stubbed regions, and
/// PRG ROM at the top.
pub open spec fn peek(b: Bus, addr: u16) -> u8 {
    if addr < 0x2000 {
        b.cpu_vram@[spec_ram_index(addr)]
    } else if addr < 0x4000 {
        if spec_ppu_port(addr) == 0x2004 {
            b.ppu.oam_data@[b.ppu.oam_addr as int]
        } else {
            0
        }
    } else if addr < 0x8000 {
        0
    } else {
        spec_prg_byte(b, addr)
    }
}

/// The 16-bit little-endian value at `pos`, read by two peeks.
pub open spec fn peek16(b: Bus, pos: u16) -> u16 {
    ((peek(b, pos.wrapping_add(1)) as int) * 256 + peek(b, pos) as int) as u16
}

/// Both bytes of a 16-bit read are side-effect-free.
pub open spec fn peekable16(pos: u16) -> bool {
    peekable(pos) && peekable(pos.wrapping_add(1))
}

/// The PPU ends in the same state, NMI latch included.
pub open spec fn ppu_identical(a: MyPPU, b: MyPPU) -> bool {
    &&& same_storage(a, b)
    &&& crate::ppu::same_ports(a, b)
    &&& same_timing(a, b)
    &&& a.nmi_interrupt == b.nmi_interrupt
}

/// Nothing on the bus changed.
pub open spec fn bus_unchanged(a: Bus, b: Bus) -> bool {
    &&& b.cpu_vram@ == a.cpu_vram@
    &&& b.prg_rom@ == a.prg_rom@
    &&& b.cycles == a.cycles
    &&& b.joypad1 == a.joypad1
    &&& b.frame_event == a.frame_event
    &&& ppu_identical(a.ppu, b.ppu)
}

/// Everything on the bus but the PPU is unchanged.
pub open spec fn bus_rest_unchanged(a: Bus, b: Bus) -> bool {
    &&& b.cpu_vram@ == a.cpu_vram@
    &&& b.prg_rom@ == a.prg_rom@
    &&& b.cycles == a.cycles
    &&& b.joypad1 == a.joypad1
    &&& b.frame_event == a.frame_event
}

/// What a read of the PPU status port does to the PPU.
pub open spec fn status_read_rel(pre: MyPPU, post: MyPPU, r: u8) -> bool {
    &&& r == pre.status.bits
    &&& post.status.bits == with_flag(pre.status.bits, STATUS_VBLANK, false)
    &&& post.latch == false
    &&& same_storage(pre, post)
    &&& same_timing(pre, post)
    &&& post.control == pre.control
    &&& post.mask == pre.mask
    &&& post.scroll == pre.scroll
    &&& post.addr == pre.addr
    &&& post.oam_addr == pre.oam_addr
    &&& post.internal_buffer == pre.internal_buffer
    &&& post.nmi_interrupt == pre.nmi_interrupt
}

/// What a read of the joypad port does to the joypad.
pub open spec fn joypad_read_rel(pre: Joypad, post: Joypad, r: u8) -> bool {
    if pre.strobe {
        r == pre.button_status & 1 && post == pre
    } else if pre.button_index > 7 {
        r == 1 && post == pre
    } else {
        &&& r == (pre.button_status >> pre.button_index) & 1
        &&& post.button_index == pre.button_index + 1
        &&& post.strobe == pre.strobe
        &&& post.button_status == pre.button_status
    }
}

/// What a write of the PPU control port does to the PPU.
pub open spec fn ctrl_write_rel(pre: MyPPU, post: MyPPU, v: u8) -> bool {
    &&& same_storage(pre, post)
    &&& same_timing(pre, post)
    &&& post.control.bits == v
    &&& post.mask == pre.mask
    &&& post.status == pre.status
    &&& post.scroll == pre.scroll
    &&& post.addr == pre.addr
    &&& post.latch == pre.latch
    &&& post.oam_addr == pre.oam_addr
    &&& post.internal_buffer == pre.internal_buffer
    &&& post.nmi_interrupt == (if !pre.control.spec_nmi_enabled() && bit_set(
        v,
        CTRL_GENERATE_NMI,
    ) && pre.status.spec_in_vblank() {
        Some(1u8)
    } else {
        pre.nmi_interrupt
    })
}

/// What a write of the PPU mask port does to the PPU.
pub open spec fn mask_write_rel(pre: MyPPU, post: MyPPU, v: u8) -> bool {
    &&& same_storage(pre, post)
    &&& same_timing(pre, post)
    &&& post.mask.bits == v
    &&& post.control == pre.control
    &&& post.status == pre.status
    &&& post.scroll == pre.scroll
    &&& post.addr == pre.addr
    &&& post.latch == pre.latch
    &&& post.oam_addr == pre.oam_addr
    &&& post.internal_buffer == pre.internal_buffer
    &&& post.nmi_interrupt == pre.nmi_interrupt
}

/// What a write of the OAM address port does to the PPU.
pub open spec fn oam_addr_write_rel(pre: MyPPU, post: MyPPU, v: u8) -> bool {
    &&& same_storage(pre, post)
    &&& same_timing(pre, post)
    &&& post.oam_addr == v
    &&& post.control == pre.control
    &&& post.mask == pre.mask
    &&& post.status == pre.status
    &&& post.scroll == pre.scroll
    &&& post.addr == pre.addr
    &&& post.latch == pre.latch
    &&& post.internal_buffer == pre.internal_buffer
    &&& post.nmi_interrupt == pre.nmi_interrupt
}

/// What a write of the OAM data port does to the PPU.
pub open spec fn oam_data_write_rel(pre: MyPPU, post: MyPPU, v: u8) -> bool {
    &&& post.oam_data@ == pre.oam_data@.update(pre.oam_addr as int, v)
    &&& post.oam_addr == pre.oam_addr.wrapping_add(1)
    &&& post.chr_rom@ == pre.chr_rom@
    &&& post.vram@ == pre.vram@
    &&& post.palette_table@ == pre.palette_table@
    &&& post.mirroring == pre.mirroring
    &&& same_timing(pre, post)
    &&& post.control == pre.control
    &&& post.mask == pre.mask
    &&& post.status == pre.status
    &&& post.scroll == pre.scroll
    &&& post.addr == pre.addr
    &&& post.latch == pre.latch
    &&& post.internal_buffer == pre.internal_buffer
    &&& post.nmi_interrupt == pre.nmi_interrupt
}

/// What a write of the scroll port does to the PPU.
pub open spec fn scroll_write_rel(pre: MyPPU, post: MyPPU, v: u8) -> bool {
    &&& same_storage(pre, post)
    &&& same_timing(pre, post)
    &&& (!pre.latch ==> post.scroll.scroll_x == v && post.scroll.scroll_y == pre.scroll.scroll_y)
    &&& (pre.latch ==> post.scroll.scroll_y == v && post.scroll.scroll_x == pre.scroll.scroll_x)
    &&& post.latch == !pre.latch
    &&& post.control == pre.control
    &&& post.mask == pre.mask
    &&& post.status == pre.status
    &&& post.addr == pre.addr
    &&& post.oam_addr == pre.oam_addr
    &&& post.internal_buffer == pre.internal_buffer
    &&& post.nmi_interrupt == pre.nmi_interrupt
}

/// What a write of the address port does to the PPU.
pub open spec fn addr_write_rel(pre: MyPPU, post: MyPPU, v: u8) -> bool {
    &&& same_storage(pre, post)
    &&& same_timing(pre, post)
    &&& (!pre.latch ==> post.addr.value == (v % 0x40) as u16 * 256 + pre.addr.value % 256)
    &&& (pre.latch ==> post.addr.value == pre.addr.value / 256 * 256 + v as u16)
    &&& post.latch == !pre.latch
    &&& post.control == pre.control
    &&& post.mask == pre.mask
    &&& post.status == pre.status
    &&& post.scroll == pre.scroll
    &&& post.oam_addr == pre.oam_addr
    &&& post.internal_buffer == pre.internal_buffer
    &&& post.nmi_interrupt == pre.nmi_interrupt
}

/// What a write of the joypad port does to the joypad.
pub open spec fn joypad_write_rel(pre: Joypad, post: Joypad, v: u8) -> bool {
    &&& post.strobe == (v & 1 == 1)
    &&& post.button_index == (if v & 1 == 1 {
        0u8
    } else {
        pre.button_index
    })
    &&& post.button_status == pre.button_status
}

/// Every read the OAM DMA makes from this page is side-effect-free:
/// the page sits below the PPU ports or above the joypad port.
pub open spec fn dma_page_pure(page: u8) -> bool {
    page < 0x20 || page > 0x40
}

/// The PPU after `dots` PPU dots: the timing engine's exact effect, with
/// every port register and memory untouched.
pub open spec fn ppu_ticked_rel(pre: MyPPU, post: MyPPU, dots: u16) -> bool {
    let start = TimingView { cycles: (pre.cycles + dots) as u32, ..timing_view(pre, false) };
    let end = tick_steps(start, ((pre.cycles + dots) / 341) as nat);
    &&& same_storage(pre, post)
    &&& post.control == pre.control
    &&& post.mask == pre.mask
    &&& post.scroll == pre.scroll
    &&& post.addr == pre.addr
    &&& post.latch == pre.latch
    &&& post.oam_addr == pre.oam_addr
    &&& post.internal_buffer == pre.internal_buffer
    &&& post.scanline == end.scanline
    &&& post.cycles == end.cycles
    &&& post.status.bits == with_vz(pre.status.bits, end.vblank, end.sprite_zero)
    &&& post.nmi_interrupt == (if end.nmi {
        Some(1u8)
    } else {
        None::<u8>
    })
}

/// What `Bus::tick` does: the cycle counter moves, the PPU runs three
/// dots per cycle, and the frame event latches on an NMI rising edge.
pub open spec fn tick_rel(pre: Bus, post: Bus, cycles: u8) -> bool {
    &&& post.cpu_vram@ == pre.cpu_vram@
    &&& post.prg_rom@ == pre.prg_rom@
    &&& post.joypad1 == pre.joypad1
    &&& post.cycles == pre.cycles.wrapping_add(cycles as usize)
    &&& ppu_ticked_rel(pre.ppu, post.ppu, (3 * cycles) as u16)
    &&& post.frame_event == (pre.frame_event || (!(pre.ppu.nmi_interrupt is Some)
        && post.ppu.nmi_interrupt is Some))
}

impl Bus {
    /// Sizes and invariants every reachable bus satisfies.
    pub open spec fn wf(&self) -> bool {
        &&& self.cpu_vram@.len() == 2048
        &&& (self.prg_rom@.len() == 0x4000 || self.prg_rom@.len() == 0x8000)
        &&& self.ppu.wf()
    }

    /// Builds a bus around a cartridge. Only NROM (mapper 0) is wired up;
    /// any other mapper is refused.
    pub fn new(rom: Rom) -> (r: Result<Bus, EmuError>)
        requires
            rom.prg_rom@.len() == 0x4000 || rom.prg_rom@.len() == 0x8000,
            rom.chr_rom@.len() == 0x2000,
        ensures
            rom.mapper != 0 ==> r == Err::<Bus, EmuError>(EmuError::UnsupportedMapper(rom.mapper)),
            rom.mapper == 0 ==> (r matches Ok(b) && {
                &&& b.wf()
                &&& b.cpu_vram@ == Seq::new(2048, |i: int| 0u8)
                &&& b.prg_rom@ == rom.prg_rom@
                &&& b.ppu.chr_rom@ == rom.chr_rom@
                &&& b.ppu.mirroring == rom.screen_mirroring
                &&& b.ppu.control.bits == 0
                &&& b.ppu.mask.bits == 0
                &&& b.ppu.status.bits == 0
                &&& b.ppu.scroll.scroll_x == 0 && b.ppu.scroll.scroll_y == 0
                &&& b.ppu.addr.value == 0
                &&& b.ppu.latch == false
                &&& b.ppu.oam_addr == 0
                &&& b.ppu.internal_buffer == 0
                &&& b.ppu.scanline == 0
                &&& b.ppu.cycles == 0
                &&& b.ppu.nmi_interrupt is None
                &&& b.cycles == 0
                &&& b.joypad1 == Joypad { strobe: false, button_index: 0u8, button_status: 0u8 }
                &&& b.frame_event == false
            }),
    {
        if rom.mapper != 0 {
            return Err(EmuError::UnsupportedMapper(rom.mapper));
        }
        let ppu = MyPPU::new(rom.chr_rom, rom.screen_mirroring);
        Ok(
            Bus {
                cpu_vram: crate::cart::filled(0, 2048),
                prg_rom: rom.prg_rom,
                ppu,
                cycles: 0,
                joypad1: Joypad::new(),
                frame_event: false,
            },
        )
    }

    /// Advances the bus clock: the PPU runs three dots per CPU cycle, and
    /// a rising edge of its NMI latch records a frame event for the host.
    pub fn tick(&mut self, cycles: u8)
        requires
            old(self).wf(),
        ensures
            final(self).wf(),
            tick_rel(*old(self), *final(self), cycles),
    {
        self.cycles = self.cycles.wrapping_add(cycles as usize);

        let nmi_before = self.ppu.nmi_interrupt.is_some();
        self.ppu.tick(cycles as u16 * 3);
        let nmi_after = self.ppu.nmi_interrupt.is_some();

        if !nmi_before && nmi_after {
            self.frame_event = true;
        }
    }

    /// Hands out the pending NMI token, clearing it.
    pub fn poll_nmi_status(&mut self) -> (r: Option<u8>)
        requires
            old(self).wf(),
        ensures
            final(self).wf(),
            r == old(self).ppu.nmi_interrupt,
            final(self).ppu.nmi_interrupt is None,
            final(self).cpu_vram@ == old(self).cpu_vram@,
            final(self).prg_rom@ == old(self).prg_rom@,
            final(self).cycles == old(self).cycles,
            final(self).joypad1 == old(self).joypad1,
            final(self).frame_event == old(self).frame_event,
            same_storage(old(self).ppu, final(self).ppu),
            crate::ppu::same_ports(old(self).ppu, final(self).ppu),
            same_timing(old(self).ppu, final(self).ppu),
    {
        self.ppu.poll_nmi_interrupt()
    }

    /// Hands out the pending frame event, clearing it.
    pub fn poll_frame_event(&mut self) -> (r: bool)
        requires
            old(self).wf(),
        ensures
            final(self).wf(),
            r == old(self).frame_event,
            final(self).frame_event == false,
            final(self).cpu_vram@ == old(self).cpu_vram@,
            final(self).prg_rom@ == old(self).prg_rom@,
            final(self).cycles == old(self).cycles,
            final(self).joypad1 == old(self).joypad1,
            ppu_identical(old(self).ppu, final(self).ppu),
    {
        let r = self.frame_event;
        self.frame_event = false;
        r
    }

    /// The PRG byte behind a ROM-window address.
    fn read_prg_rom(&self, addr: u16) -> (r: u8)
        requires
            self.wf(),
            addr >= 0x8000,
        ensures
            r == spec_prg_byte(*self, addr),
    {
        let mut offset = (addr - 0x8000) as usize;
        if self.prg_rom.len() == 0x4000 && offset >= 0x4000 {
            // a 16 KiB cartridge is mirrored into the upper bank
            offset = offset % 0x4000;
        }
        proof {
            if self.prg_rom@.len() == 0x4000 {
                assert(offset == (addr - 0x8000) as int % 0x4000);
            }
        }
        self.prg_rom[offset]
    }

}

/// What `Bus::mem_read` does at each address: `peek` for the
/// side-effect-free space, the exact port action for the three live
/// ports.
pub open spec fn mem_read_rel(pre: Bus, post: Bus, addr: u16, r: Result<u8, EmuError>) -> bool {
    &&& peekable(addr) ==> r == Ok::<u8, EmuError>(peek(pre, addr)) && bus_unchanged(pre, post)
    &&& 0x2000 <= addr < 0x4000 && spec_ppu_port(addr) == 0x2002 ==> (r matches Ok(v)
        && status_read_rel(pre.ppu, post.ppu, v)) && bus_rest_unchanged(pre, post)
    &&& 0x2000 <= addr < 0x4000 && spec_ppu_port(addr) == 0x2007 ==> read_data_spec(
        pre.ppu,
        post.ppu,
        r,
    ) && bus_rest_unchanged(pre, post)
    &&& addr == 0x4016 ==> (r matches Ok(v) && joypad_read_rel(pre.joypad1, post.joypad1, v))
        && post.cpu_vram@ == pre.cpu_vram@ && post.prg_rom@ == pre.prg_rom@ && post.cycles
        == pre.cycles && post.frame_event == pre.frame_event && ppu_identical(pre.ppu, post.ppu)
}

/// The OAM DMA fetch sequence: starting from `states[0]`, each read of
/// `page*256 + i` returned `buf[i]` and stepped the bus to the next
/// state, exactly as `mem_read_rel` describes.
pub open spec fn dma_reads_ok(states: Seq<Bus>, page: u8, buf: Seq<u8>) -> bool {
    &&& states.len() == buf.len() + 1
    &&& buf.len() <= 256
    &&& forall|i: int|
        0 <= i < buf.len() ==> #[trigger] mem_read_rel(
            states[i],
            states[i + 1],
            (page as u16 * 256 + i) as u16,
            Ok(buf[i]),
        )
}

/// The fetched page landed in OAM, wrapping from the OAM pointer, and
/// nothing else moved.
pub open spec fn oam_dma_landed(pre: Bus, post: Bus, buf: Seq<u8>) -> bool {
    &&& forall|k: u8|
        post.ppu.oam_data@[#[trigger] pre.ppu.oam_addr.wrapping_add(k) as int] == buf[k as int]
    &&& post.ppu.oam_addr == pre.ppu.oam_addr
    &&& same_storage_but_oam(pre.ppu, post.ppu)
    &&& crate::ppu::same_ports(pre.ppu, post.ppu)
    &&& same_timing(pre.ppu, post.ppu)
    &&& post.ppu.nmi_interrupt == pre.ppu.nmi_interrupt
    &&& post.cpu_vram@ == pre.cpu_vram@
    &&& post.prg_rom@ == pre.prg_rom@
    &&& post.cycles == pre.cycles
    &&& post.joypad1 == pre.joypad1
    &&& post.frame_event == pre.frame_event
}

/// What `Bus::mem_write` does at each address: RAM through its mirror,
/// the PPU ports through their port actions, the joypad strobe, OAM DMA
/// at $4014, a hard error for the ROM window, and a dropped store for the
/// stubbed regions.
pub open spec fn mem_write_rel(pre: Bus, post: Bus, addr: u16, data: u8, r: Result<
    (),
    EmuError,
>) -> bool {
    &&& addr < 0x2000 ==> r is Ok && post.cpu_vram@ == pre.cpu_vram@.update(
        spec_ram_index(addr),
        data,
    ) && post.prg_rom@ == pre.prg_rom@ && post.cycles == pre.cycles && post.joypad1
        == pre.joypad1 && post.frame_event == pre.frame_event && ppu_identical(pre.ppu, post.ppu)
    &&& 0x2000 <= addr < 0x4000 ==> bus_rest_unchanged(pre, post) && {
        let port = spec_ppu_port(addr);
        &&& port == 0x2000 ==> r is Ok && ctrl_write_rel(pre.ppu, post.ppu, data)
        &&& port == 0x2001 ==> r is Ok && mask_write_rel(pre.ppu, post.ppu, data)
        &&& port == 0x2002 ==> r is Ok && ppu_identical(pre.ppu, post.ppu)
        &&& port == 0x2003 ==> r is Ok && oam_addr_write_rel(pre.ppu, post.ppu, data)
        &&& port == 0x2004 ==> r is Ok && oam_data_write_rel(pre.ppu, post.ppu, data)
        &&& port == 0x2005 ==> r is Ok && scroll_write_rel(pre.ppu, post.ppu, data)
        &&& port == 0x2006 ==> r is Ok && addr_write_rel(pre.ppu, post.ppu, data)
        &&& port == 0x2007 ==> write_to_data_spec(pre.ppu, post.ppu, data, r)
    }
    &&& addr == 0x4016 ==> r is Ok && joypad_write_rel(pre.joypad1, post.joypad1, data)
        && post.cpu_vram@ == pre.cpu_vram@ && post.prg_rom@ == pre.prg_rom@ && post.cycles
        == pre.cycles && post.frame_event == pre.frame_event && ppu_identical(pre.ppu, post.ppu)
    &&& addr == 0x4014 && dma_page_pure(data) ==> r is Ok && {
        &&& bus_rest_unchanged(pre, post)
        &&& same_storage_but_oam(pre.ppu, post.ppu)
        &&& crate::ppu::same_ports(pre.ppu, post.ppu)
        &&& same_timing(pre.ppu, post.ppu)
        &&& post.ppu.nmi_interrupt == pre.ppu.nmi_interrupt
        &&& forall|k: u8|
            post.ppu.oam_data@[#[trigger] pre.ppu.oam_addr.wrapping_add(k) as int] == peek(
                pre,
                (data as u16 * 256 + k as u16) as u16,
            )
    }
    &&& addr == 0x4014 && !dma_page_pure(data) ==> post.cpu_vram@ == pre.cpu_vram@
        && post.prg_rom@ == pre.prg_rom@ && post.cycles == pre.cycles && post.frame_event
        == pre.frame_event
    &&& addr == 0x4014 ==> match r {
        Ok(u) => exists|states: Seq<Bus>, buf: Seq<u8>|
            {
                &&& #[trigger] dma_reads_ok(states, data, buf)
                &&& buf.len() == 256
                &&& bus_unchanged(pre, states[0])
                &&& oam_dma_landed(states.last(), post, buf)
            },
        Err(e) => exists|states: Seq<Bus>, buf: Seq<u8>|
            {
                &&& #[trigger] dma_reads_ok(states, data, buf)
                &&& buf.len() < 256
                &&& bus_unchanged(pre, states[0])
                &&& mem_read_rel(
                    states.last(),
                    post,
                    (data as u16 * 256 + buf.len()) as u16,
                    Err::<u8, EmuError>(e),
                )
            },
    }
    &&& 0x4000 <= addr < 0x4014 || addr == 0x4015 || addr == 0x4017 || (0x4018 <= addr < 0x8000)
        ==> r is Ok && bus_unchanged(pre, post)
    &&& addr >= 0x8000 ==> r == Err::<(), EmuError>(EmuError::RomWrite(addr)) && bus_unchanged(
        pre,
        post,
    )
}

impl Bus {
    /// Reads one byte at a CPU address. A side-effect-free address returns
    /// `peek` and leaves the bus as it was; the three live ports (PPU
    /// status, PPU data, joypad) perform exactly their port action.
    pub fn mem_read(&mut self, addr: u16) -> (r: Result<u8, EmuError>)
        requires
            old(self).wf(),
        ensures
            final(self).wf(),
            mem_read_rel(*old(self), *final(self), addr, r),
    {
        if addr < 0x2000 {
            let idx = (addr % 0x800) as usize;
            Ok(self.cpu_vram[idx])
        } else if addr < 0x4000 {
            let port = 0x2000 + addr % 8;
            if port == 0x2002 {
                Ok(self.ppu.read_status())
            } else if port == 0x2004 {
                Ok(self.ppu.read_oam_data())
            } else if port == 0x2007 {
                self.ppu.read_data()
            } else {
                // $2000, $2001, $2003, $2005, $2006 are write-only
                Ok(0)
            }
        } else if addr == 0x4016 {
            Ok(self.joypad1.read())
        } else if addr < 0x8000 {
            // APU and expansion space: stubbed reads return 0
            Ok(0)
        } else {
            Ok(self.read_prg_rom(addr))
        }
    }

    /// Writes one byte at a CPU address: RAM through its mirror, the PPU
    /// ports through their port actions, the joypad strobe, OAM DMA at
    /// $4014; stores into the ROM window are a hard error, and writes to
    /// stubbed or read-only regions are dropped.
    #[verifier::loop_isolation(false)]
    pub fn mem_write(&mut self, addr: u16, data: u8) -> (r: Result<(), EmuError>)
        requires
            old(self).wf(),
        ensures
            final(self).wf(),
            mem_write_rel(*old(self), *final(self), addr, data, r),
    {
        if addr < 0x2000 {
            let idx = (addr % 0x800) as usize;
            self.cpu_vram[idx] = data;
            Ok(())
        } else if addr < 0x4000 {
            let port = 0x2000 + addr % 8;
            if port == 0x2000 {
                self.ppu.write_to_ctrl(data);
                Ok(())
            } else if port == 0x2001 {
                self.ppu.write_to_mask(data);
                Ok(())
            } else if port == 0x2002 {
                // the status register is read-only: the store is dropped
                Ok(())
            } else if port == 0x2003 {
                self.ppu.write_to_oam_addr(data);
                Ok(())
            } else if port == 0x2004 {
                self.ppu.write_to_oam_data(data);
                Ok(())
            } else if port == 0x2005 {
                self.ppu.write_to_scroll(data);
                Ok(())
            } else if port == 0x2006 {
                self.ppu.write_to_ppu_addr(data);
                Ok(())
            } else {
                self.ppu.write_to_data(data)
            }
        } else if addr == 0x4016 {
            self.joypad1.write(data);
            Ok(())
        } else if addr == 0x4014 {
            let hi: u16 = data as u16 * 256;
            let mut buffer: Vec<u8> = Vec::new();
            let ghost mut rstates: Seq<Bus> = seq![*old(self)];
            let mut i: u16 = 0;
            while i < 256
                invariant
                    self.wf(),
                    i <= 256,
                    buffer@.len() == i,
                    hi == data as u16 * 256,
                    rstates.len() == i + 1,
                    rstates[0] == *old(self),
                    rstates.last() == *self,
                    dma_reads_ok(rstates, data, buffer@),
                    dma_page_pure(data) ==> bus_unchanged(*old(self), *self) && forall|k: int|
                        0 <= k < i ==> buffer@[k] == peek(*old(self), (hi + k) as u16),
                    self.cpu_vram@ == old(self).cpu_vram@,
                    self.prg_rom@ == old(self).prg_rom@,
                    self.cycles == old(self).cycles,
                    self.frame_event == old(self).frame_event,
                decreases 256 - i,
            {
                proof {
                    if dma_page_pure(data) {
                        assert(peekable((hi + i) as u16));
                    }
                }
                let ghost before_read = *self;
                let byte = match self.mem_read(hi + i) {
                    Ok(b) => b,
                    Err(e) => {
                        proof {
                            assert(dma_reads_ok(rstates, data, buffer@));
                            assert(mem_read_rel(
                                rstates.last(),
                                *self,
                                (data as u16 * 256 + buffer@.len()) as u16,
                                Err::<u8, EmuError>(e),
                            ));
                        }
                        return Err(e);
                    },
                };
                buffer.push(byte);
                proof {
                    let prior = rstates;
                    rstates = rstates.push(*self);
                    assert(mem_read_rel(
                        before_read,
                        *self,
                        (data as u16 * 256 + i) as u16,
                        Ok(byte),
                    ));
                    assert forall|k: int| 0 <= k < buffer@.len() implies #[trigger] mem_read_rel(
                        rstates[k],
                        rstates[k + 1],
                        (data as u16 * 256 + k) as u16,
                        Ok(buffer@[k]),
                    ) by {
                        if k < i {
                            assert(rstates[k] == prior[k]);
                            assert(rstates[k + 1] == prior[k + 1]);
                            assert(mem_read_rel(
                                prior[k],
                                prior[k + 1],
                                (data as u16 * 256 + k) as u16,
                                Ok(buffer@[k]),
                            ));
                        } else {
                            assert(rstates[k] == before_read);
                            assert(rstates[k + 1] == *self);
                            assert(buffer@[k] == byte);
                        }
                    }
                }
                i = i + 1;
            }
            let ghost fetched = *self;
            self.ppu.write_oam_dma(&buffer);
            proof {
                assert(dma_reads_ok(rstates, data, buffer@));
                assert(oam_dma_landed(fetched, *self, buffer@));
            }
            Ok(())
        } else if addr < 0x8000 {
            // APU and expansion space: stubbed writes are dropped
            Ok(())
        } else {
            Err(EmuError::RomWrite(addr))
        }
    }
}

impl Bus {
    /// Reads a 16-bit little-endian value: low byte first.
    pub fn mem_read_u16(&mut self, pos: u16) -> (r: Result<u16, EmuError>)
        requires
            old(self).wf(),
        ensures
            final(self).wf(),
            peekable16(pos) ==> r == Ok::<u16, EmuError>(peek16(*old(self), pos)) && bus_unchanged(
                *old(self),
                *final(self),
            ),
    {
        let lo = match self.mem_read(pos) {
            Ok(b) => b,
            Err(e) => {
                return Err(e);
            },
        };
        let hi = match self.mem_read(pos.wrapping_add(1)) {
            Ok(b) => b,
            Err(e) => {
                return Err(e);
            },
        };
        Ok(hi as u16 * 256 + lo as u16)
    }

    /// Writes a 16-bit little-endian value: low byte first.
    pub fn mem_write_u16(&mut self, pos: u16, data: u16) -> (r: Result<(), EmuError>)
        requires
            old(self).wf(),
        ensures
            final(self).wf(),
            pos < 0x2000 && pos.wrapping_add(1) < 0x2000 ==> r is Ok && final(self).cpu_vram@
                == old(self).cpu_vram@.update(spec_ram_index(pos), (data % 256) as u8).update(
                spec_ram_index(pos.wrapping_add(1)),
                (data / 256) as u8,
            ) && final(self).prg_rom@ == old(self).prg_rom@ && final(self).cycles == old(
                self,
            ).cycles && final(self).joypad1 == old(self).joypad1 && final(self).frame_event == old(
                self,
            ).frame_event && ppu_identical(old(self).ppu, final(self).ppu),
            pos >= 0x8000 ==> r == Err::<(), EmuError>(EmuError::RomWrite(pos)) && bus_unchanged(
                *old(self),
                *final(self),
            ),
    {
        let lo = (data % 256) as u8;
        let hi = (data / 256) as u8;
        match self.mem_write(pos, lo) {
            Ok(_) => {},
            Err(e) => {
                return Err(e);
            },
        }
        match self.mem_write(pos.wrapping_add(1), hi) {
            Ok(_) => {},
            Err(e) => {
                return Err(e);
            },
        }
        Ok(())
    }
}

/// Work-RAM mirroring: any two addresses in $0000-$1FFF that agree
/// modulo $800 reach the same 2 KiB cell, for reads and for writes.
pub proof fn lemma_ram_mirror_collapse(b: Bus, a1: u16, a2: u16, v: u8)
    requires
        a1 < 0x2000,
        a2 < 0x2000,
        a1 % 0x800 == a2 % 0x800,
        b.wf(),
    ensures
        peek(b, a1) == peek(b, a2),
        b.cpu_vram@.update(spec_ram_index(a1), v) == b.cpu_vram@.update(spec_ram_index(a2), v),
{
}

/// Address-latch round trip: after a status read and a full high/low
/// address write pair, the next address write lands in the high byte
/// again — the status read reset the shared latch, and two writes toggle
/// it back to where it started.
pub proof fn lemma_addr_latch_round_trip(
    p0: MyPPU,
    p1: MyPPU,
    p2: MyPPU,
    p3: MyPPU,
    p4: MyPPU,
    status: u8,
    hi: u8,
    lo: u8,
    next: u8,
)
    requires
        status_read_rel(p0, p1, status),
        addr_write_rel(p1, p2, hi),
        addr_write_rel(p2, p3, lo),
        addr_write_rel(p3, p4, next),
    ensures
        p2.addr.value == (hi % 0x40) as u16 * 256 + p1.addr.value % 256,
        p3.addr.value == p2.addr.value / 256 * 256 + lo as u16,
        p4.addr.value == (next % 0x40) as u16 * 256 + p3.addr.value % 256,
{
}

/// The PPU memories other than OAM, and the cartridge data, are unchanged.
pub open spec fn same_storage_but_oam(a: MyPPU, b: MyPPU) -> bool {
    &&& a.chr_rom@ == b.chr_rom@
    &&& a.vram@ == b.vram@
    &&& a.palette_table@ == b.palette_table@
    &&& a.mirroring == b.mirroring
}

} // verus!
