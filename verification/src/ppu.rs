//! The picture processing unit: nametable and palette storage, OAM, the
//! eight-register port interface, and the dot/scanline timing engine that
//! raises the vertical-blank NMI.

use vstd::prelude::*;

verus! {

use crate::EmuError;
use crate::bits::{bit_set, with_flag};
use crate::bits::{
    lemma_with_flag_reads,
    lemma_with_flag_other,
    lemma_with_flag_overwrite,
    lemma_with_flag_commute,
    lemma_with_flag_id,
};
use crate::cart::{Mirroring, filled};
use crate::ppu_mask::MaskRegister;
use crate::ppu_regs::{
    AddrRegister,
    ControlRegister,
    ScrollRegister,
    StatusRegister,
    STATUS_SPRITE_ZERO,
    STATUS_VBLANK,
};

/// One scanline lasts 341 PPU dots.
pub const DOTS_PER_SCANLINE: u16 = 341;

/// A frame wraps after scanline 261.
pub const SCANLINES_PER_FRAME: u16 = 262;

/// Vertical blank begins when the counter reaches scanline 241.
pub const VBLANK_SCANLINE: u16 = 241;

pub struct MyPPU {
    /// Cartridge pattern tables, 8 KiB.
    pub chr_rom: Vec<u8>,
    /// Palette RAM, 32 bytes.
    pub palette_table: Vec<u8>,
    /// Nametable RAM, 2 KiB.
    pub vram: Vec<u8>,
    /// Object attribute memory, 256 bytes.
    pub oam_data: Vec<u8>,
    pub oam_addr: u8,
    pub mirroring: Mirroring,
    pub control: ControlRegister,
    pub addr: AddrRegister,
    pub mask: MaskRegister,
    pub status: StatusRegister,
    pub scroll: ScrollRegister,
    /// Write latch shared by the scroll and address FIFOs; a status read
    /// clears it.
    pub latch: bool,
    /// The delayed buffer that data-port reads return from.
    pub internal_buffer: u8,
    pub scanline: u16,
    /// Dots accumulated toward the next scanline.
    pub cycles: usize,
    /// Pending NMI token; always `Some(1)` when present.
    pub nmi_interrupt: Option<u8>,
}

/// Folds a nametable address ($2000-$3EFF) into the 2 KiB VRAM index.
/// $3000-$3EFF first mirrors down to $2000-$2EFF; then the cartridge's
/// mirroring mode folds the four logical nametables onto the physical RAM.
/// Under FOUR_SCREEN the two upper tables keep indices of $800 and above,
/// which this PPU has no RAM behind.
pub open spec fn spec_mirror_vram(m: Mirroring, addr: u16) -> u16 {
    let mirrored = if addr >= 0x3000 {
        (addr - 0x1000) as u16
    } else {
        addr
    };
    let idx = (mirrored - 0x2000) as u16;
    let nt = idx / 0x400;
    match m {
        Mirroring::VERTICAL => if nt == 2 || nt == 3 {
            (idx - 0x800) as u16
        } else {
            idx
        },
        Mirroring::HORIZONTAL => if nt == 1 || nt == 2 {
            (idx - 0x400) as u16
        } else if nt == 3 {
            (idx - 0x800) as u16
        } else {
            idx
        },
        Mirroring::FOUR_SCREEN => idx,
    }
}

/// Folds a palette address ($3F00-$3FFF) into the 32-byte palette RAM:
/// the space repeats every 32 bytes, and $3F10/$3F14/$3F18/$3F1C alias
/// $3F00/$3F04/$3F08/$3F0C.
pub open spec fn spec_palette_idx(addr: u16) -> int {
    let i = (addr - 0x3f00) % 32;
    if i == 0x10 || i == 0x14 || i == 0x18 || i == 0x1c {
        i - 0x10
    } else {
        i
    }
}

/// Executable twin of `spec_palette_idx`.
pub fn palette_index(addr: u16) -> (r: usize)
    requires
        0x3f00 <= addr < 0x4000,
    ensures
        r == spec_palette_idx(addr),
        r < 32,
{
    let i = ((addr - 0x3f00) % 32) as usize;
    if i == 0x10 || i == 0x14 || i == 0x18 || i == 0x1c {
        i - 0x10
    } else {
        i
    }
}

/// What a data-port write does, as a relation between the PPU before and
/// after: `a` is the pointer the store went through, and the pointer
/// advances by the control register's step on success.
pub open spec fn write_to_data_spec(
    pre: MyPPU,
    post: MyPPU,
    value: u8,
    r: Result<(), EmuError>,
) -> bool {
    let a = pre.addr.value;
    let advanced = (pre.addr.value + pre.control.spec_increment()) % 0x4000;
    &&& post.chr_rom@ == pre.chr_rom@
    &&& post.oam_data@ == pre.oam_data@
    &&& post.mirroring == pre.mirroring
    &&& same_timing(pre, post)
    &&& post.control == pre.control
    &&& post.mask == pre.mask
    &&& post.status == pre.status
    &&& post.scroll == pre.scroll
    &&& post.latch == pre.latch
    &&& post.oam_addr == pre.oam_addr
    &&& post.internal_buffer == pre.internal_buffer
    &&& post.nmi_interrupt == pre.nmi_interrupt
    &&& if a < 0x2000 {
        // CHR is read-only: the store is dropped, the pointer still moves
        &&& r is Ok
        &&& post.vram@ == pre.vram@
        &&& post.palette_table@ == pre.palette_table@
        &&& post.addr.value == advanced
    } else if a < 0x3000 {
        let idx = spec_mirror_vram(pre.mirroring, a);
        if idx < 2048 {
            &&& r is Ok
            &&& post.vram@ == pre.vram@.update(idx as int, value)
            &&& post.palette_table@ == pre.palette_table@
            &&& post.addr.value == advanced
        } else {
            &&& r == Err::<(), EmuError>(EmuError::UnreachableVram(a))
            &&& post.vram@ == pre.vram@
            &&& post.palette_table@ == pre.palette_table@
            &&& post.addr == pre.addr
        }
    } else if a < 0x3f00 {
        &&& r == Err::<(), EmuError>(EmuError::UnreachableVram(a))
        &&& post.vram@ == pre.vram@
        &&& post.palette_table@ == pre.palette_table@
        &&& post.addr == pre.addr
    } else {
        &&& r is Ok
        &&& post.vram@ == pre.vram@
        &&& post.palette_table@ == pre.palette_table@.update(spec_palette_idx(a), value)
        &&& post.addr.value == advanced
    }
}

/// What a data-port read does: the pointer advances first; CHR and
/// nametable reads return the delayed buffer and refill it; palette reads
/// return the palette byte directly.
pub open spec fn read_data_spec(pre: MyPPU, post: MyPPU, r: Result<u8, EmuError>) -> bool {
    let a = pre.addr.value;
    &&& post.chr_rom@ == pre.chr_rom@
    &&& post.vram@ == pre.vram@
    &&& post.palette_table@ == pre.palette_table@
    &&& post.oam_data@ == pre.oam_data@
    &&& post.mirroring == pre.mirroring
    &&& same_timing(pre, post)
    &&& post.control == pre.control
    &&& post.mask == pre.mask
    &&& post.status == pre.status
    &&& post.scroll == pre.scroll
    &&& post.latch == pre.latch
    &&& post.oam_addr == pre.oam_addr
    &&& post.nmi_interrupt == pre.nmi_interrupt
    &&& post.addr.value == (pre.addr.value + pre.control.spec_increment()) % 0x4000
    &&& if a < 0x2000 {
        &&& r == Ok::<u8, EmuError>(pre.internal_buffer)
        &&& post.internal_buffer == pre.chr_rom@[a as int]
    } else if a < 0x3000 {
        let idx = spec_mirror_vram(pre.mirroring, a);
        if idx < 2048 {
            &&& r == Ok::<u8, EmuError>(pre.internal_buffer)
            &&& post.internal_buffer == pre.vram@[idx as int]
        } else {
            &&& r == Err::<u8, EmuError>(EmuError::UnreachableVram(a))
            &&& post.internal_buffer == pre.internal_buffer
        }
    } else if a < 0x3f00 {
        &&& r == Err::<u8, EmuError>(EmuError::UnreachableVram(a))
        &&& post.internal_buffer == pre.internal_buffer
    } else {
        &&& r == Ok::<u8, EmuError>(pre.palette_table@[spec_palette_idx(a)])
        &&& post.internal_buffer == pre.internal_buffer
    }
}

/// Palette mirroring: a store through $3F10, $3F14, $3F18 or $3F1C lands
/// in the same palette cell as one through $3F00, $3F04, $3F08 or $3F0C,
/// and the other way round. Both the data-port read and the data-port
/// write go through `spec_palette_idx`, so sharing the cell makes each
/// mirror pair observe the other's stores.
pub proof fn lemma_palette_mirror(addr: u16)
    requires
        addr == 0x3f10 || addr == 0x3f14 || addr == 0x3f18 || addr == 0x3f1c,
    ensures
        spec_palette_idx(addr) == spec_palette_idx((addr - 0x10) as u16),
{
}

/// The NMI latch rises at most once per frame while ticking: it can rise
/// only on the transition into the vblank scanline with NMI enabled, and
/// once risen it stays latched until the frame wraps after the last
/// scanline.
pub proof fn lemma_nmi_one_rise_per_frame(t: TimingView)
    ensures
        !t.nmi && tick_step(t).nmi ==> t.cycles >= 341 && t.scanline == 240 && t.nmi_enabled,
        t.nmi && !(t.cycles >= 341 && t.scanline >= 261) ==> tick_step(t).nmi,
{
}

/// This drain step wraps the frame: a full scanline's dots are in and
/// the counter passes the last scanline.
pub open spec fn frame_wraps(t: TimingView) -> bool {
    t.cycles >= 341 && t.scanline + 1 >= SCANLINES_PER_FRAME && t.scanline + 1
        != VBLANK_SCANLINE
}

/// The NMI latch falls only at a frame wrap: between a step where it is
/// set and a later step where it is clear, some step wrapped the frame.
pub proof fn lemma_nmi_fall_has_wrap(t: TimingView, a: nat, b: nat)
    requires
        a < b,
        tick_steps(t, a).nmi,
        !tick_steps(t, b).nmi,
    ensures
        exists|w: nat|
            a <= w < b && #[trigger] frame_wraps(tick_steps(t, w)) && tick_steps(t, w).nmi
                && !tick_steps(t, w + 1).nmi,
    decreases b - a,
{
    lemma_tick_steps_add(t, a, 1);
    assert(tick_steps(tick_step(tick_steps(t, a)), 0) == tick_step(tick_steps(t, a)));
    assert(tick_steps(tick_steps(t, a), 1) == tick_steps(tick_step(tick_steps(t, a)), 0));
    assert(tick_steps(t, a + 1) == tick_step(tick_steps(t, a)));
    if !tick_steps(t, a + 1).nmi {
        assert(frame_wraps(tick_steps(t, a)));
    } else {
        assert(a + 1 < b);
        lemma_nmi_fall_has_wrap(t, a + 1, b);
        let w0 = choose|w: nat|
            a + 1 <= w < b && #[trigger] frame_wraps(tick_steps(t, w)) && tick_steps(t, w).nmi
                && !tick_steps(t, w + 1).nmi;
        assert(a <= w0 < b && frame_wraps(tick_steps(t, w0)));
    }
}

/// One rising-edge NMI per frame, over a whole run of the timing engine:
/// if the latch rises at two different steps, a frame wrap lies strictly
/// between them.
pub proof fn lemma_nmi_one_rise_per_frame_steps(t: TimingView, i: nat, j: nat)
    requires
        i < j,
        !tick_steps(t, i).nmi && tick_steps(t, i + 1).nmi,
        !tick_steps(t, j).nmi && tick_steps(t, j + 1).nmi,
    ensures
        exists|w: nat| i < w < j && #[trigger] frame_wraps(tick_steps(t, w)),
{
    lemma_nmi_fall_has_wrap(t, i + 1, j);
    let w0 = choose|w: nat|
        i + 1 <= w < j && #[trigger] frame_wraps(tick_steps(t, w)) && tick_steps(t, w).nmi
            && !tick_steps(t, w + 1).nmi;
    assert(i < w0 < j && frame_wraps(tick_steps(t, w0)));
}

/// The timing-visible portion of the PPU, as the tick engine steps it.
pub struct TimingView {
    pub scanline: u16,
    /// Dots not yet folded into a scanline.
    pub cycles: u32,
    pub vblank: bool,
    pub sprite_zero: bool,
    /// An NMI token is latched.
    pub nmi: bool,
    /// Control bit 7: NMI on vblank.
    pub nmi_enabled: bool,
    /// A frame completed while ticking.
    pub frame: bool,
}

/// Drains one scanline's worth of dots, if enough have accumulated:
/// entering scanline 241 sets vblank (and latches an NMI when enabled);
/// passing scanline 261 wraps the frame and clears everything.
pub open spec fn tick_step(t: TimingView) -> TimingView {
    if t.cycles < 341 {
        t
    } else {
        let c = (t.cycles - 341) as u32;
        let s = t.scanline + 1;
        if s == VBLANK_SCANLINE {
            TimingView {
                scanline: VBLANK_SCANLINE,
                cycles: c,
                vblank: true,
                sprite_zero: false,
                nmi: if t.nmi_enabled {
                    true
                } else {
                    t.nmi
                },
                nmi_enabled: t.nmi_enabled,
                frame: t.frame,
            }
        } else if s >= SCANLINES_PER_FRAME {
            TimingView {
                scanline: 0,
                cycles: c,
                vblank: false,
                sprite_zero: false,
                nmi: false,
                nmi_enabled: t.nmi_enabled,
                frame: true,
            }
        } else {
            TimingView {
                scanline: s as u16,
                cycles: c,
                vblank: t.vblank,
                sprite_zero: t.sprite_zero,
                nmi: t.nmi,
                nmi_enabled: t.nmi_enabled,
                frame: t.frame,
            }
        }
    }
}

/// `tick_step` applied `n` times.
pub open spec fn tick_steps(t: TimingView, n: nat) -> TimingView
    decreases n,
{
    if n == 0 {
        t
    } else {
        tick_steps(tick_step(t), (n - 1) as nat)
    }
}

/// Step counts compose.
pub proof fn lemma_tick_steps_add(t: TimingView, a: nat, b: nat)
    ensures
        tick_steps(t, a + b) == tick_steps(tick_steps(t, a), b),
    decreases a,
{
    if a > 0 {
        lemma_tick_steps_add(tick_step(t), (a - 1) as nat, b);
    }
}

/// The timing view of a PPU, with `frame` supplied by the caller.
pub open spec fn timing_view(p: MyPPU, frame: bool) -> TimingView {
    TimingView {
        scanline: p.scanline,
        cycles: p.cycles as u32,
        vblank: p.status.spec_in_vblank(),
        sprite_zero: p.status.spec_sprite_zero(),
        nmi: p.nmi_interrupt is Some,
        nmi_enabled: p.control.spec_nmi_enabled(),
        frame,
    }
}

/// Status byte with the vblank and sprite-zero flags forced.
pub open spec fn with_vz(b: u8, vblank: bool, zero: bool) -> u8 {
    with_flag(with_flag(b, STATUS_VBLANK, vblank), STATUS_SPRITE_ZERO, zero)
}

/// The two PPUs hold the same cartridge data and memories.
pub open spec fn same_storage(a: MyPPU, b: MyPPU) -> bool {
    &&& a.chr_rom@ == b.chr_rom@
    &&& a.vram@ == b.vram@
    &&& a.palette_table@ == b.palette_table@
    &&& a.oam_data@ == b.oam_data@
    &&& a.mirroring == b.mirroring
}

/// The two PPUs agree on every port-side register and latch.
pub open spec fn same_ports(a: MyPPU, b: MyPPU) -> bool {
    &&& a.control == b.control
    &&& a.mask == b.mask
    &&& a.status == b.status
    &&& a.scroll == b.scroll
    &&& a.addr == b.addr
    &&& a.latch == b.latch
    &&& a.oam_addr == b.oam_addr
    &&& a.internal_buffer == b.internal_buffer
}

/// The two PPUs agree on the dot and scanline counters.
pub open spec fn same_timing(a: MyPPU, b: MyPPU) -> bool {
    &&& a.scanline == b.scanline
    &&& a.cycles == b.cycles
}

impl MyPPU {
    /// Memory sizes and counter ranges every reachable PPU satisfies.
    pub open spec fn wf(&self) -> bool {
        &&& self.chr_rom@.len() == 0x2000
        &&& self.palette_table@.len() == 32
        &&& self.vram@.len() == 2048
        &&& self.oam_data@.len() == 256
        &&& self.addr.wf()
        &&& self.cycles < 341
        &&& self.scanline < SCANLINES_PER_FRAME
        &&& (self.nmi_interrupt matches Some(k) ==> k == 1)
    }

    pub fn new(chr_rom: Vec<u8>, mirroring: Mirroring) -> (r: MyPPU)
        requires
            chr_rom@.len() == 0x2000,
        ensures
            r.wf(),
            r.chr_rom@ == chr_rom@,
            r.mirroring == mirroring,
            r.vram@ == Seq::new(2048, |i: int| 0u8),
            r.palette_table@ == Seq::new(32, |i: int| 0u8),
            r.oam_data@ == Seq::new(256, |i: int| 0u8),
            r.oam_addr == 0,
            r.control.bits == 0,
            r.mask.bits == 0,
            r.status.bits == 0,
            r.scroll.scroll_x == 0 && r.scroll.scroll_y == 0,
            r.addr.value == 0,
            r.latch == false,
            r.internal_buffer == 0,
            r.scanline == 0,
            r.cycles == 0,
            r.nmi_interrupt is None,
    {
        let vram = filled(0, 2048);
        let palette_table = filled(0, 32);
        let oam_data = filled(0, 256);
        proof {
            assert(vram@ =~= Seq::new(2048, |i: int| 0u8));
            assert(palette_table@ =~= Seq::new(32, |i: int| 0u8));
            assert(oam_data@ =~= Seq::new(256, |i: int| 0u8));
        }
        MyPPU {
            chr_rom,
            palette_table,
            vram,
            oam_data,
            oam_addr: 0,
            mirroring,
            control: ControlRegister::new(),
            addr: AddrRegister::new(),
            mask: MaskRegister::new(),
            status: StatusRegister::new(),
            scroll: ScrollRegister::new(),
            latch: false,
            internal_buffer: 0,
            scanline: 0,
            cycles: 0,
            nmi_interrupt: None,
        }
    }

    /// A PPU over blank pattern tables, for programs that never draw.
    pub fn new_empty_rom() -> (r: MyPPU)
        ensures
            r.wf(),
            r.chr_rom@ == Seq::new(0x2000, |i: int| 0u8),
            r.mirroring == Mirroring::HORIZONTAL,
            r.vram@ == Seq::new(2048, |i: int| 0u8),
            r.palette_table@ == Seq::new(32, |i: int| 0u8),
            r.oam_data@ == Seq::new(256, |i: int| 0u8),
            r.oam_addr == 0,
            r.control.bits == 0,
            r.mask.bits == 0,
            r.status.bits == 0,
            r.addr.value == 0,
            r.latch == false,
            r.internal_buffer == 0,
            r.scanline == 0,
            r.cycles == 0,
            r.nmi_interrupt is None,
    {
        let chr = filled(0, 0x2000);
        proof {
            assert(chr@ =~= Seq::new(0x2000, |i: int| 0u8));
        }
        MyPPU::new(chr, Mirroring::HORIZONTAL)
    }

    /// Advances the dot counter, draining whole scanlines; returns whether
    /// a frame completed. The exact effect is `tick_step` applied once per
    /// drained scanline.
    #[verifier::loop_isolation(false)]
    pub fn tick(&mut self, dots: u16) -> (frame: bool)
        requires
            old(self).wf(),
        ensures
            final(self).wf(),
            same_storage(*old(self), *final(self)),
            final(self).control == old(self).control,
            final(self).mask == old(self).mask,
            final(self).scroll == old(self).scroll,
            final(self).addr == old(self).addr,
            final(self).latch == old(self).latch,
            final(self).oam_addr == old(self).oam_addr,
            final(self).internal_buffer == old(self).internal_buffer,
            ({
                let start = TimingView {
                    cycles: (old(self).cycles + dots) as u32,
                    ..timing_view(*old(self), false)
                };
                let end = tick_steps(start, ((old(self).cycles + dots) / 341) as nat);
                &&& timing_view(*final(self), frame) == end
                &&& final(self).status.bits == with_vz(
                    old(self).status.bits,
                    end.vblank,
                    end.sprite_zero,
                )
                &&& final(self).nmi_interrupt == (if end.nmi {
                    Some(1u8)
                } else {
                    None::<u8>
                })
            }),
    {
        broadcast use lemma_with_flag_reads, lemma_with_flag_other, lemma_with_flag_overwrite,
            lemma_with_flag_commute, lemma_with_flag_id;

        let ghost start = TimingView {
            cycles: (old(self).cycles + dots) as u32,
            ..timing_view(*old(self), false)
        };
        let ghost b0 = old(self).status.bits;
        let mut frame = false;
        self.cycles = self.cycles + dots as usize;
        let ghost mut steps: nat = 0;
        proof {
            assert(STATUS_VBLANK & ((STATUS_VBLANK - 1) as u8) == 0) by (bit_vector);
            assert(STATUS_SPRITE_ZERO & ((STATUS_SPRITE_ZERO - 1) as u8) == 0) by (bit_vector);
            assert(STATUS_VBLANK & STATUS_SPRITE_ZERO == 0) by (bit_vector);
            assert(STATUS_SPRITE_ZERO & STATUS_VBLANK == 0) by (bit_vector);
            lemma_with_flag_id(b0, STATUS_VBLANK);
            lemma_with_flag_id(b0, STATUS_SPRITE_ZERO);
            assert(with_vz(b0, start.vblank, start.sprite_zero) == b0);
        }
        while self.cycles >= 341
            invariant
                self.chr_rom@.len() == 0x2000,
                self.palette_table@.len() == 32,
                self.vram@.len() == 2048,
                self.oam_data@.len() == 256,
                self.addr.wf(),
                self.scanline < SCANLINES_PER_FRAME,
                (self.nmi_interrupt matches Some(k) ==> k == 1),
                same_storage(*old(self), *self),
                self.control == old(self).control,
                self.mask == old(self).mask,
                self.scroll == old(self).scroll,
                self.addr == old(self).addr,
                self.latch == old(self).latch,
                self.oam_addr == old(self).oam_addr,
                self.internal_buffer == old(self).internal_buffer,
                self.cycles + 341 * steps == old(self).cycles + dots,
                timing_view(*self, frame) == tick_steps(start, steps),
                self.status.bits == with_vz(
                    b0,
                    timing_view(*self, frame).vblank,
                    timing_view(*self, frame).sprite_zero,
                ),
            decreases self.cycles,
        {
            let ghost prev = timing_view(*self, frame);
            let ghost prev_bits = self.status.bits;
            self.cycles = self.cycles - 341;
            self.scanline = self.scanline + 1;

            if self.scanline == VBLANK_SCANLINE {
                self.status.set_vblank_status(true);
                self.status.set_sprite_zero_hit(false);
                if self.control.generate_vblank_nmi() {
                    self.nmi_interrupt = Some(1);
                }
            }
            if self.scanline >= SCANLINES_PER_FRAME {
                self.scanline = 0;
                self.nmi_interrupt = None;
                self.status.set_vblank_status(false);
                self.status.set_sprite_zero_hit(false);
                frame = true;
            }
            proof {
                assert(timing_view(*self, frame) == tick_step(prev));
                assert(self.status.bits == with_vz(
                    b0,
                    timing_view(*self, frame).vblank,
                    timing_view(*self, frame).sprite_zero,
                ));
                lemma_tick_steps_add(start, steps, 1);
                assert(tick_steps(tick_step(prev), 0) == tick_step(prev));
                assert(tick_steps(prev, 1) == tick_steps(tick_step(prev), 0));
                steps = steps + 1nat;
            }
        }
        proof {
            let total = old(self).cycles + dots;
            vstd::arithmetic::div_mod::lemma_fundamental_div_mod_converse(
                total as int,
                341,
                steps as int,
                self.cycles as int,
            );
            assert(steps == (total / 341) as nat);
        }
        frame
    }

    /// Port $2000: stores the control byte. If the NMI-enable bit rises
    /// while vblank is in progress, an NMI is latched at once.
    pub fn write_to_ctrl(&mut self, value: u8)
        requires
            old(self).wf(),
        ensures
            final(self).wf(),
            same_storage(*old(self), *final(self)),
            same_timing(*old(self), *final(self)),
            final(self).control.bits == value,
            final(self).mask == old(self).mask,
            final(self).status == old(self).status,
            final(self).scroll == old(self).scroll,
            final(self).addr == old(self).addr,
            final(self).latch == old(self).latch,
            final(self).oam_addr == old(self).oam_addr,
            final(self).internal_buffer == old(self).internal_buffer,
            final(self).nmi_interrupt == (if !old(self).control.spec_nmi_enabled() && bit_set(
                value,
                crate::ppu_regs::CTRL_GENERATE_NMI,
            ) && old(self).status.spec_in_vblank() {
                Some(1u8)
            } else {
                old(self).nmi_interrupt
            }),
    {
        let before_nmi_status = self.control.generate_vblank_nmi();
        self.control.update(value);
        if !before_nmi_status && self.control.generate_vblank_nmi() && self.status.is_in_vblank() {
            self.nmi_interrupt = Some(1);
        }
    }

    /// Port $2001: stores the mask byte.
    pub fn write_to_mask(&mut self, value: u8)
        requires
            old(self).wf(),
        ensures
            final(self).wf(),
            same_storage(*old(self), *final(self)),
            same_timing(*old(self), *final(self)),
            final(self).mask.bits == value,
            final(self).control == old(self).control,
            final(self).status == old(self).status,
            final(self).scroll == old(self).scroll,
            final(self).addr == old(self).addr,
            final(self).latch == old(self).latch,
            final(self).oam_addr == old(self).oam_addr,
            final(self).internal_buffer == old(self).internal_buffer,
            final(self).nmi_interrupt == old(self).nmi_interrupt,
    {
        self.mask.update(value);
    }

    /// Port $2002: returns the status byte, then clears vblank and resets
    /// the shared address/scroll write latch.
    pub fn read_status(&mut self) -> (r: u8)
        requires
            old(self).wf(),
        ensures
            final(self).wf(),
            r == old(self).status.bits,
            same_storage(*old(self), *final(self)),
            same_timing(*old(self), *final(self)),
            final(self).status.bits == with_flag(old(self).status.bits, STATUS_VBLANK, false),
            final(self).latch == false,
            final(self).control == old(self).control,
            final(self).mask == old(self).mask,
            final(self).scroll == old(self).scroll,
            final(self).addr == old(self).addr,
            final(self).oam_addr == old(self).oam_addr,
            final(self).internal_buffer == old(self).internal_buffer,
            final(self).nmi_interrupt == old(self).nmi_interrupt,
    {
        let data = self.status.snapshot();
        self.status.reset_vblank_status();
        self.latch = false;
        data
    }

    /// Port $2003: sets the OAM pointer.
    pub fn write_to_oam_addr(&mut self, value: u8)
        requires
            old(self).wf(),
        ensures
            final(self).wf(),
            same_storage(*old(self), *final(self)),
            same_timing(*old(self), *final(self)),
            final(self).oam_addr == value,
            final(self).control == old(self).control,
            final(self).mask == old(self).mask,
            final(self).status == old(self).status,
            final(self).scroll == old(self).scroll,
            final(self).addr == old(self).addr,
            final(self).latch == old(self).latch,
            final(self).internal_buffer == old(self).internal_buffer,
            final(self).nmi_interrupt == old(self).nmi_interrupt,
    {
        self.oam_addr = value;
    }

    /// Port $2004 write: stores at the OAM pointer, then advances it.
    pub fn write_to_oam_data(&mut self, value: u8)
        requires
            old(self).wf(),
        ensures
            final(self).wf(),
            final(self).oam_data@ == old(self).oam_data@.update(
                old(self).oam_addr as int,
                value,
            ),
            final(self).oam_addr == old(self).oam_addr.wrapping_add(1),
            final(self).chr_rom@ == old(self).chr_rom@,
            final(self).vram@ == old(self).vram@,
            final(self).palette_table@ == old(self).palette_table@,
            final(self).mirroring == old(self).mirroring,
            same_timing(*old(self), *final(self)),
            final(self).control == old(self).control,
            final(self).mask == old(self).mask,
            final(self).status == old(self).status,
            final(self).scroll == old(self).scroll,
            final(self).addr == old(self).addr,
            final(self).latch == old(self).latch,
            final(self).internal_buffer == old(self).internal_buffer,
            final(self).nmi_interrupt == old(self).nmi_interrupt,
    {
        let idx = self.oam_addr as usize;
        self.oam_data[idx] = value;
        self.oam_addr = self.oam_addr.wrapping_add(1);
    }

    /// Port $2004 read: returns the byte at the OAM pointer, no side effect.
    pub fn read_oam_data(&self) -> (r: u8)
        requires
            self.wf(),
        ensures
            r == self.oam_data@[self.oam_addr as int],
    {
        self.oam_data[self.oam_addr as usize]
    }

    /// Port $2005: one byte of the scroll FIFO; the shared latch picks the
    /// axis and toggles.
    pub fn write_to_scroll(&mut self, value: u8)
        requires
            old(self).wf(),
        ensures
            final(self).wf(),
            same_storage(*old(self), *final(self)),
            same_timing(*old(self), *final(self)),
            !old(self).latch ==> final(self).scroll.scroll_x == value
                && final(self).scroll.scroll_y == old(self).scroll.scroll_y,
            old(self).latch ==> final(self).scroll.scroll_y == value
                && final(self).scroll.scroll_x == old(self).scroll.scroll_x,
            final(self).latch == !old(self).latch,
            final(self).control == old(self).control,
            final(self).mask == old(self).mask,
            final(self).status == old(self).status,
            final(self).addr == old(self).addr,
            final(self).oam_addr == old(self).oam_addr,
            final(self).internal_buffer == old(self).internal_buffer,
            final(self).nmi_interrupt == old(self).nmi_interrupt,
    {
        let second = self.latch;
        self.scroll.write(value, second);
        self.latch = !second;
    }

    /// Port $2006: one byte of the high-first address FIFO; the shared
    /// latch picks the byte and toggles.
    pub fn write_to_ppu_addr(&mut self, value: u8)
        requires
            old(self).wf(),
        ensures
            final(self).wf(),
            same_storage(*old(self), *final(self)),
            same_timing(*old(self), *final(self)),
            !old(self).latch ==> final(self).addr.value == (value % 0x40) as u16 * 256
                + old(self).addr.value % 256,
            old(self).latch ==> final(self).addr.value == old(self).addr.value / 256 * 256
                + value as u16,
            final(self).latch == !old(self).latch,
            final(self).control == old(self).control,
            final(self).mask == old(self).mask,
            final(self).status == old(self).status,
            final(self).scroll == old(self).scroll,
            final(self).oam_addr == old(self).oam_addr,
            final(self).internal_buffer == old(self).internal_buffer,
            final(self).nmi_interrupt == old(self).nmi_interrupt,
    {
        let second = self.latch;
        self.addr.update(value, second);
        self.latch = !second;
    }

    /// Advances the VRAM pointer by the control register's step.
    fn increment_vram_addr(&mut self)
        requires
            old(self).wf(),
        ensures
            final(self).wf(),
            same_storage(*old(self), *final(self)),
            same_timing(*old(self), *final(self)),
            final(self).addr.value == (old(self).addr.value
                + old(self).control.spec_increment()) % 0x4000,
            final(self).control == old(self).control,
            final(self).mask == old(self).mask,
            final(self).status == old(self).status,
            final(self).scroll == old(self).scroll,
            final(self).latch == old(self).latch,
            final(self).oam_addr == old(self).oam_addr,
            final(self).internal_buffer == old(self).internal_buffer,
            final(self).nmi_interrupt == old(self).nmi_interrupt,
    {
        let step = self.control.vram_addr_increment();
        self.addr.increment(step);
    }

    /// Folds a nametable address into the 2 KiB VRAM index, per the
    /// cartridge's mirroring mode.
    pub fn mirror_vram_addr(&self, addr: u16) -> (r: u16)
        requires
            0x2000 <= addr <= 0x3eff,
        ensures
            r == spec_mirror_vram(self.mirroring, addr),
    {
        let mirrored: u16 = if addr >= 0x3000 {
            addr - 0x1000
        } else {
            addr
        };
        let vram_index = mirrored - 0x2000;
        let name_table = vram_index / 0x400;
        match self.mirroring {
            Mirroring::VERTICAL => {
                if name_table == 2 || name_table == 3 {
                    vram_index - 0x800
                } else {
                    vram_index
                }
            },
            Mirroring::HORIZONTAL => {
                if name_table == 1 || name_table == 2 {
                    vram_index - 0x400
                } else if name_table == 3 {
                    vram_index - 0x800
                } else {
                    vram_index
                }
            },
            Mirroring::FOUR_SCREEN => vram_index,
        }
    }

    /// Port $2007 write: stores through the VRAM pointer, then advances it.
    /// Pattern-table addresses are ignored (CHR is read-only); $3000-$3EFF
    /// is unreachable on hardware; palette stores fold the $3F1x mirrors.
    pub fn write_to_data(&mut self, value: u8) -> (r: Result<(), EmuError>)
        requires
            old(self).wf(),
        ensures
            final(self).wf(),
            write_to_data_spec(*old(self), *final(self), value, r),
    {
        let addr = self.addr.get();
        if addr < 0x2000 {
            // attempt to write into CHR ROM space: dropped
        } else if addr < 0x3000 {
            let idx = self.mirror_vram_addr(addr);
            if idx < 2048 {
                self.vram[idx as usize] = value;
            } else {
                // a four-screen nametable with no cartridge RAM behind it
                return Err(EmuError::UnreachableVram(addr));
            }
        } else if addr < 0x3f00 {
            return Err(EmuError::UnreachableVram(addr));
        } else {
            let idx = palette_index(addr);
            self.palette_table[idx] = value;
        }
        self.increment_vram_addr();
        Ok(())
    }

    /// Port $2007 read: returns the delayed buffer for CHR and nametable
    /// addresses (refilling it), the palette byte directly for palette
    /// addresses; the pointer advances first, as the hardware does.
    pub fn read_data(&mut self) -> (r: Result<u8, EmuError>)
        requires
            old(self).wf(),
        ensures
            final(self).wf(),
            read_data_spec(*old(self), *final(self), r),
    {
        let addr = self.addr.get();
        self.increment_vram_addr();

        if addr < 0x2000 {
            let result = self.internal_buffer;
            self.internal_buffer = self.chr_rom[addr as usize];
            Ok(result)
        } else if addr < 0x3000 {
            let idx = self.mirror_vram_addr(addr);
            if idx < 2048 {
                let result = self.internal_buffer;
                self.internal_buffer = self.vram[idx as usize];
                Ok(result)
            } else {
                Err(EmuError::UnreachableVram(addr))
            }
        } else if addr < 0x3f00 {
            Err(EmuError::UnreachableVram(addr))
        } else {
            let idx = palette_index(addr);
            Ok(self.palette_table[idx])
        }
    }

    /// OAM DMA: copies 256 bytes into OAM starting at the OAM pointer,
    /// wrapping; the pointer comes back to where it started.
    pub fn write_oam_dma(&mut self, data: &Vec<u8>)
        requires
            old(self).wf(),
            data@.len() == 256,
        ensures
            final(self).wf(),
            forall|k: u8|
                final(self).oam_data@[#[trigger] old(self).oam_addr.wrapping_add(k) as int]
                    == data@[k as int],
            final(self).oam_addr == old(self).oam_addr,
            final(self).chr_rom@ == old(self).chr_rom@,
            final(self).vram@ == old(self).vram@,
            final(self).palette_table@ == old(self).palette_table@,
            final(self).mirroring == old(self).mirroring,
            same_timing(*old(self), *final(self)),
            final(self).control == old(self).control,
            final(self).mask == old(self).mask,
            final(self).status == old(self).status,
            final(self).scroll == old(self).scroll,
            final(self).addr == old(self).addr,
            final(self).latch == old(self).latch,
            final(self).internal_buffer == old(self).internal_buffer,
            final(self).nmi_interrupt == old(self).nmi_interrupt,
    {
        let ghost start_addr = self.oam_addr;
        let mut i: usize = 0;
        while i < 256
            invariant
                old(self).wf(),
                data@.len() == 256,
                self.oam_data@.len() == 256,
                i <= 256,
                i < 256 ==> self.oam_addr == start_addr.wrapping_add(i as u8),
                i == 256 ==> self.oam_addr == start_addr,
                forall|k: u8|
                    k < i ==> self.oam_data@[#[trigger] start_addr.wrapping_add(k) as int]
                        == data@[k as int],
                self.chr_rom@ == old(self).chr_rom@,
                self.vram@ == old(self).vram@,
                self.palette_table@ == old(self).palette_table@,
                self.mirroring == old(self).mirroring,
                same_timing(*old(self), *self),
                self.control == old(self).control,
                self.mask == old(self).mask,
                self.status == old(self).status,
                self.scroll == old(self).scroll,
                self.addr == old(self).addr,
                self.latch == old(self).latch,
                self.internal_buffer == old(self).internal_buffer,
                self.nmi_interrupt == old(self).nmi_interrupt,
                start_addr == old(self).oam_addr,
            decreases 256 - i,
        {
            let idx = self.oam_addr as usize;
            self.oam_data[idx] = data[i];
            self.oam_addr = self.oam_addr.wrapping_add(1);
            i = i + 1;
        }
    }

    /// Hands out the pending NMI token, clearing it.
    pub fn poll_nmi_interrupt(&mut self) -> (r: Option<u8>)
        ensures
            r == old(self).nmi_interrupt,
            final(self).nmi_interrupt is None,
            same_storage(*old(self), *final(self)),
            same_ports(*old(self), *final(self)),
            same_timing(*old(self), *final(self)),
            old(self).wf() ==> final(self).wf(),
    {
        self.nmi_interrupt.take()
    }
}

/// The eight-register port interface a PPU presents to the bus.
pub trait PPU {
    /// The invariant the port operations preserve.
    spec fn inv(&self) -> bool;

    fn write_to_ctrl(&mut self, value: u8)
        requires
            old(self).inv(),
        ensures
            final(self).inv(),
    ;

    fn write_to_mask(&mut self, value: u8)
        requires
            old(self).inv(),
        ensures
            final(self).inv(),
    ;

    fn read_status(&mut self) -> (r: u8)
        requires
            old(self).inv(),
        ensures
            final(self).inv(),
    ;

    fn write_to_oam_addr(&mut self, value: u8)
        requires
            old(self).inv(),
        ensures
            final(self).inv(),
    ;

    fn write_to_oam_data(&mut self, value: u8)
        requires
            old(self).inv(),
        ensures
            final(self).inv(),
    ;

    fn read_oam_data(&self) -> u8
        requires
            self.inv(),
    ;

    fn write_to_scroll(&mut self, value: u8)
        requires
            old(self).inv(),
        ensures
            final(self).inv(),
    ;

    fn write_to_ppu_addr(&mut self, value: u8)
        requires
            old(self).inv(),
        ensures
            final(self).inv(),
    ;

    fn write_to_data(&mut self, value: u8) -> (r: Result<(), EmuError>)
        requires
            old(self).inv(),
        ensures
            final(self).inv(),
    ;

    fn read_data(&mut self) -> (r: Result<u8, EmuError>)
        requires
            old(self).inv(),
        ensures
            final(self).inv(),
    ;

    fn write_oam_dma(&mut self, value: &Vec<u8>)
        requires
            old(self).inv(),
            value@.len() == 256,
        ensures
            final(self).inv(),
    ;
}

impl PPU for MyPPU {
    open spec fn inv(&self) -> bool {
        self.wf()
    }

    fn write_to_ctrl(&mut self, value: u8) {
        MyPPU::write_to_ctrl(self, value)
    }

    fn write_to_mask(&mut self, value: u8) {
        MyPPU::write_to_mask(self, value)
    }

    fn read_status(&mut self) -> u8 {
        MyPPU::read_status(self)
    }

    fn write_to_oam_addr(&mut self, value: u8) {
        MyPPU::write_to_oam_addr(self, value)
    }

    fn write_to_oam_data(&mut self, value: u8) {
        MyPPU::write_to_oam_data(self, value)
    }

    fn read_oam_data(&self) -> u8 {
        MyPPU::read_oam_data(self)
    }

    fn write_to_scroll(&mut self, value: u8) {
        MyPPU::write_to_scroll(self, value)
    }

    fn write_to_ppu_addr(&mut self, value: u8) {
        MyPPU::write_to_ppu_addr(self, value)
    }

    fn write_to_data(&mut self, value: u8) -> Result<(), EmuError> {
        MyPPU::write_to_data(self, value)
    }

    fn read_data(&mut self) -> Result<u8, EmuError> {
        MyPPU::read_data(self)
    }

    fn write_oam_dma(&mut self, value: &Vec<u8>) {
        MyPPU::write_oam_dma(self, value)
    }
}

} // verus!
