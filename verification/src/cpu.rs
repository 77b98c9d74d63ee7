//! The 6502 interpreter: registers, status flags, the stack, addressing
//! modes, the fetch-decode-execute loop, interrupt entry, and the
//! undocumented opcodes that shipping games rely on.

use vstd::prelude::*;

verus! {

use crate::EmuError;
use crate::bits::{bit_set, with_flag, set_flag};
use crate::bus::{
    Bus,
    mem_write_rel,
    peek,
    peek16,
    peekable,
    peekable16,
    bus_unchanged,
    ppu_identical,
    ppu_ticked_rel,
    tick_rel,
};
use crate::joypad::Joypad;
use crate::opcodes::{OpCode, opcode_lookup, opcode_entry};
use crate::ppu::MyPPU;

/// Status register bit: carry.
pub const FLAG_CARRY: u8 = 0b0000_0001;

/// Status register bit: zero.
pub const FLAG_ZERO: u8 = 0b0000_0010;

/// Status register bit: interrupt disable.
pub const FLAG_INTERRUPT_DISABLE: u8 = 0b0000_0100;

/// Status register bit: decimal mode (unused on the NES).
pub const FLAG_DECIMAL_MODE: u8 = 0b0000_1000;

/// Status register bit: break, set only in the byte a BRK pushes.
pub const FLAG_BREAK: u8 = 0b0001_0000;

/// Status register bit 5, always set in a pushed status byte.
pub const FLAG_BREAK2: u8 = 0b0010_0000;

/// Status register bit: overflow.
pub const FLAG_OVERFLOW: u8 = 0b0100_0000;

/// Status register bit: negative.
pub const FLAG_NEGATIVE: u8 = 0b1000_0000;

/// The status byte a freshly reset CPU carries: interrupt disable and
/// bit 5.
pub const STATUS_RESET: u8 = 0b0010_0100;

/// The stack pointer a freshly reset CPU carries.
pub const STACK_RESET: u8 = 0xfd;

/// The stack lives in the fixed page $0100-$01FF.
pub const STACK_BASE: u16 = 0x0100;

/// How an instruction finds its operand.
#[derive(Clone, Copy, PartialEq, Eq, Structural, Debug)]
#[allow(non_camel_case_types)]
pub enum AddressingMode {
    Immediate,
    ZeroPage,
    ZeroPage_X,
    ZeroPage_Y,
    Absolute,
    Absolute_X,
    Absolute_Y,
    Indirect_X,
    Indirect_Y,
    NoneAddressing,
}

/// The interrupt kinds the fetch loop can service between instructions.
#[derive(Clone, Copy, PartialEq, Eq, Structural, Debug)]
pub enum InterruptType {
    NMI,
}

pub struct CPU {
    pub register_a: u8,
    pub register_x: u8,
    pub register_y: u8,
    /// The status byte P.
    pub status: u8,
    pub program_counter: u16,
    pub stack_pointer: u8,
    pub bus: Bus,
}

/// The status byte with zero and negative refreshed from `v`.
pub open spec fn spec_zn(p: u8, v: u8) -> u8 {
    with_flag(with_flag(p, FLAG_ZERO, v == 0), FLAG_NEGATIVE, v >= 0x80)
}

/// ADC: the low eight bits of A + M + C.
pub open spec fn spec_adc_result(a: u8, m: u8, carry: bool) -> u8 {
    ((a + m + (if carry {
        1int
    } else {
        0int
    })) % 256) as u8
}

/// ADC: the sum leaves the eight-bit range.
pub open spec fn spec_adc_carry(a: u8, m: u8, carry: bool) -> bool {
    a + m + (if carry {
        1int
    } else {
        0int
    }) > 0xff
}

/// ADC: signed overflow, from the sign bits of operands and result.
pub open spec fn spec_adc_overflow(a: u8, m: u8, carry: bool) -> bool {
    (m ^ spec_adc_result(a, m, carry)) & (spec_adc_result(a, m, carry) ^ a) & 0x80 != 0
}

/// The extra byte a branch adds, sign-extended to sixteen bits.
pub open spec fn sign_extend(off: u8) -> u16 {
    if off >= 0x80 {
        (0xff00 + off) as u16
    } else {
        off as u16
    }
}

/// Registers and flags are unchanged.
pub open spec fn regs_unchanged(a: CPU, b: CPU) -> bool {
    &&& b.register_a == a.register_a
    &&& b.register_x == a.register_x
    &&& b.register_y == a.register_y
    &&& b.status == a.status
    &&& b.program_counter == a.program_counter
    &&& b.stack_pointer == a.stack_pointer
}


/// What a push does: the byte lands at $0100 + SP, SP steps down with
/// wrap, and nothing else moves.
pub open spec fn stack_push_rel(pre: CPU, post: CPU, data: u8) -> bool {
    &&& post.bus.cpu_vram@ == pre.bus.cpu_vram@.update(STACK_BASE + pre.stack_pointer, data)
    &&& post.stack_pointer == pre.stack_pointer.wrapping_sub(1)
    &&& post.register_a == pre.register_a
    &&& post.register_x == pre.register_x
    &&& post.register_y == pre.register_y
    &&& post.status == pre.status
    &&& post.program_counter == pre.program_counter
    &&& post.bus.prg_rom@ == pre.bus.prg_rom@
    &&& post.bus.cycles == pre.bus.cycles
    &&& post.bus.joypad1 == pre.bus.joypad1
    &&& post.bus.frame_event == pre.bus.frame_event
    &&& ppu_identical(pre.bus.ppu, post.bus.ppu)
}

/// What a pop does: SP steps up with wrap and the byte at $0100 + SP
/// comes back, with nothing else moved.
pub open spec fn stack_pop_rel(pre: CPU, post: CPU, v: u8) -> bool {
    &&& post.stack_pointer == pre.stack_pointer.wrapping_add(1)
    &&& v == pre.bus.cpu_vram@[STACK_BASE + pre.stack_pointer.wrapping_add(1)]
    &&& post.register_a == pre.register_a
    &&& post.register_x == pre.register_x
    &&& post.register_y == pre.register_y
    &&& post.status == pre.status
    &&& post.program_counter == pre.program_counter
    &&& bus_unchanged(pre.bus, post.bus)
}

/// What a 16-bit push does: high byte first, then low, SP down by two.
pub open spec fn stack_push16_rel(pre: CPU, post: CPU, data: u16) -> bool {
    &&& post.bus.cpu_vram@ == pre.bus.cpu_vram@.update(
        STACK_BASE + pre.stack_pointer,
        (data / 256) as u8,
    ).update(STACK_BASE + pre.stack_pointer.wrapping_sub(1), (data % 256) as u8)
    &&& post.stack_pointer == pre.stack_pointer.wrapping_sub(2)
    &&& post.register_a == pre.register_a
    &&& post.register_x == pre.register_x
    &&& post.register_y == pre.register_y
    &&& post.status == pre.status
    &&& post.program_counter == pre.program_counter
    &&& post.bus.prg_rom@ == pre.bus.prg_rom@
    &&& post.bus.cycles == pre.bus.cycles
    &&& post.bus.joypad1 == pre.bus.joypad1
    &&& post.bus.frame_event == pre.bus.frame_event
    &&& ppu_identical(pre.bus.ppu, post.bus.ppu)
}

/// What a 16-bit pop does: low byte first, then high, SP up by two.
pub open spec fn stack_pop16_rel(pre: CPU, post: CPU, v: u16) -> bool {
    &&& post.stack_pointer == pre.stack_pointer.wrapping_add(2)
    &&& v == pre.bus.cpu_vram@[STACK_BASE + pre.stack_pointer.wrapping_add(2)] as u16 * 256
        + pre.bus.cpu_vram@[STACK_BASE + pre.stack_pointer.wrapping_add(1)] as u16
    &&& post.register_a == pre.register_a
    &&& post.register_x == pre.register_x
    &&& post.register_y == pre.register_y
    &&& post.status == pre.status
    &&& post.program_counter == pre.program_counter
    &&& bus_unchanged(pre.bus, post.bus)
}

impl CPU {
    pub open spec fn wf(&self) -> bool {
        self.bus.wf()
    }

    pub fn new(bus: Bus) -> (r: CPU)
        ensures
            r.register_a == 0,
            r.register_x == 0,
            r.register_y == 0,
            r.status == STATUS_RESET,
            r.program_counter == 0,
            r.stack_pointer == STACK_RESET,
            r.bus == bus,
            bus.wf() ==> r.wf(),
    {
        CPU {
            register_a: 0,
            register_x: 0,
            register_y: 0,
            status: STATUS_RESET,
            program_counter: 0,
            stack_pointer: STACK_RESET,
            bus,
        }
    }

    /// Refreshes the zero and negative flags from a result byte.
    fn update_zero_and_negative_flags(&mut self, result: u8)
        ensures
            final(self).status == spec_zn(old(self).status, result),
            final(self).register_a == old(self).register_a,
            final(self).register_x == old(self).register_x,
            final(self).register_y == old(self).register_y,
            final(self).program_counter == old(self).program_counter,
            final(self).stack_pointer == old(self).stack_pointer,
            final(self).bus == old(self).bus,
    {
        self.status = set_flag(self.status, FLAG_ZERO, result == 0);
        self.status = set_flag(self.status, FLAG_NEGATIVE, result >= 0x80);
    }

    /// Pushes one byte: the stack page holds it at $0100 + SP, and SP
    /// steps down with wrap.
    fn stack_push(&mut self, data: u8)
        requires
            old(self).wf(),
        ensures
            final(self).wf(),
            stack_push_rel(*old(self), *final(self), data),
    {
        let addr = STACK_BASE + self.stack_pointer as u16;
        // stack stores land in work RAM, which never refuses a write
        match self.bus.mem_write(addr, data) {
            Ok(_) => {},
            Err(_) => {
                proof {
                    assert(false);
                }
            },
        }
        self.stack_pointer = self.stack_pointer.wrapping_sub(1);
    }

    /// Pops one byte: SP steps up with wrap, and the byte at $0100 + SP
    /// comes back.
    fn stack_pop(&mut self) -> (r: u8)
        requires
            old(self).wf(),
        ensures
            final(self).wf(),
            stack_pop_rel(*old(self), *final(self), r),
    {
        self.stack_pointer = self.stack_pointer.wrapping_add(1);
        let addr = STACK_BASE + self.stack_pointer as u16;
        // stack loads come from work RAM, which never refuses a read
        match self.bus.mem_read(addr) {
            Ok(b) => b,
            Err(_) => {
                proof {
                    assert(false);
                }
                0
            },
        }
    }

    /// Pushes a 16-bit value, high byte first.
    fn stack_push_u16(&mut self, data: u16)
        requires
            old(self).wf(),
        ensures
            final(self).wf(),
            stack_push16_rel(*old(self), *final(self), data),
    {
        let hi = (data / 256) as u8;
        let lo = (data % 256) as u8;
        self.stack_push(hi);
        self.stack_push(lo);
        proof {
            assert(old(self).stack_pointer.wrapping_sub(1).wrapping_sub(1) == old(self).stack_pointer.wrapping_sub(2));
        }
    }

    /// Pops a 16-bit value, low byte first.
    fn stack_pop_u16(&mut self) -> (r: u16)
        requires
            old(self).wf(),
        ensures
            final(self).wf(),
            stack_pop16_rel(*old(self), *final(self), r),
    {
        let lo = self.stack_pop();
        let hi = self.stack_pop();
        proof {
            assert(old(self).stack_pointer.wrapping_add(1).wrapping_add(1) == old(self).stack_pointer.wrapping_add(2));
        }
        hi as u16 * 256 + lo as u16
    }
}

/// Two addresses sit in different 256-byte pages.
pub fn page_cross(addr1: u16, addr2: u16) -> (r: bool)
    ensures
        r == spec_page_cross(addr1, addr2),
{
    addr1 / 256 != addr2 / 256
}

/// Two addresses sit in different 256-byte pages.
pub open spec fn spec_page_cross(addr1: u16, addr2: u16) -> bool {
    addr1 / 256 != addr2 / 256
}

/// Every read that resolving this mode performs at `addr` is
/// side-effect-free. The zero-page pointer reads of the indirect modes
/// always are; only the operand bytes at `addr` can hit a live port.
pub open spec fn spec_operand_peekable(mode: AddressingMode, addr: u16) -> bool {
    match mode {
        AddressingMode::Immediate => true,
        AddressingMode::ZeroPage => peekable(addr),
        AddressingMode::ZeroPage_X => peekable(addr),
        AddressingMode::ZeroPage_Y => peekable(addr),
        AddressingMode::Absolute => peekable16(addr),
        AddressingMode::Absolute_X => peekable16(addr),
        AddressingMode::Absolute_Y => peekable16(addr),
        AddressingMode::Indirect_X => peekable(addr),
        AddressingMode::Indirect_Y => peekable(addr),
        AddressingMode::NoneAddressing => true,
    }
}

/// The effective address a mode resolves to, and whether resolving it
/// crossed a page, given that its reads are side-effect-free.
pub open spec fn spec_operand_addr(b: Bus, x: u8, y: u8, mode: AddressingMode, addr: u16) -> (
    u16,
    bool,
) {
    match mode {
        AddressingMode::Immediate => (addr, false),
        AddressingMode::ZeroPage => (peek(b, addr) as u16, false),
        AddressingMode::ZeroPage_X => (peek(b, addr).wrapping_add(x) as u16, false),
        AddressingMode::ZeroPage_Y => (peek(b, addr).wrapping_add(y) as u16, false),
        AddressingMode::Absolute => (peek16(b, addr), false),
        AddressingMode::Absolute_X => {
            let base = peek16(b, addr);
            let a = base.wrapping_add(x as u16);
            (a, spec_page_cross(base, a))
        },
        AddressingMode::Absolute_Y => {
            let base = peek16(b, addr);
            let a = base.wrapping_add(y as u16);
            (a, spec_page_cross(base, a))
        },
        AddressingMode::Indirect_X => {
            let base = peek(b, addr);
            let ptr = base.wrapping_add(x);
            let lo = peek(b, ptr as u16);
            let hi = peek(b, ptr.wrapping_add(1) as u16);
            ((hi as int * 256 + lo as int) as u16, false)
        },
        AddressingMode::Indirect_Y => {
            let base = peek(b, addr);
            let lo = peek(b, base as u16);
            let hi = peek(b, base.wrapping_add(1) as u16);
            let deref_base = (hi as int * 256 + lo as int) as u16;
            let deref = deref_base.wrapping_add(y as u16);
            (deref, spec_page_cross(deref, deref_base))
        },
        AddressingMode::NoneAddressing => (0u16, false),
    }
}

impl CPU {
    /// Resolves a memory addressing mode against the operand bytes at
    /// `addr`: the effective address and the page-cross marker. When the
    /// operand bytes sit in side-effect-free space the result is exactly
    /// `spec_operand_addr` and the machine is untouched.
    pub fn get_stored_value_address(&mut self, mode: &AddressingMode, addr: u16) -> (r: Result<
        (u16, bool),
        EmuError,
    >)
        requires
            old(self).wf(),
            *mode != AddressingMode::Immediate,
            *mode != AddressingMode::NoneAddressing,
        ensures
            final(self).wf(),
            regs_unchanged(*old(self), *final(self)),
            spec_operand_peekable(*mode, addr) ==> r == Ok::<(u16, bool), EmuError>(
                spec_operand_addr(old(self).bus, old(self).register_x, old(self).register_y, *mode, addr),
            ) && bus_unchanged(old(self).bus, final(self).bus),
    {
        match mode {
            AddressingMode::ZeroPage => {
                let pos = match self.bus.mem_read(addr) {
                    Ok(b) => b,
                    Err(e) => {
                        return Err(e);
                    },
                };
                Ok((pos as u16, false))
            },
            AddressingMode::Absolute => {
                let a = match self.bus.mem_read_u16(addr) {
                    Ok(w) => w,
                    Err(e) => {
                        return Err(e);
                    },
                };
                Ok((a, false))
            },
            AddressingMode::ZeroPage_X => {
                let pos = match self.bus.mem_read(addr) {
                    Ok(b) => b,
                    Err(e) => {
                        return Err(e);
                    },
                };
                Ok((pos.wrapping_add(self.register_x) as u16, false))
            },
            AddressingMode::ZeroPage_Y => {
                let pos = match self.bus.mem_read(addr) {
                    Ok(b) => b,
                    Err(e) => {
                        return Err(e);
                    },
                };
                Ok((pos.wrapping_add(self.register_y) as u16, false))
            },
            AddressingMode::Absolute_X => {
                let base = match self.bus.mem_read_u16(addr) {
                    Ok(w) => w,
                    Err(e) => {
                        return Err(e);
                    },
                };
                let a = base.wrapping_add(self.register_x as u16);
                Ok((a, page_cross(base, a)))
            },
            AddressingMode::Absolute_Y => {
                let base = match self.bus.mem_read_u16(addr) {
                    Ok(w) => w,
                    Err(e) => {
                        return Err(e);
                    },
                };
                let a = base.wrapping_add(self.register_y as u16);
                Ok((a, page_cross(base, a)))
            },
            AddressingMode::Indirect_X => {
                let base = match self.bus.mem_read(addr) {
                    Ok(b) => b,
                    Err(e) => {
                        return Err(e);
                    },
                };
                let ptr = base.wrapping_add(self.register_x);
                let lo = match self.bus.mem_read(ptr as u16) {
                    Ok(b) => b,
                    Err(e) => {
                        return Err(e);
                    },
                };
                let hi = match self.bus.mem_read(ptr.wrapping_add(1) as u16) {
                    Ok(b) => b,
                    Err(e) => {
                        return Err(e);
                    },
                };
                Ok((hi as u16 * 256 + lo as u16, false))
            },
            AddressingMode::Indirect_Y => {
                let base = match self.bus.mem_read(addr) {
                    Ok(b) => b,
                    Err(e) => {
                        return Err(e);
                    },
                };
                let lo = match self.bus.mem_read(base as u16) {
                    Ok(b) => b,
                    Err(e) => {
                        return Err(e);
                    },
                };
                let hi = match self.bus.mem_read(base.wrapping_add(1) as u16) {
                    Ok(b) => b,
                    Err(e) => {
                        return Err(e);
                    },
                };
                let deref_base = hi as u16 * 256 + lo as u16;
                let deref = deref_base.wrapping_add(self.register_y as u16);
                Ok((deref, page_cross(deref, deref_base)))
            },
            AddressingMode::Immediate | AddressingMode::NoneAddressing => {
                // excluded by the precondition: these modes carry no
                // stored-value address
                proof {
                    assert(false);
                }
                Ok((0, false))
            },
        }
    }

    /// Resolves the current instruction's operand from PC.
    fn get_operand_address(&mut self, mode: &AddressingMode) -> (r: Result<(u16, bool), EmuError>)
        requires
            old(self).wf(),
            *mode != AddressingMode::NoneAddressing,
        ensures
            final(self).wf(),
            regs_unchanged(*old(self), *final(self)),
            spec_operand_peekable(*mode, old(self).program_counter) ==> r == Ok::<
                (u16, bool),
                EmuError,
            >(
                spec_operand_addr(
                    old(self).bus,
                    old(self).register_x,
                    old(self).register_y,
                    *mode,
                    old(self).program_counter,
                ),
            ) && bus_unchanged(old(self).bus, final(self).bus),
    {
        match mode {
            AddressingMode::Immediate => Ok((self.program_counter, false)),
            _ => {
                let pc = self.program_counter;
                self.get_stored_value_address(mode, pc)
            },
        }
    }
}

/// Only A and the status byte may differ.
pub open spec fn pure_except_a(a: CPU, b: CPU) -> bool {
    &&& b.register_x == a.register_x
    &&& b.register_y == a.register_y
    &&& b.program_counter == a.program_counter
    &&& b.stack_pointer == a.stack_pointer
    &&& b.bus == a.bus
}

/// Only X and the status byte may differ.
pub open spec fn pure_except_x(a: CPU, b: CPU) -> bool {
    &&& b.register_a == a.register_a
    &&& b.register_y == a.register_y
    &&& b.program_counter == a.program_counter
    &&& b.stack_pointer == a.stack_pointer
    &&& b.bus == a.bus
}

/// Only Y and the status byte may differ.
pub open spec fn pure_except_y(a: CPU, b: CPU) -> bool {
    &&& b.register_a == a.register_a
    &&& b.register_x == a.register_x
    &&& b.program_counter == a.program_counter
    &&& b.stack_pointer == a.stack_pointer
    &&& b.bus == a.bus
}

/// Only the status byte may differ.
pub open spec fn pure_flags_only(a: CPU, b: CPU) -> bool {
    &&& b.register_a == a.register_a
    &&& b.register_x == a.register_x
    &&& b.register_y == a.register_y
    &&& b.program_counter == a.program_counter
    &&& b.stack_pointer == a.stack_pointer
    &&& b.bus == a.bus
}

/// Only A, X and the status byte may differ.
pub open spec fn pure_except_ax(a: CPU, b: CPU) -> bool {
    &&& b.register_y == a.register_y
    &&& b.program_counter == a.program_counter
    &&& b.stack_pointer == a.stack_pointer
    &&& b.bus == a.bus
}

impl CPU {
    /// LDA: loads A and refreshes Z and N.
    fn lda_value(&mut self, value: u8)
        ensures
            pure_except_a(*old(self), *final(self)),
            final(self).register_a == value,
            final(self).status == spec_zn(old(self).status, value),
    {
        self.register_a = value;
        self.update_zero_and_negative_flags(value);
    }

    /// LDX: loads X and refreshes Z and N.
    fn ldx_value(&mut self, value: u8)
        ensures
            pure_except_x(*old(self), *final(self)),
            final(self).register_x == value,
            final(self).status == spec_zn(old(self).status, value),
    {
        self.register_x = value;
        self.update_zero_and_negative_flags(value);
    }

    /// LDY: loads Y and refreshes Z and N.
    fn ldy_value(&mut self, value: u8)
        ensures
            pure_except_y(*old(self), *final(self)),
            final(self).register_y == value,
            final(self).status == spec_zn(old(self).status, value),
    {
        self.register_y = value;
        self.update_zero_and_negative_flags(value);
    }

    /// LAX: loads A and X with the same byte.
    fn lax_value(&mut self, value: u8)
        ensures
            pure_except_ax(*old(self), *final(self)),
            final(self).register_a == value,
            final(self).register_x == value,
            final(self).status == spec_zn(old(self).status, value),
    {
        self.update_zero_and_negative_flags(value);
        self.register_a = value;
        self.register_x = value;
    }

    /// AND: A &= M.
    fn and_value(&mut self, value: u8)
        ensures
            pure_except_a(*old(self), *final(self)),
            final(self).register_a == (old(self).register_a & value),
            final(self).status == spec_zn(old(self).status, old(self).register_a & value),
    {
        self.register_a = self.register_a & value;
        self.update_zero_and_negative_flags(self.register_a);
    }

    /// ORA: A |= M.
    fn ora_value(&mut self, value: u8)
        ensures
            pure_except_a(*old(self), *final(self)),
            final(self).register_a == (old(self).register_a | value),
            final(self).status == spec_zn(old(self).status, old(self).register_a | value),
    {
        self.register_a = self.register_a | value;
        self.update_zero_and_negative_flags(self.register_a);
    }

    /// EOR: A ^= M.
    fn eor_value(&mut self, value: u8)
        ensures
            pure_except_a(*old(self), *final(self)),
            final(self).register_a == (old(self).register_a ^ value),
            final(self).status == spec_zn(old(self).status, old(self).register_a ^ value),
    {
        self.register_a = self.register_a ^ value;
        self.update_zero_and_negative_flags(self.register_a);
    }

    /// The ADC core: A + M + C, setting carry and signed overflow.
    fn add_with_carry(&mut self, data: u8)
        ensures
            pure_except_a(*old(self), *final(self)),
            final(self).register_a == spec_adc_result(
                old(self).register_a,
                data,
                bit_set(old(self).status, FLAG_CARRY),
            ),
            final(self).status == with_flag(
                with_flag(
                    old(self).status,
                    FLAG_CARRY,
                    spec_adc_carry(old(self).register_a, data, bit_set(old(self).status, FLAG_CARRY)),
                ),
                FLAG_OVERFLOW,
                spec_adc_overflow(
                    old(self).register_a,
                    data,
                    bit_set(old(self).status, FLAG_CARRY),
                ),
            ),
    {
        let carry_in: u16 = if self.status & FLAG_CARRY != 0 {
            1
        } else {
            0
        };
        let sum: u16 = self.register_a as u16 + data as u16 + carry_in;
        let result = (sum % 256) as u8;
        self.status = set_flag(self.status, FLAG_CARRY, sum > 0xff);
        self.status = set_flag(
            self.status,
            FLAG_OVERFLOW,
            (data ^ result) & (result ^ self.register_a) & 0x80 != 0,
        );
        self.register_a = result;
    }

    /// ADC: add with carry, then refresh Z and N from the new A.
    fn adc_value(&mut self, data: u8)
        ensures
            pure_except_a(*old(self), *final(self)),
            final(self).register_a == spec_adc_result(
                old(self).register_a,
                data,
                bit_set(old(self).status, FLAG_CARRY),
            ),
            final(self).status == spec_zn(
                with_flag(
                    with_flag(
                        old(self).status,
                        FLAG_CARRY,
                        spec_adc_carry(
                            old(self).register_a,
                            data,
                            bit_set(old(self).status, FLAG_CARRY),
                        ),
                    ),
                    FLAG_OVERFLOW,
                    spec_adc_overflow(
                        old(self).register_a,
                        data,
                        bit_set(old(self).status, FLAG_CARRY),
                    ),
                ),
                spec_adc_result(old(self).register_a, data, bit_set(old(self).status, FLAG_CARRY)),
            ),
    {
        self.add_with_carry(data);
        let a = self.register_a;
        self.update_zero_and_negative_flags(a);
    }

    /// SBC: defined as ADC of the operand's bitwise complement.
    fn sbc_value(&mut self, data: u8)
        ensures
            pure_except_a(*old(self), *final(self)),
            final(self).register_a == spec_adc_result(
                old(self).register_a,
                (255 - data) as u8,
                bit_set(old(self).status, FLAG_CARRY),
            ),
            final(self).status == spec_zn(
                with_flag(
                    with_flag(
                        old(self).status,
                        FLAG_CARRY,
                        spec_adc_carry(
                            old(self).register_a,
                            (255 - data) as u8,
                            bit_set(old(self).status, FLAG_CARRY),
                        ),
                    ),
                    FLAG_OVERFLOW,
                    spec_adc_overflow(
                        old(self).register_a,
                        (255 - data) as u8,
                        bit_set(old(self).status, FLAG_CARRY),
                    ),
                ),
                spec_adc_result(
                    old(self).register_a,
                    (255 - data) as u8,
                    bit_set(old(self).status, FLAG_CARRY),
                ),
            ),
    {
        self.adc_value(255 - data);
    }

    /// CMP/CPX/CPY: carry when `reg >= M`, Z and N from the difference.
    fn compare_value(&mut self, reg: u8, data: u8)
        ensures
            pure_flags_only(*old(self), *final(self)),
            final(self).status == spec_zn(
                with_flag(old(self).status, FLAG_CARRY, reg >= data),
                reg.wrapping_sub(data),
            ),
    {
        self.status = set_flag(self.status, FLAG_CARRY, reg >= data);
        self.update_zero_and_negative_flags(reg.wrapping_sub(data));
    }

    /// BIT: Z from A & M, N from bit 7 of M, V from bit 6 of M.
    fn bit_value(&mut self, data: u8)
        ensures
            pure_flags_only(*old(self), *final(self)),
            final(self).status == with_flag(
                with_flag(
                    with_flag(old(self).status, FLAG_ZERO, old(self).register_a & data == 0),
                    FLAG_NEGATIVE,
                    data >= 0x80,
                ),
                FLAG_OVERFLOW,
                data & 0x40 != 0,
            ),
    {
        self.status = set_flag(self.status, FLAG_ZERO, self.register_a & data == 0);
        self.status = set_flag(self.status, FLAG_NEGATIVE, data >= 0x80);
        self.status = set_flag(self.status, FLAG_OVERFLOW, data & 0x40 != 0);
    }

    /// TAX.
    fn tax(&mut self)
        ensures
            pure_except_x(*old(self), *final(self)),
            final(self).register_x == old(self).register_a,
            final(self).status == spec_zn(old(self).status, old(self).register_a),
    {
        self.register_x = self.register_a;
        let v = self.register_x;
        self.update_zero_and_negative_flags(v);
    }

    /// TAY.
    fn tay(&mut self)
        ensures
            pure_except_y(*old(self), *final(self)),
            final(self).register_y == old(self).register_a,
            final(self).status == spec_zn(old(self).status, old(self).register_a),
    {
        self.register_y = self.register_a;
        let v = self.register_y;
        self.update_zero_and_negative_flags(v);
    }

    /// TSX.
    fn tsx(&mut self)
        ensures
            pure_except_x(*old(self), *final(self)),
            final(self).register_x == old(self).stack_pointer,
            final(self).status == spec_zn(old(self).status, old(self).stack_pointer),
    {
        self.register_x = self.stack_pointer;
        let v = self.register_x;
        self.update_zero_and_negative_flags(v);
    }

    /// TXA.
    fn txa(&mut self)
        ensures
            pure_except_a(*old(self), *final(self)),
            final(self).register_a == old(self).register_x,
            final(self).status == spec_zn(old(self).status, old(self).register_x),
    {
        self.register_a = self.register_x;
        let v = self.register_a;
        self.update_zero_and_negative_flags(v);
    }

    /// TXS: no flags change.
    fn txs(&mut self)
        ensures
            final(self).stack_pointer == old(self).register_x,
            final(self).register_a == old(self).register_a,
            final(self).register_x == old(self).register_x,
            final(self).register_y == old(self).register_y,
            final(self).status == old(self).status,
            final(self).program_counter == old(self).program_counter,
            final(self).bus == old(self).bus,
    {
        self.stack_pointer = self.register_x;
    }

    /// TYA.
    fn tya(&mut self)
        ensures
            pure_except_a(*old(self), *final(self)),
            final(self).register_a == old(self).register_y,
            final(self).status == spec_zn(old(self).status, old(self).register_y),
    {
        self.register_a = self.register_y;
        let v = self.register_a;
        self.update_zero_and_negative_flags(v);
    }

    /// INX.
    fn inx(&mut self)
        ensures
            pure_except_x(*old(self), *final(self)),
            final(self).register_x == old(self).register_x.wrapping_add(1),
            final(self).status == spec_zn(old(self).status, old(self).register_x.wrapping_add(1)),
    {
        self.register_x = self.register_x.wrapping_add(1);
        let v = self.register_x;
        self.update_zero_and_negative_flags(v);
    }

    /// INY.
    fn iny(&mut self)
        ensures
            pure_except_y(*old(self), *final(self)),
            final(self).register_y == old(self).register_y.wrapping_add(1),
            final(self).status == spec_zn(old(self).status, old(self).register_y.wrapping_add(1)),
    {
        self.register_y = self.register_y.wrapping_add(1);
        let v = self.register_y;
        self.update_zero_and_negative_flags(v);
    }

    /// DEX.
    fn dex(&mut self)
        ensures
            pure_except_x(*old(self), *final(self)),
            final(self).register_x == old(self).register_x.wrapping_sub(1),
            final(self).status == spec_zn(old(self).status, old(self).register_x.wrapping_sub(1)),
    {
        self.register_x = self.register_x.wrapping_sub(1);
        let v = self.register_x;
        self.update_zero_and_negative_flags(v);
    }

    /// DEY.
    fn dey(&mut self)
        ensures
            pure_except_y(*old(self), *final(self)),
            final(self).register_y == old(self).register_y.wrapping_sub(1),
            final(self).status == spec_zn(old(self).status, old(self).register_y.wrapping_sub(1)),
    {
        self.register_y = self.register_y.wrapping_sub(1);
        let v = self.register_y;
        self.update_zero_and_negative_flags(v);
    }

    /// ASL on A.
    fn asl_accumulator(&mut self)
        ensures
            pure_except_a(*old(self), *final(self)),
            final(self).register_a == old(self).register_a << 1,
            final(self).status == spec_zn(
                with_flag(old(self).status, FLAG_CARRY, old(self).register_a >= 0x80),
                old(self).register_a << 1,
            ),
    {
        let v = self.register_a;
        self.status = set_flag(self.status, FLAG_CARRY, v >= 0x80);
        self.register_a = v << 1;
        let w = self.register_a;
        self.update_zero_and_negative_flags(w);
    }

    /// LSR on A.
    fn lsr_accumulator(&mut self)
        ensures
            pure_except_a(*old(self), *final(self)),
            final(self).register_a == old(self).register_a >> 1,
            final(self).status == spec_zn(
                with_flag(old(self).status, FLAG_CARRY, old(self).register_a & 1 == 1),
                old(self).register_a >> 1,
            ),
    {
        let v = self.register_a;
        self.status = set_flag(self.status, FLAG_CARRY, v & 1 == 1);
        self.register_a = v >> 1;
        let w = self.register_a;
        self.update_zero_and_negative_flags(w);
    }

    /// ROL on A: the old carry enters bit 0.
    fn rol_accumulator(&mut self)
        ensures
            pure_except_a(*old(self), *final(self)),
            final(self).register_a == (old(self).register_a << 1) | (if bit_set(
                old(self).status,
                FLAG_CARRY,
            ) {
                1u8
            } else {
                0u8
            }),
            final(self).status == spec_zn(
                with_flag(old(self).status, FLAG_CARRY, old(self).register_a >= 0x80),
                (old(self).register_a << 1) | (if bit_set(old(self).status, FLAG_CARRY) {
                    1u8
                } else {
                    0u8
                }),
            ),
    {
        let old_carry = self.status & FLAG_CARRY != 0;
        let v = self.register_a;
        self.status = set_flag(self.status, FLAG_CARRY, v >= 0x80);
        let w = (v << 1) | (if old_carry {
            1
        } else {
            0
        });
        self.register_a = w;
        self.update_zero_and_negative_flags(w);
    }

    /// ROR on A: the old carry enters bit 7.
    fn ror_accumulator(&mut self)
        ensures
            pure_except_a(*old(self), *final(self)),
            final(self).register_a == (old(self).register_a >> 1) | (if bit_set(
                old(self).status,
                FLAG_CARRY,
            ) {
                0x80u8
            } else {
                0u8
            }),
            final(self).status == spec_zn(
                with_flag(old(self).status, FLAG_CARRY, old(self).register_a & 1 == 1),
                (old(self).register_a >> 1) | (if bit_set(old(self).status, FLAG_CARRY) {
                    0x80u8
                } else {
                    0u8
                }),
            ),
    {
        let old_carry = self.status & FLAG_CARRY != 0;
        let v = self.register_a;
        self.status = set_flag(self.status, FLAG_CARRY, v & 1 == 1);
        let w = (v >> 1) | (if old_carry {
            0x80
        } else {
            0
        });
        self.register_a = w;
        self.update_zero_and_negative_flags(w);
    }

    /// ASL on memory: returns the shifted byte for the write-back.
    fn asl_value(&mut self, v: u8) -> (w: u8)
        ensures
            pure_flags_only(*old(self), *final(self)),
            w == v << 1,
            final(self).status == spec_zn(with_flag(old(self).status, FLAG_CARRY, v >= 0x80), v << 1),
    {
        self.status = set_flag(self.status, FLAG_CARRY, v >= 0x80);
        let w = v << 1;
        self.update_zero_and_negative_flags(w);
        w
    }

    /// LSR on memory.
    fn lsr_value(&mut self, v: u8) -> (w: u8)
        ensures
            pure_flags_only(*old(self), *final(self)),
            w == v >> 1,
            final(self).status == spec_zn(
                with_flag(old(self).status, FLAG_CARRY, v & 1 == 1),
                v >> 1,
            ),
    {
        self.status = set_flag(self.status, FLAG_CARRY, v & 1 == 1);
        let w = v >> 1;
        self.update_zero_and_negative_flags(w);
        w
    }

    /// ROL on memory.
    fn rol_value(&mut self, v: u8) -> (w: u8)
        ensures
            pure_flags_only(*old(self), *final(self)),
            w == (v << 1) | (if bit_set(old(self).status, FLAG_CARRY) {
                1u8
            } else {
                0u8
            }),
            final(self).status == spec_zn(with_flag(old(self).status, FLAG_CARRY, v >= 0x80), w),
    {
        let old_carry = self.status & FLAG_CARRY != 0;
        self.status = set_flag(self.status, FLAG_CARRY, v >= 0x80);
        let w = (v << 1) | (if old_carry {
            1
        } else {
            0
        });
        self.update_zero_and_negative_flags(w);
        w
    }

    /// ROR on memory.
    fn ror_value(&mut self, v: u8) -> (w: u8)
        ensures
            pure_flags_only(*old(self), *final(self)),
            w == (v >> 1) | (if bit_set(old(self).status, FLAG_CARRY) {
                0x80u8
            } else {
                0u8
            }),
            final(self).status == spec_zn(
                with_flag(old(self).status, FLAG_CARRY, v & 1 == 1),
                w,
            ),
    {
        let old_carry = self.status & FLAG_CARRY != 0;
        self.status = set_flag(self.status, FLAG_CARRY, v & 1 == 1);
        let w = (v >> 1) | (if old_carry {
            0x80
        } else {
            0
        });
        self.update_zero_and_negative_flags(w);
        w
    }

    /// INC on memory.
    fn inc_value(&mut self, v: u8) -> (w: u8)
        ensures
            pure_flags_only(*old(self), *final(self)),
            w == v.wrapping_add(1),
            final(self).status == spec_zn(old(self).status, v.wrapping_add(1)),
    {
        let w = v.wrapping_add(1);
        self.update_zero_and_negative_flags(w);
        w
    }

    /// DEC on memory.
    fn dec_value(&mut self, v: u8) -> (w: u8)
        ensures
            pure_flags_only(*old(self), *final(self)),
            w == v.wrapping_sub(1),
            final(self).status == spec_zn(old(self).status, v.wrapping_sub(1)),
    {
        let w = v.wrapping_sub(1);
        self.update_zero_and_negative_flags(w);
        w
    }

    /// ANC: AND, then copy bit 7 of A into carry.
    fn anc_value(&mut self, data: u8)
        ensures
            pure_except_a(*old(self), *final(self)),
            final(self).register_a == (old(self).register_a & data),
            final(self).status == spec_zn(
                with_flag(
                    spec_zn(old(self).status, old(self).register_a & data),
                    FLAG_CARRY,
                    (old(self).register_a & data) >= 0x80,
                ),
                old(self).register_a & data,
            ),
    {
        self.and_value(data);
        let a = self.register_a;
        self.status = set_flag(self.status, FLAG_CARRY, a >= 0x80);
        self.update_zero_and_negative_flags(a);
    }

    /// AXS: X = (A & X) - M, carry as an unsigned compare.
    fn axs_value(&mut self, data: u8)
        ensures
            pure_except_x(*old(self), *final(self)),
            final(self).register_x == (old(self).register_a & old(self).register_x).wrapping_sub(
                data,
            ),
            final(self).status == spec_zn(
                with_flag(
                    old(self).status,
                    FLAG_CARRY,
                    (old(self).register_a & old(self).register_x) >= data,
                ),
                (old(self).register_a & old(self).register_x).wrapping_sub(data),
            ),
    {
        let and = self.register_a & self.register_x;
        self.status = set_flag(self.status, FLAG_CARRY, and >= data);
        self.register_x = and.wrapping_sub(data);
        let v = self.register_x;
        self.update_zero_and_negative_flags(v);
    }

    /// ARR: AND then ROR on A, with carry taken from bit 6 of the result
    /// and overflow from bits 6 and 5 disagreeing.
    fn arr_value(&mut self, data: u8)
        ensures
            pure_except_a(*old(self), *final(self)),
            ({
                let and = old(self).register_a & data;
                let r = (and >> 1) | (if bit_set(old(self).status, FLAG_CARRY) {
                    0x80u8
                } else {
                    0u8
                });
                let b6 = (r >> 6) & 1 == 1;
                let b5 = (r >> 5) & 1 == 1;
                &&& final(self).register_a == r
                &&& final(self).status == with_flag(
                    with_flag(
                        spec_zn(with_flag(spec_zn(old(self).status, and), FLAG_CARRY, and & 1 == 1), r),
                        FLAG_CARRY,
                        b6,
                    ),
                    FLAG_OVERFLOW,
                    b6 != b5,
                )
            }),
    {
        proof {
            assert(FLAG_ZERO & FLAG_CARRY == 0 && FLAG_NEGATIVE & FLAG_CARRY == 0) by (bit_vector);
            crate::bits::lemma_with_flag_other(
                old(self).status,
                FLAG_ZERO,
                FLAG_CARRY,
                old(self).register_a & data == 0,
            );
            crate::bits::lemma_with_flag_other(
                with_flag(old(self).status, FLAG_ZERO, old(self).register_a & data == 0),
                FLAG_NEGATIVE,
                FLAG_CARRY,
                (old(self).register_a & data) >= 0x80,
            );
        }
        self.and_value(data);
        self.ror_accumulator();
        let r = self.register_a;
        let b6 = (r >> 6) & 1 == 1;
        let b5 = (r >> 5) & 1 == 1;
        self.status = set_flag(self.status, FLAG_CARRY, b6);
        self.status = set_flag(self.status, FLAG_OVERFLOW, b6 != b5);
    }

    /// PLA: pop into A, refreshing Z and N.
    fn pla(&mut self)
        requires
            old(self).wf(),
        ensures
            final(self).wf(),
            final(self).stack_pointer == old(self).stack_pointer.wrapping_add(1),
            final(self).register_a == old(self).bus.cpu_vram@[STACK_BASE + old(self).stack_pointer.wrapping_add(1)],
            final(self).status == spec_zn(
                old(self).status,
                old(self).bus.cpu_vram@[STACK_BASE + old(self).stack_pointer.wrapping_add(1)],
            ),
            final(self).register_x == old(self).register_x,
            final(self).register_y == old(self).register_y,
            final(self).program_counter == old(self).program_counter,
            bus_unchanged(old(self).bus, final(self).bus),
    {
        let data = self.stack_pop();
        self.register_a = data;
        self.update_zero_and_negative_flags(data);
    }

    /// PLP: pop into P, with BREAK forced clear and bit 5 forced set.
    fn plp(&mut self)
        requires
            old(self).wf(),
        ensures
            final(self).wf(),
            final(self).stack_pointer == old(self).stack_pointer.wrapping_add(1),
            final(self).status == with_flag(
                with_flag(
                    old(self).bus.cpu_vram@[STACK_BASE + old(self).stack_pointer.wrapping_add(1)],
                    FLAG_BREAK,
                    false,
                ),
                FLAG_BREAK2,
                true,
            ),
            final(self).register_a == old(self).register_a,
            final(self).register_x == old(self).register_x,
            final(self).register_y == old(self).register_y,
            final(self).program_counter == old(self).program_counter,
            bus_unchanged(old(self).bus, final(self).bus),
    {
        let data = self.stack_pop();
        self.status = set_flag(set_flag(data, FLAG_BREAK, false), FLAG_BREAK2, true);
    }
}

/// The target of a JMP (indirect), with the historical 6502 quirk: when
/// the pointer's low byte is $FF, the high byte of the target is fetched
/// from the start of the same page.
pub open spec fn spec_indirect_target(b: Bus, ptr: u16) -> u16 {
    if ptr % 256 == 255 {
        (peek(b, (ptr / 256 * 256) as u16) as int * 256 + peek(b, ptr) as int) as u16
    } else {
        peek16(b, ptr)
    }
}

/// All reads of a JMP (indirect) at `pc` are side-effect-free.
pub open spec fn spec_indirect_peekable(b: Bus, pc: u16) -> bool {
    peekable16(pc) && {
        let ptr = peek16(b, pc);
        if ptr % 256 == 255 {
            peekable(ptr) && peekable((ptr / 256 * 256) as u16)
        } else {
            peekable16(ptr)
        }
    }
}

impl CPU {
    /// A conditional branch: reads the offset byte at PC; when taken,
    /// jumps relative to PC+1 and reports the extra cycles (one, plus one
    /// more if the target sits in another page).
    fn branch(&mut self, condition: bool) -> (r: Result<u8, EmuError>)
        requires
            old(self).wf(),
        ensures
            final(self).wf(),
            final(self).register_a == old(self).register_a,
            final(self).register_x == old(self).register_x,
            final(self).register_y == old(self).register_y,
            final(self).status == old(self).status,
            final(self).stack_pointer == old(self).stack_pointer,
            r matches Ok(x) ==> x <= 2,
            !condition ==> r == Ok::<u8, EmuError>(0) && final(self).program_counter == old(self).program_counter && final(self).bus == old(self).bus,
            condition && peekable(old(self).program_counter) ==> ({
                let off = peek(old(self).bus, old(self).program_counter);
                let target = old(self).program_counter.wrapping_add(1).wrapping_add(
                    sign_extend(off),
                );
                &&& final(self).program_counter == target
                &&& r == Ok::<u8, EmuError>(
                    if spec_page_cross(old(self).program_counter.wrapping_add(1), target) {
                        2u8
                    } else {
                        1u8
                    },
                )
                &&& bus_unchanged(old(self).bus, final(self).bus)
            }),
    {
        if !condition {
            return Ok(0);
        }
        let off = match self.bus.mem_read(self.program_counter) {
            Ok(b) => b,
            Err(e) => {
                return Err(e);
            },
        };
        let ext: u16 = if off >= 0x80 {
            0xff00 + off as u16
        } else {
            off as u16
        };
        let target = self.program_counter.wrapping_add(1).wrapping_add(ext);
        let extra: u8 = if page_cross(self.program_counter.wrapping_add(1), target) {
            2
        } else {
            1
        };
        self.program_counter = target;
        Ok(extra)
    }

    /// JMP absolute: PC takes the 16-bit operand.
    fn jmp_absolute(&mut self) -> (r: Result<(), EmuError>)
        requires
            old(self).wf(),
        ensures
            final(self).wf(),
            final(self).register_a == old(self).register_a,
            final(self).register_x == old(self).register_x,
            final(self).register_y == old(self).register_y,
            final(self).status == old(self).status,
            final(self).stack_pointer == old(self).stack_pointer,
            peekable16(old(self).program_counter) ==> r is Ok && final(self).program_counter
                == peek16(old(self).bus, old(self).program_counter) && bus_unchanged(
                old(self).bus,
                final(self).bus,
            ),
    {
        let addr = match self.bus.mem_read_u16(self.program_counter) {
            Ok(w) => w,
            Err(e) => {
                return Err(e);
            },
        };
        self.program_counter = addr;
        Ok(())
    }

    /// JMP (indirect), with the page-boundary quirk.
    fn jump_indirect(&mut self) -> (r: Result<(), EmuError>)
        requires
            old(self).wf(),
        ensures
            final(self).wf(),
            final(self).register_a == old(self).register_a,
            final(self).register_x == old(self).register_x,
            final(self).register_y == old(self).register_y,
            final(self).status == old(self).status,
            final(self).stack_pointer == old(self).stack_pointer,
            spec_indirect_peekable(old(self).bus, old(self).program_counter) ==> r is Ok && final(self).program_counter == spec_indirect_target(
                old(self).bus,
                peek16(old(self).bus, old(self).program_counter),
            ) && bus_unchanged(old(self).bus, final(self).bus),
    {
        let mem_address = match self.bus.mem_read_u16(self.program_counter) {
            Ok(w) => w,
            Err(e) => {
                return Err(e);
            },
        };
        let indirect_ref: u16 = if mem_address % 256 == 255 {
            let lo = match self.bus.mem_read(mem_address) {
                Ok(b) => b,
                Err(e) => {
                    return Err(e);
                },
            };
            let hi = match self.bus.mem_read(mem_address / 256 * 256) {
                Ok(b) => b,
                Err(e) => {
                    return Err(e);
                },
            };
            hi as u16 * 256 + lo as u16
        } else {
            match self.bus.mem_read_u16(mem_address) {
                Ok(w) => w,
                Err(e) => {
                    return Err(e);
                },
            }
        };
        self.program_counter = indirect_ref;
        Ok(())
    }

    /// JSR: pushes the address of the instruction's last byte, then jumps.
    fn jsr(&mut self) -> (r: Result<(), EmuError>)
        requires
            old(self).wf(),
        ensures
            final(self).wf(),
            final(self).register_a == old(self).register_a,
            final(self).register_x == old(self).register_x,
            final(self).register_y == old(self).register_y,
            final(self).status == old(self).status,
            peekable16(old(self).program_counter) ==> ({
                let ret = old(self).program_counter.wrapping_add(1);
                &&& r is Ok
                &&& final(self).program_counter == peek16(old(self).bus, old(self).program_counter)
                &&& final(self).stack_pointer == old(self).stack_pointer.wrapping_sub(2)
                &&& final(self).bus.cpu_vram@ == old(self).bus.cpu_vram@.update(
                    STACK_BASE + old(self).stack_pointer,
                    (ret / 256) as u8,
                ).update(STACK_BASE + old(self).stack_pointer.wrapping_sub(1), (ret % 256) as u8)
                &&& final(self).bus.prg_rom@ == old(self).bus.prg_rom@
                &&& final(self).bus.cycles == old(self).bus.cycles
                &&& final(self).bus.joypad1 == old(self).bus.joypad1
                &&& final(self).bus.frame_event == old(self).bus.frame_event
                &&& crate::bus::ppu_identical(old(self).bus.ppu, final(self).bus.ppu)
            }),
    {
        let target_address = match self.bus.mem_read_u16(self.program_counter) {
            Ok(w) => w,
            Err(e) => {
                return Err(e);
            },
        };
        let ret = self.program_counter.wrapping_add(1);
        self.stack_push_u16(ret);
        self.program_counter = target_address;
        Ok(())
    }

    /// RTS: PC takes the popped address plus one.
    fn rts(&mut self)
        requires
            old(self).wf(),
        ensures
            final(self).wf(),
            final(self).register_a == old(self).register_a,
            final(self).register_x == old(self).register_x,
            final(self).register_y == old(self).register_y,
            final(self).status == old(self).status,
            final(self).stack_pointer == old(self).stack_pointer.wrapping_add(2),
            final(self).program_counter == ((old(self).bus.cpu_vram@[STACK_BASE + old(self).stack_pointer.wrapping_add(2)] as u16 * 256 + old(self).bus.cpu_vram@[STACK_BASE
                + old(self).stack_pointer.wrapping_add(1)] as u16) as u16).wrapping_add(1),
            bus_unchanged(old(self).bus, final(self).bus),
    {
        let addr = self.stack_pop_u16();
        self.program_counter = addr.wrapping_add(1);
    }

    /// RTI: pops P (BREAK cleared, bit 5 set), then pops PC.
    fn rti(&mut self)
        requires
            old(self).wf(),
        ensures
            final(self).wf(),
            final(self).register_a == old(self).register_a,
            final(self).register_x == old(self).register_x,
            final(self).register_y == old(self).register_y,
            final(self).stack_pointer == old(self).stack_pointer.wrapping_add(3),
            final(self).status == with_flag(
                with_flag(
                    old(self).bus.cpu_vram@[STACK_BASE + old(self).stack_pointer.wrapping_add(1)],
                    FLAG_BREAK,
                    false,
                ),
                FLAG_BREAK2,
                true,
            ),
            final(self).program_counter == old(self).bus.cpu_vram@[STACK_BASE + old(self).stack_pointer.wrapping_add(3)] as u16 * 256 + old(self).bus.cpu_vram@[STACK_BASE
                + old(self).stack_pointer.wrapping_add(2)] as u16,
            bus_unchanged(old(self).bus, final(self).bus),
    {
        let data = self.stack_pop();
        self.status = set_flag(set_flag(data, FLAG_BREAK, false), FLAG_BREAK2, true);
        let pc = self.stack_pop_u16();
        proof {
            assert(old(self).stack_pointer.wrapping_add(1).wrapping_add(1) == old(self).stack_pointer.wrapping_add(2));
            assert(old(self).stack_pointer.wrapping_add(1).wrapping_add(2) == old(self).stack_pointer.wrapping_add(3));
        }
        self.program_counter = pc;
    }
}

impl CPU {
    /// Services an interrupt between instructions.
    fn interrupt(&mut self, kind: InterruptType)
        requires
            old(self).wf(),
        ensures
            final(self).wf(),
            nmi_serviced_rel(*old(self), *final(self)),
    {
        match kind {
            InterruptType::NMI => self.interrupt_nmi(),
        }
    }

    /// NMI entry: pushes PC and the status byte (BREAK clear, bit 5 set),
    /// raises interrupt-disable, burns two cycles, and jumps through the
    /// vector at $FFFA.
    fn interrupt_nmi(&mut self)
        requires
            old(self).wf(),
        ensures
            final(self).wf(),
            nmi_serviced_rel(*old(self), *final(self)),
    {
        let pc = self.program_counter;
        self.stack_push_u16(pc);
        let flag = set_flag(set_flag(self.status, FLAG_BREAK, false), FLAG_BREAK2, true);
        self.stack_push(flag);
        self.status = set_flag(self.status, FLAG_INTERRUPT_DISABLE, true);

        self.bus.tick(2);
        proof {
            assert(peek16(self.bus, 0xfffa) == peek16(old(self).bus, 0xfffa));
        }
        // the vector sits in ROM, which never refuses a read
        let vector = match self.bus.mem_read_u16(0xfffa) {
            Ok(w) => w,
            Err(_) => {
                proof {
                    assert(false);
                }
                0
            },
        };
        self.program_counter = vector;
        proof {
            assert(old(self).stack_pointer.wrapping_sub(2).wrapping_sub(1) == old(self).stack_pointer.wrapping_sub(3));
        }
    }

    /// BRK entry: pushes PC+2 and the status byte with BREAK and bit 5
    /// set, raises interrupt-disable, burns seven cycles, and jumps
    /// through the vector at $FFFE.
    fn interrupt_brk(&mut self)
        requires
            old(self).wf(),
        ensures
            final(self).wf(),
            final(self).register_a == old(self).register_a,
            final(self).register_x == old(self).register_x,
            final(self).register_y == old(self).register_y,
            final(self).status == with_flag(old(self).status, FLAG_INTERRUPT_DISABLE, true),
            final(self).stack_pointer == old(self).stack_pointer.wrapping_sub(3),
            final(self).program_counter == peek16(old(self).bus, 0xfffe),
            final(self).bus.cycles == old(self).bus.cycles.wrapping_add(7),
            final(self).bus.joypad1 == old(self).bus.joypad1,
            crate::bus::ppu_ticked_rel(old(self).bus.ppu, final(self).bus.ppu, 21),
            final(self).bus.frame_event == (old(self).bus.frame_event || (!(old(self).bus.ppu.nmi_interrupt is Some) && final(self).bus.ppu.nmi_interrupt is Some)),
            final(self).bus.cpu_vram@ == old(self).bus.cpu_vram@.update(
                STACK_BASE + old(self).stack_pointer,
                (old(self).program_counter.wrapping_add(2) / 256) as u8,
            ).update(
                STACK_BASE + old(self).stack_pointer.wrapping_sub(1),
                (old(self).program_counter.wrapping_add(2) % 256) as u8,
            ).update(
                STACK_BASE + old(self).stack_pointer.wrapping_sub(2),
                with_flag(with_flag(old(self).status, FLAG_BREAK, true), FLAG_BREAK2, true),
            ),
            final(self).bus.prg_rom@ == old(self).bus.prg_rom@,
    {
        let ret = self.program_counter.wrapping_add(2);
        self.stack_push_u16(ret);
        let flag = set_flag(set_flag(self.status, FLAG_BREAK, true), FLAG_BREAK2, true);
        self.stack_push(flag);
        self.status = set_flag(self.status, FLAG_INTERRUPT_DISABLE, true);

        self.bus.tick(7);
        proof {
            assert(peek16(self.bus, 0xfffe) == peek16(old(self).bus, 0xfffe));
        }
        // the vector sits in ROM, which never refuses a read
        let vector = match self.bus.mem_read_u16(0xfffe) {
            Ok(w) => w,
            Err(_) => {
                proof {
                    assert(false);
                }
                0
            },
        };
        self.program_counter = vector;
        proof {
            assert(old(self).stack_pointer.wrapping_sub(2).wrapping_sub(1) == old(self).stack_pointer.wrapping_sub(3));
        }
    }

    /// Copies a program into work RAM at $0600, where the reset vector of
    /// the bundled test images points.
    pub fn load(&mut self, program: Vec<u8>)
        requires
            old(self).wf(),
            program@.len() <= 0x200,
        ensures
            final(self).wf(),
            regs_unchanged(*old(self), *final(self)),
            final(self).bus.cpu_vram@.len() == 2048,
            forall|j: int|
                0x600 <= j < 0x600 + program@.len() ==> final(self).bus.cpu_vram@[j] == program@[j
                    - 0x600],
            forall|j: int|
                0 <= j < 2048 && !(0x600 <= j < 0x600 + program@.len()) ==> final(self).bus.cpu_vram@[j] == old(self).bus.cpu_vram@[j],
            final(self).bus.prg_rom@ == old(self).bus.prg_rom@,
            final(self).bus.cycles == old(self).bus.cycles,
            final(self).bus.joypad1 == old(self).bus.joypad1,
            final(self).bus.frame_event == old(self).bus.frame_event,
            crate::bus::ppu_identical(old(self).bus.ppu, final(self).bus.ppu),
    {
        let mut i: usize = 0;
        let n = program.len();
        while i < n
            invariant
                old(self).wf(),
                self.wf(),
                n == program@.len(),
                n <= 0x200,
                i <= n,
                regs_unchanged(*old(self), *self),
                self.bus.cpu_vram@.len() == 2048,
                forall|j: int|
                    0x600 <= j < 0x600 + i ==> self.bus.cpu_vram@[j] == program@[j - 0x600],
                forall|j: int|
                    0 <= j < 2048 && !(0x600 <= j < 0x600 + i) ==> self.bus.cpu_vram@[j] == old(self).bus.cpu_vram@[j],
                self.bus.prg_rom@ == old(self).bus.prg_rom@,
                self.bus.cycles == old(self).bus.cycles,
                self.bus.joypad1 == old(self).bus.joypad1,
                self.bus.frame_event == old(self).bus.frame_event,
                crate::bus::ppu_identical(old(self).bus.ppu, self.bus.ppu),
            decreases n - i,
        {
            let addr = 0x600 + i as u16;
            // the whole program stays inside work RAM
            match self.bus.mem_write(addr, program[i]) {
                Ok(_) => {},
                Err(_) => {
                    proof {
                        assert(false);
                    }
                },
            }
            i = i + 1;
        }
    }

    /// Reset: clears the data registers, restores the reset status byte
    /// and stack pointer, and jumps through the vector at $FFFC.
    pub fn reset(&mut self)
        requires
            old(self).wf(),
        ensures
            final(self).wf(),
            final(self).register_a == 0,
            final(self).register_x == 0,
            final(self).register_y == 0,
            final(self).status == STATUS_RESET,
            final(self).stack_pointer == STACK_RESET,
            final(self).program_counter == peek16(old(self).bus, 0xfffc),
            bus_unchanged(old(self).bus, final(self).bus),
    {
        self.register_a = 0;
        self.register_x = 0;
        self.register_y = 0;
        self.status = STATUS_RESET;
        self.stack_pointer = STACK_RESET;

        // the vector sits in ROM, which never refuses a read
        let vector = match self.bus.mem_read_u16(0xfffc) {
            Ok(w) => w,
            Err(_) => {
                proof {
                    assert(false);
                }
                0
            },
        };
        self.program_counter = vector;
    }
}


/// The two CPUs agree on every register and on every bus observation.
pub open spec fn cpu_like(a: CPU, b: CPU) -> bool {
    regs_unchanged(a, b) && bus_unchanged(a.bus, b.bus)
}

/// `s1` is `pre` with the opcode byte consumed: PC stepped once, nothing
/// else touched.
pub open spec fn fetch_rel(pre: CPU, s1: CPU) -> bool {
    &&& s1.register_a == pre.register_a
    &&& s1.register_x == pre.register_x
    &&& s1.register_y == pre.register_y
    &&& s1.status == pre.status
    &&& s1.stack_pointer == pre.stack_pointer
    &&& s1.program_counter == pre.program_counter.wrapping_add(1)
    &&& bus_unchanged(pre.bus, s1.bus)
}

/// The operand address and page-cross marker an instruction resolves at
/// the current PC.
pub open spec fn operand_of(s: CPU, mode: AddressingMode) -> (u16, bool) {
    spec_operand_addr(s.bus, s.register_x, s.register_y, mode, s.program_counter)
}

/// Resolving the operand performs only side-effect-free reads.
pub open spec fn operand_pure(s: CPU, mode: AddressingMode) -> bool {
    spec_operand_peekable(mode, s.program_counter)
}

/// Resolving and reading the operand are both side-effect-free.
pub open spec fn read_pure(s: CPU, mode: AddressingMode) -> bool {
    operand_pure(s, mode) && peekable(operand_of(s, mode).0)
}

/// The operand byte a side-effect-free read returns.
pub open spec fn read_value(s: CPU, mode: AddressingMode) -> u8 {
    peek(s.bus, operand_of(s, mode).0)
}

/// The extra cycle a page-crossing operand read earns.
pub open spec fn penalty_of(s: CPU, op: OpCode) -> u8 {
    if operand_of(s, op.mode).1 && op.page_penalty {
        1u8
    } else {
        0u8
    }
}

/// Common shape of an operand-reading instruction: the penalty is
/// reported, PC and SP stand, the bus is untouched.
pub open spec fn read_op_frame(s1: CPU, s2: CPU, op: OpCode, r: Result<u8, EmuError>) -> bool {
    &&& r == Ok::<u8, EmuError>(penalty_of(s1, op))
    &&& s2.program_counter == s1.program_counter
    &&& s2.stack_pointer == s1.stack_pointer
    &&& s2.register_y == s1.register_y
    &&& bus_unchanged(s1.bus, s2.bus)
}

/// An instruction that only rewrites A and the flags.
pub open spec fn acc_op_rel(s1: CPU, s2: CPU, r: Result<u8, EmuError>, a2: u8, st2: u8) -> bool {
    &&& r == Ok::<u8, EmuError>(0)
    &&& s2.register_a == a2
    &&& s2.status == st2
    &&& s2.register_x == s1.register_x
    &&& s2.register_y == s1.register_y
    &&& s2.program_counter == s1.program_counter
    &&& s2.stack_pointer == s1.stack_pointer
    &&& bus_unchanged(s1.bus, s2.bus)
}

/// An instruction that only rewrites X and the flags.
pub open spec fn x_op_rel(s1: CPU, s2: CPU, r: Result<u8, EmuError>, x2: u8, st2: u8) -> bool {
    &&& r == Ok::<u8, EmuError>(0)
    &&& s2.register_x == x2
    &&& s2.status == st2
    &&& s2.register_a == s1.register_a
    &&& s2.register_y == s1.register_y
    &&& s2.program_counter == s1.program_counter
    &&& s2.stack_pointer == s1.stack_pointer
    &&& bus_unchanged(s1.bus, s2.bus)
}

/// An instruction that only rewrites Y and the flags.
pub open spec fn y_op_rel(s1: CPU, s2: CPU, r: Result<u8, EmuError>, y2: u8, st2: u8) -> bool {
    &&& r == Ok::<u8, EmuError>(0)
    &&& s2.register_y == y2
    &&& s2.status == st2
    &&& s2.register_a == s1.register_a
    &&& s2.register_x == s1.register_x
    &&& s2.program_counter == s1.program_counter
    &&& s2.stack_pointer == s1.stack_pointer
    &&& bus_unchanged(s1.bus, s2.bus)
}

/// An instruction that only rewrites the status byte.
pub open spec fn flags_op_rel(s1: CPU, s2: CPU, r: Result<u8, EmuError>, st2: u8) -> bool {
    &&& r == Ok::<u8, EmuError>(0)
    &&& s2.status == st2
    &&& s2.register_a == s1.register_a
    &&& s2.register_x == s1.register_x
    &&& s2.register_y == s1.register_y
    &&& s2.program_counter == s1.program_counter
    &&& s2.stack_pointer == s1.stack_pointer
    &&& bus_unchanged(s1.bus, s2.bus)
}

/// A push instruction: one byte lands in the stack page and SP steps
/// down; the PPU, cartridge and counters stand.
pub open spec fn push_op_rel(s1: CPU, s2: CPU, r: Result<u8, EmuError>, byte: u8) -> bool {
    &&& r == Ok::<u8, EmuError>(0)
    &&& s2.bus.cpu_vram@ == s1.bus.cpu_vram@.update(STACK_BASE + s1.stack_pointer, byte)
    &&& s2.stack_pointer == s1.stack_pointer.wrapping_sub(1)
    &&& s2.register_a == s1.register_a
    &&& s2.register_x == s1.register_x
    &&& s2.register_y == s1.register_y
    &&& s2.status == s1.status
    &&& s2.program_counter == s1.program_counter
    &&& s2.bus.prg_rom@ == s1.bus.prg_rom@
    &&& s2.bus.cycles == s1.bus.cycles
    &&& s2.bus.joypad1 == s1.bus.joypad1
    &&& s2.bus.frame_event == s1.bus.frame_event
    &&& ppu_identical(s1.bus.ppu, s2.bus.ppu)
}

/// A store instruction: when the operand resolves purely, the registers
/// stand and the bus takes exactly one write of `v` at the effective
/// address.
pub open spec fn store_op_rel(s1: CPU, s2: CPU, op: OpCode, r: Result<u8, EmuError>, v: u8) -> bool {
    operand_pure(s1, op.mode) ==> {
        let addr = operand_of(s1, op.mode).0;
        &&& s2.register_a == s1.register_a
        &&& s2.register_x == s1.register_x
        &&& s2.register_y == s1.register_y
        &&& s2.status == s1.status
        &&& s2.program_counter == s1.program_counter
        &&& s2.stack_pointer == s1.stack_pointer
        &&& match r {
            Ok(extra) => extra == 0 && mem_write_rel(s1.bus, s2.bus, addr, v, Ok(())),
            Err(e) => mem_write_rel(s1.bus, s2.bus, addr, v, Err(e)),
        }
    }
}

/// A read-modify-write instruction: when the operand resolves and reads
/// purely, the flags take `st2`, A takes `a2` on success, and the bus
/// takes one write of `w` back at the effective address.
pub open spec fn rmw_op_rel(
    s1: CPU,
    s2: CPU,
    op: OpCode,
    r: Result<u8, EmuError>,
    w: u8,
    ok_a: u8,
    ok_x: u8,
    ok_st: u8,
    err_st: u8,
) -> bool {
    read_pure(s1, op.mode) ==> {
        let addr = operand_of(s1, op.mode).0;
        &&& s2.register_y == s1.register_y
        &&& s2.program_counter == s1.program_counter
        &&& s2.stack_pointer == s1.stack_pointer
        &&& match r {
            Ok(extra) => {
                &&& extra == 0
                &&& mem_write_rel(s1.bus, s2.bus, addr, w, Ok(()))
                &&& s2.register_a == ok_a
                &&& s2.register_x == ok_x
                &&& s2.status == ok_st
            },
            Err(e) => {
                &&& mem_write_rel(s1.bus, s2.bus, addr, w, Err(e))
                &&& s2.register_a == s1.register_a
                &&& s2.register_x == s1.register_x
                &&& s2.status == err_st
            },
        }
    }
}

/// A conditional branch: nothing happens when the condition fails; a
/// taken branch with a side-effect-free offset byte jumps relative to
/// PC+1 and reports its extra cycles.
pub open spec fn branch_op_rel(s1: CPU, s2: CPU, r: Result<u8, EmuError>, cond: bool) -> bool {
    &&& s2.register_a == s1.register_a
    &&& s2.register_x == s1.register_x
    &&& s2.register_y == s1.register_y
    &&& s2.status == s1.status
    &&& s2.stack_pointer == s1.stack_pointer
    &&& !cond ==> r == Ok::<u8, EmuError>(0) && s2.program_counter == s1.program_counter
        && bus_unchanged(s1.bus, s2.bus)
    &&& cond && peekable(s1.program_counter) ==> {
        let off = peek(s1.bus, s1.program_counter);
        let target = s1.program_counter.wrapping_add(1).wrapping_add(sign_extend(off));
        &&& s2.program_counter == target
        &&& r == Ok::<u8, EmuError>(
            if spec_page_cross(s1.program_counter.wrapping_add(1), target) {
                2u8
            } else {
                1u8
            },
        )
        &&& bus_unchanged(s1.bus, s2.bus)
    }
}

/// BRK: return address and status pushed, interrupt-disable raised, seven
/// cycles burned, control through the vector at $FFFE.
pub open spec fn brk_rel(s1: CPU, s2: CPU, r: Result<u8, EmuError>) -> bool {
    &&& r == Ok::<u8, EmuError>(0)
    &&& s2.register_a == s1.register_a
    &&& s2.register_x == s1.register_x
    &&& s2.register_y == s1.register_y
    &&& s2.status == with_flag(s1.status, FLAG_INTERRUPT_DISABLE, true)
    &&& s2.stack_pointer == s1.stack_pointer.wrapping_sub(3)
    &&& s2.program_counter == peek16(s1.bus, 0xfffe)
    &&& s2.bus.cpu_vram@ == s1.bus.cpu_vram@.update(
        STACK_BASE + s1.stack_pointer,
        (s1.program_counter.wrapping_add(2) / 256) as u8,
    ).update(
        STACK_BASE + s1.stack_pointer.wrapping_sub(1),
        (s1.program_counter.wrapping_add(2) % 256) as u8,
    ).update(
        STACK_BASE + s1.stack_pointer.wrapping_sub(2),
        with_flag(with_flag(s1.status, FLAG_BREAK, true), FLAG_BREAK2, true),
    )
    &&& s2.bus.prg_rom@ == s1.bus.prg_rom@
    &&& s2.bus.cycles == s1.bus.cycles.wrapping_add(7)
    &&& s2.bus.joypad1 == s1.bus.joypad1
    &&& ppu_ticked_rel(s1.bus.ppu, s2.bus.ppu, 21)
    &&& s2.bus.frame_event == (s1.bus.frame_event || (!(s1.bus.ppu.nmi_interrupt is Some)
        && s2.bus.ppu.nmi_interrupt is Some))
}


/// What the flag, stack and binary-ALU instructions do.
pub open spec fn exec_arith_rel(code: u8, op: OpCode, s1: CPU, s2: CPU, r: Result<
    u8,
    EmuError,
>) -> bool {
    let v = read_value(s1, op.mode);
    let c = bit_set(s1.status, FLAG_CARRY);
    let a = s1.register_a;
    if code == 0x18 {
        flags_op_rel(s1, s2, r, with_flag(s1.status, FLAG_CARRY, false))
    } else if code == 0xd8 {
        flags_op_rel(s1, s2, r, with_flag(s1.status, FLAG_DECIMAL_MODE, false))
    } else if code == 0x58 {
        flags_op_rel(s1, s2, r, with_flag(s1.status, FLAG_INTERRUPT_DISABLE, false))
    } else if code == 0xb8 {
        flags_op_rel(s1, s2, r, with_flag(s1.status, FLAG_OVERFLOW, false))
    } else if code == 0x38 {
        flags_op_rel(s1, s2, r, with_flag(s1.status, FLAG_CARRY, true))
    } else if code == 0xf8 {
        flags_op_rel(s1, s2, r, with_flag(s1.status, FLAG_DECIMAL_MODE, true))
    } else if code == 0x78 {
        flags_op_rel(s1, s2, r, with_flag(s1.status, FLAG_INTERRUPT_DISABLE, true))
    } else if code == 0x48 {
        push_op_rel(s1, s2, r, s1.register_a)
    } else if code == 0x08 {
        push_op_rel(s1, s2, r, with_flag(with_flag(s1.status, FLAG_BREAK, true), FLAG_BREAK2, true))
    } else if code == 0x68 {
        let popped = s1.bus.cpu_vram@[STACK_BASE + s1.stack_pointer.wrapping_add(1)];
        &&& r == Ok::<u8, EmuError>(0)
        &&& s2.register_a == popped
        &&& s2.status == spec_zn(s1.status, popped)
        &&& s2.stack_pointer == s1.stack_pointer.wrapping_add(1)
        &&& s2.register_x == s1.register_x
        &&& s2.register_y == s1.register_y
        &&& s2.program_counter == s1.program_counter
        &&& bus_unchanged(s1.bus, s2.bus)
    } else if code == 0x28 {
        let popped = s1.bus.cpu_vram@[STACK_BASE + s1.stack_pointer.wrapping_add(1)];
        &&& r == Ok::<u8, EmuError>(0)
        &&& s2.status == with_flag(with_flag(popped, FLAG_BREAK, false), FLAG_BREAK2, true)
        &&& s2.stack_pointer == s1.stack_pointer.wrapping_add(1)
        &&& s2.register_a == s1.register_a
        &&& s2.register_x == s1.register_x
        &&& s2.register_y == s1.register_y
        &&& s2.program_counter == s1.program_counter
        &&& bus_unchanged(s1.bus, s2.bus)
    } else if code == 0x69 || code == 0x65 || code == 0x75 || code == 0x6d || code == 0x7d
        || code == 0x79 || code == 0x61 || code == 0x71 {
        read_pure(s1, op.mode) ==> {
            &&& read_op_frame(s1, s2, op, r)
            &&& s2.register_x == s1.register_x
            &&& s2.register_a == spec_adc_result(a, v, c)
            &&& s2.status == spec_zn(
                with_flag(
                    with_flag(s1.status, FLAG_CARRY, spec_adc_carry(a, v, c)),
                    FLAG_OVERFLOW,
                    spec_adc_overflow(a, v, c),
                ),
                spec_adc_result(a, v, c),
            )
        }
    } else if code == 0xe9 || code == 0xe5 || code == 0xf5 || code == 0xed || code == 0xfd
        || code == 0xf9 || code == 0xe1 || code == 0xf1 || code == 0xeb {
        read_pure(s1, op.mode) ==> {
            let m = (255 - v) as u8;
            &&& read_op_frame(s1, s2, op, r)
            &&& s2.register_x == s1.register_x
            &&& s2.register_a == spec_adc_result(a, m, c)
            &&& s2.status == spec_zn(
                with_flag(
                    with_flag(s1.status, FLAG_CARRY, spec_adc_carry(a, m, c)),
                    FLAG_OVERFLOW,
                    spec_adc_overflow(a, m, c),
                ),
                spec_adc_result(a, m, c),
            )
        }
    } else if code == 0x29 || code == 0x25 || code == 0x35 || code == 0x2d || code == 0x3d
        || code == 0x39 || code == 0x21 || code == 0x31 {
        read_pure(s1, op.mode) ==> {
            &&& read_op_frame(s1, s2, op, r)
            &&& s2.register_x == s1.register_x
            &&& s2.register_a == (a & v)
            &&& s2.status == spec_zn(s1.status, a & v)
        }
    } else if code == 0x49 || code == 0x45 || code == 0x55 || code == 0x4d || code == 0x5d
        || code == 0x59 || code == 0x41 || code == 0x51 {
        read_pure(s1, op.mode) ==> {
            &&& read_op_frame(s1, s2, op, r)
            &&& s2.register_x == s1.register_x
            &&& s2.register_a == (a ^ v)
            &&& s2.status == spec_zn(s1.status, a ^ v)
        }
    } else if code == 0x09 || code == 0x05 || code == 0x15 || code == 0x0d || code == 0x1d
        || code == 0x19 || code == 0x01 || code == 0x11 {
        read_pure(s1, op.mode) ==> {
            &&& read_op_frame(s1, s2, op, r)
            &&& s2.register_x == s1.register_x
            &&& s2.register_a == (a | v)
            &&& s2.status == spec_zn(s1.status, a | v)
        }
    } else {
        true
    }
}

/// What the loads, stores, compares, bit test, transfers, register steps
/// and the immediate-mode undocumented instructions do.
pub open spec fn exec_load_store_rel(code: u8, op: OpCode, s1: CPU, s2: CPU, r: Result<
    u8,
    EmuError,
>) -> bool {
    let v = read_value(s1, op.mode);
    let a = s1.register_a;
    let x = s1.register_x;
    let y = s1.register_y;
    if code == 0xa9 || code == 0xa5 || code == 0xb5 || code == 0xad || code == 0xbd || code == 0xb9
        || code == 0xa1 || code == 0xb1 {
        read_pure(s1, op.mode) ==> {
            &&& read_op_frame(s1, s2, op, r)
            &&& s2.register_x == x
            &&& s2.register_a == v
            &&& s2.status == spec_zn(s1.status, v)
        }
    } else if code == 0xa2 || code == 0xa6 || code == 0xb6 || code == 0xae || code == 0xbe {
        read_pure(s1, op.mode) ==> {
            &&& read_op_frame(s1, s2, op, r)
            &&& s2.register_a == a
            &&& s2.register_x == v
            &&& s2.status == spec_zn(s1.status, v)
        }
    } else if code == 0xa0 || code == 0xa4 || code == 0xb4 || code == 0xac || code == 0xbc {
        read_pure(s1, op.mode) ==> {
            &&& r == Ok::<u8, EmuError>(penalty_of(s1, op))
            &&& s2.program_counter == s1.program_counter
            &&& s2.stack_pointer == s1.stack_pointer
            &&& bus_unchanged(s1.bus, s2.bus)
            &&& s2.register_a == a
            &&& s2.register_x == x
            &&& s2.register_y == v
            &&& s2.status == spec_zn(s1.status, v)
        }
    } else if code == 0xa7 || code == 0xb7 || code == 0xaf || code == 0xbf || code == 0xa3
        || code == 0xb3 {
        read_pure(s1, op.mode) ==> {
            &&& read_op_frame(s1, s2, op, r)
            &&& s2.register_a == v
            &&& s2.register_x == v
            &&& s2.status == spec_zn(s1.status, v)
        }
    } else if code == 0xc9 || code == 0xc5 || code == 0xd5 || code == 0xcd || code == 0xdd
        || code == 0xd9 || code == 0xc1 || code == 0xd1 {
        read_pure(s1, op.mode) ==> {
            &&& read_op_frame(s1, s2, op, r)
            &&& s2.register_a == a
            &&& s2.register_x == x
            &&& s2.status == spec_zn(with_flag(s1.status, FLAG_CARRY, a >= v), a.wrapping_sub(v))
        }
    } else if code == 0xe0 || code == 0xe4 || code == 0xec {
        read_pure(s1, op.mode) ==> {
            &&& read_op_frame(s1, s2, op, r)
            &&& s2.register_a == a
            &&& s2.register_x == x
            &&& s2.status == spec_zn(with_flag(s1.status, FLAG_CARRY, x >= v), x.wrapping_sub(v))
        }
    } else if code == 0xc0 || code == 0xc4 || code == 0xcc {
        read_pure(s1, op.mode) ==> {
            &&& read_op_frame(s1, s2, op, r)
            &&& s2.register_a == a
            &&& s2.register_x == x
            &&& s2.status == spec_zn(with_flag(s1.status, FLAG_CARRY, y >= v), y.wrapping_sub(v))
        }
    } else if code == 0x24 || code == 0x2c {
        read_pure(s1, op.mode) ==> {
            &&& read_op_frame(s1, s2, op, r)
            &&& s2.register_a == a
            &&& s2.register_x == x
            &&& s2.status == with_flag(
                with_flag(
                    with_flag(s1.status, FLAG_ZERO, a & v == 0),
                    FLAG_NEGATIVE,
                    v >= 0x80,
                ),
                FLAG_OVERFLOW,
                v & 0x40 != 0,
            )
        }
    } else if code == 0x0b {
        read_pure(s1, op.mode) ==> {
            &&& read_op_frame(s1, s2, op, r)
            &&& s2.register_x == x
            &&& s2.register_a == (a & v)
            &&& s2.status == spec_zn(
                with_flag(spec_zn(s1.status, a & v), FLAG_CARRY, (a & v) >= 0x80),
                a & v,
            )
        }
    } else if code == 0x4b {
        read_pure(s1, op.mode) ==> {
            let a1 = (a & v) as u8;
            &&& read_op_frame(s1, s2, op, r)
            &&& s2.register_x == x
            &&& s2.register_a == a1 >> 1
            &&& s2.status == spec_zn(
                with_flag(spec_zn(s1.status, a1), FLAG_CARRY, a1 & 1 == 1),
                a1 >> 1,
            )
        }
    } else if code == 0x6b {
        read_pure(s1, op.mode) ==> {
            let and = (a & v) as u8;
            let r0 = (and >> 1) | (if bit_set(s1.status, FLAG_CARRY) {
                0x80u8
            } else {
                0u8
            });
            let b6 = (r0 >> 6) & 1 == 1;
            let b5 = (r0 >> 5) & 1 == 1;
            &&& read_op_frame(s1, s2, op, r)
            &&& s2.register_x == x
            &&& s2.register_a == r0
            &&& s2.status == with_flag(
                with_flag(
                    spec_zn(with_flag(spec_zn(s1.status, and), FLAG_CARRY, and & 1 == 1), r0),
                    FLAG_CARRY,
                    b6,
                ),
                FLAG_OVERFLOW,
                b6 != b5,
            )
        }
    } else if code == 0xcb {
        read_pure(s1, op.mode) ==> {
            let and = (a & x) as u8;
            &&& read_op_frame(s1, s2, op, r)
            &&& s2.register_a == a
            &&& s2.register_x == and.wrapping_sub(v)
            &&& s2.status == spec_zn(
                with_flag(s1.status, FLAG_CARRY, and >= v),
                and.wrapping_sub(v),
            )
        }
    } else if code == 0x85 || code == 0x95 || code == 0x8d || code == 0x9d || code == 0x99
        || code == 0x81 || code == 0x91 {
        store_op_rel(s1, s2, op, r, s1.register_a)
    } else if code == 0x86 || code == 0x96 || code == 0x8e {
        store_op_rel(s1, s2, op, r, s1.register_x)
    } else if code == 0x84 || code == 0x94 || code == 0x8c {
        store_op_rel(s1, s2, op, r, s1.register_y)
    } else if code == 0x87 || code == 0x97 || code == 0x8f || code == 0x83 {
        store_op_rel(s1, s2, op, r, s1.register_a & s1.register_x)
    } else if code == 0x8a {
        acc_op_rel(s1, s2, r, x, spec_zn(s1.status, x))
    } else if code == 0xaa {
        x_op_rel(s1, s2, r, a, spec_zn(s1.status, a))
    } else if code == 0xa8 {
        y_op_rel(s1, s2, r, a, spec_zn(s1.status, a))
    } else if code == 0xba {
        x_op_rel(s1, s2, r, s1.stack_pointer, spec_zn(s1.status, s1.stack_pointer))
    } else if code == 0x9a {
        &&& r == Ok::<u8, EmuError>(0)
        &&& s2.stack_pointer == x
        &&& s2.register_a == a
        &&& s2.register_x == x
        &&& s2.register_y == y
        &&& s2.status == s1.status
        &&& s2.program_counter == s1.program_counter
        &&& bus_unchanged(s1.bus, s2.bus)
    } else if code == 0x98 {
        acc_op_rel(s1, s2, r, y, spec_zn(s1.status, y))
    } else if code == 0xe8 {
        x_op_rel(s1, s2, r, x.wrapping_add(1), spec_zn(s1.status, x.wrapping_add(1)))
    } else if code == 0xc8 {
        y_op_rel(s1, s2, r, y.wrapping_add(1), spec_zn(s1.status, y.wrapping_add(1)))
    } else if code == 0xca {
        x_op_rel(s1, s2, r, x.wrapping_sub(1), spec_zn(s1.status, x.wrapping_sub(1)))
    } else if code == 0x88 {
        y_op_rel(s1, s2, r, y.wrapping_sub(1), spec_zn(s1.status, y.wrapping_sub(1)))
    } else {
        true
    }
}


/// What the shifts, rotates, memory steps and combined read-modify-write
/// instructions do.
pub open spec fn exec_shift_rel(code: u8, op: OpCode, s1: CPU, s2: CPU, r: Result<
    u8,
    EmuError,
>) -> bool {
    let v = read_value(s1, op.mode);
    let c = bit_set(s1.status, FLAG_CARRY);
    let a = s1.register_a;
    let x = s1.register_x;
    let st = s1.status;
    if code == 0x0a {
        acc_op_rel(s1, s2, r, a << 1, spec_zn(with_flag(st, FLAG_CARRY, a >= 0x80), a << 1))
    } else if code == 0x4a {
        acc_op_rel(s1, s2, r, a >> 1, spec_zn(with_flag(st, FLAG_CARRY, a & 1 == 1), a >> 1))
    } else if code == 0x2a {
        let w = (a << 1) | (if c {
            1u8
        } else {
            0u8
        });
        acc_op_rel(s1, s2, r, w, spec_zn(with_flag(st, FLAG_CARRY, a >= 0x80), w))
    } else if code == 0x6a {
        let w = (a >> 1) | (if c {
            0x80u8
        } else {
            0u8
        });
        acc_op_rel(s1, s2, r, w, spec_zn(with_flag(st, FLAG_CARRY, a & 1 == 1), w))
    } else if code == 0x06 || code == 0x16 || code == 0x0e || code == 0x1e {
        let w = v << 1;
        let st1 = spec_zn(with_flag(st, FLAG_CARRY, v >= 0x80), w);
        rmw_op_rel(s1, s2, op, r, w, a, x, st1, st1)
    } else if code == 0x46 || code == 0x56 || code == 0x4e || code == 0x5e {
        let w = v >> 1;
        let st1 = spec_zn(with_flag(st, FLAG_CARRY, v & 1 == 1), w);
        rmw_op_rel(s1, s2, op, r, w, a, x, st1, st1)
    } else if code == 0x26 || code == 0x36 || code == 0x2e || code == 0x3e {
        let w = (v << 1) | (if c {
            1u8
        } else {
            0u8
        });
        let st1 = spec_zn(with_flag(st, FLAG_CARRY, v >= 0x80), w);
        rmw_op_rel(s1, s2, op, r, w, a, x, st1, st1)
    } else if code == 0x66 || code == 0x76 || code == 0x6e || code == 0x7e {
        let w = (v >> 1) | (if c {
            0x80u8
        } else {
            0u8
        });
        let st1 = spec_zn(with_flag(st, FLAG_CARRY, v & 1 == 1), w);
        rmw_op_rel(s1, s2, op, r, w, a, x, st1, st1)
    } else if code == 0xe6 || code == 0xf6 || code == 0xee || code == 0xfe {
        let w = v.wrapping_add(1);
        let st1 = spec_zn(st, w);
        rmw_op_rel(s1, s2, op, r, w, a, x, st1, st1)
    } else if code == 0xc6 || code == 0xd6 || code == 0xce || code == 0xde {
        let w = v.wrapping_sub(1);
        let st1 = spec_zn(st, w);
        rmw_op_rel(s1, s2, op, r, w, a, x, st1, st1)
    } else if code == 0xc7 || code == 0xd7 || code == 0xcf || code == 0xdf || code == 0xdb
        || code == 0xc3 || code == 0xd3 {
        // DCP: DEC, then CMP against A
        let w = v.wrapping_sub(1);
        let st1 = spec_zn(st, w);
        let st2 = spec_zn(with_flag(st1, FLAG_CARRY, a >= w), a.wrapping_sub(w));
        rmw_op_rel(s1, s2, op, r, w, a, x, st2, st1)
    } else if code == 0xe7 || code == 0xf7 || code == 0xef || code == 0xff || code == 0xfb
        || code == 0xe3 || code == 0xf3 {
        // ISB: INC, then SBC
        let w = v.wrapping_add(1);
        let st1 = spec_zn(st, w);
        let m = (255 - w) as u8;
        let c1 = bit_set(st1, FLAG_CARRY);
        let a2 = spec_adc_result(a, m, c1);
        let st2 = spec_zn(
            with_flag(
                with_flag(st1, FLAG_CARRY, spec_adc_carry(a, m, c1)),
                FLAG_OVERFLOW,
                spec_adc_overflow(a, m, c1),
            ),
            a2,
        );
        rmw_op_rel(s1, s2, op, r, w, a2, x, st2, st1)
    } else if code == 0x27 || code == 0x37 || code == 0x2f || code == 0x3f || code == 0x3b
        || code == 0x23 || code == 0x33 {
        // RLA: ROL, then AND
        let w = (v << 1) | (if c {
            1u8
        } else {
            0u8
        });
        let st1 = spec_zn(with_flag(st, FLAG_CARRY, v >= 0x80), w);
        rmw_op_rel(s1, s2, op, r, w, (a & w) as u8, x, spec_zn(st1, a & w), st1)
    } else if code == 0x67 || code == 0x77 || code == 0x6f || code == 0x7f || code == 0x7b
        || code == 0x63 || code == 0x73 {
        // RRA: ROR, then ADC
        let w = (v >> 1) | (if c {
            0x80u8
        } else {
            0u8
        });
        let st1 = spec_zn(with_flag(st, FLAG_CARRY, v & 1 == 1), w);
        let c1 = bit_set(st1, FLAG_CARRY);
        let a2 = spec_adc_result(a, w, c1);
        let st2 = spec_zn(
            with_flag(
                with_flag(st1, FLAG_CARRY, spec_adc_carry(a, w, c1)),
                FLAG_OVERFLOW,
                spec_adc_overflow(a, w, c1),
            ),
            a2,
        );
        rmw_op_rel(s1, s2, op, r, w, a2, x, st2, st1)
    } else if code == 0x07 || code == 0x17 || code == 0x0f || code == 0x1f || code == 0x1b
        || code == 0x03 || code == 0x13 {
        // SLO: ASL, then ORA
        let w = v << 1;
        let st1 = spec_zn(with_flag(st, FLAG_CARRY, v >= 0x80), w);
        rmw_op_rel(s1, s2, op, r, w, (a | w) as u8, x, spec_zn(st1, a | w), st1)
    } else if code == 0x47 || code == 0x57 || code == 0x4f || code == 0x5f || code == 0x5b
        || code == 0x43 || code == 0x53 {
        // SRE: LSR, then EOR
        let w = v >> 1;
        let st1 = spec_zn(with_flag(st, FLAG_CARRY, v & 1 == 1), w);
        rmw_op_rel(s1, s2, op, r, w, (a ^ w) as u8, x, spec_zn(st1, a ^ w), st1)
    } else {
        true
    }
}

/// What the branches, jumps, subroutine linkage, idle encodings and BRK
/// do.
pub open spec fn exec_control_rel(code: u8, op: OpCode, s1: CPU, s2: CPU, r: Result<
    u8,
    EmuError,
>) -> bool {
    let st = s1.status;
    if code == 0x90 {
        branch_op_rel(s1, s2, r, !bit_set(st, FLAG_CARRY))
    } else if code == 0xb0 {
        branch_op_rel(s1, s2, r, bit_set(st, FLAG_CARRY))
    } else if code == 0xf0 {
        branch_op_rel(s1, s2, r, bit_set(st, FLAG_ZERO))
    } else if code == 0xd0 {
        branch_op_rel(s1, s2, r, !bit_set(st, FLAG_ZERO))
    } else if code == 0x30 {
        branch_op_rel(s1, s2, r, bit_set(st, FLAG_NEGATIVE))
    } else if code == 0x10 {
        branch_op_rel(s1, s2, r, !bit_set(st, FLAG_NEGATIVE))
    } else if code == 0x50 {
        branch_op_rel(s1, s2, r, !bit_set(st, FLAG_OVERFLOW))
    } else if code == 0x70 {
        branch_op_rel(s1, s2, r, bit_set(st, FLAG_OVERFLOW))
    } else if code == 0x4c {
        &&& s2.register_a == s1.register_a
        &&& s2.register_x == s1.register_x
        &&& s2.register_y == s1.register_y
        &&& s2.status == st
        &&& s2.stack_pointer == s1.stack_pointer
        &&& peekable16(s1.program_counter) ==> r == Ok::<u8, EmuError>(0) && s2.program_counter
            == peek16(s1.bus, s1.program_counter) && bus_unchanged(s1.bus, s2.bus)
    } else if code == 0x6c {
        &&& s2.register_a == s1.register_a
        &&& s2.register_x == s1.register_x
        &&& s2.register_y == s1.register_y
        &&& s2.status == st
        &&& s2.stack_pointer == s1.stack_pointer
        &&& spec_indirect_peekable(s1.bus, s1.program_counter) ==> r == Ok::<u8, EmuError>(0)
            && s2.program_counter == spec_indirect_target(
            s1.bus,
            peek16(s1.bus, s1.program_counter),
        ) && bus_unchanged(s1.bus, s2.bus)
    } else if code == 0x20 {
        &&& s2.register_a == s1.register_a
        &&& s2.register_x == s1.register_x
        &&& s2.register_y == s1.register_y
        &&& s2.status == st
        &&& peekable16(s1.program_counter) ==> {
            let ret = s1.program_counter.wrapping_add(1);
            &&& r == Ok::<u8, EmuError>(0)
            &&& s2.program_counter == peek16(s1.bus, s1.program_counter)
            &&& s2.stack_pointer == s1.stack_pointer.wrapping_sub(2)
            &&& s2.bus.cpu_vram@ == s1.bus.cpu_vram@.update(
                STACK_BASE + s1.stack_pointer,
                (ret / 256) as u8,
            ).update(STACK_BASE + s1.stack_pointer.wrapping_sub(1), (ret % 256) as u8)
            &&& s2.bus.prg_rom@ == s1.bus.prg_rom@
            &&& s2.bus.cycles == s1.bus.cycles
            &&& s2.bus.joypad1 == s1.bus.joypad1
            &&& s2.bus.frame_event == s1.bus.frame_event
            &&& ppu_identical(s1.bus.ppu, s2.bus.ppu)
        }
    } else if code == 0x60 {
        &&& r == Ok::<u8, EmuError>(0)
        &&& s2.register_a == s1.register_a
        &&& s2.register_x == s1.register_x
        &&& s2.register_y == s1.register_y
        &&& s2.status == st
        &&& s2.stack_pointer == s1.stack_pointer.wrapping_add(2)
        &&& s2.program_counter == ((s1.bus.cpu_vram@[STACK_BASE + s1.stack_pointer.wrapping_add(
            2,
        )] as u16 * 256 + s1.bus.cpu_vram@[STACK_BASE + s1.stack_pointer.wrapping_add(
            1,
        )] as u16) as u16).wrapping_add(1)
        &&& bus_unchanged(s1.bus, s2.bus)
    } else if code == 0x40 {
        &&& r == Ok::<u8, EmuError>(0)
        &&& s2.register_a == s1.register_a
        &&& s2.register_x == s1.register_x
        &&& s2.register_y == s1.register_y
        &&& s2.stack_pointer == s1.stack_pointer.wrapping_add(3)
        &&& s2.status == with_flag(
            with_flag(
                s1.bus.cpu_vram@[STACK_BASE + s1.stack_pointer.wrapping_add(1)],
                FLAG_BREAK,
                false,
            ),
            FLAG_BREAK2,
            true,
        )
        &&& s2.program_counter == s1.bus.cpu_vram@[STACK_BASE + s1.stack_pointer.wrapping_add(
            3,
        )] as u16 * 256 + s1.bus.cpu_vram@[STACK_BASE + s1.stack_pointer.wrapping_add(2)] as u16
        &&& bus_unchanged(s1.bus, s2.bus)
    } else if code == 0xea || code == 0x02 || code == 0x12 || code == 0x22 || code == 0x32
        || code == 0x42 || code == 0x52 || code == 0x62 || code == 0x72 || code == 0x92
        || code == 0xb2 || code == 0xd2 || code == 0xf2 || code == 0x1a || code == 0x3a
        || code == 0x5a || code == 0x7a || code == 0xda || code == 0xfa {
        r == Ok::<u8, EmuError>(0) && cpu_like(s1, s2)
    } else if code == 0x04 || code == 0x44 || code == 0x64 || code == 0x14 || code == 0x34
        || code == 0x54 || code == 0x74 || code == 0xd4 || code == 0xf4 || code == 0x0c
        || code == 0x1c || code == 0x3c || code == 0x5c || code == 0x7c || code == 0xdc
        || code == 0xfc {
        read_pure(s1, op.mode) ==> r == Ok::<u8, EmuError>(penalty_of(s1, op)) && regs_unchanged(
            s1,
            s2,
        ) && bus_unchanged(s1.bus, s2.bus)
    } else if code == 0x00 {
        brk_rel(s1, s2, r)
    } else {
        true
    }
}

/// The one-instruction transition of `execute_opcode`, taken from the
/// state with the opcode byte already consumed. Opaque so that callers
/// reason through it as one fact; `reveal(exec_rel)` opens the four
/// class relations.
#[verifier::opaque]
pub open spec fn exec_rel(code: u8, op: OpCode, s1: CPU, s2: CPU, r: Result<u8, EmuError>) -> bool {
    &&& exec_arith_rel(code, op, s1, s2, r)
    &&& exec_load_store_rel(code, op, s1, s2, r)
    &&& exec_shift_rel(code, op, s1, s2, r)
    &&& exec_control_rel(code, op, s1, s2, r)
}

/// Instructions that cannot fail: they touch at most the registers, the
/// stack page and the interrupt vectors in ROM, every access of which the
/// bus always serves.
pub open spec fn spec_always_ok(code: u8) -> bool {
    ||| code == 0x18 || code == 0xd8 || code == 0x58 || code == 0xb8 || code == 0x38
    ||| code == 0xf8 || code == 0x78
    ||| code == 0x48 || code == 0x08 || code == 0x68 || code == 0x28
    ||| code == 0x0a || code == 0x4a || code == 0x2a || code == 0x6a
    ||| code == 0xe8 || code == 0xc8 || code == 0xca || code == 0x88
    ||| code == 0x8a || code == 0xaa || code == 0xa8 || code == 0xba || code == 0x9a
    ||| code == 0x98
    ||| code == 0x60 || code == 0x40 || code == 0x00
    ||| code == 0xea || code == 0x02 || code == 0x12 || code == 0x22 || code == 0x32
    ||| code == 0x42 || code == 0x52 || code == 0x62 || code == 0x72 || code == 0x92
    ||| code == 0xb2 || code == 0xd2 || code == 0xf2
    ||| code == 0x1a || code == 0x3a || code == 0x5a || code == 0x7a || code == 0xda
    ||| code == 0xfa
}


/// What happens after the handler ran: the bus pays the base cycles plus
/// the extras, and PC advances by the table length unless the handler
/// moved it.
pub open spec fn dispatch_tail_rel(pre_pc: u16, op: OpCode, mid: CPU, post: CPU, extra: u8) -> bool {
    &&& post.register_a == mid.register_a
    &&& post.register_x == mid.register_x
    &&& post.register_y == mid.register_y
    &&& post.status == mid.status
    &&& post.stack_pointer == mid.stack_pointer
    &&& tick_rel(mid.bus, post.bus, (op.cycles + extra) as u8)
    &&& post.program_counter == (if mid.program_counter == pre_pc.wrapping_add(1) {
        pre_pc.wrapping_add(op.len as u16)
    } else {
        mid.program_counter
    })
}

/// The machine transition of one instruction, for a fetch from
/// side-effect-free space: the opcode byte is consumed; an unknown byte
/// aborts with the machine otherwise untouched; a known one runs its
/// handler (`exec_rel`), pays its cycles, and advances PC by the table
/// length unless the handler moved it. An error leaves the machine where
/// the failing access left it.
#[verifier::opaque]
pub open spec fn instr_rel(pre: CPU, post: CPU, r: Result<(), EmuError>) -> bool {
    peekable(pre.program_counter) ==> {
        let code = peek(pre.bus, pre.program_counter);
        match opcode_lookup(code) {
            None => {
                &&& r == Err::<(), EmuError>(EmuError::IllegalOpcode(code))
                &&& post.program_counter == pre.program_counter.wrapping_add(1)
                &&& post.register_a == pre.register_a
                &&& post.register_x == pre.register_x
                &&& post.register_y == pre.register_y
                &&& post.status == pre.status
                &&& post.stack_pointer == pre.stack_pointer
                &&& bus_unchanged(pre.bus, post.bus)
            },
            Some(op) => exists|s1: CPU, mid: CPU, er: Result<u8, EmuError>|
                #![trigger exec_rel(code, op, s1, mid, er)]
                {
                    &&& fetch_rel(pre, s1)
                    &&& exec_rel(code, op, s1, mid, er)
                    &&& match er {
                        Ok(extra) => r is Ok && dispatch_tail_rel(
                            pre.program_counter,
                            op,
                            mid,
                            post,
                            extra,
                        ),
                        Err(e) => r == Err::<(), EmuError>(e) && cpu_like(mid, post),
                    }
                },
        }
    }
}

/// The handler for this opcode byte assigns PC itself: the jumps, the
/// returns, BRK, and a branch whose condition holds in the given status
/// byte. Every other handler leaves PC alone, so the fetch loop advances
/// it by the instruction length.
pub open spec fn spec_explicit_pc(code: u8, status: u8) -> bool {
    ||| code == 0x4c
    ||| code == 0x6c
    ||| code == 0x20
    ||| code == 0x60
    ||| code == 0x40
    ||| code == 0x00
    ||| code == 0x90 && !bit_set(status, FLAG_CARRY)
    ||| code == 0xb0 && bit_set(status, FLAG_CARRY)
    ||| code == 0xf0 && bit_set(status, FLAG_ZERO)
    ||| code == 0xd0 && !bit_set(status, FLAG_ZERO)
    ||| code == 0x30 && bit_set(status, FLAG_NEGATIVE)
    ||| code == 0x10 && !bit_set(status, FLAG_NEGATIVE)
    ||| code == 0x50 && !bit_set(status, FLAG_OVERFLOW)
    ||| code == 0x70 && bit_set(status, FLAG_OVERFLOW)
}

impl CPU {
    /// Fetches, decodes and executes one instruction: reads the opcode at
    /// PC, dispatches through the opcode table, pays the base cycles plus
    /// any page-cross penalty, and advances PC by the table length unless
    /// the handler set it. A byte outside the table aborts with
    /// `IllegalOpcode`.
    pub fn step_instruction(&mut self) -> (r: Result<(), EmuError>)
        requires
            old(self).wf(),
        ensures
            final(self).wf(),
            peekable(old(self).program_counter) ==> ({
                let code = peek(old(self).bus, old(self).program_counter);
                match opcode_lookup(code) {
                    None => r == Err::<(), EmuError>(EmuError::IllegalOpcode(code)),
                    Some(op) => {
                        &&& (r is Ok && !spec_explicit_pc(code, old(self).status)) ==> final(self).program_counter == old(self).program_counter.wrapping_add(op.len as u16)
                        &&& spec_always_ok(code) ==> r is Ok
                    },
                }
            }),
            instr_rel(*old(self), *final(self), r),
    {
        proof {
            reveal(instr_rel);
        }
        let code = match self.bus.mem_read(self.program_counter) {
            Ok(c) => c,
            Err(e) => {
                return Err(e);
            },
        };
        self.program_counter = self.program_counter.wrapping_add(1);
        let ghost s1 = *self;
        let program_counter_state = self.program_counter;

        let entry = match opcode_entry(code) {
            Some(e) => e,
            None => {
                return Err(EmuError::IllegalOpcode(code));
            },
        };

        let exec_result = self.execute_opcode(code, entry);
        let ghost mid = *self;
        let extra = match exec_result {
            Ok(x) => x,
            Err(e) => {
                proof {
                    if peekable(old(self).program_counter) {
                        assert(fetch_rel(*old(self), s1));
                        assert(exec_rel(code, entry, s1, mid, Err::<u8, EmuError>(e)));
                    }
                }
                return Err(e);
            },
        };

        self.bus.tick(entry.cycles + extra);

        if program_counter_state == self.program_counter {
            self.program_counter = self.program_counter.wrapping_add((entry.len - 1) as u16);
        }
        proof {
            if peekable(old(self).program_counter) {
                assert(fetch_rel(*old(self), s1));
                assert(exec_rel(code, entry, s1, mid, Ok::<u8, EmuError>(extra)));
                assert(dispatch_tail_rel(old(self).program_counter, entry, mid, *self, extra));
            }
        }
        Ok(())
    }

    /// Runs one decoded instruction's handler; returns the extra cycles a
    /// taken branch or a page-crossing read earned. Handlers other than
    /// the jumps, the returns, BRK and a taken branch leave PC alone.
    #[verifier::rlimit(100)]
    #[verifier::spinoff_prover]
    fn execute_opcode(&mut self, code: u8, entry: OpCode) -> (r: Result<u8, EmuError>)
        requires
            old(self).wf(),
            opcode_lookup(code) == Some(entry),
        ensures
            final(self).wf(),
            r is Ok && !spec_explicit_pc(code, old(self).status) ==> final(self).program_counter
                == old(self).program_counter,
            spec_always_ok(code) ==> r is Ok,
            r matches Ok(extra) ==> extra <= 2,
            exec_rel(code, entry, *old(self), *final(self), r),
    {
        proof {
            reveal(exec_rel);
        }
        match code {
            0x01 | 0x05 | 0x08 | 0x09 | 0x0d | 0x11 | 0x15 | 0x18 | 0x19 | 0x1d | 0x21 | 0x25
                | 0x28 | 0x29 | 0x2d | 0x31 | 0x35 | 0x38 | 0x39 | 0x3d | 0x41 | 0x45 | 0x48
                | 0x49 | 0x4d | 0x51 | 0x55 | 0x58 | 0x59 | 0x5d | 0x61 | 0x65 | 0x68 | 0x69
                | 0x6d | 0x71 | 0x75 | 0x78 | 0x79 | 0x7d | 0xb8 | 0xd8 | 0xe1 | 0xe5 | 0xe9
                | 0xeb | 0xed | 0xf1 | 0xf5 | 0xf8 | 0xf9 | 0xfd => self.execute_arithmetic(code, entry),
            0x0b | 0x24 | 0x2c | 0x4b | 0x6b | 0x81 | 0x83 | 0x84 | 0x85 | 0x86 | 0x87 | 0x88
                | 0x8a | 0x8c | 0x8d | 0x8e | 0x8f | 0x91 | 0x94 | 0x95 | 0x96 | 0x97 | 0x98
                | 0x99 | 0x9a | 0x9d | 0xa0 | 0xa1 | 0xa2 | 0xa3 | 0xa4 | 0xa5 | 0xa6 | 0xa7
                | 0xa8 | 0xa9 | 0xaa | 0xac | 0xad | 0xae | 0xaf | 0xb1 | 0xb3 | 0xb4 | 0xb5
                | 0xb6 | 0xb7 | 0xb9 | 0xba | 0xbc | 0xbd | 0xbe | 0xbf | 0xc0 | 0xc1 | 0xc4
                | 0xc5 | 0xc8 | 0xc9 | 0xca | 0xcb | 0xcc | 0xcd | 0xd1 | 0xd5 | 0xd9 | 0xdd
                | 0xe0 | 0xe4 | 0xe8 | 0xec => self.execute_load_store(code, entry),
            0x03 | 0x06 | 0x07 | 0x0a | 0x0e | 0x0f | 0x13 | 0x16 | 0x17 | 0x1b | 0x1e | 0x1f
                | 0x23 | 0x26 | 0x27 | 0x2a | 0x2e | 0x2f | 0x33 | 0x36 | 0x37 | 0x3b | 0x3e
                | 0x3f | 0x43 | 0x46 | 0x47 | 0x4a | 0x4e | 0x4f | 0x53 | 0x56 | 0x57 | 0x5b
                | 0x5e | 0x5f | 0x63 | 0x66 | 0x67 | 0x6a | 0x6e | 0x6f | 0x73 | 0x76 | 0x77
                | 0x7b | 0x7e | 0x7f | 0xc3 | 0xc6 | 0xc7 | 0xce | 0xcf | 0xd3 | 0xd6 | 0xd7
                | 0xdb | 0xde | 0xdf | 0xe3 | 0xe6 | 0xe7 | 0xee | 0xef | 0xf3 | 0xf6 | 0xf7
                | 0xfb | 0xfe | 0xff => self.execute_shift(code, entry),
            _ => self.execute_control(code, entry),
        }
    }

    /// Flag sets and clears, the stack pushes and pulls, and the binary
    /// ALU instructions.
    #[verifier::rlimit(100)]
    #[verifier::spinoff_prover]
    fn execute_arithmetic(&mut self, code: u8, entry: OpCode) -> (r: Result<u8, EmuError>)
        requires
            old(self).wf(),
            opcode_lookup(code) == Some(entry),
            code == 0x01 || code == 0x05 || code == 0x08 || code == 0x09 || code == 0x0d
                || code == 0x11 || code == 0x15 || code == 0x18 || code == 0x19
                || code == 0x1d || code == 0x21 || code == 0x25 || code == 0x28
                || code == 0x29 || code == 0x2d || code == 0x31 || code == 0x35
                || code == 0x38 || code == 0x39 || code == 0x3d || code == 0x41
                || code == 0x45 || code == 0x48 || code == 0x49 || code == 0x4d
                || code == 0x51 || code == 0x55 || code == 0x58 || code == 0x59
                || code == 0x5d || code == 0x61 || code == 0x65 || code == 0x68
                || code == 0x69 || code == 0x6d || code == 0x71 || code == 0x75
                || code == 0x78 || code == 0x79 || code == 0x7d || code == 0xb8
                || code == 0xd8 || code == 0xe1 || code == 0xe5 || code == 0xe9
                || code == 0xeb || code == 0xed || code == 0xf1 || code == 0xf5
                || code == 0xf8 || code == 0xf9 || code == 0xfd,
        ensures
            final(self).wf(),
            r is Ok && !spec_explicit_pc(code, old(self).status) ==> final(self).program_counter
                == old(self).program_counter,
            spec_always_ok(code) ==> r is Ok,
            r matches Ok(extra) ==> extra <= 2,
            exec_arith_rel(code, entry, *old(self), *final(self), r),
    {
        let mut extra: u8 = 0;

        match code {
            /* CLC */
            0x18 => {
                self.status = set_flag(self.status, FLAG_CARRY, false);
            },
            /* CLD */
            0xd8 => {
                self.status = set_flag(self.status, FLAG_DECIMAL_MODE, false);
            },
            /* CLI */
            0x58 => {
                self.status = set_flag(self.status, FLAG_INTERRUPT_DISABLE, false);
            },
            /* CLV */
            0xb8 => {
                self.status = set_flag(self.status, FLAG_OVERFLOW, false);
            },
            /* SEC */
            0x38 => {
                self.status = set_flag(self.status, FLAG_CARRY, true);
            },
            /* SED */
            0xf8 => {
                self.status = set_flag(self.status, FLAG_DECIMAL_MODE, true);
            },
            /* SEI */
            0x78 => {
                self.status = set_flag(self.status, FLAG_INTERRUPT_DISABLE, true);
            },
            /* PHA */
            0x48 => {
                let a = self.register_a;
                self.stack_push(a);
            },
            /* PHP: the pushed byte carries BREAK and bit 5 */
            0x08 => {
                let flags = set_flag(set_flag(self.status, FLAG_BREAK, true), FLAG_BREAK2, true);
                self.stack_push(flags);
            },
            /* PLA */
            0x68 => {
                self.pla();
            },
            /* PLP */
            0x28 => {
                self.plp();
            },
            /* ADC */
            0x69 | 0x65 | 0x75 | 0x6d | 0x7d | 0x79 | 0x61 | 0x71 => {
                let (addr, cross) = match self.get_operand_address(&entry.mode) {
                    Ok(t) => t,
                    Err(e) => {
                        return Err(e);
                    },
                };
                let v = match self.bus.mem_read(addr) {
                    Ok(b) => b,
                    Err(e) => {
                        return Err(e);
                    },
                };
                self.adc_value(v);
                if cross && entry.page_penalty {
                    extra = 1;
                }
            },
            /* SBC */
            0xe9 | 0xe5 | 0xf5 | 0xed | 0xfd | 0xf9 | 0xe1 | 0xf1 | 0xeb => {
                let (addr, cross) = match self.get_operand_address(&entry.mode) {
                    Ok(t) => t,
                    Err(e) => {
                        return Err(e);
                    },
                };
                let v = match self.bus.mem_read(addr) {
                    Ok(b) => b,
                    Err(e) => {
                        return Err(e);
                    },
                };
                self.sbc_value(v);
                if cross && entry.page_penalty {
                    extra = 1;
                }
            },
            /* AND */
            0x29 | 0x25 | 0x35 | 0x2d | 0x3d | 0x39 | 0x21 | 0x31 => {
                let (addr, cross) = match self.get_operand_address(&entry.mode) {
                    Ok(t) => t,
                    Err(e) => {
                        return Err(e);
                    },
                };
                let v = match self.bus.mem_read(addr) {
                    Ok(b) => b,
                    Err(e) => {
                        return Err(e);
                    },
                };
                self.and_value(v);
                if cross && entry.page_penalty {
                    extra = 1;
                }
            },
            /* EOR */
            0x49 | 0x45 | 0x55 | 0x4d | 0x5d | 0x59 | 0x41 | 0x51 => {
                let (addr, cross) = match self.get_operand_address(&entry.mode) {
                    Ok(t) => t,
                    Err(e) => {
                        return Err(e);
                    },
                };
                let v = match self.bus.mem_read(addr) {
                    Ok(b) => b,
                    Err(e) => {
                        return Err(e);
                    },
                };
                self.eor_value(v);
                if cross && entry.page_penalty {
                    extra = 1;
                }
            },
            /* ORA */
            0x09 | 0x05 | 0x15 | 0x0d | 0x1d | 0x19 | 0x01 | 0x11 => {
                let (addr, cross) = match self.get_operand_address(&entry.mode) {
                    Ok(t) => t,
                    Err(e) => {
                        return Err(e);
                    },
                };
                let v = match self.bus.mem_read(addr) {
                    Ok(b) => b,
                    Err(e) => {
                        return Err(e);
                    },
                };
                self.ora_value(v);
                if cross && entry.page_penalty {
                    extra = 1;
                }
            },
            _ => {
                // the dispatcher routes only the codes named above here
                proof {
                    assert(false);
                }
            },
        }
        Ok(extra)
    }

    /// Loads, stores, compares, the bit test, register transfers and
    /// steps, and the immediate-mode undocumented instructions.
    #[verifier::rlimit(100)]
    #[verifier::spinoff_prover]
    fn execute_load_store(&mut self, code: u8, entry: OpCode) -> (r: Result<u8, EmuError>)
        requires
            old(self).wf(),
            opcode_lookup(code) == Some(entry),
            code == 0x0b || code == 0x24 || code == 0x2c || code == 0x4b || code == 0x6b
                || code == 0x81 || code == 0x83 || code == 0x84 || code == 0x85
                || code == 0x86 || code == 0x87 || code == 0x88 || code == 0x8a
                || code == 0x8c || code == 0x8d || code == 0x8e || code == 0x8f
                || code == 0x91 || code == 0x94 || code == 0x95 || code == 0x96
                || code == 0x97 || code == 0x98 || code == 0x99 || code == 0x9a
                || code == 0x9d || code == 0xa0 || code == 0xa1 || code == 0xa2
                || code == 0xa3 || code == 0xa4 || code == 0xa5 || code == 0xa6
                || code == 0xa7 || code == 0xa8 || code == 0xa9 || code == 0xaa
                || code == 0xac || code == 0xad || code == 0xae || code == 0xaf
                || code == 0xb1 || code == 0xb3 || code == 0xb4 || code == 0xb5
                || code == 0xb6 || code == 0xb7 || code == 0xb9 || code == 0xba
                || code == 0xbc || code == 0xbd || code == 0xbe || code == 0xbf
                || code == 0xc0 || code == 0xc1 || code == 0xc4 || code == 0xc5
                || code == 0xc8 || code == 0xc9 || code == 0xca || code == 0xcb
                || code == 0xcc || code == 0xcd || code == 0xd1 || code == 0xd5
                || code == 0xd9 || code == 0xdd || code == 0xe0 || code == 0xe4
                || code == 0xe8 || code == 0xec,
        ensures
            final(self).wf(),
            r is Ok && !spec_explicit_pc(code, old(self).status) ==> final(self).program_counter
                == old(self).program_counter,
            spec_always_ok(code) ==> r is Ok,
            r matches Ok(extra) ==> extra <= 2,
            exec_load_store_rel(code, entry, *old(self), *final(self), r),
    {
        let mut extra: u8 = 0;

        match code {
            /* LDA */
            0xa9 | 0xa5 | 0xb5 | 0xad | 0xbd | 0xb9 | 0xa1 | 0xb1 => {
                let (addr, cross) = match self.get_operand_address(&entry.mode) {
                    Ok(t) => t,
                    Err(e) => {
                        return Err(e);
                    },
                };
                let v = match self.bus.mem_read(addr) {
                    Ok(b) => b,
                    Err(e) => {
                        return Err(e);
                    },
                };
                self.lda_value(v);
                if cross && entry.page_penalty {
                    extra = 1;
                }
            },
            /* LDX */
            0xa2 | 0xa6 | 0xb6 | 0xae | 0xbe => {
                let (addr, cross) = match self.get_operand_address(&entry.mode) {
                    Ok(t) => t,
                    Err(e) => {
                        return Err(e);
                    },
                };
                let v = match self.bus.mem_read(addr) {
                    Ok(b) => b,
                    Err(e) => {
                        return Err(e);
                    },
                };
                self.ldx_value(v);
                if cross && entry.page_penalty {
                    extra = 1;
                }
            },
            /* LDY */
            0xa0 | 0xa4 | 0xb4 | 0xac | 0xbc => {
                let (addr, cross) = match self.get_operand_address(&entry.mode) {
                    Ok(t) => t,
                    Err(e) => {
                        return Err(e);
                    },
                };
                let v = match self.bus.mem_read(addr) {
                    Ok(b) => b,
                    Err(e) => {
                        return Err(e);
                    },
                };
                self.ldy_value(v);
                if cross && entry.page_penalty {
                    extra = 1;
                }
            },
            /* LAX */
            0xa7 | 0xb7 | 0xaf | 0xbf | 0xa3 | 0xb3 => {
                let (addr, cross) = match self.get_operand_address(&entry.mode) {
                    Ok(t) => t,
                    Err(e) => {
                        return Err(e);
                    },
                };
                let v = match self.bus.mem_read(addr) {
                    Ok(b) => b,
                    Err(e) => {
                        return Err(e);
                    },
                };
                self.lax_value(v);
                if cross && entry.page_penalty {
                    extra = 1;
                }
            },
            /* CMP */
            0xc9 | 0xc5 | 0xd5 | 0xcd | 0xdd | 0xd9 | 0xc1 | 0xd1 => {
                let (addr, cross) = match self.get_operand_address(&entry.mode) {
                    Ok(t) => t,
                    Err(e) => {
                        return Err(e);
                    },
                };
                let v = match self.bus.mem_read(addr) {
                    Ok(b) => b,
                    Err(e) => {
                        return Err(e);
                    },
                };
                let a = self.register_a;
                self.compare_value(a, v);
                if cross && entry.page_penalty {
                    extra = 1;
                }
            },
            /* CPX */
            0xe0 | 0xe4 | 0xec => {
                let (addr, _) = match self.get_operand_address(&entry.mode) {
                    Ok(t) => t,
                    Err(e) => {
                        return Err(e);
                    },
                };
                let v = match self.bus.mem_read(addr) {
                    Ok(b) => b,
                    Err(e) => {
                        return Err(e);
                    },
                };
                let x = self.register_x;
                self.compare_value(x, v);
            },
            /* CPY */
            0xc0 | 0xc4 | 0xcc => {
                let (addr, _) = match self.get_operand_address(&entry.mode) {
                    Ok(t) => t,
                    Err(e) => {
                        return Err(e);
                    },
                };
                let v = match self.bus.mem_read(addr) {
                    Ok(b) => b,
                    Err(e) => {
                        return Err(e);
                    },
                };
                let y = self.register_y;
                self.compare_value(y, v);
            },
            /* BIT */
            0x24 | 0x2c => {
                let (addr, _) = match self.get_operand_address(&entry.mode) {
                    Ok(t) => t,
                    Err(e) => {
                        return Err(e);
                    },
                };
                let v = match self.bus.mem_read(addr) {
                    Ok(b) => b,
                    Err(e) => {
                        return Err(e);
                    },
                };
                self.bit_value(v);
            },
            /* ANC */
            0x0b => {
                let (addr, _) = match self.get_operand_address(&entry.mode) {
                    Ok(t) => t,
                    Err(e) => {
                        return Err(e);
                    },
                };
                let v = match self.bus.mem_read(addr) {
                    Ok(b) => b,
                    Err(e) => {
                        return Err(e);
                    },
                };
                self.anc_value(v);
            },
            /* ALR: AND then LSR on A */
            0x4b => {
                let (addr, _) = match self.get_operand_address(&entry.mode) {
                    Ok(t) => t,
                    Err(e) => {
                        return Err(e);
                    },
                };
                let v = match self.bus.mem_read(addr) {
                    Ok(b) => b,
                    Err(e) => {
                        return Err(e);
                    },
                };
                self.and_value(v);
                self.lsr_accumulator();
            },
            /* ARR */
            0x6b => {
                let (addr, _) = match self.get_operand_address(&entry.mode) {
                    Ok(t) => t,
                    Err(e) => {
                        return Err(e);
                    },
                };
                let v = match self.bus.mem_read(addr) {
                    Ok(b) => b,
                    Err(e) => {
                        return Err(e);
                    },
                };
                self.arr_value(v);
            },
            /* AXS */
            0xcb => {
                let (addr, _) = match self.get_operand_address(&entry.mode) {
                    Ok(t) => t,
                    Err(e) => {
                        return Err(e);
                    },
                };
                let v = match self.bus.mem_read(addr) {
                    Ok(b) => b,
                    Err(e) => {
                        return Err(e);
                    },
                };
                self.axs_value(v);
            },
            /* STA */
            0x85 | 0x95 | 0x8d | 0x9d | 0x99 | 0x81 | 0x91 => {
                let (addr, _) = match self.get_operand_address(&entry.mode) {
                    Ok(t) => t,
                    Err(e) => {
                        return Err(e);
                    },
                };
                let a = self.register_a;
                match self.bus.mem_write(addr, a) {
                    Ok(_) => {},
                    Err(e) => {
                        return Err(e);
                    },
                }
            },
            /* STX */
            0x86 | 0x96 | 0x8e => {
                let (addr, _) = match self.get_operand_address(&entry.mode) {
                    Ok(t) => t,
                    Err(e) => {
                        return Err(e);
                    },
                };
                let x = self.register_x;
                match self.bus.mem_write(addr, x) {
                    Ok(_) => {},
                    Err(e) => {
                        return Err(e);
                    },
                }
            },
            /* STY */
            0x84 | 0x94 | 0x8c => {
                let (addr, _) = match self.get_operand_address(&entry.mode) {
                    Ok(t) => t,
                    Err(e) => {
                        return Err(e);
                    },
                };
                let y = self.register_y;
                match self.bus.mem_write(addr, y) {
                    Ok(_) => {},
                    Err(e) => {
                        return Err(e);
                    },
                }
            },
            /* SAX: store A & X, no flags */
            0x87 | 0x97 | 0x8f | 0x83 => {
                let (addr, _) = match self.get_operand_address(&entry.mode) {
                    Ok(t) => t,
                    Err(e) => {
                        return Err(e);
                    },
                };
                let v = self.register_a & self.register_x;
                match self.bus.mem_write(addr, v) {
                    Ok(_) => {},
                    Err(e) => {
                        return Err(e);
                    },
                }
            },
            /* TXA */
            0x8a => {
                self.txa();
            },
            /* TAX */
            0xaa => {
                self.tax();
            },
            /* TAY */
            0xa8 => {
                self.tay();
            },
            /* TSX */
            0xba => {
                self.tsx();
            },
            /* TXS */
            0x9a => {
                self.txs();
            },
            /* TYA */
            0x98 => {
                self.tya();
            },
            /* INX */
            0xe8 => {
                self.inx();
            },
            /* INY */
            0xc8 => {
                self.iny();
            },
            /* DEX */
            0xca => {
                self.dex();
            },
            /* DEY */
            0x88 => {
                self.dey();
            },
            _ => {
                // the dispatcher routes only the codes named above here
                proof {
                    assert(false);
                }
            },
        }
        Ok(extra)
    }

    /// Shifts, rotates, memory increments, and the combined read-modify-write encodings.
    #[verifier::rlimit(100)]
    #[verifier::spinoff_prover]
    fn execute_shift(&mut self, code: u8, entry: OpCode) -> (r: Result<u8, EmuError>)
        requires
            old(self).wf(),
            opcode_lookup(code) == Some(entry),
            code == 0x03 || code == 0x06 || code == 0x07 || code == 0x0a || code == 0x0e
                || code == 0x0f || code == 0x13 || code == 0x16 || code == 0x17
                || code == 0x1b || code == 0x1e || code == 0x1f || code == 0x23
                || code == 0x26 || code == 0x27 || code == 0x2a || code == 0x2e
                || code == 0x2f || code == 0x33 || code == 0x36 || code == 0x37
                || code == 0x3b || code == 0x3e || code == 0x3f || code == 0x43
                || code == 0x46 || code == 0x47 || code == 0x4a || code == 0x4e
                || code == 0x4f || code == 0x53 || code == 0x56 || code == 0x57
                || code == 0x5b || code == 0x5e || code == 0x5f || code == 0x63
                || code == 0x66 || code == 0x67 || code == 0x6a || code == 0x6e
                || code == 0x6f || code == 0x73 || code == 0x76 || code == 0x77
                || code == 0x7b || code == 0x7e || code == 0x7f || code == 0xc3
                || code == 0xc6 || code == 0xc7 || code == 0xce || code == 0xcf
                || code == 0xd3 || code == 0xd6 || code == 0xd7 || code == 0xdb
                || code == 0xde || code == 0xdf || code == 0xe3 || code == 0xe6
                || code == 0xe7 || code == 0xee || code == 0xef || code == 0xf3
                || code == 0xf6 || code == 0xf7 || code == 0xfb || code == 0xfe
                || code == 0xff,
        ensures
            final(self).wf(),
            r is Ok && !spec_explicit_pc(code, old(self).status) ==> final(self).program_counter
                == old(self).program_counter,
            spec_always_ok(code) ==> r is Ok,
            r matches Ok(extra) ==> extra <= 2,
            exec_shift_rel(code, entry, *old(self), *final(self), r),
    {
        let mut extra: u8 = 0;

        match code {
            /* ASL */
            0x0a => {
                self.asl_accumulator();
            },
            0x06 | 0x16 | 0x0e | 0x1e => {
                let (addr, _) = match self.get_operand_address(&entry.mode) {
                    Ok(t) => t,
                    Err(e) => {
                        return Err(e);
                    },
                };
                let v = match self.bus.mem_read(addr) {
                    Ok(b) => b,
                    Err(e) => {
                        return Err(e);
                    },
                };
                let w = self.asl_value(v);
                match self.bus.mem_write(addr, w) {
                    Ok(_) => {},
                    Err(e) => {
                        return Err(e);
                    },
                }
            },
            /* LSR */
            0x4a => {
                self.lsr_accumulator();
            },
            0x46 | 0x56 | 0x4e | 0x5e => {
                let (addr, _) = match self.get_operand_address(&entry.mode) {
                    Ok(t) => t,
                    Err(e) => {
                        return Err(e);
                    },
                };
                let v = match self.bus.mem_read(addr) {
                    Ok(b) => b,
                    Err(e) => {
                        return Err(e);
                    },
                };
                let w = self.lsr_value(v);
                match self.bus.mem_write(addr, w) {
                    Ok(_) => {},
                    Err(e) => {
                        return Err(e);
                    },
                }
            },
            /* ROL */
            0x2a => {
                self.rol_accumulator();
            },
            0x26 | 0x36 | 0x2e | 0x3e => {
                let (addr, _) = match self.get_operand_address(&entry.mode) {
                    Ok(t) => t,
                    Err(e) => {
                        return Err(e);
                    },
                };
                let v = match self.bus.mem_read(addr) {
                    Ok(b) => b,
                    Err(e) => {
                        return Err(e);
                    },
                };
                let w = self.rol_value(v);
                match self.bus.mem_write(addr, w) {
                    Ok(_) => {},
                    Err(e) => {
                        return Err(e);
                    },
                }
            },
            /* ROR */
            0x6a => {
                self.ror_accumulator();
            },
            0x66 | 0x76 | 0x6e | 0x7e => {
                let (addr, _) = match self.get_operand_address(&entry.mode) {
                    Ok(t) => t,
                    Err(e) => {
                        return Err(e);
                    },
                };
                let v = match self.bus.mem_read(addr) {
                    Ok(b) => b,
                    Err(e) => {
                        return Err(e);
                    },
                };
                let w = self.ror_value(v);
                match self.bus.mem_write(addr, w) {
                    Ok(_) => {},
                    Err(e) => {
                        return Err(e);
                    },
                }
            },
            /* INC */
            0xe6 | 0xf6 | 0xee | 0xfe => {
                let (addr, _) = match self.get_operand_address(&entry.mode) {
                    Ok(t) => t,
                    Err(e) => {
                        return Err(e);
                    },
                };
                let v = match self.bus.mem_read(addr) {
                    Ok(b) => b,
                    Err(e) => {
                        return Err(e);
                    },
                };
                let w = self.inc_value(v);
                match self.bus.mem_write(addr, w) {
                    Ok(_) => {},
                    Err(e) => {
                        return Err(e);
                    },
                }
            },
            /* DEC */
            0xc6 | 0xd6 | 0xce | 0xde => {
                let (addr, _) = match self.get_operand_address(&entry.mode) {
                    Ok(t) => t,
                    Err(e) => {
                        return Err(e);
                    },
                };
                let v = match self.bus.mem_read(addr) {
                    Ok(b) => b,
                    Err(e) => {
                        return Err(e);
                    },
                };
                let w = self.dec_value(v);
                match self.bus.mem_write(addr, w) {
                    Ok(_) => {},
                    Err(e) => {
                        return Err(e);
                    },
                }
            },
            /* DCP: DEC then CMP */
            0xc7 | 0xd7 | 0xcf | 0xdf | 0xdb | 0xc3 | 0xd3 => {
                let (addr, _) = match self.get_operand_address(&entry.mode) {
                    Ok(t) => t,
                    Err(e) => {
                        return Err(e);
                    },
                };
                let v = match self.bus.mem_read(addr) {
                    Ok(b) => b,
                    Err(e) => {
                        return Err(e);
                    },
                };
                let w = self.dec_value(v);
                match self.bus.mem_write(addr, w) {
                    Ok(_) => {},
                    Err(e) => {
                        return Err(e);
                    },
                }
                let a = self.register_a;
                self.compare_value(a, w);
            },
            /* ISB: INC then SBC */
            0xe7 | 0xf7 | 0xef | 0xff | 0xfb | 0xe3 | 0xf3 => {
                let (addr, _) = match self.get_operand_address(&entry.mode) {
                    Ok(t) => t,
                    Err(e) => {
                        return Err(e);
                    },
                };
                let v = match self.bus.mem_read(addr) {
                    Ok(b) => b,
                    Err(e) => {
                        return Err(e);
                    },
                };
                let w = self.inc_value(v);
                match self.bus.mem_write(addr, w) {
                    Ok(_) => {},
                    Err(e) => {
                        return Err(e);
                    },
                }
                self.sbc_value(w);
            },
            /* RLA: ROL then AND */
            0x27 | 0x37 | 0x2f | 0x3f | 0x3b | 0x23 | 0x33 => {
                let (addr, _) = match self.get_operand_address(&entry.mode) {
                    Ok(t) => t,
                    Err(e) => {
                        return Err(e);
                    },
                };
                let v = match self.bus.mem_read(addr) {
                    Ok(b) => b,
                    Err(e) => {
                        return Err(e);
                    },
                };
                let w = self.rol_value(v);
                match self.bus.mem_write(addr, w) {
                    Ok(_) => {},
                    Err(e) => {
                        return Err(e);
                    },
                }
                self.and_value(w);
            },
            /* RRA: ROR then ADC */
            0x67 | 0x77 | 0x6f | 0x7f | 0x7b | 0x63 | 0x73 => {
                let (addr, _) = match self.get_operand_address(&entry.mode) {
                    Ok(t) => t,
                    Err(e) => {
                        return Err(e);
                    },
                };
                let v = match self.bus.mem_read(addr) {
                    Ok(b) => b,
                    Err(e) => {
                        return Err(e);
                    },
                };
                let w = self.ror_value(v);
                match self.bus.mem_write(addr, w) {
                    Ok(_) => {},
                    Err(e) => {
                        return Err(e);
                    },
                }
                self.adc_value(w);
            },
            /* SLO: ASL then ORA */
            0x07 | 0x17 | 0x0f | 0x1f | 0x1b | 0x03 | 0x13 => {
                let (addr, _) = match self.get_operand_address(&entry.mode) {
                    Ok(t) => t,
                    Err(e) => {
                        return Err(e);
                    },
                };
                let v = match self.bus.mem_read(addr) {
                    Ok(b) => b,
                    Err(e) => {
                        return Err(e);
                    },
                };
                let w = self.asl_value(v);
                match self.bus.mem_write(addr, w) {
                    Ok(_) => {},
                    Err(e) => {
                        return Err(e);
                    },
                }
                self.ora_value(w);
            },
            /* SRE: LSR then EOR */
            0x47 | 0x57 | 0x4f | 0x5f | 0x5b | 0x43 | 0x53 => {
                let (addr, _) = match self.get_operand_address(&entry.mode) {
                    Ok(t) => t,
                    Err(e) => {
                        return Err(e);
                    },
                };
                let v = match self.bus.mem_read(addr) {
                    Ok(b) => b,
                    Err(e) => {
                        return Err(e);
                    },
                };
                let w = self.lsr_value(v);
                match self.bus.mem_write(addr, w) {
                    Ok(_) => {},
                    Err(e) => {
                        return Err(e);
                    },
                }
                self.eor_value(w);
            },
            _ => {
                // the dispatcher routes only the codes named above here
                proof {
                    assert(false);
                }
            },
        }
        Ok(extra)
    }

    /// Branches, jumps, subroutine linkage, interrupts and the idle encodings.
    #[verifier::rlimit(100)]
    #[verifier::spinoff_prover]
    fn execute_control(&mut self, code: u8, entry: OpCode) -> (r: Result<u8, EmuError>)
        requires
            old(self).wf(),
            opcode_lookup(code) == Some(entry),
            code == 0x00 || code == 0x02 || code == 0x04 || code == 0x0c || code == 0x10
                || code == 0x12 || code == 0x14 || code == 0x1a || code == 0x1c
                || code == 0x20 || code == 0x22 || code == 0x30 || code == 0x32
                || code == 0x34 || code == 0x3a || code == 0x3c || code == 0x40
                || code == 0x42 || code == 0x44 || code == 0x4c || code == 0x50
                || code == 0x52 || code == 0x54 || code == 0x5a || code == 0x5c
                || code == 0x60 || code == 0x62 || code == 0x64 || code == 0x6c
                || code == 0x70 || code == 0x72 || code == 0x74 || code == 0x7a
                || code == 0x7c || code == 0x90 || code == 0x92 || code == 0xb0
                || code == 0xb2 || code == 0xd0 || code == 0xd2 || code == 0xd4
                || code == 0xda || code == 0xdc || code == 0xea || code == 0xf0
                || code == 0xf2 || code == 0xf4 || code == 0xfa || code == 0xfc,
        ensures
            final(self).wf(),
            r is Ok && !spec_explicit_pc(code, old(self).status) ==> final(self).program_counter
                == old(self).program_counter,
            spec_always_ok(code) ==> r is Ok,
            r matches Ok(extra) ==> extra <= 2,
            exec_control_rel(code, entry, *old(self), *final(self), r),
    {
        let mut extra: u8 = 0;

        match code {
            /* BCC */
            0x90 => {
                let cond = self.status & FLAG_CARRY == 0;
                extra = match self.branch(cond) {
                    Ok(x) => x,
                    Err(e) => {
                        return Err(e);
                    },
                };
            },
            /* BCS */
            0xb0 => {
                let cond = self.status & FLAG_CARRY != 0;
                extra = match self.branch(cond) {
                    Ok(x) => x,
                    Err(e) => {
                        return Err(e);
                    },
                };
            },
            /* BEQ */
            0xf0 => {
                let cond = self.status & FLAG_ZERO != 0;
                extra = match self.branch(cond) {
                    Ok(x) => x,
                    Err(e) => {
                        return Err(e);
                    },
                };
            },
            /* BNE */
            0xd0 => {
                let cond = self.status & FLAG_ZERO == 0;
                extra = match self.branch(cond) {
                    Ok(x) => x,
                    Err(e) => {
                        return Err(e);
                    },
                };
            },
            /* BMI */
            0x30 => {
                let cond = self.status & FLAG_NEGATIVE != 0;
                extra = match self.branch(cond) {
                    Ok(x) => x,
                    Err(e) => {
                        return Err(e);
                    },
                };
            },
            /* BPL */
            0x10 => {
                let cond = self.status & FLAG_NEGATIVE == 0;
                extra = match self.branch(cond) {
                    Ok(x) => x,
                    Err(e) => {
                        return Err(e);
                    },
                };
            },
            /* BVC */
            0x50 => {
                let cond = self.status & FLAG_OVERFLOW == 0;
                extra = match self.branch(cond) {
                    Ok(x) => x,
                    Err(e) => {
                        return Err(e);
                    },
                };
            },
            /* BVS */
            0x70 => {
                let cond = self.status & FLAG_OVERFLOW != 0;
                extra = match self.branch(cond) {
                    Ok(x) => x,
                    Err(e) => {
                        return Err(e);
                    },
                };
            },
            /* JMP */
            0x4c => {
                match self.jmp_absolute() {
                    Ok(_) => {},
                    Err(e) => {
                        return Err(e);
                    },
                }
            },
            0x6c => {
                match self.jump_indirect() {
                    Ok(_) => {},
                    Err(e) => {
                        return Err(e);
                    },
                }
            },
            /* JSR */
            0x20 => {
                match self.jsr() {
                    Ok(_) => {},
                    Err(e) => {
                        return Err(e);
                    },
                }
            },
            /* RTS */
            0x60 => {
                self.rts();
            },
            /* RTI */
            0x40 => {
                self.rti();
            },
            /* NOP, and the halt encodings treated as NOP */
            0xea | 0x02 | 0x12 | 0x22 | 0x32 | 0x42 | 0x52 | 0x62 | 0x72 | 0x92 | 0xb2 | 0xd2
                | 0xf2 | 0x1a | 0x3a | 0x5a | 0x7a | 0xda | 0xfa => {},
            /* NOP with an operand: the read still happens and still pays */
            0x04 | 0x44 | 0x64 | 0x14 | 0x34 | 0x54 | 0x74 | 0xd4 | 0xf4 | 0x0c | 0x1c | 0x3c
                | 0x5c | 0x7c | 0xdc | 0xfc => {
                let (addr, cross) = match self.get_operand_address(&entry.mode) {
                    Ok(t) => t,
                    Err(e) => {
                        return Err(e);
                    },
                };
                match self.bus.mem_read(addr) {
                    Ok(_) => {},
                    Err(e) => {
                        return Err(e);
                    },
                }
                if cross && entry.page_penalty {
                    extra = 1;
                }
            },
            /* BRK */
            0x00 => {
                self.interrupt_brk();
            },
            _ => {
                // the dispatcher routes only the codes named above here
                proof {
                    assert(false);
                }
            },
        }
        Ok(extra)
    }
}


/// The NMI poll that opens a scheduler turn: the latch is taken, nothing
/// else moves.
pub open spec fn polled_rel(pre: CPU, q: CPU) -> bool {
    &&& regs_unchanged(pre, q)
    &&& q.bus.cpu_vram@ == pre.bus.cpu_vram@
    &&& q.bus.prg_rom@ == pre.bus.prg_rom@
    &&& q.bus.cycles == pre.bus.cycles
    &&& q.bus.joypad1 == pre.bus.joypad1
    &&& q.bus.frame_event == pre.bus.frame_event
    &&& crate::ppu::same_storage(pre.bus.ppu, q.bus.ppu)
    &&& crate::ppu::same_ports(pre.bus.ppu, q.bus.ppu)
    &&& crate::ppu::same_timing(pre.bus.ppu, q.bus.ppu)
    &&& q.bus.ppu.nmi_interrupt is None
}

/// What servicing an NMI does: PC and the status byte (BREAK clear,
/// bit 5 set) pushed, interrupt-disable raised, two cycles burned,
/// control through the vector at $FFFA.
pub open spec fn nmi_serviced_rel(pre: CPU, post: CPU) -> bool {
    &&& post.register_a == pre.register_a
    &&& post.register_x == pre.register_x
    &&& post.register_y == pre.register_y
    &&& post.status == with_flag(pre.status, FLAG_INTERRUPT_DISABLE, true)
    &&& post.stack_pointer == pre.stack_pointer.wrapping_sub(3)
    &&& post.program_counter == peek16(pre.bus, 0xfffa)
    &&& post.bus.cpu_vram@ == pre.bus.cpu_vram@.update(
        STACK_BASE + pre.stack_pointer,
        (pre.program_counter / 256) as u8,
    ).update(
        STACK_BASE + pre.stack_pointer.wrapping_sub(1),
        (pre.program_counter % 256) as u8,
    ).update(
        STACK_BASE + pre.stack_pointer.wrapping_sub(2),
        with_flag(with_flag(pre.status, FLAG_BREAK, false), FLAG_BREAK2, true),
    )
    &&& post.bus.prg_rom@ == pre.bus.prg_rom@
    &&& post.bus.cycles == pre.bus.cycles.wrapping_add(2)
    &&& post.bus.joypad1 == pre.bus.joypad1
    &&& ppu_ticked_rel(pre.bus.ppu, post.bus.ppu, 6)
    &&& post.bus.frame_event == (pre.bus.frame_event || (!(pre.bus.ppu.nmi_interrupt is Some)
        && post.bus.ppu.nmi_interrupt is Some))
}

/// One scheduler turn: the NMI latch is polled and a pending NMI
/// serviced, then one instruction runs.
pub open spec fn turn_rel(pre: CPU, post: CPU, r: Result<(), EmuError>) -> bool {
    if pre.bus.ppu.nmi_interrupt is Some {
        exists|polled: CPU, mid: CPU|
            #![trigger polled_rel(pre, polled), nmi_serviced_rel(polled, mid)]
            {
                &&& polled_rel(pre, polled)
                &&& nmi_serviced_rel(polled, mid)
                &&& instr_rel(mid, post, r)
            }
    } else {
        exists|polled: CPU| #[trigger] polled_rel(pre, polled) && instr_rel(polled, post, r)
    }
}

/// What the host may do between turns: take the frame event and press or
/// release joypad buttons; the machine itself stands.
pub open spec fn host_rel(a: CPU, b: CPU) -> bool {
    &&& regs_unchanged(a, b)
    &&& b.bus.cpu_vram@ == a.bus.cpu_vram@
    &&& b.bus.prg_rom@ == a.bus.prg_rom@
    &&& b.bus.cycles == a.bus.cycles
    &&& ppu_identical(a.bus.ppu, b.bus.ppu)
    &&& b.bus.frame_event == false
}

/// A successful scheduler turn.
pub open spec fn turn_ok(a: CPU, b: CPU) -> bool {
    turn_rel(a, b, Ok::<(), EmuError>(()))
}

/// A successful scheduler turn followed by the host's frame handling.
pub open spec fn turn_host_rel(a: CPU, b: CPU) -> bool {
    exists|m: CPU| #[trigger] turn_ok(a, m) && host_rel(m, b)
}

/// Each adjacent pair of states is one successful turn with its host
/// handling.
pub open spec fn chain_ok(states: Seq<CPU>) -> bool {
    forall|i: int|
        0 <= i < states.len() - 1 ==> #[trigger] turn_host_rel(states[i], states[i + 1])
}

/// `n` successful scheduler turns, each followed by the host's frame
/// handling, lead from `pre` to `post`: a chain of n+1 machine states
/// joins them.
pub open spec fn reach_rel(pre: CPU, post: CPU, n: nat) -> bool {
    exists|states: Seq<CPU>|
        {
            &&& #[trigger] chain_ok(states)
            &&& states.len() == n + 1
            &&& states[0] == pre
            &&& states[n as int] == post
        }
}



/// The host side of the run loop: a trace hook called before every
/// fetch, and the per-frame callback that receives a view of the PPU and
/// the joypad to press.
pub trait TraceSink {
    fn trace(&mut self, cpu: &CPU);

    fn frame(&mut self, ppu: &MyPPU, joypad: &mut Joypad);
}

/// A host that records nothing and presses nothing.
pub struct NoTrace;

impl TraceSink for NoTrace {
    fn trace(&mut self, _cpu: &CPU) {
    }

    fn frame(&mut self, _ppu: &MyPPU, _joypad: &mut Joypad) {
    }
}

impl CPU {
    /// One scheduler turn: services a pending NMI, then runs one
    /// instruction (`turn_rel`). With no NMI pending, the turn is exactly
    /// one instruction: an unknown opcode byte aborts, and a handler that
    /// does not set PC leaves it advanced by the table length.
    pub fn step(&mut self) -> (r: Result<(), EmuError>)
        requires
            old(self).wf(),
        ensures
            final(self).wf(),
            turn_rel(*old(self), *final(self), r),
            old(self).bus.ppu.nmi_interrupt is None && peekable(old(self).program_counter)
                ==> ({
                let code = peek(old(self).bus, old(self).program_counter);
                match opcode_lookup(code) {
                    None => r == Err::<(), EmuError>(EmuError::IllegalOpcode(code)),
                    Some(op) => {
                        &&& (r is Ok && !spec_explicit_pc(code, old(self).status)) ==> final(self).program_counter == old(self).program_counter.wrapping_add(op.len as u16)
                        &&& spec_always_ok(code) ==> r is Ok
                    },
                }
            }),
    {
        let pending = self.bus.poll_nmi_status();
        let ghost polled = *self;
        if pending.is_some() {
            self.interrupt(InterruptType::NMI);
        }
        let ghost after_nmi = *self;
        let r = self.step_instruction();
        proof {
            assert(polled_rel(*old(self), polled));
            if old(self).bus.ppu.nmi_interrupt is Some {
                assert(nmi_serviced_rel(polled, after_nmi));
                assert(instr_rel(after_nmi, *self, r));
            } else {
                assert(instr_rel(polled, *self, r));
            }
        }
        r
    }

    /// Runs instructions until a fatal error or until the step budget is
    /// spent; returns the error if one stopped the run. A `None` result
    /// means the budget was spent on successful turns (`reach_rel`); an
    /// error pins the failing turn.
    pub fn run(&mut self, max_instructions: u64) -> (r: Option<EmuError>)
        requires
            old(self).wf(),
        ensures
            final(self).wf(),
            max_instructions == 0 ==> *final(self) == *old(self) && r is None,
            r is None ==> reach_rel(*old(self), *final(self), max_instructions as nat),
            r matches Some(e) ==> exists|k: nat, m: CPU|
                {
                    &&& k < max_instructions
                    &&& #[trigger] reach_rel(*old(self), m, k)
                    &&& turn_rel(m, *final(self), Err::<(), EmuError>(e))
                },
    {
        let mut sink = NoTrace;
        self.run_with_callback(&mut sink, max_instructions)
    }

    /// Like `run`, but drives the host: a pending NMI is serviced first,
    /// the sink sees the CPU before each fetch, and after each instruction
    /// a latched frame event is delivered to the sink with the PPU view
    /// and the joypad.
    #[verifier::rlimit(100)]
    #[verifier::spinoff_prover]
    pub fn run_with_callback<S: TraceSink>(&mut self, callback: &mut S, max_instructions: u64) -> (r:
        Option<EmuError>)
        requires
            old(self).wf(),
        ensures
            final(self).wf(),
            max_instructions == 0 ==> *final(self) == *old(self) && r is None,
            r is None ==> reach_rel(*old(self), *final(self), max_instructions as nat),
            r matches Some(e) ==> exists|k: nat, m: CPU|
                {
                    &&& k < max_instructions
                    &&& #[trigger] reach_rel(*old(self), m, k)
                    &&& turn_rel(m, *final(self), Err::<(), EmuError>(e))
                },
    {
        let mut remaining = max_instructions;
        let ghost mut states: Seq<CPU> = seq![*old(self)];
        while remaining > 0
            invariant
                self.wf(),
                remaining <= max_instructions,
                max_instructions == 0 ==> *self == *old(self),
                states.len() == (max_instructions - remaining) + 1,
                states[0] == *old(self),
                states.last() == *self,
                chain_ok(states),
            decreases remaining,
        {
            let ghost turn_start = *self;
            let ghost steps_done = (max_instructions - remaining) as nat;
            match self.run_turn(callback) {
                Ok(_) => {},
                Err(e) => {
                    proof {
                        assert(states[steps_done as int] == turn_start);
                        assert(reach_rel(*old(self), turn_start, steps_done));
                    }
                    return Some(e);
                },
            }
            proof {
                assert(turn_host_rel(turn_start, *self));
                let prior = states;
                states = states.push(*self);
                assert forall|i: int| 0 <= i < states.len() - 1 implies #[trigger] turn_host_rel(
                    states[i],
                    states[i + 1],
                ) by {
                    if i < prior.len() - 1 {
                        assert(states[i] == prior[i]);
                        assert(states[i + 1] == prior[i + 1]);
                    } else {
                        assert(states[i] == turn_start);
                        assert(states[i + 1] == *self);
                    }
                }
            }
            remaining = remaining - 1;
        }
        proof {
            assert(states[max_instructions as int] == *self);
            assert(reach_rel(*old(self), *self, max_instructions as nat));
        }
        None
    }

    /// One iteration of the run loop: NMI service, the trace hook, one
    /// instruction, and frame delivery to the host.
    #[verifier::rlimit(100)]
    #[verifier::spinoff_prover]
    fn run_turn<S: TraceSink>(&mut self, callback: &mut S) -> (r: Result<(), EmuError>)
        requires
            old(self).wf(),
        ensures
            final(self).wf(),
            r is Ok ==> turn_host_rel(*old(self), *final(self)),
            r matches Err(e) ==> turn_rel(*old(self), *final(self), Err::<(), EmuError>(e)),
    {
        let pending = self.bus.poll_nmi_status();
        let ghost polled = *self;
        if pending.is_some() {
            self.interrupt(InterruptType::NMI);
        }
        let ghost after_nmi = *self;
        callback.trace(&*self);
        let sres = self.step_instruction();
        let ghost after_instr = *self;
        proof {
            assert(polled_rel(*old(self), polled));
            if old(self).bus.ppu.nmi_interrupt is Some {
                assert(nmi_serviced_rel(polled, after_nmi));
                assert(instr_rel(after_nmi, after_instr, sres));
            } else {
                assert(instr_rel(polled, after_instr, sres));
            }
            assert(turn_rel(*old(self), after_instr, sres));
        }
        match sres {
            Ok(u) => {
                proof {
                    assert(u == ());
                    assert(sres == Ok::<(), EmuError>(u));
                }
            },
            Err(e) => {
                return Err(e);
            },
        }
        if self.bus.poll_frame_event() {
            callback.frame(&self.bus.ppu, &mut self.bus.joypad1);
        }
        proof {
            assert(turn_ok(*old(self), after_instr));
            assert(host_rel(after_instr, *self));
        }
        Ok(())
    }
}

/// A memory-mapped address space of 16-bit addresses and byte cells.
pub trait Mem {
    /// The invariant the accesses preserve.
    spec fn inv(&self) -> bool;

    fn mem_read(&mut self, addr: u16) -> (r: Result<u8, EmuError>)
        requires
            old(self).inv(),
        ensures
            final(self).inv(),
    ;

    fn mem_write(&mut self, addr: u16, data: u8) -> (r: Result<(), EmuError>)
        requires
            old(self).inv(),
        ensures
            final(self).inv(),
    ;

    fn mem_read_u16(&mut self, pos: u16) -> (r: Result<u16, EmuError>)
        requires
            old(self).inv(),
        ensures
            final(self).inv(),
    ;

    fn mem_write_u16(&mut self, pos: u16, data: u16) -> (r: Result<(), EmuError>)
        requires
            old(self).inv(),
        ensures
            final(self).inv(),
    ;
}

impl Mem for Bus {
    open spec fn inv(&self) -> bool {
        self.wf()
    }

    fn mem_read(&mut self, addr: u16) -> (r: Result<u8, EmuError>) {
        Bus::mem_read(self, addr)
    }

    fn mem_write(&mut self, addr: u16, data: u8) -> (r: Result<(), EmuError>) {
        Bus::mem_write(self, addr, data)
    }

    fn mem_read_u16(&mut self, pos: u16) -> (r: Result<u16, EmuError>) {
        Bus::mem_read_u16(self, pos)
    }

    fn mem_write_u16(&mut self, pos: u16, data: u16) -> (r: Result<(), EmuError>) {
        Bus::mem_write_u16(self, pos, data)
    }
}

impl Mem for CPU {
    open spec fn inv(&self) -> bool {
        self.wf()
    }

    fn mem_read(&mut self, addr: u16) -> (r: Result<u8, EmuError>) {
        self.bus.mem_read(addr)
    }

    fn mem_write(&mut self, addr: u16, data: u8) -> (r: Result<(), EmuError>) {
        self.bus.mem_write(addr, data)
    }

    fn mem_read_u16(&mut self, pos: u16) -> (r: Result<u16, EmuError>) {
        self.bus.mem_read_u16(pos)
    }

    fn mem_write_u16(&mut self, pos: u16, data: u16) -> (r: Result<(), EmuError>) {
        self.bus.mem_write_u16(pos, data)
    }
}

/// The stack pointer and program counter stay inside their register
/// ranges after every step: SP is one byte, PC sixteen bits.
pub proof fn lemma_sp_pc_in_range(cpu: CPU)
    ensures
        0 <= cpu.stack_pointer as int <= 255,
        0 <= cpu.program_counter as int <= 65535,
{
}

/// Stack round trip: for any starting state and any byte, a push
/// followed by a pop returns the byte and restores the stack pointer.
pub proof fn lemma_stack_push_pop_round_trip(c0: CPU, c1: CPU, c2: CPU, b: u8, v: u8)
    requires
        c0.bus.cpu_vram@.len() == 2048,
        stack_push_rel(c0, c1, b),
        stack_pop_rel(c1, c2, v),
    ensures
        v == b,
        c2.stack_pointer == c0.stack_pointer,
{
}

/// 16-bit stack round trip: for any starting state and any word, a
/// 16-bit push (high byte then low) followed by a 16-bit pop (low byte
/// then high) returns the word exactly and restores the stack pointer.
pub proof fn lemma_stack_push16_pop16_round_trip(c0: CPU, c1: CPU, c2: CPU, x: u16, v: u16)
    requires
        c0.bus.cpu_vram@.len() == 2048,
        stack_push16_rel(c0, c1, x),
        stack_pop16_rel(c1, c2, v),
    ensures
        v == x,
        c2.stack_pointer == c0.stack_pointer,
{
    assert(c0.stack_pointer.wrapping_sub(1) != c0.stack_pointer);
    assert(x as int == (x as int / 256) * 256 + x as int % 256);
}

} // verus!
