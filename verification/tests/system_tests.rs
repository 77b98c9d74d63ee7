use nes_core::bus::Bus;
use nes_core::cart::Rom;
use nes_core::cpu::{AddressingMode, TraceSink, CPU, FLAG_INTERRUPT_DISABLE};
use nes_core::joypad::Joypad;
use nes_core::ppu::MyPPU;

/// An NROM image with the reset vector at $0600 and the NMI vector at
/// $0700.
fn nrom_image() -> Vec<u8> {
    let mut image = vec![0u8; 16 + 0x8000 + 0x2000];
    image[0] = 0x4E;
    image[1] = 0x45;
    image[2] = 0x53;
    image[3] = 0x1A;
    image[4] = 0x02;
    image[5] = 0x01;
    image[16 + 0x7FFA] = 0x00;
    image[16 + 0x7FFB] = 0x07;
    image[16 + 0x7FFC] = 0x00;
    image[16 + 0x7FFD] = 0x06;
    image
}

fn cpu_with_program(program: Vec<u8>) -> CPU {
    let rom = Rom::new(&nrom_image()).unwrap();
    let bus = Bus::new(rom).unwrap();
    let mut cpu = CPU::new(bus);
    cpu.load(program);
    cpu.reset();
    cpu
}

#[test]
fn reset_reads_the_reset_vector() {
    let cpu = cpu_with_program(vec![0xea]);
    assert_eq!(cpu.program_counter, 0x0600);
    assert_eq!(cpu.stack_pointer, 0xfd);
    assert_eq!(cpu.register_a, 0);
    assert_eq!(cpu.status, 0b0010_0100);
}

#[test]
fn pending_nmi_is_serviced_before_the_fetch() {
    let mut cpu = cpu_with_program(vec![0xa9, 0x01, 0x00]);
    cpu.bus.mem_write(0x0700, 0xa9).unwrap(); // the NMI handler: LDA #$33
    cpu.bus.mem_write(0x0701, 0x33).unwrap();
    cpu.bus.ppu.nmi_interrupt = Some(1);
    cpu.step().unwrap();
    assert_eq!(cpu.register_a, 0x33);
    assert_eq!(cpu.program_counter, 0x0702);
    assert_eq!(cpu.stack_pointer, 0xfd - 3);
    assert_ne!(cpu.status & FLAG_INTERRUPT_DISABLE, 0);
}

#[test]
fn frame_event_rises_with_the_nmi_edge() {
    let mut cpu = cpu_with_program(vec![0xea]);
    cpu.bus.mem_write(0x2000, 0b1000_0000).unwrap(); // NMI enable
    cpu.bus.ppu.scanline = 240;
    cpu.bus.tick(114); // 342 dots: past the start of vblank
    assert!(cpu.bus.poll_frame_event());
    assert!(!cpu.bus.poll_frame_event());
    assert_eq!(cpu.bus.poll_nmi_status(), Some(1));
    assert_eq!(cpu.bus.poll_nmi_status(), None);
}

struct CountingSink {
    seen: Vec<u16>,
}

impl TraceSink for CountingSink {
    fn trace(&mut self, cpu: &CPU) {
        self.seen.push(cpu.program_counter);
    }

    fn frame(&mut self, _ppu: &MyPPU, _joypad: &mut Joypad) {
    }
}

#[test]
fn run_with_callback_traces_each_fetch() {
    let mut cpu = cpu_with_program(vec![0xa9, 0x05, 0xaa, 0xe8, 0xea, 0xea]);
    let mut sink = CountingSink { seen: Vec::new() };
    let r = cpu.run_with_callback(&mut sink, 4);
    assert!(r.is_none());
    assert_eq!(sink.seen, vec![0x0600, 0x0602, 0x0603, 0x0604]);
    assert_eq!(cpu.register_x, 6);
}

#[test]
fn indirect_x_resolution_reads_the_zero_page_pointer() {
    let mut cpu = cpu_with_program(vec![0xea]);
    cpu.register_x = 0x04;
    cpu.bus.mem_write(0x0020, 0x10).unwrap(); // operand byte
    cpu.bus.mem_write(0x0014, 0x78).unwrap(); // ($10 + X) -> pointer low
    cpu.bus.mem_write(0x0015, 0x56).unwrap(); // pointer high
    let (addr, cross) = cpu
        .get_stored_value_address(&AddressingMode::Indirect_X, 0x0020)
        .unwrap();
    assert_eq!(addr, 0x5678);
    assert!(!cross);
}

#[test]
fn indirect_y_resolution_reports_page_crossing() {
    let mut cpu = cpu_with_program(vec![0xea]);
    cpu.register_y = 0x10;
    cpu.bus.mem_write(0x0020, 0x40).unwrap(); // operand byte: zp $40
    cpu.bus.mem_write(0x0040, 0xf8).unwrap(); // pointer low
    cpu.bus.mem_write(0x0041, 0x12).unwrap(); // pointer high
    let (addr, cross) = cpu
        .get_stored_value_address(&AddressingMode::Indirect_Y, 0x0020)
        .unwrap();
    assert_eq!(addr, 0x1308); // $12F8 + $10 crossed into the next page
    assert!(cross);
}

#[test]
fn bus_reads_sixteen_bits_little_endian() {
    let mut cpu = cpu_with_program(vec![0xea]);
    cpu.bus.mem_write(0x0300, 0xcd).unwrap();
    cpu.bus.mem_write(0x0301, 0xab).unwrap();
    assert_eq!(cpu.bus.mem_read_u16(0x0300).unwrap(), 0xabcd);
    cpu.bus.mem_write_u16(0x0310, 0x1234).unwrap();
    assert_eq!(cpu.bus.mem_read(0x0310).unwrap(), 0x34);
    assert_eq!(cpu.bus.mem_read(0x0311).unwrap(), 0x12);
}

#[test]
fn scroll_port_fills_x_then_y_through_the_shared_latch() {
    let mut cpu = cpu_with_program(vec![0xea]);
    cpu.bus.mem_read(0x2002).unwrap(); // reset the latch
    cpu.bus.mem_write(0x2005, 0x21).unwrap();
    cpu.bus.mem_write(0x2005, 0x43).unwrap();
    assert_eq!(cpu.bus.ppu.scroll.scroll_x, 0x21);
    assert_eq!(cpu.bus.ppu.scroll.scroll_y, 0x43);
}

#[test]
fn joypad_port_strobes_and_shifts_through_the_bus() {
    let mut cpu = cpu_with_program(vec![0xea]);
    cpu.bus
        .joypad1
        .set_button_pressed(nes_core::joypad::JoypadButton::B, true);
    cpu.bus.mem_write(0x4016, 1).unwrap();
    cpu.bus.mem_write(0x4016, 0).unwrap();
    assert_eq!(cpu.bus.mem_read(0x4016).unwrap(), 0); // A
    assert_eq!(cpu.bus.mem_read(0x4016).unwrap(), 1); // B
}
