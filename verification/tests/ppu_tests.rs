use nes_core::bus::Bus;
use nes_core::cart::{Mirroring, Rom};
use nes_core::ppu::MyPPU;
use nes_core::EmuError;

fn nrom_bus() -> Bus {
    let mut image = vec![0u8; 16 + 0x8000 + 0x2000];
    image[0] = 0x4E;
    image[1] = 0x45;
    image[2] = 0x53;
    image[3] = 0x1A;
    image[4] = 0x02;
    image[5] = 0x01;
    let rom = Rom::new(&image).unwrap();
    Bus::new(rom).unwrap()
}

#[test]
fn vblank_begins_on_scanline_241_and_raises_one_nmi() {
    let mut ppu = MyPPU::new_empty_rom();
    ppu.write_to_ctrl(0b1000_0000); // NMI enable
    ppu.scanline = 240;
    let frame = ppu.tick(341);
    assert!(!frame);
    let frame = ppu.tick(1);
    assert!(!frame);
    assert_eq!(ppu.scanline, 241);
    assert!(ppu.status.is_in_vblank());
    assert_eq!(ppu.poll_nmi_interrupt(), Some(1));
    assert_eq!(ppu.poll_nmi_interrupt(), None);
}

#[test]
fn frame_wrap_clears_vblank_and_the_nmi_latch() {
    let mut ppu = MyPPU::new_empty_rom();
    ppu.write_to_ctrl(0b1000_0000);
    ppu.scanline = 240;
    ppu.tick(341); // into 241: vblank, NMI latched
    let mut frame = false;
    for _ in 0..21 {
        frame = ppu.tick(341);
    }
    assert!(frame); // passed scanline 261
    assert_eq!(ppu.scanline, 0);
    assert!(!ppu.status.is_in_vblank());
    assert_eq!(ppu.poll_nmi_interrupt(), None);
}

#[test]
fn nmi_latches_when_enable_rises_during_vblank() {
    let mut ppu = MyPPU::new_empty_rom();
    ppu.scanline = 240;
    ppu.tick(341); // vblank begins, NMI disabled: nothing latched
    assert!(ppu.status.is_in_vblank());
    assert_eq!(ppu.poll_nmi_interrupt(), None);
    ppu.write_to_ctrl(0b1000_0000); // 0 -> 1 while vblank is set
    assert_eq!(ppu.poll_nmi_interrupt(), Some(1));
}

#[test]
fn data_reads_are_buffered_by_one() {
    let mut chr = vec![0u8; 0x2000];
    chr[0] = 0x42;
    chr[1] = 0x99;
    let mut ppu = MyPPU::new(chr, Mirroring::HORIZONTAL);
    ppu.write_to_ppu_addr(0x00);
    ppu.write_to_ppu_addr(0x00);
    let first = ppu.read_data().unwrap();
    let second = ppu.read_data().unwrap();
    let third = ppu.read_data().unwrap();
    assert_eq!(first, 0x00); // the buffer's initial contents
    assert_eq!(second, 0x42); // the byte originally at $0000
    assert_eq!(third, 0x99);
}

#[test]
fn palette_reads_skip_the_buffer() {
    let mut ppu = MyPPU::new_empty_rom();
    ppu.write_to_ppu_addr(0x3f);
    ppu.write_to_ppu_addr(0x01);
    ppu.write_to_data(0x2a).unwrap();
    ppu.write_to_ppu_addr(0x3f);
    ppu.write_to_ppu_addr(0x01);
    assert_eq!(ppu.read_data().unwrap(), 0x2a);
}

#[test]
fn palette_mirrors_fold_onto_the_base_cells() {
    let mut ppu = MyPPU::new_empty_rom();
    ppu.write_to_ppu_addr(0x3f);
    ppu.write_to_ppu_addr(0x10);
    ppu.write_to_data(0x31).unwrap();
    ppu.write_to_ppu_addr(0x3f);
    ppu.write_to_ppu_addr(0x00);
    assert_eq!(ppu.read_data().unwrap(), 0x31);

    ppu.write_to_ppu_addr(0x3f);
    ppu.write_to_ppu_addr(0x04);
    ppu.write_to_data(0x17).unwrap();
    ppu.write_to_ppu_addr(0x3f);
    ppu.write_to_ppu_addr(0x14);
    assert_eq!(ppu.read_data().unwrap(), 0x17);
}

#[test]
fn address_latch_resets_on_status_read() {
    let mut ppu = MyPPU::new_empty_rom();
    ppu.write_to_ppu_addr(0x21); // high
    ppu.read_status(); // resets the shared latch
    ppu.write_to_ppu_addr(0x23); // high again
    ppu.write_to_ppu_addr(0x05); // low
    assert_eq!(ppu.addr.get(), 0x2305);
    // after a full pair the next write is the high byte once more
    ppu.write_to_ppu_addr(0x2a);
    ppu.write_to_ppu_addr(0x01);
    assert_eq!(ppu.addr.get(), 0x2a01);
}

#[test]
fn status_read_clears_vblank() {
    let mut ppu = MyPPU::new_empty_rom();
    ppu.scanline = 240;
    ppu.tick(341);
    assert!(ppu.status.is_in_vblank());
    let snapshot = ppu.read_status();
    assert_ne!(snapshot & 0b1000_0000, 0);
    assert!(!ppu.status.is_in_vblank());
}

#[test]
fn vram_writes_honor_vertical_mirroring() {
    let mut ppu = MyPPU::new(vec![0u8; 0x2000], Mirroring::VERTICAL);
    // $2005 and $2805 share a cell under vertical mirroring
    assert_eq!(ppu.mirror_vram_addr(0x2005), ppu.mirror_vram_addr(0x2805));
    // $2405 and $2005 do not
    assert_ne!(ppu.mirror_vram_addr(0x2405), ppu.mirror_vram_addr(0x2005));

    ppu.write_to_ppu_addr(0x28);
    ppu.write_to_ppu_addr(0x05);
    ppu.write_to_data(0x66).unwrap();
    assert_eq!(ppu.vram[0x0005], 0x66);
}

#[test]
fn vram_writes_honor_horizontal_mirroring() {
    let mut ppu = MyPPU::new(vec![0u8; 0x2000], Mirroring::HORIZONTAL);
    assert_eq!(ppu.mirror_vram_addr(0x2405), ppu.mirror_vram_addr(0x2005));
    assert_eq!(ppu.mirror_vram_addr(0x2c05), ppu.mirror_vram_addr(0x2805));
    assert_ne!(ppu.mirror_vram_addr(0x2805), ppu.mirror_vram_addr(0x2005));
}

#[test]
fn reads_between_3000_and_3eff_are_unreachable() {
    let mut ppu = MyPPU::new_empty_rom();
    ppu.write_to_ppu_addr(0x30);
    ppu.write_to_ppu_addr(0x00);
    assert_eq!(ppu.read_data(), Err(EmuError::UnreachableVram(0x3000)));
    ppu.write_to_ppu_addr(0x31);
    ppu.write_to_ppu_addr(0x50);
    assert_eq!(ppu.write_to_data(0x11), Err(EmuError::UnreachableVram(0x3150)));
}

#[test]
fn data_port_increment_follows_the_control_bit() {
    let mut ppu = MyPPU::new_empty_rom();
    ppu.write_to_ctrl(0b0000_0100); // step 32
    ppu.write_to_ppu_addr(0x20);
    ppu.write_to_ppu_addr(0x00);
    ppu.write_to_data(0x01).unwrap();
    assert_eq!(ppu.addr.get(), 0x2020);
    ppu.write_to_ctrl(0b0000_0000); // step 1
    ppu.write_to_data(0x02).unwrap();
    assert_eq!(ppu.addr.get(), 0x2021);
}

#[test]
fn oam_port_writes_and_reads_with_auto_increment() {
    let mut ppu = MyPPU::new_empty_rom();
    ppu.write_to_oam_addr(0x10);
    ppu.write_to_oam_data(0xaa);
    ppu.write_to_oam_data(0xbb);
    ppu.write_to_oam_addr(0x10);
    assert_eq!(ppu.read_oam_data(), 0xaa);
    ppu.write_to_oam_addr(0x11);
    assert_eq!(ppu.read_oam_data(), 0xbb);
}

#[test]
fn oam_dma_copies_a_page_with_wrap() {
    let mut ppu = MyPPU::new_empty_rom();
    let mut page = Vec::new();
    for i in 0..256 {
        page.push(i as u8);
    }
    ppu.write_to_oam_addr(0xfe);
    ppu.write_oam_dma(&page);
    assert_eq!(ppu.oam_data[0xfe], 0);
    assert_eq!(ppu.oam_data[0xff], 1);
    assert_eq!(ppu.oam_data[0x00], 2);
    assert_eq!(ppu.oam_addr, 0xfe);
}

#[test]
fn bus_mirrors_work_ram_every_0x800() {
    let mut bus = nrom_bus();
    bus.mem_write(0x0000, 7).unwrap();
    assert_eq!(bus.mem_read(0x0800).unwrap(), 7);
    assert_eq!(bus.mem_read(0x1000).unwrap(), 7);
    assert_eq!(bus.mem_read(0x1800).unwrap(), 7);
    bus.mem_write(0x1805, 9).unwrap();
    assert_eq!(bus.mem_read(0x0005).unwrap(), 9);
}

#[test]
fn bus_mirrors_ppu_ports_every_eight() {
    let mut bus = nrom_bus();
    // $2006 mirrored at $3FFE, $2007 at $3FFF
    bus.mem_write(0x3ffe, 0x3f).unwrap();
    bus.mem_write(0x3ffe, 0x00).unwrap();
    bus.mem_write(0x3fff, 0x2c).unwrap();
    bus.mem_write(0x2006, 0x3f).unwrap();
    bus.mem_write(0x2006, 0x00).unwrap();
    assert_eq!(bus.mem_read(0x2007).unwrap(), 0x2c);
}

#[test]
fn bus_rejects_non_nrom_mappers() {
    let rom = nes_core::cart::test_rom(); // mapper 3
    assert!(matches!(Bus::new(rom), Err(EmuError::UnsupportedMapper(3))));
}

#[test]
fn bus_write_only_ports_read_zero_and_apu_is_stubbed() {
    let mut bus = nrom_bus();
    assert_eq!(bus.mem_read(0x2000).unwrap(), 0);
    assert_eq!(bus.mem_read(0x2005).unwrap(), 0);
    assert_eq!(bus.mem_read(0x4000).unwrap(), 0);
    assert_eq!(bus.mem_read(0x4015).unwrap(), 0);
    assert_eq!(bus.mem_read(0x4017).unwrap(), 0);
    bus.mem_write(0x4000, 0xff).unwrap(); // dropped
    bus.mem_write(0x2002, 0xff).unwrap(); // status is read-only: dropped
}

#[test]
fn oam_dma_through_the_bus_copies_a_ram_page() {
    let mut bus = nrom_bus();
    for i in 0..256u16 {
        bus.mem_write(0x0200 + i, (255 - i) as u8).unwrap();
    }
    bus.mem_write(0x4014, 0x02).unwrap();
    assert_eq!(bus.ppu.oam_data[0], 255);
    assert_eq!(bus.ppu.oam_data[255], 0);
}

#[test]
fn bus_tick_runs_three_dots_per_cpu_cycle() {
    let mut bus = nrom_bus();
    bus.tick(10);
    assert_eq!(bus.ppu.cycles, 30);
    assert_eq!(bus.cycles, 10);
}
