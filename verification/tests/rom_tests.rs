use nesrs::cpu_bus::CpuBus;
use nesrs::bus::Bus;
use nesrs::rom::{Mirroring, RomError, ROM};

fn create_test_rom() -> Vec<u8> {
    let mut rom = vec![0; 16 + 32768 + 8192]; // header + 32 KiB PRG + 8 KiB CHR
    rom[0..4].copy_from_slice(b"NES\x1A");
    rom[4] = 2; // 2 * 16 KiB PRG ROM
    rom[5] = 1; // 1 * 8 KiB CHR ROM
    rom[6] = 0; // mapper 0, horizontal mirroring
    rom[7] = 0; // mapper 0 (upper bits)

    for i in 0..32768 {
        rom[16 + i] = (i % 256) as u8;
    }

    for i in 0..8192 {
        rom[16 + 32768 + i] = (i % 256) as u8;
    }

    rom
}

#[test]
fn test_rom_loading() {
    let test_data = create_test_rom();
    let rom = ROM::from_nes_file(&test_data).unwrap();

    assert_eq!(rom.prg_rom.len(), 32768);
    assert_eq!(rom.chr_rom.len(), 8192);
    assert_eq!(rom.mapper, 0);
    assert_eq!(rom.mirroring, Mirroring::Horizontal);
    assert_eq!(rom.battery, false);
}

#[test]
fn test_invalid_rom_header() {
    let mut bad_data = create_test_rom();
    bad_data[0] = b'X';

    let result = ROM::from_nes_file(&bad_data);
    assert!(result.is_err());
    assert_eq!(result.unwrap_err().message(), "Invalid NES header");
}

#[test]
fn test_prg_rom_reading() {
    let test_data = create_test_rom();
    let rom = ROM::from_nes_file(&test_data).unwrap();

    assert_eq!(rom.read_prg(0x8000), test_data[16]);

    assert_eq!(rom.read_prg(0xbfff), test_data[16 + 0x3fff]);

    assert_eq!(rom.read_prg(0xc000), test_data[16 + 0x4000]);
}

#[test]
fn test_prg_rom_mirroring() {
    let mut test_data = create_test_rom();
    test_data[4] = 1; // 1 * 16 KiB PRG ROM
    let rom = ROM::from_nes_file(&test_data).unwrap();

    assert_eq!(rom.read_prg(0x8000), rom.read_prg(0xc000));
    assert_eq!(rom.read_prg(0x9fff), rom.read_prg(0xdfff));
}

#[test]
fn test_sram_operations() {
    let test_data = create_test_rom();
    let mut rom = ROM::from_nes_file(&test_data).unwrap();
    rom.battery = true;

    rom.write_sram(0x6000, 0x42);
    assert_eq!(rom.read_sram(0x6000), 0x42);

    rom.write_sram(0x7fff, 0xff);
    assert_eq!(rom.read_sram(0x7fff), 0xff);
}

#[test]
fn test_battery_backed_ram() {
    let mut test_data = create_test_rom();
    test_data[6] |= 0x02;
    let mut rom = ROM::from_nes_file(&test_data).unwrap();

    assert!(rom.battery);

    rom.write_sram(0x6000, 0x42);
    assert_eq!(rom.read_sram(0x6000), 0x42);
}

#[test]
fn unsupported_mapper_is_reported() {
    let mut data = create_test_rom();
    data[7] = 0x10; // mapper 1 in the high nibble
    let result = ROM::from_nes_file(&data);
    assert_eq!(result.unwrap_err(), RomError::UnsupportedMapper(0x10));
}

#[test]
fn trainer_segment_is_rejected() {
    let mut data = create_test_rom();
    data[6] |= 0x04;
    let result = ROM::from_nes_file(&data);
    assert_eq!(result.unwrap_err(), RomError::InvalidHeader);
}

#[test]
fn truncated_image_is_rejected() {
    let data = vec![0x4e, 0x45, 0x53, 0x1a, 2, 1, 0, 0];
    let result = ROM::from_nes_file(&data);
    assert_eq!(result.unwrap_err(), RomError::InvalidHeader);
}

#[test]
fn sram_through_the_bus_round_trips() {
    let mut data = create_test_rom();
    data[6] |= 0x02; // battery
    let rom = ROM::from_nes_file(&data).unwrap();
    let mut bus = Bus::new(rom);
    bus.write(0x6123, 0x5a);
    assert_eq!(bus.read(0x6123), 0x5a);
}

#[test]
fn bus_ram_region_mirrors_every_2k() {
    let rom = ROM::from_nes_file(&create_test_rom()).unwrap();
    let mut bus = Bus::new(rom);
    bus.write(0x0000, 0x42);
    assert_eq!(bus.read(0x0800), 0x42);
    assert_eq!(bus.read(0x1000), 0x42);
    assert_eq!(bus.read(0x1800), 0x42);
    bus.write(0x1fff, 0x24);
    assert_eq!(bus.read(0x07ff), 0x24);
}

#[test]
fn bus_tick_advances_ppu_three_dots_per_cycle() {
    let rom = ROM::from_nes_file(&create_test_rom()).unwrap();
    let mut bus = Bus::new(rom);
    bus.tick(10u16);
    assert_eq!(bus.cycles, 10);
    assert_eq!(bus.ppu.cycles, 30);
    assert_eq!(bus.ppu.scanline, -1);
}

#[test]
fn bus_tick_latches_the_vblank_nmi_edge() {
    let rom = ROM::from_nes_file(&create_test_rom()).unwrap();
    let mut bus = Bus::new(rom);
    // the edge sits at scanline 241 dot 1, which is dot 82523 of the frame
    bus.tick(27507u16);
    assert_eq!(bus.nmi_interrupt, None);
    bus.tick(1u16);
    assert_eq!(bus.nmi_interrupt, Some(0xff));
    assert_eq!(bus.fetch_nmi(), Some(0xff));
    assert_eq!(bus.nmi_interrupt, None);
}
