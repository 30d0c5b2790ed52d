use six502::cpu::Six502;
use six502::rom::{Mirroring, Rom, RomError, TVFormat};

fn header(prg: u8, chr: u8, f6: u8, f7: u8) -> Vec<u8> {
    vec![0x4E, 0x45, 0x53, 0x1A, prg, chr, f6, f7, 2, 1, 0, 0, 0, 0, 0, 0]
}

#[test]
fn header_fields() {
    let h = Rom::load_hdr(&header(2, 1, 0x11, 0x20)).unwrap();
    assert_eq!(h.prg_rom_size, 0x8000);
    assert_eq!(h.chr_rom_size, 0x2000);
    assert_eq!(h.prg_ram_size, 0x4000);
    assert_eq!(h.mapper, 0x21);
    assert_eq!(h.flags_6.bits, 0x01);
    assert_eq!(h.flags_6.mirroring(), Mirroring::Vertical);
    assert_eq!(h.tv_format, TVFormat::Pal);
}

#[test]
fn header_errors() {
    assert_eq!(Rom::load_hdr(&[0x4E, 0x45]).err(), Some(RomError::Truncated));
    let mut bad = header(1, 0, 0, 0);
    bad[3] = 0x1B;
    assert_eq!(Rom::load_hdr(&bad).err(), Some(RomError::BadMagic));
    assert_eq!(Rom::load_hdr(&header(1, 0, 0, 0x08)).err(), Some(RomError::NotINes1));
    let mut pad = header(1, 0, 0, 0);
    pad[15] = 1;
    assert_eq!(Rom::load_hdr(&pad).err(), Some(RomError::NonZeroPadding));
    let h = Rom::load_hdr(&header(1, 0, 0, 0x04)).unwrap();
    assert_eq!(h.flags_6.mirroring(), Mirroring::Horizontal);
    assert_eq!(h.tv_format, TVFormat::Pal);
}

#[test]
fn image_with_trainer() {
    let mut img = header(1, 1, 0x04, 0);
    img.extend(std::iter::repeat(0xAA).take(512));
    img.extend((0..0x4000u32).map(|i| (i % 251) as u8));
    img.extend(std::iter::repeat(0xCC).take(0x2000));
    let rom = Rom::load_rom(&img).unwrap();
    assert_eq!(rom.trainer.as_ref().map(|t| t.len()), Some(512));
    assert_eq!(rom.prg_rom.len(), 0x4000);
    assert_eq!(rom.prg_rom[250], 250);
    assert_eq!(rom.chr_rom.len(), 0x2000);
    assert_eq!(rom.chr_rom[0], 0xCC);
}

#[test]
fn image_truncated() {
    let mut img = header(1, 0, 0, 0);
    img.extend(std::iter::repeat(0).take(100));
    assert_eq!(Rom::load_rom(&img).err(), Some(RomError::Truncated));
}

#[test]
fn nrom_cartridge_runs_from_reset() {
    let mut img = header(1, 0, 0, 0);
    let mut prg = vec![0u8; 0x4000];
    prg[0] = 0xA9;
    prg[1] = 0x42;
    prg[0x3FFC] = 0x00;
    prg[0x3FFD] = 0xC0;
    img.extend(prg);
    let rom = Rom::load_rom(&img).unwrap();
    let mut cpu = Six502::new();
    cpu.insert_cartridge(&rom).unwrap();
    assert_eq!(cpu.bus.peek_u8(0x8000), 0xA9);
    assert_eq!(cpu.bus.peek_u8(0xC000), 0xA9);
    cpu.reset();
    assert_eq!(cpu.pc, 0xC000);
    cpu.step();
    assert_eq!(cpu.a, 0x42);
}

#[test]
fn cartridge_refusals() {
    let mut img = header(1, 0, 0x10, 0);
    img.extend(vec![0u8; 0x4000]);
    let rom = Rom::load_rom(&img).unwrap();
    let mut cpu = Six502::new();
    assert_eq!(cpu.insert_cartridge(&rom), Err(RomError::UnsupportedMapper));
    let mut img = header(0, 0, 0, 0);
    img.extend(vec![0u8; 16]);
    let rom = Rom::load_rom(&img).unwrap();
    assert_eq!(cpu.insert_cartridge(&rom), Err(RomError::BadPrgSize));
}
