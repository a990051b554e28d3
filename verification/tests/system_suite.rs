use genesis_plus_rs::chips::detect::detect_chip;
use genesis_plus_rs::chips::paprium::{
    is_paprium_area, is_paprium_io, request_track, track_file, PapriumAsic, PapriumConfig, PapriumVoice,
};
use genesis_plus_rs::chips::ChipType;
use genesis_plus_rs::crc32::calculate;
use genesis_plus_rs::eeprom::eeprom_i2c::EepromI2CType;
use genesis_plus_rs::eeprom::EepromType;
use genesis_plus_rs::mapper::mapper_common::{detect_sms_system, parse_region, SmsSystemType};
use genesis_plus_rs::mapper::sega32x::{
    create_mapper, AccessType, CartridgeError, CartridgeType, ComponentType, Standard32XMapper,
};
use genesis_plus_rs::mapper::Region;
use genesis_plus_rs::memory::cart::Cartridge;
use genesis_plus_rs::memory::sram::SaveRam;
use genesis_plus_rs::memory::MemoryError;
use genesis_plus_rs::system::sega32x_system::Sega32XCartridge;
use genesis_plus_rs::system::System;
use std::sync::Arc;

#[test]
fn crc32_of_the_check_string() {
    assert_eq!(calculate(b"123456789"), 0xCBF4_3926);
    assert_eq!(calculate(&[]), 0);
    assert_eq!(calculate(&[0]), 0xD202_EF8D);
}

#[test]
fn save_ram_answers_only_when_enabled() {
    let mut ram = SaveRam::new(16);
    assert_eq!(ram.read_byte(3), 0xFF);
    ram.write_byte(3, 0x12);
    assert!(!ram.dirty);
    ram.set_enabled(true);
    assert_eq!(ram.read_byte(3), 0);
    ram.write_byte(3, 0x12);
    assert_eq!(ram.read_byte(3), 0x12);
    assert_eq!(ram.read_byte(16 + 3), 0x12);
    assert!(ram.dirty);
    assert!(!ram.auto_save());
    ram.mark_saved("save.srm".to_string());
    assert!(!ram.dirty);
    ram.set_write_protect(true);
    ram.write_byte(3, 0x34);
    assert_eq!(ram.read_byte(3), 0x12);
    ram.set_write_protect(false);
    ram.write_byte(4, 0x56);
    assert!(ram.auto_save());
}

#[test]
fn cartridge_refuses_an_image_that_is_too_large() {
    let mut cart = Cartridge::new();
    let image = vec![0u8; 5 * 1024 * 1024 + 1];
    assert_eq!(cart.load_from_buffer(&image), Err(MemoryError::RomTooLarge));
}

#[test]
fn cartridge_reads_a_small_image_linearly() {
    let mut cart = Cartridge::new();
    let mut image = vec![0u8; 0x400];
    image[0x10] = 0xAB;
    image[0x3FF] = 0xCD;
    assert!(cart.load_from_buffer(&image).is_ok());
    assert_eq!(cart.rom_size, 0x400);
    assert_eq!(cart.rom_mask, 0x3FF);
    assert_eq!(cart.read_rom(0x10), 0xAB);
    assert_eq!(cart.read_rom(0x3FF), 0xCD);
    assert_eq!(cart.read_rom(0x400 + 0x10), 0xAB);
}

#[test]
fn decoder_of_the_32x_maps_the_windows() {
    let mapper = Standard32XMapper::new(0x10_0000);
    let rom = mapper.map_address(0x12, AccessType::Read);
    assert_eq!(rom.component, ComponentType::Rom);
    assert_eq!(rom.addr, 0x12);
    let comm = mapper.map_address(0xA1_5104, AccessType::Read);
    assert_eq!(comm.component, ComponentType::Communication);
    assert_eq!(comm.addr, 4);
    let frame = mapper.map_address(0xA1_5190, AccessType::Write);
    assert_eq!(frame.component, ComponentType::Framebuffer);
    assert_eq!(frame.addr, 0x10);
    let boot = mapper.map_address(0x40_0800, AccessType::Read);
    assert_eq!(boot.component, ComponentType::BootRom);
    assert_eq!(boot.addr, 0x800);
    assert_eq!(mapper.get_component_type(0xFF00_0000 + 0xA1_5100), ComponentType::Communication);
}

#[test]
fn decoder_of_the_32x_switches_banks_and_mode() {
    let mut mapper = Standard32XMapper::new(0x10_0000);
    assert_eq!(mapper.map_address(0x2_0010, AccessType::Read).addr, 0x2_0010);
    mapper.write_register(1, 3);
    assert_eq!(mapper.map_address(0x2_0010, AccessType::Read).addr, 0x6_0010);
    mapper.write_register(0xA1, 0x80);
    assert_eq!(mapper.map_address(0x20_0010, AccessType::Read).addr, 0x10);
    mapper.reset();
    assert_eq!(mapper.map_address(0x2_0010, AccessType::Read).addr, 0x2_0010);
    assert_eq!(mapper.map_address(0x20_0010, AccessType::Read).addr, 0x10);
}

#[test]
fn only_32x_boards_have_the_standard_decoder() {
    assert!(create_mapper(CartridgeType::Sega32XStandard, 0x1000).is_ok());
    assert!(create_mapper(CartridgeType::Sega32XROM, 0x1000).is_ok());
    assert!(create_mapper(CartridgeType::Sega32XRAM, 0x1000).is_ok());
    match create_mapper(CartridgeType::MegaDrive, 0x1000) {
        Err(e) => assert_eq!(e, CartridgeError::UnsupportedHardware(CartridgeType::MegaDrive)),
        Ok(_) => panic!("a Mega Drive board has no 32X decoder"),
    }
}

#[test]
fn cartridge_of_the_32x_needs_a_header() {
    match Sega32XCartridge::create(vec![0u8; 0xFF], None) {
        Err(e) => assert_eq!(e, CartridgeError::InvalidRom),
        Ok(_) => panic!("a ROM without a header was taken"),
    }
}

#[test]
fn cartridge_of_the_32x_reads_and_writes_its_windows() {
    let mut rom = vec![0u8; 0x1000];
    rom[0x20] = 0x12;
    rom[0x21] = 0x34;
    let mut cart = Sega32XCartridge::create(rom, Some(Region::Europe)).ok().unwrap();
    assert_eq!(cart.info().system, System::Sega32X);
    assert_eq!(cart.info().region, Region::Europe);
    assert_eq!(cart.info().rom_size, 0x1000);
    assert_eq!(cart.info().sram_size, 256 * 1024);
    assert_eq!(cart.read_byte(0x20), 0x12);
    assert_eq!(cart.read_word(0x20), 0x1234);
    assert_eq!(cart.read_word(0x21), 0x0034);
    assert!(!cart.is_32x_mode());
    assert!(cart.is_master_halted());
    cart.write_word(0xA1_5100, 0x0001);
    assert!(cart.is_32x_mode());
    assert_eq!(cart.read_word(0xA1_5100), 0x0001);
    cart.write_word(0xA1_5104, 0x0002);
    assert!(!cart.is_master_halted());
    assert!(cart.is_slave_halted());
    cart.write_word(0xA1_5180, 0xBEEF);
    assert_eq!(cart.read_word(0xA1_5180), 0xBEEF);
    assert_eq!(cart.read_byte(0xA1_5180), 0xEF);
    assert_eq!(cart.read_byte(0xA1_5181), 0xBE);
    cart.write_byte(0xA1_5181, 0x12);
    assert_eq!(cart.read_word(0xA1_5180), 0x12EF);
    assert_eq!(cart.read_byte(0x40_0000), 0xFF);
    cart.reset();
    assert!(!cart.is_32x_mode());
    assert!(cart.is_master_halted());
    assert_eq!(cart.read_word(0xA1_5180), 0);
    assert_eq!(cart.read_word(0xA1_5100), 0);
    assert!(cart.save_state().is_empty());
    assert!(cart.load_state(&[]).is_ok());
}

fn paprium_rom() -> Vec<u8> {
    let mut rom = vec![0u8; 0x2_0000];
    let packed: [u8; 10] = [0x03, 0x41, 0x42, 0x43, 0x44, 0x55, 0xC2, 0x82, 0x01, 0x00];
    for (i, b) in packed.iter().enumerate() {
        rom[0x100 + i] = *b;
    }
    rom[0x40] = 0x99;
    rom
}

#[test]
fn paprium_starts_switched_off_and_init_switches_it_on() {
    let mut asic = PapriumAsic::new(Arc::new(paprium_rom()), "roms".to_string());
    assert!(!asic.enabled);
    assert_eq!(asic.sfx_volume, 0x80);
    assert_eq!(asic.read_byte(0x40), 0);
    asic.init_with(7);
    assert!(asic.enabled);
    assert!(asic.fast_dma_hack);
    assert_eq!(asic.echo_pan, 7);
    assert_eq!(asic.music_segment, -1);
    assert_eq!(asic.read_byte(0x40), 0x99);
    assert_eq!(asic.read_word(0x192), 0x3634);
    assert_eq!(asic.read_byte(0x1D1D), 0x04);
    assert_eq!(asic.read_byte(0x1D2C), 0x67);
    assert_eq!(asic.read_word(0x1560), 0x4EF9);
    assert_eq!(asic.read_word(0x1564), 0x0100);
    assert_eq!(asic.music_ptr, 0x1_0000);
    assert_eq!(asic.sprite_ptr, 0x1_3000);
    assert_eq!(asic.read_word(0x1FE4), 0xFFBB);
    assert_eq!(asic.read_word(0x1FE6), 0xBCFF);
    assert_eq!(asic.read_word(0x1FEA), 0x7FFF);
    assert_eq!(asic.read_word(0xFFFF), 0xFFFF);
    assert_eq!(asic.read_byte(0x1_0000), 0xFF);
    assert_eq!(asic.read_byte(0x1800), 0);
}

#[test]
fn paprium_init_and_reset_pick_an_echo_side() {
    let mut asic = PapriumAsic::new(Arc::new(paprium_rom()), "roms".to_string());
    assert!(asic.init().is_ok());
    assert!(asic.echo_pan >= 0 && asic.echo_pan <= 0xFF);
    asic.write_word(0x1FEA, 0xCA10);
    assert_eq!(asic.sfx_volume, 0x10);
    asic.reset();
    assert!(asic.enabled);
    assert_eq!(asic.sfx_volume, 0x80);
    assert_eq!(asic.draw_src, 0x2000);
    assert_eq!(asic.draw_dst, 0x0200);
    assert!(asic.echo_pan >= 0 && asic.echo_pan <= 0xFF);
    let _ = asic.read_byte(0x1900);
}

#[test]
fn paprium_serves_commands_from_both_halves_of_the_register() {
    let mut asic = PapriumAsic::new(Arc::new(paprium_rom()), "roms".to_string());
    asic.init_with(0);
    asic.write_word(0x1FEA, 0xC940);
    assert_eq!(asic.music_volume, 0x40);
    assert_eq!(asic.read_byte(0x1FEA), 0x7F);
    assert_eq!(asic.read_byte(0x1FEB), 0xFF);
    asic.write_byte(0x1FEB, 0x20);
    assert_eq!(asic.read_byte(0x1FEB), 0xFF);
    asic.write_byte(0x1FEA, 0xCA);
    assert_eq!(asic.sfx_volume, 0xFF);
    asic.write_word(0x1E10, 0x1234);
    assert_eq!(asic.cmd_count, 1);
    asic.write_word(0x1FEA, 0x8D08);
    assert_eq!(asic.cmd_count, 0);
    assert_eq!(asic.music_segment, -1);
    asic.write_word(0x1FEA, 0x8803);
    assert_eq!(asic.audio_flags, 3);
    assert_eq!(asic.read_byte(0x1801), 1);
    assert_eq!(asic.byte_given(0x1800, 0x55), 0);
    assert_eq!(asic.ram[0x1800], 0xC0);
    assert_eq!(asic.byte_given(0x1900, 0x55), 0x55);
}

#[test]
fn paprium_unpacks_data_into_the_decoder_window() {
    let mut asic = PapriumAsic::new(Arc::new(paprium_rom()), "roms".to_string());
    asic.init_with(0);
    assert_eq!(asic.read_byte(0xC000), 0);
    asic.write_word(0x1E10, 0x0000);
    asic.write_word(0x1E12, 0x0000);
    asic.write_word(0x1E14, 0x0100);
    asic.write_word(0x1FEA, 0xDA05);
    assert_eq!(asic.decoder_mode, 5);
    assert_eq!(asic.decoder_size, 11);
    let expected: [u8; 11] = [0x41, 0x42, 0x43, 0x55, 0x55, 0x55, 0x55, 0x00, 0x00, 0x00, 0x00];
    for (i, b) in expected.iter().enumerate() {
        assert_eq!(asic.read_byte(0xC000 + i as u32), *b);
    }
    asic.write_word(0x1E12, 0x0002);
    asic.write_word(0x1E14, 0x0000);
    asic.write_word(0x1FEA, 0xDB00);
    assert_eq!(asic.decoder_ptr, 2);
    assert_eq!(asic.decoder_size, 0);
    assert_eq!(asic.read_byte(0xC000), 0);
}

#[test]
fn paprium_plays_an_effect_on_the_first_free_voice() {
    let mut asic = PapriumAsic::new(Arc::new(paprium_rom()), "roms".to_string());
    asic.init_with(1);
    asic.write_word(0x1E10, 0x0006);
    asic.write_word(0x1E12, 0x0100);
    asic.write_word(0x1E14, 0x0080);
    asic.write_word(0x1E16, 0x4000);
    asic.write_word(0x1FEA, 0xD102);
    assert_eq!(asic.sfx[0].size, 0);
    let voice: PapriumVoice = asic.sfx[1];
    assert_eq!(voice.num, 2);
    assert_eq!(voice.size, 1000);
    assert_eq!(voice.ptr, 2000);
    assert_eq!(voice.start, 2000);
    assert_eq!(voice.volume, 0x100);
    assert_eq!(voice.panning, 0x80);
    assert_eq!(voice.flags, 0x4000);
    assert_eq!(voice.voice_type, 1);
    assert_eq!(voice.echo, 1);
    assert_eq!(asic.echo_pan, 2);
    asic.process_audio(1);
    assert_eq!(asic.sfx[1].ptr, 2001);
    assert_eq!(asic.sfx[1].size, 999);
    assert_eq!(asic.echo_l[0], -42);
    assert_eq!(asic.echo_ptr, 1);
    asic.write_word(0x1E10, 0x0000);
    asic.write_word(0x1FEA, 0xD202);
    assert_eq!(asic.sfx[1].size, 0);
    assert_eq!(asic.sfx[1].loop_flag, 0);
}

#[test]
fn paprium_mixes_music_at_both_volumes() {
    let mut asic = PapriumAsic::new(Arc::new(paprium_rom()), "roms".to_string());
    asic.init_with(0);
    asic.write_word(0x1FEA, 0x8C81);
    assert_eq!(asic.music_track, 1);
    assert_eq!(asic.music_segment, 0);
    assert_eq!(asic.music[3].volume, 0x80);
    asic.process_audio(1);
    assert_eq!(asic.audio_tick, 1);
    assert_eq!(asic.mp3_ptr, 2);
    assert_eq!(asic.out_l, -8064);
    assert_eq!(asic.out_r, -8064);
    let (left, right) = asic.update_audio(3);
    assert_eq!(asic.audio_tick, 4);
    assert_eq!(asic.mp3_ptr, 8);
    assert_eq!(left, -7680);
    assert_eq!(right, -7680);
    assert_eq!(asic.music_section, 1);
}

#[test]
fn paprium_snapshot_round_trips() {
    let mut asic = PapriumAsic::new(Arc::new(paprium_rom()), "roms".to_string());
    asic.init_with(0);
    asic.write_word(0x1FEA, 0xC933);
    asic.write_byte(0x200, 0x77);
    let saved = asic.save_state();
    assert_eq!(saved.len(), 41 + 0x2_8000 + 34 * 16);
    assert_eq!(saved[0], 1);
    let mut other = PapriumAsic::new(Arc::new(paprium_rom()), "roms".to_string());
    assert!(!other.load_state(&saved[..100]));
    assert!(other.load_state(&saved));
    assert!(other.enabled);
    assert_eq!(other.music_volume, 0x33);
    assert_eq!(other.read_byte(0x200), 0x77);
    let mut bad = saved.clone();
    bad[9] = 0;
    bad[10] = 1;
    assert!(!other.load_state(&bad));
}

#[test]
fn paprium_answers_the_bus_in_its_area_and_at_tmss() {
    let mut asic = PapriumAsic::new(Arc::new(paprium_rom()), "roms".to_string());
    asic.init_with(0);
    assert!(is_paprium_area(0xFFFF));
    assert!(is_paprium_area(0xC0_0010));
    assert!(!is_paprium_area(0x1_0000));
    assert!(is_paprium_io(0xA1_30F5));
    assert!(is_paprium_io(0xA1_4101));
    assert!(!is_paprium_io(0xA1_4100));
    assert_eq!(asic.handle_read(0x40), 0x99);
    assert_eq!(asic.handle_read(0xC0_0040), 0x99);
    assert_eq!(asic.handle_read(0xA1_4101), 1);
    asic.handle_write(0xA1_4101, 0);
    assert_eq!(asic.handle_read(0xA1_4101), 0);
    asic.handle_write(0xC0_0300, 0x5A);
    assert_eq!(asic.handle_read(0x300), 0x5A);
    assert_eq!(asic.handle_read(0x20_0000), 0xFF);
    asic.handle_write(0xA1_30F0, 0x5A);
    assert_eq!(asic.handle_read(0xA1_30F0), 0xFF);
    assert_eq!(asic.chip_type(), ChipType::Paprium);
    asic.set_debug_mode(true);
    assert!(asic.debug_mode && asic.debug_sprite && asic.debug_cheat);
}

#[test]
fn paprium_tracks_have_their_files() {
    assert_eq!(track_file(0x39), Some("01 Theme of Paprium.mp3"));
    assert_eq!(track_file(0x17), Some("04 Drumbass Boss.mp3"));
    assert_eq!(track_file(0x08), None);
    assert_eq!(track_file(0), None);
    assert_eq!(request_track(5, 5, false), (5, None));
    assert_eq!(request_track(5, 5, true), (5, Some("31 Bad Dudes vs Paprium.mp3")));
    assert_eq!(request_track(5, 0x08, false), (0, None));
    assert_eq!(request_track(0, 0x3E, false), (0x3E, Some("52 Waterfront Beat.mp3")));
    let config = PapriumConfig::default();
    assert!(config.fast_dma_hack);
    assert_eq!(config.mp3_dir, "./paprium");
}

#[test]
fn names_are_compared_without_regard_to_case() {
    assert_eq!(parse_region("jp"), Region::JapanNTSC);
    assert_eq!(parse_region("Europe"), Region::Europe);
    assert_eq!(parse_region("pal"), Region::Europe);
    assert_eq!(parse_region("br"), Region::Brazil);
    assert_eq!(parse_region("kr"), Region::Korea);
    assert_eq!(parse_region("Asia"), Region::Taiwan);
    assert_eq!(parse_region("USAX"), Region::USA);
    assert_eq!(parse_region("japanx"), Region::USA);
    assert_eq!(parse_region("mars"), Region::USA);
    assert_eq!(detect_sms_system("GAME.GG"), SmsSystemType::GG);
    assert_eq!(detect_sms_system("game.Sg"), SmsSystemType::SG1000);
    assert_eq!(detect_sms_system("game.sc"), SmsSystemType::SG1000II);
    assert_eq!(detect_sms_system("game.bin"), SmsSystemType::SMS);
    assert_eq!(detect_sms_system("gg"), SmsSystemType::SMS);
}

#[test]
fn chip_is_told_from_the_file_name_not_the_directory() {
    let rom = vec![0u8; 0x200];
    assert_eq!(detect_chip(&rom, "TRACKS/SONG.MP3"), ChipType::Yx5200);
    assert_eq!(detect_chip(&rom, "roms/Action_Replay.bin"), ChipType::ActionReplay);
    assert_eq!(detect_chip(&rom, "roms/GAME genie.bin"), ChipType::GameGenie);
    assert_eq!(detect_chip(&rom, "paprium/sonic.bin"), ChipType::NoChip);
    assert_eq!(detect_chip(&rom, "roms/Paprium.bin"), ChipType::Paprium);
    assert_eq!(detect_chip(&rom, "game_genie/sonic.bin"), ChipType::NoChip);
}

#[test]
fn types_have_their_labels() {
    assert_eq!(ChipType::Other(0x2A).to_string(), "Other(2A)");
    assert_eq!(ChipType::Other(5).to_string(), "Other(05)");
    assert_eq!(ChipType::Paprium.to_string(), "Paprium");
    assert_eq!(EepromType::I2C(EepromI2CType::X24C01).to_string(), "I2C EEPROM (X24C01)");
    assert_eq!(EepromType::I2C(EepromI2CType::C24C512).to_string(), "I2C EEPROM (C24C512)");
}

#[test]
fn paprium_back_reference_stops_where_the_output_began() {
    let mut rom = vec![0u8; 0x2_0000];
    let packed: [u8; 6] = [0x01, 0x41, 0x82, 0x05, 0x82, 0x01];
    for (i, b) in packed.iter().enumerate() {
        rom[0x100 + i] = *b;
    }
    let mut asic = PapriumAsic::new(Arc::new(rom), "roms".to_string());
    asic.init_with(0);
    asic.decoder_ram[0] = 0x77;
    asic.decoder_ram[3] = 0x66;
    asic.write_word(0x1E10, 0x0004);
    asic.write_word(0x1E12, 0x0000);
    asic.write_word(0x1E14, 0x0100);
    asic.write_word(0x1FEA, 0xDA00);
    assert_eq!(asic.decoder_size, 5);
    assert_eq!(&asic.decoder_ram[0..10], &[0x77, 0, 0, 0x66, 0x41, 0x41, 0x41, 0x41, 0x41, 0]);
}
