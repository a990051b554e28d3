use genesis_plus_rs::eeprom::BackupRam;
use genesis_plus_rs::mapper::mapper_common::{
    mapper_id_to_type, rom_mirror_mask, MapperType, MemoryMap, PageEntry, SmsPeripheral,
};
use genesis_plus_rs::mapper::mapper_custom::CustomMapper;
use genesis_plus_rs::mapper::mapper_database::detect_mapper;
use genesis_plus_rs::mapper::mapper_flash::FlashMapper;
use genesis_plus_rs::mapper::mapper_handlers::{handle_registers, handle_time_signal, setup_memory_map};
use genesis_plus_rs::mapper::mapper_radica::RadicaMapper;
use genesis_plus_rs::mapper::mapper_realtec::RealtecMapper;
use genesis_plus_rs::mapper::mapper_sf::{Sf001Mapper, Sf002Mapper, Sf004Mapper, T5740Mapper};
use genesis_plus_rs::mapper::sms::korean::reverse_bits;
use genesis_plus_rs::mapper::sms::sega::SegaMapper;
use genesis_plus_rs::mapper::sms::{count_pages, page_size, reset_registers};
use genesis_plus_rs::mapper::{
    init_mapper, load_mapper_state, map_standard, reset_mapper, save_mapper_state, Mapper, RomInfo,
};

fn rom_info(product: &str, rom_type: &str, filename: &str) -> RomInfo {
    RomInfo {
        product: product.to_string(),
        checksum: 0x1234,
        real_checksum: 0x4321,
        international: "A GAME".to_string(),
        domestic: "A GAME".to_string(),
        console_type: "SEGA MEGA DRIVE".to_string(),
        rom_type: rom_type.to_string(),
        filename: filename.to_string(),
    }
}

#[test]
fn mirror_mask_covers_the_rom() {
    assert_eq!(rom_mirror_mask(0), 0xFFFF);
    assert_eq!(rom_mirror_mask(0x1_0000), 0xFFFF);
    assert_eq!(rom_mirror_mask(0x1_0001), 0x1_FFFF);
    assert_eq!(rom_mirror_mask(0x2_0000), 0x1_FFFF);
    assert_eq!(rom_mirror_mask(0x3_0000), 0x3_FFFF);
    assert_eq!(rom_mirror_mask(0x40_0000), 0x3F_FFFF);
}

#[test]
fn standard_mapping_mirrors_the_rom_over_the_cartridge_area() {
    let rom = vec![0u8; 0x3_0000];
    let mut map = MemoryMap::new();
    let mapper = init_mapper(&rom_info("GM ZZ-99-00", "GM", "game.bin"), &rom, &mut map);
    assert!(mapper.is_none());
    assert_eq!(map.pages[0], PageEntry::Rom(0));
    assert_eq!(map.pages[1], PageEntry::Rom(0x1_0000));
    assert_eq!(map.pages[2], PageEntry::Rom(0x2_0000));
    assert_eq!(map.pages[3], PageEntry::Unmapped);
    assert_eq!(map.pages[4], PageEntry::Rom(0));
    assert_eq!(map.pages[0x3E], PageEntry::Rom(0x2_0000));
    assert_eq!(map.pages[0x3F], PageEntry::Unmapped);
    assert_eq!(map.pages[0x40], PageEntry::Unmapped);
}

#[test]
fn map_standard_takes_any_mask() {
    let mut map = MemoryMap::new();
    map_standard(0x2_0000, 0x1_FFFF, &mut map);
    assert_eq!(map.pages[0], PageEntry::Rom(0));
    assert_eq!(map.pages[1], PageEntry::Rom(0x1_0000));
    assert_eq!(map.pages[2], PageEntry::Rom(0));
    assert_eq!(map.pages[0x3F], PageEntry::Rom(0x1_0000));
    assert_eq!(map.pages[0x40], PageEntry::Unmapped);
}

#[test]
fn master_system_rom_gets_no_mapper_and_no_pages() {
    let rom = vec![0u8; 0x8000];
    let mut map = MemoryMap::new();
    let mapper = init_mapper(&rom_info("", "", "GAME.SMS"), &rom, &mut map);
    assert!(mapper.is_none());
    assert_eq!(map.pages[0], PageEntry::Unmapped);
}

#[test]
fn boards_are_told_from_the_header() {
    let rom = vec![0u8; 0x8_0000];
    assert_eq!(detect_mapper(&rom_info("GM ZZ-99-00", "GM", "game.bin"), &rom), MapperType::Standard);
    assert_eq!(detect_mapper(&rom_info("SF-001", "SF", "game.bin"), &rom), MapperType::Sf001);
    assert_eq!(detect_mapper(&rom_info("SF-002", "SF", "game.bin"), &rom), MapperType::Sf002);
    assert_eq!(detect_mapper(&rom_info("SF-004", "SF", "game.bin"), &rom), MapperType::Sf004);
    assert_eq!(detect_mapper(&rom_info("SF-001", "GM", "game.bin"), &rom), MapperType::Standard);
    let mut realtec = rom_info("", "GM", "game.bin");
    realtec.checksum = 0;
    realtec.real_checksum = 0x06AB;
    assert_eq!(detect_mapper(&realtec, &rom), MapperType::Realtec);
    let large = vec![0u8; 0x40_0001];
    assert_eq!(detect_mapper(&rom_info("GM ZZ-99-00", "GM", "game.bin"), &large), MapperType::Custom);
}

#[test]
fn init_mapper_makes_the_board_that_was_detected() {
    let rom = vec![0u8; 0x8_0000];
    let mut map = MemoryMap::new();
    let mapper = init_mapper(&rom_info("SF-001", "SF", "game.bin"), &rom, &mut map);
    match mapper {
        Some(m) => {
            assert_eq!(m.mapper_type(), MapperType::Sf001);
            assert!(matches!(m, Mapper::Sf001(_)));
        },
        None => panic!("the SF-001 board has a mapper"),
    }
}

#[test]
fn every_board_saves_as_many_bytes_as_it_loads() {
    let mut boards: Vec<(Mapper, usize)> = vec![
        (Mapper::Realtec(RealtecMapper::new()), 8),
        (Mapper::Sf001(Sf001Mapper::new()), 9),
        (Mapper::Sf002(Sf002Mapper::new()), 6),
        (Mapper::Sf004(Sf004Mapper::new()), 10),
        (Mapper::T5740(T5740Mapper::new()), 9),
        (Mapper::Flash(FlashMapper::new()), 27),
        (Mapper::Radica(RadicaMapper::new()), 8),
        (Mapper::Custom(CustomMapper::new()), 24),
    ];
    for (board, size) in boards.iter_mut() {
        let state = board.save_state();
        assert_eq!(state.len(), *size);
        assert!(board.load_state(&state));
        if *size > 0 {
            assert!(!board.load_state(&state[..*size - 1]));
        }
        assert_eq!(save_mapper_state(Some(&*board)), state);
        assert!(load_mapper_state(Some(&mut *board), &state));
        reset_mapper(Some(&mut *board), false);
        assert_eq!(board.save_state(), state);
    }
    assert!(save_mapper_state(None).is_empty());
    assert!(load_mapper_state(None, &[1, 2, 3]));
    reset_mapper(None, true);
}

#[test]
fn windows_read_as_open_bus_without_a_mapper() {
    let mut map = MemoryMap::new();
    assert_eq!(handle_time_signal(None, 0xA1_3000, 0, false, &mut map), Some(0xFFFF));
    assert_eq!(handle_time_signal(None, 0xA1_3000, 5, true, &mut map), None);
    assert_eq!(handle_time_signal(None, 0xA1_30F1, 5, true, &mut map), None);
    assert_eq!(handle_registers(None, 0xA1_3000, 0, false), Some(0xFF));
    assert_eq!(handle_registers(None, 0xA1_3000, 7, true), None);
    assert_eq!(map.pages[0], PageEntry::Unmapped);
    let mut radica = Mapper::Radica(RadicaMapper::new());
    assert_eq!(handle_time_signal(Some(&mut radica), 0xA1_3000, 0, false, &mut map), Some(0x03));
    let mut sf002 = Mapper::Sf002(Sf002Mapper::new());
    assert_eq!(handle_time_signal(Some(&mut sf002), 0xA1_3000, 0, false, &mut map), Some(0xFFFF));
    assert_eq!(handle_registers(Some(&mut sf002), 0xA1_3000, 0, false), Some(0xFF));
    assert_eq!(handle_registers(Some(&mut sf002), 0xA1_3000, 9, true), None);
}

#[test]
fn save_memory_is_mapped_behind_the_rom() {
    let rom = vec![0u8; 0x2_0000];
    let mut sram = BackupRam::new(0x2000);
    sram.on = true;
    sram.start = 0x20_0000;
    let mut map = MemoryMap::new();
    setup_memory_map(None, &mut map, &sram, &rom);
    assert_eq!(map.pages[0], PageEntry::Rom(0));
    assert_eq!(map.pages[0x1F], PageEntry::Rom(0x1_0000));
    assert_eq!(map.pages[0x20], PageEntry::Sram);
    assert_eq!(map.pages[0x21], PageEntry::Rom(0x1_0000));
    sram.custom = 1;
    let mut serial = MemoryMap::new();
    setup_memory_map(None, &mut serial, &sram, &rom);
    assert_eq!(serial.pages[0x20], PageEntry::Rom(0));
    sram.custom = 0;
    sram.start = 0x1_0000;
    let mut inside = MemoryMap::new();
    setup_memory_map(None, &mut inside, &sram, &rom);
    assert_eq!(inside.pages[1], PageEntry::Rom(0x1_0000));
}

#[test]
fn sega_mapper_pages_its_three_slots() {
    let mut rom = vec![0u8; 0x1_0000];
    for page in 0..4usize {
        rom[page * 0x4000] = 0x10 + page as u8;
    }
    let mut mapper = SegaMapper::new(rom);
    assert_eq!(mapper.pages, 4);
    assert_eq!(mapper.read(0x0000), 0x10);
    assert_eq!(mapper.read(0x4000), 0x11);
    assert_eq!(mapper.read(0x8000), 0x12);
    assert_eq!(mapper.read(0xC000), 0xFF);
    mapper.write(0xFFFF, 3);
    assert_eq!(mapper.read(0x8000), 0x13);
    mapper.write(0xFFFE, 6);
    assert_eq!(mapper.read(0x4000), 0x12);
    mapper.write(0x8000, 9);
    assert_eq!(mapper.read(0x8000), 0x13);
    mapper.write(0xFFFC, 0x08);
    assert!(mapper.ram_enabled);
    assert_eq!(mapper.read(0x8000), 0xFF);
    mapper.reset();
    assert_eq!(mapper.read(0x8000), 0x12);
    assert_eq!(mapper.fcr, [0, 0, 1, 2]);
}

#[test]
fn pages_are_counted_rounding_up() {
    assert_eq!(count_pages(0, 0x4000), 0);
    assert_eq!(count_pages(1, 0x4000), 1);
    assert_eq!(count_pages(0x4000, 0x4000), 1);
    assert_eq!(count_pages(0x4001, 0x4000), 2);
    assert_eq!(count_pages(0x8_0000, 0x2000), 64);
    assert_eq!(page_size(0x00), 0x400);
    assert_eq!(page_size(0x10), 0x4000);
    assert_eq!(page_size(0x20), 0x2000);
    assert_eq!(page_size(0x40), 0x8000);
    assert_eq!(reset_registers(0x10), [0, 0, 1, 2]);
    assert_eq!(reset_registers(0x1B), [0, 0, 1, 1]);
    assert_eq!(reset_registers(0x25), [3, 2, 1, 0]);
    assert_eq!(reset_registers(0x20), [0, 0, 0, 0]);
    assert_eq!(reset_registers(0x13), [0, 0, 1, 0]);
}

#[test]
fn bits_are_reversed_and_back() {
    assert_eq!(reverse_bits(0x01), 0x80);
    assert_eq!(reverse_bits(0x80), 0x01);
    assert_eq!(reverse_bits(0xF0), 0x0F);
    assert_eq!(reverse_bits(0xA5), 0xA5);
    assert_eq!(reverse_bits(0x12), 0x48);
    for value in 0..=255u8 {
        assert_eq!(reverse_bits(reverse_bits(value)), value);
    }
}

#[test]
fn peripheral_codes_round_trip() {
    for code in 0..=255u8 {
        let peripheral = SmsPeripheral::from_u8(code);
        assert_eq!(SmsPeripheral::from_u8(peripheral.to_u8()), peripheral);
    }
    assert_eq!(SmsPeripheral::from_u8(0), SmsPeripheral::Pad);
    assert_eq!(SmsPeripheral::Pad.to_u8(), 0);
    assert_eq!(mapper_id_to_type(0x10), MapperType::SmsSega);
    assert_eq!(mapper_id_to_type(0x13), MapperType::SmsCodemasters);
}
