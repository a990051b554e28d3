use genesis_plus_rs::chips::action_replay::{ActionReplay, ActionReplayStatus, ActionReplayType};
use genesis_plus_rs::chips::yx5200::{StateError, TrackRequest, Yx5200};
use genesis_plus_rs::eeprom::eeprom_93c::{erase_all, fill_all, store_word, Eeprom93C};
use genesis_plus_rs::eeprom::eeprom_i2c::{EepromI2C, EepromI2CType};
use genesis_plus_rs::eeprom::eeprom_spi::EepromSPI;
use genesis_plus_rs::eeprom::{create_eeprom, detect_eeprom_type, BackupRam, EepromType};

const DATA: u8 = 1;
const CLK: u8 = 2;
const CS: u8 = 4;

fn clock_in(chip: &mut Eeprom93C, sram: &mut BackupRam, bit: u8) {
    chip.write(CS | bit, sram);
    chip.write(CS | CLK | bit, sram);
}

fn send_opcode(chip: &mut Eeprom93C, sram: &mut BackupRam, opcode: u8) {
    clock_in(chip, sram, DATA);
    for k in 0..8 {
        clock_in(chip, sram, (opcode >> (7 - k)) & 1);
    }
}

fn deselect(chip: &mut Eeprom93C, sram: &mut BackupRam) {
    chip.write(0, sram);
}

#[test]
fn microwire_memory_writes_a_word_only_when_enabled() {
    let mut sram = BackupRam::new(128);
    let mut chip = Eeprom93C::new();
    chip.init(&mut sram);
    assert!(sram.on);
    assert_eq!(sram.custom, 3);
    send_opcode(&mut chip, &mut sram, 0x40 | 5);
    for k in 0..16 {
        clock_in(&mut chip, &mut sram, ((0xBEEFu16 >> (15 - k)) & 1) as u8);
    }
    deselect(&mut chip, &mut sram);
    assert_eq!(sram.sram[10], 0xFF);
    assert_eq!(sram.sram[11], 0xFF);
    send_opcode(&mut chip, &mut sram, 0x30);
    deselect(&mut chip, &mut sram);
    assert!(chip.we);
    send_opcode(&mut chip, &mut sram, 0x40 | 5);
    for k in 0..16 {
        clock_in(&mut chip, &mut sram, ((0xBEEFu16 >> (15 - k)) & 1) as u8);
    }
    deselect(&mut chip, &mut sram);
    assert_eq!(sram.sram[10], 0xEF);
    assert_eq!(sram.sram[11], 0xBE);
    assert_eq!(sram.sram[12], 0xFF);
}

#[test]
fn microwire_memory_reads_a_word_back_bit_by_bit() {
    let mut sram = BackupRam::new(128);
    let mut chip = Eeprom93C::new();
    chip.init(&mut sram);
    store_word(&mut sram, 6, 0xA5C3);
    send_opcode(&mut chip, &mut sram, 0x80 | 3);
    assert_eq!(chip.read() & DATA, 0);
    let mut word: u16 = 0;
    for _ in 0..16 {
        clock_in(&mut chip, &mut sram, 0);
        word = (word << 1) | (chip.read() & DATA) as u16;
    }
    assert_eq!(word, 0xA5C3);
    assert_eq!(chip.read() & CS, CS);
    assert_eq!(chip.read() & CLK, CLK);
    deselect(&mut chip, &mut sram);
    assert_eq!(chip.read() & DATA, DATA);
}

#[test]
fn microwire_memory_erases_and_fills() {
    let mut sram = BackupRam::new(128);
    assert!(!sram.on);
    assert!(sram.sram.iter().all(|b| *b == 0xFF));
    fill_all(&mut sram, 0x1234);
    assert_eq!(sram.sram[0], 0x34);
    assert_eq!(sram.sram[1], 0x12);
    assert_eq!(sram.sram[126], 0x34);
    assert_eq!(sram.sram[127], 0x12);
    store_word(&mut sram, 127, 0xABCD);
    assert_eq!(sram.sram[127], 0x12);
    erase_all(&mut sram);
    assert!(sram.sram.iter().all(|b| *b == 0xFF));
}

#[test]
fn serial_memories_save_and_load_their_state() {
    let mut sram = BackupRam::new(128);
    let mut microwire = Eeprom93C::new();
    microwire.init(&mut sram);
    send_opcode(&mut microwire, &mut sram, 0x30);
    let state = microwire.save_state();
    assert_eq!(state.len(), 10);
    let mut other = Eeprom93C::new();
    assert!(!other.load_state(&state[..9]));
    assert!(other.load_state(&state));
    assert!(other.we);
    assert_eq!(other.save_state(), state);
    let mut bad = state.clone();
    bad[9] = 5;
    assert!(!other.load_state(&bad));

    let spi = EepromSPI::new();
    let spi_state = spi.save_state();
    assert_eq!(spi_state.len(), 13);
    let mut spi_other = EepromSPI::new();
    assert!(spi_other.load_state(&spi_state));
    assert!(!spi_other.load_state(&spi_state[..12]));

    let i2c = EepromI2C::new(EepromI2CType::C24C16);
    let i2c_state = i2c.save_state();
    assert_eq!(i2c_state.len(), 20);
    let mut i2c_other = EepromI2C::new(EepromI2CType::C24C16);
    assert!(i2c_other.load_state(&i2c_state));
    assert!(!i2c_other.load_state(&i2c_state[..19]));
    assert_eq!(i2c_other.save_state(), i2c_state);
}

#[test]
fn every_socket_names_its_type() {
    let types = [
        EepromType::NoEeprom,
        EepromType::Microwire93C46,
        EepromType::Spi,
        EepromType::I2C(EepromI2CType::X24C01),
        EepromType::I2C(EepromI2CType::C24C512),
    ];
    for t in types.iter() {
        let mut socket = create_eeprom(*t);
        assert_eq!(socket.eeprom_type(), *t);
        let state = socket.save_state();
        assert!(socket.load_state(&state));
        socket.reset();
        assert_eq!(socket.eeprom_type(), *t);
    }
    assert_eq!(EepromType::NoEeprom.to_string(), "None");
}

fn send_byte(chip: &mut Yx5200, byte: u8) -> TrackRequest {
    assert_eq!(chip.write(0), TrackRequest::Idle);
    for k in 0..8 {
        assert_eq!(chip.write((byte >> k) & 1), TrackRequest::Idle);
    }
    chip.write(1)
}

fn send_message(chip: &mut Yx5200, code: u8, argument: u16) -> TrackRequest {
    let message = [0x7E, 0xFF, 0x06, code, 0x00, (argument >> 8) as u8, argument as u8, 0x00, 0x00, 0xEF];
    let mut last = TrackRequest::Idle;
    for (i, byte) in message.iter().enumerate() {
        last = send_byte(chip, *byte);
        if i < 9 {
            assert_eq!(last, TrackRequest::Idle);
        }
    }
    last
}

#[test]
fn player_takes_messages_bit_by_bit() {
    let mut chip = Yx5200::new("game.bin");
    assert_eq!(chip.rom_path(), "game.bin");
    assert!(!chip.is_playing());
    assert_eq!(send_message(&mut chip, 0x06, 20), TrackRequest::Idle);
    assert_eq!(chip.playback_volume(), 20);
    assert_eq!(send_message(&mut chip, 0x06, 31), TrackRequest::Idle);
    assert_eq!(chip.playback_volume(), 20);
    assert_eq!(send_message(&mut chip, 0x04, 0), TrackRequest::Idle);
    assert_eq!(chip.playback_volume(), 21);
    assert_eq!(send_message(&mut chip, 0x05, 0), TrackRequest::Idle);
    assert_eq!(chip.playback_volume(), 20);
    assert_eq!(
        send_message(&mut chip, 0x03, 5),
        TrackRequest::Load { index: 5, playback_loop: true }
    );
    assert_eq!(
        send_message(&mut chip, 0x08, 2999),
        TrackRequest::Load { index: 2999, playback_loop: false }
    );
    assert_eq!(send_message(&mut chip, 0x03, 3000), TrackRequest::Idle);
    assert_eq!(send_message(&mut chip, 0x03, 0), TrackRequest::Idle);
    assert_eq!(send_message(&mut chip, 0x01, 0), TrackRequest::Idle);
    chip.load_track(5, true);
    assert!(chip.is_playing());
    assert_eq!(chip.track_index(), 5);
    assert_eq!(
        send_message(&mut chip, 0x01, 0),
        TrackRequest::Load { index: 6, playback_loop: true }
    );
    assert_eq!(chip.track_index(), 0);
    assert!(!chip.is_playing());
    chip.load_track(6, false);
    assert_eq!(
        send_message(&mut chip, 0x02, 0),
        TrackRequest::Load { index: 5, playback_loop: false }
    );
    chip.load_track(5, false);
    assert_eq!(send_message(&mut chip, 0x0E, 0), TrackRequest::Idle);
    assert!(!chip.is_playing());
    assert_eq!(send_message(&mut chip, 0x0D, 0), TrackRequest::Idle);
    assert!(chip.is_playing());
    assert_eq!(send_message(&mut chip, 0x16, 0), TrackRequest::Unload);
    assert_eq!(chip.track_index(), 0);
    assert_eq!(send_message(&mut chip, 0x0C, 0), TrackRequest::Unload);
    assert_eq!(send_message(&mut chip, 0x7F, 0), TrackRequest::Idle);
}

#[test]
fn player_scales_samples_by_its_volume() {
    let mut chip = Yx5200::new("game.bin");
    send_message(&mut chip, 0x06, 15);
    assert_eq!(chip.scale_sample(1000), 500);
    assert_eq!(chip.scale_sample(-1000), -500);
    assert_eq!(chip.scale_sample(-1), 0);
    send_message(&mut chip, 0x06, 30);
    assert_eq!(chip.scale_sample(i16::MIN), i16::MIN);
    assert_eq!(chip.scale_sample(i16::MAX), i16::MAX);
    send_message(&mut chip, 0x06, 0);
    assert_eq!(chip.scale_sample(12345), 0);
}

#[test]
fn player_snapshot_round_trips_and_names_the_track() {
    let mut chip = Yx5200::new("game.bin");
    send_message(&mut chip, 0x06, 7);
    chip.load_track(42, true);
    chip.set_output(-3, 9);
    let mut state = vec![0xAAu8];
    chip.context_save(&mut state, 0x0102_0304_0506_0708);
    assert_eq!(state.len(), 31);
    assert_eq!(state[0], 0xAA);
    assert_eq!(&state[23..31], &[0x08, 0x07, 0x06, 0x05, 0x04, 0x03, 0x02, 0x01]);
    let mut other = Yx5200::new("other.bin");
    assert_eq!(other.context_load(&state[1..30]), Err(StateError::Invalid));
    assert_eq!(other.context_load(&state[1..]), Ok((30, 42)));
    assert_eq!(other.playback_volume(), 7);
    assert_eq!(other.track_index(), 0);
    assert!(other.playback_loop());
    assert_eq!(other.rom_path(), "other.bin");
    let mut bad = state[1..].to_vec();
    bad[0] = 10;
    assert_eq!(other.context_load(&bad), Err(StateError::Invalid));
}

fn replay_rom(signature: &[u8; 16], offset: usize, stack_high: u8, size: usize) -> Vec<u8> {
    let mut rom = vec![0u8; size];
    rom[1] = stack_high;
    rom[offset..offset + 16].copy_from_slice(signature);
    rom[0x200] = 0x12;
    rom[0x201] = 0x34;
    rom
}

#[test]
fn action_replay_models_are_told_by_signature() {
    let mut standard = Box::new(ActionReplay::new());
    assert!(!standard.is_enabled());
    assert_eq!(standard.get_status(), None);
    assert!(standard.init(replay_rom(b"ACTION REPLAY   ", 0x120, 0, 0x8000)));
    assert_eq!(standard.get_type(), ActionReplayType::Standard);
    assert_eq!(standard.setup_memory_map(), None);
    assert_eq!(standard.read_rom(0x200), 0x3412);
    assert_eq!(standard.read_rom(0x8200), 0x3412);
    assert_eq!(standard.get_status(), Some(ActionReplayStatus::Off));

    let mut pro1 = Box::new(ActionReplay::new());
    assert!(pro1.init(replay_rom(b"ACTION REPLAY 2 ", 0x120, 0x42, 0x8000)));
    assert_eq!(pro1.get_type(), ActionReplayType::Pro1);
    assert_eq!(pro1.setup_memory_map(), Some(0x42_0000));
    assert_eq!(pro1.read_rom(0x8200), 0xFFFF);

    let mut pro2 = Box::new(ActionReplay::new());
    assert!(pro2.init(replay_rom(b"ACTION REPLAY II", 0x3C6, 0x60, 0x8000)));
    assert_eq!(pro2.get_type(), ActionReplayType::Pro2);
    assert_eq!(pro2.setup_memory_map(), Some(0x60_0000));

    let mut wrong_stack = Box::new(ActionReplay::new());
    assert!(!wrong_stack.init(replay_rom(b"ACTION REPLAY 2 ", 0x120, 0x41, 0x8000)));
    assert_eq!(wrong_stack.get_type(), ActionReplayType::Disabled);

    let mut too_large = Box::new(ActionReplay::new());
    assert!(!too_large.init(replay_rom(b"ACTION REPLAY   ", 0x120, 0, 0x1_0001)));
    assert!(!too_large.is_enabled());

    let mut short = Box::new(ActionReplay::new());
    assert!(!short.init(vec![0u8; 0x100]));
}

#[test]
fn serial_memory_is_told_by_product_code_and_header() {
    let rom = vec![0u8; 0x200];
    assert_eq!(detect_eeprom_type(&rom, "T-81406", 0), EepromType::Microwire93C46);
    assert_eq!(detect_eeprom_type(&rom, "GM T-081586 -00", 0), EepromType::Microwire93C46);
    assert_eq!(detect_eeprom_type(&rom, "T-12046", 0), EepromType::Spi);
    assert_eq!(detect_eeprom_type(&rom, "T-12053", 0), EepromType::Spi);
    assert_eq!(detect_eeprom_type(&rom, "T-081326", 0), EepromType::I2C(EepromI2CType::X24C02));
    assert_eq!(detect_eeprom_type(&rom, "T-50176", 0), EepromType::I2C(EepromI2CType::X24C01));
    assert_eq!(detect_eeprom_type(&rom, "T-99999", 0), EepromType::NoEeprom);
    let mut marked = vec![0u8; 0x200];
    marked[0x1B2] = 0xE8;
    assert_eq!(detect_eeprom_type(&marked, "T-99999", 0), EepromType::Spi);
    assert_eq!(detect_eeprom_type(&marked, "T-50176", 0), EepromType::Spi);
    assert_eq!(detect_eeprom_type(&marked, "T-81406", 0), EepromType::Microwire93C46);
}
