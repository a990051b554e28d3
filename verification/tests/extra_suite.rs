use genesis_plus_rs::chips::minimp3::{
    decode_header, find_frame, get_bitrate_index, get_bitrate_kbps, get_frame_samples, get_layer,
    get_sample_rate, get_sample_rate_index, is_mono, is_valid_header,
};
use genesis_plus_rs::chips::paprium::{
    boss_number, is_request_pending, track_sample, Mp3FileInfo, PapriumAsic,
};
use genesis_plus_rs::chips::yx5200::{level_delta, track_file_names, TrackEnd, Yx5200};
use std::sync::Arc;

#[test]
fn frame_header_fields_are_read_from_their_bits() {
    let header = [0xFFu8, 0xFB, 0x90, 0x00];
    assert!(is_valid_header(&header));
    assert_eq!(get_layer(&header), 1);
    assert_eq!(get_bitrate_index(&header), 9);
    assert_eq!(get_sample_rate_index(&header), 0);
    assert_eq!(get_bitrate_kbps(&header), 128);
    assert_eq!(get_sample_rate(&header), 22050);
    assert_eq!(get_frame_samples(&header), 384);
    assert!(!is_mono(&header));
    assert!(is_mono(&[0xFF, 0xFB, 0x90, 0xC0]));
    assert_eq!(get_sample_rate(&[0xFF, 0xEB, 0x94, 0x00]), 48000);
    assert_eq!(get_sample_rate(&[0xFF, 0xE3, 0x98, 0x00]), 16000);
    assert_eq!(get_bitrate_kbps(&[0xFF, 0xE3, 0x98, 0x00]), 80);
    assert_eq!(get_bitrate_kbps(&[0xFF, 0xFF, 0xE0, 0x00]), 448);
    assert_eq!(get_frame_samples(&[0xFF, 0xFD, 0x90, 0x00]), 1152);
    assert_eq!(get_frame_samples(&[0xFF, 0xE3, 0x90, 0x00]), 384);
    assert_eq!(get_frame_samples(&[0xFF, 0xF4, 0x90, 0x00]), 1152);
}

#[test]
fn reserved_header_fields_make_no_frame() {
    assert!(!is_valid_header(&[0xFF, 0xFB, 0x90]));
    assert!(!is_valid_header(&[0xFE, 0xFB, 0x90, 0x00]));
    assert!(!is_valid_header(&[0xFF, 0xE1, 0x90, 0x00]));
    assert!(!is_valid_header(&[0xFF, 0xF9, 0x90, 0x00]));
    assert!(!is_valid_header(&[0xFF, 0xFB, 0xF0, 0x00]));
    assert!(!is_valid_header(&[0xFF, 0xFB, 0x9C, 0x00]));
    assert!(is_valid_header(&[0xFF, 0xE2, 0x90, 0x00]));
    assert!(is_valid_header(&[0xFF, 0xE3, 0x90, 0x00]));
    assert_eq!(get_layer(&[0xFF]), 0);
    assert_eq!(get_bitrate_index(&[0xFF, 0xFB]), 0);
    assert!(decode_header(&[0xFF, 0xFB, 0x90, 0x00], 3).is_none());
    assert!(decode_header(&[0xFF, 0xFB, 0x90], 4).is_none());
    assert!(decode_header(&[0xFF, 0xFB, 0xF0, 0x00], 4).is_none());
}

#[test]
fn first_frame_is_found_behind_other_bytes() {
    let stream = [0x00u8, 0xFF, 0x00, 0xFF, 0xFB, 0x90, 0x00, 0x11, 0x22];
    assert_eq!(find_frame(&stream, stream.len()), 3);
    assert_eq!(find_frame(&stream, 4), 0);
    assert_eq!(find_frame(&stream[3..], 6), 0);
    assert_eq!(find_frame(&[0u8; 16], 16), 0);
    assert_eq!(find_frame(&[], 0), 0);
    assert_eq!(find_frame(&[0x00, 0xFF, 0xFB, 0x90], 4), 0);
    match decode_header(&stream[3..], 6) {
        Some((info, samples)) => {
            assert_eq!(samples, 384);
            assert_eq!(info.frame_bytes, 6);
            assert_eq!(info.frame_offset, 0);
            assert_eq!(info.channels, 2);
            assert_eq!(info.hz, 22050);
            assert_eq!(info.layer, 1);
            assert_eq!(info.bitrate_kbps, 128);
        },
        None => panic!("the header is one of a frame"),
    }
}

fn send_byte(chip: &mut Yx5200, byte: u8) {
    chip.write(0);
    for k in 0..8 {
        chip.write((byte >> k) & 1);
    }
    chip.write(1);
}

fn set_volume(chip: &mut Yx5200, volume: u8) {
    for byte in [0x7Eu8, 0xFF, 0x06, 0x06, 0x00, 0x00, volume, 0x00, 0x00, 0xEF] {
        send_byte(chip, byte);
    }
    assert_eq!(chip.playback_volume(), volume);
}

#[test]
fn player_mixes_frames_against_the_levels_it_had() {
    let mut chip = Yx5200::new("game.bin");
    set_volume(&mut chip, 15);
    chip.set_output(10, -20);
    let deltas = chip.mix_frames(&[100, 200, -300, 400], 2);
    assert_eq!(deltas, vec![(40, 120), (-160, 220)]);
    let rest = chip.silence();
    assert_eq!(rest, (150, -200));
    assert_eq!(chip.silence(), (0, 0));
    let mono = chip.mix_frames(&[60, -61], 1);
    assert_eq!(mono, vec![(30, 30), (-30, -30)]);
    assert!(chip.mix_frames(&[], 2).is_empty());
    assert_eq!(chip.silence(), (30, 30));
    assert_eq!(level_delta(i16::MAX, i16::MIN), -1);
    assert_eq!(level_delta(i16::MIN, i16::MAX), 1);
    assert_eq!(level_delta(0, i16::MIN), i16::MIN);
}

#[test]
fn track_files_are_named_by_number() {
    assert_eq!(track_file_names(7), vec!["7.mp3", "07.mp3", "007.mp3", "0007.mp3"]);
    assert_eq!(track_file_names(123), vec!["123.mp3", "123.mp3", "123.mp3", "0123.mp3"]);
    assert_eq!(track_file_names(2999), vec!["2999.mp3", "2999.mp3", "2999.mp3", "2999.mp3"]);
    assert_eq!(track_file_names(0), vec!["0.mp3", "00.mp3", "000.mp3", "0000.mp3"]);
    assert_eq!(track_file_names(65535)[3], "65535.mp3");
}

#[test]
fn paprium_tells_whether_it_can_run() {
    let mut asic = PapriumAsic::new(Arc::new(vec![0u8; 0x100]), "roms".to_string());
    assert!(asic.is_valid());
    asic.sfx_volume = 300;
    assert!(!asic.is_valid());
    asic.sfx_volume = 0x80;
    asic.sfx[3].tick = 0x1_0000;
    assert!(!asic.is_valid());
    asic.sfx[3].tick = 0;
    asic.sfx[3].size = 1001;
    assert!(!asic.is_valid());
    asic.sfx[3].size = 1000;
    assert!(asic.is_valid());
    asic.ram.push(0);
    assert!(!asic.is_valid());
    asic.ram.pop();
    asic.echo_ptr = 12000;
    assert!(!asic.is_valid());
}

#[test]
fn paprium_music_stream_starts_over_at_the_end_of_the_track() {
    let mut asic = PapriumAsic::new(Arc::new(vec![0u8; 0x100]), "roms".to_string());
    asic.advance_stream(None);
    assert_eq!(asic.mp3_ptr, 2);
    asic.advance_stream(Some(10));
    assert_eq!(asic.mp3_ptr, 4);
    asic.advance_stream(Some(6));
    assert_eq!(asic.mp3_ptr, 0);
    asic.mp3_ptr = 0x10_0000;
    asic.advance_stream(None);
    assert_eq!(asic.mp3_ptr, 0);
    asic.mp3_ptr = 0xF_FFFF;
    asic.advance_stream(None);
    assert_eq!(asic.mp3_ptr, 0x10_0001);
    let track = Some(Mp3FileInfo { buffer: vec![5, -6, 7], samples: 3, channels: 1, hz: 44100 });
    assert_eq!(track_sample(&track, 1), (-6, -6));
    assert_eq!(track_sample(&track, 3), (0, 0));
    assert_eq!(track_sample(&None, 0), (0, 0));
    assert_eq!(boss_number(0x17), Some(1));
    assert_eq!(boss_number(0x23), Some(4));
    assert_eq!(boss_number(0x24), None);
}

#[test]
fn player_decides_what_follows_a_short_read() {
    let mut chip = Yx5200::new("game.bin");
    chip.load_track(3, true);
    assert_eq!(chip.on_read(false, 10, 10), TrackEnd::Complete);
    assert_eq!(chip.on_read(true, 12, 10), TrackEnd::Complete);
    assert_eq!(chip.on_read(false, 9, 10), TrackEnd::Rewind);
    assert_eq!(chip.on_read(true, 9, 10), TrackEnd::Stop);
    chip.load_track(3, false);
    assert_eq!(chip.on_read(false, 0, 10), TrackEnd::Stop);
    assert_eq!(chip.on_read(false, 0, 0), TrackEnd::Complete);
}

#[test]
fn paprium_scales_the_music_track_by_its_volume() {
    let mut asic = PapriumAsic::new(Arc::new(vec![0u8; 0x100]), "roms".to_string());
    let track = Some(Mp3FileInfo { buffer: vec![1000, -1000, i16::MIN, i16::MAX], samples: 4, channels: 1, hz: 44100 });
    assert_eq!(asic.music_levels(&track, 0), (500, 500));
    assert_eq!(asic.music_levels(&track, 1), (-500, -500));
    assert_eq!(asic.music_levels(&track, 2), (-16384, -16384));
    assert_eq!(asic.music_levels(&track, 9), (0, 0));
    asic.music_volume = 0xFF;
    assert_eq!(asic.music_levels(&track, 3), (32639, 32639));
    assert_eq!(asic.music_levels(&track, 1), (-996, -996));
    assert_eq!(asic.music_levels(&None, 0), (0, 0));
    asic.mp3_ptr = 44;
    asic.select_track(0x17);
    assert_eq!(asic.music_track, 0x17);
    assert_eq!(asic.mp3_ptr, 0);
    assert_eq!(asic.music_tick, 0);
    assert!(asic.is_valid());
    assert!(is_request_pending(5, 6, false));
    assert!(is_request_pending(5, 5, true));
    assert!(!is_request_pending(5, 5, false));
}
