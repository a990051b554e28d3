use genesis_plus_rs::svp::dma::{DmaDirection, SVPDmaController};
use genesis_plus_rs::svp::fixed::ONE;
use genesis_plus_rs::svp::framebuffer::{FrameBuffer, ZBuffer, FAR_DEPTH};
use genesis_plus_rs::svp::geometry::Vertex;
use genesis_plus_rs::svp::renderer::{RenderMode, SVPRenderer};
use genesis_plus_rs::svp::texture_unit::TextureUnit;
use genesis_plus_rs::svp::SVP;

fn vertex(x: i32, y: i32, z: i32) -> Vertex {
    Vertex { x: x * ONE, y: y * ONE, z: z * ONE, w: ONE, u: 0, v: 0, color: 0x7C00, intensity: ONE }
}

fn solid_renderer() -> (Box<SVPRenderer>, Box<TextureUnit>, Vec<u8>) {
    let mut renderer = Box::new(SVPRenderer::new());
    renderer.set_render_mode(RenderMode::Solid);
    let mut texram = vec![0u8; 131072];
    for i in 0..0x2000 {
        texram[i] = if i % 2 == 0 { 0xE0 } else { 0x03 };
    }
    let mut unit = Box::new(TextureUnit::new());
    let memory: &[u8; 131072] = texram.as_slice().try_into().unwrap();
    assert!(unit.bind_texture(0, memory));
    (renderer, unit, texram)
}

#[test]
fn dma_moves_four_words_into_texture_memory() {
    let mut dma = SVPDmaController::new();
    let mut dram = Box::new([0u16; 8192]);
    let mut texram = vec![0u8; 131072];
    dram[0] = 0x1234;
    dram[1] = 0xABCD;
    dram[2] = 0x00FF;
    dram[3] = 0x8001;
    dma.set_source(0x0000);
    dma.set_destination(0x004000);
    dma.set_length(4);
    dma.start();
    assert_eq!(dma.direction(), DmaDirection::DramToTexRam);
    let memory: &mut [u8; 131072] = texram.as_mut_slice().try_into().unwrap();
    for _ in 0..4 {
        assert!(dma.is_active());
        dma.transfer_cycle(&mut dram, memory);
    }
    assert!(!dma.is_active());
    assert_eq!(&memory[0x4000..0x4008], &[0x34, 0x12, 0xCD, 0xAB, 0xFF, 0x00, 0x01, 0x80]);
    assert_eq!(&memory[0..8], &[0u8; 8]);
    assert_eq!(&memory[0x3FFE..0x4000], &[0u8; 2]);
    assert_eq!(&memory[0x4008..0x400A], &[0u8; 2]);
    assert_eq!(&dram[0..4], &[0x1234, 0xABCD, 0x00FF, 0x8001]);
    assert_eq!(dma.source_address(), 8);
    assert_eq!(dma.destination_address(), 0x4008);
    assert_eq!(dma.length(), 0);
}

#[test]
fn dma_through_the_chip_matches_texture_window() {
    let mut svp = Box::new(SVP::new());
    svp.set_enabled(true);
    for i in 0..4u32 {
        svp.write_word(2 * i, 0x1100 + i as u16);
    }
    svp.write_word(0x030002, 0x0000);
    svp.write_word(0x030004, 0x4000);
    svp.write_word(0x030006, 0x8004);
    assert!(svp.dma().is_active());
    svp.write_word(0x030000, 0x0001);
    for _ in 0..4 {
        assert!(svp.dma().is_active());
        svp.tick();
    }
    assert!(!svp.dma().is_active());
    for i in 0..4u32 {
        assert_eq!(svp.read_word(0x004000 + 2 * i), 0x1100 + i as u16);
        assert_eq!(svp.read_byte(0x004000 + 2 * i), i as u8);
        assert_eq!(svp.read_byte(0x004001 + 2 * i), 0x11);
    }
}

#[test]
fn dma_reads_texture_memory_back() {
    let mut dma = SVPDmaController::new();
    let mut dram = Box::new([0u16; 8192]);
    let mut texram = vec![0u8; 131072];
    texram[0x4010] = 0x78;
    texram[0x4011] = 0x56;
    texram[0x10] = 0x11;
    texram[0x11] = 0x22;
    let memory: &mut [u8; 131072] = texram.as_mut_slice().try_into().unwrap();
    dma.set_source(0x4010);
    dma.set_destination(0x0020);
    dma.set_length(1);
    dma.start();
    assert_eq!(dma.direction(), DmaDirection::TexRamToDram);
    dma.transfer_cycle(&mut dram, memory);
    assert_eq!(dram[0x10], 0x5678);
    assert!(!dma.is_active());
    assert_eq!(memory[0x4010], 0x78);
    dma.set_source(0x0010);
    dma.set_destination(0x0000);
    dma.set_length(1);
    dma.start();
    dma.transfer_cycle(&mut dram, memory);
    assert_eq!(dram[0], 0x2211);
}

#[test]
fn dma_unit_from_the_start_of_the_texture_window() {
    let mut dma = SVPDmaController::new();
    assert_eq!(dma.direction(), DmaDirection::DramToTexRam);
    dma.set_source(0x004000);
    dma.set_destination(0x000000);
    dma.set_length(1);
    dma.start();
    let mut dram = Box::new([0u16; 8192]);
    let mut texram = vec![0u8; 131072];
    texram[0x4000] = 0xCD;
    texram[0x4001] = 0xAB;
    let memory: &mut [u8; 131072] = texram.as_mut_slice().try_into().unwrap();
    dma.transfer_cycle(&mut dram, memory);
    assert_eq!(dram[0], 0xABCD);
    assert_eq!(memory[0x4000], 0xCD);
    assert_eq!(memory[0x4001], 0xAB);
    assert!(!dma.is_active());
}

#[test]
fn dma_unit_past_the_end_of_texture_memory_is_skipped() {
    let mut dma = SVPDmaController::new();
    let mut dram = Box::new([0x5A5Au16; 8192]);
    let mut texram = vec![0u8; 131072];
    let memory: &mut [u8; 131072] = texram.as_mut_slice().try_into().unwrap();
    dma.set_source(0x0000);
    dma.set_destination(0x01FFFE);
    dma.set_length(2);
    dma.start();
    dma.transfer_cycle(&mut dram, memory);
    assert_eq!(memory[0x1FFFE], 0x5A);
    assert_eq!(memory[0x1FFFF], 0x5A);
    dma.transfer_cycle(&mut dram, memory);
    assert_eq!(memory[0], 0);
    assert_eq!(memory[1], 0);
    assert!(!dma.is_active());
    assert_eq!(dma.destination_address(), 0x020002);
    assert_eq!(dma.direction(), DmaDirection::DramToTexRam);
    dma.set_destination(0x01FFFF);
    dma.set_source(0x0000);
    dma.set_length(1);
    dma.start();
    memory[0x1FFFF] = 0;
    dma.transfer_cycle(&mut dram, memory);
    assert_eq!(memory[0x1FFFF], 0);
}

#[test]
fn host_window_numbers_texture_bytes_by_the_low_address_bits() {
    let mut svp = Box::new(SVP::new());
    svp.write_word(0x004000, 0x1234);
    svp.write_word(0x020000, 0xBEEF);
    svp.write_word(0x023FFE, 0x5566);
    assert_eq!(svp.read_word(0x004000), 0x1234);
    assert_eq!(svp.read_word(0x020000), 0xBEEF);
    assert_eq!(svp.read_byte(0x020001), 0xBE);
    assert_eq!(svp.read_word(0x023FFE), 0x5566);
    assert_eq!(svp.read_word(0x023FFF), 0x3455);
    svp.write_word(0x01FFFE, 0x7788);
    assert_eq!(svp.read_byte(0x01FFFF), 0x77);
    svp.write_word(0x01FFFF, 0x9999);
    assert_eq!(svp.read_word(0x01FFFE), 0x7788);
    assert_eq!(svp.read_word(0x01FFFF), 0x0000);
    assert_eq!(svp.read_word(0x020000), 0xBEEF);
}

#[test]
fn dma_with_nothing_to_move_does_not_start() {
    let mut dma = SVPDmaController::new();
    dma.set_length(0x8000);
    dma.start();
    assert!(!dma.is_active());
    dma.set_length(3);
    dma.start();
    assert!(dma.is_active());
    dma.start();
    assert!(dma.is_active());
    assert_eq!(dma.length(), 3);
    dma.set_length(0);
    assert!(!dma.is_active());
}

#[test]
fn solid_triangle_fills_its_centroid() {
    let (mut renderer, unit, _texram) = solid_renderer();
    renderer.draw_triangle(vertex(-1, -1, -2), vertex(0, 1, -2), vertex(1, -1, -2), &unit, 0, 0x7C00);
    assert_eq!(renderer.get_back_pixel(160, 144), 0x7C00);
    assert_eq!(renderer.get_back_pixel(5, 5), 0x0000);
    renderer.swap_buffers();
    let shown = renderer.get_frame_buffer();
    assert_eq!(shown[144 * 320 + 160], 0x7C00);
    assert_eq!(shown[5 * 320 + 5], 0x0000);
    assert_eq!(renderer.get_stats(), (1, 3, 1, 0));
}

#[test]
fn reversed_triangle_is_culled() {
    let (mut renderer, unit, _texram) = solid_renderer();
    renderer.draw_triangle(vertex(-1, -1, -2), vertex(1, -1, -2), vertex(0, 1, -2), &unit, 0, 0x7C00);
    renderer.swap_buffers();
    assert!(renderer.get_frame_buffer().iter().all(|&p| p == 0));
    assert_eq!(renderer.get_stats(), (0, 0, 0, 0));
}

#[test]
fn nearer_pixel_wins_and_farther_loses() {
    let (mut renderer, unit, _texram) = solid_renderer();
    renderer.draw_triangle(vertex(-1, -1, -2), vertex(0, 1, -2), vertex(1, -1, -2), &unit, 0, 0x7C00);
    renderer.draw_triangle(vertex(-1, -1, -4), vertex(0, 1, -4), vertex(1, -1, -4), &unit, 0, 0x001F);
    assert_eq!(renderer.get_back_pixel(160, 144), 0x7C00);
    renderer.draw_triangle(vertex(-1, -1, -1), vertex(0, 1, -1), vertex(1, -1, -1), &unit, 0, 0x03E0);
    assert_eq!(renderer.get_back_pixel(160, 144), 0x03E0);
}

#[test]
fn textured_triangle_samples_the_bound_texture() {
    let (mut renderer, unit, _texram) = solid_renderer();
    renderer.set_render_mode(RenderMode::Textured);
    renderer.draw_triangle(vertex(-1, -1, -2), vertex(0, 1, -2), vertex(1, -1, -2), &unit, 0, 0x7C00);
    assert_eq!(renderer.get_back_pixel(160, 144), 0x03E0);
}

#[test]
fn line_is_drawn_between_its_ends() {
    let (mut renderer, _unit, _texram) = solid_renderer();
    renderer.draw_line(vertex(-1, 0, -2), vertex(1, 0, -2), 0x001F);
    assert_eq!(renderer.get_back_pixel(160, 112), 0x001F);
    assert_eq!(renderer.get_back_pixel(160, 100), 0x0000);
    assert_eq!(renderer.get_stats().0, 1);
}

#[test]
fn clear_restores_clear_color_and_far_depth() {
    let (mut renderer, unit, _texram) = solid_renderer();
    renderer.draw_triangle(vertex(-1, -1, -2), vertex(0, 1, -2), vertex(1, -1, -2), &unit, 0, 0x7C00);
    renderer.clear();
    assert_eq!(renderer.get_back_pixel(160, 144), 0x0000);
    renderer.draw_triangle(vertex(-1, -1, -4), vertex(0, 1, -4), vertex(1, -1, -4), &unit, 0, 0x001F);
    assert_eq!(renderer.get_back_pixel(160, 144), 0x001F);
}

#[test]
fn first_write_after_clear_passes_depth_test() {
    let mut z = ZBuffer::new(8, 8);
    assert!(z.test_and_write(3, 3, 5 * ONE));
    assert!(!z.test_and_write(3, 3, 5 * ONE));
    assert!(!z.test_and_write(3, 3, 6 * ONE));
    assert!(z.test_and_write(3, 3, 4 * ONE));
    z.clear(FAR_DEPTH);
    assert_eq!(z.get_depth(3, 3), FAR_DEPTH);
    assert!(z.test_and_write(3, 3, FAR_DEPTH - 1));
    assert!(!z.test_and_write(8, 0, 0));
    z.set_test_enabled(false);
    assert!(z.test_and_write(8, 0, 0));
}

#[test]
fn framebuffer_draws_to_back_and_shows_front() {
    let mut fb = FrameBuffer::new(4, 3, true);
    assert!(fb.draw_pixel(1, 2, 0x1234));
    assert!(!fb.draw_pixel(4, 0, 0x1234));
    assert_eq!(fb.get_pixel(1, 2), 0);
    fb.swap_buffers();
    assert_eq!(fb.get_pixel(1, 2), 0x1234);
    assert_eq!(fb.get_buffer()[2 * 4 + 1], 0x1234);
    fb.set_clear_color(0x7FFF);
    fb.clear();
    fb.swap_buffers();
    assert_eq!(fb.get_pixel(1, 2), 0x7FFF);
    assert_eq!(fb.get_resolution(), (4, 3));
    let mut single = FrameBuffer::new(2, 2, false);
    assert!(single.draw_pixel(0, 0, 7));
    assert_eq!(single.get_pixel(0, 0), 7);
}

#[test]
fn reads_outside_the_windows_give_open_bus() {
    let mut svp = Box::new(SVP::new());
    for &addr in &[0x024000u32, 0x02FFFE, 0x030020, 0x03FFFE, 0x400000, 0xFFFFFE] {
        assert_eq!(svp.read_word(addr), 0x0000);
        assert_eq!(svp.read_byte(addr), 0x00);
        let before = svp.save_state();
        svp.write_word(addr, 0xBEEF);
        svp.write_byte(addr, 0xEF);
        assert_eq!(svp.save_state(), before);
        assert_eq!(svp.read_word(addr), 0x0000);
    }
    assert_eq!(svp.read_word(0x040000), 0x0000);
}

#[test]
fn snapshot_round_trip_restores_registers_and_memory() {
    let mut svp = Box::new(SVP::new());
    svp.set_enabled(true);
    svp.write_word(0x000010, 0xCAFE);
    svp.write_word(0x003FFE, 0x1234);
    svp.write_word(0x030002, 0x0040);
    svp.write_word(0x03000A, 0x5555);
    let state = svp.save_state();
    assert_eq!(state.len(), 3 + 32 + 16384);
    assert_eq!(&state[0..3], &[1, 0, 0]);
    assert_eq!(&state[3..5], &[0x00, 0x80]);
    assert_eq!(&state[5..7], &[0x40, 0x00]);
    assert_eq!(&state[35 + 16..35 + 18], &[0xFE, 0xCA]);
    let mut fresh = Box::new(SVP::new());
    assert!(fresh.load_state(&state));
    assert_eq!(fresh.save_state(), state);
    assert_eq!(fresh.read_word(0x000010), 0xCAFE);
    assert_eq!(fresh.read_word(0x003FFE), 0x1234);
    assert_eq!(fresh.read_word(0x03000A), 0x5555);
    assert!(!fresh.load_state(&state[..state.len() - 1]));
    assert_eq!(fresh.save_state(), state);
}

#[test]
fn control_register_starts_stops_and_resets() {
    let mut svp = Box::new(SVP::new());
    svp.set_enabled(true);
    assert_eq!(svp.read_word(0x030000), 0x8000);
    svp.write_word(0x000020, 0x4242);
    svp.write_word(0x030000, 0x0001);
    svp.tick();
    assert_eq!(svp.read_word(0x000020), 0x4242);
    svp.write_word(0x030000, 0x8000);
    assert_eq!(svp.read_word(0x030000), 0x8000);
    assert_eq!(svp.read_word(0x000020), 0x0000);
    assert!(!svp.irq_pending());
}

#[test]
fn command_window_feeds_a_render_command() {
    let mut svp = Box::new(SVP::new());
    svp.set_enabled(true);
    svp.write_word(0x000200, 0x8230);
    assert!(!svp.render_command_ready());
    svp.write_word(0x030000, 0x0001);
    svp.tick();
    assert!(!svp.render_command_ready());
    svp.write_command_buffer(0x8230);
    svp.write_word(0x030000, 0x0000);
    assert!(!svp.render_command_ready());
}

#[test]
fn binding_sixteen_textures_keeps_every_one() {
    let texram = vec![0u8; 131072];
    let memory: &[u8; 131072] = texram.as_slice().try_into().unwrap();
    let mut unit = Box::new(TextureUnit::new());
    for id in 0..16u8 {
        assert!(unit.bind_texture(id, memory));
    }
    for id in 0..16u8 {
        assert!(unit.is_cached(id));
    }
    assert!(!unit.bind_texture(16, memory));
    assert_eq!(unit.current_texture(), Some(15));
    assert_eq!(unit.get_stats().1, 16);
    assert!(unit.bind_texture(3, memory));
    assert_eq!(unit.get_stats().0, 1);
}

#[test]
fn dma_into_a_texture_evicts_it() {
    let texram = vec![0u8; 131072];
    let memory: &[u8; 131072] = texram.as_slice().try_into().unwrap();
    let mut unit = Box::new(TextureUnit::new());
    assert!(unit.bind_texture(0, memory));
    assert!(unit.bind_texture(1, memory));
    unit.invalidate_affected_textures(0x1FFF, 2);
    assert!(!unit.is_cached(0));
    assert!(!unit.is_cached(1));
    assert!(unit.bind_texture(0, memory));
    assert!(unit.bind_texture(1, memory));
    unit.invalidate_affected_textures(0x2000, 2);
    assert!(unit.is_cached(0));
    assert!(!unit.is_cached(1));
    assert!(unit.bind_texture(1, memory));
    assert!(unit.bind_texture(2, memory));
    let mut dma = SVPDmaController::new();
    dma.set_source(0);
    dma.set_destination(0x4000);
    dma.set_length(1);
    dma.start();
    unit.process_dma_transfer(&dma);
    assert!(unit.is_cached(0));
    assert!(unit.is_cached(1));
    assert!(!unit.is_cached(2));
    assert_eq!(unit.current_texture(), Some(2));
    assert_eq!(unit.sample(0, 0, 0), 0x7C00);
    unit.unbind_texture();
    assert_eq!(unit.sample(0, 0, 0), 0x0000);
}

#[test]
fn back_buffer_can_be_written_as_a_slice() {
    let mut fb = FrameBuffer::new(4, 3, true);
    assert_eq!(fb.get_back_buffer().len(), 12);
    fb.get_back_buffer()[1 * 4 + 3] = 0x2345;
    assert_eq!(fb.get_back_pixel(3, 1), 0x2345);
    assert_eq!(fb.get_pixel(3, 1), 0);
    fb.swap_buffers();
    assert_eq!(fb.get_pixel(3, 1), 0x2345);
    let mut single = FrameBuffer::new(2, 2, false);
    single.get_back_buffer()[3] = 9;
    assert_eq!(single.get_pixel(1, 1), 9);
}
