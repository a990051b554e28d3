use genesis_plus_rs::svp::fixed::{fx_div, fx_mul, lerp_u16, ONE};
use genesis_plus_rs::svp::geometry::{cos_deg, dot3, dot4, sin_deg};
use genesis_plus_rs::svp::processor::{RenderCmdType, SVPProcessor};
use genesis_plus_rs::svp::texture::{
    interpolate_rgb, wrap_coordinate_unit, Texture, TextureFormat, TextureWrap,
};
use genesis_plus_rs::svp::texture_cache::TextureCache;

fn started_core(program: &[u16]) -> Box<SVPProcessor> {
    let mut core = Box::new(SVPProcessor::new());
    core.start();
    for (i, word) in program.iter().enumerate() {
        core.code_cache[i] = *word;
    }
    core
}

#[test]
fn core_moves_adds_subtracts_and_compares() {
    let mut core = started_core(&[0x1105, 0x2213, 0x0310, 0x3015, 0x3000, 0x7777]);
    assert!(core.running);
    assert_eq!(core.pc, 0);
    core.execute_cycle();
    assert_eq!(core.regs[1], 5);
    assert_eq!(core.pc, 2);
    core.execute_cycle();
    assert_eq!(core.regs[2], 0xFFFF_FFF2);
    core.execute_cycle();
    assert_eq!(core.regs[3], 5);
    core.execute_cycle();
    assert_eq!(core.sr & 3, 2);
    core.execute_cycle();
    assert_eq!(core.sr & 3, 1);
    let before = core.regs;
    core.execute_cycle();
    assert_eq!(core.regs, before);
    assert_eq!(core.pc, 12);
}

#[test]
fn core_jumps_calls_and_returns() {
    let mut core = started_core(&[0x1108, 0x9010, 0x110A, 0x0000, 0x0000, 0xA000]);
    core.execute_cycle();
    assert_eq!(core.regs[1], 8);
    core.execute_cycle();
    assert_eq!(core.regs[15], 2);
    assert_eq!(core.pc, 10);
    core.execute_cycle();
    assert_eq!(core.pc, 4);
    core.execute_cycle();
    assert_eq!(core.regs[1], 10);
    assert_eq!(core.pc, 6);
    core.regs[4] = 0x0100_0020;
    core.code_cache[3] = 0x8040;
    core.execute_cycle();
    assert_eq!(core.pc, 0x22);
}

#[test]
fn core_raises_a_render_command_and_hands_it_over_once() {
    let mut core = started_core(&[0xB1A7, 0x0000]);
    assert!(!core.render_command_ready());
    core.execute_cycle();
    assert!(core.render_command_ready());
    match core.get_render_command() {
        Some(cmd) => {
            assert_eq!(cmd.cmd_type, RenderCmdType::DrawLine);
            assert_eq!(cmd.texture_id, 10);
            assert_eq!(cmd.color, 7);
            assert_eq!(cmd.vertices, [(0, 0); 4]);
        },
        None => panic!("a render command was raised"),
    }
    core.command_completed();
    assert!(!core.render_command_ready());
    assert!(core.get_render_command().is_none());
}

#[test]
fn core_drains_one_buffered_command_a_cycle() {
    let mut core = started_core(&[0x0000, 0x0000, 0x0000]);
    core.write_command_buffer(0x0001);
    core.write_command_buffer(0x8205);
    assert_eq!(core.pending_commands(), 2);
    core.execute_cycle();
    assert_eq!(core.pending_commands(), 1);
    assert!(!core.render_command_ready());
    core.execute_cycle();
    assert_eq!(core.pending_commands(), 0);
    assert!(core.render_command_ready());
    let cmd = core.get_render_command().unwrap();
    assert_eq!(cmd.cmd_type, RenderCmdType::ClearFrame);
    assert_eq!(cmd.color, 5);
    core.stop();
    let pc = core.pc;
    core.execute_cycle();
    assert_eq!(core.pc, pc);
}

#[test]
fn fixed_point_products_and_quotients() {
    assert_eq!(fx_mul(ONE, ONE), ONE);
    assert_eq!(fx_mul(3 * ONE / 2, 2 * ONE), 3 * ONE);
    assert_eq!(fx_mul(-ONE, ONE / 2), -ONE / 2);
    assert_eq!(fx_mul(-1, 1), -1);
    assert_eq!(fx_mul(1, 1), 0);
    assert_eq!(fx_mul(i32::MAX, i32::MAX), i32::MAX);
    assert_eq!(fx_mul(i32::MIN, i32::MAX), i32::MIN);
    assert_eq!(fx_mul(i32::MIN, i32::MIN), i32::MAX);
    assert_eq!(fx_div(ONE, 2 * ONE), ONE / 2);
    assert_eq!(fx_div(-ONE, 3 * ONE), -21845);
    assert_eq!(fx_div(ONE, -3 * ONE), -21845);
    assert_eq!(fx_div(i32::MAX, 1), i32::MAX);
    assert_eq!(fx_div(i32::MIN, 1), i32::MIN);
    assert_eq!(dot3(ONE, ONE, 2 * ONE, 3 * ONE, 0, 0), 7 * ONE);
    assert_eq!(dot4(ONE, ONE, ONE, ONE, ONE, ONE, -ONE, 3 * ONE), 0);
}

#[test]
fn blends_stay_between_their_ends() {
    assert_eq!(lerp_u16(0, 100, 0x8000), 50);
    assert_eq!(lerp_u16(10, 20, 0), 10);
    assert_eq!(lerp_u16(10, 20, 0x1_0000), 20);
    assert_eq!(lerp_u16(31, 0, 0x4000), 23);
    assert_eq!(lerp_u16(65535, 65535, 0x1234), 65535);
    assert_eq!(interpolate_rgb(0x7C00, 0x001F, 0x8000), 0x3C0F);
    assert_eq!(interpolate_rgb(0x7C00, 0x001F, 0), 0x7C00);
    assert_eq!(interpolate_rgb(0x7C00, 0x001F, 0x1_0000), 0x001F);
}

#[test]
fn sines_of_the_right_angles_are_exact() {
    assert_eq!(sin_deg(0), 0);
    assert_eq!(sin_deg(30 * ONE), ONE / 2);
    assert_eq!(sin_deg(90 * ONE), ONE);
    assert_eq!(sin_deg(150 * ONE), ONE / 2);
    assert_eq!(sin_deg(180 * ONE), 0);
    assert_eq!(sin_deg(270 * ONE), -ONE);
    assert_eq!(sin_deg(-90 * ONE), -ONE);
    assert_eq!(sin_deg(360 * ONE), 0);
    assert_eq!(sin_deg(450 * ONE), ONE);
    assert_eq!(cos_deg(0), ONE);
    assert_eq!(cos_deg(60 * ONE), ONE / 2);
    assert_eq!(cos_deg(90 * ONE), 0);
    assert_eq!(cos_deg(180 * ONE), -ONE);
}

#[test]
fn coordinates_wrap_by_their_mode() {
    assert_eq!(wrap_coordinate_unit(0x1_8000, TextureWrap::Repeat), 0x8000);
    assert_eq!(wrap_coordinate_unit(-0x4000, TextureWrap::Repeat), 0xC000);
    assert_eq!(wrap_coordinate_unit(0x1_0000, TextureWrap::Repeat), 0);
    assert_eq!(wrap_coordinate_unit(-5, TextureWrap::Clamp), 0);
    assert_eq!(wrap_coordinate_unit(0x2_0000, TextureWrap::Clamp), 0x1_0000);
    assert_eq!(wrap_coordinate_unit(0x1234, TextureWrap::Clamp), 0x1234);
    assert_eq!(wrap_coordinate_unit(0x1_8000, TextureWrap::Mirror), 0x8000);
    assert_eq!(wrap_coordinate_unit(-0x4000, TextureWrap::Mirror), 0x4000);
    assert_eq!(wrap_coordinate_unit(0x2_4000, TextureWrap::Mirror), 0x4000);
}

#[test]
fn eviction_would_free_the_least_recently_used_slot() {
    let mut cache = TextureCache::new();
    assert_eq!(cache.find_lru_slot(), Some(0));
    for id in 0..16u8 {
        assert!(cache.insert(Texture::new(id, 4, 4, TextureFormat::RGB555, 0)));
        if id < 15 {
            assert_eq!(cache.find_lru_slot(), Some(id as usize + 1));
        }
    }
    assert_eq!(cache.find_lru_slot(), Some(0));
    assert!(cache.get(0).is_some());
    assert_eq!(cache.find_lru_slot(), Some(1));
    assert!(cache.get(1).is_some());
    assert!(cache.get(2).is_some());
    assert_eq!(cache.find_lru_slot(), Some(3));
    assert!(!cache.insert(Texture::new(16, 4, 4, TextureFormat::RGB555, 0)));
    assert!(cache.peek(16).is_none());
    assert!(cache.get(16).is_none());
    assert!(cache.remove(7).is_some());
    assert_eq!(cache.find_lru_slot(), Some(7));
    assert!(cache.get(7).is_none());
    let (hits, misses, rate) = cache.stats();
    assert_eq!(hits, 3);
    assert_eq!(misses, 1);
    assert_eq!(rate, 3 * 65536 / 4);
    cache.clear();
    assert_eq!(cache.stats(), (0, 0, 0));
    assert!(cache.peek(3).is_none());
}
