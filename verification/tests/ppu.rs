use dmg_core::interrupts::{INT_LCD, INT_VBLANK};
use dmg_core::ppu::{get_palette_color, OAMSprite, PPUMode, PPUState, SpriteFlags, OAM, PPU};

const LINE: u32 = 456;

fn run(ppu: &mut PPU, cycles: u32) {
    for _ in 0..cycles {
        ppu.cycle();
    }
}

/// The cycles of `cycles` in which the PPU raised `line`, counted from 1.
fn raised(ppu: &mut PPU, cycles: u32, line: u8) -> Vec<u32> {
    let mut at = Vec::new();
    for cycle in 1..=cycles {
        ppu.cycle();
        if ppu.interrupt_request.intersects(line) {
            at.push(cycle);
        }
    }
    at
}

fn pixel(frame: &[u32; 1440], x: usize, y: usize) -> u32 {
    (frame[y * 10 + x / 16] >> ((x % 16) * 2)) & 3
}

fn write_tile_row(ppu: &mut PPU, tile: u16, row: u16, low: u8, high: u8) {
    ppu.mem_write(0x8000 + tile * 16 + row * 2, low);
    ppu.mem_write(0x8000 + tile * 16 + row * 2 + 1, high);
}

fn fill_tile(ppu: &mut PPU, tile: u16, low: u8, high: u8) {
    for row in 0..8 {
        write_tile_row(ppu, tile, row, low, high);
    }
}

fn write_sprite(ppu: &mut PPU, index: u16, y: u8, x: u8, tile: u8, flags: u8) {
    ppu.mem_write(0xFE00 + index * 4, y);
    ppu.mem_write(0xFE00 + index * 4 + 1, x);
    ppu.mem_write(0xFE00 + index * 4 + 2, tile);
    ppu.mem_write(0xFE00 + index * 4 + 3, flags);
}

/// Runs until the frame in progress is complete and shown.
fn finish_frame(ppu: &mut PPU) {
    loop {
        ppu.cycle();
        if ppu.interrupt_request.intersects(INT_VBLANK) {
            break;
        }
    }
}

#[test]
fn ppu_starts_in_the_oam_scan_of_line_zero() {
    let ppu = PPU::new();
    assert_eq!(ppu.mode, PPUMode::OAMScan);
    assert_eq!(ppu.state, PPUState::Active);
    assert_eq!((ppu.lx, ppu.ly), (0, 0));
    assert_eq!(ppu.frame(), &[0u32; 1440]);
    assert_eq!(ppu.mem_read(0xFF41), 0x06);
}

#[test]
fn a_line_passes_through_three_modes() {
    let mut ppu = PPU::new();
    run(&mut ppu, 79);
    assert_eq!(ppu.mode, PPUMode::OAMScan);
    run(&mut ppu, 1);
    assert_eq!(ppu.mode, PPUMode::Drawing);
    assert_eq!(ppu.lx, 80);
    run(&mut ppu, 171);
    assert_eq!(ppu.mode, PPUMode::Drawing);
    run(&mut ppu, 1);
    assert_eq!(ppu.mode, PPUMode::HBlank);
    assert_eq!(ppu.lx, 252);
    run(&mut ppu, 203);
    assert_eq!(ppu.mode, PPUMode::HBlank);
    assert_eq!((ppu.lx, ppu.ly), (455, 0));
    run(&mut ppu, 1);
    assert_eq!(ppu.mode, PPUMode::OAMScan);
    assert_eq!((ppu.lx, ppu.ly), (0, 1));
    assert_eq!(ppu.mem_read(0xFF44), 1);
}

#[test]
fn a_frame_is_154_lines() {
    let mut ppu = PPU::new();
    run(&mut ppu, 143 * LINE);
    assert_eq!(ppu.ly, 143);
    run(&mut ppu, LINE - 1);
    assert_eq!(ppu.ly, 143);
    assert_eq!(ppu.mode, PPUMode::HBlank);
    run(&mut ppu, 1);
    assert_eq!(ppu.ly, 144);
    assert_eq!(ppu.mode, PPUMode::VBlank);
    assert!(ppu.interrupt_request.intersects(INT_VBLANK));
    run(&mut ppu, 1);
    assert!(!ppu.interrupt_request.intersects(INT_VBLANK));
    run(&mut ppu, 9 * LINE - 1);
    assert_eq!(ppu.ly, 153);
    assert_eq!(ppu.mode, PPUMode::VBlank);
    run(&mut ppu, LINE);
    assert_eq!(ppu.ly, 0);
    assert_eq!(ppu.mode, PPUMode::OAMScan);
    assert_eq!(ppu.lx, 0);
}

#[test]
fn vblank_is_raised_once_a_frame() {
    let mut ppu = PPU::new();
    let at = raised(&mut ppu, 3 * 154 * LINE, INT_VBLANK);
    assert_eq!(at, vec![144 * LINE, (154 + 144) * LINE, (308 + 144) * LINE]);
}

#[test]
fn stat_sources_raise_the_lcd_interrupt() {
    let mut ppu = PPU::new();
    ppu.mem_write(0xFF41, 0x08);
    assert_eq!(raised(&mut ppu, 2 * LINE, INT_LCD), vec![252, LINE + 252]);

    let mut ppu = PPU::new();
    ppu.mem_write(0xFF41, 0x20);
    assert_eq!(raised(&mut ppu, 2 * LINE, INT_LCD), vec![LINE, 2 * LINE]);

    let mut ppu = PPU::new();
    ppu.mem_write(0xFF41, 0x10);
    assert_eq!(raised(&mut ppu, 154 * LINE, INT_LCD), vec![144 * LINE]);

    let mut ppu = PPU::new();
    ppu.mem_write(0xFF41, 0x40);
    ppu.mem_write(0xFF45, 5);
    assert_eq!(raised(&mut ppu, 154 * LINE, INT_LCD), vec![5 * LINE]);

    let mut ppu = PPU::new();
    ppu.mem_write(0xFF41, 0x00);
    ppu.mem_write(0xFF45, 5);
    assert_eq!(raised(&mut ppu, 154 * LINE, INT_LCD), Vec::<u32>::new());
}

#[test]
fn stat_shows_sources_coincidence_and_mode() {
    let mut ppu = PPU::new();
    ppu.mem_write(0xFF41, 0xFF);
    assert_eq!(ppu.mem_read(0xFF41), 0x78 | 0x04 | 0x02);
    ppu.mem_write(0xFF45, 1);
    assert_eq!(ppu.mem_read(0xFF41), 0x78 | 0x02);
    run(&mut ppu, 80);
    assert_eq!(ppu.mem_read(0xFF41), 0x78 | 0x03);
    run(&mut ppu, 172);
    assert_eq!(ppu.mem_read(0xFF41), 0x78);
    run(&mut ppu, 204);
    assert_eq!(ppu.mem_read(0xFF41), 0x78 | 0x04 | 0x02);
    run(&mut ppu, 143 * LINE);
    assert_eq!(ppu.mem_read(0xFF41), 0x78 | 0x01);
}

#[test]
fn video_ram_and_oam_keep_what_is_written() {
    let mut ppu = PPU::new();
    for (address, value) in [
        (0x8000u16, 0x12u8),
        (0x9FFF, 0x34),
        (0x9800, 0x56),
        (0xFE00, 0x78),
        (0xFE9F, 0x9A),
        (0xFE03, 0xFF),
    ] {
        ppu.mem_write(address, value);
        assert_eq!(ppu.mem_read(address), value);
    }
    assert_eq!(ppu.mem_read(0x8001), 0);
    assert_eq!(ppu.oam.sprites[0].y, 0x78);
    assert_eq!(ppu.oam.sprites[0].flags.bits(), 0xFF);
    assert_eq!(ppu.oam.sprites[39].flags.bits(), 0x9A);
}

#[test]
fn oam_is_forty_sprites_of_four_bytes() {
    let mut oam = OAM::new();
    for address in 0..160u16 {
        assert_eq!(oam.read(address), 0);
    }
    for address in 0..160u16 {
        oam.write(address, address as u8);
    }
    for address in 0..160u16 {
        assert_eq!(oam.read(address), address as u8);
    }
    let sprite = oam.sprites[3];
    assert_eq!((sprite.y, sprite.x, sprite.tile_index, sprite.flags.bits()), (12, 13, 14, 15));
    let built = OAMSprite::from([1, 2, 3, 0xF0]);
    assert_eq!(built, OAMSprite { y: 1, x: 2, tile_index: 3, flags: SpriteFlags(0xF0) });
}

#[test]
fn registers_read_back() {
    let mut ppu = PPU::new();
    for (address, value) in [
        (0xFF40u16, 0x91u8),
        (0xFF42, 0x12),
        (0xFF43, 0x34),
        (0xFF45, 0x56),
        (0xFF47, 0xE4),
        (0xFF48, 0xD2),
        (0xFF49, 0x1B),
        (0xFF4A, 0x40),
        (0xFF4B, 0x57),
    ] {
        ppu.mem_write(address, value);
        assert_eq!(ppu.mem_read(address), value);
    }
    ppu.mem_write(0xFF44, 0x99);
    assert_eq!(ppu.mem_read(0xFF44), 0);
    assert_eq!(ppu.mem_read(0xFF4C), 0xFF);
    assert_eq!(ppu.mem_read(0x0000), 0xFF);
}

#[test]
fn window_x_is_stored_less_seven() {
    let mut ppu = PPU::new();
    ppu.mem_write(0xFF4B, 0x57);
    assert_eq!(ppu.win_x, 0x50);
    for wx in 0..=7u8 {
        ppu.mem_write(0xFF4B, wx);
        assert_eq!(ppu.win_x, 0);
        assert_eq!(ppu.mem_read(0xFF4B), 7);
    }
    ppu.mem_write(0xFF4B, 166);
    assert_eq!(ppu.win_x, 159);
}

#[test]
fn a_dma_request_is_latched() {
    let mut ppu = PPU::new();
    assert!(!ppu.oam_dma_request);
    ppu.mem_write(0xFF46, 0xC1);
    assert!(ppu.oam_dma_request);
    assert_eq!(ppu.oam_dma_source, 0xC1);
    assert_eq!(ppu.mem_read(0xFF46), 0xC1);
}

#[test]
fn palettes_pick_two_bits_per_colour() {
    for color in 0..4u8 {
        assert_eq!(get_palette_color(color, 0xE4), color);
        assert_eq!(get_palette_color(color, 0x1B), 3 - color);
    }
    assert_eq!(get_palette_color(2, 0b01_10_00_11), 0b10);
    assert_eq!(get_palette_color(0, 0b01_10_00_11), 0b11);
}

#[test]
fn a_background_of_one_tile_fills_the_frame() {
    let mut ppu = PPU::new();
    ppu.mem_write(0xFF40, 0x91);
    ppu.mem_write(0xFF47, 0xE4);
    for address in 0x9800..0x9C00u16 {
        ppu.mem_write(address, 0x01);
    }
    fill_tile(&mut ppu, 1, 0xFF, 0xFF);
    run(&mut ppu, 144 * LINE - 1);
    assert_eq!(ppu.frame(), &[0u32; 1440]);
    run(&mut ppu, 1);
    assert_eq!(ppu.frame(), &[0xFFFF_FFFFu32; 1440]);
    for y in 0..144 {
        for x in 0..160 {
            assert_eq!(pixel(ppu.frame(), x, y), 3);
        }
    }
}

#[test]
fn the_palette_maps_the_background() {
    let mut ppu = PPU::new();
    ppu.mem_write(0xFF40, 0x91);
    ppu.mem_write(0xFF47, 0b00_01_10_11);
    write_tile_row(&mut ppu, 0, 0, 0b0101_0101, 0b0011_0011);
    finish_frame(&mut ppu);
    let frame = ppu.frame();
    let colors = [0usize, 1, 2, 3, 0, 1, 2, 3];
    for x in 0..8 {
        assert_eq!(pixel(frame, x, 0) as usize, 3 - colors[x]);
    }
    assert_eq!(pixel(frame, 0, 1), 3);
    assert_eq!(pixel(frame, 8, 0), 3);
}

#[test]
fn the_background_scrolls_and_wraps() {
    let mut ppu = PPU::new();
    ppu.mem_write(0xFF40, 0x91);
    ppu.mem_write(0xFF47, 0xE4);
    fill_tile(&mut ppu, 1, 0xFF, 0x00);
    fill_tile(&mut ppu, 2, 0x00, 0xFF);
    ppu.mem_write(0x9800 + 31 * 32 + 31, 1);
    ppu.mem_write(0x9800, 2);
    ppu.mem_write(0xFF43, 252);
    ppu.mem_write(0xFF42, 250);
    finish_frame(&mut ppu);
    let frame = ppu.frame();
    assert_eq!(pixel(frame, 0, 0), 1);
    assert_eq!(pixel(frame, 3, 5), 1);
    assert_eq!(pixel(frame, 4, 5), 0);
    assert_eq!(pixel(frame, 3, 6), 0);
    assert_eq!(pixel(frame, 4, 6), 2);
    assert_eq!(pixel(frame, 11, 13), 2);
    assert_eq!(pixel(frame, 12, 13), 0);
    assert_eq!(pixel(frame, 11, 14), 0);
}

#[test]
fn the_second_tile_map_and_signed_tile_numbers() {
    let mut ppu = PPU::new();
    ppu.mem_write(0xFF40, 0x89);
    ppu.mem_write(0xFF47, 0xE4);
    ppu.mem_write(0x9C00, 0x00);
    ppu.mem_write(0x9C01, 0x80);
    ppu.mem_write(0x9C02, 0x7F);
    for row in 0..8 {
        ppu.mem_write(0x9000 + row * 2, 0xFF);
        ppu.mem_write(0x8800 + row * 2 + 1, 0xFF);
        ppu.mem_write(0x97F0 + row * 2, 0xFF);
        ppu.mem_write(0x97F0 + row * 2 + 1, 0xFF);
    }
    finish_frame(&mut ppu);
    let frame = ppu.frame();
    assert_eq!(pixel(frame, 0, 0), 1);
    assert_eq!(pixel(frame, 8, 0), 2);
    assert_eq!(pixel(frame, 16, 0), 3);
    assert_eq!(pixel(frame, 24, 0), 1);
}

#[test]
fn a_disabled_background_shows_colour_zero() {
    let mut ppu = PPU::new();
    ppu.mem_write(0xFF40, 0x90);
    ppu.mem_write(0xFF47, 0b11_10_01_10);
    fill_tile(&mut ppu, 0, 0xFF, 0xFF);
    finish_frame(&mut ppu);
    for word in ppu.frame().iter() {
        assert_eq!(*word, 0xAAAA_AAAA);
    }
}

#[test]
fn window_with_a_small_wx_starts_at_the_left_edge() {
    for wx in 0..7u8 {
        let mut ppu = PPU::new();
        ppu.mem_write(0xFF40, 0xF1);
        ppu.mem_write(0xFF47, 0xE4);
        ppu.mem_write(0xFF4A, 0);
        ppu.mem_write(0xFF4B, wx);
        fill_tile(&mut ppu, 1, 0xFF, 0xFF);
        for address in 0x9C00..0x9C14u16 {
            ppu.mem_write(address, 1);
        }
        finish_frame(&mut ppu);
        let frame = ppu.frame();
        for x in 0..160 {
            assert_eq!(pixel(frame, x, 0), 3);
            assert_eq!(pixel(frame, x, 7), 3);
            assert_eq!(pixel(frame, x, 8), 0);
        }
    }
}

#[test]
fn the_window_has_its_own_line_counter() {
    let mut ppu = PPU::new();
    ppu.mem_write(0xFF40, 0xF1);
    ppu.mem_write(0xFF47, 0xE4);
    ppu.mem_write(0xFF4A, 100);
    ppu.mem_write(0xFF4B, 7 + 80);
    write_tile_row(&mut ppu, 1, 0, 0xFF, 0x00);
    write_tile_row(&mut ppu, 1, 1, 0x00, 0xFF);
    ppu.mem_write(0x9C00, 1);
    finish_frame(&mut ppu);
    let frame = ppu.frame();
    assert_eq!(pixel(frame, 80, 99), 0);
    assert_eq!(pixel(frame, 79, 100), 0);
    assert_eq!(pixel(frame, 80, 100), 1);
    assert_eq!(pixel(frame, 87, 100), 1);
    assert_eq!(pixel(frame, 88, 100), 0);
    assert_eq!(pixel(frame, 80, 101), 2);
    assert_eq!(pixel(frame, 80, 102), 0);
    assert_eq!(ppu.win_line, 0);
}

#[test]
fn a_window_past_the_right_edge_does_not_count_lines() {
    let mut ppu = PPU::new();
    ppu.mem_write(0xFF40, 0xF1);
    ppu.mem_write(0xFF4A, 0);
    ppu.mem_write(0xFF4B, 167);
    run(&mut ppu, 10 * LINE);
    assert_eq!(ppu.win_line, 0);
    ppu.mem_write(0xFF4B, 166);
    run(&mut ppu, 10 * LINE);
    assert_eq!(ppu.win_line, 10);
}

fn sprite_scene(lcdc: u8) -> PPU {
    let mut ppu = PPU::new();
    ppu.mem_write(0xFF40, lcdc);
    ppu.mem_write(0xFF47, 0xE4);
    ppu.mem_write(0xFF48, 0xE4);
    ppu.mem_write(0xFF49, 0x1B);
    write_tile_row(&mut ppu, 2, 0, 0x81, 0x80);
    ppu
}

#[test]
fn a_sprite_is_drawn_over_the_background() {
    let mut ppu = sprite_scene(0x93);
    write_sprite(&mut ppu, 0, 16, 8, 2, 0x00);
    finish_frame(&mut ppu);
    let frame = ppu.frame();
    assert_eq!(pixel(frame, 0, 0), 3);
    assert_eq!(pixel(frame, 7, 0), 1);
    for x in 1..7 {
        assert_eq!(pixel(frame, x, 0), 0);
    }
    assert_eq!(pixel(frame, 8, 0), 0);
    assert_eq!(pixel(frame, 0, 1), 0);
}

#[test]
fn sprites_need_the_object_enable_bit() {
    let mut ppu = sprite_scene(0x91);
    write_sprite(&mut ppu, 0, 16, 8, 2, 0x00);
    finish_frame(&mut ppu);
    assert_eq!(ppu.frame(), &[0u32; 1440]);
}

#[test]
fn sprite_flips_mirror_the_tile() {
    let mut ppu = sprite_scene(0x93);
    write_sprite(&mut ppu, 0, 16, 8, 2, 0x20);
    write_sprite(&mut ppu, 1, 16, 24, 2, 0x40);
    write_sprite(&mut ppu, 2, 16, 40, 2, 0x60);
    finish_frame(&mut ppu);
    let frame = ppu.frame();
    assert_eq!(pixel(frame, 0, 0), 1);
    assert_eq!(pixel(frame, 7, 0), 3);
    assert_eq!(pixel(frame, 16, 0), 0);
    assert_eq!(pixel(frame, 16, 7), 3);
    assert_eq!(pixel(frame, 23, 7), 1);
    assert_eq!(pixel(frame, 32, 7), 1);
    assert_eq!(pixel(frame, 39, 7), 3);
}

#[test]
fn sprite_palette_flag_picks_obp1() {
    let mut ppu = sprite_scene(0x93);
    write_sprite(&mut ppu, 0, 16, 8, 2, 0x10);
    finish_frame(&mut ppu);
    let frame = ppu.frame();
    assert_eq!(pixel(frame, 0, 0), 0);
    assert_eq!(pixel(frame, 7, 0), 2);
    assert_eq!(pixel(frame, 1, 0), 0);
}

#[test]
fn sprite_priority_yields_to_background_colours() {
    let mut ppu = sprite_scene(0x93);
    write_tile_row(&mut ppu, 0, 0, 0x01, 0x00);
    write_sprite(&mut ppu, 0, 16, 8, 2, 0x80);
    write_sprite(&mut ppu, 1, 16, 16, 2, 0x00);
    finish_frame(&mut ppu);
    let frame = ppu.frame();
    assert_eq!(pixel(frame, 0, 0), 3);
    assert_eq!(pixel(frame, 7, 0), 1);
    assert_eq!(pixel(frame, 8, 0), 3);
    assert_eq!(pixel(frame, 15, 0), 1);
    let mut ppu = sprite_scene(0x93);
    write_tile_row(&mut ppu, 0, 0, 0x00, 0x01);
    write_sprite(&mut ppu, 0, 16, 8, 2, 0x80);
    finish_frame(&mut ppu);
    assert_eq!(pixel(ppu.frame(), 7, 0), 2);
    assert_eq!(pixel(ppu.frame(), 0, 0), 3);
}

#[test]
fn tall_sprites_use_a_pair_of_tiles() {
    let mut ppu = sprite_scene(0x97);
    write_tile_row(&mut ppu, 3, 0, 0xFF, 0x00);
    write_tile_row(&mut ppu, 3, 7, 0x00, 0xFF);
    write_sprite(&mut ppu, 0, 16, 8, 3, 0x00);
    write_sprite(&mut ppu, 1, 16, 24, 2, 0x40);
    finish_frame(&mut ppu);
    let frame = ppu.frame();
    assert_eq!(pixel(frame, 0, 0), 3);
    assert_eq!(pixel(frame, 3, 8), 1);
    assert_eq!(pixel(frame, 3, 15), 2);
    assert_eq!(pixel(frame, 3, 16), 0);
    assert_eq!(pixel(frame, 19, 0), 2);
    assert_eq!(pixel(frame, 19, 7), 1);
    assert_eq!(pixel(frame, 16, 15), 3);
    assert_eq!(pixel(frame, 23, 15), 1);
}

#[test]
fn at_most_ten_sprites_are_drawn_on_a_line() {
    let mut ppu = sprite_scene(0x93);
    for index in 0..12u16 {
        write_sprite(&mut ppu, index, 16, 8 + 8 * index as u8, 2, 0x00);
    }
    assert_eq!(ppu.get_sprites(0, 8).len(), 10);
    assert_eq!(ppu.get_sprites(8, 8).len(), 0);
    finish_frame(&mut ppu);
    let frame = ppu.frame();
    for index in 0..10 {
        assert_eq!(pixel(frame, 8 * index, 0), 3);
    }
    assert_eq!(pixel(frame, 80, 0), 0);
    assert_eq!(pixel(frame, 88, 0), 0);
}

#[test]
fn no_frame_draws_more_than_1440_sprites() {
    let mut ppu = PPU::new();
    for index in 0..40u16 {
        write_sprite(&mut ppu, index, 16 + (index as u8 % 4), index as u8 * 4, 0, 0);
    }
    for height in [8u8, 16] {
        let mut total = 0;
        for y in 0..144u8 {
            let listed = ppu.get_sprites(y, height);
            assert!(listed.len() <= 10);
            total += listed.len();
        }
        assert!(total <= 1440);
        assert!(total > 0);
    }
}

#[test]
fn sprites_are_listed_by_x_then_by_table_order() {
    let mut ppu = PPU::new();
    let xs = [50u8, 20, 50, 10, 20, 200, 0];
    for (index, x) in xs.iter().enumerate() {
        write_sprite(&mut ppu, index as u16, 16, *x, index as u8, 0);
    }
    write_sprite(&mut ppu, 7, 40, 5, 7, 0);
    let listed = ppu.get_sprites(0, 8);
    let order: Vec<u8> = listed.iter().map(|sprite| sprite.tile_index).collect();
    assert_eq!(order, vec![6, 3, 1, 4, 0, 2, 5]);
}

#[test]
fn the_sprite_with_the_smaller_x_wins() {
    let mut ppu = sprite_scene(0x93);
    fill_tile(&mut ppu, 4, 0xFF, 0x00);
    fill_tile(&mut ppu, 5, 0x00, 0xFF);
    write_sprite(&mut ppu, 0, 16, 10, 4, 0x00);
    write_sprite(&mut ppu, 1, 16, 8, 5, 0x00);
    write_sprite(&mut ppu, 2, 16, 48, 4, 0x00);
    write_sprite(&mut ppu, 3, 16, 48, 5, 0x00);
    finish_frame(&mut ppu);
    let frame = ppu.frame();
    assert_eq!(pixel(frame, 0, 0), 2);
    assert_eq!(pixel(frame, 2, 0), 2);
    assert_eq!(pixel(frame, 7, 0), 2);
    assert_eq!(pixel(frame, 8, 0), 1);
    assert_eq!(pixel(frame, 9, 0), 1);
    assert_eq!(pixel(frame, 10, 0), 0);
    assert_eq!(pixel(frame, 40, 0), 1);
}

#[test]
fn hidden_sprites_never_render() {
    let mut ppu = sprite_scene(0x93);
    fill_tile(&mut ppu, 4, 0xFF, 0xFF);
    write_sprite(&mut ppu, 0, 0, 8, 4, 0x00);
    write_sprite(&mut ppu, 1, 160, 24, 4, 0x00);
    write_sprite(&mut ppu, 2, 255, 40, 4, 0x00);
    for y in 0..144u8 {
        assert!(ppu.get_sprites(y, 8).is_empty());
        assert!(ppu.get_sprites(y, 16).is_empty());
    }
    finish_frame(&mut ppu);
    assert_eq!(ppu.frame(), &[0u32; 1440]);
    let mut ppu = sprite_scene(0x97);
    fill_tile(&mut ppu, 4, 0xFF, 0xFF);
    fill_tile(&mut ppu, 5, 0xFF, 0xFF);
    write_sprite(&mut ppu, 0, 0, 8, 4, 0x00);
    write_sprite(&mut ppu, 1, 160, 24, 4, 0x00);
    finish_frame(&mut ppu);
    assert_eq!(ppu.frame(), &[0u32; 1440]);
}

#[test]
fn sprites_at_the_edges_are_clipped() {
    let mut ppu = sprite_scene(0x93);
    fill_tile(&mut ppu, 4, 0xFF, 0xFF);
    write_sprite(&mut ppu, 0, 9, 1, 4, 0x00);
    write_sprite(&mut ppu, 1, 159, 167, 4, 0x00);
    write_sprite(&mut ppu, 2, 16, 0, 4, 0x00);
    write_sprite(&mut ppu, 3, 16, 168, 4, 0x00);
    finish_frame(&mut ppu);
    let frame = ppu.frame();
    assert_eq!(pixel(frame, 0, 0), 3);
    assert_eq!(pixel(frame, 1, 0), 0);
    assert_eq!(pixel(frame, 0, 1), 0);
    assert_eq!(pixel(frame, 159, 143), 3);
    assert_eq!(pixel(frame, 158, 143), 0);
    assert_eq!(pixel(frame, 159, 142), 0);
    assert_eq!(pixel(frame, 159, 0), 0);
}

#[test]
fn the_shown_frame_changes_only_at_vblank() {
    let mut ppu = PPU::new();
    ppu.mem_write(0xFF40, 0x91);
    ppu.mem_write(0xFF47, 0xE4);
    fill_tile(&mut ppu, 0, 0xFF, 0x00);
    run(&mut ppu, 100 * LINE);
    assert_eq!(ppu.frame(), &[0u32; 1440]);
    finish_frame(&mut ppu);
    assert_eq!(ppu.frame(), &[0x5555_5555u32; 1440]);
    fill_tile(&mut ppu, 0, 0x00, 0xFF);
    run(&mut ppu, 100 * LINE);
    assert_eq!(ppu.frame(), &[0x5555_5555u32; 1440]);
    finish_frame(&mut ppu);
    assert_eq!(ppu.frame(), &[0xAAAA_AAAAu32; 1440]);
    fill_tile(&mut ppu, 0, 0xFF, 0xFF);
    finish_frame(&mut ppu);
    assert_eq!(ppu.frame(), &[0xFFFF_FFFFu32; 1440]);
}

#[test]
fn switching_the_lcd_off_blanks_both_frames() {
    let mut ppu = PPU::new();
    ppu.mem_write(0xFF40, 0x91);
    ppu.mem_write(0xFF47, 0xE4);
    fill_tile(&mut ppu, 0, 0xFF, 0xFF);
    finish_frame(&mut ppu);
    run(&mut ppu, 20 * LINE + 100);
    ppu.mem_write(0xFF40, 0x11);
    assert_eq!(ppu.state, PPUState::Disabled);
    assert_eq!(ppu.mode, PPUMode::HBlank);
    assert_eq!((ppu.lx, ppu.ly), (0, 0));
    assert_eq!(ppu.frame(), &[0u32; 1440]);
    run(&mut ppu, 200 * LINE);
    assert_eq!((ppu.lx, ppu.ly), (0, 0));
    assert_eq!(ppu.mem_read(0xFF44), 0);
    assert_eq!(ppu.frame(), &[0u32; 1440]);
    assert!(!ppu.interrupt_request.intersects(INT_VBLANK | INT_LCD));
}

#[test]
fn the_first_frame_after_switching_on_stays_blank() {
    let mut ppu = PPU::new();
    ppu.mem_write(0xFF47, 0xE4);
    fill_tile(&mut ppu, 0, 0xFF, 0xFF);
    ppu.mem_write(0xFF40, 0x80);
    ppu.mem_write(0xFF40, 0x00);
    ppu.mem_write(0xFF40, 0x91);
    assert_eq!(ppu.state, PPUState::Starting);
    assert_eq!(ppu.mode, PPUMode::OAMScan);
    finish_frame(&mut ppu);
    assert_eq!(ppu.state, PPUState::Starting);
    assert_eq!(ppu.frame(), &[0u32; 1440]);
    run(&mut ppu, 10 * LINE);
    assert_eq!(ppu.state, PPUState::Active);
    assert_eq!(ppu.ly, 0);
    finish_frame(&mut ppu);
    assert_eq!(ppu.frame(), &[0xFFFF_FFFFu32; 1440]);
}

#[test]
fn switching_off_while_starting_blanks_both_frames() {
    let mut ppu = PPU::new();
    ppu.mem_write(0xFF40, 0x91);
    ppu.mem_write(0xFF47, 0xE4);
    fill_tile(&mut ppu, 0, 0xFF, 0xFF);
    finish_frame(&mut ppu);
    run(&mut ppu, 20 * LINE);
    finish_frame(&mut ppu);
    assert_eq!(ppu.frame(), &[0xFFFF_FFFFu32; 1440]);
    ppu.state = PPUState::Starting;
    ppu.mem_write(0xFF40, 0x11);
    assert_eq!(ppu.state, PPUState::Disabled);
    assert_eq!(ppu.frame(), &[0u32; 1440]);
    ppu.mem_write(0xFF40, 0x91);
    run(&mut ppu, 154 * LINE);
    ppu.mem_write(0xFF40, 0x90);
    finish_frame(&mut ppu);
    let shown = *ppu.frame();
    finish_frame(&mut ppu);
    assert_eq!(shown, *ppu.frame());
}
