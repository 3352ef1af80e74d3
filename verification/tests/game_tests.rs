use dutchman::controls::{Controls, Key, KeyAction};
use dutchman::game::{
    load, tile_sprite_records, update_and_render, DrawCmd, Game, GameEvent, GlData, Options,
    TILE_COUNT,
};
use dutchman::geom::Vec2;
use dutchman::sprite::SpriteData;

fn gl_data() -> GlData {
    GlData {
        vao: 1,
        square_vbo: 2,
        square_ebo: 3,
        shader_prog: 4,
        cam_pos_uniform: 0,
        scale_uniform: 1,
        sprite_size_uniform: 2,
        screen_size_uniform: 3,
        tex_uniform: 4,
        frames_uniform: 5,
        zero_zero_tex: 0,
        zero_zero_vbo: 10,
        tile_tex: 1,
        tile_vbo: 11,
        player_tex: 2,
        player_vbo: 12,
    }
}

/// A well-formed game: open floor everywhere except where a test plants
/// walls, with the grid's corner at the world origin.
fn open_floor_game() -> Game {
    Game {
        initialized: true,
        debug_flag: 0,
        zero_zero_sprite: SpriteData { x: 0, y: 0, frame: -1, flipped: false },
        tilemap_position: Vec2 { x: 0, y: 0 },
        tilemap: vec![2; TILE_COUNT],
        player_state: SpriteData { x: 0, y: 0, frame: 1, flipped: false },
        cam_pos: Vec2 { x: 0, y: 0 },
    }
}

#[test]
fn first_load_initializes_exactly_the_documented_state() {
    let mut g = Game::new_zeroed();
    let mut o = Options { controls: Controls::new() };
    let plan = load(&mut g, &mut o, true);
    assert!(plan.performed_init);
    assert!(plan.recreate_gl_objects);
    assert!(plan.recompile_shaders);
    assert!(g.initialized);
    assert_eq!(g.cam_pos, Vec2 { x: 0, y: 0 });
    assert_eq!(
        g.player_state,
        SpriteData { x: 256000, y: 256000, frame: 1, flipped: true }
    );
    assert_eq!(g.tilemap_position, Vec2 { x: 20000, y: 128000 });
    assert_eq!(g.tilemap.len(), TILE_COUNT);
    // Border row, floor row, and the decorated cells.
    assert!(g.tilemap[0..10].iter().all(|&t| t == 9));
    assert_eq!(g.tilemap[11], 2);
    assert_eq!(g.tilemap[42], 11);
    assert_eq!(g.tilemap[94], 7);
    assert_eq!(g.tilemap[91], 8);
}

#[test]
fn reload_preserves_initialized_state() {
    let mut g = Game::new_zeroed();
    let mut o = Options { controls: Controls::new() };
    load(&mut g, &mut o, true);
    // Scuff the state so preservation is observable.
    g.player_state.x = 300000;
    g.cam_pos = Vec2 { x: 123, y: 456 };
    g.tilemap[55] = 11;
    o.controls.begin_frame();
    o.controls.process_key(Key::W, KeyAction::Press);

    // Warm reload: module swapped, persisted block already initialized.
    let plan = load(&mut g, &mut o, false);
    assert!(!plan.performed_init);
    assert!(!plan.recreate_gl_objects);
    assert!(plan.recompile_shaders);
    // The one-time block did not re-run: everything is as it was.
    assert_eq!(g.player_state.x, 300000);
    assert_eq!(g.cam_pos, Vec2 { x: 123, y: 456 });
    assert_eq!(g.tilemap[55], 11);
    // A warm reload also keeps the live input state.
    assert!(o.controls.up.down());

    // A fresh module image resets the controls but still not the state.
    let plan2 = load(&mut g, &mut o, true);
    assert!(!plan2.performed_init);
    assert!(plan2.recreate_gl_objects);
    assert_eq!(g.player_state.x, 300000);
    assert!(!o.controls.up.down());
}

#[test]
fn tile_records_cover_the_grid_row_major() {
    let mut g = Game::new_zeroed();
    let mut o = Options { controls: Controls::new() };
    load(&mut g, &mut o, true);
    let records = tile_sprite_records(&g);
    assert_eq!(records.len(), TILE_COUNT);
    assert_eq!(records[0].x, 20000);
    assert_eq!(records[0].y, 128000);
    assert_eq!(records[0].frame, 9);
    // Slot 47: column 7, row 4.
    assert_eq!(records[47].x, 20000 + 7 * 32000);
    assert_eq!(records[47].y, 128000 + 4 * 32000);
    assert_eq!(records[47].frame, g.tilemap[47]);
}

#[test]
fn walking_right_moves_by_speed_times_delta() {
    let mut g = open_floor_game();
    let mut o = Options { controls: Controls::new() };
    let events = vec![GameEvent::Key(Key::D, KeyAction::Press)];
    // 160 ms at 100 px/s: 16 pixels, i.e. 16000 subpixels.
    let out = update_and_render(&mut g, &mut o, &gl_data(), 160, &events);
    assert_eq!(g.player_state.x, 16000);
    assert_eq!(g.player_state.y, 0);
    assert_eq!(g.player_state.frame, 1);
    assert!(g.player_state.flipped);
    assert_eq!(out.player_upload, g.player_state);
    assert!(!out.close_requested);
}

#[test]
fn wall_on_the_right_snaps_to_one_pixel_before_it() {
    // Player at the origin, probe 16 px right of it, wall tile in
    // column 1: its left edge is at x = 32 px.
    let mut g = open_floor_game();
    g.tilemap[1] = 9;
    let mut o = Options { controls: Controls::new() };
    let events = vec![GameEvent::Key(Key::D, KeyAction::Press)];
    // A 32 px step, twice the 16 px gap to the wall.
    update_and_render(&mut g, &mut o, &gl_data(), 320, &events);
    // Snapped: the probe ends one pixel outside the wall, so the
    // position is 32 - 16 - 1 = 15 px, not beyond the boundary.
    assert_eq!(g.player_state.x, 15000);
    assert_eq!(g.player_state.y, 0);

    // A larger step that still lands in the same wall tile snaps to the
    // same place.
    let mut g2 = open_floor_game();
    g2.tilemap[1] = 9;
    let mut o2 = Options { controls: Controls::new() };
    let events2 = vec![GameEvent::Key(Key::D, KeyAction::Press)];
    update_and_render(&mut g2, &mut o2, &gl_data(), 470, &events2);
    assert_eq!(g2.player_state.x, 15000);
}

#[test]
fn free_movement_is_unobstructed_on_floor() {
    let mut g = Game::new_zeroed();
    let mut o = Options { controls: Controls::new() };
    load(&mut g, &mut o, true);
    let events = vec![GameEvent::Key(Key::D, KeyAction::Press)];
    update_and_render(&mut g, &mut o, &gl_data(), 160, &events);
    // From the spawn point the floor is open to the right.
    assert_eq!(g.player_state.x, 272000);
    assert_eq!(g.player_state.y, 256000);
}

#[test]
fn camera_eases_toward_the_player_without_overshoot() {
    let mut g = open_floor_game();
    g.player_state.x = 100000;
    let mut o = Options { controls: Controls::new() };
    let events: Vec<GameEvent> = Vec::new();
    // 10 ms step: the camera covers rate * gap * dt = 10 * gap * 0.01,
    // a tenth of the gap: 10000 subpixels of the 100000 gap.
    let out = update_and_render(&mut g, &mut o, &gl_data(), 10, &events);
    assert_eq!(g.cam_pos.x, 10000);
    assert_eq!(out.cam_pos, g.cam_pos);
    // Repeated frames converge monotonically and never pass the player.
    let mut last_gap = 100000 - g.cam_pos.x;
    for _ in 0..100 {
        update_and_render(&mut g, &mut o, &gl_data(), 10, &Vec::new());
        let gap = 100000 - g.cam_pos.x;
        assert!(gap >= 0, "camera overshot the player");
        assert!(gap <= last_gap, "camera gap grew");
        last_gap = gap;
    }
    // A long frame covers the whole gap at once, stopping exactly there.
    update_and_render(&mut g, &mut o, &gl_data(), 1000, &Vec::new());
    assert_eq!(g.cam_pos.x, g.player_state.x);
}

#[test]
fn escape_requests_close_and_resize_updates_viewport() {
    let mut g = open_floor_game();
    let mut o = Options { controls: Controls::new() };
    let events = vec![
        GameEvent::Resize(800, 600),
        GameEvent::Key(Key::Escape, KeyAction::Press),
        GameEvent::Resize(640, 480),
        GameEvent::Other,
    ];
    let out = update_and_render(&mut g, &mut o, &gl_data(), 16, &events);
    assert!(out.close_requested);
    // The last resize wins.
    assert_eq!(out.viewport, Some((640, 480)));
    // Escape is not a tracked control.
    assert!(!o.controls.up.down());
}

#[test]
fn frame_output_lists_the_fixed_draw_order() {
    let mut g = open_floor_game();
    let mut o = Options { controls: Controls::new() };
    let out = update_and_render(&mut g, &mut o, &gl_data(), 16, &Vec::new());
    assert_eq!(out.draws.len(), 3);
    assert_eq!(
        out.draws[0],
        DrawCmd { texture: 0, vbo: 10, instance_count: 1, frame_size: None }
    );
    assert_eq!(
        out.draws[1],
        DrawCmd { texture: 1, vbo: 11, instance_count: TILE_COUNT, frame_size: Some((32, 32)) }
    );
    assert_eq!(
        out.draws[2],
        DrawCmd { texture: 2, vbo: 12, instance_count: 1, frame_size: Some((32, 32)) }
    );
}

#[test]
fn stepped_on_tile_is_synced_at_its_byte_offset() {
    let mut g = Game::new_zeroed();
    let mut o = Options { controls: Controls::new() };
    load(&mut g, &mut o, true);
    let out = update_and_render(&mut g, &mut o, &gl_data(), 0, &Vec::new());
    // Player probe at (272, 256) px; grid corner (20, 128): tile (7, 4),
    // slot 47, 16 bytes per record.
    let up = out.tile_upload.expect("probe is inside the grid");
    assert_eq!(up.index, 47);
    assert_eq!(up.byte_offset, 47 * 16);
    assert_eq!(up.record.x, 20000 + 7 * 32000);
    assert_eq!(up.record.y, 128000 + 4 * 32000);
    assert_eq!(up.record.frame, 0);

    // Probe outside the grid: nothing to sync.
    let mut g2 = open_floor_game();
    g2.player_state.x = -400000;
    let out2 = update_and_render(&mut g2, &mut o, &gl_data(), 0, &Vec::new());
    assert!(out2.tile_upload.is_none());
}

#[test]
fn debug_edge_reports_the_player_tile_once() {
    let mut g = Game::new_zeroed();
    let mut o = Options { controls: Controls::new() };
    load(&mut g, &mut o, true);
    let events = vec![GameEvent::Key(Key::B, KeyAction::Press)];
    let out = update_and_render(&mut g, &mut o, &gl_data(), 0, &events);
    assert_eq!(out.debug_tile, Some((7, 4)));
    // Next frame, key still held: the edge is gone.
    let out2 = update_and_render(&mut g, &mut o, &gl_data(), 0, &Vec::new());
    assert_eq!(out2.debug_tile, None);
}
