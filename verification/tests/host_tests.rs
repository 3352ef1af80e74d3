use dutchman::shader::{
    frames_fit_uniform, shader_reload_outcome, ShaderOutcome, ATTR_FLIPPED, ATTR_FRAME,
    ATTR_POSITION, ATTR_VERTEX_POS, FRAME_UNIFORM_MAX,
};
use dutchman::sprite::{
    instance_byte_offset, DisplayList, Sprite, SPRITE_FLIPPED_OFFSET, SPRITE_FRAME_OFFSET,
    SPRITE_POSITION_OFFSET, SPRITE_RECORD_BYTES,
};
use dutchman::watch::{is_updated_module_file, str_contains, str_eq};

#[test]
fn instance_records_match_the_shader_wire_format() {
    // The vertex shader reads these as raw attribute streams; the
    // offsets and stride are a fixed wire format.
    assert_eq!(SPRITE_POSITION_OFFSET, 0);
    assert_eq!(SPRITE_FRAME_OFFSET, 8);
    assert_eq!(SPRITE_FLIPPED_OFFSET, 12);
    assert_eq!(SPRITE_RECORD_BYTES, 16);
    assert_eq!(instance_byte_offset(0), 0);
    assert_eq!(instance_byte_offset(3), 48);
    assert_eq!(instance_byte_offset(47), 752);
    assert_eq!(
        (ATTR_VERTEX_POS, ATTR_POSITION, ATTR_FRAME, ATTR_FLIPPED),
        (0, 1, 2, 3)
    );
}

#[test]
fn frame_uniform_guard_counts_four_corners_per_frame() {
    assert_eq!(FRAME_UNIFORM_MAX, 256);
    assert!(frames_fit_uniform(0));
    assert!(frames_fit_uniform(14));
    assert!(frames_fit_uniform(63));
    assert!(!frames_fit_uniform(64));
    assert!(!frames_fit_uniform(1000));
}

#[test]
fn shader_failure_is_fatal_only_without_a_working_program() {
    assert_eq!(shader_reload_outcome(true, false), ShaderOutcome::UseNew);
    assert_eq!(shader_reload_outcome(true, true), ShaderOutcome::UseNew);
    assert_eq!(
        shader_reload_outcome(false, true),
        ShaderOutcome::KeepPrevious
    );
    assert_eq!(shader_reload_outcome(false, false), ShaderOutcome::Fatal);
}

#[test]
fn display_list_appends_until_full() {
    let mut d = DisplayList::new(5, 2);
    assert!(d.add_sprite(Sprite { vbo: 1, buffer_index: 0 }));
    assert!(d.add_sprite(Sprite { vbo: 2, buffer_index: 1 }));
    assert_eq!(d.sprites.len(), 2);
    // Out of room: refused, nothing changes.
    assert!(!d.add_sprite(Sprite { vbo: 3, buffer_index: 2 }));
    assert_eq!(d.sprites.len(), 2);
    assert_eq!(d.sprites[0].vbo, 1);
    assert_eq!(d.sprites[1].vbo, 2);
}

#[test]
fn display_list_recycles_freed_slots_first() {
    let mut d = DisplayList::new(5, 4);
    d.add_sprite(Sprite { vbo: 1, buffer_index: 0 });
    d.add_sprite(Sprite { vbo: 2, buffer_index: 1 });
    // Slot 0 is marked free; the next insert must land there.
    d.unused_indices.push(0);
    let placed = d.insert_sprite(Sprite { vbo: 7, buffer_index: 9 });
    assert_eq!(placed, Some(0));
    assert_eq!(d.sprites[0].vbo, 7);
    assert_eq!(d.sprites.len(), 2);
    // With no free slot, inserts append again.
    let placed2 = d.insert_sprite(Sprite { vbo: 8, buffer_index: 2 });
    assert_eq!(placed2, Some(2));
    assert_eq!(d.sprites.len(), 3);
}

#[test]
fn module_file_recognition() {
    assert!(is_updated_module_file(
        "dutchman_game-2.dll",
        "dutchman_game-1.dll"
    ));
    // The running image itself is not an update.
    assert!(!is_updated_module_file(
        "dutchman_game-1.dll",
        "dutchman_game-1.dll"
    ));
    // Unrelated files are not module images.
    assert!(!is_updated_module_file("readme.txt", "dutchman_game-1.dll"));
    assert!(!is_updated_module_file(
        "dutchman_game.pdb",
        "dutchman_game-1.dll"
    ));
}

#[test]
fn substring_and_equality_checks() {
    assert!(str_contains("abcde", "bcd"));
    assert!(str_contains("abcde", ""));
    assert!(str_contains("abcde", "abcde"));
    assert!(!str_contains("abcde", "bce"));
    assert!(!str_contains("ab", "abc"));
    assert!(str_eq("same", "same"));
    assert!(!str_eq("same", "sama"));
    assert!(!str_eq("same", "sam"));
}
