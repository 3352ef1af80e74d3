use std::io::Cursor;

use dutchman::texture::{Texture, TextureError, TextureManager, Uv, MAX_TEXTURES};

/// Encode a tiny RGBA image as PNG bytes, entirely in memory.
fn png_bytes(width: u32, height: u32, rgba: Vec<u8>) -> Vec<u8> {
    let img = image::RgbaImage::from_raw(width, height, rgba).unwrap();
    let dynimg = image::DynamicImage::ImageRgba8(img);
    let mut buf: Vec<u8> = Vec::new();
    dynimg
        .write_to(&mut Cursor::new(&mut buf), image::ImageFormat::Png)
        .unwrap();
    buf
}

#[test]
fn add_frames_packs_row_major_from_top() {
    let mut t = Texture::new(1, 64, 64, "sheet.png".to_string());
    t.add_frames(32, 32, 3).unwrap();
    assert_eq!(t.frames.len(), 3);
    // Top row fills left to right, then the next row down.
    assert_eq!((t.frames[0].x, t.frames[0].y), (0, 32));
    assert_eq!((t.frames[1].x, t.frames[1].y), (32, 32));
    assert_eq!((t.frames[2].x, t.frames[2].y), (0, 0));
    for f in &t.frames {
        assert_eq!((f.w, f.h), (32, 32));
    }
}

#[test]
fn add_frames_texcoords_stay_inside_unit_square() {
    let mut t = Texture::new(1, 96, 64, "sheet2.png".to_string());
    t.add_frames(32, 32, 6).unwrap();
    assert_eq!(t.frames.len(), 6);
    for f in &t.frames {
        for uv in [
            f.texcoords.top_right,
            f.texcoords.bottom_right,
            f.texcoords.bottom_left,
            f.texcoords.top_left,
        ] {
            // A corner is inside [0,1]^2 exactly when its numerator does
            // not exceed the texture dimension.
            assert!(uv.u <= 96);
            assert!(uv.v <= 64);
            let u_norm = uv.u as f32 / 96.0;
            let v_norm = uv.v as f32 / 64.0;
            assert!((0.0..=1.0).contains(&u_norm));
            assert!((0.0..=1.0).contains(&v_norm));
        }
    }
}

#[test]
fn add_frames_over_capacity_fails_and_leaves_no_partial_state() {
    let mut t = Texture::new(1, 64, 64, "sheet3.png".to_string());
    // Capacity is a 2 x 2 grid of 32 x 32 frames.
    assert_eq!(t.add_frames(32, 32, 5), Err(TextureError::FrameOverflow));
    assert_eq!(t.frames.len(), 0);
    // A fitting request still succeeds afterwards.
    t.add_frames(32, 32, 4).unwrap();
    assert_eq!(t.frames.len(), 4);
    // And a later overflowing request leaves the good frames alone.
    assert_eq!(t.add_frames(16, 16, 17), Err(TextureError::FrameOverflow));
    assert_eq!(t.frames.len(), 4);
    assert_eq!((t.frames[3].x, t.frames[3].y), (32, 0));
}

#[test]
fn capacity_is_the_whole_frame_grid_not_the_area() {
    // 48 px of width hold only one whole 32-px column: the grid is
    // 1 x 2, even though three frames' worth of raw area would fit.
    let mut t = Texture::new(1, 48, 64, "sheet6.png".to_string());
    assert_eq!(t.add_frames(32, 32, 3), Err(TextureError::FrameOverflow));
    t.add_frames(32, 32, 2).unwrap();
    assert_eq!(t.frames.len(), 2);
    assert_eq!((t.frames[0].x, t.frames[0].y), (0, 32));
    assert_eq!((t.frames[1].x, t.frames[1].y), (0, 0));
}

#[test]
fn texcoords_round_trip_recovers_the_rectangle() {
    let mut t = Texture::new(1, 64, 64, "sheet4.png".to_string());
    t.add_frames(32, 32, 2).unwrap();
    let f = &t.frames[1];
    // The corners hold exact pixel numerators: scaling the normalized
    // coordinate back by the texture size recovers position and
    // position + size exactly.
    assert_eq!(f.texcoords.bottom_left, Uv { u: f.x, v: f.y });
    assert_eq!(f.texcoords.top_right, Uv { u: f.x + f.w, v: f.y + f.h });
    let u0 = f.texcoords.bottom_left.u as f32 / 64.0;
    let v0 = f.texcoords.bottom_left.v as f32 / 64.0;
    let u1 = f.texcoords.top_right.u as f32 / 64.0;
    let v1 = f.texcoords.top_right.v as f32 / 64.0;
    assert_eq!((u0 * 64.0, v0 * 64.0), (f.x as f32, f.y as f32));
    assert_eq!((u1 * 64.0, v1 * 64.0), ((f.x + f.w) as f32, (f.y + f.h) as f32));
}

#[test]
fn texcoords_buffer_flattens_four_corners_per_frame() {
    let mut t = Texture::new(1, 64, 64, "sheet5.png".to_string());
    t.add_frames(32, 32, 3).unwrap();
    t.generate_texcoords_buffer();
    assert_eq!(t.texcoords_buffer.len(), 12);
    for (i, f) in t.frames.iter().enumerate() {
        assert_eq!(t.texcoords_buffer[i * 4], f.texcoords.top_right);
        assert_eq!(t.texcoords_buffer[i * 4 + 1], f.texcoords.bottom_right);
        assert_eq!(t.texcoords_buffer[i * 4 + 2], f.texcoords.bottom_left);
        assert_eq!(t.texcoords_buffer[i * 4 + 3], f.texcoords.top_left);
    }
}

#[test]
fn registry_load_decodes_and_uploads_once() {
    let mut m = TextureManager::new();
    let red: Vec<u8> = vec![255, 0, 0, 255, 0, 255, 0, 255];
    let bytes = png_bytes(2, 1, red.clone());
    let (handle, upload) = m.load("red.png".to_string(), &bytes, 41).unwrap();
    assert_eq!(handle, 0);
    // The upload carries the decoded pixels, not the encoded file: this
    // fails if the decoder handed its input back unchanged.
    let cmd = upload.expect("first load must upload");
    assert_eq!((cmd.id, cmd.width, cmd.height), (41, 2, 1));
    assert_eq!(cmd.pixels, red);
    assert_ne!(cmd.pixels, bytes);
    assert_eq!(m.textures[0].width, 2);
    assert_eq!(m.textures[0].height, 1);
}

#[test]
fn registry_load_is_idempotent_per_filename() {
    let mut m = TextureManager::new();
    let bytes = png_bytes(1, 1, vec![9, 8, 7, 255]);
    let (first, upload1) = m.load("a.png".to_string(), &bytes, 1).unwrap();
    assert!(upload1.is_some());
    let (second, upload2) = m.load("a.png".to_string(), &bytes, 2).unwrap();
    // Identical handle both times, and exactly one upload.
    assert_eq!(first, second);
    assert!(upload2.is_none());
    assert_eq!(m.textures.len(), 1);
    // A different file gets the next slot.
    let (third, upload3) = m.load("b.png".to_string(), &bytes, 3).unwrap();
    assert_eq!(third, 1);
    assert!(upload3.is_some());
}

#[test]
fn registry_rejects_undecodable_bytes() {
    let mut m = TextureManager::new();
    let junk: Vec<u8> = b"not an image at all".to_vec();
    assert_eq!(
        m.load("junk.bin".to_string(), &junk, 1),
        Err(TextureError::DecodeFailed)
    );
    assert_eq!(m.textures.len(), 0);
}

#[test]
fn registry_has_fixed_capacity() {
    let mut m = TextureManager::new();
    let bytes = png_bytes(1, 1, vec![0, 0, 0, 255]);
    for i in 0..MAX_TEXTURES {
        let (handle, _) = m
            .load(format!("t{}.png", i), &bytes, i as u32)
            .unwrap();
        assert_eq!(handle, i);
    }
    assert_eq!(
        m.load("one-too-many.png".to_string(), &bytes, 99),
        Err(TextureError::RegistryFull)
    );
}

#[test]
fn registry_unload_frees_by_name_and_keeps_handles_stable() {
    let mut m = TextureManager::new();
    let bytes = png_bytes(1, 1, vec![1, 2, 3, 255]);
    m.load("a.png".to_string(), &bytes, 11).unwrap();
    m.load("b.png".to_string(), &bytes, 22).unwrap();
    // Unloading hands back the GPU handle to delete and keeps the slot.
    assert_eq!(m.unload(&"a.png".to_string()), Some(11));
    assert_eq!(m.textures.len(), 2);
    assert!(!m.textures[0].loaded);
    // The other handle still means what it meant.
    assert!(m.textures[1].loaded);
    assert_eq!(m.textures[1].id, 22);
    // A second unload finds nothing.
    assert_eq!(m.unload(&"a.png".to_string()), None);
    assert_eq!(m.unload_at(5), None);
}
