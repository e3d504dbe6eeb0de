use handy::bundle_icon::{
    accent_ico_frames, encode_ico_frames, sidecar_ico_path, square_canvas, SIDECAR_ICO_NAME,
};
use handy::icon_tint::DEFAULT_ACCENT;

#[test]
fn sidecar_sits_beside_the_executable() {
    let path = sidecar_ico_path(Ok("/opt/handy".to_string())).unwrap();
    assert!(path.starts_with("/opt/handy"));
    assert!(path.ends_with(SIDECAR_ICO_NAME));
    assert_eq!(
        std::path::Path::new(&path),
        std::path::Path::new("/opt/handy").join("handy-accent.ico")
    );
    assert_eq!(sidecar_ico_path(Ok(String::new())).unwrap(), "handy-accent.ico");
    assert_eq!(sidecar_ico_path(Err("no exe".to_string())), Err("no exe".to_string()));
}

#[test]
fn square_images_are_kept() {
    let rgba = vec![1u8, 2, 3, 4];
    let canvas = square_canvas(rgba.clone(), 1, 1);
    assert_eq!(canvas.side, 1);
    assert_eq!(canvas.pixels, rgba);
}

#[test]
fn wide_images_are_centred_on_a_transparent_square() {
    // A 2x1 opaque red image on a 2x2 canvas lands on the top row (offset 0).
    let rgba = vec![255u8, 0, 0, 255, 255, 0, 0, 255];
    let canvas = square_canvas(rgba, 2, 1);
    assert_eq!(canvas.side, 2);
    assert_eq!(canvas.pixels.len(), 16);
    assert_eq!(&canvas.pixels[0..8], &[255, 0, 0, 255, 255, 0, 0, 255]);
    assert_eq!(&canvas.pixels[8..16], &[0u8; 8]);
    // A 1x3 image on a 3x3 canvas goes to the middle column.
    let tall = vec![9u8, 9, 9, 255, 9, 9, 9, 255, 9, 9, 9, 255];
    let canvas = square_canvas(tall, 1, 3);
    assert_eq!(canvas.side, 3);
    for row in 0..3 {
        let base = row * 12;
        assert_eq!(&canvas.pixels[base..base + 4], &[0, 0, 0, 0]);
        assert_eq!(&canvas.pixels[base + 4..base + 8], &[9, 9, 9, 255]);
        assert_eq!(&canvas.pixels[base + 8..base + 12], &[0, 0, 0, 0]);
    }
}

#[test]
fn icon_frames_come_in_every_size_largest_first() {
    // A uniform opaque 2x2 canvas: resizing keeps it uniform, and the
    // mapping paints every opaque pixel.
    let canvas = square_canvas(vec![250, 162, 202, 255].repeat(4), 2, 2);
    let frames = accent_ico_frames(&canvas, (1, 2, 3), &|_: u8, _: u8, _: u8| (1u8, 2u8, 3u8));
    let sizes: Vec<u32> = frames.iter().map(|f| f.size).collect();
    assert_eq!(sizes, vec![256, 128, 64, 48, 32, 24, 16]);
    for frame in &frames {
        let n = frame.size as usize;
        assert_eq!(frame.rgba.len(), 4 * n * n);
        assert_eq!(&frame.rgba[0..4], &[1, 2, 3, 255]);
    }
}

#[test]
fn icon_frames_keep_the_default_accent() {
    let canvas = square_canvas(vec![250, 162, 202, 255].repeat(4), 2, 2);
    let frames = accent_ico_frames(&canvas, DEFAULT_ACCENT, &|_: u8, _: u8, _: u8| (0u8, 0u8, 0u8));
    assert_eq!(frames.len(), 7);
    let last = &frames[6];
    assert_eq!(last.size, 16);
    assert_eq!(&last.rgba[0..4], &[250, 162, 202, 255]);
}

#[test]
fn icon_frames_encode_in_order() {
    let canvas = square_canvas(vec![250, 162, 202, 255].repeat(4), 2, 2);
    let frames = accent_ico_frames(&canvas, (59, 130, 246), &|_: u8, _: u8, _: u8| (59u8, 130u8, 246u8));
    let entries = encode_ico_frames(frames).ok().unwrap();
    let sides: Vec<u32> = entries.iter().map(|e| e.size()).collect();
    assert_eq!(sides, vec![256, 128, 64, 48, 32, 24, 16]);
    assert!(entries.iter().all(|e| !e.data().is_empty()));
    for entry in entries {
        let size = entry.size();
        let data = entry.data().clone();
        let icon = entry.into_entry();
        assert_eq!((icon.width(), icon.height()), (size, size));
        assert_eq!(icon.data(), &data[..]);
    }
}

#[test]
fn frames_of_the_canvas_size_are_the_canvas_recoloured() {
    // A 16x16 canvas: its 16-pixel frame is a copy, recoloured.
    let canvas = square_canvas(vec![1, 2, 3, 255].repeat(256), 16, 16);
    let frames = accent_ico_frames(&canvas, (9, 9, 9), &|r: u8, g: u8, b: u8| (r + 1, g + 1, b + 1));
    assert_eq!(frames[6].size, 16);
    assert_eq!(frames[6].rgba, vec![2, 3, 4, 255].repeat(256));
}

#[test]
fn transparent_canvases_give_transparent_frames() {
    let canvas = square_canvas(vec![0; 4 * 9], 3, 3);
    let frames = accent_ico_frames(&canvas, (9, 9, 9), &|_: u8, _: u8, _: u8| (7u8, 7u8, 7u8));
    for frame in &frames {
        assert!(frame.rgba.iter().all(|&b| b == 0));
    }
}
