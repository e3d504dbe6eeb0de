use handy::icon_tint::{
    needs_tint, parse_hex_color, recolor_rgba, DEFAULT_ACCENT,
};

#[test]
fn parse_six_digit_hex() {
    assert_eq!(parse_hex_color("#3b82f6"), Some((59, 130, 246)));
    assert_eq!(parse_hex_color("3b82f6"), Some((59, 130, 246)));
}

#[test]
fn parse_three_digit_hex() {
    assert_eq!(parse_hex_color("#f0a"), Some((255, 0, 170)));
}

#[test]
fn parse_rejects_invalid() {
    assert_eq!(parse_hex_color(""), None);
    assert_eq!(parse_hex_color("not-a-color"), None);
}

#[test]
fn default_accent_does_not_need_tint() {
    assert!(!needs_tint(DEFAULT_ACCENT));
    assert!(needs_tint((59, 130, 246)));
}

#[test]
fn parse_trims_and_accepts_upper_case() {
    assert_eq!(parse_hex_color("  #FAA2CA \n"), Some(DEFAULT_ACCENT));
    assert_eq!(parse_hex_color("#ABC"), Some((170, 187, 204)));
    assert_eq!(parse_hex_color("   "), None);
    assert_eq!(parse_hex_color("#"), None);
}

#[test]
fn parse_rejects_wrong_lengths_and_digits() {
    assert_eq!(parse_hex_color("#12345"), None);
    assert_eq!(parse_hex_color("#1234567"), None);
    assert_eq!(parse_hex_color("#12g456"), None);
    assert_eq!(parse_hex_color("##123456"), None);
}

#[test]
fn channels_hold_hex_digits_only() {
    assert_eq!(parse_hex_color("+f+f+f"), None);
    assert_eq!(parse_hex_color("+ff000"), None);
    assert_eq!(parse_hex_color("#+0a"), None);
    assert_eq!(parse_hex_color("#-1-1-1"), None);
}

#[test]
fn non_ascii_values_are_no_colour() {
    assert_eq!(parse_hex_color("aé123"), None);
    assert_eq!(parse_hex_color("é1"), None);
    assert_eq!(parse_hex_color("ąąą"), None);
    assert_eq!(parse_hex_color("aąxyz"), None);
    assert_eq!(parse_hex_color("#3b82f6"), Some((59, 130, 246)));
}

fn relative_luminance(r: u8, g: u8, b: u8) -> f32 {
    0.2126 * f32::from(r) + 0.7152 * f32::from(g) + 0.0722 * f32::from(b)
}

/// The shell's colour mapping: the target scaled by the pixel's luminance
/// relative to the default accent's.
fn luminance_tint(target: (u8, u8, u8)) -> impl Fn(u8, u8, u8) -> (u8, u8, u8) {
    let src_lum = relative_luminance(DEFAULT_ACCENT.0, DEFAULT_ACCENT.1, DEFAULT_ACCENT.2);
    move |r, g, b| {
        let ratio = relative_luminance(r, g, b) / src_lum;
        (
            (f32::from(target.0) * ratio).clamp(0.0, 255.0) as u8,
            (f32::from(target.1) * ratio).clamp(0.0, 255.0) as u8,
            (f32::from(target.2) * ratio).clamp(0.0, 255.0) as u8,
        )
    }
}

#[test]
fn recolor_maps_source_accent_to_target() {
    let mut rgba = vec![250, 162, 202, 255];
    recolor_rgba(&mut rgba, (59, 130, 246), &luminance_tint((59, 130, 246)));
    assert_ne!((rgba[0], rgba[1], rgba[2]), DEFAULT_ACCENT);
    assert_eq!(rgba[3], 255);
}

#[test]
fn recolor_preserves_transparent_pixels() {
    let mut rgba = vec![0, 0, 0, 0, 250, 162, 202, 128];
    recolor_rgba(&mut rgba, (59, 130, 246), &luminance_tint((59, 130, 246)));
    assert_eq!(&rgba[0..4], &[0, 0, 0, 0]);
    assert_ne!(rgba[4], 250);
}

#[test]
fn recolor_default_target_is_unchanged() {
    let mut rgba = vec![250, 162, 202, 255, 249, 161, 201, 200];
    let expected = rgba.clone();
    recolor_rgba(&mut rgba, DEFAULT_ACCENT, &luminance_tint(DEFAULT_ACCENT));
    assert_eq!(rgba, expected);
}

#[test]
fn recolor_uses_the_mapping_only_on_opaque_pixels() {
    // A pixel with alpha 9 stays, one with alpha 10 is mapped; the two
    // trailing bytes are no pixel and stay.
    let mut rgba = vec![1, 2, 3, 9, 4, 5, 6, 10, 7, 8];
    recolor_rgba(&mut rgba, (0, 0, 0), &|r: u8, g: u8, b: u8| (r + 100, g + 100, b + 100));
    assert_eq!(rgba, vec![1, 2, 3, 9, 104, 105, 106, 10, 7, 8]);
}

#[test]
fn recolor_keeps_alpha_bytes() {
    let mut rgba = vec![250, 162, 202, 255, 10, 20, 30, 40];
    recolor_rgba(&mut rgba, (1, 2, 3), &|_: u8, _: u8, _: u8| (9, 9, 9));
    assert_eq!(rgba, vec![9, 9, 9, 255, 9, 9, 9, 40]);
}
