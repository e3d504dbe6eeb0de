use handy::appearance::normalize_color;

#[test]
fn colors_are_trimmed_and_blank_is_absent() {
    assert_eq!(normalize_color(Some("  #3b82f6 ".to_string())), Some("#3b82f6".to_string()));
    assert_eq!(normalize_color(Some("   ".to_string())), None);
    assert_eq!(normalize_color(Some(String::new())), None);
    assert_eq!(normalize_color(None), None);
}
