use handy::cursor_context::{
    get_text_before_cursor, is_edit_control_class, should_capitalize_pasted_text,
    text_before_caret,
};

#[test]
fn capitalize_decision_without_cursor_context_defaults_to_lowercase() {
    assert!(!should_capitalize_pasted_text(get_text_before_cursor().as_deref()));
}

#[test]
fn capitalize_at_start_and_after_sentence_end() {
    assert!(should_capitalize_pasted_text(Some("")));
    assert!(should_capitalize_pasted_text(Some("  \n")));
    assert!(should_capitalize_pasted_text(Some("Done. ")));
    assert!(should_capitalize_pasted_text(Some("Really?")));
    assert!(should_capitalize_pasted_text(Some("Wow!\t")));
    assert!(!should_capitalize_pasted_text(Some("and then ")));
    assert!(!should_capitalize_pasted_text(Some("list:")));
}

#[test]
fn edit_control_classes() {
    assert!(is_edit_control_class("Edit"));
    assert!(is_edit_control_class("RichEdit20W"));
    assert!(is_edit_control_class("RICHEDIT50W"));
    assert!(!is_edit_control_class("Button"));
    assert!(!is_edit_control_class("edi"));
}

#[test]
fn text_before_caret_counts_utf16_units() {
    assert_eq!(text_before_caret("żab", 2), "ża");
    assert_eq!(text_before_caret("héllo", 3), "hél");
    assert_eq!(text_before_caret("hello", 0), "");
    assert_eq!(text_before_caret("hello", 99), "hello");
    assert_eq!(text_before_caret("", 5), "");
    // An emoji takes two units; a caret between them keeps it out.
    assert_eq!(text_before_caret("a😀b", 2), "a");
    assert_eq!(text_before_caret("a😀b", 3), "a😀");
}
