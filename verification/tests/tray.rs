use handy::tray::{
    get_current_theme, get_icon_path, last_transcript_text, tray_menu_plan, tray_tooltip,
    transcript_for_clipboard, version_label, AppTheme, HistoryEntry, TrayIconState, TrayLabels,
    TrayMenuEntry, TrayModel, WindowTheme,
};

#[test]
fn colored_theme_uses_branded_idle_icon() {
    assert_eq!(get_icon_path(AppTheme::Colored, TrayIconState::Idle), "resources/handy.png");
}

#[test]
fn colored_recording_and_transcribing_icons() {
    assert_eq!(
        get_icon_path(AppTheme::Colored, TrayIconState::Recording),
        "resources/recording.png"
    );
    assert_eq!(
        get_icon_path(AppTheme::Colored, TrayIconState::Transcribing),
        "resources/transcribing.png"
    );
}

#[test]
fn macos_dark_theme_uses_light_glyph_idle_icon() {
    assert_eq!(get_icon_path(AppTheme::Dark, TrayIconState::Idle), "resources/tray_idle.png");
}

#[test]
fn macos_light_theme_uses_dark_glyph_idle_icon() {
    assert_eq!(
        get_icon_path(AppTheme::Light, TrayIconState::Idle),
        "resources/tray_idle_dark.png"
    );
}

fn build_entry(transcription: &str, post_processed: Option<&str>) -> HistoryEntry {
    HistoryEntry {
        id: 1,
        file_name: "handy-1.wav".to_string(),
        timestamp: 0,
        saved: false,
        title: "Recording".to_string(),
        transcription_text: transcription.to_string(),
        post_processed_text: post_processed.map(|text| text.to_string()),
        post_process_prompt: None,
        post_process_requested: false,
    }
}

#[test]
fn uses_post_processed_text_when_available() {
    let entry = build_entry("raw", Some("processed"));
    assert_eq!(last_transcript_text(&entry), "processed");
}

#[test]
fn falls_back_to_raw_transcription() {
    let entry = build_entry("raw", None);
    assert_eq!(last_transcript_text(&entry), "raw");
}

#[test]
fn clipboard_skips_missing_and_blank_transcripts() {
    assert_eq!(transcript_for_clipboard(None), None);
    let blank = build_entry("  \n", None);
    assert_eq!(transcript_for_clipboard(Some(&blank)), None);
    let processed_blank = build_entry("raw", Some(" "));
    assert_eq!(transcript_for_clipboard(Some(&processed_blank)), None);
    let entry = build_entry("raw", Some("processed"));
    assert_eq!(transcript_for_clipboard(Some(&entry)), Some("processed".to_string()));
}

#[test]
fn theme_follows_platform_and_window() {
    assert_eq!(get_current_theme(false, Some(Some(WindowTheme::Light))), AppTheme::Colored);
    assert_eq!(get_current_theme(true, Some(Some(WindowTheme::Light))), AppTheme::Light);
    assert_eq!(get_current_theme(true, Some(Some(WindowTheme::Dark))), AppTheme::Dark);
    assert_eq!(get_current_theme(true, Some(Some(WindowTheme::Other))), AppTheme::Dark);
    assert_eq!(get_current_theme(true, Some(None)), AppTheme::Dark);
    assert_eq!(get_current_theme(true, None), AppTheme::Dark);
}

#[test]
fn all_icon_paths() {
    assert_eq!(
        get_icon_path(AppTheme::Dark, TrayIconState::Transcribing),
        "resources/tray_transcribing.png"
    );
    assert_eq!(
        get_icon_path(AppTheme::Light, TrayIconState::Recording),
        "resources/tray_recording_dark.png"
    );
}

#[test]
fn version_labels() {
    assert_eq!(version_label("0.8.1", false), "Handy v0.8.1");
    assert_eq!(version_label("0.8.1", true), "Handy v0.8.1 (Dev)");
    assert_eq!(tray_tooltip("1.0.0", false), "Handy v1.0.0");
}

fn labels() -> TrayLabels {
    TrayLabels {
        settings: "Settings".to_string(),
        check_updates: "Check for updates".to_string(),
        copy_last_transcript: "Copy last transcript".to_string(),
        model: "Model".to_string(),
        unload_model: "Unload model".to_string(),
        cancel: "Cancel".to_string(),
        quit: "Quit".to_string(),
    }
}

fn model(id: &str, name: &str, downloaded: bool) -> TrayModel {
    TrayModel { id: id.to_string(), name: name.to_string(), is_downloaded: downloaded }
}

fn item_ids(menu: &[TrayMenuEntry]) -> Vec<String> {
    menu.iter()
        .map(|e| match e {
            TrayMenuEntry::Item(i) => i.id.to_string(),
            TrayMenuEntry::Separator => "-".to_string(),
            TrayMenuEntry::ModelSubmenu { .. } => "model_submenu".to_string(),
        })
        .collect()
}

#[test]
fn idle_menu_lists_downloaded_models_by_name() {
    let models = vec![
        model("turbo", "Whisper Turbo", true),
        model("small", "Whisper Small", true),
        model("large", "Whisper Large", false),
        model("parakeet", "Parakeet V3", true),
    ];
    let version = "Handy v1".to_string();
    let menu = tray_menu_plan(
        TrayIconState::Idle,
        &labels(),
        &version,
        true,
        false,
        &models,
        &"small".to_string(),
        false,
    );
    assert_eq!(
        item_ids(&menu),
        vec![
            "version", "-", "copy_last_transcript", "-", "model_submenu", "unload_model", "-",
            "settings", "check_updates", "-", "quit"
        ]
    );
    match &menu[4] {
        TrayMenuEntry::ModelSubmenu { label, choices } => {
            assert_eq!(label, "Whisper Small");
            let names: Vec<&str> = choices.iter().map(|c| c.label.as_str()).collect();
            assert_eq!(names, vec!["Parakeet V3", "Whisper Small", "Whisper Turbo"]);
            let ids: Vec<&str> = choices.iter().map(|c| c.item_id.as_str()).collect();
            assert_eq!(
                ids,
                vec!["model_select:parakeet", "model_select:small", "model_select:turbo"]
            );
            let checked: Vec<bool> = choices.iter().map(|c| c.checked).collect();
            assert_eq!(checked, vec![false, true, false]);
        },
        _ => panic!("expected the model submenu"),
    }
    match &menu[5] {
        TrayMenuEntry::Item(i) => assert!(!i.enabled),
        _ => panic!("expected the unload item"),
    }
    match &menu[7] {
        TrayMenuEntry::Item(i) => assert_eq!(i.accelerator, Some("Ctrl+,")),
        _ => panic!("expected the settings item"),
    }
}

#[test]
fn submenu_label_falls_back_without_selected_model() {
    let models = vec![model("small", "Whisper Small", false)];
    let version = "Handy v1".to_string();
    let menu = tray_menu_plan(
        TrayIconState::Idle,
        &labels(),
        &version,
        false,
        true,
        &models,
        &"small".to_string(),
        true,
    );
    match &menu[4] {
        TrayMenuEntry::ModelSubmenu { label, choices } => {
            assert_eq!(label, "Model");
            assert!(choices.is_empty());
        },
        _ => panic!("expected the model submenu"),
    }
    match &menu[10] {
        TrayMenuEntry::Item(i) => {
            assert_eq!(i.id, "quit");
            assert_eq!(i.accelerator, Some("Cmd+Q"));
        },
        _ => panic!("expected the quit item"),
    }
}

#[test]
fn recording_menu_offers_cancel() {
    let version = "Handy v1".to_string();
    let menu = tray_menu_plan(
        TrayIconState::Recording,
        &labels(),
        &version,
        false,
        true,
        &Vec::new(),
        &"small".to_string(),
        false,
    );
    assert_eq!(
        item_ids(&menu),
        vec![
            "version", "-", "cancel", "-", "copy_last_transcript", "-", "settings",
            "check_updates", "-", "quit"
        ]
    );
    match &menu[7] {
        TrayMenuEntry::Item(i) => assert!(!i.enabled),
        _ => panic!("expected the check updates item"),
    }
}

#[test]
fn equal_names_keep_their_order() {
    let models = vec![model("b", "Same", true), model("a", "Same", true), model("c", "Alpha", true)];
    let version = "v".to_string();
    let menu = tray_menu_plan(
        TrayIconState::Idle,
        &labels(),
        &version,
        true,
        true,
        &models,
        &"x".to_string(),
        false,
    );
    match &menu[4] {
        TrayMenuEntry::ModelSubmenu { choices, .. } => {
            let ids: Vec<&str> = choices.iter().map(|c| c.item_id.as_str()).collect();
            assert_eq!(ids, vec!["model_select:c", "model_select:b", "model_select:a"]);
        },
        _ => panic!("expected the model submenu"),
    }
}
