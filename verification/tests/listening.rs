use handy::listening_compact::CompactMode;
use handy::listening_status::{
    exits_compact_mode_on, get_listening_status, level_emit_due, status_after_overlay_hidden,
    ListeningStatus, ListeningStatusStore,
};

#[test]
fn status_names_round_trip() {
    for status in [
        ListeningStatus::Idle,
        ListeningStatus::Listening,
        ListeningStatus::Recording,
        ListeningStatus::Transcribing,
        ListeningStatus::Processing,
    ] {
        assert_eq!(ListeningStatus::from_str(status.as_str()), status);
    }
    assert_eq!(ListeningStatus::Transcribing.as_str(), "transcribing");
}

#[test]
fn unknown_status_names_mean_idle() {
    assert_eq!(ListeningStatus::from_str("Listening"), ListeningStatus::Idle);
    assert_eq!(ListeningStatus::from_str(""), ListeningStatus::Idle);
    assert_eq!(ListeningStatus::from_str("recording "), ListeningStatus::Idle);
}

#[test]
fn store_starts_idle_and_keeps_the_last_status() {
    let mut store = ListeningStatusStore::default();
    assert_eq!(store.get(), ListeningStatus::Idle);
    store.set(ListeningStatus::Recording);
    assert_eq!(get_listening_status(Some(&store)), ListeningStatus::Recording);
    assert_eq!(get_listening_status(None), ListeningStatus::Idle);
}

#[test]
fn idle_leaves_compact_mode() {
    assert!(exits_compact_mode_on(ListeningStatus::Idle, true));
    assert!(!exits_compact_mode_on(ListeningStatus::Idle, false));
    assert!(!exits_compact_mode_on(ListeningStatus::Listening, true));
}

#[test]
fn hiding_the_overlay_falls_back_to_listening_when_continuous() {
    assert_eq!(status_after_overlay_hidden(true), ListeningStatus::Listening);
    assert_eq!(status_after_overlay_hidden(false), ListeningStatus::Idle);
}

#[test]
fn level_events_are_throttled() {
    assert!(level_emit_due(1033, 1000));
    assert!(!level_emit_due(1032, 1000));
    assert!(!level_emit_due(900, 1000));
    assert!(level_emit_due(33, 0));
}

#[test]
fn compact_mode_enter_and_exit() {
    let mut mode = CompactMode::new();
    assert!(!mode.is_compact_mode());
    assert!(mode.enter_needed());
    assert_eq!(mode.finish_enter(Err("no pill".to_string())), Err("no pill".to_string()));
    assert!(!mode.is_compact_mode());
    assert_eq!(mode.finish_enter(Ok(())), Ok(()));
    assert!(mode.is_compact_mode());
    assert!(!mode.enter_needed());
    assert!(mode.exit());
    assert!(!mode.is_compact_mode());
    assert!(!mode.exit());
}
