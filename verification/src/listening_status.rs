//! The listening status shown by the main window and the listening pill,
//! its event names, and the decisions taken when it changes.

use vstd::prelude::*;
use crate::text_chars::{chars_of, str_equals_chars};

verus! {

/// Minimum time between two microphone-level events, in milliseconds.
pub const LEVEL_EMIT_INTERVAL_MS: u64 = 33;

#[derive(Clone, Copy, Debug, PartialEq, Eq, Structural)]
pub enum ListeningStatus {
    Idle,
    Listening,
    Recording,
    Transcribing,
    Processing,
}

/// The name under which a status travels in `listening-status` events.
pub open spec fn status_name(status: ListeningStatus) -> Seq<char> {
    match status {
        ListeningStatus::Idle => "idle"@,
        ListeningStatus::Listening => "listening"@,
        ListeningStatus::Recording => "recording"@,
        ListeningStatus::Transcribing => "transcribing"@,
        ListeningStatus::Processing => "processing"@,
    }
}

/// The status a name stands for; an unknown name means `Idle`.
pub open spec fn status_from_name(name: Seq<char>) -> ListeningStatus {
    if name == "listening"@ {
        ListeningStatus::Listening
    } else if name == "recording"@ {
        ListeningStatus::Recording
    } else if name == "transcribing"@ {
        ListeningStatus::Transcribing
    } else if name == "processing"@ {
        ListeningStatus::Processing
    } else {
        ListeningStatus::Idle
    }
}

impl ListeningStatus {
    pub fn as_str(self) -> (res: &'static str)
        ensures
            res@ == status_name(self),
    {
        match self {
            ListeningStatus::Idle => "idle",
            ListeningStatus::Listening => "listening",
            ListeningStatus::Recording => "recording",
            ListeningStatus::Transcribing => "transcribing",
            ListeningStatus::Processing => "processing",
        }
    }

    pub fn from_str(value: &str) -> (res: ListeningStatus)
        ensures
            res == status_from_name(value@),
    {
        let v = chars_of(value);
        if str_equals_chars("listening", &v) {
            ListeningStatus::Listening
        } else if str_equals_chars("recording", &v) {
            ListeningStatus::Recording
        } else if str_equals_chars("transcribing", &v) {
            ListeningStatus::Transcribing
        } else if str_equals_chars("processing", &v) {
            ListeningStatus::Processing
        } else {
            ListeningStatus::Idle
        }
    }
}

/// Reading back the name of a status gives the status: `from_str` undoes
/// `as_str`.
pub proof fn lemma_status_name_round_trip(status: ListeningStatus)
    ensures
        status_from_name(status_name(status)) == status,
{
    reveal_strlit("idle");
    reveal_strlit("listening");
    reveal_strlit("recording");
    reveal_strlit("transcribing");
    reveal_strlit("processing");
    // The five names already differ in their first character.
    assert("idle"@[0] == 'i');
    assert("listening"@[0] == 'l');
    assert("recording"@[0] == 'r');
    assert("transcribing"@[0] == 't');
    assert("processing"@[0] == 'p');
}

/// Distinct statuses travel under distinct names.
pub proof fn lemma_status_names_distinct(a: ListeningStatus, b: ListeningStatus)
    requires
        a != b,
    ensures
        status_name(a) != status_name(b),
{
    lemma_status_name_round_trip(a);
    lemma_status_name_round_trip(b);
}

/// The current listening status of the application; it starts `Idle`.
pub struct ListeningStatusStore {
    status: ListeningStatus,
}

impl ListeningStatusStore {
    pub closed spec fn view_status(&self) -> ListeningStatus {
        self.status
    }

    pub fn get(&self) -> (res: ListeningStatus)
        ensures
            res == self.view_status(),
    {
        self.status
    }

    pub fn set(&mut self, status: ListeningStatus)
        ensures
            final(self).view_status() == status,
    {
        self.status = status;
    }
}

impl Default for ListeningStatusStore {
    fn default() -> (res: Self)
        ensures
            res.view_status() == ListeningStatus::Idle,
    {
        ListeningStatusStore { status: ListeningStatus::Idle }
    }
}

/// What a status change reads: the status stored, when the store is
/// registered; `Idle` when it is not.
pub fn get_listening_status(store: Option<&ListeningStatusStore>) -> (res: ListeningStatus)
    ensures
        res == (match store {
            Some(s) => s.view_status(),
            None => ListeningStatus::Idle,
        }),
{
    match store {
        Some(s) => s.get(),
        None => ListeningStatus::Idle,
    }
}

/// Setting a status leaves the compact listening mode exactly when the new
/// status is `Idle` and the compact mode is on.
pub fn exits_compact_mode_on(status: ListeningStatus, compact_mode: bool) -> (res: bool)
    ensures
        res == (status == ListeningStatus::Idle && compact_mode),
{
    status == ListeningStatus::Idle && compact_mode
}

/// Hiding the recording overlay falls back to `Listening` while continuous
/// listening is active, to `Idle` otherwise.
pub fn status_after_overlay_hidden(continuous_active: bool) -> (res: ListeningStatus)
    ensures
        res == (if continuous_active {
            ListeningStatus::Listening
        } else {
            ListeningStatus::Idle
        }),
{
    if continuous_active {
        ListeningStatus::Listening
    } else {
        ListeningStatus::Idle
    }
}

/// A microphone-level event goes out when at least `LEVEL_EMIT_INTERVAL_MS`
/// have passed since the last one (a clock that went back counts as no time
/// passed).
pub fn level_emit_due(now_ms: u64, last_ms: u64) -> (res: bool)
    ensures
        res == (now_ms >= last_ms && now_ms - last_ms >= LEVEL_EMIT_INTERVAL_MS),
{
    now_ms.saturating_sub(last_ms) >= LEVEL_EMIT_INTERVAL_MS
}

} // verus!
