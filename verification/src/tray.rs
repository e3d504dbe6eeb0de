//! The tray icon: which image it shows, its tooltip, what it copies, and the
//! layout of its menu.

use vstd::prelude::*;
use crate::text_chars::{
    chars_of, lemma_name_lt_irreflexive, lemma_name_lt_transitive, name_lt, trim, trim_chars,
};

verus! {

#[derive(Clone, Copy, Debug, PartialEq, Eq, Structural)]
pub enum TrayIconState {
    Idle,
    Recording,
    Transcribing,
}

#[derive(Clone, Copy, Debug, PartialEq, Eq, Structural)]
pub enum AppTheme {
    Dark,
    Light,
    /// Pink branded icons (`handy.png`, `recording.png`, `transcribing.png`)
    /// matching the UI logo.
    Colored,
}

/// The theme that the main window reports.
#[derive(Clone, Copy, Debug, PartialEq, Eq, Structural)]
pub enum WindowTheme {
    Light,
    Dark,
    /// A theme that is neither light nor dark.
    Other,
}

/// Tray icons follow the application look, not the taskbar's light or dark
/// mode: Windows and Linux use the pink branded assets; macOS keeps
/// monochrome template icons matching the main window's theme (dark when
/// there is no main window or its theme cannot be read, `main_window` being
/// `None` or `Some(None)`).
pub open spec fn theme_for(macos: bool, main_window: Option<Option<WindowTheme>>) -> AppTheme {
    if macos {
        match main_window {
            Some(Some(WindowTheme::Light)) => AppTheme::Light,
            _ => AppTheme::Dark,
        }
    } else {
        AppTheme::Colored
    }
}

pub fn get_current_theme(macos: bool, main_window: Option<Option<WindowTheme>>) -> (res: AppTheme)
    ensures
        res == theme_for(macos, main_window),
{
    if macos {
        match main_window {
            Some(Some(WindowTheme::Light)) => AppTheme::Light,
            _ => AppTheme::Dark,
        }
    } else {
        AppTheme::Colored
    }
}

/// The resource path of the tray image for a theme and a state: `Colored`
/// uses the pink branding, `Dark` / `Light` the monochrome glyphs of the
/// macOS menu bar (light glyphs on a dark bar and the other way round).
pub open spec fn icon_path(theme: AppTheme, state: TrayIconState) -> Seq<char> {
    match (theme, state) {
        (AppTheme::Dark, TrayIconState::Idle) => "resources/tray_idle.png"@,
        (AppTheme::Dark, TrayIconState::Recording) => "resources/tray_recording.png"@,
        (AppTheme::Dark, TrayIconState::Transcribing) => "resources/tray_transcribing.png"@,
        (AppTheme::Light, TrayIconState::Idle) => "resources/tray_idle_dark.png"@,
        (AppTheme::Light, TrayIconState::Recording) => "resources/tray_recording_dark.png"@,
        (AppTheme::Light, TrayIconState::Transcribing) => "resources/tray_transcribing_dark.png"@,
        (AppTheme::Colored, TrayIconState::Idle) => "resources/handy.png"@,
        (AppTheme::Colored, TrayIconState::Recording) => "resources/recording.png"@,
        (AppTheme::Colored, TrayIconState::Transcribing) => "resources/transcribing.png"@,
    }
}

pub fn get_icon_path(theme: AppTheme, state: TrayIconState) -> (res: &'static str)
    ensures
        res@ == icon_path(theme, state),
{
    match (theme, state) {
        (AppTheme::Dark, TrayIconState::Idle) => "resources/tray_idle.png",
        (AppTheme::Dark, TrayIconState::Recording) => "resources/tray_recording.png",
        (AppTheme::Dark, TrayIconState::Transcribing) => "resources/tray_transcribing.png",
        (AppTheme::Light, TrayIconState::Idle) => "resources/tray_idle_dark.png",
        (AppTheme::Light, TrayIconState::Recording) => "resources/tray_recording_dark.png",
        (AppTheme::Light, TrayIconState::Transcribing) => "resources/tray_transcribing_dark.png",
        (AppTheme::Colored, TrayIconState::Idle) => "resources/handy.png",
        (AppTheme::Colored, TrayIconState::Recording) => "resources/recording.png",
        (AppTheme::Colored, TrayIconState::Transcribing) => "resources/transcribing.png",
    }
}

/// `Handy v<version>`, with ` (Dev)` after it in a debug build.
pub open spec fn version_text(version: Seq<char>, dev_build: bool) -> Seq<char> {
    if dev_build {
        "Handy v"@ + version + " (Dev)"@
    } else {
        "Handy v"@ + version
    }
}

pub fn version_label(version: &str, dev_build: bool) -> (res: String)
    ensures
        res@ == version_text(version@, dev_build),
{
    let mut label = String::from_str("Handy v");
    label.append(version);
    if dev_build {
        label.append(" (Dev)");
    }
    label
}

/// The tray tooltip: the version label.
pub fn tray_tooltip(version: &str, dev_build: bool) -> (res: String)
    ensures
        res@ == version_text(version@, dev_build),
{
    version_label(version, dev_build)
}

/// A transcription in the history.
pub struct HistoryEntry {
    pub id: i64,
    pub file_name: String,
    pub timestamp: i64,
    pub saved: bool,
    pub title: String,
    pub transcription_text: String,
    pub post_processed_text: Option<String>,
    pub post_process_prompt: Option<String>,
    pub post_process_requested: bool,
}

/// The text of an entry that the tray copies: the post-processed text when
/// there is one, the raw transcription otherwise.
pub open spec fn transcript_text(entry: HistoryEntry) -> Seq<char> {
    match entry.post_processed_text {
        Some(p) => p@,
        None => entry.transcription_text@,
    }
}

pub fn last_transcript_text(entry: &HistoryEntry) -> (res: &str)
    ensures
        res@ == transcript_text(*entry),
{
    match &entry.post_processed_text {
        Some(p) => p.as_str(),
        None => entry.transcription_text.as_str(),
    }
}

/// What the tray's "copy last transcript" puts on the clipboard: nothing
/// without a completed entry or when its text is blank, its text otherwise.
pub fn transcript_for_clipboard(latest: Option<&HistoryEntry>) -> (res: Option<String>)
    ensures
        res matches Some(s) ==> latest is Some && s@ == transcript_text(*latest->0),
        res is None <==> (latest is None || trim(transcript_text(*latest->0)).len() == 0),
{
    match latest {
        Some(entry) => {
            let text = last_transcript_text(entry);
            if trim_chars(&chars_of(text)).len() == 0 {
                None
            } else {
                Some(String::from_str(text))
            }
        },
        None => None,
    }
}

/// The translated labels of the tray menu.
pub struct TrayLabels {
    pub settings: String,
    pub check_updates: String,
    pub copy_last_transcript: String,
    pub model: String,
    pub unload_model: String,
    pub cancel: String,
    pub quit: String,
}

/// A transcription model as the tray menu lists it.
pub struct TrayModel {
    pub id: String,
    pub name: String,
    pub is_downloaded: bool,
}

/// A plain menu item.
pub struct TrayMenuItem {
    pub id: &'static str,
    pub label: String,
    pub enabled: bool,
    pub accelerator: Option<&'static str>,
}

/// A checkable entry of the model submenu.
pub struct TrayModelChoice {
    pub item_id: String,
    pub label: String,
    pub checked: bool,
}

/// An entry of the tray menu.
pub enum TrayMenuEntry {
    Item(TrayMenuItem),
    Separator,
    /// The submenu that selects the active model (always enabled).
    ModelSubmenu { label: String, choices: Vec<TrayModelChoice> },
}

/// An entry of the tray menu as values: `Item(id, label, enabled,
/// accelerator)`, `Separator`, `ModelSubmenu(label, choices)` with choices
/// `(item id, label, checked)`.
pub ghost enum MenuEntryView {
    Item(Seq<char>, Seq<char>, bool, Option<Seq<char>>),
    Separator,
    ModelSubmenu(Seq<char>, Seq<(Seq<char>, Seq<char>, bool)>),
}

pub open spec fn choice_view(c: TrayModelChoice) -> (Seq<char>, Seq<char>, bool) {
    (c.item_id@, c.label@, c.checked)
}

pub open spec fn accel_view(a: Option<&'static str>) -> Option<Seq<char>> {
    match a {
        Some(x) => Some(x@),
        None => None,
    }
}

pub open spec fn entry_view(e: TrayMenuEntry) -> MenuEntryView {
    match e {
        TrayMenuEntry::Item(it) => MenuEntryView::Item(it.id@, it.label@, it.enabled, accel_view(it.accelerator)),
        TrayMenuEntry::Separator => MenuEntryView::Separator,
        TrayMenuEntry::ModelSubmenu { label, choices } => MenuEntryView::ModelSubmenu(
            label@,
            choices@.map_values(|c: TrayModelChoice| choice_view(c)),
        ),
    }
}

/// Where a model goes in a list sorted by name when it keeps its place
/// after every model of a smaller or equal name: before the first model
/// (from index `i` on) whose name is greater.
pub open spec fn insert_pos(x: TrayModel, s: Seq<TrayModel>, i: int) -> int
    decreases s.len() - i,
{
    if i < 0 || i >= s.len() {
        s.len() as int
    } else if name_lt(x.name@, s[i].name@) {
        i
    } else {
        insert_pos(x, s, i + 1)
    }
}

/// The models sorted by name, models of equal name keeping their order (the
/// stable sort of `sort_by` on the names).
pub open spec fn sort_by_name(s: Seq<TrayModel>) -> Seq<TrayModel>
    decreases s.len(),
{
    if s.len() == 0 {
        Seq::empty()
    } else {
        let sorted = sort_by_name(s.drop_last());
        sorted.insert(insert_pos(s.last(), sorted, 0), s.last())
    }
}

/// The downloaded models, sorted by name.
pub open spec fn menu_models(models: Seq<TrayModel>) -> Seq<TrayModel> {
    sort_by_name(models.filter(|m: TrayModel| m.is_downloaded))
}

/// The label of the model submenu: the name of the first listed model whose
/// id is the selected one, or the generic "model" label.
pub open spec fn submenu_label(listed: Seq<TrayModel>, selected: Seq<char>, fallback: Seq<char>, i: int) -> Seq<char>
    decreases listed.len() - i,
{
    if i < 0 || i >= listed.len() {
        fallback
    } else if listed[i].id@ == selected {
        listed[i].name@
    } else {
        submenu_label(listed, selected, fallback, i + 1)
    }
}

/// The choices of the model submenu: one per listed model, checked when it
/// is the selected one, with the item id `model_select:<id>`.
pub open spec fn model_choices(listed: Seq<TrayModel>, selected: Seq<char>) -> Seq<(Seq<char>, Seq<char>, bool)> {
    listed.map_values(|m: TrayModel| ("model_select:"@ + m.id@, m.name@, m.id@ == selected))
}

pub open spec fn item(id: Seq<char>, label: Seq<char>, enabled: bool, accelerator: Option<Seq<char>>) -> MenuEntryView {
    MenuEntryView::Item(id, label, enabled, accelerator)
}

/// The tray menu for a state. While recording or transcribing it offers
/// cancelling; when idle it offers the model submenu and unloading the model.
/// The settings and quit items carry the platform's shortcuts.
pub open spec fn tray_menu(
    state: TrayIconState,
    labels: TrayLabels,
    version: Seq<char>,
    update_checks_enabled: bool,
    model_loaded: bool,
    models: Seq<TrayModel>,
    selected: Seq<char>,
    macos: bool,
) -> Seq<MenuEntryView> {
    let settings_accel = if macos {
        "Cmd+,"@
    } else {
        "Ctrl+,"@
    };
    let quit_accel = if macos {
        "Cmd+Q"@
    } else {
        "Ctrl+Q"@
    };
    let version_i = item("version"@, version, false, None);
    let settings_i = item("settings"@, labels.settings@, true, Some(settings_accel));
    let check_i = item("check_updates"@, labels.check_updates@, update_checks_enabled, None);
    let copy_i = item("copy_last_transcript"@, labels.copy_last_transcript@, true, None);
    let quit_i = item("quit"@, labels.quit@, true, Some(quit_accel));
    let sep = MenuEntryView::Separator;
    match state {
        TrayIconState::Idle => {
            let listed = menu_models(models);
            let submenu = MenuEntryView::ModelSubmenu(
                submenu_label(listed, selected, labels.model@, 0),
                model_choices(listed, selected),
            );
            let unload_i = item("unload_model"@, labels.unload_model@, model_loaded, None);
            seq![version_i, sep, copy_i, sep, submenu, unload_i, sep, settings_i, check_i, sep, quit_i]
        },
        _ => {
            let cancel_i = item("cancel"@, labels.cancel@, true, None);
            seq![version_i, sep, cancel_i, sep, copy_i, sep, settings_i, check_i, sep, quit_i]
        },
    }
}

/// Whether a menu entry is an item with the id `id`.
pub open spec fn has_id(e: MenuEntryView, id: Seq<char>) -> bool {
    e matches MenuEntryView::Item(i, _, _, _) && i == id
}

/// While recording or transcribing, the menu offers cancelling (enabled,
/// with the cancel label) right after the first separator, and offers
/// neither the model submenu nor unloading the model; both busy states give
/// the same menu. When idle, it offers no cancelling, and the model submenu
/// follows copying the last transcript.
pub proof fn lemma_tray_menu_by_state(
    state: TrayIconState,
    labels: TrayLabels,
    version: Seq<char>,
    update_checks_enabled: bool,
    model_loaded: bool,
    models: Seq<TrayModel>,
    selected: Seq<char>,
    macos: bool,
)
    ensures
        ({
            let m = tray_menu(state, labels, version, update_checks_enabled, model_loaded, models, selected, macos);
            state != TrayIconState::Idle ==> {
                &&& m[1] == MenuEntryView::Separator
                &&& m[2] == MenuEntryView::Item("cancel"@, labels.cancel@, true, None)
                &&& forall|i: int|
                    0 <= i < m.len() ==> !(#[trigger] m[i] is ModelSubmenu) && !has_id(m[i], "unload_model"@)
            }
        }),
        tray_menu(TrayIconState::Recording, labels, version, update_checks_enabled, model_loaded, models, selected, macos)
            == tray_menu(TrayIconState::Transcribing, labels, version, update_checks_enabled, model_loaded, models, selected, macos),
        ({
            let m = tray_menu(TrayIconState::Idle, labels, version, update_checks_enabled, model_loaded, models, selected, macos);
            &&& has_id(m[2], "copy_last_transcript"@)
            &&& m[4] is ModelSubmenu
            &&& forall|i: int| 0 <= i < m.len() ==> !has_id(#[trigger] m[i], "cancel"@)
        }),
{
    reveal_strlit("cancel");
    reveal_strlit("unload_model");
    reveal_strlit("version");
    reveal_strlit("settings");
    reveal_strlit("check_updates");
    reveal_strlit("copy_last_transcript");
    reveal_strlit("quit");
    let m = tray_menu(state, labels, version, update_checks_enabled, model_loaded, models, selected, macos);
    if state != TrayIconState::Idle {
        assert(m.len() == 10);
        assert forall|i: int| 0 <= i < m.len() implies !(#[trigger] m[i] is ModelSubmenu) && !has_id(
            m[i],
            "unload_model"@,
        ) by {
            assert("unload_model"@.len() == 12);
        }
    }
    let mi = tray_menu(TrayIconState::Idle, labels, version, update_checks_enabled, model_loaded, models, selected, macos);
    assert(mi.len() == 11);
    assert forall|i: int| 0 <= i < mi.len() implies !has_id(#[trigger] mi[i], "cancel"@) by {
        assert("cancel"@.len() == 6);
        assert("quit"@.len() == 4);
        assert("unload_model"@.len() == 12);
        if i == 0 {
            assert("version"@[0] != "cancel"@[0]);
        }
        if i == 7 {
            assert("settings"@[0] != "cancel"@[0]);
        }
    }
}

/// Whatever the state, the menu opens with the version (shown, not
/// clickable) and a separator, and closes with settings, checking for
/// updates (enabled as the setting says), a separator and quit, settings
/// and quit carrying the platform's shortcuts.
pub proof fn lemma_tray_menu_frame(
    state: TrayIconState,
    labels: TrayLabels,
    version: Seq<char>,
    update_checks_enabled: bool,
    model_loaded: bool,
    models: Seq<TrayModel>,
    selected: Seq<char>,
    macos: bool,
)
    ensures
        ({
            let m = tray_menu(state, labels, version, update_checks_enabled, model_loaded, models, selected, macos);
            let n = m.len() as int;
            &&& n >= 6
            &&& m[0] == MenuEntryView::Item("version"@, version, false, None)
            &&& m[1] == MenuEntryView::Separator
            &&& m[n - 4] == MenuEntryView::Item(
                "settings"@,
                labels.settings@,
                true,
                Some(if macos { "Cmd+,"@ } else { "Ctrl+,"@ }),
            )
            &&& m[n - 3] == MenuEntryView::Item("check_updates"@, labels.check_updates@, update_checks_enabled, None)
            &&& m[n - 2] == MenuEntryView::Separator
            &&& m[n - 1] == MenuEntryView::Item(
                "quit"@,
                labels.quit@,
                true,
                Some(if macos { "Cmd+Q"@ } else { "Ctrl+Q"@ }),
            )
        }),
{
}

fn copy_string(s: &String) -> (res: String)
    ensures
        res@ == s@,
{
    s.clone()
}

fn copy_model(m: &TrayModel) -> (res: TrayModel)
    ensures
        res == *m,
{
    TrayModel { id: m.id.clone(), name: m.name.clone(), is_downloaded: m.is_downloaded }
}

/// Whether `a` comes strictly before `b` by name.
fn name_less(a: &String, b: &String) -> (res: bool)
    ensures
        res == name_lt(a@, b@),
{
    let x = chars_of(a.as_str());
    let y = chars_of(b.as_str());
    let mut i: usize = 0;
    assert(x@.subrange(0, x@.len() as int) =~= x@);
    assert(y@.subrange(0, y@.len() as int) =~= y@);
    while i < x.len() && i < y.len() && x[i] == y[i]
        invariant
            0 <= i <= x@.len(),
            i <= y@.len(),
            x@ == a@,
            y@ == b@,
            name_lt(a@, b@) == name_lt(x@.subrange(i as int, x@.len() as int), y@.subrange(
                i as int,
                y@.len() as int,
            )),
        decreases x@.len() - i,
    {
        proof {
            let xs = x@.subrange(i as int, x@.len() as int);
            let ys = y@.subrange(i as int, y@.len() as int);
            assert(xs.drop_first() =~= x@.subrange(i + 1, x@.len() as int));
            assert(ys.drop_first() =~= y@.subrange(i + 1, y@.len() as int));
        }
        i = i + 1;
    }
    let ghost xs = x@.subrange(i as int, x@.len() as int);
    let ghost ys = y@.subrange(i as int, y@.len() as int);
    if i == y.len() {
        assert(ys.len() == 0);
        false
    } else if i == x.len() {
        assert(xs.len() == 0);
        true
    } else {
        assert(xs[0] == x@[i as int] && ys[0] == y@[i as int]);
        (x[i] as u32) < (y[i] as u32)
    }
}

/// Inserts `x` into `sorted` where `sort_by_name` puts it.
fn insert_by_name(sorted: &mut Vec<TrayModel>, x: TrayModel)
    ensures
        final(sorted)@ == old(sorted)@.insert(insert_pos(x, old(sorted)@, 0), x),
{
    let mut p: usize = 0;
    while p < sorted.len() && !name_less(&x.name, &sorted[p].name)
        invariant
            0 <= p <= sorted@.len(),
            sorted@ == old(sorted)@,
            insert_pos(x, sorted@, 0) == insert_pos(x, sorted@, p as int),
        decreases sorted@.len() - p,
    {
        p = p + 1;
    }
    sorted.insert(p, x);
}

/// The downloaded models sorted by name (`menu_models`).
fn downloaded_by_name(models: &Vec<TrayModel>) -> (res: Vec<TrayModel>)
    ensures
        res@ == menu_models(models@),
{
    let ghost pred = |m: TrayModel| m.is_downloaded;
    let mut sorted: Vec<TrayModel> = Vec::new();
    let mut k: usize = 0;
    while k < models.len()
        invariant
            0 <= k <= models@.len(),
            pred == (|m: TrayModel| m.is_downloaded),
            sorted@ == sort_by_name(models@.take(k as int).filter(pred)),
        decreases models@.len() - k,
    {
        let ghost prefix = models@.take(k as int);
        let ghost next = models@.take(k + 1);
        assert(next.drop_last() =~= prefix);
        assert(next.last() == models@[k as int]);
        if models[k].is_downloaded {
            let m = copy_model(&models[k]);
            insert_by_name(&mut sorted, m);
            proof {
                reveal(Seq::filter);
                let f = next.filter(pred);
                assert(f == prefix.filter(pred).push(models@[k as int]));
                assert(f.drop_last() =~= prefix.filter(pred));
                assert(f.last() == models@[k as int]);
            }
        } else {
            reveal(Seq::filter);
            assert(next.filter(pred) == prefix.filter(pred));
        }
        k = k + 1;
    }
    assert(models@.take(models@.len() as int) =~= models@);
    sorted
}

/// The submenu label: the name of the first listed model with the selected
/// id, or `fallback`.
fn find_submenu_label(listed: &Vec<TrayModel>, selected: &String, fallback: &String) -> (res: String)
    ensures
        res@ == submenu_label(listed@, selected@, fallback@, 0),
{
    let mut i: usize = 0;
    while i < listed.len()
        invariant
            0 <= i <= listed@.len(),
            submenu_label(listed@, selected@, fallback@, 0) == submenu_label(
                listed@,
                selected@,
                fallback@,
                i as int,
            ),
        decreases listed@.len() - i,
    {
        if listed[i].id == *selected {
            return copy_string(&listed[i].name);
        }
        i = i + 1;
    }
    copy_string(fallback)
}

fn build_choices(listed: &Vec<TrayModel>, selected: &String) -> (res: Vec<TrayModelChoice>)
    ensures
        res@.map_values(|c: TrayModelChoice| choice_view(c)) == model_choices(listed@, selected@),
{
    let mut res: Vec<TrayModelChoice> = Vec::new();
    let mut i: usize = 0;
    while i < listed.len()
        invariant
            0 <= i <= listed@.len(),
            res@.len() == i,
            forall|j: int|
                0 <= j < i ==> choice_view(#[trigger] res@[j]) == model_choices(listed@, selected@)[j],
        decreases listed@.len() - i,
    {
        let mut item_id = String::from_str("model_select:");
        item_id.append(listed[i].id.as_str());
        let checked = listed[i].id == *selected;
        res.push(TrayModelChoice { item_id, label: copy_string(&listed[i].name), checked });
        i = i + 1;
    }
    assert(res@.map_values(|c: TrayModelChoice| choice_view(c)) =~= model_choices(listed@, selected@));
    res
}

fn menu_item(id: &'static str, label: &String, enabled: bool, accelerator: Option<&'static str>) -> (res: TrayMenuEntry)
    ensures
        entry_view(res) == item(id@, label@, enabled, accel_view(accelerator)),
{
    TrayMenuEntry::Item(TrayMenuItem { id, label: copy_string(label), enabled, accelerator })
}

/// The tray menu, entry by entry, for the shell to build (`tray_menu`).
pub fn tray_menu_plan(
    state: TrayIconState,
    labels: &TrayLabels,
    version_label: &String,
    update_checks_enabled: bool,
    model_loaded: bool,
    models: &Vec<TrayModel>,
    selected_model: &String,
    macos: bool,
) -> (res: Vec<TrayMenuEntry>)
    ensures
        res@.map_values(|e: TrayMenuEntry| entry_view(e)) == tray_menu(
            state,
            *labels,
            version_label@,
            update_checks_enabled,
            model_loaded,
            models@,
            selected_model@,
            macos,
        ),
{
    let (settings_accel, quit_accel) = if macos {
        ("Cmd+,", "Cmd+Q")
    } else {
        ("Ctrl+,", "Ctrl+Q")
    };
    let mut menu: Vec<TrayMenuEntry> = Vec::new();
    menu.push(menu_item("version", version_label, false, None));
    menu.push(TrayMenuEntry::Separator);
    match state {
        TrayIconState::Idle => {
            menu.push(menu_item("copy_last_transcript", &labels.copy_last_transcript, true, None));
            menu.push(TrayMenuEntry::Separator);
            let listed = downloaded_by_name(models);
            let label = find_submenu_label(&listed, selected_model, &labels.model);
            let choices = build_choices(&listed, selected_model);
            menu.push(TrayMenuEntry::ModelSubmenu { label, choices });
            menu.push(menu_item("unload_model", &labels.unload_model, model_loaded, None));
            menu.push(TrayMenuEntry::Separator);
        },
        _ => {
            menu.push(menu_item("cancel", &labels.cancel, true, None));
            menu.push(TrayMenuEntry::Separator);
            menu.push(menu_item("copy_last_transcript", &labels.copy_last_transcript, true, None));
            menu.push(TrayMenuEntry::Separator);
        },
    }
    menu.push(menu_item("settings", &labels.settings, true, Some(settings_accel)));
    menu.push(menu_item("check_updates", &labels.check_updates, update_checks_enabled, None));
    menu.push(TrayMenuEntry::Separator);
    menu.push(menu_item("quit", &labels.quit, true, Some(quit_accel)));
    assert(menu@.map_values(|e: TrayMenuEntry| entry_view(e)) =~= tray_menu(
        state,
        *labels,
        version_label@,
        update_checks_enabled,
        model_loaded,
        models@,
        selected_model@,
        macos,
    ));
    menu
}

/// Where `insert_pos` puts a model: after every model whose name is not
/// greater, before the first whose name is greater.
proof fn lemma_insert_pos(x: TrayModel, s: Seq<TrayModel>, i: int)
    requires
        0 <= i <= s.len(),
    ensures
        i <= insert_pos(x, s, i) <= s.len(),
        forall|k: int| i <= k < insert_pos(x, s, i) ==> !name_lt(x.name@, (#[trigger] s[k]).name@),
        insert_pos(x, s, i) < s.len() ==> name_lt(x.name@, s[insert_pos(x, s, i)].name@),
    decreases s.len() - i,
{
    if i < s.len() && !name_lt(x.name@, s[i].name@) {
        lemma_insert_pos(x, s, i + 1);
    }
}

pub open spec fn sorted_by_name(s: Seq<TrayModel>) -> bool {
    forall|i: int, j: int| 0 <= i < j < s.len() ==> !name_lt(s[j].name@, s[i].name@)
}

proof fn lemma_sort_by_name(s: Seq<TrayModel>)
    ensures
        sorted_by_name(sort_by_name(s)),
        sort_by_name(s).to_multiset() =~= s.to_multiset(),
    decreases s.len(),
{
    broadcast use vstd::seq_lib::group_to_multiset_ensures;

    if s.len() > 0 {
        let prev = s.drop_last();
        let x = s.last();
        let sorted = sort_by_name(prev);
        lemma_sort_by_name(prev);
        let p = insert_pos(x, sorted, 0);
        lemma_insert_pos(x, sorted, 0);
        let r = sorted.insert(p, x);
        assert(r == sort_by_name(s));
        assert forall|i: int, j: int| 0 <= i < j < r.len() implies !name_lt(
            r[j].name@,
            r[i].name@,
        ) by {
            if j < p {
                assert(r[i] == sorted[i] && r[j] == sorted[j]);
            } else if j == p {
                assert(r[i] == sorted[i] && r[j] == x);
            } else if i == p {
                assert(r[i] == x && r[j] == sorted[j - 1]);
                if name_lt(sorted[j - 1].name@, x.name@) {
                    lemma_name_lt_transitive(sorted[j - 1].name@, x.name@, sorted[p].name@);
                    if j - 1 == p {
                        lemma_name_lt_irreflexive(sorted[p].name@);
                    }
                }
            } else if i < p {
                assert(r[i] == sorted[i] && r[j] == sorted[j - 1]);
            } else {
                assert(r[i] == sorted[i - 1] && r[j] == sorted[j - 1]);
            }
        }
        assert(r.remove(p) =~= sorted);
        assert(r[p] == x);
        assert(r.to_multiset().remove(x) =~= sorted.to_multiset());
        assert(r.to_multiset().count(x) > 0) by {
            assert(r.contains(x));
        }
        assert(s == prev.push(x));
        assert(s.to_multiset() =~= prev.to_multiset().insert(x));
        assert(r.to_multiset() =~= r.to_multiset().remove(x).insert(x));
    }
}

/// The models of the tray's model submenu are the downloaded models, each
/// once (as many times as in the input), ordered by name.
pub proof fn lemma_menu_models(models: Seq<TrayModel>)
    ensures
        sorted_by_name(menu_models(models)),
        menu_models(models).to_multiset() =~= models.filter(|m: TrayModel| m.is_downloaded).to_multiset(),
        forall|k: int| 0 <= k < menu_models(models).len() ==> (#[trigger] menu_models(models)[k]).is_downloaded,
{
    broadcast use vstd::seq_lib::group_to_multiset_ensures;

    let pred = |m: TrayModel| m.is_downloaded;
    let d = models.filter(pred);
    lemma_sort_by_name(d);
    let listed = menu_models(models);
    assert forall|k: int| 0 <= k < listed.len() implies (#[trigger] listed[k]).is_downloaded by {
        assert(listed.contains(listed[k]));
        assert(listed.to_multiset().count(listed[k]) > 0);
        assert(d.contains(listed[k]));
        let j = choose|j: int| 0 <= j < d.len() && d[j] == listed[k];
        models.lemma_filter_pred(pred, j);
    }
}

} // verus!
