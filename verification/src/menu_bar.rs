//! The menu of the menu-bar icon: its items, their ids and labels, and what a click on
//! an item does in the application's current state.
use vstd::prelude::*;
use crate::handshake::CaptureKind;
use crate::text::{chars_of, push_decimal, push_str, str_eq, string_of, decimal, owned};

verus! {

/// An item of the menu-bar menu.
#[derive(Clone, Copy, Debug, PartialEq, Eq, Structural)]
pub enum MenuAction {
    OpenMainWindow,
    Capture,
    CaptureWithTimer,
    RecordVideo,
    RecordVideoWithTimer,
    CopyTextOnScreen,
    Quit,
}

/// The items, in the order in which the menu shows them.
pub open spec fn all_actions() -> Seq<MenuAction> {
    seq![
        MenuAction::OpenMainWindow,
        MenuAction::Capture,
        MenuAction::CaptureWithTimer,
        MenuAction::RecordVideo,
        MenuAction::RecordVideoWithTimer,
        MenuAction::CopyTextOnScreen,
        MenuAction::Quit,
    ]
}

/// The item whose menu id is `id`, if any.
pub open spec fn action_with_id(id: Seq<char>) -> Option<MenuAction> {
    if id == MenuAction::OpenMainWindow.id_text() {
        Some(MenuAction::OpenMainWindow)
    } else if id == MenuAction::Capture.id_text() {
        Some(MenuAction::Capture)
    } else if id == MenuAction::CaptureWithTimer.id_text() {
        Some(MenuAction::CaptureWithTimer)
    } else if id == MenuAction::RecordVideo.id_text() {
        Some(MenuAction::RecordVideo)
    } else if id == MenuAction::RecordVideoWithTimer.id_text() {
        Some(MenuAction::RecordVideoWithTimer)
    } else if id == MenuAction::CopyTextOnScreen.id_text() {
        Some(MenuAction::CopyTextOnScreen)
    } else if id == MenuAction::Quit.id_text() {
        Some(MenuAction::Quit)
    } else {
        None
    }
}

impl MenuAction {
    /// The item's menu id.
    pub open spec fn id_text(self) -> Seq<char> {
        match self {
            MenuAction::OpenMainWindow => "menu-bar-open"@,
            MenuAction::Capture => "menu-bar-capture"@,
            MenuAction::CaptureWithTimer => "menu-bar-capture-timer"@,
            MenuAction::RecordVideo => "menu-bar-record"@,
            MenuAction::RecordVideoWithTimer => "menu-bar-record-timer"@,
            MenuAction::CopyTextOnScreen => "menu-bar-ocr"@,
            MenuAction::Quit => "menu-bar-quit"@,
        }
    }

    /// The item's label; the timer items name the timer delay in seconds.
    pub open spec fn label_text(self, timer_delay: u32) -> Seq<char> {
        match self {
            MenuAction::OpenMainWindow => "Open FlashCap"@,
            MenuAction::Capture => "Capture Screenshot"@,
            MenuAction::CaptureWithTimer => "Capture Screenshot with Timer ("@ + decimal(
                timer_delay as nat,
            ) + "s)"@,
            MenuAction::RecordVideo => "Record Video"@,
            MenuAction::RecordVideoWithTimer => "Record Video with Timer ("@ + decimal(
                timer_delay as nat,
            ) + "s)"@,
            MenuAction::CopyTextOnScreen => "Copy Text on Screen (OCR)"@,
            MenuAction::Quit => "Quit FlashCap"@,
        }
    }

    /// Whether the item is offered: recording and OCR exist on macOS only.
    pub open spec fn offered(self, on_macos: bool) -> bool {
        on_macos || !(self == MenuAction::RecordVideo || self == MenuAction::RecordVideoWithTimer
            || self == MenuAction::CopyTextOnScreen)
    }

    /// Whether a separator follows the item.
    pub open spec fn separated(self) -> bool {
        self == MenuAction::OpenMainWindow || self == MenuAction::CaptureWithTimer || self
            == MenuAction::RecordVideoWithTimer || self == MenuAction::CopyTextOnScreen
    }

    /// The items, in menu order.
    pub fn all() -> (r: Vec<MenuAction>)
        ensures
            r@ == all_actions(),
    {
        let r = vec![
            MenuAction::OpenMainWindow,
            MenuAction::Capture,
            MenuAction::CaptureWithTimer,
            MenuAction::RecordVideo,
            MenuAction::RecordVideoWithTimer,
            MenuAction::CopyTextOnScreen,
            MenuAction::Quit,
        ];
        assert(r@ =~= all_actions());
        r
    }

    /// The item's menu id.
    pub fn menu_id(self) -> (r: &'static str)
        ensures
            r@ == self.id_text(),
    {
        match self {
            MenuAction::OpenMainWindow => "menu-bar-open",
            MenuAction::Capture => "menu-bar-capture",
            MenuAction::CaptureWithTimer => "menu-bar-capture-timer",
            MenuAction::RecordVideo => "menu-bar-record",
            MenuAction::RecordVideoWithTimer => "menu-bar-record-timer",
            MenuAction::CopyTextOnScreen => "menu-bar-ocr",
            MenuAction::Quit => "menu-bar-quit",
        }
    }

    /// The item whose menu id is `id` (the app menu's `preferences` is none of them).
    pub fn from_menu_id(id: &str) -> (r: Option<MenuAction>)
        ensures
            r == action_with_id(id@),
    {
        if str_eq(id, "menu-bar-open") {
            Some(MenuAction::OpenMainWindow)
        } else if str_eq(id, "menu-bar-capture") {
            Some(MenuAction::Capture)
        } else if str_eq(id, "menu-bar-capture-timer") {
            Some(MenuAction::CaptureWithTimer)
        } else if str_eq(id, "menu-bar-record") {
            Some(MenuAction::RecordVideo)
        } else if str_eq(id, "menu-bar-record-timer") {
            Some(MenuAction::RecordVideoWithTimer)
        } else if str_eq(id, "menu-bar-ocr") {
            Some(MenuAction::CopyTextOnScreen)
        } else if str_eq(id, "menu-bar-quit") {
            Some(MenuAction::Quit)
        } else {
            None
        }
    }

    /// The item's label, with the timer delay (from Preferences) in the timer items.
    pub fn label(self, timer_delay: u32) -> (r: String)
        ensures
            r@ == self.label_text(timer_delay),
    {
        match self {
            MenuAction::OpenMainWindow => owned("Open FlashCap"),
            MenuAction::Capture => owned("Capture Screenshot"),
            MenuAction::CaptureWithTimer => {
                let mut v = chars_of("Capture Screenshot with Timer (");
                push_decimal(&mut v, timer_delay as u128);
                push_str(&mut v, "s)");
                string_of(&v)
            },
            MenuAction::RecordVideo => owned("Record Video"),
            MenuAction::RecordVideoWithTimer => {
                let mut v = chars_of("Record Video with Timer (");
                push_decimal(&mut v, timer_delay as u128);
                push_str(&mut v, "s)");
                string_of(&v)
            },
            MenuAction::CopyTextOnScreen => owned("Copy Text on Screen (OCR)"),
            MenuAction::Quit => owned("Quit FlashCap"),
        }
    }

    /// Whether the item is offered on this system (`on_macos`: running on macOS).
    pub fn is_available(self, on_macos: bool) -> (r: bool)
        ensures
            r == self.offered(on_macos),
    {
        on_macos || !(self == MenuAction::RecordVideo || self == MenuAction::RecordVideoWithTimer
            || self == MenuAction::CopyTextOnScreen)
    }

    /// Whether a separator follows the item.
    pub fn separator_after(self) -> (r: bool)
        ensures
            r == self.separated(),
    {
        self == MenuAction::OpenMainWindow || self == MenuAction::CaptureWithTimer || self
            == MenuAction::RecordVideoWithTimer || self == MenuAction::CopyTextOnScreen
    }
}

/// Every item's id leads back to that item; no two items share an id.
pub proof fn law_menu_ids_map_back(a: MenuAction)
    ensures
        action_with_id(a.id_text()) == Some(a),
        action_with_id("preferences"@) is None,
{
    reveal_strlit("menu-bar-open");
    reveal_strlit("menu-bar-capture");
    reveal_strlit("menu-bar-capture-timer");
    reveal_strlit("menu-bar-record");
    reveal_strlit("menu-bar-record-timer");
    reveal_strlit("menu-bar-ocr");
    reveal_strlit("menu-bar-quit");
    reveal_strlit("preferences");
    assert("menu-bar-open"@[9] != "menu-bar-capture"@[9]);
    assert("menu-bar-open"@[9] != "menu-bar-record"@[9]);
    assert("menu-bar-open"@[9] != "menu-bar-quit"@[9]);
    assert("menu-bar-open"@[10] != "menu-bar-ocr"@[10]);
    assert("menu-bar-open"@.len() != "menu-bar-capture-timer"@.len());
    assert("menu-bar-open"@.len() != "menu-bar-record-timer"@.len());
    assert("menu-bar-capture"@.len() != "menu-bar-capture-timer"@.len());
    assert("menu-bar-capture"@[9] != "menu-bar-record"@[9]);
    assert("menu-bar-capture"@.len() != "menu-bar-record-timer"@.len());
    assert("menu-bar-capture"@.len() != "menu-bar-ocr"@.len());
    assert("menu-bar-capture"@.len() != "menu-bar-quit"@.len());
    assert("menu-bar-capture-timer"@.len() != "menu-bar-record"@.len());
    assert("menu-bar-capture-timer"@[9] != "menu-bar-record-timer"@[9]);
    assert("menu-bar-capture-timer"@.len() != "menu-bar-ocr"@.len());
    assert("menu-bar-capture-timer"@.len() != "menu-bar-quit"@.len());
    assert("menu-bar-record"@.len() != "menu-bar-record-timer"@.len());
    assert("menu-bar-record"@.len() != "menu-bar-ocr"@.len());
    assert("menu-bar-record"@.len() != "menu-bar-quit"@.len());
    assert("menu-bar-record-timer"@.len() != "menu-bar-ocr"@.len());
    assert("menu-bar-record-timer"@.len() != "menu-bar-quit"@.len());
    assert("menu-bar-ocr"@.len() != "menu-bar-quit"@.len());
    assert("preferences"@.len() != "menu-bar-open"@.len());
    assert("preferences"@.len() != "menu-bar-capture"@.len());
    assert("preferences"@.len() != "menu-bar-capture-timer"@.len());
    assert("preferences"@.len() != "menu-bar-record"@.len());
    assert("preferences"@.len() != "menu-bar-record-timer"@.len());
    assert("preferences"@.len() != "menu-bar-ocr"@.len());
    assert("preferences"@.len() != "menu-bar-quit"@.len());
}

/// One line of the menu-bar menu.
#[derive(Debug)]
pub struct MenuEntry {
    pub action: MenuAction,
    pub label: String,
    pub separator_after: bool,
}

/// The items offered, in menu order.
pub open spec fn offered_actions(on_macos: bool) -> Seq<MenuAction> {
    all_actions().filter(|a: MenuAction| a.offered(on_macos))
}

/// The lines of the menu-bar menu: the offered items in order, with their labels for
/// the given timer delay and their separators.
pub fn menu_entries(timer_delay: u32, on_macos: bool) -> (r: Vec<MenuEntry>)
    ensures
        r@.len() == offered_actions(on_macos).len(),
        forall|i: int|
            0 <= i < r@.len() ==> {
                let a = offered_actions(on_macos)[i];
                &&& (#[trigger] r@[i]).action == a
                &&& r@[i].label@ == a.label_text(timer_delay)
                &&& r@[i].separator_after == a.separated()
            },
{
    let all = MenuAction::all();
    let mut r: Vec<MenuEntry> = Vec::new();
    let mut i: usize = 0;
    while i < all.len()
        invariant
            i <= all.len(),
            all@ == all_actions(),
            r@.len() == all_actions().take(i as int).filter(|a: MenuAction| a.offered(on_macos)).len(),
            forall|j: int|
                0 <= j < r@.len() ==> {
                    let a = all_actions().take(i as int).filter(|a: MenuAction| a.offered(on_macos))[j];
                    &&& (#[trigger] r@[j]).action == a
                    &&& r@[j].label@ == a.label_text(timer_delay)
                    &&& r@[j].separator_after == a.separated()
                },
        decreases all.len() - i,
    {
        let a = all[i];
        assert(all_actions().take(i + 1).drop_last() =~= all_actions().take(i as int));
        reveal_with_fuel(Seq::filter, 1);
        if a.is_available(on_macos) {
            let label = a.label(timer_delay);
            let sep = a.separator_after();
            r.push(MenuEntry { action: a, label, separator_after: sep });
        }
        i = i + 1;
    }
    assert(all_actions().take(7) =~= all_actions());
    r
}

/// What clicking a menu item does.
#[derive(Debug, PartialEq, Eq, Structural)]
pub enum MenuOutcome {
    /// Quit the application.
    Quit,
    /// Ignore the click.
    Ignore,
    /// Show and focus the main window.
    ShowMainWindow,
    /// Cancel the region selection of a recording (and return to the main window).
    CancelRegionSelection,
    /// Ask the front end for a capture of this kind (held until it is ready).
    RequestCapture(CaptureKind),
    /// Open the region selector for a recording, with the timer or without.
    StartRecording { with_timer: bool },
    /// Capture a region and copy its text (OCR).
    CopyTextOnScreen,
}

/// What a click on `action` does. Before the front end is ready only captures (which
/// are held) and Quit are accepted; while recording, only the main window is shown (its
/// stop button is there); while a recording region is being chosen, Open cancels the
/// choice and all else is ignored; while a capture is in progress, nothing starts.
pub open spec fn outcome_of(
    action: MenuAction,
    frontend_ready: bool,
    recording: bool,
    selecting_region: bool,
    capture_in_progress: bool,
) -> MenuOutcome {
    if action == MenuAction::Quit {
        MenuOutcome::Quit
    } else if !(action == MenuAction::Capture || action == MenuAction::CaptureWithTimer)
        && !frontend_ready {
        MenuOutcome::Ignore
    } else if recording {
        MenuOutcome::ShowMainWindow
    } else if selecting_region {
        if action == MenuAction::OpenMainWindow {
            MenuOutcome::CancelRegionSelection
        } else {
            MenuOutcome::Ignore
        }
    } else if capture_in_progress {
        MenuOutcome::Ignore
    } else {
        match action {
            MenuAction::OpenMainWindow => MenuOutcome::ShowMainWindow,
            MenuAction::Capture => MenuOutcome::RequestCapture(CaptureKind::Interactive),
            MenuAction::CaptureWithTimer => MenuOutcome::RequestCapture(CaptureKind::Timer),
            MenuAction::RecordVideo => MenuOutcome::StartRecording { with_timer: false },
            MenuAction::RecordVideoWithTimer => MenuOutcome::StartRecording { with_timer: true },
            MenuAction::CopyTextOnScreen => MenuOutcome::CopyTextOnScreen,
            MenuAction::Quit => MenuOutcome::Quit,
        }
    }
}

/// Decides what a click on `action` does in the application's current state.
pub fn menu_outcome(
    action: MenuAction,
    frontend_ready: bool,
    recording: bool,
    selecting_region: bool,
    capture_in_progress: bool,
) -> (r: MenuOutcome)
    ensures
        r == outcome_of(action, frontend_ready, recording, selecting_region, capture_in_progress),
{
    if action == MenuAction::Quit {
        return MenuOutcome::Quit;
    }
    let queued = action == MenuAction::Capture || action == MenuAction::CaptureWithTimer;
    if !queued && !frontend_ready {
        return MenuOutcome::Ignore;
    }
    if recording {
        return MenuOutcome::ShowMainWindow;
    }
    if selecting_region {
        if action == MenuAction::OpenMainWindow {
            return MenuOutcome::CancelRegionSelection;
        }
        return MenuOutcome::Ignore;
    }
    if capture_in_progress {
        return MenuOutcome::Ignore;
    }
    match action {
        MenuAction::OpenMainWindow => MenuOutcome::ShowMainWindow,
        MenuAction::Capture => MenuOutcome::RequestCapture(CaptureKind::Interactive),
        MenuAction::CaptureWithTimer => MenuOutcome::RequestCapture(CaptureKind::Timer),
        MenuAction::RecordVideo => MenuOutcome::StartRecording { with_timer: false },
        MenuAction::RecordVideoWithTimer => MenuOutcome::StartRecording { with_timer: true },
        MenuAction::CopyTextOnScreen => MenuOutcome::CopyTextOnScreen,
        MenuAction::Quit => MenuOutcome::Quit,
    }
}

/// The item that a menu event with id `id` selects: one of this menu's items that is
/// offered on this system.
pub fn menu_event_action(id: &str, on_macos: bool) -> (r: Option<MenuAction>)
    ensures
        r == (match action_with_id(id@) {
            Some(a) => if a.offered(on_macos) {
                Some(a)
            } else {
                None
            },
            None => None,
        }),
{
    match MenuAction::from_menu_id(id) {
        Some(a) => if a.is_available(on_macos) {
            Some(a)
        } else {
            None
        },
        None => None,
    }
}

/// While a capture is in progress a click starts nothing and shows nothing (it would
/// appear in the capture): only Quit, and the main window while recording, get through.
pub proof fn law_nothing_starts_during_a_capture(
    action: MenuAction,
    frontend_ready: bool,
    selecting_region: bool,
)
    ensures
        ({
            let r = outcome_of(action, frontend_ready, false, selecting_region, true);
            r == MenuOutcome::Quit || r == MenuOutcome::Ignore || r
                == MenuOutcome::CancelRegionSelection
        }),
{
}

/// While recording, a click never starts a capture, a recording or an OCR.
pub proof fn law_recording_is_not_interrupted(
    action: MenuAction,
    frontend_ready: bool,
    selecting_region: bool,
    capture_in_progress: bool,
)
    ensures
        ({
            let r = outcome_of(action, frontend_ready, true, selecting_region, capture_in_progress);
            r == MenuOutcome::Quit || r == MenuOutcome::Ignore || r == MenuOutcome::ShowMainWindow
        }),
{
}

/// Before the front end is ready, only captures (which are held) and Quit are acted on.
pub proof fn law_only_captures_before_ready(
    action: MenuAction,
    recording: bool,
    selecting_region: bool,
    capture_in_progress: bool,
)
    requires
        action != MenuAction::Capture,
        action != MenuAction::CaptureWithTimer,
        action != MenuAction::Quit,
    ensures
        outcome_of(action, false, recording, selecting_region, capture_in_progress)
            == MenuOutcome::Ignore,
{
}

/// Whether the main window comes back after a text capture from the menu: only if it
/// was visible before, and no capture, region selection or recording has begun since.
pub fn shows_main_after_ocr(
    was_visible: bool,
    capture_in_progress: bool,
    selecting_region: bool,
    recording: bool,
) -> (r: bool)
    ensures
        r == (was_visible && !(capture_in_progress || selecting_region || recording)),
{
    was_visible && !(capture_in_progress || selecting_region || recording)
}

/// The timer is used exactly for the timer items: a click that starts a recording
/// starts it with the countdown only for "Record Video with Timer", and a capture it
/// asks for is a timer capture only for "Capture Screenshot with Timer". Whenever the
/// front end is ready and nothing is recording, selecting a region or capturing, the
/// recording items do start a recording and the capture items do ask for a capture.
pub proof fn law_timer_only_for_timer_items(
    action: MenuAction,
    frontend_ready: bool,
    recording: bool,
    selecting_region: bool,
    capture_in_progress: bool,
)
    ensures
        outcome_of(action, frontend_ready, recording, selecting_region, capture_in_progress) matches MenuOutcome::StartRecording { with_timer }
            ==> with_timer == (action == MenuAction::RecordVideoWithTimer),
        outcome_of(action, frontend_ready, recording, selecting_region, capture_in_progress) is StartRecording
            ==> action == MenuAction::RecordVideo || action == MenuAction::RecordVideoWithTimer,
        outcome_of(action, frontend_ready, recording, selecting_region, capture_in_progress) matches MenuOutcome::RequestCapture(kind)
            ==> (kind == CaptureKind::Timer) == (action == MenuAction::CaptureWithTimer),
        outcome_of(action, frontend_ready, recording, selecting_region, capture_in_progress) is RequestCapture
            ==> action == MenuAction::Capture || action == MenuAction::CaptureWithTimer,
        frontend_ready && !recording && !selecting_region && !capture_in_progress ==> {
            &&& action == MenuAction::RecordVideo ==> outcome_of(action, frontend_ready, recording, selecting_region, capture_in_progress)
                == MenuOutcome::StartRecording { with_timer: false }
            &&& action == MenuAction::RecordVideoWithTimer ==> outcome_of(action, frontend_ready, recording, selecting_region, capture_in_progress)
                == MenuOutcome::StartRecording { with_timer: true }
            &&& action == MenuAction::Capture ==> outcome_of(action, frontend_ready, recording, selecting_region, capture_in_progress)
                == MenuOutcome::RequestCapture(CaptureKind::Interactive)
            &&& action == MenuAction::CaptureWithTimer ==> outcome_of(action, frontend_ready, recording, selecting_region, capture_in_progress)
                == MenuOutcome::RequestCapture(CaptureKind::Timer)
        },
{
}

/// When the front end is ready and nothing is recording, selecting a region or
/// capturing, every item does what it says: Open shows the main window, the capture
/// items ask for their capture, the recording items start their recording, the text
/// item copies the text on screen, and Quit quits. Quit quits in every state.
pub proof fn law_idle_clicks_do_what_they_say(
    action: MenuAction,
    frontend_ready: bool,
    recording: bool,
    selecting_region: bool,
    capture_in_progress: bool,
)
    ensures
        action == MenuAction::Quit ==> outcome_of(action, frontend_ready, recording, selecting_region, capture_in_progress)
            == MenuOutcome::Quit,
        frontend_ready && !recording && !selecting_region && !capture_in_progress ==> outcome_of(action, true, false, false, false)
            == match action {
            MenuAction::OpenMainWindow => MenuOutcome::ShowMainWindow,
            MenuAction::Capture => MenuOutcome::RequestCapture(CaptureKind::Interactive),
            MenuAction::CaptureWithTimer => MenuOutcome::RequestCapture(CaptureKind::Timer),
            MenuAction::RecordVideo => MenuOutcome::StartRecording { with_timer: false },
            MenuAction::RecordVideoWithTimer => MenuOutcome::StartRecording { with_timer: true },
            MenuAction::CopyTextOnScreen => MenuOutcome::CopyTextOnScreen,
            MenuAction::Quit => MenuOutcome::Quit,
        },
{
}

} // verus!
