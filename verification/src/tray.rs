//! The tray icon: its picture, its menu, and which events are notified about.
use vstd::prelude::*;
use crate::notifications::Kind;
use crate::recording::controls::{buttons_in, RecordingPhase};
use crate::text::same_text;

verus! {

/// The width and the height of the icon, in pixels.
pub const ICON_SIZE: usize = 32;

/// Whether a pixel is in the circle.
pub open spec fn in_circle(x: int, y: int) -> bool {
    (x - 15) * (x - 15) + (y - 15) * (y - 15) <= 169
}

/// A byte of the icon: red, green, blue and opacity of each pixel in turn, row
/// by row. The circle is red, the rest is clear.
pub open spec fn icon_byte(i: int) -> u8 {
    let pixel = i / 4;
    if !in_circle(pixel % 32, pixel / 32) {
        0
    } else if i % 4 == 0 {
        220
    } else if i % 4 == 3 {
        255
    } else {
        70
    }
}

/// The icon: a filled circle.
pub fn tray_icon() -> (r: Vec<u8>)
    ensures
        r@.len() == ICON_SIZE * ICON_SIZE * 4,
        forall|i: int| 0 <= i < r@.len() ==> #[trigger] r@[i] == icon_byte(i),
{
    let mut rgba: Vec<u8> = Vec::new();
    let mut pixel: usize = 0;
    while pixel < 1024
        invariant
            pixel <= 1024,
            rgba@.len() == pixel * 4,
            forall|i: int| 0 <= i < rgba@.len() ==> #[trigger] rgba@[i] == icon_byte(i),
        decreases 1024 - pixel,
    {
        let x: i32 = (pixel % 32) as i32;
        let y: i32 = (pixel / 32) as i32;
        let dx: i32 = x - 15;
        let dy: i32 = y - 15;
        assert(0 <= dx * dx <= 256 && 0 <= dy * dy <= 256) by (nonlinear_arith)
            requires
                -16 <= dx <= 16,
                -16 <= dy <= 16,
        ;
        let inside = dx * dx + dy * dy <= 169;
        let ghost n = 4 * pixel as int;
        proof {
            let (a, b) = ((n / 4) % 32 - 15, (n / 4) / 32 - 15);
            assert(n / 4 == pixel);
            assert(a == dx && b == dy);
            assert(a * a == dx * dx && b * b == dy * dy);
        }
        assert(inside == in_circle((n / 4) % 32, (n / 4) / 32));
        if inside {
            rgba.push(220);
            rgba.push(70);
            rgba.push(70);
            rgba.push(255);
        } else {
            rgba.push(0);
            rgba.push(0);
            rgba.push(0);
            rgba.push(0);
        }
        assert forall|i: int| 0 <= i < rgba@.len() implies #[trigger] rgba@[i] == icon_byte(i) by {
            if i >= n {
                assert(i / 4 == n / 4);
            }
        }
        pixel += 1;
    }
    rgba
}

/// What an entry of the menu does.
#[derive(Debug, Clone, Copy, PartialEq, Eq, Structural)]
pub enum TrayAction {
    /// It only says something.
    Status,
    Separator,
    StartRecording,
    PauseRecording,
    ResumeRecording,
    StopRecording,
    OpenParley,
    Settings,
    CheckForUpdates,
    Quit,
}

/// An entry of the menu.
#[derive(Debug, Clone, Copy, PartialEq, Eq)]
pub struct TrayItem {
    pub label: &'static str,
    pub action: TrayAction,
    pub enabled: bool,
}

/// What the menu says of a phase.
pub open spec fn status_text(phase: RecordingPhase) -> Seq<char> {
    match phase {
        RecordingPhase::Idle => "Not recording"@,
        RecordingPhase::Starting => "Starting…"@,
        RecordingPhase::Recording => "Recording…"@,
        RecordingPhase::Paused => "Paused"@,
        RecordingPhase::Stopping => "Stopping…"@,
        RecordingPhase::Finalising => "Finalising…"@,
        RecordingPhase::Error => "Recording error"@,
    }
}

/// What the menu says of a phase.
pub fn status_label(phase: RecordingPhase) -> (r: &'static str)
    ensures
        r@ == status_text(phase),
{
    match phase {
        RecordingPhase::Idle => "Not recording",
        RecordingPhase::Starting => "Starting…",
        RecordingPhase::Recording => "Recording…",
        RecordingPhase::Paused => "Paused",
        RecordingPhase::Stopping => "Stopping…",
        RecordingPhase::Finalising => "Finalising…",
        RecordingPhase::Error => "Recording error",
    }
}

/// An entry, as texts.
pub open spec fn item_view(item: TrayItem) -> (Seq<char>, TrayAction, bool) {
    (item.label@, item.action, item.enabled)
}

/// The menu in a phase. Unlike the recording page, it offers to start only
/// where nothing has gone wrong.
pub open spec fn menu_in(phase: RecordingPhase) -> Seq<(Seq<char>, TrayAction, bool)> {
    seq![
        (status_text(phase), TrayAction::Status, false),
        (""@, TrayAction::Separator, false),
        ("Start recording"@, TrayAction::StartRecording, phase is Idle),
        ("Pause recording"@, TrayAction::PauseRecording, phase is Recording),
        ("Resume recording"@, TrayAction::ResumeRecording, phase is Paused),
        (
            "Stop recording"@,
            TrayAction::StopRecording,
            phase is Recording || phase is Paused,
        ),
        (""@, TrayAction::Separator, false),
        ("Open Parley"@, TrayAction::OpenParley, true),
        ("Settings"@, TrayAction::Settings, true),
        ("Check for updates"@, TrayAction::CheckForUpdates, true),
        (""@, TrayAction::Separator, false),
        ("Quit"@, TrayAction::Quit, true),
    ]
}

fn item(label: &'static str, action: TrayAction, enabled: bool) -> (r: TrayItem)
    ensures
        item_view(r) == (label@, action, enabled),
{
    TrayItem { label, action, enabled }
}

/// The menu in a phase.
pub fn build_menu(phase: RecordingPhase) -> (r: Vec<TrayItem>)
    ensures
        r@.map_values(|i: TrayItem| item_view(i)) == menu_in(phase),
{
    let recording = matches!(phase, RecordingPhase::Recording);
    let paused = matches!(phase, RecordingPhase::Paused);
    let idle = matches!(phase, RecordingPhase::Idle);
    let mut out: Vec<TrayItem> = Vec::new();
    out.push(item(status_label(phase), TrayAction::Status, false));
    out.push(item("", TrayAction::Separator, false));
    out.push(item("Start recording", TrayAction::StartRecording, idle));
    out.push(item("Pause recording", TrayAction::PauseRecording, recording));
    out.push(item("Resume recording", TrayAction::ResumeRecording, paused));
    out.push(item("Stop recording", TrayAction::StopRecording, recording || paused));
    out.push(item("", TrayAction::Separator, false));
    out.push(item("Open Parley", TrayAction::OpenParley, true));
    out.push(item("Settings", TrayAction::Settings, true));
    out.push(item("Check for updates", TrayAction::CheckForUpdates, true));
    out.push(item("", TrayAction::Separator, false));
    out.push(item("Quit", TrayAction::Quit, true));
    assert(out@.map_values(|i: TrayItem| item_view(i)) =~= menu_in(phase));
    out
}

/// The menu offers what the recording page offers, but for starting anew after
/// an error.
pub proof fn menu_agrees_with_buttons(phase: RecordingPhase)
    ensures
        menu_in(phase)[2].2 == (buttons_in(phase).can_start && !(phase is Error)),
        menu_in(phase)[3].2 == buttons_in(phase).can_pause,
        menu_in(phase)[4].2 == buttons_in(phase).can_resume,
        menu_in(phase)[5].2 == buttons_in(phase).can_stop,
{
}

/// Something that the tray listens to.
#[derive(Debug, Clone, PartialEq, Eq)]
pub enum TrayEvent {
    /// The recording's phase.
    State(RecordingPhase),
    Started,
    Stopped,
    Refined,
    RecordingError(String),
    /// What to tell the user, where there is something.
    TranscriptionError(Option<String>),
    Other,
}

/// What an event is notified about as: pausing and resuming are seen by the
/// change of phase, the rest have events of their own.
pub open spec fn notice_of(previous: RecordingPhase, event: TrayEvent, kind: Option<Kind>) -> bool {
    match event {
        TrayEvent::State(now) => if previous is Recording && now is Paused {
            kind == Some(Kind::Paused)
        } else if previous is Paused && now is Recording {
            kind == Some(Kind::Resumed)
        } else {
            kind is None
        },
        TrayEvent::Started => kind == Some(Kind::Started),
        TrayEvent::Stopped => kind == Some(Kind::Stopped),
        TrayEvent::Refined => kind == Some(Kind::TranscriptionComplete),
        TrayEvent::RecordingError(message) => kind == Some(Kind::SystemError(message)),
        TrayEvent::TranscriptionError(message) => kind matches Some(Kind::SystemError(m)) && m@
            == match message {
            Some(text) => text@,
            None => "Transcription error"@,
        },
        TrayEvent::Other => kind is None,
    }
}

/// The tray.
pub struct Tray {
    pub phase: RecordingPhase,
}

impl Tray {
    /// A tray that shows nothing being recorded.
    pub fn new() -> (r: Self)
        ensures
            r.phase is Idle,
    {
        Tray { phase: RecordingPhase::Idle }
    }

    /// Takes an event in, and says what it is notified about as.
    pub fn on_event(&mut self, event: TrayEvent) -> (r: Option<Kind>)
        ensures
            notice_of(old(self).phase, event, r),
            final(self).phase == match event {
                TrayEvent::State(now) => now,
                _ => old(self).phase,
            },
    {
        match event {
            TrayEvent::State(now) => {
                let previous = self.phase;
                self.phase = now;
                if previous == RecordingPhase::Recording && now == RecordingPhase::Paused {
                    Some(Kind::Paused)
                } else if previous == RecordingPhase::Paused && now == RecordingPhase::Recording {
                    Some(Kind::Resumed)
                } else {
                    None
                }
            },
            TrayEvent::Started => Some(Kind::Started),
            TrayEvent::Stopped => Some(Kind::Stopped),
            TrayEvent::Refined => Some(Kind::TranscriptionComplete),
            TrayEvent::RecordingError(message) => Some(Kind::SystemError(message)),
            TrayEvent::TranscriptionError(message) => Some(
                Kind::SystemError(
                    match message {
                        Some(text) => text,
                        None => "Transcription error".to_owned(),
                    },
                ),
            ),
            TrayEvent::Other => None,
        }
    }
}

/// The kinds of named event that the tray listens to.
#[derive(Debug, Clone, Copy, PartialEq, Eq, Structural)]
pub enum TrayEventKind {
    State,
    Started,
    Stopped,
    Refined,
    RecordingError,
    TranscriptionError,
    Other,
}

/// The kind of event that a name stands for.
pub open spec fn tray_kind_of(name: Seq<char>) -> TrayEventKind {
    if name == "recording-state"@ {
        TrayEventKind::State
    } else if name == "recording-started"@ {
        TrayEventKind::Started
    } else if name == "recording-stopped"@ {
        TrayEventKind::Stopped
    } else if name == "meeting-refined"@ {
        TrayEventKind::Refined
    } else if name == "recording-error"@ {
        TrayEventKind::RecordingError
    } else if name == "transcription-error"@ {
        TrayEventKind::TranscriptionError
    } else {
        TrayEventKind::Other
    }
}

/// The kind of event that a name stands for.
pub fn tray_event_kind(name: &str) -> (r: TrayEventKind)
    ensures
        r == tray_kind_of(name@),
{
    if same_text(name, "recording-state") {
        TrayEventKind::State
    } else if same_text(name, "recording-started") {
        TrayEventKind::Started
    } else if same_text(name, "recording-stopped") {
        TrayEventKind::Stopped
    } else if same_text(name, "meeting-refined") {
        TrayEventKind::Refined
    } else if same_text(name, "recording-error") {
        TrayEventKind::RecordingError
    } else if same_text(name, "transcription-error") {
        TrayEventKind::TranscriptionError
    } else {
        TrayEventKind::Other
    }
}

} // verus!
