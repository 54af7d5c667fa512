//! Phases and buttons, elapsed time, titles, save paths and level meters.
use vstd::prelude::*;
use crate::clock::{format_stamp, path_digits, stamp_text, title_digits, Stamp, PATH_PATTERN, TITLE_PATTERN};
use crate::numbers::{decimal, push_decimal, push_two_digits, two_digits};
use crate::paths::{join_path, path_in};
use crate::text::{same_text};

verus! {

/// Where a recording is in its life.
#[derive(Debug, Clone, Copy, PartialEq, Eq, Structural)]
pub enum RecordingPhase {
    Idle,
    Starting,
    Recording,
    Paused,
    Stopping,
    Finalising,
    Error,
}

/// Whether audio is being taken in, or could be again at once.
pub open spec fn active_phase(phase: RecordingPhase) -> bool {
    phase is Recording || phase is Paused
}

/// Whether audio is being taken in, or could be again at once.
pub fn is_active_phase(phase: RecordingPhase) -> (r: bool)
    ensures
        r == active_phase(phase),
{
    matches!(phase, RecordingPhase::Recording | RecordingPhase::Paused)
}

/// Which recording controls are enabled.
#[derive(Debug, Clone, Copy, PartialEq, Eq, Structural)]
pub struct ButtonState {
    pub can_start: bool,
    pub can_pause: bool,
    pub can_resume: bool,
    pub can_stop: bool,
}

impl Default for ButtonState {
    /// Nothing enabled.
    fn default() -> (r: Self)
        ensures
            r == (ButtonState {
                can_start: false,
                can_pause: false,
                can_resume: false,
                can_stop: false,
            }),
    {
        ButtonState { can_start: false, can_pause: false, can_resume: false, can_stop: false }
    }
}

/// Which controls are enabled in a phase: a recording can start from `Idle`
/// and `Error`, pause while recording, resume while paused, and stop from
/// either; everything is disabled in between.
pub open spec fn buttons_in(phase: RecordingPhase) -> ButtonState {
    ButtonState {
        can_start: phase is Idle || phase is Error,
        can_pause: phase is Recording,
        can_resume: phase is Paused,
        can_stop: phase is Recording || phase is Paused,
    }
}

/// Which recording controls are enabled in `phase`.
pub fn button_state(phase: RecordingPhase) -> (r: ButtonState)
    ensures
        r == buttons_in(phase),
{
    match phase {
        RecordingPhase::Idle | RecordingPhase::Error => ButtonState {
            can_start: true,
            can_pause: false,
            can_resume: false,
            can_stop: false,
        },
        RecordingPhase::Starting | RecordingPhase::Stopping | RecordingPhase::Finalising => {
            ButtonState::default()
        },
        RecordingPhase::Recording => ButtonState {
            can_start: false,
            can_pause: true,
            can_resume: false,
            can_stop: true,
        },
        RecordingPhase::Paused => ButtonState {
            can_start: false,
            can_pause: false,
            can_resume: true,
            can_stop: true,
        },
    }
}

/// Starting is never offered together with another control, pausing never
/// together with resuming, and stopping exactly while a recording is active.
pub proof fn buttons_never_conflict(phase: RecordingPhase)
    ensures
        buttons_in(phase).can_start ==> !buttons_in(phase).can_pause && !buttons_in(
            phase,
        ).can_resume && !buttons_in(phase).can_stop,
        !(buttons_in(phase).can_pause && buttons_in(phase).can_resume),
        buttons_in(phase).can_stop <==> active_phase(phase),
        buttons_in(phase).can_stop <==> buttons_in(phase).can_pause || buttons_in(
            phase,
        ).can_resume,
{
}

// ---------------------------------------------------------------------------
// Elapsed time
// ---------------------------------------------------------------------------

/// `mm:ss`, or `h:mm:ss` from one hour on.
pub open spec fn elapsed_text(total_secs: nat) -> Seq<char> {
    let h = total_secs / 3600;
    let m = (total_secs % 3600) / 60;
    let s = total_secs % 60;
    if h > 0 {
        decimal(h) + seq![':'] + two_digits(m) + seq![':'] + two_digits(s)
    } else {
        two_digits(m) + seq![':'] + two_digits(s)
    }
}

/// `mm:ss`, or `h:mm:ss` from one hour on.
pub fn format_elapsed(total_secs: u64) -> (r: String)
    ensures
        r@ == elapsed_text(total_secs as nat),
{
    let h: u64 = total_secs / 3600;
    let m: u64 = (total_secs % 3600) / 60;
    let s: u64 = total_secs % 60;
    let mut out = String::new();
    if h > 0 {
        push_decimal(&mut out, h);
        out.push(':');
    }
    push_two_digits(&mut out, m);
    out.push(':');
    push_two_digits(&mut out, s);
    assert(out@ =~= elapsed_text(total_secs as nat));
    out
}

/// Whole seconds of a row's start time, with anything before the start of the
/// recording taken as its start.
pub open spec fn row_seconds(audio_start_time: i64) -> nat {
    if audio_start_time < 0 {
        0
    } else {
        (audio_start_time / 1_000_000_000) as nat
    }
}

/// The time shown beside a row of the live transcript.
pub fn row_time(audio_start_time: i64) -> (r: String)
    ensures
        r@ == elapsed_text(row_seconds(audio_start_time)),
{
    if audio_start_time < 0 {
        format_elapsed(0)
    } else {
        format_elapsed((audio_start_time / 1_000_000_000) as u64)
    }
}

/// The active duration of a recording as last reported, so that the shown time
/// can tick on between reports.
#[derive(Debug, Clone, Copy, PartialEq, Eq, Structural)]
pub struct ElapsedClock {
    /// Milliseconds of active recording at the last report.
    pub base_active_ms: u64,
    /// The host's clock, in milliseconds, at the last report.
    pub base_host_ms: u64,
    pub running: bool,
}

impl Default for ElapsedClock {
    /// A clock that stands at zero.
    fn default() -> (r: Self)
        ensures
            r == (ElapsedClock { base_active_ms: 0, base_host_ms: 0, running: false }),
    {
        ElapsedClock { base_active_ms: 0, base_host_ms: 0, running: false }
    }
}

impl ElapsedClock {
    /// The clock after a report at `now_ms`: it runs on only while recording.
    pub open spec fn rebased(
        active_ms: Option<u64>,
        phase: RecordingPhase,
        now_ms: u64,
    ) -> ElapsedClock {
        ElapsedClock {
            base_active_ms: match active_ms {
                Some(ms) => ms,
                None => 0,
            },
            base_host_ms: now_ms,
            running: phase is Recording,
        }
    }

    /// Takes over a reported active duration.
    pub fn rebase(&mut self, active_ms: Option<u64>, phase: RecordingPhase, now_ms: u64)
        ensures
            *final(self) == Self::rebased(active_ms, phase, now_ms),
    {
        self.base_active_ms = match active_ms {
            Some(ms) => ms,
            None => 0,
        };
        self.base_host_ms = now_ms;
        self.running = matches!(phase, RecordingPhase::Recording);
    }

    /// Milliseconds to show at `now_ms`: what was reported, and what has passed
    /// since while running. A host clock that went back adds nothing.
    pub open spec fn shown_ms(self, now_ms: u64) -> nat {
        if self.running && now_ms > self.base_host_ms {
            (self.base_active_ms + (now_ms - self.base_host_ms)) as nat
        } else {
            self.base_active_ms as nat
        }
    }

    /// Whole seconds to show at `now_ms`.
    pub fn displayed_secs(&self, now_ms: u64) -> (r: u64)
        ensures
            r == self.shown_ms(now_ms) / 1000,
    {
        let passed: u128 = if self.running && now_ms > self.base_host_ms {
            (now_ms - self.base_host_ms) as u128
        } else {
            0
        };
        ((self.base_active_ms as u128 + passed) / 1000) as u64
    }
}

/// While a recording runs, the shown time never goes back, and a pause holds
/// it still.
pub proof fn shown_time_is_monotonic(clock: ElapsedClock, earlier: u64, later: u64)
    requires
        earlier <= later,
    ensures
        clock.shown_ms(earlier) <= clock.shown_ms(later),
        !clock.running ==> clock.shown_ms(earlier) == clock.shown_ms(later),
        clock.shown_ms(clock.base_host_ms) == clock.base_active_ms,
{
}

// ---------------------------------------------------------------------------
// Titles and save paths
// ---------------------------------------------------------------------------

/// The default title of a meeting recorded from `now` on:
/// "Meeting DD_MM_YY_HH_MM_SS".
pub open spec fn default_title(now: Stamp) -> Seq<char> {
    "Meeting "@ + title_digits(now)
}

/// The default title of a meeting recorded from `now` on.
pub fn default_meeting_title(now: &Stamp) -> (r: String)
    requires
        now.valid(),
    ensures
        r@ == default_title(*now),
{
    let mut out = "Meeting ".to_owned();
    let stamp = format_stamp(now, TITLE_PATTERN);
    out.append(&stamp);
    out
}

/// Where the recording of `now` goes in a directory:
/// "recording-YYYY-MM-DDTHH-MM-SS.wav".
pub open spec fn save_path(app_data_dir: Seq<char>, now: Stamp) -> Seq<char> {
    path_in(app_data_dir, "recording-"@ + stamp_text(now, PATH_PATTERN@) + ".wav"@)
}

/// The path handed over when a recording stops, in the application's data
/// directory.
pub fn stop_save_path(app_data_dir: &str, now: &Stamp) -> (r: String)
    requires
        now.valid(),
    ensures
        r@ == save_path(app_data_dir@, *now),
        0 <= now.year <= 9999 ==> r@ == path_in(
            app_data_dir@,
            "recording-"@ + path_digits(*now) + ".wav"@,
        ),
{
    let mut name = "recording-".to_owned();
    let stamp = format_stamp(now, PATH_PATTERN);
    name.append(&stamp);
    name.append(".wav");
    join_path(app_data_dir, &name)
}

/// The path handed over when a recording stops: in the data directory where
/// there is one, else a bare file name.
pub fn stop_path(app_data_dir: &Option<String>, now: &Stamp) -> (r: String)
    requires
        now.valid(),
    ensures
        match *app_data_dir {
            Some(dir) => r@ == save_path(dir@, *now),
            None => r@ == "recording.wav"@,
        },
{
    match app_data_dir {
        Some(dir) => stop_save_path(dir, now),
        None => "recording.wav".to_owned(),
    }
}

// ---------------------------------------------------------------------------
// Level meters
// ---------------------------------------------------------------------------

/// The level of one source, with the role that it was captured in.
#[derive(Debug, Clone, PartialEq)]
pub struct AudioLevelData<L> {
    /// "mic" or "system".
    pub device_name: String,
    pub rms_level: L,
}

/// The levels that the two meters show.
#[derive(Debug, Clone, Copy, PartialEq, Eq)]
pub struct Levels<L> {
    pub mic: L,
    pub system: L,
}

/// The last level reported for a role, or `silent` where there is none.
pub open spec fn last_level<L>(levels: Seq<AudioLevelData<L>>, role: Seq<char>, silent: L) -> L
    decreases levels.len(),
{
    if levels.len() == 0 {
        silent
    } else if levels.last().device_name@ == role {
        levels.last().rms_level
    } else {
        last_level(levels.drop_last(), role, silent)
    }
}

/// The levels of the microphone and of the system audio out of a report; a
/// source that is missing is silent.
pub fn levels_from_update<L: Copy>(levels: &Vec<AudioLevelData<L>>, silent: L) -> (r: Levels<L>)
    ensures
        r.mic == last_level(levels@, "mic"@, silent),
        r.system == last_level(levels@, "system"@, silent),
{
    let mut mic = silent;
    let mut system = silent;
    proof {
        reveal_strlit("mic");
        reveal_strlit("system");
        assert("mic"@.len() != "system"@.len());
    }
    for i in 0..levels.len()
        invariant
            "mic"@ != "system"@,
            mic == last_level(levels@.take(i as int), "mic"@, silent),
            system == last_level(levels@.take(i as int), "system"@, silent),
    {
        assert(levels@.take(i + 1).drop_last() =~= levels@.take(i as int));
        assert(levels@.take(i + 1).last() == levels@[i as int]);
        if same_text(&levels[i].device_name, "mic") {
            mic = levels[i].rms_level;
        } else if same_text(&levels[i].device_name, "system") {
            system = levels[i].rms_level;
        }
    }
    assert(levels@.take(levels@.len() as int) =~= levels@);
    Levels { mic, system }
}

} // verus!
