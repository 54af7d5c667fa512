//! The stored settings.
use vstd::prelude::*;

verus! {

/// Which provider transcribes, and with which model.
#[derive(Debug, Clone, PartialEq, Eq)]
pub struct TranscriptConfig {
    pub provider: String,
    pub model: String,
}

impl Default for TranscriptConfig {
    /// Nothing chosen.
    fn default() -> (r: Self)
        ensures
            r.provider@.len() == 0,
            r.model@.len() == 0,
    {
        TranscriptConfig { provider: String::new(), model: String::new() }
    }
}

/// Which provider summarises, and with which model; and where Ollama is.
#[derive(Debug, Clone, PartialEq, Eq)]
pub struct SummaryConfig {
    pub provider: String,
    pub model: String,
    pub ollama_endpoint: String,
}

impl Default for SummaryConfig {
    /// Nothing chosen.
    fn default() -> (r: Self)
        ensures
            r.provider@.len() == 0,
            r.model@.len() == 0,
            r.ollama_endpoint@.len() == 0,
    {
        SummaryConfig {
            provider: String::new(),
            model: String::new(),
            ollama_endpoint: String::new(),
        }
    }
}

/// Which events are notified about.
#[derive(Debug, Clone, PartialEq, Eq)]
pub struct NotificationPreferences {
    pub show_recording_started: bool,
    pub show_recording_stopped: bool,
    pub show_recording_paused: bool,
    pub show_recording_resumed: bool,
    pub show_transcription_complete: bool,
    pub show_meeting_reminders: bool,
    pub show_system_errors: bool,
    /// Minutes before a meeting at which to remind of it.
    pub meeting_reminder_minutes: Vec<u64>,
}

impl NotificationPreferences {
    /// What is notified about unless something else was chosen: everything but
    /// the start and the stop of a recording, and meetings a quarter of an hour
    /// and five minutes ahead.
    pub open spec fn is_default(self) -> bool {
        &&& !self.show_recording_started
        &&& !self.show_recording_stopped
        &&& self.show_recording_paused
        &&& self.show_recording_resumed
        &&& self.show_transcription_complete
        &&& self.show_meeting_reminders
        &&& self.show_system_errors
        &&& self.meeting_reminder_minutes@ == seq![15u64, 5u64]
    }
}

impl Default for NotificationPreferences {
    /// Everything but the start and the stop of a recording.
    fn default() -> (r: Self)
        ensures
            r.is_default(),
    {
        let mut minutes: Vec<u64> = Vec::new();
        minutes.push(15);
        minutes.push(5);
        assert(minutes@ =~= seq![15u64, 5u64]);
        NotificationPreferences {
            show_recording_started: false,
            show_recording_stopped: false,
            show_recording_paused: true,
            show_recording_resumed: true,
            show_transcription_complete: true,
            show_meeting_reminders: true,
            show_system_errors: true,
            meeting_reminder_minutes: minutes,
        }
    }
}

/// How notifications are given.
#[derive(Debug, Clone, PartialEq, Eq)]
pub struct NotificationSettings {
    pub recording_notifications: bool,
    pub time_based_reminders: bool,
    pub meeting_reminders: bool,
    pub respect_do_not_disturb: bool,
    pub notification_sound: bool,
    pub system_permission_granted: bool,
    pub consent_given: bool,
    pub manual_dnd_mode: bool,
    pub notification_preferences: NotificationPreferences,
}

impl NotificationSettings {
    /// How notifications are given unless something else was chosen.
    pub open spec fn is_default(self) -> bool {
        &&& self.recording_notifications
        &&& self.time_based_reminders
        &&& self.meeting_reminders
        &&& self.respect_do_not_disturb
        &&& self.notification_sound
        &&& !self.system_permission_granted
        &&& !self.consent_given
        &&& !self.manual_dnd_mode
        &&& self.notification_preferences.is_default()
    }
}

impl Default for NotificationSettings {
    /// Everything on, but neither permitted nor consented to yet.
    fn default() -> (r: Self)
        ensures
            r.is_default(),
    {
        NotificationSettings {
            recording_notifications: true,
            time_based_reminders: true,
            meeting_reminders: true,
            respect_do_not_disturb: true,
            notification_sound: true,
            system_permission_granted: false,
            consent_given: false,
            manual_dnd_mode: false,
            notification_preferences: NotificationPreferences::default(),
        }
    }
}

/// Features that can be switched on.
#[derive(Debug, Clone, Copy, PartialEq, Eq, Structural)]
pub struct FeatureToggles {
    pub live_action_items: bool,
}

impl Default for FeatureToggles {
    /// All off.
    fn default() -> (r: Self)
        ensures
            r == (FeatureToggles { live_action_items: false }),
    {
        FeatureToggles { live_action_items: false }
    }
}

} // verus!
