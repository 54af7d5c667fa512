//! Device pickers, and what a recording is started with.
use vstd::prelude::*;
use crate::text::{is_blank, opt_text, same_text, trimmed};

verus! {

/// The id of the entry that stands for the system's own choice.
pub const DEFAULT_DEVICE_ID: &'static str = "default";

/// Which side of a call a device captures.
#[derive(Debug, Clone, Copy, PartialEq, Eq, Structural)]
pub enum DeviceKind {
    Microphone,
    System,
}

/// An audio device.
#[derive(Debug, Clone, PartialEq, Eq)]
pub struct Device {
    pub id: String,
    pub label: String,
    pub kind: DeviceKind,
}

/// One entry of a picker: its value and what it reads.
#[derive(Debug, Clone, PartialEq, Eq)]
pub struct DeviceOption {
    pub id: String,
    pub label: String,
}

impl DeviceOption {
    /// The value and the reading.
    pub open spec fn texts(self) -> (Seq<char>, Seq<char>) {
        (self.id@, self.label@)
    }
}

/// The values and readings of a picker.
pub open spec fn option_texts(options: Seq<DeviceOption>) -> Seq<(Seq<char>, Seq<char>)> {
    options.map_values(|o: DeviceOption| o.texts())
}

/// The entries for the devices of one kind, in order.
pub open spec fn kind_entries(devices: Seq<Device>, kind: DeviceKind) -> Seq<
    (Seq<char>, Seq<char>),
>
    decreases devices.len(),
{
    if devices.len() == 0 {
        Seq::empty()
    } else if devices.last().kind == kind {
        kind_entries(devices.drop_last(), kind).push(
            (devices.last().id@, devices.last().label@),
        )
    } else {
        kind_entries(devices.drop_last(), kind)
    }
}

/// A picker for the devices of one kind: the default entry first, then the
/// devices in order.
pub fn device_options(devices: &Vec<Device>, kind: DeviceKind, default_label: &str) -> (r: Vec<
    DeviceOption,
>)
    ensures
        option_texts(r@) == seq![(DEFAULT_DEVICE_ID@, default_label@)] + kind_entries(
            devices@,
            kind,
        ),
{
    let mut out: Vec<DeviceOption> = Vec::new();
    out.push(
        DeviceOption { id: DEFAULT_DEVICE_ID.to_owned(), label: default_label.to_owned() },
    );
    let ghost head = seq![(DEFAULT_DEVICE_ID@, default_label@)];
    assert(option_texts(out@) =~= head + kind_entries(devices@.take(0), kind));
    for i in 0..devices.len()
        invariant
            option_texts(out@) == head + kind_entries(devices@.take(i as int), kind),
    {
        let ghost next = devices@.take(i + 1);
        assert(next.drop_last() =~= devices@.take(i as int));
        assert(next.last() == devices@[i as int]);
        if devices[i].kind == kind {
            let ghost before = out@;
            out.push(DeviceOption { id: devices[i].id.clone(), label: devices[i].label.clone() });
            assert(option_texts(out@) =~= option_texts(before).push(
                (devices@[i as int].id@, devices@[i as int].label@),
            ));
            assert(option_texts(out@) =~= head + kind_entries(next, kind));
        }
    }
    assert(devices@.take(devices@.len() as int) =~= devices@);
    out
}

/// The two pickers of the recording page.
pub fn recording_pickers(devices: &Vec<Device>) -> (r: (Vec<DeviceOption>, Vec<DeviceOption>))
    ensures
        option_texts(r.0@) == seq![(DEFAULT_DEVICE_ID@, "Default Microphone"@)] + kind_entries(
            devices@,
            DeviceKind::Microphone,
        ),
        option_texts(r.1@) == seq![(DEFAULT_DEVICE_ID@, "Default System Audio"@)] + kind_entries(
            devices@,
            DeviceKind::System,
        ),
{
    (
        device_options(devices, DeviceKind::Microphone, "Default Microphone"),
        device_options(devices, DeviceKind::System, "Default System Audio"),
    )
}

/// The preference to save for a picked entry: nothing for the default one.
pub open spec fn preference_for(picked: Seq<char>) -> Option<Seq<char>> {
    if picked == DEFAULT_DEVICE_ID@ {
        None
    } else {
        Some(picked)
    }
}

/// The preference to save for a picked entry: nothing for the default one.
pub fn saved_preference(picked: String) -> (r: Option<String>)
    ensures
        opt_text(r) == preference_for(picked@),
{
    if same_text(&picked, DEFAULT_DEVICE_ID) {
        None
    } else {
        Some(picked)
    }
}

/// The entry that a picker shows for a saved preference.
pub open spec fn picked_for(preference: Option<Seq<char>>) -> Seq<char> {
    match preference {
        Some(id) => id,
        None => DEFAULT_DEVICE_ID@,
    }
}

/// The entry that a picker shows for a saved preference: the default one where
/// there is none.
pub fn picked_device(preference: &Option<String>) -> (r: String)
    ensures
        r@ == picked_for(opt_text(*preference)),
{
    match preference {
        Some(id) => id.clone(),
        None => DEFAULT_DEVICE_ID.to_owned(),
    }
}

/// What is shown for a saved choice is that choice.
pub proof fn saved_choice_is_shown(picked: Seq<char>)
    ensures
        picked_for(preference_for(picked)) == picked,
{
}

// ---------------------------------------------------------------------------
// Starting
// ---------------------------------------------------------------------------

/// A calendar event that is taking place.
#[derive(Debug, Clone, PartialEq, Eq)]
pub struct MatchedEvent {
    pub id: String,
    pub summary: Option<String>,
}

/// What a recording is started with.
#[derive(Debug, Clone, PartialEq, Eq)]
pub struct StartPlan {
    /// The meeting's name.
    pub title: String,
    /// The calendar event to link the meeting to once it is saved.
    pub event_id: Option<String>,
    /// What to tell the user about the link.
    pub notice: Option<String>,
}

/// The title of an event, or nothing where it has none or a blank one.
pub open spec fn event_title(event: MatchedEvent) -> Option<Seq<char>> {
    match event.summary {
        Some(s) => if trimmed(s@).len() == 0 {
            None
        } else {
            Some(s@)
        },
        None => None,
    }
}

/// The meeting's name: the title of the event taking place, else what was
/// typed.
pub open spec fn start_title(typed: Seq<char>, event: Option<MatchedEvent>) -> Seq<char> {
    match event {
        Some(e) => match event_title(e) {
            Some(t) => t,
            None => typed,
        },
        None => typed,
    }
}

/// What a recording is started with, given the name that was typed and the
/// calendar event taking place.
pub fn plan_start(typed: &str, event: &Option<MatchedEvent>) -> (r: StartPlan)
    ensures
        r.title@ == start_title(typed@, *event),
        match *event {
            Some(e) => opt_text(r.event_id) == Some(e.id@) && opt_text(r.notice) == Some(
                "Linked to \""@ + (match e.summary {
                    Some(s) => s@,
                    None => r.title@,
                }) + "\" from your calendar"@,
            ),
            None => r.event_id is None && r.notice is None,
        },
{
    match event {
        Some(e) => {
            let title = match &e.summary {
                Some(s) => if is_blank(s) {
                    typed.to_owned()
                } else {
                    s.clone()
                },
                None => typed.to_owned(),
            };
            let named = match &e.summary {
                Some(s) => s.clone(),
                None => title.clone(),
            };
            let mut notice = "Linked to \"".to_owned();
            notice.append(&named);
            notice.append("\" from your calendar");
            StartPlan { title, event_id: Some(e.id.clone()), notice: Some(notice) }
        },
        None => StartPlan { title: typed.to_owned(), event_id: None, notice: None },
    }
}

} // verus!
