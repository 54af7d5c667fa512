//! What the steps of a page change, and that they change nothing else.
use vstd::prelude::*;
use crate::action_items::grouping::MeetingRef;
use crate::action_items::items::ActionItem;
use crate::action_items::page::ActionItemsView;
use crate::clock::Moment;
use crate::import::dialog::{AudioFileInfo, ImportChoices, ImportEffect, ImportEvent, ImportRequest, ImportState};
use crate::meeting::calendar::{CalendarEvent, CalendarPanel, LinkFault, LinkOutcome};
use crate::meeting::format::MeetingTranscript;
use crate::meeting::items::ItemsPanel;
use crate::meeting::notes::{MeetingNote, NotesPanel};
use crate::meeting::page::{MeetingDetails, MeetingView, PlayStep, SummaryRequest};
use crate::meeting::retranscribe::{OpenStep, RetranscribePanel, StartStep};
use crate::meeting::speakers::VoiceProfile;
use crate::meeting::summary::{GenerateStep, SummaryPanel, SummaryProcess};
use crate::onboarding::{CompleteStep, OnboardingView, SetupEvent};
use crate::settings::cache::{CalendarSourceRow, CustomOpenAIConfig, OllamaModel, RecordingPreferences, SettingsCache};
use crate::settings::config::{FeatureToggles, NotificationSettings};
use crate::shell::meeting_list::{ContentMatch, MeetingRow};
use crate::shell::navigation::{AppShell, LeaveChoice, NavEffects, NavOutcome, Route, SearchStep};
use crate::whisper::models::ModelInfo;

verus! {

/// Of the action items page, `begin_refresh` changes nothing but `loading` and `error`.
pub proof fn items_page_keeps_all_but_loading_and_error(
    a: &mut ActionItemsView,
    a_has_db: bool,
    a_r: bool,
)
    requires
        call_ensures(ActionItemsView::begin_refresh, (a, a_has_db), a_r),
    ensures
        *final(a) == (ActionItemsView { loading: final(a).loading, error: final(a).error, ..*old(a) }),
{
}

/// Of the action items page, `finish_refresh` changes nothing but `items`, `meetings`,
/// `loading` and `error`.
pub proof fn items_page_keeps_all_but_items_and_meetings_and_loading_and_error(
    a: &mut ActionItemsView,
    a_items: Result<Vec<ActionItem>, String>,
    a_meetings: Option<Vec<MeetingRef>>,
)
    requires
        call_ensures(ActionItemsView::finish_refresh, (a, a_items, a_meetings), ()),
    ensures
        *final(a) == (ActionItemsView { items: final(a).items, meetings: final(a).meetings, loading: final(a).loading, error: final(a).error, ..*old(a) }),
{
}

/// Of the action items page, `toggle_status` and `delete` change nothing but `items`.
pub proof fn items_page_keeps_all_but_items(
    a: &mut ActionItemsView,
    a_id: &str,
    a_currently_done: bool,
    a_r: &'static str,
    b: &mut ActionItemsView,
    b_id: &str,
)
    requires
        call_ensures(ActionItemsView::toggle_status, (a, a_id, a_currently_done), a_r),
        call_ensures(ActionItemsView::delete, (b, b_id), ()),
    ensures
        *final(a) == (ActionItemsView { items: final(a).items, ..*old(a) }),
        *final(b) == (ActionItemsView { items: final(b).items, ..*old(b) }),
{
}

/// Of the action items page, `start_edit` and `cancel_edit` change nothing but
/// `editing_id`.
pub proof fn items_page_keeps_all_but_editing_id(
    a: &mut ActionItemsView,
    a_id: &str,
    a_r: Option<String>,
    b: &mut ActionItemsView,
)
    requires
        call_ensures(ActionItemsView::start_edit, (a, a_id), a_r),
        call_ensures(ActionItemsView::cancel_edit, (b,), ()),
    ensures
        *final(a) == (ActionItemsView { editing_id: final(a).editing_id, ..*old(a) }),
        *final(b) == (ActionItemsView { editing_id: final(b).editing_id, ..*old(b) }),
{
}

/// Of the action items page, `save_edit` changes nothing but `items` and `editing_id`.
pub proof fn items_page_keeps_all_but_items_and_editing_id(
    a: &mut ActionItemsView,
    a_text: &str,
    a_has_db: bool,
    a_r: Option<(String, String)>,
)
    requires
        call_ensures(ActionItemsView::save_edit, (a, a_text, a_has_db), a_r),
    ensures
        *final(a) == (ActionItemsView { items: final(a).items, editing_id: final(a).editing_id, ..*old(a) }),
{
}

/// Of the action items page, `start_add`, `cancel_add` and `save_add` change nothing
/// but `adding_to`.
pub proof fn items_page_keeps_all_but_adding_to(
    a: &mut ActionItemsView,
    a_meeting_id: &str,
    b: &mut ActionItemsView,
    c: &mut ActionItemsView,
    c_text: &str,
    c_has_db: bool,
    c_r: Option<(String, String)>,
)
    requires
        call_ensures(ActionItemsView::start_add, (a, a_meeting_id), ()),
        call_ensures(ActionItemsView::cancel_add, (b,), ()),
        call_ensures(ActionItemsView::save_add, (c, c_text, c_has_db), c_r),
    ensures
        *final(a) == (ActionItemsView { adding_to: final(a).adding_to, ..*old(a) }),
        *final(b) == (ActionItemsView { adding_to: final(b).adding_to, ..*old(b) }),
        *final(c) == (ActionItemsView { adding_to: final(c).adding_to, ..*old(c) }),
{
}

/// Of the panel of a meeting's items, `finish_load` changes nothing but `items` and
/// `loading`.
pub proof fn items_panel_keeps_all_but_items_and_loading(
    a: &mut ItemsPanel,
    a_items: Option<Vec<ActionItem>>,
)
    requires
        call_ensures(ItemsPanel::finish_load, (a, a_items), ()),
    ensures
        *final(a) == (ItemsPanel { items: final(a).items, loading: final(a).loading, ..*old(a) }),
{
}

/// Of the panel of a meeting's items, `toggle_status` and `delete` change nothing but
/// `items`.
pub proof fn items_panel_keeps_all_but_items(
    a: &mut ItemsPanel,
    a_id: &str,
    a_currently_done: bool,
    a_r: &'static str,
    b: &mut ItemsPanel,
    b_id: &str,
)
    requires
        call_ensures(ItemsPanel::toggle_status, (a, a_id, a_currently_done), a_r),
        call_ensures(ItemsPanel::delete, (b, b_id), ()),
    ensures
        *final(a) == (ItemsPanel { items: final(a).items, ..*old(a) }),
        *final(b) == (ItemsPanel { items: final(b).items, ..*old(b) }),
{
}

/// Of the panel of a meeting's items, `start_edit` and `cancel_edit` change nothing but
/// `editing_id`.
pub proof fn items_panel_keeps_all_but_editing_id(
    a: &mut ItemsPanel,
    a_id: &str,
    a_r: Option<String>,
    b: &mut ItemsPanel,
)
    requires
        call_ensures(ItemsPanel::start_edit, (a, a_id), a_r),
        call_ensures(ItemsPanel::cancel_edit, (b,), ()),
    ensures
        *final(a) == (ItemsPanel { editing_id: final(a).editing_id, ..*old(a) }),
        *final(b) == (ItemsPanel { editing_id: final(b).editing_id, ..*old(b) }),
{
}

/// Of the panel of a meeting's items, `save_edit` changes nothing but `items` and
/// `editing_id`.
pub proof fn items_panel_keeps_all_but_items_and_editing_id(
    a: &mut ItemsPanel,
    a_text: &str,
    a_has_db: bool,
    a_r: Option<(String, String)>,
)
    requires
        call_ensures(ItemsPanel::save_edit, (a, a_text, a_has_db), a_r),
    ensures
        *final(a) == (ItemsPanel { items: final(a).items, editing_id: final(a).editing_id, ..*old(a) }),
{
}

/// Of the panel of a meeting's items, `set_adding` and `save_add` change nothing but
/// `adding`.
pub proof fn items_panel_keeps_all_but_adding(
    a: &mut ItemsPanel,
    a_adding: bool,
    b: &mut ItemsPanel,
    b_text: &str,
    b_r: Option<String>,
)
    requires
        call_ensures(ItemsPanel::set_adding, (a, a_adding), ()),
        call_ensures(ItemsPanel::save_add, (b, b_text), b_r),
    ensures
        *final(a) == (ItemsPanel { adding: final(a).adding, ..*old(a) }),
        *final(b) == (ItemsPanel { adding: final(b).adding, ..*old(b) }),
{
}

/// Of the panel of a meeting's items, `begin_extract` and `end_extract` change nothing
/// but `extracting`.
pub proof fn items_panel_keeps_all_but_extracting(
    a: &mut ItemsPanel,
    a_r: bool,
    b: &mut ItemsPanel,
)
    requires
        call_ensures(ItemsPanel::begin_extract, (a,), a_r),
        call_ensures(ItemsPanel::end_extract, (b,), ()),
    ensures
        *final(a) == (ItemsPanel { extracting: final(a).extracting, ..*old(a) }),
        *final(b) == (ItemsPanel { extracting: final(b).extracting, ..*old(b) }),
{
}

/// Of the panel of notes, `finish_load`, `begin_delete` and `finish_delete` change
/// nothing but `notes`.
pub proof fn notes_panel_keeps_all_but_notes(
    a: &mut NotesPanel,
    a_notes: Option<Vec<MeetingNote>>,
    b: &mut NotesPanel,
    b_id: &str,
    b_r: Option<MeetingNote>,
    c: &mut NotesPanel,
    c_deleted: bool,
    c_removed: Option<MeetingNote>,
)
    requires
        call_ensures(NotesPanel::finish_load, (a, a_notes), ()),
        call_ensures(NotesPanel::begin_delete, (b, b_id), b_r),
        call_ensures(NotesPanel::finish_delete, (c, c_deleted, c_removed), ()),
    ensures
        *final(a) == (NotesPanel { notes: final(a).notes, ..*old(a) }),
        *final(b) == (NotesPanel { notes: final(b).notes, ..*old(b) }),
        *final(c) == (NotesPanel { notes: final(c).notes, ..*old(c) }),
{
}

/// Of the panel of notes, `set_composing` changes nothing but `composing`.
pub proof fn notes_panel_keeps_all_but_composing(
    a: &mut NotesPanel,
    a_composing: bool,
)
    requires
        call_ensures(NotesPanel::set_composing, (a, a_composing), ()),
    ensures
        *final(a) == (NotesPanel { composing: final(a).composing, ..*old(a) }),
{
}

/// Of the panel of notes, `begin_save` changes nothing but `saving`.
pub proof fn notes_panel_keeps_all_but_saving(
    a: &mut NotesPanel,
    a_draft: &str,
    a_r: Option<String>,
)
    requires
        call_ensures(NotesPanel::begin_save, (a, a_draft), a_r),
    ensures
        *final(a) == (NotesPanel { saving: final(a).saving, ..*old(a) }),
{
}

/// Of the calendar panel, `finish_load` changes nothing but `event` and `loading`.
pub proof fn calendar_panel_keeps_all_but_event_and_loading(
    a: &mut CalendarPanel,
    a_event: Option<Option<CalendarEvent>>,
)
    requires
        call_ensures(CalendarPanel::finish_load, (a, a_event), ()),
    ensures
        *final(a) == (CalendarPanel { event: final(a).event, loading: final(a).loading, ..*old(a) }),
{
}

/// Of the calendar panel, `open_picker` changes nothing but `picker_open`,
/// `picker_events` and `picker_error`.
pub proof fn calendar_panel_keeps_all_but_picker_open_and_picker_events_and_picker_error(
    a: &mut CalendarPanel,
    a_has_db: bool,
    a_r: bool,
)
    requires
        call_ensures(CalendarPanel::open_picker, (a, a_has_db), a_r),
    ensures
        *final(a) == (CalendarPanel { picker_open: final(a).picker_open, picker_events: final(a).picker_events, picker_error: final(a).picker_error, ..*old(a) }),
{
}

/// Of the calendar panel, `finish_open_picker` changes nothing but `picker_events` and
/// `picker_error`.
pub proof fn calendar_panel_keeps_all_but_picker_events_and_picker_error(
    a: &mut CalendarPanel,
    a_events: Result<Vec<CalendarEvent>, String>,
    a_anchor: &Moment,
)
    requires
        call_ensures(CalendarPanel::finish_open_picker, (a, a_events, a_anchor), ()),
    ensures
        *final(a) == (CalendarPanel { picker_events: final(a).picker_events, picker_error: final(a).picker_error, ..*old(a) }),
{
}

/// Of the calendar panel, `close_picker` changes nothing but `picker_open`.
pub proof fn calendar_panel_keeps_all_but_picker_open(
    a: &mut CalendarPanel,
)
    requires
        call_ensures(CalendarPanel::close_picker, (a,), ()),
    ensures
        *final(a) == (CalendarPanel { picker_open: final(a).picker_open, ..*old(a) }),
{
}

/// Of the calendar panel, `begin_link` changes nothing but `mutating`.
pub proof fn calendar_panel_keeps_all_but_mutating(
    a: &mut CalendarPanel,
)
    requires
        call_ensures(CalendarPanel::begin_link, (a,), ()),
    ensures
        *final(a) == (CalendarPanel { mutating: final(a).mutating, ..*old(a) }),
{
}

/// Of the calendar panel, `finish_link` changes nothing but `mutating`, `picker_open`
/// and `picker_error`.
pub proof fn calendar_panel_keeps_all_but_mutating_and_picker_open_and_picker_error(
    a: &mut CalendarPanel,
    a_result: Result<bool, LinkFault>,
    a_r: LinkOutcome,
)
    requires
        call_ensures(CalendarPanel::finish_link, (a, a_result), a_r),
    ensures
        *final(a) == (CalendarPanel { mutating: final(a).mutating, picker_open: final(a).picker_open, picker_error: final(a).picker_error, ..*old(a) }),
{
}

/// Of the summary panel, `apply_default_template` changes nothing but
/// `selected_template`.
pub proof fn summary_panel_keeps_all_but_selected_template(
    a: &mut SummaryPanel,
    a_configured: Option<&str>,
)
    requires
        call_ensures(SummaryPanel::apply_default_template, (a, a_configured), ()),
    ensures
        *final(a) == (SummaryPanel { selected_template: final(a).selected_template, ..*old(a) }),
{
}

/// Of the summary panel, `cycle_template` changes nothing but `selected_template` and
/// `template_user_selected`.
pub proof fn summary_panel_keeps_all_but_selected_template_and_template_user_selected(
    a: &mut SummaryPanel,
)
    requires
        call_ensures(SummaryPanel::cycle_template, (a,), ()),
    ensures
        *final(a) == (SummaryPanel { selected_template: final(a).selected_template, template_user_selected: final(a).template_user_selected, ..*old(a) }),
{
}

/// Of the summary panel, `toggle_custom_prompt` changes nothing but
/// `show_custom_prompt`.
pub proof fn summary_panel_keeps_all_but_show_custom_prompt(
    a: &mut SummaryPanel,
)
    requires
        call_ensures(SummaryPanel::toggle_custom_prompt, (a,), ()),
    ensures
        *final(a) == (SummaryPanel { show_custom_prompt: final(a).show_custom_prompt, ..*old(a) }),
{
}

/// Of the summary panel, `apply_process`, `finish_refresh`, `begin_generate`,
/// `continue_generate`, `on_stream`, `show_some` and `finish_save` change nothing of
/// which template is chosen and what it is offered from.
pub proof fn summary_panel_keeps_its_choices(
    a: &mut SummaryPanel,
    a_process: &SummaryProcess,
    b: &mut SummaryPanel,
    b_found: Result<Option<SummaryProcess>, String>,
    c: &mut SummaryPanel,
    c_ready: bool,
    c_has_transcript: bool,
    c_r: GenerateStep,
    d: &mut SummaryPanel,
    d_has_model: bool,
    e: &mut SummaryPanel,
    e_delta: &str,
    e_reduce_motion: bool,
    e_r: bool,
    f: &mut SummaryPanel,
    f_r: bool,
    g: &mut SummaryPanel,
    g_current: bool,
    g_saved: bool,
    g_markdown: &str,
)
    requires
        call_ensures(SummaryPanel::apply_process, (a, a_process), ()),
        call_ensures(SummaryPanel::finish_refresh, (b, b_found), ()),
        call_ensures(SummaryPanel::begin_generate, (c, c_ready, c_has_transcript), c_r),
        call_ensures(SummaryPanel::continue_generate, (d, d_has_model), ()),
        call_ensures(SummaryPanel::on_stream, (e, e_delta, e_reduce_motion), e_r),
        call_ensures(SummaryPanel::show_some, (f,), f_r),
        call_ensures(SummaryPanel::finish_save, (g, g_current, g_saved, g_markdown), ()),
    ensures
        final(a).templates == old(a).templates,
        final(a).selected_template == old(a).selected_template,
        final(a).template_user_selected == old(a).template_user_selected,
        final(a).show_custom_prompt == old(a).show_custom_prompt,
        final(b).templates == old(b).templates,
        final(b).selected_template == old(b).selected_template,
        final(b).template_user_selected == old(b).template_user_selected,
        final(b).show_custom_prompt == old(b).show_custom_prompt,
        final(c).templates == old(c).templates,
        final(c).selected_template == old(c).selected_template,
        final(c).template_user_selected == old(c).template_user_selected,
        final(c).show_custom_prompt == old(c).show_custom_prompt,
        final(d).templates == old(d).templates,
        final(d).selected_template == old(d).selected_template,
        final(d).template_user_selected == old(d).template_user_selected,
        final(d).show_custom_prompt == old(d).show_custom_prompt,
        final(e).templates == old(e).templates,
        final(e).selected_template == old(e).selected_template,
        final(e).template_user_selected == old(e).template_user_selected,
        final(e).show_custom_prompt == old(e).show_custom_prompt,
        final(f).templates == old(f).templates,
        final(f).selected_template == old(f).selected_template,
        final(f).template_user_selected == old(f).template_user_selected,
        final(f).show_custom_prompt == old(f).show_custom_prompt,
        final(g).templates == old(g).templates,
        final(g).selected_template == old(g).selected_template,
        final(g).template_user_selected == old(g).template_user_selected,
        final(g).show_custom_prompt == old(g).show_custom_prompt,
{
}

/// Of the summary panel, `start_edit` and `cancel_edit` change nothing but `editing`.
pub proof fn summary_panel_keeps_all_but_editing(
    a: &mut SummaryPanel,
    a_r: String,
    b: &mut SummaryPanel,
)
    requires
        call_ensures(SummaryPanel::start_edit, (a,), a_r),
        call_ensures(SummaryPanel::cancel_edit, (b,), ()),
    ensures
        *final(a) == (SummaryPanel { editing: final(a).editing, ..*old(a) }),
        *final(b) == (SummaryPanel { editing: final(b).editing, ..*old(b) }),
{
}

/// Of the summary panel, `begin_save` changes nothing but `saving`.
pub proof fn summary_panel_keeps_all_but_saving(
    a: &mut SummaryPanel,
)
    requires
        call_ensures(SummaryPanel::begin_save, (a,), ()),
    ensures
        *final(a) == (SummaryPanel { saving: final(a).saving, ..*old(a) }),
{
}

/// Of the panel for transcribing again, `open_panel` changes nothing but `open` and
/// `error`.
pub proof fn retranscribe_panel_keeps_all_but_open_and_error(
    a: &mut RetranscribePanel,
    a_has_audio: bool,
    a_r: OpenStep,
)
    requires
        call_ensures(RetranscribePanel::open_panel, (a, a_has_audio), a_r),
    ensures
        *final(a) == (RetranscribePanel { open: final(a).open, error: final(a).error, ..*old(a) }),
{
}

/// Of the panel for transcribing again, `finish_models` changes nothing but `models`
/// and `model_index`.
pub proof fn retranscribe_panel_keeps_all_but_models_and_model_index(
    a: &mut RetranscribePanel,
    a_models: Option<Vec<ModelInfo>>,
)
    requires
        call_ensures(RetranscribePanel::finish_models, (a, a_models), ()),
    ensures
        *final(a) == (RetranscribePanel { models: final(a).models, model_index: final(a).model_index, ..*old(a) }),
{
}

/// Of the panel for transcribing again, `close` changes nothing but `open`.
pub proof fn retranscribe_panel_keeps_all_but_open(
    a: &mut RetranscribePanel,
)
    requires
        call_ensures(RetranscribePanel::close, (a,), ()),
    ensures
        *final(a) == (RetranscribePanel { open: final(a).open, ..*old(a) }),
{
}

/// Of the panel for transcribing again, `cycle_model` changes nothing but
/// `model_index`.
pub proof fn retranscribe_panel_keeps_all_but_model_index(
    a: &mut RetranscribePanel,
)
    requires
        call_ensures(RetranscribePanel::cycle_model, (a,), ()),
    ensures
        *final(a) == (RetranscribePanel { model_index: final(a).model_index, ..*old(a) }),
{
}

/// Of the panel for transcribing again, `start` changes nothing but `in_progress`,
/// `progress_pct`, `progress_message` and `error`.
pub proof fn retranscribe_panel_keeps_all_but_in_progress_and_progress_pct_and_progress_message_and_error(
    a: &mut RetranscribePanel,
    a_meeting_id: &Option<String>,
    a_folder: &Option<String>,
    a_busy: bool,
    a_typed: &str,
    a_r: StartStep,
)
    requires
        call_ensures(RetranscribePanel::start, (a, a_meeting_id, a_folder, a_busy, a_typed), a_r),
    ensures
        *final(a) == (RetranscribePanel { in_progress: final(a).in_progress, progress_pct: final(a).progress_pct, progress_message: final(a).progress_message, error: final(a).error, ..*old(a) }),
{
}

/// Of the panel for transcribing again, `on_progress` changes nothing but
/// `progress_pct` and `progress_message`.
pub proof fn retranscribe_panel_keeps_all_but_progress_pct_and_progress_message(
    a: &mut RetranscribePanel,
    a_percentage: u32,
    a_message: String,
)
    requires
        call_ensures(RetranscribePanel::on_progress, (a, a_percentage, a_message), ()),
    ensures
        *final(a) == (RetranscribePanel { progress_pct: final(a).progress_pct, progress_message: final(a).progress_message, ..*old(a) }),
{
}

/// Of the panel for transcribing again, `on_complete` changes nothing but `open` and
/// `in_progress`.
pub proof fn retranscribe_panel_keeps_all_but_open_and_in_progress(
    a: &mut RetranscribePanel,
    a_segments: u64,
    a_r: String,
)
    requires
        call_ensures(RetranscribePanel::on_complete, (a, a_segments), a_r),
    ensures
        *final(a) == (RetranscribePanel { open: final(a).open, in_progress: final(a).in_progress, ..*old(a) }),
{
}

/// Of the panel for transcribing again, `on_error` changes nothing but `in_progress`
/// and `error`.
pub proof fn retranscribe_panel_keeps_all_but_in_progress_and_error(
    a: &mut RetranscribePanel,
    a_error: String,
)
    requires
        call_ensures(RetranscribePanel::on_error, (a, a_error), ()),
    ensures
        *final(a) == (RetranscribePanel { in_progress: final(a).in_progress, error: final(a).error, ..*old(a) }),
{
}

/// Of the meeting page, `finish_load` changes nothing but `title`, `created_at`,
/// `folder_path`, `transcripts`, `transcripts_loading` and `load_error`.
pub proof fn meeting_page_keeps_all_but_title_and_created_at_and_folder_path_and_transcripts_and_transcripts_loading_and_load_error(
    a: &mut MeetingView,
    a_generation: u64,
    a_found: Result<Option<MeetingDetails>, String>,
    a_folder: Option<Option<String>>,
)
    requires
        call_ensures(MeetingView::finish_load, (a, a_generation, a_found, a_folder), ()),
    ensures
        *final(a) == (MeetingView { title: final(a).title, created_at: final(a).created_at, folder_path: final(a).folder_path, transcripts: final(a).transcripts, transcripts_loading: final(a).transcripts_loading, load_error: final(a).load_error, ..*old(a) }),
{
}

/// Of the meeting page, `finish_reload_transcript` changes nothing but `transcripts`.
pub proof fn meeting_page_keeps_all_but_transcripts(
    a: &mut MeetingView,
    a_generation: u64,
    a_transcripts: Option<Vec<MeetingTranscript>>,
)
    requires
        call_ensures(MeetingView::finish_reload_transcript, (a, a_generation, a_transcripts), ()),
    ensures
        *final(a) == (MeetingView { transcripts: final(a).transcripts, ..*old(a) }),
{
}

/// Of the meeting page, `start_edit_title` and `cancel_edit_title` change nothing but
/// `editing_title`.
pub proof fn meeting_page_keeps_all_but_editing_title(
    a: &mut MeetingView,
    a_r: String,
    b: &mut MeetingView,
)
    requires
        call_ensures(MeetingView::start_edit_title, (a,), a_r),
        call_ensures(MeetingView::cancel_edit_title, (b,), ()),
    ensures
        *final(a) == (MeetingView { editing_title: final(a).editing_title, ..*old(a) }),
        *final(b) == (MeetingView { editing_title: final(b).editing_title, ..*old(b) }),
{
}

/// Of the meeting page, `save_title` changes nothing but `title` and `editing_title`.
pub proof fn meeting_page_keeps_all_but_title_and_editing_title(
    a: &mut MeetingView,
    a_typed: &str,
    a_has_db: bool,
    a_r: Option<(String, String)>,
)
    requires
        call_ensures(MeetingView::save_title, (a, a_typed, a_has_db), a_r),
    ensures
        *final(a) == (MeetingView { title: final(a).title, editing_title: final(a).editing_title, ..*old(a) }),
{
}

/// Of the meeting page, `finish_summary`, `generate_summary`, `continue_generate`,
/// `on_summary_stream`, `reveal_tick`, `discard_summary_edits`,
/// `save_summary_and_leave` and `finish_save_summary` change nothing but `summary`.
pub proof fn meeting_page_keeps_all_but_summary(
    a: &mut MeetingView,
    a_generation: u64,
    a_found: Result<Option<SummaryProcess>, String>,
    b: &mut MeetingView,
    b_has_db: bool,
    b_r: (GenerateStep, Option<SummaryRequest>),
    c: &mut MeetingView,
    c_generation: u64,
    c_has_model: bool,
    d: &mut MeetingView,
    d_meeting_id: &str,
    d_delta: &str,
    d_reduce_motion: bool,
    d_r: bool,
    e: &mut MeetingView,
    e_generation: u64,
    e_r: bool,
    f: &mut MeetingView,
    g: &mut MeetingView,
    g_editor_text: &str,
    g_has_db: bool,
    g_r: Option<(String, String)>,
    h: &mut MeetingView,
    h_generation: u64,
    h_saved: bool,
    h_markdown: &str,
)
    requires
        call_ensures(MeetingView::finish_summary, (a, a_generation, a_found), ()),
        call_ensures(MeetingView::generate_summary, (b, b_has_db), b_r),
        call_ensures(MeetingView::continue_generate, (c, c_generation, c_has_model), ()),
        call_ensures(MeetingView::on_summary_stream, (d, d_meeting_id, d_delta, d_reduce_motion), d_r),
        call_ensures(MeetingView::reveal_tick, (e, e_generation), e_r),
        call_ensures(MeetingView::discard_summary_edits, (f,), ()),
        call_ensures(MeetingView::save_summary_and_leave, (g, g_editor_text, g_has_db), g_r),
        call_ensures(MeetingView::finish_save_summary, (h, h_generation, h_saved, h_markdown), ()),
    ensures
        *final(a) == (MeetingView { summary: final(a).summary, ..*old(a) }),
        *final(b) == (MeetingView { summary: final(b).summary, ..*old(b) }),
        *final(c) == (MeetingView { summary: final(c).summary, ..*old(c) }),
        *final(d) == (MeetingView { summary: final(d).summary, ..*old(d) }),
        *final(e) == (MeetingView { summary: final(e).summary, ..*old(e) }),
        *final(f) == (MeetingView { summary: final(f).summary, ..*old(f) }),
        *final(g) == (MeetingView { summary: final(g).summary, ..*old(g) }),
        *final(h) == (MeetingView { summary: final(h).summary, ..*old(h) }),
{
}

/// Of the meeting page, `finish_models`, `on_retranscription_progress`,
/// `on_retranscription_complete` and `on_retranscription_error` change nothing but
/// `retranscribe`.
pub proof fn meeting_page_keeps_all_but_retranscribe(
    a: &mut MeetingView,
    a_generation: u64,
    a_models: Option<Vec<ModelInfo>>,
    b: &mut MeetingView,
    b_meeting_id: &str,
    b_percentage: u32,
    b_message: String,
    c: &mut MeetingView,
    c_meeting_id: &str,
    c_segments: u64,
    c_r: Option<String>,
    d: &mut MeetingView,
    d_meeting_id: &str,
    d_error: String,
)
    requires
        call_ensures(MeetingView::finish_models, (a, a_generation, a_models), ()),
        call_ensures(MeetingView::on_retranscription_progress, (b, b_meeting_id, b_percentage, b_message), ()),
        call_ensures(MeetingView::on_retranscription_complete, (c, c_meeting_id, c_segments), c_r),
        call_ensures(MeetingView::on_retranscription_error, (d, d_meeting_id, d_error), ()),
    ensures
        *final(a) == (MeetingView { retranscribe: final(a).retranscribe, ..*old(a) }),
        *final(b) == (MeetingView { retranscribe: final(b).retranscribe, ..*old(b) }),
        *final(c) == (MeetingView { retranscribe: final(c).retranscribe, ..*old(c) }),
        *final(d) == (MeetingView { retranscribe: final(d).retranscribe, ..*old(d) }),
{
}

/// Of the meeting page, `finish_calendar_event`, `finish_calendar_picker`,
/// `pick_calendar_event` and `finish_link` change nothing but `calendar`.
pub proof fn meeting_page_keeps_all_but_calendar(
    a: &mut MeetingView,
    a_generation: u64,
    a_event: Option<Option<CalendarEvent>>,
    b: &mut MeetingView,
    b_generation: u64,
    b_events: Result<Vec<CalendarEvent>, String>,
    b_anchor: &Moment,
    c: &mut MeetingView,
    c_has_db: bool,
    c_r: Option<String>,
    d: &mut MeetingView,
    d_generation: u64,
    d_result: Result<bool, LinkFault>,
    d_r: LinkOutcome,
)
    requires
        call_ensures(MeetingView::finish_calendar_event, (a, a_generation, a_event), ()),
        call_ensures(MeetingView::finish_calendar_picker, (b, b_generation, b_events, b_anchor), ()),
        call_ensures(MeetingView::pick_calendar_event, (c, c_has_db), c_r),
        call_ensures(MeetingView::finish_link, (d, d_generation, d_result), d_r),
    ensures
        *final(a) == (MeetingView { calendar: final(a).calendar, ..*old(a) }),
        *final(b) == (MeetingView { calendar: final(b).calendar, ..*old(b) }),
        *final(c) == (MeetingView { calendar: final(c).calendar, ..*old(c) }),
        *final(d) == (MeetingView { calendar: final(d).calendar, ..*old(d) }),
{
}

/// Of the meeting page, `finish_profiles` and `finish_speaker_save` change nothing but
/// `speaker_edit`.
pub proof fn meeting_page_keeps_all_but_speaker_edit(
    a: &mut MeetingView,
    a_generation: u64,
    a_key: &str,
    a_profiles: Option<Vec<VoiceProfile>>,
    a_r: Option<String>,
    b: &mut MeetingView,
    b_generation: u64,
    b_key: &str,
    b_outcome: Result<(), String>,
    b_r: bool,
)
    requires
        call_ensures(MeetingView::finish_profiles, (a, a_generation, a_key, a_profiles), a_r),
        call_ensures(MeetingView::finish_speaker_save, (b, b_generation, b_key, b_outcome), b_r),
    ensures
        *final(a) == (MeetingView { speaker_edit: final(a).speaker_edit, ..*old(a) }),
        *final(b) == (MeetingView { speaker_edit: final(b).speaker_edit, ..*old(b) }),
{
}

/// Of the meeting page, `toggle_segment_playback`, `finish_play` and
/// `on_segment_playback_ended` change nothing but `playing_segment` and
/// `loading_segment`.
pub proof fn meeting_page_keeps_all_but_playing_segment_and_loading_segment(
    a: &mut MeetingView,
    a_segment_id: &str,
    a_has_db: bool,
    a_r: PlayStep,
    b: &mut MeetingView,
    b_generation: u64,
    b_segment_id: &str,
    b_result: Result<(), String>,
    b_r: Option<String>,
    c: &mut MeetingView,
)
    requires
        call_ensures(MeetingView::toggle_segment_playback, (a, a_segment_id, a_has_db), a_r),
        call_ensures(MeetingView::finish_play, (b, b_generation, b_segment_id, b_result), b_r),
        call_ensures(MeetingView::on_segment_playback_ended, (c,), ()),
    ensures
        *final(a) == (MeetingView { playing_segment: final(a).playing_segment, loading_segment: final(a).loading_segment, ..*old(a) }),
        *final(b) == (MeetingView { playing_segment: final(b).playing_segment, loading_segment: final(b).loading_segment, ..*old(b) }),
        *final(c) == (MeetingView { playing_segment: final(c).playing_segment, loading_segment: final(c).loading_segment, ..*old(c) }),
{
}

/// Of the meeting page, `finish_confidence` changes nothing but `show_confidence`.
pub proof fn meeting_page_keeps_all_but_show_confidence(
    a: &mut MeetingView,
    a_generation: u64,
    a_settings: &Option<String>,
)
    requires
        call_ensures(MeetingView::finish_confidence, (a, a_generation, a_settings), ()),
    ensures
        *final(a) == (MeetingView { show_confidence: final(a).show_confidence, ..*old(a) }),
{
}

/// Of the meeting page, `finish_notes` and `finish_delete_note` change nothing but
/// `notes`.
pub proof fn meeting_page_keeps_all_but_notes(
    a: &mut MeetingView,
    a_generation: u64,
    a_notes: Option<Vec<MeetingNote>>,
    b: &mut MeetingView,
    b_generation: u64,
    b_deleted: bool,
    b_removed: Option<MeetingNote>,
    b_r: bool,
)
    requires
        call_ensures(MeetingView::finish_notes, (a, a_generation, a_notes), ()),
        call_ensures(MeetingView::finish_delete_note, (b, b_generation, b_deleted, b_removed), b_r),
    ensures
        *final(a) == (MeetingView { notes: final(a).notes, ..*old(a) }),
        *final(b) == (MeetingView { notes: final(b).notes, ..*old(b) }),
{
}

/// Of the meeting page, `finish_action_items`, `on_action_items_extracted` and
/// `finish_extract` change nothing but `items`.
pub proof fn meeting_page_keeps_all_but_items(
    a: &mut MeetingView,
    a_generation: u64,
    a_items: Option<Vec<ActionItem>>,
    b: &mut MeetingView,
    b_meeting_id: &str,
    b_r: bool,
    c: &mut MeetingView,
    c_generation: u64,
    c_outcome: Result<u64, String>,
    c_r: (bool, Option<String>),
)
    requires
        call_ensures(MeetingView::finish_action_items, (a, a_generation, a_items), ()),
        call_ensures(MeetingView::on_action_items_extracted, (b, b_meeting_id), b_r),
        call_ensures(MeetingView::finish_extract, (c, c_generation, c_outcome), c_r),
    ensures
        *final(a) == (MeetingView { items: final(a).items, ..*old(a) }),
        *final(b) == (MeetingView { items: final(b).items, ..*old(b) }),
        *final(c) == (MeetingView { items: final(c).items, ..*old(c) }),
{
}

/// Of the import dialog, `title_changed` changes nothing but `title_edited`.
pub proof fn import_dialog_keeps_all_but_title_edited(
    a: &mut ImportState,
)
    requires
        call_ensures(ImportState::title_changed, (a,), ()),
    ensures
        *final(a) == (ImportState { title_edited: final(a).title_edited, ..*old(a) }),
{
}

/// Of the import dialog, `toggle_advanced` changes nothing but `show_advanced`.
pub proof fn import_dialog_keeps_all_but_show_advanced(
    a: &mut ImportState,
)
    requires
        call_ensures(ImportState::toggle_advanced, (a,), ()),
    ensures
        *final(a) == (ImportState { show_advanced: final(a).show_advanced, ..*old(a) }),
{
}

/// Of the import dialog, `begin_validate` and `retry` change nothing but `status` and
/// `error`.
pub proof fn import_dialog_keeps_all_but_status_and_error(
    a: &mut ImportState,
    b: &mut ImportState,
)
    requires
        call_ensures(ImportState::begin_validate, (a,), ()),
        call_ensures(ImportState::retry, (b,), ()),
    ensures
        *final(a) == (ImportState { status: final(a).status, error: final(a).error, ..*old(a) }),
        *final(b) == (ImportState { status: final(b).status, error: final(b).error, ..*old(b) }),
{
}

/// Of the import dialog, `finish_validate` changes nothing but `status`, `file_info`
/// and `error`.
pub proof fn import_dialog_keeps_all_but_status_and_file_info_and_error(
    a: &mut ImportState,
    a_outcome: Result<AudioFileInfo, String>,
    a_r: Option<String>,
)
    requires
        call_ensures(ImportState::finish_validate, (a, a_outcome), a_r),
    ensures
        *final(a) == (ImportState { status: final(a).status, file_info: final(a).file_info, error: final(a).error, ..*old(a) }),
{
}

/// Of the import dialog, `on_core_event` and `start_import` change nothing but
/// `status`, `error` and `progress`.
pub proof fn import_dialog_keeps_all_but_status_and_error_and_progress(
    a: &mut ImportState,
    a_event: ImportEvent,
    a_r: ImportEffect,
    b: &mut ImportState,
    b_choices: ImportChoices,
    b_r: Option<ImportRequest>,
)
    requires
        call_ensures(ImportState::on_core_event, (a, a_event), a_r),
        call_ensures(ImportState::start_import, (b, b_choices), b_r),
    ensures
        *final(a) == (ImportState { status: final(a).status, error: final(a).error, progress: final(a).progress, ..*old(a) }),
        *final(b) == (ImportState { status: final(b).status, error: final(b).error, progress: final(b).progress, ..*old(b) }),
{
}

/// Of the setup, `start_db_creation` changes nothing but `creating_db`.
pub proof fn setup_keeps_all_but_creating_db(
    a: &mut OnboardingView,
    a_r: bool,
)
    requires
        call_ensures(OnboardingView::start_db_creation, (a,), a_r),
    ensures
        *final(a) == (OnboardingView { creating_db: final(a).creating_db, ..*old(a) }),
{
}

/// Of the setup, `finish_db_creation` changes nothing but `db_ready`, `db_error` and
/// `creating_db`.
pub proof fn setup_keeps_all_but_db_ready_and_db_error_and_creating_db(
    a: &mut OnboardingView,
    a_result: Result<(), String>,
)
    requires
        call_ensures(OnboardingView::finish_db_creation, (a, a_result), ()),
    ensures
        *final(a) == (OnboardingView { db_ready: final(a).db_ready, db_error: final(a).db_error, creating_db: final(a).creating_db, ..*old(a) }),
{
}

/// Of the setup, `start_downloads` changes nothing but `downloads_started`, `whisper`
/// and `summary`.
pub proof fn setup_keeps_all_but_downloads_started_and_whisper_and_summary(
    a: &mut OnboardingView,
    a_r: bool,
)
    requires
        call_ensures(OnboardingView::start_downloads, (a,), a_r),
    ensures
        *final(a) == (OnboardingView { downloads_started: final(a).downloads_started, whisper: final(a).whisper, summary: final(a).summary, ..*old(a) }),
{
}

/// Of the setup, `go_next` changes nothing but `step`, `downloads_started`, `whisper`
/// and `summary`.
pub proof fn setup_keeps_all_but_step_and_downloads_started_and_whisper_and_summary(
    a: &mut OnboardingView,
    a_r: bool,
)
    requires
        call_ensures(OnboardingView::go_next, (a,), a_r),
    ensures
        *final(a) == (OnboardingView { step: final(a).step, downloads_started: final(a).downloads_started, whisper: final(a).whisper, summary: final(a).summary, ..*old(a) }),
{
}

/// Of the setup, `go_previous` changes nothing but `step`.
pub proof fn setup_keeps_all_but_step(
    a: &mut OnboardingView,
)
    requires
        call_ensures(OnboardingView::go_previous, (a,), ()),
    ensures
        *final(a) == (OnboardingView { step: final(a).step, ..*old(a) }),
{
}

/// Of the setup, `on_core_event` changes nothing but `whisper` and `summary`.
pub proof fn setup_keeps_all_but_whisper_and_summary(
    a: &mut OnboardingView,
    a_event: SetupEvent,
)
    requires
        call_ensures(OnboardingView::on_core_event, (a, a_event), ()),
    ensures
        *final(a) == (OnboardingView { whisper: final(a).whisper, summary: final(a).summary, ..*old(a) }),
{
}

/// Of the setup, `complete` and `finish_complete` change nothing but `completing` and
/// `complete_error`.
pub proof fn setup_keeps_all_but_completing_and_complete_error(
    a: &mut OnboardingView,
    a_has_db: bool,
    a_r: CompleteStep,
    b: &mut OnboardingView,
    b_result: Result<(), String>,
    b_r: bool,
)
    requires
        call_ensures(OnboardingView::complete, (a, a_has_db), a_r),
        call_ensures(OnboardingView::finish_complete, (b, b_result), b_r),
    ensures
        *final(a) == (OnboardingView { completing: final(a).completing, complete_error: final(a).complete_error, ..*old(a) }),
        *final(b) == (OnboardingView { completing: final(b).completing, complete_error: final(b).complete_error, ..*old(b) }),
{
}

/// Of the window, `navigate`, `attempt_navigate` and `confirm_leave_meeting` change
/// nothing but `route`.
pub proof fn shell_keeps_all_but_route(
    a: &mut AppShell,
    a_route: Route,
    a_r: NavEffects,
    b: &mut AppShell,
    b_route: Route,
    b_unsaved_edits: bool,
    b_r: NavOutcome,
    c: &mut AppShell,
    c_route: Route,
    c_choice: LeaveChoice,
    c_r: Option<(NavEffects, bool)>,
)
    requires
        call_ensures(AppShell::navigate, (a, a_route), a_r),
        call_ensures(AppShell::attempt_navigate, (b, b_route, b_unsaved_edits), b_r),
        call_ensures(AppShell::confirm_leave_meeting, (c, c_route, c_choice), c_r),
    ensures
        *final(a) == (AppShell { route: final(a).route, ..*old(a) }),
        *final(b) == (AppShell { route: final(b).route, ..*old(b) }),
        *final(c) == (AppShell { route: final(c).route, ..*old(c) }),
{
}

/// Of the window, `begin_load_meetings` changes nothing but `meetings_loading`.
pub proof fn shell_keeps_all_but_meetings_loading(
    a: &mut AppShell,
    a_has_db: bool,
    a_r: bool,
)
    requires
        call_ensures(AppShell::begin_load_meetings, (a, a_has_db), a_r),
    ensures
        *final(a) == (AppShell { meetings_loading: final(a).meetings_loading, ..*old(a) }),
{
}

/// Of the window, `finish_load_meetings` changes nothing but `meetings` and
/// `meetings_loading`.
pub proof fn shell_keeps_all_but_meetings_and_meetings_loading(
    a: &mut AppShell,
    a_rows: Option<Vec<MeetingRow>>,
)
    requires
        call_ensures(AppShell::finish_load_meetings, (a, a_rows), ()),
    ensures
        *final(a) == (AppShell { meetings: final(a).meetings, meetings_loading: final(a).meetings_loading, ..*old(a) }),
{
}

/// Of the window, `search_transcript_content` and `finish_search` change nothing but
/// `content_matches` and `content_search_loading`.
pub proof fn shell_keeps_all_but_content_matches_and_content_search_loading(
    a: &mut AppShell,
    a_query: &str,
    a_has_db: bool,
    a_r: SearchStep,
    b: &mut AppShell,
    b_searched: &str,
    b_current: &str,
    b_rows: Option<Vec<ContentMatch>>,
)
    requires
        call_ensures(AppShell::search_transcript_content, (a, a_query, a_has_db), a_r),
        call_ensures(AppShell::finish_search, (b, b_searched, b_current, b_rows), ()),
    ensures
        *final(a) == (AppShell { content_matches: final(a).content_matches, content_search_loading: final(a).content_search_loading, ..*old(a) }),
        *final(b) == (AppShell { content_matches: final(b).content_matches, content_search_loading: final(b).content_search_loading, ..*old(b) }),
{
}

/// Of the window, `draw_sidebar` changes nothing but `rendered_sidebar_shape`.
pub proof fn shell_keeps_all_but_rendered_sidebar_shape(
    a: &mut AppShell,
    a_groups: usize,
    a_rows: usize,
    a_query: &str,
    a_r: (bool, bool, bool),
)
    requires
        call_ensures(AppShell::draw_sidebar, (a, a_groups, a_rows, a_query), a_r),
    ensures
        *final(a) == (AppShell { rendered_sidebar_shape: final(a).rendered_sidebar_shape, ..*old(a) }),
{
}

/// Of the settings, `save_ui_field` changes nothing but `ui_config`.
pub proof fn settings_keeps_all_but_ui_config(
    a: &mut SettingsCache,
    a_key: &str,
    a_value: serde_json::Value,
)
    requires
        call_ensures(SettingsCache::save_ui_field, (a, a_key, a_value), ()),
    ensures
        *final(a) == (SettingsCache { ui_config: final(a).ui_config, ..*old(a) }),
{
}

/// Of the settings, `save_api_key` changes nothing but `api_key_present`.
pub proof fn settings_keeps_all_but_api_key_present(
    a: &mut SettingsCache,
    a_provider: &str,
    a_api_key: &str,
    a_r: bool,
)
    requires
        call_ensures(SettingsCache::save_api_key, (a, a_provider, a_api_key), a_r),
    ensures
        *final(a) == (SettingsCache { api_key_present: final(a).api_key_present, ..*old(a) }),
{
}

/// Of the settings, `save_custom_openai` changes nothing but `api_key_present` and
/// `custom_openai`.
pub proof fn settings_keeps_all_but_api_key_present_and_custom_openai(
    a: &mut SettingsCache,
    a_config: CustomOpenAIConfig,
)
    requires
        call_ensures(SettingsCache::save_custom_openai, (a, a_config), ()),
    ensures
        *final(a) == (SettingsCache { api_key_present: final(a).api_key_present, custom_openai: final(a).custom_openai, ..*old(a) }),
{
}

/// Of the settings, `choose_whisper_model` changes nothing but `transcript`.
pub proof fn settings_keeps_all_but_transcript(
    a: &mut SettingsCache,
    a_model: &str,
)
    requires
        call_ensures(SettingsCache::choose_whisper_model, (a, a_model), ()),
    ensures
        *final(a) == (SettingsCache { transcript: final(a).transcript, ..*old(a) }),
{
}

/// Of the settings, `save_default_template` changes nothing but `default_template_id`.
pub proof fn settings_keeps_all_but_default_template_id(
    a: &mut SettingsCache,
    a_template_id: String,
)
    requires
        call_ensures(SettingsCache::save_default_template, (a, a_template_id), ()),
    ensures
        *final(a) == (SettingsCache { default_template_id: final(a).default_template_id, ..*old(a) }),
{
}

/// Of the settings, `save_features` changes nothing but `features`.
pub proof fn settings_keeps_all_but_features(
    a: &mut SettingsCache,
    a_features: FeatureToggles,
)
    requires
        call_ensures(SettingsCache::save_features, (a, a_features), ()),
    ensures
        *final(a) == (SettingsCache { features: final(a).features, ..*old(a) }),
{
}

/// Of the settings, `save_notifications` changes nothing but `notifications`.
pub proof fn settings_keeps_all_but_notifications(
    a: &mut SettingsCache,
    a_settings: NotificationSettings,
)
    requires
        call_ensures(SettingsCache::save_notifications, (a, a_settings), ()),
    ensures
        *final(a) == (SettingsCache { notifications: final(a).notifications, ..*old(a) }),
{
}

/// Of the settings, `save_recording` changes nothing but `recording`.
pub proof fn settings_keeps_all_but_recording(
    a: &mut SettingsCache,
    a_preferences: RecordingPreferences,
)
    requires
        call_ensures(SettingsCache::save_recording, (a, a_preferences), ()),
    ensures
        *final(a) == (SettingsCache { recording: final(a).recording, ..*old(a) }),
{
}

/// Of the settings, `save_theme_pref` changes nothing but `theme_pref`.
pub proof fn settings_keeps_all_but_theme_pref(
    a: &mut SettingsCache,
    a_mode: String,
)
    requires
        call_ensures(SettingsCache::save_theme_pref, (a, a_mode), ()),
    ensures
        *final(a) == (SettingsCache { theme_pref: final(a).theme_pref, ..*old(a) }),
{
}

/// Of the settings, `start_download` changes nothing but `download_progress` and
/// `download_error`.
pub proof fn settings_keeps_all_but_download_progress_and_download_error(
    a: &mut SettingsCache,
    a_model: &str,
)
    requires
        call_ensures(SettingsCache::start_download, (a, a_model), ()),
    ensures
        *final(a) == (SettingsCache { download_progress: final(a).download_progress, download_error: final(a).download_error, ..*old(a) }),
{
}

/// Of the settings, `cancel_download` changes nothing but `download_progress`.
pub proof fn settings_keeps_all_but_download_progress(
    a: &mut SettingsCache,
    a_model: &str,
)
    requires
        call_ensures(SettingsCache::cancel_download, (a, a_model), ()),
    ensures
        *final(a) == (SettingsCache { download_progress: final(a).download_progress, ..*old(a) }),
{
}

/// Of the settings, `begin_fetch_models` changes nothing but `provider_models_loading`
/// and `provider_models_error`.
pub proof fn settings_keeps_all_but_provider_models_loading_and_provider_models_error(
    a: &mut SettingsCache,
    a_provider: &str,
)
    requires
        call_ensures(SettingsCache::begin_fetch_models, (a, a_provider), ()),
    ensures
        *final(a) == (SettingsCache { provider_models_loading: final(a).provider_models_loading, provider_models_error: final(a).provider_models_error, ..*old(a) }),
{
}

/// Of the settings, `finish_fetch_models` changes nothing but `provider_models`,
/// `provider_models_loading` and `provider_models_error`.
pub proof fn settings_keeps_all_but_provider_models_and_provider_models_loading_and_provider_models_error(
    a: &mut SettingsCache,
    a_provider: &str,
    a_result: Result<Vec<String>, String>,
)
    requires
        call_ensures(SettingsCache::finish_fetch_models, (a, a_provider, a_result), ()),
    ensures
        *final(a) == (SettingsCache { provider_models: final(a).provider_models, provider_models_loading: final(a).provider_models_loading, provider_models_error: final(a).provider_models_error, ..*old(a) }),
{
}

/// Of the settings, `begin_refresh_ollama` changes nothing but
/// `ollama_installed_loading`.
pub proof fn settings_keeps_all_but_ollama_installed_loading(
    a: &mut SettingsCache,
)
    requires
        call_ensures(SettingsCache::begin_refresh_ollama, (a,), ()),
    ensures
        *final(a) == (SettingsCache { ollama_installed_loading: final(a).ollama_installed_loading, ..*old(a) }),
{
}

/// Of the settings, `finish_refresh_ollama` changes nothing but `ollama_installed`,
/// `ollama_installed_loading` and `ollama_error`.
pub proof fn settings_keeps_all_but_ollama_installed_and_ollama_installed_loading_and_ollama_error(
    a: &mut SettingsCache,
    a_result: Result<Vec<OllamaModel>, String>,
)
    requires
        call_ensures(SettingsCache::finish_refresh_ollama, (a, a_result), ()),
    ensures
        *final(a) == (SettingsCache { ollama_installed: final(a).ollama_installed, ollama_installed_loading: final(a).ollama_installed_loading, ollama_error: final(a).ollama_error, ..*old(a) }),
{
}

/// Of the settings, `crash_refresh_ollama` changes nothing but
/// `ollama_installed_loading` and `ollama_error`.
pub proof fn settings_keeps_all_but_ollama_installed_loading_and_ollama_error(
    a: &mut SettingsCache,
)
    requires
        call_ensures(SettingsCache::crash_refresh_ollama, (a,), ()),
    ensures
        *final(a) == (SettingsCache { ollama_installed_loading: final(a).ollama_installed_loading, ollama_error: final(a).ollama_error, ..*old(a) }),
{
}

/// Of the settings, `begin_pull` changes nothing but `ollama_pull_progress` and
/// `ollama_error`.
pub proof fn settings_keeps_all_but_ollama_pull_progress_and_ollama_error(
    a: &mut SettingsCache,
    a_model: &str,
)
    requires
        call_ensures(SettingsCache::begin_pull, (a, a_model), ()),
    ensures
        *final(a) == (SettingsCache { ollama_pull_progress: final(a).ollama_pull_progress, ollama_error: final(a).ollama_error, ..*old(a) }),
{
}

/// Of the settings, `begin_builtin_download` and `cancel_builtin_download` change
/// nothing but `builtin_download_progress`.
pub proof fn settings_keeps_all_but_builtin_download_progress(
    a: &mut SettingsCache,
    a_model: &str,
    b: &mut SettingsCache,
    b_model: &str,
)
    requires
        call_ensures(SettingsCache::begin_builtin_download, (a, a_model), ()),
        call_ensures(SettingsCache::cancel_builtin_download, (b, b_model), ()),
    ensures
        *final(a) == (SettingsCache { builtin_download_progress: final(a).builtin_download_progress, ..*old(a) }),
        *final(b) == (SettingsCache { builtin_download_progress: final(b).builtin_download_progress, ..*old(b) }),
{
}

/// Of the settings, `begin_calendar_refresh` changes nothing but `calendar_busy`.
pub proof fn settings_keeps_all_but_calendar_busy(
    a: &mut SettingsCache,
    a_source_id: &str,
)
    requires
        call_ensures(SettingsCache::begin_calendar_refresh, (a, a_source_id), ()),
    ensures
        *final(a) == (SettingsCache { calendar_busy: final(a).calendar_busy, ..*old(a) }),
{
}

/// Of the settings, `finish_calendar_refresh` changes nothing but `calendar_sources`
/// and `calendar_busy`.
pub proof fn settings_keeps_all_but_calendar_sources_and_calendar_busy(
    a: &mut SettingsCache,
    a_source_id: &str,
    a_sources: Vec<CalendarSourceRow>,
)
    requires
        call_ensures(SettingsCache::finish_calendar_refresh, (a, a_source_id, a_sources), ()),
    ensures
        *final(a) == (SettingsCache { calendar_sources: final(a).calendar_sources, calendar_busy: final(a).calendar_busy, ..*old(a) }),
{
}

} // verus!
