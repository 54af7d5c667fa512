use parley::meeting::speaker_chip::{
    attendee_suggestions, can_edit_speaker, can_save_speaker_edit, edit_panel_title, filter_attendee_suggestions,
    is_unnamed_speaker_label, Attendee, AttendeeSuggestion,
};

fn attendee(name: Option<&str>, email: Option<&str>) -> Attendee {
    Attendee {
        name: name.map(str::to_string),
        email: email.map(str::to_string),
        role: None,
        status: None,
        is_organizer: false,
    }
}

fn suggestion(label: &str, email: Option<&str>) -> AttendeeSuggestion {
    AttendeeSuggestion { label: label.to_string(), email: email.map(str::to_string) }
}

#[test]
fn recognises_unnamed_speaker_labels() {
    assert!(is_unnamed_speaker_label("Speaker 1"));
    assert!(is_unnamed_speaker_label("Speaker 42"));
    assert!(is_unnamed_speaker_label("  Speaker 3  "));
}

#[test]
fn any_white_space_parts_the_number() {
    assert!(is_unnamed_speaker_label("Speaker\u{a0}\t7"));
}

#[test]
fn rejects_non_matching_labels() {
    assert!(!is_unnamed_speaker_label("Speaker"));
    assert!(!is_unnamed_speaker_label("Speaker1"));
    assert!(!is_unnamed_speaker_label("Speakers 1"));
    assert!(!is_unnamed_speaker_label("Alice"));
    assert!(!is_unnamed_speaker_label("Me"));
    assert!(!is_unnamed_speaker_label(""));
    assert!(!is_unnamed_speaker_label("Speaker 1a"));
}

#[test]
fn me_is_never_editable() {
    assert!(!can_edit_speaker("Me", None));
    assert!(!can_edit_speaker("Me", Some("profile-1")));
}

#[test]
fn named_profile_is_editable() {
    assert!(can_edit_speaker("Alice", Some("profile-1")));
}

#[test]
fn unnamed_cluster_is_editable() {
    assert!(can_edit_speaker("Speaker 1", None));
}

#[test]
fn stray_label_is_not_editable() {
    assert!(!can_edit_speaker("Unknown", None));
}

#[test]
fn save_requires_name_unless_merging() {
    assert!(!can_save_speaker_edit(None, ""));
    assert!(!can_save_speaker_edit(None, "   "));
    assert!(can_save_speaker_edit(None, "Alice"));
    assert!(can_save_speaker_edit(Some("profile-1"), ""));
}

#[test]
fn panel_title_depends_on_named_profile() {
    assert_eq!(edit_panel_title(true), "Edit speaker");
    assert_eq!(edit_panel_title(false), "Name this speaker");
}

#[test]
fn attendee_suggestions_prefer_name_over_email() {
    let out = attendee_suggestions(&vec![attendee(Some("Alice Smith"), Some("alice@example.com"))]);
    assert_eq!(out, vec![suggestion("Alice Smith", Some("alice@example.com"))]);
}

#[test]
fn attendee_suggestions_fall_back_to_email_when_unnamed() {
    let out = attendee_suggestions(&vec![attendee(None, Some("bob@example.com"))]);
    assert_eq!(out, vec![suggestion("bob@example.com", Some("bob@example.com"))]);
}

#[test]
fn attendee_suggestions_skip_entries_with_neither_name_nor_email() {
    let out = attendee_suggestions(&vec![attendee(None, None), attendee(Some("  "), None)]);
    assert!(out.is_empty());
}

#[test]
fn attendee_suggestions_dedupe_case_insensitively() {
    let out = attendee_suggestions(&vec![
        attendee(Some("Alice Smith"), Some("alice@example.com")),
        attendee(Some("alice smith"), Some("alice2@example.com")),
    ]);
    assert_eq!(out.len(), 1);
    assert_eq!(out[0].email.as_deref(), Some("alice@example.com"));
}

#[test]
fn blank_names_give_way_to_the_address() {
    let out = attendee_suggestions(&vec![attendee(Some("   "), Some(" carol@example.com "))]);
    assert_eq!(out, vec![suggestion("carol@example.com", Some(" carol@example.com "))]);
}

#[test]
fn letters_beyond_ascii_are_compared_in_lower_case() {
    let out = attendee_suggestions(&vec![attendee(Some("ÉMILE"), None), attendee(Some("émile"), None)]);
    assert_eq!(out, vec![suggestion("ÉMILE", None)]);
}

#[test]
fn filter_attendee_suggestions_empty_query_shows_all() {
    let all = vec![suggestion("Alice", None), suggestion("Bob", None)];
    assert_eq!(filter_attendee_suggestions(&all, "").len(), 2);
    assert_eq!(filter_attendee_suggestions(&all, "   ").len(), 2);
}

#[test]
fn filter_attendee_suggestions_matches_case_insensitive_substring() {
    let all = vec![suggestion("Alice Smith", None), suggestion("Bob Jones", None)];
    let out = filter_attendee_suggestions(&all, "ali");
    assert_eq!(out.len(), 1);
    assert_eq!(out[0].label, "Alice Smith");
}

#[test]
fn filter_attendee_suggestions_no_match_is_empty() {
    let all = vec![suggestion("Alice", None)];
    assert!(filter_attendee_suggestions(&all, "zzz").is_empty());
}
