use parley::action_items::grouping::{group_by_meeting, MeetingRef, UNKNOWN_MEETING_TITLE};
use parley::action_items::items::{count_items, matches_filter, ActionItem, Filter};
use parley::action_items::page::{is_refresh_event, ActionItemsView, Body, NO_DATABASE};

fn item(id: &str, meeting_id: &str, status: &str, created_at: &str) -> ActionItem {
    ActionItem {
        id: id.to_string(),
        meeting_id: meeting_id.to_string(),
        text: format!("do {id}"),
        assignee: None,
        due_hint: None,
        status: status.to_string(),
        source: "manual".to_string(),
        external_ref: None,
        source_start_ms: None,
        source_end_ms: None,
        source_quote: None,
        created_at: created_at.to_string(),
        updated_at: created_at.to_string(),
        completed_at: None,
    }
}

fn meeting(id: &str, title: &str) -> MeetingRef {
    MeetingRef { id: id.to_string(), title: title.to_string() }
}

fn loaded() -> ActionItemsView {
    let mut page = ActionItemsView::new();
    assert!(page.begin_refresh(true));
    page.finish_refresh(
        Ok(vec![item("1", "m1", "open", "t1"), item("2", "m1", "done", "t2")]),
        Some(vec![meeting("m1", "Standup")]),
    );
    page
}

#[test]
fn matches_filter_open_excludes_done() {
    assert!(matches_filter(&item("1", "m1", "open", "t1"), Filter::Open));
    assert!(!matches_filter(&item("1", "m1", "done", "t1"), Filter::Open));
}

#[test]
fn matches_filter_done_excludes_open() {
    assert!(matches_filter(&item("1", "m1", "done", "t1"), Filter::Done));
    assert!(!matches_filter(&item("1", "m1", "open", "t1"), Filter::Done));
}

#[test]
fn matches_filter_all_matches_everything() {
    assert!(matches_filter(&item("1", "m1", "done", "t1"), Filter::All));
    assert!(matches_filter(&item("1", "m1", "open", "t1"), Filter::All));
}

#[test]
fn groups_follow_meeting_order() {
    let items = vec![item("1", "m2", "open", "t1"), item("2", "m1", "open", "t1")];
    let meetings = vec![meeting("m1", "Standup"), meeting("m2", "Planning")];
    let groups = group_by_meeting(&items, &meetings);
    assert_eq!(groups.len(), 2);
    assert_eq!(groups[0].meeting_id, "m1");
    assert_eq!(groups[1].meeting_id, "m2");
}

#[test]
fn open_items_sort_before_done_within_a_group() {
    let items = vec![
        item("1", "m1", "done", "t1"),
        item("2", "m1", "open", "t2"),
        item("3", "m1", "open", "t1"),
    ];
    let meetings = vec![meeting("m1", "Standup")];
    let groups = group_by_meeting(&items, &meetings);
    let ids: Vec<&str> = groups[0].items.iter().map(|i| i.id.as_str()).collect();
    assert_eq!(ids, ["3", "2", "1"]);
}

#[test]
fn orphan_meeting_falls_into_a_trailing_bucket() {
    let items = vec![item("1", "unknown", "open", "t1"), item("2", "m1", "open", "t1")];
    let meetings = vec![meeting("m1", "Standup")];
    let groups = group_by_meeting(&items, &meetings);
    assert_eq!(groups.len(), 2);
    assert_eq!(groups[0].meeting_id, "m1");
    assert_eq!(groups[1].meeting_id, "unknown");
    assert_eq!(groups[1].title, UNKNOWN_MEETING_TITLE);
}

#[test]
fn empty_items_produce_no_groups() {
    let meetings = vec![meeting("m1", "Standup")];
    assert!(group_by_meeting(&Vec::new(), &meetings).is_empty());
}

#[test]
fn orphans_come_in_the_order_of_their_ids() {
    let items = vec![item("1", "z", "open", "t"), item("2", "b", "open", "t"), item("3", "z", "done", "t")];
    let groups = group_by_meeting(&items, &Vec::new());
    let ids: Vec<&str> = groups.iter().map(|g| g.meeting_id.as_str()).collect();
    assert_eq!(ids, ["b", "z"]);
    assert_eq!(groups[1].items.len(), 2);
    assert_eq!(count_items(&items), (2, 1));
}

#[test]
fn boxes_are_ticked_and_cleared() {
    let mut page = loaded();
    assert_eq!(page.header_counts(), "1 open · 1 done");
    assert_eq!(page.toggle_status("1", false), "done");
    assert_eq!(page.header_counts(), "0 open · 2 done");
    assert_eq!(page.toggle_status("1", true), "open");
    assert_eq!(page.visible_items().len(), 1);
    page.filter = Filter::All;
    assert_eq!(page.visible_items().len(), 2);
}

#[test]
fn edits_are_trimmed_and_blank_ones_dropped() {
    let mut page = loaded();
    assert_eq!(page.start_edit("nope"), None);
    assert_eq!(page.start_edit("1").as_deref(), Some("do 1"));
    assert!(page.is_editing("1"));
    assert_eq!(page.save_edit("  ", true), None);
    page.start_edit("1");
    assert_eq!(page.save_edit(" new ", true), Some(("1".to_string(), "new".to_string())));
    assert_eq!(page.items[0].text, "new");
    assert!(!page.is_editing("1"));
    page.start_edit("1");
    page.cancel_edit();
    assert_eq!(page.save_edit("x", true), None);
}

#[test]
fn items_are_added_to_one_meeting_at_a_time() {
    let mut page = loaded();
    assert_eq!(page.add_row("m1"), (false, true));
    page.start_add("m1");
    assert_eq!(page.add_row("m1"), (true, false));
    assert_eq!(page.add_row("m2"), (false, false));
    assert_eq!(page.save_add(" a ", true), Some(("m1".to_string(), " a ".to_string())));
    page.start_add("m1");
    page.cancel_add();
    assert_eq!(page.save_add("b", true), None);
    page.delete("1");
    assert_eq!(page.items.len(), 1);
}

#[test]
fn the_action_item_page_says_what_is_missing() {
    let mut page = ActionItemsView::new();
    assert_eq!(page.body(), Body::Loading);
    assert!(!page.begin_refresh(false));
    assert_eq!(page.body(), Body::Failed(NO_DATABASE.to_string()));
    page.begin_refresh(true);
    page.finish_refresh(Err("locked".to_string()), None);
    assert_eq!(page.body(), Body::Failed("Failed to load action items: locked".to_string()));
    page.begin_refresh(true);
    page.finish_refresh(Ok(Vec::new()), None);
    assert_eq!(page.body(), Body::Empty);
    assert_eq!(loaded().body(), Body::Groups);
    assert!(is_refresh_event("live-action-items"));
    assert!(!is_refresh_event("meeting-refined"));
}
