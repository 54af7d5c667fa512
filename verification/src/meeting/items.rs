//! The action items of one meeting.
use vstd::prelude::*;
use crate::action_items::items::{count_items, find_item, first_with_id, next_status, no_item, open_count, remove_items, set_status, set_text, status_set, text_set, toggled, without_id, ActionItem};
use crate::numbers::{decimal, to_decimal};
use crate::text::{is_blank, opt_text, opt_text_is, trim, trimmed};

verus! {

/// The part of the meeting page with the action items.
pub struct ItemsPanel {
    pub items: Vec<ActionItem>,
    pub loading: bool,
    /// The item whose text is being edited.
    pub editing_id: Option<String>,
    pub adding: bool,
    pub extracting: bool,
}

/// How the panel's header and an empty list are shown.
#[derive(Debug, Clone, PartialEq, Eq)]
pub struct ItemsHeader {
    /// The number of open items, or that all are done.
    pub badge: Option<String>,
    /// The button that looks for items in the summary.
    pub extract_label: Option<&'static str>,
    /// What stands in place of an empty list.
    pub empty_text: Option<&'static str>,
}

/// What looking for items in the summary leads to.
#[derive(Debug, Clone, Copy, PartialEq, Eq, Structural)]
pub enum ExtractSource {
    Transcript,
    Summary,
}

/// Where items are looked for: in the transcript first, and in the summary
/// where that fails; nowhere else after that.
pub fn next_source(tried: Option<ExtractSource>, failed: bool) -> (r: Option<ExtractSource>)
    ensures
        r == match tried {
            None => Some(ExtractSource::Transcript),
            Some(ExtractSource::Transcript) => if failed {
                Some(ExtractSource::Summary)
            } else {
                None
            },
            Some(ExtractSource::Summary) => None,
        },
{
    match tried {
        None => Some(ExtractSource::Transcript),
        Some(ExtractSource::Transcript) => if failed {
            Some(ExtractSource::Summary)
        } else {
            None
        },
        Some(ExtractSource::Summary) => None,
    }
}

impl ItemsPanel {
    /// The panel before any meeting was shown.
    pub fn new() -> (r: Self)
        ensures
            r.items@.len() == 0,
            !r.loading,
            r.editing_id is None,
            !r.adding,
            !r.extracting,
    {
        ItemsPanel {
            items: Vec::new(),
            loading: false,
            editing_id: None,
            adding: false,
            extracting: false,
        }
    }

    /// Starts over for another meeting.
    pub fn reset(&mut self)
        ensures
            final(self).items@.len() == 0,
            final(self).loading,
            final(self).editing_id is None,
            !final(self).adding,
            !final(self).extracting,
    {
        self.items = Vec::new();
        self.loading = true;
        self.editing_id = None;
        self.adding = false;
        self.extracting = false;
    }

    /// The panel with the items taken over.
    pub open spec fn with_items(self, items: Option<Vec<ActionItem>>) -> Self {
        ItemsPanel {
            loading: false,
            items: match items {
                Some(i) => i,
                None => self.items,
            },
            ..self
        }
    }

    /// Takes over the items; where they could not be loaded they stay.
    pub fn finish_load(&mut self, items: Option<Vec<ActionItem>>)
        ensures
            *final(self) == old(self).with_items(items),
    {
        self.loading = false;
        if let Some(i) = items {
            self.items = i;
        }
    }

    /// Ticks or clears an item's box at once; the status to store.
    pub fn toggle_status(&mut self, id: &str, currently_done: bool) -> (r: &'static str)
        ensures
            r@ == toggled(currently_done),
            status_set(old(self).items@, final(self).items@, id@, toggled(currently_done)),
            *final(self) == (ItemsPanel { items: final(self).items, ..*old(self) }),
    {
        let next = next_status(currently_done);
        set_status(&mut self.items, id, next);
        next
    }

    /// Starts editing an item that is there; its text.
    pub fn start_edit(&mut self, id: &str) -> (r: Option<String>)
        ensures
            match r {
                Some(text) => opt_text(final(self).editing_id) == Some(id@) && exists|i: int| #[trigger]
                    first_with_id(old(self).items@, id@, i) && text@ == old(self).items@[i].text@,
                None => no_item(old(self).items@, id@) && final(self).editing_id
                    == old(self).editing_id,
            },
            *final(self) == (ItemsPanel { editing_id: final(self).editing_id, ..*old(self) }),
    {
        match find_item(&self.items, id) {
            Some(i) => {
                self.editing_id = Some(id.to_owned());
                Some(self.items[i].text.clone())
            },
            None => None,
        }
    }

    /// Ends editing without saving.
    pub fn cancel_edit(&mut self)
        ensures
            *final(self) == (ItemsPanel { editing_id: None, ..*old(self) }),
    {
        self.editing_id = None;
    }

    /// Ends editing. What to store: the item and its trimmed text, unless
    /// nothing was being edited, the text is blank or there is no database.
    pub fn save_edit(&mut self, text: &str, has_db: bool) -> (r: Option<(String, String)>)
        ensures
            match r {
                Some((id, new)) => opt_text(old(self).editing_id) == Some(id@) && has_db && trimmed(
                    text@,
                ).len() > 0 && new@ == trimmed(text@) && text_set(
                    old(self).items@,
                    final(self).items@,
                    id@,
                    trimmed(text@),
                ),
                None => (old(self).editing_id is None || !has_db || trimmed(text@).len() == 0)
                    && final(self).items == old(self).items,
            },
            *final(self) == (ItemsPanel {
                items: final(self).items,
                editing_id: None,
                ..*old(self)
            }),
    {
        match self.editing_id.take() {
            Some(id) => {
                if !has_db || is_blank(text) {
                    return None;
                }
                let new = trim(text);
                set_text(&mut self.items, &id, &new);
                Some((id, new))
            },
            None => None,
        }
    }

    /// Takes an item out at once.
    pub fn delete(&mut self, id: &str)
        ensures
            final(self).items@ == without_id(old(self).items@, id@),
            *final(self) == (ItemsPanel { items: final(self).items, ..*old(self) }),
    {
        let mut items: Vec<ActionItem> = Vec::new();
        std::mem::swap(&mut items, &mut self.items);
        self.items = remove_items(items, id);
    }

    /// Opens or closes the field for a new item.
    pub fn set_adding(&mut self, adding: bool)
        ensures
            *final(self) == (ItemsPanel { adding, ..*old(self) }),
    {
        self.adding = adding;
    }

    /// Ends adding, where something was typed; what to store.
    pub fn save_add(&mut self, text: &str) -> (r: Option<String>)
        ensures
            opt_text(r) == if trimmed(text@).len() == 0 {
                None
            } else {
                Some(trimmed(text@))
            },
            *final(self) == (ItemsPanel {
                adding: old(self).adding && r is None,
                ..*old(self)
            }),
    {
        if is_blank(text) {
            return None;
        }
        self.adding = false;
        Some(trim(text))
    }

    /// Starts looking for items, unless that is being done; whether it starts.
    pub fn begin_extract(&mut self) -> (r: bool)
        ensures
            r == !old(self).extracting,
            *final(self) == (ItemsPanel { extracting: true, ..*old(self) }),
    {
        if self.extracting {
            return false;
        }
        self.extracting = true;
        true
    }

    /// Takes note that looking for items ended.
    pub fn end_extract(&mut self)
        ensures
            *final(self) == (ItemsPanel { extracting: false, ..*old(self) }),
    {
        self.extracting = false;
    }

    /// Whether a header shows the panel.
    pub open spec fn shows_header(&self, h: ItemsHeader, has_summary: bool) -> bool {
        let empty = self.items@.len() == 0;
        &&& opt_text(h.badge) == if open_count(self.items@) > 0 {
            Some(decimal(open_count(self.items@)))
        } else if !empty {
            Some("All done"@)
        } else {
            None
        }
        &&& match h.extract_label {
            Some(label) => has_summary && label@ == (if empty {
                "Extract from summary"@
            } else {
                "Re-extract"@
            }),
            None => !has_summary,
        }
        &&& match h.empty_text {
            Some(text) => empty && text@ == (if has_summary {
                "No action items yet. Extract them from the summary, or add one below."@
            } else {
                "No action items yet. Add one below."@
            }),
            None => !empty,
        }
    }

    /// The header of the panel.
    pub fn header(&self, has_summary: bool) -> (r: ItemsHeader)
        ensures
            self.shows_header(r, has_summary),
    {
        let (open, _) = count_items(&self.items);
        let empty = self.items.len() == 0;
        let badge = if open > 0 {
            Some(to_decimal(open as u64))
        } else if !empty {
            Some("All done".to_owned())
        } else {
            None
        };
        let extract_label = if has_summary {
            Some(
                if empty {
                    "Extract from summary"
                } else {
                    "Re-extract"
                },
            )
        } else {
            None
        };
        let empty_text = if empty {
            Some(
                if has_summary {
                    "No action items yet. Extract them from the summary, or add one below."
                } else {
                    "No action items yet. Add one below."
                },
            )
        } else {
            None
        };
        ItemsHeader { badge, extract_label, empty_text }
    }

    /// Whether an item is shown with its text in a field.
    pub fn is_editing(&self, item: &ActionItem) -> (r: bool)
        ensures
            r == (opt_text(self.editing_id) == Some(item.id@)),
    {
        opt_text_is(&self.editing_id, &item.id)
    }
}

} // verus!
