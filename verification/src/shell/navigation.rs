//! The shell: which page is shown, what leaving it takes, and what the sidebar
//! holds.
use vstd::prelude::*;
use crate::shell::meeting_list::{build_content_matches, filter_by_title, first_hits, rows_of, title_hits, ContentMatch, MeetingRow};
use crate::text::{is_blank, opt_text, same_text, texts, trimmed};

verus! {

/// A page.
#[derive(Debug, Clone, PartialEq, Eq)]
pub enum Route {
    Recording,
    Meeting(String),
    Settings,
    ActionItems,
    Speakers,
}

/// A page, by its texts.
pub enum RouteView {
    Recording,
    Meeting(Seq<char>),
    Settings,
    ActionItems,
    Speakers,
}

impl Route {
    /// The page.
    pub open spec fn view(&self) -> RouteView {
        match *self {
            Route::Recording => RouteView::Recording,
            Route::Meeting(id) => RouteView::Meeting(id@),
            Route::Settings => RouteView::Settings,
            Route::ActionItems => RouteView::ActionItems,
            Route::Speakers => RouteView::Speakers,
        }
    }

    /// Whether two routes lead to the same page.
    pub fn same(&self, other: &Route) -> (r: bool)
        ensures
            r == (self@ == other@),
    {
        match (self, other) {
            (Route::Recording, Route::Recording) => true,
            (Route::Meeting(a), Route::Meeting(b)) => same_text(a, b),
            (Route::Settings, Route::Settings) => true,
            (Route::ActionItems, Route::ActionItems) => true,
            (Route::Speakers, Route::Speakers) => true,
            _ => false,
        }
    }
}

/// Whether an event makes the meeting list stale.
pub open spec fn refreshes_meetings(name: Seq<char>) -> bool {
    ||| name == "recording-started"@
    ||| name == "recording-stopped"@
    ||| name == "meeting-refined"@
    ||| name == "import-complete"@
    ||| name == "retranscription-complete"@
}

/// Whether an event makes the meeting list stale.
pub fn is_refresh_event(name: &str) -> (r: bool)
    ensures
        r == refreshes_meetings(name@),
{
    same_text(name, "recording-started") || same_text(name, "recording-stopped") || same_text(
        name,
        "meeting-refined",
    ) || same_text(name, "import-complete") || same_text(name, "retranscription-complete")
}

/// What going to a page takes.
#[derive(Debug, Clone, PartialEq, Eq)]
pub struct NavEffects {
    /// A meeting to load into the meeting page.
    pub load_meeting: Option<String>,
    /// Whether the speakers page is left, so that its recording must end.
    pub leave_speakers: bool,
}

/// What an attempt to go to a page comes to.
#[derive(Debug, Clone, PartialEq, Eq)]
pub enum NavOutcome {
    /// The page is shown already.
    Stay,
    /// Unsaved edits would be lost: the user is asked first.
    Confirm,
    /// The page is shown now.
    Went(NavEffects),
}

/// What the search in transcripts does next.
#[derive(Debug, Clone, Copy, PartialEq, Eq, Structural)]
pub enum SearchStep {
    /// The query is blank: there is nothing to search, and a pending search is
    /// dropped.
    Cleared,
    /// There is no database to search.
    Nothing,
    /// The search is to be made once typing has paused.
    Debounce,
}

/// The shell.
pub struct AppShell {
    pub route: Route,
    pub meetings: Vec<MeetingRow>,
    pub meetings_loading: bool,
    /// How many groups and how many rows the sidebar was last drawn with.
    pub rendered_sidebar_shape: (usize, usize),
    /// The hits of the current query in transcripts.
    pub content_matches: Vec<ContentMatch>,
    pub content_search_loading: bool,
}

impl AppShell {
    /// A shell on the recording page, with nothing loaded.
    pub fn new() -> (r: Self)
        ensures
            r.route@ == RouteView::Recording,
            r.meetings@.len() == 0,
            !r.meetings_loading,
            r.rendered_sidebar_shape == (0usize, 0usize),
            r.content_matches@.len() == 0,
            !r.content_search_loading,
    {
        AppShell {
            route: Route::Recording,
            meetings: Vec::new(),
            meetings_loading: false,
            rendered_sidebar_shape: (0, 0),
            content_matches: Vec::new(),
            content_search_loading: false,
        }
    }

    /// Whether only the route may differ.
    pub open spec fn same_but_route(&self, other: &Self) -> bool {
        &&& self.meetings == other.meetings
        &&& self.meetings_loading == other.meetings_loading
        &&& self.rendered_sidebar_shape == other.rendered_sidebar_shape
        &&& self.content_matches == other.content_matches
        &&& self.content_search_loading == other.content_search_loading
    }

    /// What going from one page to another takes.
    pub open spec fn effects(from: RouteView, to: RouteView, e: NavEffects) -> bool {
        &&& opt_text(e.load_meeting) == match to {
            RouteView::Meeting(id) => Some(id),
            _ => None,
        }
        &&& e.leave_speakers == (from is Speakers && !(to is Speakers))
    }

    /// Goes to a page.
    pub fn navigate(&mut self, route: Route) -> (r: NavEffects)
        ensures
            final(self).route == route,
            final(self).same_but_route(old(self)),
            Self::effects(old(self).route@, route@, r),
    {
        let load_meeting = match &route {
            Route::Meeting(id) => Some(id.clone()),
            _ => None,
        };
        let leave_speakers = matches!(self.route, Route::Speakers) && !matches!(
            route,
            Route::Speakers
        );
        self.route = route;
        NavEffects { load_meeting, leave_speakers }
    }

    /// Goes to a page, unless it is shown already, or a meeting with unsaved
    /// edits would be left.
    pub fn attempt_navigate(&mut self, route: Route, unsaved_edits: bool) -> (r: NavOutcome)
        ensures
            final(self).same_but_route(old(self)),
            if route@ == old(self).route@ {
                r is Stay && final(self).route == old(self).route
            } else if old(self).route@ is Meeting && unsaved_edits {
                r is Confirm && final(self).route == old(self).route
            } else {
                final(self).route == route && (r matches NavOutcome::Went(e) && Self::effects(
                    old(self).route@,
                    route@,
                    e,
                ))
            },
    {
        if route.same(&self.route) {
            return NavOutcome::Stay;
        }
        if matches!(self.route, Route::Meeting(_)) && unsaved_edits {
            return NavOutcome::Confirm;
        }
        NavOutcome::Went(self.navigate(route))
    }

    /// Whether a meeting's entry is the page that is shown.
    pub fn is_active(&self, meeting_id: &str) -> (r: bool)
        ensures
            r == (self.route@ == RouteView::Meeting(meeting_id@)),
    {
        match &self.route {
            Route::Meeting(id) => same_text(id, meeting_id),
            _ => false,
        }
    }

    /// Starts loading the meeting list, where there is a database.
    pub fn begin_load_meetings(&mut self, has_db: bool) -> (r: bool)
        ensures
            r == has_db,
            final(self).meetings_loading == (old(self).meetings_loading || has_db),
            final(self).route == old(self).route,
            final(self).meetings == old(self).meetings,
            final(self).content_matches == old(self).content_matches,
            final(self).content_search_loading == old(self).content_search_loading,
            final(self).rendered_sidebar_shape == old(self).rendered_sidebar_shape,
    {
        if has_db {
            self.meetings_loading = true;
        }
        has_db
    }

    /// Takes the loaded meetings over; none where they could not be loaded.
    pub fn finish_load_meetings(&mut self, rows: Option<Vec<MeetingRow>>)
        ensures
            final(self).meetings@ == match rows {
                Some(m) => m@,
                None => Seq::empty(),
            },
            !final(self).meetings_loading,
            final(self).route == old(self).route,
            final(self).content_matches == old(self).content_matches,
            final(self).content_search_loading == old(self).content_search_loading,
            final(self).rendered_sidebar_shape == old(self).rendered_sidebar_shape,
    {
        self.meetings = match rows {
            Some(m) => m,
            None => Vec::new(),
        };
        self.meetings_loading = false;
    }

    /// Takes a changed query in.
    pub fn search_transcript_content(&mut self, query: &str, has_db: bool) -> (r: SearchStep)
        ensures
            r == if trimmed(query@).len() == 0 {
                SearchStep::Cleared
            } else if !has_db {
                SearchStep::Nothing
            } else {
                SearchStep::Debounce
            },
            match r {
                SearchStep::Cleared => final(self).content_matches@.len() == 0
                    && !final(self).content_search_loading,
                SearchStep::Nothing => final(self).content_matches == old(self).content_matches
                    && final(self).content_search_loading == old(self).content_search_loading,
                SearchStep::Debounce => final(self).content_matches == old(self).content_matches
                    && final(self).content_search_loading,
            },
            final(self).route == old(self).route,
            final(self).meetings == old(self).meetings,
            final(self).meetings_loading == old(self).meetings_loading,
            final(self).rendered_sidebar_shape == old(self).rendered_sidebar_shape,
    {
        if is_blank(query) {
            self.content_matches = Vec::new();
            self.content_search_loading = false;
            return SearchStep::Cleared;
        }
        if !has_db {
            return SearchStep::Nothing;
        }
        self.content_search_loading = true;
        SearchStep::Debounce
    }

    /// The ids of the meetings whose title matches a query.
    pub open spec fn ids_shown(meetings: Seq<MeetingRow>, query: Seq<char>) -> Seq<Seq<char>> {
        title_hits(meetings, query).map_values(|m: MeetingRow| m.id@)
    }

    /// Takes the result of a search over: `searched` is the query it was made
    /// for, `current` the one that stands now. A result for another query is
    /// dropped; a search that failed leaves no hits.
    pub fn finish_search(
        &mut self,
        searched: &str,
        current: &str,
        rows: Option<Vec<ContentMatch>>,
    )
        ensures
            !final(self).content_search_loading,
            if searched@ != current@ {
                final(self).content_matches == old(self).content_matches
            } else {
                final(self).content_matches@ == match rows {
                    Some(hits) => first_hits(
                        hits@,
                        Self::ids_shown(old(self).meetings@, searched@),
                    ),
                    None => Seq::empty(),
                }
            },
            final(self).route == old(self).route,
            final(self).meetings == old(self).meetings,
            final(self).meetings_loading == old(self).meetings_loading,
            final(self).rendered_sidebar_shape == old(self).rendered_sidebar_shape,
    {
        self.content_search_loading = false;
        if !same_text(searched, current) {
            return;
        }
        match rows {
            Some(hits) => {
                let shown = filter_by_title(&self.meetings, searched);
                let mut ids: Vec<String> = Vec::new();
                let ghost want = Self::ids_shown(self.meetings@, searched@);
                assert(texts(ids@) =~= want.take(0));
                for i in 0..shown.len()
                    invariant
                        rows_of(shown@) == title_hits(self.meetings@, searched@),
                        want == Self::ids_shown(self.meetings@, searched@),
                        texts(ids@) == want.take(i as int),
                {
                    let ghost had = ids@;
                    ids.push(shown[i].id.clone());
                    proof {
                        assert(rows_of(shown@)[i as int] == *shown@[i as int]);
                        assert(texts(ids@) =~= texts(had).push(shown@[i as int].id@));
                        assert(want.take(i + 1) =~= want.take(i as int).push(want[i as int]));
                    }
                }
                assert(rows_of(shown@).len() == shown@.len());
                assert(want.take(want.len() as int) =~= want);
                self.content_matches = build_content_matches(hits, &ids);
            },
            None => {
                self.content_matches = Vec::new();
            },
        }
    }

    /// Whether the sidebar says that no meeting matches.
    pub open spec fn says_no_match(&self, groups: int, query: Seq<char>) -> bool {
        !self.meetings_loading && groups == 0 && trimmed(query).len() > 0
    }

    /// Whether the sidebar shows the group of hits in transcripts.
    pub open spec fn shows_hits(&self, query: Seq<char>) -> bool {
        trimmed(query).len() > 0 && (self.content_search_loading || self.content_matches@.len()
            > 0)
    }

    /// Takes over what the sidebar is drawn with: so many groups of meetings,
    /// so many rows in them. Whether its shape has changed, so that one more
    /// frame is needed; whether it says that no meeting matches; and whether it
    /// shows hits in transcripts.
    pub fn draw_sidebar(&mut self, groups: usize, rows: usize, query: &str) -> (r: (
        bool,
        bool,
        bool,
    ))
        requires
            groups <= 4,
            rows + old(self).content_matches@.len() <= usize::MAX,
        ensures
            r.1 == old(self).says_no_match(groups as int, query@),
            r.2 == old(self).shows_hits(query@),
            final(self).rendered_sidebar_shape.0 == 2 + groups + (if r.1 {
                1int
            } else {
                0
            }) + (if r.2 {
                1int
            } else {
                0
            }),
            final(self).rendered_sidebar_shape.1 == rows + old(self).content_matches@.len(),
            r.0 == (final(self).rendered_sidebar_shape != old(self).rendered_sidebar_shape),
            final(self).route == old(self).route,
            final(self).meetings == old(self).meetings,
            final(self).meetings_loading == old(self).meetings_loading,
            final(self).content_matches == old(self).content_matches,
            final(self).content_search_loading == old(self).content_search_loading,
    {
        let blank = is_blank(query);
        let no_match = !self.meetings_loading && groups == 0 && !blank;
        let hits = !blank && (self.content_search_loading || self.content_matches.len() > 0);
        let a: usize = if no_match {
            1
        } else {
            0
        };
        let b: usize = if hits {
            1
        } else {
            0
        };
        let shape: (usize, usize) = (2 + groups + a + b, rows + self.content_matches.len());
        let changed = shape.0 != self.rendered_sidebar_shape.0 || shape.1
            != self.rendered_sidebar_shape.1;
        self.rendered_sidebar_shape = shape;
        (changed, no_match, hits)
    }
}

/// What to do with unsaved edits when a meeting is left.
#[derive(Debug, Clone, Copy, PartialEq, Eq, Structural)]
pub enum LeaveChoice {
    Cancel,
    Discard,
    Save,
}

impl AppShell {
    /// Goes to a page after the user was asked about unsaved edits, unless they
    /// stay. What going there takes, and whether the edits are to be saved
    /// rather than dropped.
    pub fn confirm_leave_meeting(&mut self, route: Route, choice: LeaveChoice) -> (r: Option<
        (NavEffects, bool),
    >)
        ensures
            final(self).same_but_route(old(self)),
            match choice {
                LeaveChoice::Cancel => r is None && final(self).route@ == old(self).route@,
                _ => (r matches Some((effects, save)) && Self::effects(
                    old(self).route@,
                    route@,
                    effects,
                ) && save == (choice == LeaveChoice::Save)) && final(self).route@ == route@,
            },
    {
        match choice {
            LeaveChoice::Cancel => None,
            LeaveChoice::Discard => Some((self.navigate(route), false)),
            LeaveChoice::Save => Some((self.navigate(route), true)),
        }
    }
}

/// Whether quitting has begun.
pub struct QuitGuard {
    pub started: bool,
}

impl QuitGuard {
    /// Asks to quit; whether this is the first time, so that an active recording
    /// is finished once.
    pub fn request_quit(&mut self) -> (r: bool)
        ensures
            r == !old(self).started,
            final(self).started,
    {
        let first = !self.started;
        self.started = true;
        first
    }
}

} // verus!
