//! The leaderboard screen: binds the category tabs to a client and projects
//! fetched entries into a themed, display-ready table.
use vstd::prelude::*;

use crate::leaderboard_client::{fetched_view, LeaderboardClient, LeaderboardError};
use crate::leaderboard_entry::{
    category_label, HighlightKind, LeaderboardCategory, LeaderboardEntry,
};
use crate::tabs::{Tab, Tabs};
use crate::text::{decimal, push_decimal};
use crate::theme::Theme;

verus! {

/// The column headers of every rendered table.
pub open spec fn header_labels() -> Seq<Seq<char>> {
    seq!["Rank"@, "Player"@, "Score"@, "Streak"@, "Last Played"@]
}

/// The streak column for a run of `days` days: "<days> day streak".
pub open spec fn streak_text(days: nat) -> Seq<char> {
    decimal(days) + " day streak"@
}

/// The theme token that styles a row with the given highlight.
pub open spec fn highlight_style(kind: HighlightKind, theme: Theme) -> &'static str {
    match kind {
        HighlightKind::Player => theme.highlight_self,
        HighlightKind::Friend => theme.highlight_friend,
        HighlightKind::Plain => theme.table_row,
    }
}

/// The category shown at position `i` of the screen's tabs.
pub open spec fn category_at(i: int) -> LeaderboardCategory {
    if i == 0 {
        LeaderboardCategory::Global
    } else if i == 1 {
        LeaderboardCategory::Friends
    } else {
        LeaderboardCategory::PersonalBest
    }
}

/// The three category tabs, global first, each labelled with its category's label.
pub open spec fn is_category_tabs(tabs: Tabs<LeaderboardCategory>) -> bool {
    &&& tabs.spec_tabs().len() == 3
    &&& forall|i: int|
        0 <= i < 3 ==> {
            &&& (#[trigger] tabs.spec_tabs()[i]).value == category_at(i)
            &&& tabs.spec_tabs()[i].label@ == category_label(category_at(i))
        }
}

/// A display-ready table for one category.
#[derive(Debug, PartialEq, Eq)]
pub struct RenderedLeaderboard {
    pub tab_labels: Vec<String>,
    pub active_tab: String,
    pub headers: Vec<&'static str>,
    pub rows: Vec<RenderedLeaderboardRow>,
}

/// One entry as displayed.
#[derive(Debug, PartialEq, Eq)]
pub struct RenderedLeaderboardRow {
    pub position: u32,
    pub player_name: String,
    pub score: u64,
    pub streak: String,
    pub last_played: String,
    pub highlight_style: &'static str,
    pub metadata_style: &'static str,
}

impl RenderedLeaderboardRow {
    /// This row is `entry` displayed under `theme`.
    pub open spec fn renders(&self, entry: LeaderboardEntry, theme: Theme) -> bool {
        &&& self.position == entry.position
        &&& self.player_name == entry.player_name
        &&& self.score == entry.score
        &&& self.streak@ == streak_text(entry.metadata.streak_days as nat)
        &&& self.last_played == entry.metadata.last_played
        &&& self.highlight_style == highlight_style(entry.spec_highlight_kind(), theme)
        &&& self.metadata_style == theme.subdued_text
    }

    pub fn from_entry(entry: LeaderboardEntry, theme: &Theme) -> (r: Self)
        ensures
            r.renders(entry, *theme),
            r.highlight_style == (if entry.is_self {
                theme.highlight_self
            } else if entry.is_friend {
                theme.highlight_friend
            } else {
                theme.table_row
            }),
    {
        let mut streak = String::new();
        push_decimal(&mut streak, entry.metadata.streak_days);
        streak.append(" day streak");
        let highlight_style = match entry.highlight_kind() {
            HighlightKind::Player => theme.highlight_self,
            HighlightKind::Friend => theme.highlight_friend,
            HighlightKind::Plain => theme.table_row,
        };
        RenderedLeaderboardRow {
            position: entry.position,
            player_name: entry.player_name,
            score: entry.score,
            streak,
            last_played: entry.metadata.last_played,
            highlight_style,
            metadata_style: theme.subdued_text,
        }
    }
}

impl RenderedLeaderboard {
    /// This table shows `entries` of `category` under `theme`, with the tab
    /// strip taken from `tabs`.
    pub open spec fn shows(
        &self,
        tabs: Tabs<LeaderboardCategory>,
        category: LeaderboardCategory,
        entries: Seq<LeaderboardEntry>,
        theme: Theme,
    ) -> bool {
        &&& self.tab_labels@.len() == tabs.spec_tabs().len()
        &&& forall|i: int|
            0 <= i < self.tab_labels@.len() ==> #[trigger] self.tab_labels@[i]@
                == tabs.spec_tabs()[i].label@
        &&& self.active_tab@ == category_label(category)
        &&& self.headers@.len() == header_labels().len()
        &&& forall|i: int| 0 <= i < self.headers@.len() ==> #[trigger] self.headers@[i]@ == header_labels()[i]
        &&& self.rows@.len() == entries.len()
        &&& forall|i: int| 0 <= i < self.rows@.len() ==> #[trigger] self.rows@[i].renders(entries[i], theme)
    }
}

fn headers() -> (r: Vec<&'static str>)
    ensures
        r@.len() == header_labels().len(),
        forall|i: int| 0 <= i < r@.len() ==> #[trigger] r@[i]@ == header_labels()[i],
{
    let r = vec!["Rank", "Player", "Score", "Streak", "Last Played"];
    assert forall|i: int| 0 <= i < r@.len() implies #[trigger] r@[i]@ == header_labels()[i] by {
        if i == 0 {} else if i == 1 {} else if i == 2 {} else if i == 3 {} else {}
    }
    r
}

/// Which tab is active has no part in rendering a given category: two screens
/// whose tabs hold the same labels, with the same theme, present any answer of
/// the client as the same table or the same failure.
pub proof fn lemma_rendering_ignores_selection<C: LeaderboardClient>(
    a: &LeaderboardScreen<C>,
    b: &LeaderboardScreen<C>,
    category: LeaderboardCategory,
    fetched: Result<Seq<LeaderboardEntry>, LeaderboardError>,
    r: Result<RenderedLeaderboard, LeaderboardError>,
)
    requires
        a.spec_tabs().spec_tabs() == b.spec_tabs().spec_tabs(),
        a.spec_theme() == b.spec_theme(),
        a.presents(category, fetched, r),
    ensures
        b.presents(category, fetched, r),
        r is Ok ==> r->Ok_0.active_tab@ == category_label(category),
{
}

/// The tab strip and selection of a leaderboard, bound to a client and a theme.
pub struct LeaderboardScreen<C> {
    client: C,
    tabs: Tabs<LeaderboardCategory>,
    theme: Theme,
}

impl<C: LeaderboardClient> LeaderboardScreen<C> {
    pub closed spec fn spec_client(&self) -> C {
        self.client
    }

    pub closed spec fn spec_tabs(&self) -> Tabs<LeaderboardCategory> {
        self.tabs
    }

    pub closed spec fn spec_theme(&self) -> Theme {
        self.theme
    }

    /// The category the screen shows: the active tab's, or global when no tab is active.
    pub open spec fn active_category(&self) -> LeaderboardCategory {
        match self.spec_tabs().spec_active() {
            Some(tab) => tab.value,
            None => LeaderboardCategory::Global,
        }
    }

    /// `r` is what rendering `category` gives when the client answered `fetched`:
    /// the client's failure unchanged, or the table of the fetched entries in
    /// the order they came.
    pub open spec fn presents(
        &self,
        category: LeaderboardCategory,
        fetched: Result<Seq<LeaderboardEntry>, LeaderboardError>,
        r: Result<RenderedLeaderboard, LeaderboardError>,
    ) -> bool {
        match fetched {
            Err(e) => r == Err::<RenderedLeaderboard, LeaderboardError>(e),
            Ok(entries) => r is Ok && r->Ok_0.shows(
                self.spec_tabs(),
                category,
                entries,
                self.spec_theme(),
            ),
        }
    }

    /// A screen showing the global, friends and personal best tabs, global active.
    pub fn new(client: C, theme: Theme) -> (r: Self)
        ensures
            r.spec_client() == client,
            r.spec_theme() == theme,
            is_category_tabs(r.spec_tabs()),
            r.spec_tabs().spec_active_index() == 0,
    {
        let tabs = Tabs::new(
            vec![
                Tab::new(
                    String::from_str(LeaderboardCategory::Global.label()),
                    LeaderboardCategory::Global,
                ),
                Tab::new(
                    String::from_str(LeaderboardCategory::Friends.label()),
                    LeaderboardCategory::Friends,
                ),
                Tab::new(
                    String::from_str(LeaderboardCategory::PersonalBest.label()),
                    LeaderboardCategory::PersonalBest,
                ),
            ],
        );
        let r = LeaderboardScreen { client, tabs, theme };
        assert forall|i: int| 0 <= i < 3 implies {
            &&& (#[trigger] r.tabs.spec_tabs()[i]).value == category_at(i)
            &&& r.tabs.spec_tabs()[i].label@ == category_label(category_at(i))
        } by {
            if i == 0 {} else if i == 1 {} else {}
        }
        r
    }

    pub fn tabs(&self) -> (r: &Tabs<LeaderboardCategory>)
        ensures
            *r == self.spec_tabs(),
    {
        &self.tabs
    }

    /// Lends the tabs for changing the selection; client and theme stay.
    pub fn tabs_mut(&mut self) -> (r: &mut Tabs<LeaderboardCategory>)
        ensures
            *r == old(self).spec_tabs(),
            final(self).spec_tabs() == *final(r),
            final(self).spec_client() == old(self).spec_client(),
            final(self).spec_theme() == old(self).spec_theme(),
    {
        &mut self.tabs
    }

    /// Renders the table of `category` from an answer of the client.
    pub fn render_fetched(
        &self,
        category: LeaderboardCategory,
        fetched: Result<Vec<LeaderboardEntry>, LeaderboardError>,
    ) -> (r: Result<RenderedLeaderboard, LeaderboardError>)
        ensures
            self.presents(category, fetched_view(fetched), r),
    {
        let entries = match fetched {
            Ok(entries) => entries,
            Err(e) => return Err(e),
        };
        let mut rows: Vec<RenderedLeaderboardRow> = Vec::new();
        let mut i: usize = 0;
        while i < entries.len()
            invariant
                i <= entries@.len(),
                rows@.len() == i,
                forall|j: int| 0 <= j < i ==> #[trigger] rows@[j].renders(entries@[j], self.theme),
            decreases entries@.len() - i,
        {
            rows.push(RenderedLeaderboardRow::from_entry(entries[i].clone(), &self.theme));
            i = i + 1;
        }
        let labels = self.tabs.labels();
        let mut tab_labels: Vec<String> = Vec::new();
        let mut k: usize = 0;
        while k < labels.len()
            invariant
                k <= labels@.len(),
                labels@.len() == self.tabs.spec_tabs().len(),
                forall|j: int| 0 <= j < labels@.len() ==> #[trigger] labels@[j]@ == self.tabs.spec_tabs()[j].label@,
                tab_labels@.len() == k,
                forall|j: int| 0 <= j < k ==> #[trigger] tab_labels@[j]@ == self.tabs.spec_tabs()[j].label@,
            decreases labels@.len() - k,
        {
            tab_labels.push(String::from_str(labels[k]));
            k = k + 1;
        }
        Ok(
            RenderedLeaderboard {
                tab_labels,
                active_tab: String::from_str(category.label()),
                headers: headers(),
                rows,
            },
        )
    }

    /// Fetches `category` from the client and renders it, whichever tab is active.
    pub fn render_for(&self, category: LeaderboardCategory) -> (r: Result<
        RenderedLeaderboard,
        LeaderboardError,
    >)
        ensures
            exists|fetched: Result<Seq<LeaderboardEntry>, LeaderboardError>|
                #[trigger] self.spec_client().provides(category, fetched) && self.presents(
                    category,
                    fetched,
                    r,
                ),
    {
        let fetched = self.client.fetch_category(category);
        let ghost answer = fetched_view(fetched);
        let r = self.render_fetched(category, fetched);
        assert(self.spec_client().provides(category, answer) && self.presents(category, answer, r));
        r
    }

    /// Renders the active tab's category, or global when no tab is active.
    pub fn render_active(&self) -> (r: Result<RenderedLeaderboard, LeaderboardError>)
        ensures
            exists|fetched: Result<Seq<LeaderboardEntry>, LeaderboardError>|
                #[trigger] self.spec_client().provides(self.active_category(), fetched)
                    && self.presents(self.active_category(), fetched, r),
    {
        let category = match self.tabs.active_value() {
            Some(c) => c,
            None => LeaderboardCategory::Global,
        };
        self.render_for(category)
    }
}

} // verus!
