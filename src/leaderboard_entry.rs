//! Leaderboard categories, player entries and their highlight classification.
use vstd::prelude::*;

verus! {

/// One of the fixed leaderboard partitions.
#[derive(Debug, Clone, Copy, PartialEq, Eq, Hash, Structural)]
pub enum LeaderboardCategory {
    Global,
    Friends,
    PersonalBest,
}

/// The display label of a category.
pub open spec fn category_label(category: LeaderboardCategory) -> Seq<char> {
    match category {
        LeaderboardCategory::Global => "Global"@,
        LeaderboardCategory::Friends => "Friends"@,
        LeaderboardCategory::PersonalBest => "Personal Best"@,
    }
}

impl LeaderboardCategory {
    pub fn label(&self) -> (r: &'static str)
        ensures
            r@ == category_label(*self),
    {
        match self {
            LeaderboardCategory::Global => "Global",
            LeaderboardCategory::Friends => "Friends",
            LeaderboardCategory::PersonalBest => "Personal Best",
        }
    }
}

/// How an entry stands out: as the viewing player, as a friend, or not at all.
#[derive(Debug, Clone, Copy, PartialEq, Eq, Structural)]
pub enum HighlightKind {
    Plain,
    Player,
    Friend,
}

/// The highlight of an entry: the player's own entry wins over a friend's.
pub open spec fn highlight_of(is_self: bool, is_friend: bool) -> HighlightKind {
    if is_self {
        HighlightKind::Player
    } else if is_friend {
        HighlightKind::Friend
    } else {
        HighlightKind::Plain
    }
}

#[derive(Debug, PartialEq, Eq)]
pub struct LeaderboardEntryMetadata {
    pub streak_days: u32,
    pub last_played: String,
}

impl Clone for LeaderboardEntryMetadata {
    fn clone(&self) -> (r: Self)
        ensures
            r == *self,
    {
        LeaderboardEntryMetadata { streak_days: self.streak_days, last_played: self.last_played.clone() }
    }
}

impl LeaderboardEntryMetadata {
    pub fn new(streak_days: u32, last_played: String) -> (r: Self)
        ensures
            r.streak_days == streak_days,
            r.last_played == last_played,
    {
        LeaderboardEntryMetadata { streak_days, last_played }
    }
}

#[derive(Debug, PartialEq, Eq)]
pub struct LeaderboardEntry {
    pub position: u32,
    pub player_name: String,
    pub score: u64,
    pub is_friend: bool,
    pub is_self: bool,
    pub metadata: LeaderboardEntryMetadata,
}

impl Clone for LeaderboardEntry {
    fn clone(&self) -> (r: Self)
        ensures
            r == *self,
    {
        LeaderboardEntry {
            position: self.position,
            player_name: self.player_name.clone(),
            score: self.score,
            is_friend: self.is_friend,
            is_self: self.is_self,
            metadata: self.metadata.clone(),
        }
    }
}

impl LeaderboardEntry {
    pub fn new(
        position: u32,
        player_name: String,
        score: u64,
        is_friend: bool,
        is_self: bool,
        metadata: LeaderboardEntryMetadata,
    ) -> (r: Self)
        ensures
            r.position == position,
            r.player_name == player_name,
            r.score == score,
            r.is_friend == is_friend,
            r.is_self == is_self,
            r.metadata == metadata,
    {
        LeaderboardEntry { position, player_name, score, is_friend, is_self, metadata }
    }

    /// The highlight this entry calls for.
    pub open spec fn spec_highlight_kind(&self) -> HighlightKind {
        highlight_of(self.is_self, self.is_friend)
    }

    pub fn highlight_kind(&self) -> (r: HighlightKind)
        ensures
            r == self.spec_highlight_kind(),
    {
        if self.is_self {
            HighlightKind::Player
        } else if self.is_friend {
            HighlightKind::Friend
        } else {
            HighlightKind::Plain
        }
    }
}

} // verus!
