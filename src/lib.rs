//! A tabbed leaderboard view: a tab selection state machine and a screen that
//! projects categorised score entries into display-ready tables.
pub mod leaderboard;
pub mod leaderboard_client;
pub mod leaderboard_entry;
pub mod tabs;
pub mod text;
pub mod theme;
