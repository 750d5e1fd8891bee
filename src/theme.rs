//! Theme tokens shared across UI components.
use vstd::prelude::*;

verus! {

/// A set of named style tokens. Rendering only chooses among them.
#[derive(Debug, Clone, Copy, PartialEq, Eq)]
pub struct Theme {
    pub table_header: &'static str,
    pub table_row: &'static str,
    pub highlight_self: &'static str,
    pub highlight_friend: &'static str,
    pub subdued_text: &'static str,
}

impl Theme {
    /// The stock theme.
    pub fn default() -> (r: Theme)
        ensures
            r.table_header@ == "fg:muted bg:surface-strong"@,
            r.table_row@ == "fg:default bg:surface"@,
            r.highlight_self@ == "fg:accent-strong bg:surface-strong"@,
            r.highlight_friend@ == "fg:accent bg:surface"@,
            r.subdued_text@ == "fg:muted"@,
    {
        Theme {
            table_header: "fg:muted bg:surface-strong",
            table_row: "fg:default bg:surface",
            highlight_self: "fg:accent-strong bg:surface-strong",
            highlight_friend: "fg:accent bg:surface",
            subdued_text: "fg:muted",
        }
    }
}

} // verus!
