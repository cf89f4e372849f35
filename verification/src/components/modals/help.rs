//! The help pop-up: the key bindings, by category.
use vstd::prelude::*;

verus! {

/// The rows of the help table: a category has no description and a blank
/// row separates the categories.
pub open spec fn help_table() -> Seq<(Seq<char>, Seq<char>)> {
    seq![
        ("Navigation"@, ""@),
        (" j / \u{2193}"@, "Select next revision"@),
        (" k / \u{2191}"@, "Select previous revision"@),
        (" Enter"@, "Toggle diff panel"@),
        (" Tab / l"@, "Focus diff panel"@),
        (" h"@, "Focus revision graph"@),
        (""@, ""@),
        ("Operations"@, ""@),
        (" s"@, "Snapshot working copy"@),
        (" e"@, "Edit selected revision"@),
        (" n"@, "Create new child revision"@),
        (" d"@, "Describe revision"@),
        (" a"@, "Abandon revision"@),
        (" S"@, "Squash into parent"@),
        (" b"@, "Set bookmark"@),
        (" B"@, "Delete bookmark"@),
        (" u / U"@, "Undo / Redo"@),
        (" f / p"@, "Fetch / Push"@),
        (""@, ""@),
        ("Filtering"@, ""@),
        (" /"@, "Custom revset filter"@),
        (" m"@, "Filter: mine()"@),
        (" t"@, "Filter: trunk()"@),
        (" c"@, "Filter: conflicts()"@),
        (" C"@, "Clear active filter"@),
        (" Tab"@, "Toggle Recent/Presets (in / modal)"@),
        (""@, ""@),
        ("General"@, ""@),
        (" ?"@, "Show this help"@),
        (" Esc"@, "Close modal / Clear errors"@),
        (" q"@, "Quit"@),
    ]
}

/// The help pop-up.
pub struct HelpModal;

impl HelpModal {
    /// The rows of the help table (see `help_table`): key and description.
    pub fn rows() -> (res: Vec<(&'static str, &'static str)>)
        ensures
            res@.map_values(|r: (&'static str, &'static str)| (r.0@, r.1@)) == help_table(),
    {
        let res = vec![
            ("Navigation", ""),
            (" j / \u{2193}", "Select next revision"),
            (" k / \u{2191}", "Select previous revision"),
            (" Enter", "Toggle diff panel"),
            (" Tab / l", "Focus diff panel"),
            (" h", "Focus revision graph"),
            ("", ""),
            ("Operations", ""),
            (" s", "Snapshot working copy"),
            (" e", "Edit selected revision"),
            (" n", "Create new child revision"),
            (" d", "Describe revision"),
            (" a", "Abandon revision"),
            (" S", "Squash into parent"),
            (" b", "Set bookmark"),
            (" B", "Delete bookmark"),
            (" u / U", "Undo / Redo"),
            (" f / p", "Fetch / Push"),
            ("", ""),
            ("Filtering", ""),
            (" /", "Custom revset filter"),
            (" m", "Filter: mine()"),
            (" t", "Filter: trunk()"),
            (" c", "Filter: conflicts()"),
            (" C", "Clear active filter"),
            (" Tab", "Toggle Recent/Presets (in / modal)"),
            ("", ""),
            ("General", ""),
            (" ?", "Show this help"),
            (" Esc", "Close modal / Clear errors"),
            (" q", "Quit"),
        ];
        assert(res@.map_values(|r: (&'static str, &'static str)| (r.0@, r.1@)) =~= help_table());
        res
    }
}

} // verus!
