//! Semantic colour tokens: one flat palette, named by role.

use vstd::prelude::*;

verus! {

/// A terminal colour.
#[derive(Clone, Copy, Debug, PartialEq, Eq, Structural)]
pub enum Color {
    Black,
    Red,
    Green,
    Yellow,
    Blue,
    Magenta,
    Cyan,
    White,
    DarkGray,
    /// Entry 234 of the 256-colour palette, a very dark grey.
    Gray234,
    /// Entry 236 of the 256-colour palette, a dark grey.
    Gray236,
    Rgb(u8, u8, u8),
}

/// Titles, keys and selection markers.
pub const ACCENT: Color = Color::Cyan;

/// Borders of all panels.
pub const BORDER: Color = Color::DarkGray;

/// Background of the selected row.
pub const SELECTION_BG: Color = Color::Gray236;

/// Background behind a commit that is the branch's own work.
pub const OWN_COMMIT_BG: Color = Color::Gray234;

/// Fill behind dialogs.
pub const DIALOG_BG: Color = Color::Black;

/// Border of dialogs.
pub const DIALOG_BORDER: Color = Color::Cyan;

/// Cycled by graph column, so that parallel branch lines stay distinguishable.
pub const GRAPH_COLORS: [Color; 6] = [
    Color::Cyan,
    Color::Magenta,
    Color::Green,
    Color::Yellow,
    Color::Blue,
    Color::Red,
];

/// A positive or complete state.
pub const SUCCESS: Color = Color::Green;

/// A state that needs attention.
pub const WARNING: Color = Color::Yellow;

/// An error or a destructive action.
pub const DANGER: Color = Color::Red;

/// Secondary emphasis, for diff headers and the like.
pub const INFO: Color = Color::Magenta;

/// The text that a conflict resolution will write.
pub const RESULT: Color = Color::White;

} // verus!
