//! What a socket serves, and how it answers.
use vstd::prelude::*;

pub mod admission;
pub mod carry;
pub mod conns;
pub mod dispatch;
pub mod errors;
pub mod files;
pub mod identify;
pub mod ops;
pub mod resume;
pub mod routes;
pub mod theme;

verus! {

/// A tab's viewport as text. `cursor` is `(row, col, visible)`. `scrollback_text` is the end
/// of the history above the viewport, of which there are `scrollback_rows` rows.
#[derive(Debug, PartialEq, Eq)]
pub struct DumpData {
    pub cols: u32,
    pub rows: u32,
    pub cursor: Option<(u32, u32, bool)>,
    pub rows_text: Vec<String>,
    pub scrollback_rows: u32,
    pub scrollback_text: Vec<String>,
}

/// Every cell of a tab's viewport with the colors it is painted in.
#[derive(Debug, PartialEq, Eq)]
pub struct ResolvedCellsData {
    pub cols: u16,
    pub rows: u16,
    pub cells: Vec<ResolvedCellData>,
}

/// One cell of [`ResolvedCellsData`].
#[derive(Debug, PartialEq, Eq)]
pub struct ResolvedCellData {
    pub row: u32,
    pub col: u16,
    pub text: String,
    pub fg: (u8, u8, u8),
    pub bg: (u8, u8, u8),
    pub has_explicit_bg: bool,
    pub bold: bool,
    pub italic: bool,
    pub inverse: bool,
}

/// A tab's selection.
#[derive(Debug, PartialEq, Eq)]
pub struct SelectionData {
    pub text: Option<String>,
    pub anchor_visible: bool,
    pub cursor_visible: bool,
}

/// A selection that was grown to a word or a line.
#[derive(Debug, PartialEq, Eq)]
pub struct ExpandSelectionData {
    pub col0: u16,
    pub col1: u16,
    pub text: Option<String>,
}

} // verus!
