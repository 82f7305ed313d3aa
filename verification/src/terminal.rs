//! The terminal observations that the wire encoding reads: cells, styles,
//! colours, cursor, modes and palette, held as plain values.
use vstd::prelude::*;

verus! {

/// Terminal dimensions in cells.
#[derive(Debug, Clone, Copy, PartialEq, Eq, Structural)]
pub struct TerminalSize {
    pub cols: u16,
    pub rows: u16,
}

impl TerminalSize {
    /// Columns.
    pub fn cols(&self) -> (cols: u16)
        ensures
            cols == self.cols,
    {
        self.cols
    }

    /// Rows.
    pub fn rows(&self) -> (rows: u16)
        ensures
            rows == self.rows,
    {
        self.rows
    }
}

/// A cell colour: the client default, a palette entry, or literal sRGB.
#[derive(Debug, Clone, Copy, PartialEq, Eq, Structural)]
pub enum TerminalColor {
    Default,
    Palette(u8),
    Rgb(u8, u8, u8),
}

/// Underline decoration.
#[derive(Debug, Clone, Copy, PartialEq, Eq, Structural)]
pub enum Underline {
    /// No underline.
    Plain,
    Single,
    Double,
    Curly,
    Dotted,
    Dashed,
}

/// Rendition of one cell.
#[derive(Debug, Clone, Copy, PartialEq, Eq, Structural)]
pub struct TerminalStyle {
    pub foreground: TerminalColor,
    pub background: TerminalColor,
    pub bold: bool,
    pub italic: bool,
    pub faint: bool,
    pub inverse: bool,
    pub invisible: bool,
    pub strikethrough: bool,
    pub overline: bool,
    pub underline: Underline,
}

/// Default colours and the 256-entry indexed palette.
#[derive(Debug, Clone, Copy)]
pub struct TerminalPalette {
    pub foreground: Option<[u8; 3]>,
    pub background: Option<[u8; 3]>,
    pub cursor: Option<[u8; 3]>,
    pub indexed: [[u8; 3]; 256],
}

/// One grid cell: its text, display width and style.
#[derive(Debug)]
pub struct TerminalCell {
    pub text: String,
    pub width: u8,
    pub style: TerminalStyle,
}

/// A cell as a mathematical value.
pub struct CellView {
    pub text: Seq<char>,
    pub width: u8,
    pub style: TerminalStyle,
}

impl View for TerminalCell {
    type V = CellView;

    open spec fn view(&self) -> CellView {
        CellView { text: self.text@, width: self.width, style: self.style }
    }
}

/// The views of a sequence of cells.
pub open spec fn cells_view(cells: Seq<TerminalCell>) -> Seq<CellView> {
    cells.map_values(|cell: TerminalCell| cell@)
}

impl TerminalCell {
    /// An independent copy of this cell.
    pub fn copy(&self) -> (copy: TerminalCell)
        ensures
            copy@ == self@,
    {
        TerminalCell { text: self.text.clone(), width: self.width, style: self.style }
    }

    /// Whether two cells hold the same text, width and style.
    pub fn same(&self, other: &TerminalCell) -> (same: bool)
        ensures
            same == (self@ == other@),
    {
        let text = self.text == other.text;
        text && self.width == other.width && self.style == other.style
    }
}

/// Cursor position and visibility.
#[derive(Debug, Clone, Copy, PartialEq, Eq, Structural)]
pub struct TerminalCursor {
    pub col: u16,
    pub row: u16,
    pub visible: bool,
}

/// Which mouse events the program asked for.
#[derive(Debug, Clone, Copy, PartialEq, Eq, Structural)]
pub enum MouseTracking {
    /// No mouse reporting.
    Disabled,
    Press,
    PressRelease,
    ButtonMotion,
    AnyMotion,
}

/// How mouse events are encoded.
#[derive(Debug, Clone, Copy, PartialEq, Eq, Structural)]
pub enum MouseEncoding {
    Legacy,
    Sgr,
}

/// Terminal modes a client needs to honour.
#[derive(Debug, Clone, Copy, PartialEq, Eq, Structural)]
pub struct TerminalModes {
    pub alternate_screen: bool,
    pub bracketed_paste: bool,
    pub application_cursor: bool,
    pub mouse: MouseTracking,
    pub mouse_encoding: MouseEncoding,
}

/// A copied projection of the visible screen; `cells` is row-major.
#[derive(Debug)]
pub struct TerminalView {
    pub size: TerminalSize,
    pub cells: Vec<TerminalCell>,
    pub cursor: TerminalCursor,
    pub modes: TerminalModes,
    pub palette: TerminalPalette,
}

/// Retained rows read from the engine's history window; `cells` is row-major.
#[derive(Debug)]
pub struct TerminalHistory {
    pub cols: u16,
    pub start: u64,
    pub total: u64,
    pub scrollback: u64,
    pub cells: Vec<TerminalCell>,
}

} // verus!
