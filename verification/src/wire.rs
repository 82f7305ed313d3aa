//! Version 1 wire messages, style interning and the projection-to-frame diff.
//!
//! The server renders, so everything here turns a terminal view into something
//! a browser can paint without knowing anything about terminals.
use crate::terminal::{
    CellView, MouseEncoding, MouseTracking, TerminalCell, TerminalColor, TerminalCursor,
    TerminalHistory, TerminalModes, TerminalPalette, TerminalStyle, TerminalView, Underline,
};
use vstd::prelude::*;

verus! {

/// Protocol version carried by every message.
pub const VERSION: u32 = 1;

/// Messages a client sends.
#[derive(Debug)]
pub enum ClientMessage {
    Hello { v: u32, cols: u16, rows: u16 },
    Input { v: u32, data: String },
    Resize { v: u32, cols: u16, rows: u16 },
    /// Ask for retained rows. `start` addresses the engine's current window.
    History { v: u32, start: u64, count: u16 },
}

impl ClientMessage {
    /// Protocol version the message claims.
    pub open spec fn spec_version(&self) -> u32 {
        match self {
            ClientMessage::Hello { v, .. } => *v,
            ClientMessage::Input { v, .. } => *v,
            ClientMessage::Resize { v, .. } => *v,
            ClientMessage::History { v, .. } => *v,
        }
    }

    /// Protocol version the message claims.
    pub fn version(&self) -> (v: u32)
        ensures
            v == self.spec_version(),
    {
        match self {
            ClientMessage::Hello { v, .. } => *v,
            ClientMessage::Input { v, .. } => *v,
            ClientMessage::Resize { v, .. } => *v,
            ClientMessage::History { v, .. } => *v,
        }
    }
}

/// Cursor as sent in a frame.
#[derive(Debug, Clone, Copy, PartialEq, Eq, Structural)]
pub struct Cursor {
    pub col: u16,
    pub row: u16,
    pub visible: bool,
}

/// One encoded row: `[text, width, style_id]` per cell.
#[derive(Debug)]
pub struct Row {
    pub y: u16,
    pub cells: Vec<(String, u8, u32)>,
}

/// An encoded row as a mathematical value.
pub struct RowView {
    pub y: u16,
    pub cells: Seq<(Seq<char>, u8, u32)>,
}

impl View for Row {
    type V = RowView;

    open spec fn view(&self) -> RowView {
        RowView {
            y: self.y,
            cells: self.cells@.map_values(|cell: (String, u8, u32)| (cell.0@, cell.1, cell.2)),
        }
    }
}

/// The views of a sequence of rows.
pub open spec fn rows_view(rows: Seq<Row>) -> Seq<RowView> {
    rows.map_values(|row: Row| row@)
}

/// A style as the client receives it, with its interned identifier.
#[derive(Debug, Clone, Copy)]
pub struct WireStyle {
    pub id: u32,
    pub fg: Option<[u8; 3]>,
    pub bg: Option<[u8; 3]>,
    pub bold: bool,
    pub italic: bool,
    pub faint: bool,
    pub inverse: bool,
    pub invisible: bool,
    pub strikethrough: bool,
    pub overline: bool,
    pub underline: Underline,
}

/// Style identity without the allocated id, so interning can reuse entries.
#[derive(Debug, Clone, Copy)]
pub struct StyleKey {
    pub fg: Option<[u8; 3]>,
    pub bg: Option<[u8; 3]>,
    pub bold: bool,
    pub italic: bool,
    pub faint: bool,
    pub inverse: bool,
    pub invisible: bool,
    pub strikethrough: bool,
    pub overline: bool,
    pub underline: Underline,
}

/// The key of the default style, which is never interned and always has id 0.
pub open spec fn default_key() -> StyleKey {
    StyleKey {
        fg: None,
        bg: None,
        bold: false,
        italic: false,
        faint: false,
        inverse: false,
        invisible: false,
        strikethrough: false,
        overline: false,
        underline: Underline::Plain,
    }
}

/// The identity of a wire style, without its id.
pub open spec fn key_of(style: WireStyle) -> StyleKey {
    StyleKey {
        fg: style.fg,
        bg: style.bg,
        bold: style.bold,
        italic: style.italic,
        faint: style.faint,
        inverse: style.inverse,
        invisible: style.invisible,
        strikethrough: style.strikethrough,
        overline: style.overline,
        underline: style.underline,
    }
}

fn same_rgb(a: Option<[u8; 3]>, b: Option<[u8; 3]>) -> (same: bool)
    ensures
        same == (a == b),
{
    match (a, b) {
        (None, None) => true,
        (Some(x), Some(y)) => {
            let same = x[0] == y[0] && x[1] == y[1] && x[2] == y[2];
            if same {
                assert(x@ =~= y@);
                assert(x =~= y);
            } else {
                assert(x@ != y@);
            }
            same
        },
        _ => false,
    }
}

impl StyleKey {
    /// Whether two keys are the same style.
    pub fn same(&self, other: &StyleKey) -> (same: bool)
        ensures
            same == (*self == *other),
    {
        same_rgb(self.fg, other.fg) && same_rgb(self.bg, other.bg) && self.bold == other.bold
            && self.italic == other.italic && self.faint == other.faint && self.inverse
            == other.inverse && self.invisible == other.invisible && self.strikethrough
            == other.strikethrough && self.overline == other.overline && self.underline
            == other.underline
    }

    /// The identity of a wire style.
    pub fn from_wire(style: &WireStyle) -> (key: StyleKey)
        ensures
            key == key_of(*style),
    {
        StyleKey {
            fg: style.fg,
            bg: style.bg,
            bold: style.bold,
            italic: style.italic,
            faint: style.faint,
            inverse: style.inverse,
            invisible: style.invisible,
            strikethrough: style.strikethrough,
            overline: style.overline,
            underline: style.underline,
        }
    }

    /// Whether this is the default style.
    pub fn is_default(&self) -> (default: bool)
        ensures
            default == (*self == default_key()),
    {
        self.fg.is_none() && self.bg.is_none() && !self.bold && !self.italic && !self.faint
            && !self.inverse && !self.invisible && !self.strikethrough && !self.overline
            && self.underline == Underline::Plain
    }
}

/// Name of an underline on the wire; empty for none.
pub fn underline_name(value: Underline) -> (name: &'static str)
    ensures
        value == Underline::Plain ==> name@ == ""@,
        value == Underline::Single ==> name@ == "single"@,
        value == Underline::Double ==> name@ == "double"@,
        value == Underline::Curly ==> name@ == "curly"@,
        value == Underline::Dotted ==> name@ == "dotted"@,
        value == Underline::Dashed ==> name@ == "dashed"@,
{
    match value {
        Underline::Plain => "",
        Underline::Single => "single",
        Underline::Double => "double",
        Underline::Curly => "curly",
        Underline::Dotted => "dotted",
        Underline::Dashed => "dashed",
    }
}

/// Which mouse events the program wants, by wire name.
pub fn mouse_name(value: MouseTracking) -> (name: &'static str)
    ensures
        value == MouseTracking::Disabled ==> name@ == "none"@,
        value == MouseTracking::Press ==> name@ == "press"@,
        value == MouseTracking::PressRelease ==> name@ == "press_release"@,
        value == MouseTracking::ButtonMotion ==> name@ == "button_motion"@,
        value == MouseTracking::AnyMotion ==> name@ == "any_motion"@,
{
    match value {
        MouseTracking::Disabled => "none",
        MouseTracking::Press => "press",
        MouseTracking::PressRelease => "press_release",
        MouseTracking::ButtonMotion => "button_motion",
        MouseTracking::AnyMotion => "any_motion",
    }
}

/// How mouse events are expected to be encoded, by wire name.
pub fn mouse_encoding_name(value: MouseEncoding) -> (name: &'static str)
    ensures
        value == MouseEncoding::Legacy ==> name@ == "legacy"@,
        value == MouseEncoding::Sgr ==> name@ == "sgr"@,
{
    match value {
        MouseEncoding::Legacy => "legacy",
        MouseEncoding::Sgr => "sgr",
    }
}

/// A colour resolved to literal sRGB, or `None` for the client's default.
pub open spec fn resolve_color(value: TerminalColor, palette: TerminalPalette) -> Option<[u8; 3]> {
    match value {
        TerminalColor::Default => None,
        TerminalColor::Palette(index) => Some(palette.indexed@[index as int]),
        TerminalColor::Rgb(r, g, b) => Some(array_rgb(r, g, b)),
    }
}

/// The three-byte colour `[r, g, b]`.
pub open spec fn array_rgb(r: u8, g: u8, b: u8) -> [u8; 3] {
    vstd::array::spec_array_update(
        vstd::array::spec_array_update(
            vstd::array::spec_array_update(vstd::array::spec_array_fill_for_copy_type(0u8), 0, r),
            1,
            g,
        ),
        2,
        b,
    )
}

/// Resolve a colour to literal sRGB, or leave it to the client's default.
///
/// Palette entries are resolved here rather than in the browser so a client
/// never has to carry terminal colour rules.
pub fn color(value: &TerminalColor, palette: &TerminalPalette) -> (rgb: Option<[u8; 3]>)
    ensures
        rgb == resolve_color(*value, *palette),
{
    match value {
        TerminalColor::Default => None,
        TerminalColor::Palette(index) => Some(palette.indexed[*index as usize]),
        TerminalColor::Rgb(r, g, b) => {
            let rgb = [*r, *g, *b];
            assert(rgb =~= array_rgb(*r, *g, *b));
            Some(rgb)
        },
    }
}

/// The wire style of a terminal style, before an id is allocated.
pub open spec fn wire_of(style: TerminalStyle, palette: TerminalPalette, id: u32) -> WireStyle {
    WireStyle {
        id,
        fg: resolve_color(style.foreground, palette),
        bg: resolve_color(style.background, palette),
        bold: style.bold,
        italic: style.italic,
        faint: style.faint,
        inverse: style.inverse,
        invisible: style.invisible,
        strikethrough: style.strikethrough,
        overline: style.overline,
        underline: style.underline,
    }
}

/// The interned styles, in allocation order, and those not yet sent.
pub struct TableView {
    pub keys: Seq<StyleKey>,
    pub pending: Seq<WireStyle>,
}

/// An empty table.
pub open spec fn empty_table() -> TableView {
    TableView { keys: Seq::empty(), pending: Seq::empty() }
}

/// Interning `style` into `table`: the default style is 0 and changes nothing;
/// a known style keeps the id it was given (its position plus one); a new
/// style gets the next id and is queued to be sent.
pub open spec fn intern_spec(table: TableView, style: TerminalStyle, palette: TerminalPalette) -> (
    TableView,
    u32,
) {
    let key = key_of(wire_of(style, palette, 0));
    if key == default_key() {
        (table, 0)
    } else if table.keys.contains(key) {
        (table, (table.keys.index_of(key) + 1) as u32)
    } else {
        let id = (table.keys.len() + 1) as u32;
        (
            TableView {
                keys: table.keys.push(key),
                pending: table.pending.push(wire_of(style, palette, id)),
            },
            id,
        )
    }
}

/// Interns styles so a frame carries small integers rather than repeating a
/// full style on every cell. Identifier zero is the default style; the style
/// at position `i` has identifier `i + 1`.
pub struct StyleTable {
    keys: Vec<StyleKey>,
    pending: Vec<WireStyle>,
}

impl View for StyleTable {
    type V = TableView;

    closed spec fn view(&self) -> TableView {
        TableView { keys: self.keys@, pending: self.pending@ }
    }
}

impl StyleTable {
    /// Every key is interned once and none is the default.
    pub open spec fn wf(&self) -> bool {
        &&& self@.keys.no_duplicates()
        &&& !self@.keys.contains(default_key())
        &&& self@.keys.len() < u32::MAX
    }

    /// Number of interned styles.
    pub open spec fn spec_len(&self) -> nat {
        self@.keys.len()
    }

    /// Number of interned styles.
    pub fn len(&self) -> (count: usize)
        ensures
            count == self.spec_len(),
    {
        self.keys.len()
    }

    /// An empty table.
    pub fn new() -> (table: StyleTable)
        ensures
            table@ == empty_table(),
            table.wf(),
    {
        StyleTable { keys: Vec::new(), pending: Vec::new() }
    }

    /// The identifier of `style`, allocating the next one the first time it is seen.
    pub fn intern(&mut self, style: &TerminalStyle, palette: &TerminalPalette) -> (id: u32)
        requires
            old(self).wf(),
            old(self).spec_len() + 1 < u32::MAX,
        ensures
            final(self).wf(),
            (final(self)@, id) == intern_spec(old(self)@, *style, *palette),
            final(self).spec_len() <= old(self).spec_len() + 1,
    {
        let wire = WireStyle {
            id: 0,
            fg: color(&style.foreground, palette),
            bg: color(&style.background, palette),
            bold: style.bold,
            italic: style.italic,
            faint: style.faint,
            inverse: style.inverse,
            invisible: style.invisible,
            strikethrough: style.strikethrough,
            overline: style.overline,
            underline: style.underline,
        };
        assert(wire == wire_of(*style, *palette, 0));
        let key = StyleKey::from_wire(&wire);
        if key.is_default() {
            return 0;
        }
        let mut index: usize = 0;
        while index < self.keys.len()
            invariant
                index <= self.keys.len(),
                self@ == old(self)@,
                self.wf(),
                self.spec_len() + 1 < u32::MAX,
                key == key_of(wire_of(*style, *palette, 0)),
                forall|j: int| 0 <= j < index ==> self.keys@[j] != key,
            decreases self.keys.len() - index,
        {
            if self.keys[index].same(&key) {
                proof {
                    assert(self@.keys.contains(key));
                    let chosen = self@.keys.index_of(key);
                    assert(self@.keys[chosen] == key);
                    assert(chosen == index) by {
                        if chosen != index {
                            assert(self@.keys[chosen] == self@.keys[index as int]);
                        }
                    }
                }
                return (index + 1) as u32;
            }
            index += 1;
        }
        assert(!self@.keys.contains(key));
        // Zero is reserved for the default style, so identifiers start at one.
        let id = (self.keys.len() + 1) as u32;
        let mut wire = wire;
        wire.id = id;
        self.keys.push(key);
        self.pending.push(wire);
        proof {
            assert forall|i: int, j: int|
                0 <= i < self@.keys.len() && 0 <= j < self@.keys.len() && i != j
                    implies self@.keys[i] != self@.keys[j] by {
                if i < old(self)@.keys.len() && j < old(self)@.keys.len() {
                    assert(old(self)@.keys[i] != old(self)@.keys[j]);
                }
            }
            assert(!self@.keys.contains(default_key())) by {
                if self@.keys.contains(default_key()) {
                    let k = choose|k: int| 0 <= k < self@.keys.len() && self@.keys[k] == default_key();
                    if k < old(self)@.keys.len() {
                        assert(old(self)@.keys.contains(default_key()));
                    }
                }
            }
        }
        id
    }

    /// Styles first seen since the previous call, to send before the frame
    /// that references them.
    pub fn take_pending(&mut self) -> (pending: Vec<WireStyle>)
        ensures
            pending@ == old(self)@.pending,
            final(self)@.pending == Seq::<WireStyle>::empty(),
            final(self)@.keys == old(self)@.keys,
    {
        let mut pending = Vec::new();
        std::mem::swap(&mut pending, &mut self.pending);
        pending
    }

    /// Drop every interned style. Required when the client is told to forget
    /// its table, or previously allocated ids would be reused without
    /// retransmission.
    pub fn clear(&mut self)
        ensures
            final(self)@ == empty_table(),
    {
        self.keys.clear();
        self.pending.clear();
    }
}


/// Encoding a run of cells: each cell's text and width with its style's id,
/// interning styles in cell order.
pub open spec fn encode_cells_spec(table: TableView, cells: Seq<CellView>, palette: TerminalPalette) -> (
    TableView,
    Seq<(Seq<char>, u8, u32)>,
)
    decreases cells.len(),
{
    if cells.len() == 0 {
        (table, Seq::empty())
    } else {
        let (before, encoded) = encode_cells_spec(table, cells.drop_last(), palette);
        let (after, id) = intern_spec(before, cells.last().style, palette);
        (after, encoded.push((cells.last().text, cells.last().width, id)))
    }
}

proof fn lemma_cells_view_take(cells: Seq<TerminalCell>, i: int)
    requires
        0 <= i < cells.len(),
    ensures
        crate::terminal::cells_view(cells.take(i + 1)).drop_last() =~= crate::terminal::cells_view(
            cells.take(i),
        ),
        crate::terminal::cells_view(cells.take(i + 1)).last() == cells[i]@,
        crate::terminal::cells_view(cells.take(i + 1)).len() == i + 1,
{
}

/// Encode one row of cells with `y` left at zero for the caller to place.
pub fn encode_row(cells: &[TerminalCell], styles: &mut StyleTable, palette: &TerminalPalette) -> (row: Row)
    requires
        old(styles).wf(),
        old(styles).spec_len() + cells@.len() + 1 < u32::MAX,
    ensures
        final(styles).wf(),
        final(styles).spec_len() <= old(styles).spec_len() + cells@.len(),
        row.y == 0,
        (final(styles)@, row@.cells) == encode_cells_spec(
            old(styles)@,
            crate::terminal::cells_view(cells@),
            *palette,
        ),
{
    let mut encoded: Vec<(String, u8, u32)> = Vec::new();
    let mut index: usize = 0;
    while index < cells.len()
        invariant
            index <= cells@.len(),
            styles.wf(),
            styles.spec_len() <= old(styles).spec_len() + index,
            old(styles).spec_len() + cells@.len() + 1 < u32::MAX,
            (styles@, encoded@.map_values(|cell: (String, u8, u32)| (cell.0@, cell.1, cell.2)))
                == encode_cells_spec(
                old(styles)@,
                crate::terminal::cells_view(cells@.take(index as int)),
                *palette,
            ),
        decreases cells@.len() - index,
    {
        proof {
            lemma_cells_view_take(cells@, index as int);
        }
        let cell = &cells[index];
        let id = styles.intern(&cell.style, palette);
        let ghost before = encoded@;
        encoded.push((cell.text.clone(), cell.width, id));
        proof {
            assert(encoded@.map_values(|cell: (String, u8, u32)| (cell.0@, cell.1, cell.2))
                =~= before.map_values(|cell: (String, u8, u32)| (cell.0@, cell.1, cell.2)).push(
                (cells@[index as int].text@, cells@[index as int].width, id),
            ));
        }
        index += 1;
    }
    assert(cells@.take(cells@.len() as int) =~= cells@);
    Row { y: 0, cells: encoded }
}

/// Row number of the `index`-th history row starting at `start`, saturated to `u16`.
pub open spec fn history_row_y(start: u64, index: int) -> u16 {
    if start + index <= u16::MAX {
        (start + index) as u16
    } else {
        u16::MAX
    }
}

/// Encoding retained history rows `cols` cells at a time from position `pos`
/// (row `index`); the final chunk may be shorter. Rows are numbered absolutely.
pub open spec fn history_spec(
    table: TableView,
    cells: Seq<CellView>,
    cols: int,
    start: u64,
    palette: TerminalPalette,
    index: int,
    pos: int,
) -> (TableView, Seq<RowView>)
    decreases cells.len() - pos,
{
    if cols <= 0 || pos >= cells.len() || pos < 0 {
        (table, Seq::empty())
    } else {
        let end = if pos + cols <= cells.len() {
            pos + cols
        } else {
            cells.len() as int
        };
        let (after_row, encoded) = encode_cells_spec(table, cells.subrange(pos, end), palette);
        let (after, rest) = history_spec(after_row, cells, cols, start, palette, index + 1, end);
        (after, seq![RowView { y: history_row_y(start, index), cells: encoded }] + rest)
    }
}

/// Encode retained rows for the wire, reusing the row encoding a frame uses,
/// and return them with the styles they introduced.
pub fn encode_history(
    history: &TerminalHistory,
    styles: &mut StyleTable,
    palette: &TerminalPalette,
) -> (encoded: (Vec<Row>, Vec<WireStyle>))
    requires
        old(styles).wf(),
        old(styles).spec_len() + history.cells@.len() + 1 < u32::MAX,
    ensures
        final(styles).wf(),
        ({
            let (table, rows) = history_spec(
                old(styles)@,
                crate::terminal::cells_view(history.cells@),
                history.cols as int,
                history.start,
                *palette,
                0,
                0,
            );
            &&& rows_view(encoded.0@) == rows
            &&& encoded.1@ == table.pending
            &&& final(styles)@.keys == table.keys
            &&& final(styles)@.pending == Seq::<WireStyle>::empty()
        }),
{
    let cols = history.cols as usize;
    let cells = history.cells.as_slice();
    let ghost all = crate::terminal::cells_view(history.cells@);
    let ghost target = history_spec(old(styles)@, all, cols as int, history.start, *palette, 0, 0);
    let mut rows: Vec<Row> = Vec::new();
    if cols > 0 {
        let mut pos: usize = 0;
        let mut index: u64 = 0;
        while pos < cells.len()
            invariant
                cells@ == history.cells@,
                all == crate::terminal::cells_view(history.cells@),
                cols == history.cols as usize,
                cols > 0,
                pos <= cells@.len(),
                index <= pos,
                styles.wf(),
                styles.spec_len() <= old(styles).spec_len() + pos,
                old(styles).spec_len() + history.cells@.len() + 1 < u32::MAX,
                target == ({
                    let (table, rest) = history_spec(
                        styles@,
                        all,
                        cols as int,
                        history.start,
                        *palette,
                        index as int,
                        pos as int,
                    );
                    (table, rows_view(rows@) + rest)
                }),
            decreases cells@.len() - pos,
        {
            let end = if cells.len() - pos >= cols {
                pos + cols
            } else {
                cells.len()
            };
            let chunk = &cells[pos..end];
            proof {
                assert(crate::terminal::cells_view(chunk@) =~= all.subrange(pos as int, end as int));
            }
            let mut row = encode_row(chunk, styles, palette);
            // Rows are numbered absolutely so a client can place them without
            // tracking how many it has already received.
            let absolute = history.start.saturating_add(index);
            row.y = if absolute <= u16::MAX as u64 {
                absolute as u16
            } else {
                u16::MAX
            };
            let ghost before = rows@;
            rows.push(row);
            proof {
                assert(rows_view(rows@) =~= rows_view(before).push(row@));
                let (t1, rest1) = history_spec(
                    styles@,
                    all,
                    cols as int,
                    history.start,
                    *palette,
                    index + 1,
                    end as int,
                );
                assert(rows_view(before) + (seq![row@] + rest1) =~= rows_view(rows@) + rest1);
            }
            pos = end;
            index += 1;
        }
    }
    let pending = styles.take_pending();
    (rows, pending)
}

impl Default for StyleTable {
    fn default() -> (table: StyleTable)
        ensures
            table@ == empty_table(),
            table.wf(),
    {
        StyleTable::new()
    }
}

/// Colours the client resolves against: defaults and the indexed palette.
#[derive(Debug)]
pub struct WirePalette {
    pub foreground: Option<[u8; 3]>,
    pub background: Option<[u8; 3]>,
    pub cursor: Option<[u8; 3]>,
    pub indexed: Vec<[u8; 3]>,
}

/// A wire palette as a mathematical value.
pub struct WirePaletteView {
    pub foreground: Option<[u8; 3]>,
    pub background: Option<[u8; 3]>,
    pub cursor: Option<[u8; 3]>,
    pub indexed: Seq<[u8; 3]>,
}

impl View for WirePalette {
    type V = WirePaletteView;

    open spec fn view(&self) -> WirePaletteView {
        WirePaletteView {
            foreground: self.foreground,
            background: self.background,
            cursor: self.cursor,
            indexed: self.indexed@,
        }
    }
}

/// The wire form of a terminal palette.
pub open spec fn palette_view(palette: TerminalPalette) -> WirePaletteView {
    WirePaletteView {
        foreground: palette.foreground,
        background: palette.background,
        cursor: palette.cursor,
        indexed: palette.indexed@,
    }
}

fn same_triple(a: [u8; 3], b: [u8; 3]) -> (same: bool)
    ensures
        same == (a == b),
{
    let same = a[0] == b[0] && a[1] == b[1] && a[2] == b[2];
    if same {
        assert(a =~= b);
    } else {
        assert(a@ != b@);
    }
    same
}

impl WirePalette {
    /// The wire form of a terminal palette.
    pub fn from_palette(palette: &TerminalPalette) -> (wire: WirePalette)
        ensures
            wire@ == palette_view(*palette),
    {
        let mut indexed: Vec<[u8; 3]> = Vec::new();
        let mut index: usize = 0;
        while index < 256
            invariant
                index <= 256,
                indexed@ == palette.indexed@.take(index as int),
            decreases 256 - index,
        {
            indexed.push(palette.indexed[index]);
            proof {
                assert(indexed@ =~= palette.indexed@.take(index + 1));
            }
            index += 1;
        }
        assert(palette.indexed@.take(256) =~= palette.indexed@);
        WirePalette {
            foreground: palette.foreground,
            background: palette.background,
            cursor: palette.cursor,
            indexed,
        }
    }

    /// Whether two palettes resolve every colour identically.
    pub fn same(&self, other: &WirePalette) -> (same: bool)
        ensures
            same == (self@ == other@),
    {
        if !same_rgb(self.foreground, other.foreground) || !same_rgb(
            self.background,
            other.background,
        ) || !same_rgb(self.cursor, other.cursor) || self.indexed.len() != other.indexed.len() {
            return false;
        }
        let mut index: usize = 0;
        while index < self.indexed.len()
            invariant
                index <= self.indexed@.len(),
                self.indexed@.len() == other.indexed@.len(),
                forall|j: int| 0 <= j < index ==> self.indexed@[j] == other.indexed@[j],
            decreases self.indexed@.len() - index,
        {
            if !same_triple(self.indexed[index], other.indexed[index]) {
                return false;
            }
            index += 1;
        }
        assert(self.indexed@ =~= other.indexed@);
        true
    }
}

/// Messages the server sends.
#[allow(inconsistent_fields)]
#[derive(Debug)]
pub enum ServerMessage {
    Ready { v: u32, cols: u16, rows: u16, palette: WirePalette },
    Styles { v: u32, styles: Vec<WireStyle> },
    Modes {
        v: u32,
        alternate_screen: bool,
        bracketed_paste: bool,
        application_cursor: bool,
        /// Which events the program wants; see `mouse_name`.
        mouse: MouseTracking,
        /// How it expects them encoded; see `mouse_encoding_name`.
        mouse_encoding: MouseEncoding,
    },
    Frame {
        v: u32,
        seq: u64,
        cursor: Cursor,
        rows: Vec<Row>,
        /// The current window, so a client knows how far back it can scroll.
        total: u64,
        scrollback: u64,
    },
    History {
        v: u32,
        /// Where the read actually began after clamping into the window.
        start: u64,
        rows: Vec<Row>,
        total: u64,
        scrollback: u64,
    },
    Exit { v: u32, status: Option<i32> },
    Error { v: u32, message: String },
}

/// A server message as a mathematical value.
#[allow(inconsistent_fields)]
pub enum MessageView {
    Ready { v: u32, cols: u16, rows: u16, palette: WirePaletteView },
    Styles { v: u32, styles: Seq<WireStyle> },
    Modes {
        v: u32,
        alternate_screen: bool,
        bracketed_paste: bool,
        application_cursor: bool,
        mouse: MouseTracking,
        mouse_encoding: MouseEncoding,
    },
    Frame { v: u32, seq: u64, cursor: Cursor, rows: Seq<RowView>, total: u64, scrollback: u64 },
    History { v: u32, start: u64, rows: Seq<RowView>, total: u64, scrollback: u64 },
    Exit { v: u32, status: Option<i32> },
    Error { v: u32, message: Seq<char> },
}

impl View for ServerMessage {
    type V = MessageView;

    open spec fn view(&self) -> MessageView {
        match self {
            ServerMessage::Ready { v, cols, rows, palette } => MessageView::Ready {
                v: *v,
                cols: *cols,
                rows: *rows,
                palette: palette@,
            },
            ServerMessage::Styles { v, styles } => MessageView::Styles { v: *v, styles: styles@ },
            ServerMessage::Modes {
                v,
                alternate_screen,
                bracketed_paste,
                application_cursor,
                mouse,
                mouse_encoding,
            } => MessageView::Modes {
                v: *v,
                alternate_screen: *alternate_screen,
                bracketed_paste: *bracketed_paste,
                application_cursor: *application_cursor,
                mouse: *mouse,
                mouse_encoding: *mouse_encoding,
            },
            ServerMessage::Frame { v, seq, cursor, rows, total, scrollback } => MessageView::Frame {
                v: *v,
                seq: *seq,
                cursor: *cursor,
                rows: rows_view(rows@),
                total: *total,
                scrollback: *scrollback,
            },
            ServerMessage::History { v, start, rows, total, scrollback } => MessageView::History {
                v: *v,
                start: *start,
                rows: rows_view(rows@),
                total: *total,
                scrollback: *scrollback,
            },
            ServerMessage::Exit { v, status } => MessageView::Exit { v: *v, status: *status },
            ServerMessage::Error { v, message } => MessageView::Error { v: *v, message: message@ },
        }
    }
}

/// The views of a sequence of messages.
pub open spec fn messages_view(messages: Seq<ServerMessage>) -> Seq<MessageView> {
    messages.map_values(|message: ServerMessage| message@)
}

/// A terminal view as a mathematical value.
pub struct ScreenView {
    pub cols: u16,
    pub rows: u16,
    pub cells: Seq<CellView>,
    pub cursor: TerminalCursor,
    pub modes: TerminalModes,
    pub palette: TerminalPalette,
}

/// The mathematical value of a terminal view.
pub open spec fn screen_view(view: &TerminalView) -> ScreenView {
    ScreenView {
        cols: view.size.cols,
        rows: view.size.rows,
        cells: crate::terminal::cells_view(view.cells@),
        cursor: view.cursor,
        modes: view.modes,
        palette: view.palette,
    }
}

/// What the client has already been shown, as a mathematical value.
pub struct SentView {
    pub rows: Seq<Seq<CellView>>,
    pub size: Option<(u16, u16)>,
    pub palette: Option<WirePaletteView>,
    pub modes: Option<TerminalModes>,
    pub cursor: Option<TerminalCursor>,
    pub totals: Option<(u64, u64)>,
    pub seq: u64,
}

/// The changed-row pass from row `y` on: each complete row of `cols` cells that
/// differs from what was shown is encoded (interning its styles) and recorded;
/// the pass stops at the first row the cells do not fully cover.
pub open spec fn diff_rows_spec(
    shown: Seq<Seq<CellView>>,
    table: TableView,
    cells: Seq<CellView>,
    cols: int,
    rows: int,
    palette: TerminalPalette,
    y: int,
) -> (Seq<Seq<CellView>>, TableView, Seq<RowView>)
    decreases rows - y,
{
    if y < 0 || y >= rows || y * cols + cols > cells.len() {
        (shown, table, Seq::empty())
    } else {
        let row = cells.subrange(y * cols, y * cols + cols);
        if shown[y] == row {
            diff_rows_spec(shown, table, cells, cols, rows, palette, y + 1)
        } else {
            let (after_row, encoded) = encode_cells_spec(table, row, palette);
            let (shown_after, table_after, rest) = diff_rows_spec(
                shown.update(y, row),
                after_row,
                cells,
                cols,
                rows,
                palette,
                y + 1,
            );
            (shown_after, table_after, seq![RowView { y: y as u16, cells: encoded }] + rest)
        }
    }
}

/// The opening of a diff: `ready` when the palette or size changed (a palette
/// change also drops the style table), `modes` when the modes changed, and the
/// remembered rows replaced by a blank screen when the geometry changed.
pub open spec fn header_spec(sent: SentView, view: ScreenView, table: TableView) -> (
    SentView,
    TableView,
    Seq<MessageView>,
) {
    let palette = palette_view(view.palette);
    let size = (view.cols, view.rows);
    let palette_changed = sent.palette != Some(palette);
    let ready = palette_changed || sent.size != Some(size);
    let ready_messages = if ready {
        seq![MessageView::Ready { v: VERSION, cols: view.cols, rows: view.rows, palette }]
    } else {
        Seq::empty()
    };
    let kept_rows = if ready {
        Seq::empty()
    } else {
        sent.rows
    };
    let kept_table = if palette_changed {
        empty_table()
    } else {
        table
    };
    let mode_messages = if sent.modes != Some(view.modes) {
        seq![
            MessageView::Modes {
                v: VERSION,
                alternate_screen: view.modes.alternate_screen,
                bracketed_paste: view.modes.bracketed_paste,
                application_cursor: view.modes.application_cursor,
                mouse: view.modes.mouse,
                mouse_encoding: view.modes.mouse_encoding,
            },
        ]
    } else {
        Seq::empty()
    };
    let cols = view.cols as int;
    let rows = view.rows as int;
    let regeometry = kept_rows.len() != rows || (kept_rows.len() > 0 && kept_rows[0].len() != cols);
    let blank = if regeometry {
        Seq::new(rows as nat, |i: int| Seq::<CellView>::empty())
    } else {
        kept_rows
    };
    (
        SentView {
            rows: blank,
            size: Some(size),
            palette: Some(palette),
            modes: Some(view.modes),
            cursor: sent.cursor,
            totals: sent.totals,
            seq: sent.seq,
        },
        kept_table,
        ready_messages + mode_messages,
    )
}

/// Whether bringing a client from `sent` up to date with `view` sends a
/// frame: a row changed, the cursor moved, the history totals moved, or
/// nothing was ever sent.
pub open spec fn sends_frame(
    sent: SentView,
    view: ScreenView,
    table: TableView,
    total: u64,
    scrollback: u64,
) -> bool {
    let (header, opened_table, _) = header_spec(sent, view, table);
    let changed = diff_rows_spec(
        header.rows,
        opened_table,
        view.cells,
        view.cols as int,
        view.rows as int,
        view.palette,
        0,
    ).2;
    changed.len() > 0 || sent.cursor != Some(view.cursor) || sent.totals != Some((total, scrollback))
        || sent.seq == 0
}

/// Bringing a client from `sent` up to date with `view`: the messages in the
/// order they must be sent, and what is remembered afterwards.
///
/// After the opening (`header_spec`), changed rows are encoded against the
/// remembered screen; `styles` carries the styles first seen in them; `frame`
/// goes out when a row changed, the cursor moved, the history totals moved,
/// or nothing was ever sent.
pub open spec fn diff_spec(
    sent: SentView,
    view: ScreenView,
    table: TableView,
    total: u64,
    scrollback: u64,
) -> (SentView, TableView, Seq<MessageView>) {
    let (header, opened_table, opening) = header_spec(sent, view, table);
    let (shown, after_rows, changed) = diff_rows_spec(
        header.rows,
        opened_table,
        view.cells,
        view.cols as int,
        view.rows as int,
        view.palette,
        0,
    );
    let style_messages = if after_rows.pending.len() > 0 {
        seq![MessageView::Styles { v: VERSION, styles: after_rows.pending }]
    } else {
        Seq::empty()
    };
    let frame = sends_frame(sent, view, table, total, scrollback);
    let seq = if frame {
        (sent.seq + 1) as u64
    } else {
        sent.seq
    };
    let frame_messages = if frame {
        seq![
            MessageView::Frame {
                v: VERSION,
                seq,
                cursor: Cursor {
                    col: view.cursor.col,
                    row: view.cursor.row,
                    visible: view.cursor.visible,
                },
                rows: changed,
                total,
                scrollback,
            },
        ]
    } else {
        Seq::empty()
    };
    (
        SentView {
            rows: shown,
            size: header.size,
            palette: header.palette,
            modes: header.modes,
            cursor: Some(view.cursor),
            totals: Some((total, scrollback)),
            seq,
        },
        TableView { keys: after_rows.keys, pending: Seq::empty() },
        opening + style_messages + frame_messages,
    )
}

/// What the client has already been shown, so only differences are sent.
pub struct Sent {
    rows: Vec<Vec<TerminalCell>>,
    size: Option<(u16, u16)>,
    palette: Option<WirePalette>,
    modes: Option<TerminalModes>,
    cursor: Option<TerminalCursor>,
    totals: Option<(u64, u64)>,
    seq: u64,
}

impl View for Sent {
    type V = SentView;

    closed spec fn view(&self) -> SentView {
        SentView {
            rows: self.rows@.map_values(|row: Vec<TerminalCell>| crate::terminal::cells_view(row@)),
            size: self.size,
            palette: match self.palette {
                Some(palette) => Some(palette@),
                None => None,
            },
            modes: self.modes,
            cursor: self.cursor,
            totals: self.totals,
            seq: self.seq,
        }
    }
}

fn same_cells(shown: &Vec<TerminalCell>, row: &[TerminalCell]) -> (same: bool)
    ensures
        same == (crate::terminal::cells_view(shown@) == crate::terminal::cells_view(row@)),
{
    if shown.len() != row.len() {
        assert(crate::terminal::cells_view(shown@).len() != crate::terminal::cells_view(row@).len());
        return false;
    }
    let mut index: usize = 0;
    while index < row.len()
        invariant
            index <= row@.len(),
            shown@.len() == row@.len(),
            forall|j: int| 0 <= j < index ==> shown@[j]@ == row@[j]@,
        decreases row@.len() - index,
    {
        if !shown[index].same(&row[index]) {
            assert(crate::terminal::cells_view(shown@)[index as int] != crate::terminal::cells_view(
                row@,
            )[index as int]);
            return false;
        }
        index += 1;
    }
    assert(crate::terminal::cells_view(shown@) =~= crate::terminal::cells_view(row@));
    true
}

fn copy_cells(row: &[TerminalCell]) -> (copy: Vec<TerminalCell>)
    ensures
        crate::terminal::cells_view(copy@) == crate::terminal::cells_view(row@),
{
    let mut copy: Vec<TerminalCell> = Vec::new();
    let mut index: usize = 0;
    while index < row.len()
        invariant
            index <= row@.len(),
            crate::terminal::cells_view(copy@) == crate::terminal::cells_view(row@.take(index as int)),
        decreases row@.len() - index,
    {
        let cell = row[index].copy();
        let ghost before = copy@;
        copy.push(cell);
        proof {
            assert(crate::terminal::cells_view(copy@) =~= crate::terminal::cells_view(before).push(
                cell@,
            ));
            assert(crate::terminal::cells_view(row@.take(index + 1)) =~= crate::terminal::cells_view(
                row@.take(index as int),
            ).push(row@[index as int]@));
        }
        index += 1;
    }
    assert(row@.take(row@.len() as int) =~= row@);
    copy
}

impl Sent {
    /// Nothing has been shown yet.
    pub fn new() -> (sent: Sent)
        ensures
            sent@.rows == Seq::<Seq<CellView>>::empty(),
            sent@.size is None,
            sent@.palette is None,
            sent@.modes is None,
            sent@.cursor is None,
            sent@.totals is None,
            sent@.seq == 0,
    {
        Sent {
            rows: Vec::new(),
            size: None,
            palette: None,
            modes: None,
            cursor: None,
            totals: None,
            seq: 0,
        }
    }

    /// The changed-row pass over a screen whose remembered rows already match its geometry.
    fn changed_rows(
        &mut self,
        view: &TerminalView,
        styles: &mut StyleTable,
        cols: usize,
        rows: usize,
    ) -> (changed: Vec<Row>)
        requires
            old(styles).wf(),
            old(styles).spec_len() + view.cells@.len() + 1 < u32::MAX,
            rows == view.size.rows as usize,
            cols == view.size.cols as usize,
            old(self)@.rows.len() == rows,
        ensures
            final(styles).wf(),
            final(self)@.size == old(self)@.size,
            final(self)@.palette == old(self)@.palette,
            final(self)@.modes == old(self)@.modes,
            final(self)@.cursor == old(self)@.cursor,
            final(self)@.totals == old(self)@.totals,
            final(self)@.seq == old(self)@.seq,
            diff_rows_spec(
                old(self)@.rows,
                old(styles)@,
                crate::terminal::cells_view(view.cells@),
                cols as int,
                rows as int,
                view.palette,
                0,
            ) == (final(self)@.rows, final(styles)@, rows_view(changed@)),
    {
        let ghost cells = crate::terminal::cells_view(view.cells@);
        let ghost blank_rows = self@.rows;
        let ghost base_table = styles@;
        let ghost base_len = styles.spec_len();
        let ghost target = diff_rows_spec(
            blank_rows,
            base_table,
            cells,
            cols as int,
            rows as int,
            view.palette,
            0,
        );
        let ghost kept = self@;
        let cell_slice = view.cells.as_slice();
        let mut changed: Vec<Row> = Vec::new();
        let mut y: usize = 0;
        while y < rows
            invariant
                y <= rows,
                rows == view.size.rows as usize,
                cols == view.size.cols as usize,
                cell_slice@ == view.cells@,
                cells == crate::terminal::cells_view(view.cells@),
                self@.rows.len() == rows,
                self@.size == kept.size,
                self@.palette == kept.palette,
                self@.modes == kept.modes,
                self@.cursor == kept.cursor,
                self@.totals == kept.totals,
                self@.seq == kept.seq,
                styles.wf(),
                y * cols <= cells.len(),
                styles.spec_len() <= base_len + y * cols,
                base_len + cells.len() + 1 < u32::MAX,
                target == ({
                    let (shown, table, rest) = diff_rows_spec(
                        self@.rows,
                        styles@,
                        cells,
                        cols as int,
                        rows as int,
                        view.palette,
                        y as int,
                    );
                    (shown, table, rows_view(changed@) + rest)
                }),
            ensures
                self@.rows.len() == rows,
                self@.size == kept.size,
                self@.palette == kept.palette,
                self@.modes == kept.modes,
                self@.cursor == kept.cursor,
                self@.totals == kept.totals,
                self@.seq == kept.seq,
                styles.wf(),
                target == (self@.rows, styles@, rows_view(changed@)),
            decreases rows - y,
        {
            assert(y * cols + cols <= 65535 * 65535) by (nonlinear_arith)
                requires
                    y < rows,
                    rows <= 65535,
                    cols <= 65535,
            ;
            assert((y + 1) * cols == y * cols + cols) by (nonlinear_arith);
            let start = y * cols;
            if start + cols > cell_slice.len() {
                assert(rows_view(changed@) + Seq::<RowView>::empty() =~= rows_view(changed@));
                break;
            }
            let row = &cell_slice[start..start + cols];
            assert(crate::terminal::cells_view(row@) =~= cells.subrange(
                start as int,
                start + cols,
            ));
            if same_cells(&self.rows[y], row) {
                y += 1;
                continue;
            }
            let mut encoded = encode_row(row, styles, &view.palette);
            encoded.y = y as u16;
            let ghost before_changed = changed@;
            let ghost encoded_view = encoded@;
            changed.push(encoded);
            let ghost before_rows = self@.rows;
            self.rows.set(y, copy_cells(row));
            proof {
                assert(self@.rows =~= before_rows.update(y as int, cells.subrange(start as int, start + cols)));
                assert(rows_view(changed@) =~= rows_view(before_changed).push(encoded_view));
                let (s1, t1, r1) = diff_rows_spec(
                    self@.rows,
                    styles@,
                    cells,
                    cols as int,
                    rows as int,
                    view.palette,
                    y + 1,
                );
                assert(rows_view(before_changed) + (seq![encoded_view] + r1) =~= rows_view(changed@) + r1);
                assert((y + 1) * cols == y * cols + cols) by (nonlinear_arith);
            }
            y += 1;
        }

        changed
    }

    /// The opening of a diff: `ready`, `modes`, and the remembered rows reset
    /// to a blank screen when the geometry changed.
    fn announce(&mut self, view: &TerminalView, styles: &mut StyleTable) -> (messages: Vec<ServerMessage>)
        requires
            old(styles).wf(),
        ensures
            final(styles).wf(),
            final(styles).spec_len() <= old(styles).spec_len(),
            (final(self)@, final(styles)@, messages_view(messages@)) == header_spec(
                old(self)@,
                screen_view(view),
                old(styles)@,
            ),
    {
        let ghost screen = screen_view(view);
        let ghost cells = crate::terminal::cells_view(view.cells@);
        let mut messages: Vec<ServerMessage> = Vec::new();
        let cols = view.size.cols() as usize;
        let rows = view.size.rows() as usize;

        // `ready` carries the geometry as well as the palette, so it has to be
        // re-sent when either changes.
        let palette = WirePalette::from_palette(&view.palette);
        let size = (view.size.cols(), view.size.rows());
        let palette_changed = match &self.palette {
            Some(shown) => !shown.same(&palette),
            None => true,
        };
        let size_changed = match self.size {
            Some(shown) => !(shown.0 == size.0 && shown.1 == size.1),
            None => true,
        };
        if palette_changed || size_changed {
            let ghost before = messages@;
            messages.push(
                ServerMessage::Ready {
                    v: VERSION,
                    cols: size.0,
                    rows: size.1,
                    palette: WirePalette::from_palette(&view.palette),
                },
            );
            assert(messages_view(messages@) =~= messages_view(before).push(messages@.last()@));
            self.palette = Some(palette);
            self.size = Some(size);
            // Geometry changes force a full frame rewrite. Palette changes also
            // invalidate every previously resolved colour, so drop the table.
            self.rows.clear();
            if palette_changed {
                styles.clear();
            }
        }
        let ghost ready_count = messages@.len();
        let modes_changed = match self.modes {
            Some(shown) => shown != view.modes,
            None => true,
        };
        if modes_changed {
            let ghost before = messages@;
            messages.push(
                ServerMessage::Modes {
                    v: VERSION,
                    alternate_screen: view.modes.alternate_screen,
                    bracketed_paste: view.modes.bracketed_paste,
                    application_cursor: view.modes.application_cursor,
                    mouse: view.modes.mouse,
                    mouse_encoding: view.modes.mouse_encoding,
                },
            );
            assert(messages_view(messages@) =~= messages_view(before).push(messages@.last()@));
            self.modes = Some(view.modes);
        }
        // A resize changes what every row means, so nothing retained about the
        // old geometry can be compared against the new one.
        if self.rows.len() != rows || (self.rows.len() > 0 && self.rows[0].len() != cols) {
            let mut blank: Vec<Vec<TerminalCell>> = Vec::new();
            let mut index: usize = 0;
            while index < rows
                invariant
                    index <= rows,
                    blank@.len() == index,
                    forall|i: int| 0 <= i < index ==> (#[trigger] blank@[i])@.len() == 0,
                decreases rows - index,
            {
                blank.push(Vec::new());
                index += 1;
            }
            self.rows = blank;
            assert forall|i: int| 0 <= i < rows implies #[trigger] self@.rows[i] =~= Seq::<
                CellView,
            >::empty() by {
                assert(self.rows@[i]@.len() == 0);
            }
            assert(self@.rows =~= Seq::new(rows as nat, |i: int| Seq::<CellView>::empty()));
        }
        proof {
            let (header, table, opening) = header_spec(old(self)@, screen, old(styles)@);
            assert(self@.rows == header.rows);
            assert(messages_view(messages@) =~= opening);
        }
        messages
    }

    /// Whether anything has been sent yet.
    pub fn seq(&self) -> (seq: u64)
        ensures
            seq == self@.seq,
    {
        self.seq
    }

    /// Messages that bring the client up to date, in the order they must be
    /// sent: styles before the frame that uses them.
    pub fn diff(
        &mut self,
        view: &TerminalView,
        styles: &mut StyleTable,
        total: u64,
        scrollback: u64,
    ) -> (messages: Vec<ServerMessage>)
        requires
            old(styles).wf(),
            old(styles).spec_len() + view.cells@.len() + 1 < u32::MAX,
            old(self)@.seq < u64::MAX || !sends_frame(
                old(self)@,
                screen_view(view),
                old(styles)@,
                total,
                scrollback,
            ),
        ensures
            final(styles).wf(),
            (final(self)@, final(styles)@, messages_view(messages@)) == diff_spec(
                old(self)@,
                screen_view(view),
                old(styles)@,
                total,
                scrollback,
            ),
    {
        let ghost screen = screen_view(view);
        let mut messages = self.announce(view, styles);
        let cols = view.size.cols() as usize;
        let rows = view.size.rows() as usize;
        let ghost blank_rows = self@.rows;
        let ghost base_table = styles@;
        let changed = self.changed_rows(view, styles, cols, rows);
        let pending = styles.take_pending();
        let ghost style_count = messages@.len();
        if pending.len() > 0 {
            let ghost before = messages@;
            messages.push(ServerMessage::Styles { v: VERSION, styles: pending });
            assert(messages_view(messages@) =~= messages_view(before).push(messages@.last()@));
        }

        // The cursor moves without any cell changing, and history can grow or
        // evict while the visible cells stay as they were; both need a frame.
        let cursor_moved = match self.cursor {
            Some(shown) => shown != view.cursor,
            None => true,
        };
        self.cursor = Some(view.cursor);
        let totals_moved = match self.totals {
            Some(shown) => !(shown.0 == total && shown.1 == scrollback),
            None => true,
        };
        self.totals = Some((total, scrollback));

        if changed.len() > 0 || cursor_moved || totals_moved || self.seq == 0 {
            assert(sends_frame(old(self)@, screen, old(styles)@, total, scrollback));
            self.seq = self.seq + 1;
            let ghost before = messages@;
            messages.push(
                ServerMessage::Frame {
                    v: VERSION,
                    seq: self.seq,
                    cursor: Cursor {
                        col: view.cursor.col,
                        row: view.cursor.row,
                        visible: view.cursor.visible,
                    },
                    rows: changed,
                    total,
                    scrollback,
                },
            );
            assert(messages_view(messages@) =~= messages_view(before).push(messages@.last()@));
        }
        proof {
            let (sent_after, table_after, expected) = diff_spec(
                old(self)@,
                screen,
                old(styles)@,
                total,
                scrollback,
            );
            assert(self@.rows == sent_after.rows);
            assert(messages_view(messages@) =~= expected);
        }
        messages
    }
}

impl Default for Sent {
    fn default() -> (sent: Sent)
        ensures
            sent@.rows == Seq::<Seq<CellView>>::empty(),
            sent@.size is None,
            sent@.palette is None,
            sent@.modes is None,
            sent@.cursor is None,
            sent@.totals is None,
            sent@.seq == 0,
    {
        Sent::new()
    }
}

} // verus!
