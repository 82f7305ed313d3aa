//! Properties of style interning and of the frame diff across calls.
use crate::terminal::{CellView, TerminalColor, TerminalPalette, TerminalStyle, Underline};
use crate::wire::{
    default_key, diff_rows_spec, diff_spec, header_spec, intern_spec, key_of, wire_of, MessageView,
    ScreenView, SentView, StyleKey, TableView, WirePaletteView, WireStyle,
};
use vstd::prelude::*;

verus! {

/// The default style is never interned: its id is zero and the table is unchanged.
pub proof fn default_style_is_zero(table: TableView, style: TerminalStyle, palette: TerminalPalette)
    requires
        key_of(wire_of(style, palette, 0)) == default_key(),
    ensures
        intern_spec(table, style, palette) == (table, 0u32),
{
}

/// Interning is idempotent: a style interned a second time gets the same id
/// and changes nothing.
pub proof fn intern_is_idempotent(table: TableView, style: TerminalStyle, palette: TerminalPalette)
    requires
        table.keys.no_duplicates(),
        table.keys.len() + 1 < u32::MAX,
    ensures
        ({
            let (after, id) = intern_spec(table, style, palette);
            intern_spec(after, style, palette) == (after, id)
        }),
{
    let key = key_of(wire_of(style, palette, 0));
    if key != default_key() && !table.keys.contains(key) {
        let (after, id) = intern_spec(table, style, palette);
        let n = table.keys.len() as int;
        assert(after.keys[n] == key);
        assert(after.keys.contains(key));
        let found = after.keys.index_of(key);
        assert(after.keys[found] == key);
        if found != n {
            assert(table.keys[found] == key);
            assert(table.keys.contains(key));
        }
    }
}

/// Styles with different keys never share an id: each nonzero id names exactly
/// one interned style.
pub proof fn ids_are_distinct(
    table: TableView,
    first: TerminalStyle,
    second: TerminalStyle,
    palette: TerminalPalette,
)
    requires
        table.keys.no_duplicates(),
        table.keys.contains(key_of(wire_of(first, palette, 0))),
        table.keys.contains(key_of(wire_of(second, palette, 0))),
        key_of(wire_of(first, palette, 0)) != key_of(wire_of(second, palette, 0)),
        key_of(wire_of(first, palette, 0)) != default_key(),
        key_of(wire_of(second, palette, 0)) != default_key(),
        table.keys.len() + 1 < u32::MAX,
    ensures
        intern_spec(table, first, palette).1 != intern_spec(table, second, palette).1,
{
    let k1 = key_of(wire_of(first, palette, 0));
    let k2 = key_of(wire_of(second, palette, 0));
    let i1 = table.keys.index_of(k1);
    let i2 = table.keys.index_of(k2);
    assert(table.keys[i1] == k1);
    assert(table.keys[i2] == k2);
}

/// Interning only ever appends: every style interned before keeps its id.
pub proof fn ids_are_stable(
    table: TableView,
    style: TerminalStyle,
    palette: TerminalPalette,
    known: StyleKey,
)
    requires
        table.keys.contains(known),
    ensures
        intern_spec(table, style, palette).0.keys.contains(known),
        intern_spec(table, style, palette).0.keys.index_of(known) == table.keys.index_of(known)
            || !table.keys.no_duplicates(),
{
    let (after, id) = intern_spec(table, style, palette);
    let i = table.keys.index_of(known);
    assert(table.keys[i] == known);
    if after.keys != table.keys {
        assert(after.keys[i] == known);
        if table.keys.no_duplicates() {
            let j = after.keys.index_of(known);
            assert(after.keys[j] == known);
            if j != i {
                if j < table.keys.len() {
                    assert(table.keys[j] == known);
                } else {
                    assert(after.keys[j] == key_of(wire_of(style, palette, 0)));
                }
            }
        }
    }
}

proof fn lemma_rows_pass_keeps_len(
    shown: Seq<Seq<CellView>>,
    table: TableView,
    cells: Seq<CellView>,
    cols: int,
    rows: int,
    palette: TerminalPalette,
    y: int,
)
    requires
        shown.len() == rows,
    ensures
        diff_rows_spec(shown, table, cells, cols, rows, palette, y).0.len() == shown.len(),
    decreases rows - y,
{
    if !(y < 0 || y >= rows || y * cols + cols > cells.len()) {
        let row = cells.subrange(y * cols, y * cols + cols);
        let (after_row, encoded) = crate::wire::encode_cells_spec(table, row, palette);
        if shown[y] == row {
            lemma_rows_pass_keeps_len(shown, table, cells, cols, rows, palette, y + 1);
        } else {
            lemma_rows_pass_keeps_len(shown.update(y, row), after_row, cells, cols, rows, palette, y + 1);
        }
    }
}

proof fn lemma_rows_pass_keeps_prefix(
    shown: Seq<Seq<CellView>>,
    table: TableView,
    cells: Seq<CellView>,
    cols: int,
    rows: int,
    palette: TerminalPalette,
    y: int,
    j: int,
)
    requires
        0 <= j < y,
        j < rows,
        shown.len() == rows,
    ensures
        diff_rows_spec(shown, table, cells, cols, rows, palette, y).0[j] == shown[j],
    decreases rows - y,
{
    if !(y < 0 || y >= rows || y * cols + cols > cells.len()) {
        let row = cells.subrange(y * cols, y * cols + cols);
        let (after_row, encoded) = crate::wire::encode_cells_spec(table, row, palette);
        if shown[y] == row {
            lemma_rows_pass_keeps_prefix(shown, table, cells, cols, rows, palette, y + 1, j);
        } else {
            lemma_rows_pass_keeps_prefix(
                shown.update(y, row),
                after_row,
                cells,
                cols,
                rows,
                palette,
                y + 1,
                j,
            );
        }
    }
}

proof fn lemma_rows_pass_settles(
    shown: Seq<Seq<CellView>>,
    table: TableView,
    cells: Seq<CellView>,
    cols: int,
    rows: int,
    palette: TerminalPalette,
    y: int,
    other: TableView,
)
    requires
        0 <= y,
        shown.len() == rows,
    ensures
        ({
            let (settled, _, _) = diff_rows_spec(shown, table, cells, cols, rows, palette, y);
            diff_rows_spec(settled, other, cells, cols, rows, palette, y) == (
                settled,
                other,
                Seq::<crate::wire::RowView>::empty(),
            )
        }),
    decreases rows - y,
{
    if !(y < 0 || y >= rows || y * cols + cols > cells.len()) {
        let row = cells.subrange(y * cols, y * cols + cols);
        let (after_row, encoded) = crate::wire::encode_cells_spec(table, row, palette);
        if shown[y] == row {
            lemma_rows_pass_settles(shown, table, cells, cols, rows, palette, y + 1, other);
            lemma_rows_pass_keeps_prefix(shown, table, cells, cols, rows, palette, y + 1, y);
        } else {
            let updated = shown.update(y, row);
            lemma_rows_pass_settles(updated, after_row, cells, cols, rows, palette, y + 1, other);
            lemma_rows_pass_keeps_prefix(updated, after_row, cells, cols, rows, palette, y + 1, y);
        }
    }
}

proof fn lemma_rows_pass_first_row(
    shown: Seq<Seq<CellView>>,
    table: TableView,
    cells: Seq<CellView>,
    cols: int,
    rows: int,
    palette: TerminalPalette,
)
    requires
        shown.len() == rows,
        rows > 0,
        cols >= 0,
        cols <= cells.len(),
    ensures
        diff_rows_spec(shown, table, cells, cols, rows, palette, 0).0[0].len() == cols,
{
    let row = cells.subrange(0, cols);
    let (after_row, encoded) = crate::wire::encode_cells_spec(table, row, palette);
    if shown[0] == row {
        lemma_rows_pass_keeps_prefix(shown, table, cells, cols, rows, palette, 1, 0);
    } else {
        lemma_rows_pass_keeps_prefix(shown.update(0, row), after_row, cells, cols, rows, palette, 1, 0);
    }
}

/// Only differences are sent: diffing the same view again, with the same
/// history totals and the style table the first diff left, sends nothing.
pub proof fn repeated_diff_sends_nothing(
    sent: SentView,
    view: ScreenView,
    table: TableView,
    total: u64,
    scrollback: u64,
)
    requires
        sent.seq < u64::MAX,
    ensures
        ({
            let (after, after_table, _) = diff_spec(sent, view, table, total, scrollback);
            &&& diff_spec(after, view, after_table, total, scrollback).2 == Seq::<
                crate::wire::MessageView,
            >::empty()
            &&& !crate::wire::sends_frame(after, view, after_table, total, scrollback)
        }),
{
    let (after, after_table, first) = diff_spec(sent, view, table, total, scrollback);
    let (header, opened, opening) = header_spec(sent, view, table);
    let cols = view.cols as int;
    let rows = view.rows as int;
    let (header2, opened2, opening2) = header_spec(after, view, after_table);
    let settled = diff_rows_spec(header.rows, opened, view.cells, cols, rows, view.palette, 0).0;
    lemma_rows_pass_keeps_len(header.rows, opened, view.cells, cols, rows, view.palette, 0);
    assert(settled.len() == rows);
    assert(opening2 =~= Seq::<crate::wire::MessageView>::empty());
    if header2.rows == settled {
        lemma_rows_pass_settles(header.rows, opened, view.cells, cols, rows, view.palette, 0, opened2);
    } else {
        // The geometry check failed again only because the first row is not
        // fully covered, so the rows pass stops before its first row.
        if rows > 0 && cols <= view.cells.len() {
            lemma_rows_pass_first_row(header.rows, opened, view.cells, cols, rows, view.palette);
        }
    }
    let (_, after_rows2, changed2) = diff_rows_spec(
        header2.rows,
        opened2,
        view.cells,
        cols,
        rows,
        view.palette,
        0,
    );
    assert(changed2 =~= Seq::<crate::wire::RowView>::empty());
    assert(after_rows2 == opened2);
    assert(diff_spec(after, view, after_table, total, scrollback).2 =~= Seq::<
        crate::wire::MessageView,
    >::empty());
}

/// A history move alone is one empty frame: diffing the same view again with
/// the style table the first diff left, but with other history totals, sends
/// exactly one frame, numbered one past the last, with no rows, the same
/// cursor and the new totals.
pub proof fn moved_totals_send_one_empty_frame(
    sent: SentView,
    view: ScreenView,
    table: TableView,
    total: u64,
    scrollback: u64,
    total2: u64,
    scrollback2: u64,
)
    requires
        sent.seq < u64::MAX - 1,
        (total2, scrollback2) != (total, scrollback),
    ensures
        ({
            let (after, after_table, _) = diff_spec(sent, view, table, total, scrollback);
            diff_spec(after, view, after_table, total2, scrollback2).2 == seq![
                crate::wire::MessageView::Frame {
                    v: crate::wire::VERSION,
                    seq: (after.seq + 1) as u64,
                    cursor: crate::wire::Cursor {
                        col: view.cursor.col,
                        row: view.cursor.row,
                        visible: view.cursor.visible,
                    },
                    rows: Seq::empty(),
                    total: total2,
                    scrollback: scrollback2,
                },
            ]
        }),
{
    repeated_diff_sends_nothing(sent, view, table, total, scrollback);
    let (after, after_table, first) = diff_spec(sent, view, table, total, scrollback);
    let (header, opened, opening) = header_spec(sent, view, table);
    let cols = view.cols as int;
    let rows = view.rows as int;
    let (header2, opened2, opening2) = header_spec(after, view, after_table);
    let settled = diff_rows_spec(header.rows, opened, view.cells, cols, rows, view.palette, 0).0;
    lemma_rows_pass_keeps_len(header.rows, opened, view.cells, cols, rows, view.palette, 0);
    assert(opening2 =~= Seq::<crate::wire::MessageView>::empty());
    if header2.rows == settled {
        lemma_rows_pass_settles(header.rows, opened, view.cells, cols, rows, view.palette, 0, opened2);
    } else {
        if rows > 0 && cols <= view.cells.len() {
            lemma_rows_pass_first_row(header.rows, opened, view.cells, cols, rows, view.palette);
        }
    }
    let (_, after_rows2, changed2) = diff_rows_spec(
        header2.rows,
        opened2,
        view.cells,
        cols,
        rows,
        view.palette,
        0,
    );
    assert(changed2 =~= Seq::<crate::wire::RowView>::empty());
    assert(after_rows2 == opened2);
    assert(diff_spec(after, view, after_table, total2, scrollback2).2 =~= seq![
        crate::wire::MessageView::Frame {
            v: crate::wire::VERSION,
            seq: (after.seq + 1) as u64,
            cursor: crate::wire::Cursor {
                col: view.cursor.col,
                row: view.cursor.row,
                visible: view.cursor.visible,
            },
            rows: Seq::empty(),
            total: total2,
            scrollback: scrollback2,
        },
    ]);
}

/// Interning a run of styles, in order.
pub open spec fn intern_run(table: TableView, styles: Seq<TerminalStyle>, palette: TerminalPalette) -> TableView
    decreases styles.len(),
{
    if styles.len() == 0 {
        table
    } else {
        intern_spec(intern_run(table, styles.drop_last(), palette), styles.last(), palette).0
    }
}

/// Pending styles follow first interning: after any run of interning, the
/// styles queued to be sent are those queued before, followed by one wire
/// style for each key interned for the first time during the run, in the
/// order they were first met, each carrying the id it was given. So the next
/// `take_pending` after a `take_pending` (or `clear`) returns exactly the
/// styles first met in between, in order, with their ids.
pub proof fn pending_follows_first_interning(
    table: TableView,
    styles: Seq<TerminalStyle>,
    palette: TerminalPalette,
)
    requires
        table.keys.len() + styles.len() + 1 < u32::MAX,
    ensures
        ({
            let run = intern_run(table, styles, palette);
            let n = table.keys.len() as int;
            let m = table.pending.len() as int;
            &&& n <= run.keys.len() <= n + styles.len()
            &&& run.keys.subrange(0, n) == table.keys
            &&& run.pending.len() == m + run.keys.len() - n
            &&& run.pending.subrange(0, m) == table.pending
            &&& forall|i: int|
                0 <= i < run.keys.len() - n ==> {
                    &&& key_of(#[trigger] run.pending[m + i]) == run.keys[n + i]
                    &&& run.pending[m + i].id == n + i + 1
                }
        }),
    decreases styles.len(),
{
    if styles.len() > 0 {
        pending_follows_first_interning(table, styles.drop_last(), palette);
        let before = intern_run(table, styles.drop_last(), palette);
        let run = intern_run(table, styles, palette);
        let n = table.keys.len() as int;
        let m = table.pending.len() as int;
        let key = key_of(wire_of(styles.last(), palette, 0));
        if key != default_key() && !before.keys.contains(key) {
            let id = (before.keys.len() + 1) as u32;
            assert(key_of(wire_of(styles.last(), palette, id)) == key);
            assert(run.keys.subrange(0, n) =~= before.keys.subrange(0, n));
            assert(run.pending.subrange(0, m) =~= before.pending.subrange(0, m));
            assert forall|i: int| 0 <= i < run.keys.len() - n implies {
                &&& key_of(#[trigger] run.pending[m + i]) == run.keys[n + i]
                &&& run.pending[m + i].id == n + i + 1
            } by {
                if i < before.keys.len() - n {
                    assert(run.pending[m + i] == before.pending[m + i]);
                    assert(run.keys[n + i] == before.keys[n + i]);
                }
            }
        }
    } else {
        assert(table.keys.subrange(0, table.keys.len() as int) =~= table.keys);
        assert(table.pending.subrange(0, table.pending.len() as int) =~= table.pending);
    }
}

/// Every style id in these rows is at most `count`.
pub open spec fn ids_within(rows: Seq<crate::wire::RowView>, count: int) -> bool {
    forall|r: int, c: int|
        0 <= r < rows.len() && 0 <= c < rows[r].cells.len() ==> #[trigger] rows[r].cells[c].2 <= count
}

proof fn lemma_intern_grows(table: TableView, style: TerminalStyle, palette: TerminalPalette)
    requires
        table.keys.len() + 1 < u32::MAX,
    ensures
        ({
            let (after, id) = intern_spec(table, style, palette);
            &&& table.keys.len() <= after.keys.len() <= table.keys.len() + 1
            &&& id <= after.keys.len()
        }),
{
    let key = key_of(wire_of(style, palette, 0));
    if key != default_key() && table.keys.contains(key) {
        let i = table.keys.index_of(key);
        assert(0 <= i < table.keys.len());
    }
}

proof fn lemma_cells_ids(table: TableView, cells: Seq<CellView>, palette: TerminalPalette)
    requires
        table.keys.len() + cells.len() + 1 < u32::MAX,
    ensures
        ({
            let (after, encoded) = crate::wire::encode_cells_spec(table, cells, palette);
            &&& table.keys.len() <= after.keys.len() <= table.keys.len() + cells.len()
            &&& forall|c: int| 0 <= c < encoded.len() ==> #[trigger] encoded[c].2 <= after.keys.len()
        }),
    decreases cells.len(),
{
    if cells.len() > 0 {
        lemma_cells_ids(table, cells.drop_last(), palette);
        let (before, encoded) = crate::wire::encode_cells_spec(table, cells.drop_last(), palette);
        lemma_intern_grows(before, cells.last().style, palette);
    }
}

proof fn lemma_rows_ids(
    shown: Seq<Seq<CellView>>,
    table: TableView,
    cells: Seq<CellView>,
    cols: int,
    rows: int,
    palette: TerminalPalette,
    y: int,
)
    requires
        0 <= y,
        0 <= cols,
        y * cols <= cells.len(),
        table.keys.len() + (cells.len() - y * cols) + 1 < u32::MAX,
    ensures
        ({
            let (_, after, changed) = diff_rows_spec(shown, table, cells, cols, rows, palette, y);
            &&& table.keys.len() <= after.keys.len()
            &&& after.keys.len() <= table.keys.len() + (cells.len() - y * cols)
            &&& ids_within(changed, after.keys.len() as int)
        }),
    decreases rows - y,
{
    if y < 0 || y >= rows || y * cols + cols > cells.len() {
    } else {
        assert((y + 1) * cols == y * cols + cols) by (nonlinear_arith);
        let row = cells.subrange(y * cols, y * cols + cols);
        if shown[y] == row {
            lemma_rows_ids(shown, table, cells, cols, rows, palette, y + 1);
        } else {
            let (after_row, encoded) = crate::wire::encode_cells_spec(table, row, palette);
            lemma_cells_ids(table, row, palette);
            lemma_rows_ids(shown.update(y, row), after_row, cells, cols, rows, palette, y + 1);
            let (_, after, rest) = diff_rows_spec(
                shown.update(y, row),
                after_row,
                cells,
                cols,
                rows,
                palette,
                y + 1,
            );
            let changed = seq![crate::wire::RowView { y: y as u16, cells: encoded }] + rest;
            assert forall|r: int, c: int|
                0 <= r < changed.len() && 0 <= c < changed[r].cells.len() implies #[trigger] changed[r].cells[c].2
                <= after.keys.len() by {
                if r == 0 {
                    assert(changed[0].cells[c] == encoded[c]);
                } else {
                    assert(changed[r] == rest[r - 1]);
                }
            }
        }
    }
}

/// Every style id a frame refers to names a style in the table the diff
/// leaves, and that table has nothing left to send: each style first met in
/// this diff went out in its `styles` message, before the frame.
pub proof fn frame_ids_name_sent_styles(
    sent: SentView,
    view: ScreenView,
    table: TableView,
    total: u64,
    scrollback: u64,
)
    requires
        table.keys.len() + view.cells.len() + 1 < u32::MAX,
    ensures
        ({
            let (_, after, messages) = diff_spec(sent, view, table, total, scrollback);
            &&& after.pending == Seq::<crate::wire::WireStyle>::empty()
            &&& forall|i: int|
                0 <= i < messages.len() ==> (#[trigger] messages[i] matches crate::wire::MessageView::Frame {
                    rows,
                    ..
                } ==> ids_within(rows, after.keys.len() as int))
        }),
{
    let (header, opened, opening) = header_spec(sent, view, table);
    lemma_rows_ids(
        header.rows,
        opened,
        view.cells,
        view.cols as int,
        view.rows as int,
        view.palette,
        0,
    );
}

/// The keys of some wire styles, in order.
pub open spec fn keys_of(styles: Seq<WireStyle>) -> Seq<StyleKey> {
    styles.map_values(|style: WireStyle| key_of(style))
}

/// `after` grew from `before` in step: the pending styles `before` had are
/// still pending first, and the keys it gained are exactly the keys of the
/// styles that became pending, in the same order.
pub open spec fn grew_in_step(before: TableView, after: TableView) -> bool {
    &&& before.pending.len() <= after.pending.len()
    &&& after.pending.take(before.pending.len() as int) == before.pending
    &&& after.keys == before.keys + keys_of(after.pending.skip(before.pending.len() as int))
}

proof fn lemma_grew_refl(table: TableView)
    ensures
        grew_in_step(table, table),
{
    assert(table.pending.take(table.pending.len() as int) =~= table.pending);
    assert(keys_of(table.pending.skip(table.pending.len() as int)) =~= Seq::<StyleKey>::empty());
    assert(table.keys + Seq::<StyleKey>::empty() =~= table.keys);
}

proof fn lemma_grew_trans(a: TableView, b: TableView, c: TableView)
    requires
        grew_in_step(a, b),
        grew_in_step(b, c),
    ensures
        grew_in_step(a, c),
{
    let m = a.pending.len() as int;
    let n = b.pending.len() as int;
    assert(c.pending.take(m) =~= c.pending.take(n).take(m));
    assert(c.pending.skip(m) =~= b.pending.skip(m) + c.pending.skip(n)) by {
        assert(c.pending.take(n) == b.pending);
        assert forall|i: int| 0 <= i < c.pending.len() - m implies #[trigger] c.pending.skip(m)[i] == (
        b.pending.skip(m) + c.pending.skip(n))[i] by {
            if i < n - m {
                assert(c.pending[m + i] == c.pending.take(n)[m + i]);
            }
        }
    }
    assert(keys_of(c.pending.skip(m)) =~= keys_of(b.pending.skip(m)) + keys_of(c.pending.skip(n)));
    assert(c.keys =~= a.keys + keys_of(c.pending.skip(m)));
}

proof fn lemma_intern_in_step(table: TableView, style: TerminalStyle, palette: TerminalPalette)
    ensures
        grew_in_step(table, intern_spec(table, style, palette).0),
{
    let key = key_of(wire_of(style, palette, 0));
    if key == default_key() || table.keys.contains(key) {
        lemma_grew_refl(table);
    } else {
        let after = intern_spec(table, style, palette).0;
        let added = after.pending.last();
        assert(key_of(added) == key);
        assert(after.pending.take(table.pending.len() as int) =~= table.pending);
        assert(after.pending.skip(table.pending.len() as int) =~= seq![added]);
        assert(keys_of(seq![added]) =~= seq![key]);
        assert(after.keys =~= table.keys + seq![key]);
    }
}

proof fn lemma_cells_in_step(table: TableView, cells: Seq<CellView>, palette: TerminalPalette)
    ensures
        grew_in_step(table, crate::wire::encode_cells_spec(table, cells, palette).0),
    decreases cells.len(),
{
    if cells.len() == 0 {
        lemma_grew_refl(table);
    } else {
        lemma_cells_in_step(table, cells.drop_last(), palette);
        let (before, _) = crate::wire::encode_cells_spec(table, cells.drop_last(), palette);
        lemma_intern_in_step(before, cells.last().style, palette);
        lemma_grew_trans(table, before, intern_spec(before, cells.last().style, palette).0);
    }
}

proof fn lemma_rows_in_step(
    shown: Seq<Seq<CellView>>,
    table: TableView,
    cells: Seq<CellView>,
    cols: int,
    rows: int,
    palette: TerminalPalette,
    y: int,
)
    ensures
        grew_in_step(table, diff_rows_spec(shown, table, cells, cols, rows, palette, y).1),
    decreases rows - y,
{
    if y < 0 || y >= rows || y * cols + cols > cells.len() {
        lemma_grew_refl(table);
    } else {
        let row = cells.subrange(y * cols, y * cols + cols);
        if shown[y] == row {
            lemma_rows_in_step(shown, table, cells, cols, rows, palette, y + 1);
        } else {
            let (after_row, _) = crate::wire::encode_cells_spec(table, row, palette);
            lemma_cells_in_step(table, row, palette);
            lemma_rows_in_step(shown.update(y, row), after_row, cells, cols, rows, palette, y + 1);
            lemma_grew_trans(
                table,
                after_row,
                diff_rows_spec(shown.update(y, row), after_row, cells, cols, rows, palette, y + 1).1,
            );
        }
    }
}

/// What a client knows of the style table: the palette it was last given and
/// the styles it was sent since that palette.
#[verifier::ext_equal]
pub struct ClientView {
    pub palette: Option<WirePaletteView>,
    pub keys: Seq<StyleKey>,
}

/// A client reading one message: a `ready` with a different palette makes it
/// forget its styles; a `styles` message appends the styles it carries; other
/// messages leave its table alone.
pub open spec fn client_apply(client: ClientView, message: MessageView) -> ClientView {
    match message {
        MessageView::Ready { palette, .. } => ClientView {
            palette: Some(palette),
            keys: if client.palette == Some(palette) {
                client.keys
            } else {
                Seq::empty()
            },
        },
        MessageView::Styles { styles, .. } => ClientView {
            palette: client.palette,
            keys: client.keys + keys_of(styles),
        },
        _ => client,
    }
}

/// A client reading messages in order.
pub open spec fn client_apply_all(client: ClientView, messages: Seq<MessageView>) -> ClientView
    decreases messages.len(),
{
    if messages.len() == 0 {
        client
    } else {
        client_apply_all(client_apply(client, messages[0]), messages.drop_first())
    }
}

proof fn lemma_apply_concat(client: ClientView, a: Seq<MessageView>, b: Seq<MessageView>)
    ensures
        client_apply_all(client, a + b) == client_apply_all(client_apply_all(client, a), b),
    decreases a.len(),
{
    if a.len() > 0 {
        assert((a + b).drop_first() =~= a.drop_first() + b);
        lemma_apply_concat(client_apply(client, a[0]), a.drop_first(), b);
    } else {
        assert(a + b =~= b);
    }
}

proof fn lemma_apply_one(client: ClientView, message: MessageView)
    ensures
        client_apply_all(client, seq![message]) == client_apply(client, message),
{
    let one = seq![message];
    assert(one[0] == message);
    assert(one.drop_first() =~= Seq::<MessageView>::empty());
    let next = client_apply(client, message);
    assert(client_apply_all(next, one.drop_first()) == next);
}

/// The server and its client agree: the client holds the palette last sent
/// and exactly the interned styles, and nothing is waiting to be sent.
pub open spec fn in_sync(sent: SentView, table: TableView, client: ClientView) -> bool {
    &&& client.palette == sent.palette
    &&& client.keys == table.keys
    &&& table.pending.len() == 0
}

/// One diff keeps the client in sync, and every style id its frame uses names
/// a style the client holds once it has read the messages before the frame.
pub proof fn diff_keeps_client_in_sync(
    sent: SentView,
    table: TableView,
    client: ClientView,
    view: ScreenView,
    total: u64,
    scrollback: u64,
)
    requires
        in_sync(sent, table, client),
        table.keys.len() + view.cells.len() + 1 < u32::MAX,
    ensures
        ({
            let (after, after_table, messages) = diff_spec(sent, view, table, total, scrollback);
            let known = client_apply_all(client, messages);
            &&& in_sync(after, after_table, known)
            &&& forall|i: int|
                0 <= i < messages.len() ==> (#[trigger] messages[i] matches MessageView::Frame {
                    rows,
                    ..
                } ==> ids_within(rows, known.keys.len() as int))
        }),
{
    frame_ids_name_sent_styles(sent, view, table, total, scrollback);
    let (header, opened, opening) = header_spec(sent, view, table);
    let cols = view.cols as int;
    let rows = view.rows as int;
    lemma_rows_in_step(header.rows, opened, view.cells, cols, rows, view.palette, 0);
    let (shown, after_rows, changed) = diff_rows_spec(
        header.rows,
        opened,
        view.cells,
        cols,
        rows,
        view.palette,
        0,
    );
    let (after, after_table, messages) = diff_spec(sent, view, table, total, scrollback);
    let palette = crate::wire::palette_view(view.palette);
    let palette_changed = sent.palette != Some(palette);
    // The client after the opening messages holds what the server kept.
    let ready = palette_changed || sent.size != Some((view.cols, view.rows));
    let ready_messages = if ready {
        seq![MessageView::Ready { v: crate::wire::VERSION, cols: view.cols, rows: view.rows, palette }]
    } else {
        Seq::empty()
    };
    let mode_messages = if sent.modes != Some(view.modes) {
        seq![
            MessageView::Modes {
                v: crate::wire::VERSION,
                alternate_screen: view.modes.alternate_screen,
                bracketed_paste: view.modes.bracketed_paste,
                application_cursor: view.modes.application_cursor,
                mouse: view.modes.mouse,
                mouse_encoding: view.modes.mouse_encoding,
            },
        ]
    } else {
        Seq::empty()
    };
    assert(opening =~= ready_messages + mode_messages);
    lemma_apply_concat(client, ready_messages, mode_messages);
    let after_ready = client_apply_all(client, ready_messages);
    if ready {
        lemma_apply_one(client, ready_messages[0]);
        assert(ready_messages =~= seq![ready_messages[0]]);
    }
    assert(after_ready.keys == opened.keys);
    assert(after_ready.palette == Some(palette));
    if mode_messages.len() > 0 {
        lemma_apply_one(after_ready, mode_messages[0]);
        assert(mode_messages =~= seq![mode_messages[0]]);
    }
    let after_opening = client_apply_all(client, opening);
    assert(after_opening == client_apply_all(after_ready, mode_messages));
    assert(after_opening =~= after_ready);
    // Then the styles message, which carries exactly the styles interned.
    assert(opened.pending.len() == 0);
    assert(after_rows.pending.skip(0) =~= after_rows.pending);
    let style_messages = if after_rows.pending.len() > 0 {
        seq![MessageView::Styles { v: crate::wire::VERSION, styles: after_rows.pending }]
    } else {
        Seq::empty()
    };
    let frame = crate::wire::sends_frame(sent, view, table, total, scrollback);
    let seq = if frame {
        (sent.seq + 1) as u64
    } else {
        sent.seq
    };
    let frame_messages = if frame {
        seq![
            MessageView::Frame {
                v: crate::wire::VERSION,
                seq,
                cursor: crate::wire::Cursor {
                    col: view.cursor.col,
                    row: view.cursor.row,
                    visible: view.cursor.visible,
                },
                rows: changed,
                total,
                scrollback,
            },
        ]
    } else {
        Seq::empty()
    };
    assert(messages =~= opening + style_messages + frame_messages);
    lemma_apply_concat(client, opening + style_messages, frame_messages);
    lemma_apply_concat(client, opening, style_messages);
    let after_styles = client_apply_all(after_opening, style_messages);
    if style_messages.len() > 0 {
        lemma_apply_one(after_opening, style_messages[0]);
        assert(style_messages =~= seq![style_messages[0]]);
    } else {
        assert(keys_of(after_rows.pending) =~= Seq::<StyleKey>::empty());
        assert(opened.keys + Seq::<StyleKey>::empty() =~= opened.keys);
    }
    assert(after_styles.keys == after_rows.keys);
    assert(client_apply_all(client, opening + style_messages) == after_styles);
    // The frame changes nothing the client holds.
    if frame {
        lemma_apply_one(after_styles, frame_messages[0]);
        assert(frame_messages =~= seq![frame_messages[0]]);
    }
    let known = client_apply_all(client, messages);
    assert(known =~= after_styles);
}

/// A run of diffs: each step's view and history totals, and what each call
/// sent.
pub open spec fn diff_run(
    sent: SentView,
    table: TableView,
    steps: Seq<(ScreenView, u64, u64)>,
) -> (SentView, TableView, Seq<Seq<MessageView>>)
    decreases steps.len(),
{
    if steps.len() == 0 {
        (sent, table, Seq::empty())
    } else {
        let (s, t, results) = diff_run(sent, table, steps.drop_last());
        let (view, total, scrollback) = steps.last();
        let (s2, t2, messages) = diff_spec(s, view, t, total, scrollback);
        (s2, t2, results.push(messages))
    }
}

/// A client reading the results of a run, call by call.
pub open spec fn client_run(client: ClientView, results: Seq<Seq<MessageView>>) -> ClientView
    decreases results.len(),
{
    if results.len() == 0 {
        client
    } else {
        client_apply_all(client_run(client, results.drop_last()), results.last())
    }
}

/// The number of cells in the largest view of a run.
pub open spec fn cells_bound(steps: Seq<(ScreenView, u64, u64)>, limit: int) -> bool {
    forall|k: int| 0 <= k < steps.len() ==> (#[trigger] steps[k]).0.cells.len() <= limit
}

/// Across any run of diffs on one `Sent` with one style table that nothing
/// else touches, starting in sync with the client (as a fresh `Sent`, a fresh
/// table and a fresh client are): the client stays in sync after every call,
/// and every style id in every frame names a style the client was sent since
/// the last palette change, by the time it reads that frame.
///
/// It is stated for runs whose style table stays below the `u32` identifier
/// space `Sent::diff` requires.
pub proof fn every_frame_id_was_sent_earlier(
    sent: SentView,
    table: TableView,
    client: ClientView,
    steps: Seq<(ScreenView, u64, u64)>,
    limit: int,
)
    requires
        in_sync(sent, table, client),
        cells_bound(steps, limit),
        0 <= limit,
        table.keys.len() + steps.len() * limit + 1 < u32::MAX,
    ensures
        ({
            let (after, after_table, results) = diff_run(sent, table, steps);
            &&& results.len() == steps.len()
            &&& in_sync(after, after_table, client_run(client, results))
            &&& after_table.keys.len() <= table.keys.len() + steps.len() * limit
            &&& forall|k: int, i: int|
                0 <= k < results.len() && 0 <= i < results[k].len() ==> (
                #[trigger] results[k][i] matches MessageView::Frame { rows, .. } ==> ids_within(
                    rows,
                    client_run(client, results.take(k + 1)).keys.len() as int,
                ))
        }),
    decreases steps.len(),
{
    if steps.len() > 0 {
        let prefix = steps.drop_last();
        assert(cells_bound(prefix, limit)) by {
            assert forall|k: int| 0 <= k < prefix.len() implies (#[trigger] prefix[k]).0.cells.len()
                <= limit by {
                assert(prefix[k] == steps[k]);
            }
        }
        assert(prefix.len() * limit <= steps.len() * limit) by (nonlinear_arith)
            requires
                prefix.len() <= steps.len(),
                limit >= 0,
        ;
        every_frame_id_was_sent_earlier(sent, table, client, prefix, limit);
        let (s, t, results) = diff_run(sent, table, prefix);
        let (view, total, scrollback) = steps.last();
        assert(steps.last() == steps[steps.len() - 1]);
        assert(steps.len() * limit == prefix.len() * limit + limit) by (nonlinear_arith)
            requires
                prefix.len() + 1 == steps.len(),
        ;
        let known = client_run(client, results);
        diff_keeps_client_in_sync(s, t, known, view, total, scrollback);
        lemma_rows_ids(
            header_spec(s, view, t).0.rows,
            header_spec(s, view, t).1,
            view.cells,
            view.cols as int,
            view.rows as int,
            view.palette,
            0,
        );
        let (s2, t2, messages) = diff_spec(s, view, t, total, scrollback);
        let all = results.push(messages);
        assert(all.drop_last() =~= results);
        assert forall|k: int, i: int|
            0 <= k < all.len() && 0 <= i < all[k].len() implies (#[trigger] all[k][i] matches MessageView::Frame {
                rows,
                ..
            } ==> ids_within(rows, client_run(client, all.take(k + 1)).keys.len() as int)) by {
            if k < results.len() {
                assert(all.take(k + 1) =~= results.take(k + 1));
                assert(all[k] == results[k]);
            } else {
                assert(all.take(k + 1) =~= all);
                assert(all.take(k + 1).drop_last() =~= results);
            }
        }
    }
}

/// Whether `value` is what the client should paint for `color`: nothing for
/// the default colour, the palette entry for an indexed one, and the literal
/// red, green and blue for an RGB one.
pub open spec fn paints(value: Option<[u8; 3]>, color: TerminalColor, palette: TerminalPalette) -> bool {
    match color {
        TerminalColor::Default => value is None,
        TerminalColor::Palette(index) => value == Some(palette.indexed@[index as int]),
        TerminalColor::Rgb(r, g, b) => value matches Some(rgb) && rgb@ == seq![r, g, b],
    }
}

/// Interning gives id 0 exactly to the plain style (default colours, no
/// attribute, plain underline); any other style gets a nonzero id naming a
/// table entry that carries its resolved foreground and background and its
/// attributes, and a style queued to be sent carries the same, with that id.
pub proof fn interned_styles_carry_their_colours(
    table: TableView,
    style: TerminalStyle,
    palette: TerminalPalette,
)
    requires
        table.keys.len() + 1 < u32::MAX,
    ensures
        ({
            let (after, id) = intern_spec(table, style, palette);
            &&& id == 0 <==> {
                &&& style.foreground is Default
                &&& style.background is Default
                &&& !style.bold && !style.italic && !style.faint && !style.inverse
                &&& !style.invisible && !style.strikethrough && !style.overline
                &&& style.underline == Underline::Plain
            }
            &&& id != 0 ==> {
                let key = after.keys[id - 1];
                &&& id <= after.keys.len()
                &&& paints(key.fg, style.foreground, palette)
                &&& paints(key.bg, style.background, palette)
                &&& key.bold == style.bold && key.italic == style.italic && key.faint == style.faint
                &&& key.inverse == style.inverse && key.invisible == style.invisible
                &&& key.strikethrough == style.strikethrough && key.overline == style.overline
                &&& key.underline == style.underline
            }
            &&& after.pending.len() > table.pending.len() ==> {
                let queued = after.pending.last();
                &&& queued.id == id
                &&& paints(queued.fg, style.foreground, palette)
                &&& paints(queued.bg, style.background, palette)
            }
        }),
{
    let wire = wire_of(style, palette, 0);
    let key = key_of(wire);
    match style.foreground {
        TerminalColor::Rgb(r, g, b) => {
            assert(crate::wire::array_rgb(r, g, b)@ =~= seq![r, g, b]);
        },
        _ => {},
    }
    match style.background {
        TerminalColor::Rgb(r, g, b) => {
            assert(crate::wire::array_rgb(r, g, b)@ =~= seq![r, g, b]);
        },
        _ => {},
    }
    if key != default_key() {
        if table.keys.contains(key) {
            let i = table.keys.index_of(key);
            assert(table.keys[i] == key);
        } else {
            let (after, id) = intern_spec(table, style, palette);
            assert(after.keys[id - 1] == key);
        }
    }
}

/// The `modes` message reports the view's modes: a diff sends one exactly
/// when the modes differ from those last shown, every `modes` message it
/// sends carries each of the view's mode fields unchanged, and afterwards the
/// view's modes count as shown.
pub proof fn modes_message_reports_the_view_modes(
    sent: SentView,
    view: ScreenView,
    table: TableView,
    total: u64,
    scrollback: u64,
)
    ensures
        ({
            let (after, _, messages) = diff_spec(sent, view, table, total, scrollback);
            &&& after.modes == Some(view.modes)
            &&& (exists|i: int| 0 <= i < messages.len() && (#[trigger] messages[i]) is Modes) <==> sent.modes
                != Some(view.modes)
            &&& forall|i: int|
                0 <= i < messages.len() ==> (#[trigger] messages[i] matches MessageView::Modes {
                    alternate_screen,
                    bracketed_paste,
                    application_cursor,
                    mouse,
                    mouse_encoding,
                    ..
                } ==> {
                    &&& alternate_screen == view.modes.alternate_screen
                    &&& bracketed_paste == view.modes.bracketed_paste
                    &&& application_cursor == view.modes.application_cursor
                    &&& mouse == view.modes.mouse
                    &&& mouse_encoding == view.modes.mouse_encoding
                })
        }),
{
    let (header, opened, opening) = header_spec(sent, view, table);
    let (shown, after_rows, changed) = diff_rows_spec(
        header.rows,
        opened,
        view.cells,
        view.cols as int,
        view.rows as int,
        view.palette,
        0,
    );
    let (after, after_table, messages) = diff_spec(sent, view, table, total, scrollback);
    let palette = crate::wire::palette_view(view.palette);
    let ready = sent.palette != Some(palette) || sent.size != Some((view.cols, view.rows));
    let r: int = if ready {
        1
    } else {
        0
    };
    let style_count: int = if after_rows.pending.len() > 0 {
        1
    } else {
        0
    };
    let rest = messages.skip(opening.len() as int);
    assert(messages =~= opening + rest);
    assert forall|i: int| 0 <= i < rest.len() implies !(#[trigger] rest[i] is Modes) by {
        if i < style_count {
            assert(rest[i] is Styles);
        } else {
            assert(rest[i] is Frame);
        }
    }
    assert forall|i: int| 0 <= i < messages.len() && (#[trigger] messages[i]) is Modes implies i == r
        && sent.modes != Some(view.modes) by {
        if i >= opening.len() {
            assert(messages[i] == rest[i - opening.len()]);
        } else if i < r {
            assert(messages[i] is Ready);
        }
    }
    if sent.modes != Some(view.modes) {
        assert(messages[r] is Modes);
    }
}

/// Whether `palette` is the wire form of the view's palette, entry for entry.
pub open spec fn shows_palette(palette: crate::wire::WirePaletteView, view: ScreenView) -> bool {
    &&& palette.foreground == view.palette.foreground
    &&& palette.background == view.palette.background
    &&& palette.cursor == view.palette.cursor
    &&& palette.indexed == view.palette.indexed@
}

/// The `ready` and `frame` messages report the view: a diff sends `ready`
/// exactly when the palette or the geometry differs from what was last shown,
/// and it comes first, with the view's columns, rows and palette; a `frame`
/// comes last, with the view's cursor and the given history totals, numbered
/// one past the last frame (below the largest frame number, which `Sent::diff`
/// requires), and the frame number moves only when a frame is sent. Afterwards the view's geometry, palette, cursor and totals count as
/// shown.
pub proof fn ready_and_frame_report_the_view(
    sent: SentView,
    view: ScreenView,
    table: TableView,
    total: u64,
    scrollback: u64,
)
    ensures
        ({
            let (after, _, messages) = diff_spec(sent, view, table, total, scrollback);
            let regeometry = !(sent.palette matches Some(shown) && shows_palette(shown, view))
                || sent.size != Some((view.cols, view.rows));
            let framed = exists|i: int| 0 <= i < messages.len() && (#[trigger] messages[i]) is Frame;
            &&& (exists|i: int| 0 <= i < messages.len() && (#[trigger] messages[i]) is Ready) <==> regeometry
            &&& regeometry ==> messages[0] is Ready
            &&& framed ==> messages.last() is Frame
            &&& forall|i: int|
                0 <= i < messages.len() ==> (#[trigger] messages[i] matches MessageView::Ready {
                    cols,
                    rows,
                    palette,
                    ..
                } ==> cols == view.cols && rows == view.rows && shows_palette(palette, view))
            &&& forall|i: int|
                0 <= i < messages.len() ==> (#[trigger] messages[i] matches MessageView::Frame {
                    seq,
                    cursor,
                    total: frame_total,
                    scrollback: frame_scrollback,
                    ..
                } ==> {
                    &&& sent.seq < u64::MAX ==> seq == sent.seq + 1
                    &&& cursor.col == view.cursor.col && cursor.row == view.cursor.row
                    &&& cursor.visible == view.cursor.visible
                    &&& frame_total == total && frame_scrollback == scrollback
                })
            &&& framed && sent.seq < u64::MAX ==> after.seq == sent.seq + 1
            &&& !framed ==> after.seq == sent.seq
            &&& after.size == Some((view.cols, view.rows))
            &&& after.palette matches Some(shown) && shows_palette(shown, view)
            &&& after.cursor == Some(view.cursor)
            &&& after.totals == Some((total, scrollback))
        }),
{
    let (header, opened, opening) = header_spec(sent, view, table);
    let (shown_rows, after_rows, changed) = diff_rows_spec(
        header.rows,
        opened,
        view.cells,
        view.cols as int,
        view.rows as int,
        view.palette,
        0,
    );
    let (after, after_table, messages) = diff_spec(sent, view, table, total, scrollback);
    let palette = crate::wire::palette_view(view.palette);
    assert(shows_palette(palette, view));
    assert(sent.palette matches Some(shown) && shows_palette(shown, view) <==> sent.palette == Some(palette)) by {
        if sent.palette is Some {
            let earlier = sent.palette->0;
            if shows_palette(earlier, view) {
                assert(earlier.indexed =~= palette.indexed);
                assert(earlier == palette);
            }
        }
    }
    let ready = sent.palette != Some(palette) || sent.size != Some((view.cols, view.rows));
    let r: int = if ready {
        1
    } else {
        0
    };
    let frame = crate::wire::sends_frame(sent, view, table, total, scrollback);
    let head_len = messages.len() - if frame {
        1int
    } else {
        0int
    };
    assert forall|i: int| 0 <= i < messages.len() && (#[trigger] messages[i]) is Ready implies i == 0
        && ready by {
        if i >= r && i < opening.len() {
            assert(messages[i] is Modes);
        } else if i >= opening.len() && i < head_len {
            assert(messages[i] is Styles);
        } else if i >= head_len {
            assert(messages[i] is Frame);
        }
    }
    assert forall|i: int| 0 <= i < messages.len() && (#[trigger] messages[i]) is Frame implies i
        == messages.len() - 1 && frame by {
        if i < r {
            assert(messages[i] is Ready);
        } else if i < opening.len() {
            assert(messages[i] is Modes);
        } else if i < head_len {
            assert(messages[i] is Styles);
        }
    }
    if ready {
        assert(messages[0] is Ready);
    }
    if frame {
        assert(messages[messages.len() - 1] is Frame);
    }
}

} // verus!
