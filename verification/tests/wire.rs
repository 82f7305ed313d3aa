use pty_runtime_application::base64::base64;
use pty_runtime_application::terminal::{
    MouseEncoding, MouseTracking, TerminalCell, TerminalColor, TerminalCursor, TerminalHistory,
    TerminalModes, TerminalPalette, TerminalSize, TerminalStyle, TerminalView, Underline,
};
use pty_runtime_application::wire::{
    color, encode_history, encode_row, mouse_encoding_name, mouse_name, underline_name,
    ClientMessage, Sent, ServerMessage, StyleTable, WirePalette, VERSION,
};

fn plain() -> TerminalStyle {
    TerminalStyle {
        foreground: TerminalColor::Default,
        background: TerminalColor::Default,
        bold: false,
        italic: false,
        faint: false,
        inverse: false,
        invisible: false,
        strikethrough: false,
        overline: false,
        underline: Underline::Plain,
    }
}

fn bold() -> TerminalStyle {
    TerminalStyle { bold: true, ..plain() }
}

fn red() -> TerminalStyle {
    TerminalStyle { foreground: TerminalColor::Rgb(255, 0, 0), ..plain() }
}

fn palette() -> TerminalPalette {
    let mut indexed = [[0u8; 3]; 256];
    for (index, entry) in indexed.iter_mut().enumerate() {
        *entry = [index as u8, 0, 255 - index as u8];
    }
    TerminalPalette { foreground: Some([1, 2, 3]), background: None, cursor: None, indexed }
}

fn cell(text: &str, style: TerminalStyle) -> TerminalCell {
    TerminalCell { text: text.to_owned(), width: 1, style }
}

fn modes() -> TerminalModes {
    TerminalModes {
        alternate_screen: false,
        bracketed_paste: true,
        application_cursor: false,
        mouse: MouseTracking::Disabled,
        mouse_encoding: MouseEncoding::Sgr,
    }
}

fn view(cols: u16, rows: u16, text: &str, style: TerminalStyle) -> TerminalView {
    let mut cells = Vec::new();
    let chars: Vec<char> = text.chars().collect();
    for index in 0..(cols as usize * rows as usize) {
        let text = chars.get(index).map(|c| c.to_string()).unwrap_or_else(|| " ".to_owned());
        cells.push(TerminalCell { text, width: 1, style });
    }
    TerminalView {
        size: TerminalSize { cols, rows },
        cells,
        cursor: TerminalCursor { col: 0, row: 0, visible: true },
        modes: modes(),
        palette: palette(),
    }
}

fn kinds(messages: &[ServerMessage]) -> Vec<&'static str> {
    messages
        .iter()
        .map(|message| match message {
            ServerMessage::Ready { .. } => "ready",
            ServerMessage::Styles { .. } => "styles",
            ServerMessage::Modes { .. } => "modes",
            ServerMessage::Frame { .. } => "frame",
            ServerMessage::History { .. } => "history",
            ServerMessage::Exit { .. } => "exit",
            ServerMessage::Error { .. } => "error",
        })
        .collect()
}

#[test]
fn client_message_version_is_read_from_every_variant() {
    assert_eq!(ClientMessage::Hello { v: 1, cols: 80, rows: 24 }.version(), 1);
    assert_eq!(ClientMessage::Input { v: 2, data: String::new() }.version(), 2);
    assert_eq!(ClientMessage::Resize { v: 3, cols: 1, rows: 1 }.version(), 3);
    assert_eq!(ClientMessage::History { v: 4, start: 0, count: 9 }.version(), 4);
}

#[test]
fn colours_resolve_against_the_palette() {
    let palette = palette();
    assert_eq!(color(&TerminalColor::Default, &palette), None);
    assert_eq!(color(&TerminalColor::Palette(7), &palette), Some([7, 0, 248]));
    assert_eq!(color(&TerminalColor::Rgb(9, 8, 7), &palette), Some([9, 8, 7]));
}

#[test]
fn wire_names_match_the_protocol() {
    assert_eq!(underline_name(Underline::Plain), "");
    assert_eq!(underline_name(Underline::Curly), "curly");
    assert_eq!(mouse_name(MouseTracking::Disabled), "none");
    assert_eq!(mouse_name(MouseTracking::PressRelease), "press_release");
    assert_eq!(mouse_encoding_name(MouseEncoding::Legacy), "legacy");
}

#[test]
fn default_style_is_zero_and_new_styles_count_from_one() {
    let mut table = StyleTable::new();
    let palette = palette();
    assert_eq!(table.intern(&plain(), &palette), 0);
    assert_eq!(table.intern(&bold(), &palette), 1);
    assert_eq!(table.intern(&red(), &palette), 2);
    assert_eq!(table.intern(&bold(), &palette), 1);
    let pending = table.take_pending();
    assert_eq!(pending.len(), 2);
    assert_eq!(pending[0].id, 1);
    assert!(pending[0].bold);
    assert_eq!(pending[1].id, 2);
    assert_eq!(pending[1].fg, Some([255, 0, 0]));
    assert!(table.take_pending().is_empty());
    assert_eq!(table.intern(&red(), &palette), 2);
    assert!(table.take_pending().is_empty());
}

#[test]
fn clearing_the_table_restarts_identifiers() {
    let mut table = StyleTable::default();
    let palette = palette();
    assert_eq!(table.intern(&red(), &palette), 1);
    table.clear();
    assert!(table.take_pending().is_empty());
    assert_eq!(table.intern(&bold(), &palette), 1);
    assert_eq!(table.take_pending().len(), 1);
}

#[test]
fn palette_colours_with_the_same_rgb_share_an_identifier() {
    let mut table = StyleTable::new();
    let palette = palette();
    let by_index = TerminalStyle { foreground: TerminalColor::Palette(3), ..plain() };
    let by_rgb = TerminalStyle { foreground: TerminalColor::Rgb(3, 0, 252), ..plain() };
    assert_eq!(table.intern(&by_index, &palette), 1);
    assert_eq!(table.intern(&by_rgb, &palette), 1);
}

#[test]
fn encoded_rows_carry_text_width_and_style() {
    let mut table = StyleTable::new();
    let palette = palette();
    let cells = vec![cell("a", plain()), TerminalCell { text: "界".to_owned(), width: 2, style: bold() }];
    let row = encode_row(&cells, &mut table, &palette);
    assert_eq!(row.y, 0);
    assert_eq!(row.cells, vec![("a".to_owned(), 1, 0), ("界".to_owned(), 2, 1)]);
}

#[test]
fn history_rows_are_numbered_absolutely_and_the_last_may_be_short() {
    let mut table = StyleTable::new();
    let palette = palette();
    let history = TerminalHistory {
        cols: 2,
        start: 7,
        total: 40,
        scrollback: 30,
        cells: vec![cell("a", plain()), cell("b", bold()), cell("c", plain()), cell("d", bold()), cell("e", red())],
    };
    let (rows, styles) = encode_history(&history, &mut table, &palette);
    assert_eq!(rows.len(), 3);
    assert_eq!(rows[0].y, 7);
    assert_eq!(rows[1].y, 8);
    assert_eq!(rows[2].y, 9);
    assert_eq!(rows[2].cells, vec![("e".to_owned(), 1, 2)]);
    assert_eq!(styles.len(), 2);
    assert!(table.take_pending().is_empty());
}

#[test]
fn history_row_numbers_saturate_at_u16_max() {
    let mut table = StyleTable::new();
    let history = TerminalHistory {
        cols: 1,
        start: 65_534,
        total: 3,
        scrollback: 0,
        cells: vec![cell("a", plain()), cell("b", plain()), cell("c", plain())],
    };
    let (rows, _) = encode_history(&history, &mut table, &palette());
    assert_eq!(rows.iter().map(|row| row.y).collect::<Vec<_>>(), vec![65_534, 65_535, 65_535]);
}

#[test]
fn zero_column_history_encodes_nothing() {
    let mut table = StyleTable::new();
    let history = TerminalHistory { cols: 0, start: 0, total: 0, scrollback: 0, cells: vec![cell("a", bold())] };
    let (rows, styles) = encode_history(&history, &mut table, &palette());
    assert!(rows.is_empty());
    assert!(styles.is_empty());
}

#[test]
fn first_diff_sends_ready_modes_styles_then_frame() {
    let mut sent = Sent::default();
    let mut table = StyleTable::new();
    let screen = view(2, 2, "hi", bold());
    let messages = sent.diff(&screen, &mut table, 2, 0);
    assert_eq!(kinds(&messages), vec!["ready", "modes", "styles", "frame"]);
    match &messages[0] {
        ServerMessage::Ready { v, cols, rows, palette } => {
            assert_eq!((*v, *cols, *rows), (VERSION, 2, 2));
            assert_eq!(palette.foreground, Some([1, 2, 3]));
            assert_eq!(palette.indexed.len(), 256);
        }
        _ => unreachable!(),
    }
    match &messages[3] {
        ServerMessage::Frame { seq, rows, total, scrollback, .. } => {
            assert_eq!(*seq, 1);
            assert_eq!(rows.len(), 2);
            assert_eq!(rows[1].y, 1);
            assert_eq!(rows[0].cells[0], ("h".to_owned(), 1, 1));
            assert_eq!((*total, *scrollback), (2, 0));
        }
        _ => unreachable!(),
    }
    assert_eq!(sent.seq(), 1);
}

#[test]
fn repeating_the_same_view_sends_nothing() {
    let mut sent = Sent::new();
    let mut table = StyleTable::new();
    let screen = view(3, 2, "abcdef", red());
    assert!(!sent.diff(&screen, &mut table, 5, 1).is_empty());
    assert!(sent.diff(&screen, &mut table, 5, 1).is_empty());
    assert_eq!(sent.seq(), 1);
}

#[test]
fn only_changed_rows_and_cursor_moves_are_sent() {
    let mut sent = Sent::new();
    let mut table = StyleTable::new();
    let mut screen = view(2, 3, "aabbcc", plain());
    sent.diff(&screen, &mut table, 3, 0);
    screen.cells[3] = cell("x", bold());
    let messages = sent.diff(&screen, &mut table, 3, 0);
    assert_eq!(kinds(&messages), vec!["styles", "frame"]);
    match &messages[1] {
        ServerMessage::Frame { seq, rows, .. } => {
            assert_eq!(*seq, 2);
            assert_eq!(rows.len(), 1);
            assert_eq!(rows[0].y, 1);
            assert_eq!(rows[0].cells[1], ("x".to_owned(), 1, 1));
        }
        _ => unreachable!(),
    }
    screen.cursor = TerminalCursor { col: 1, row: 2, visible: false };
    let moved = sent.diff(&screen, &mut table, 3, 0);
    assert_eq!(kinds(&moved), vec!["frame"]);
    match &moved[0] {
        ServerMessage::Frame { rows, cursor, .. } => {
            assert!(rows.is_empty());
            assert_eq!((cursor.col, cursor.row, cursor.visible), (1, 2, false));
        }
        _ => unreachable!(),
    }
    let grown = sent.diff(&screen, &mut table, 4, 1);
    assert_eq!(kinds(&grown), vec!["frame"]);
}

#[test]
fn resize_resends_ready_and_every_row_but_keeps_style_ids() {
    let mut sent = Sent::new();
    let mut table = StyleTable::new();
    sent.diff(&view(2, 1, "ab", bold()), &mut table, 1, 0);
    let messages = sent.diff(&view(3, 2, "abcdef", bold()), &mut table, 2, 0);
    assert_eq!(kinds(&messages), vec!["ready", "frame"]);
    match &messages[1] {
        ServerMessage::Frame { rows, .. } => {
            assert_eq!(rows.len(), 2);
            assert_eq!(rows[0].cells[0].2, 1);
        }
        _ => unreachable!(),
    }
}

#[test]
fn palette_change_drops_the_style_table() {
    let mut sent = Sent::new();
    let mut table = StyleTable::new();
    let mut screen = view(1, 1, "a", red());
    sent.diff(&screen, &mut table, 1, 0);
    screen.palette.background = Some([9, 9, 9]);
    let messages = sent.diff(&screen, &mut table, 1, 0);
    assert_eq!(kinds(&messages), vec!["ready", "styles", "frame"]);
    match &messages[1] {
        ServerMessage::Styles { styles, .. } => {
            assert_eq!(styles.len(), 1);
            assert_eq!(styles[0].id, 1);
        }
        _ => unreachable!(),
    }
}

#[test]
fn modes_change_alone_sends_only_modes() {
    let mut sent = Sent::new();
    let mut table = StyleTable::new();
    let mut screen = view(1, 1, "a", plain());
    sent.diff(&screen, &mut table, 1, 0);
    screen.modes.mouse = MouseTracking::AnyMotion;
    let messages = sent.diff(&screen, &mut table, 1, 0);
    assert_eq!(kinds(&messages), vec!["modes"]);
    match &messages[0] {
        ServerMessage::Modes { mouse, mouse_encoding, .. } => {
            assert_eq!(mouse_name(*mouse), "any_motion");
            assert_eq!(mouse_encoding_name(*mouse_encoding), "sgr");
        }
        _ => unreachable!(),
    }
}

#[test]
fn short_cell_buffer_stops_at_the_first_uncovered_row() {
    let mut sent = Sent::new();
    let mut table = StyleTable::new();
    let mut screen = view(2, 3, "abcdef", plain());
    screen.cells.truncate(3);
    let messages = sent.diff(&screen, &mut table, 3, 0);
    match messages.last() {
        Some(ServerMessage::Frame { rows, .. }) => assert_eq!(rows.len(), 1),
        _ => unreachable!(),
    }
}

#[test]
fn wire_palette_equality_compares_every_entry() {
    let first = WirePalette::from_palette(&palette());
    let mut other = palette();
    assert!(first.same(&WirePalette::from_palette(&other)));
    other.indexed[255] = [0, 0, 0];
    assert!(!first.same(&WirePalette::from_palette(&other)));
}

#[test]
fn base64_decodes_standard_groups() {
    assert_eq!(base64("TWFu"), b"Man".to_vec());
    assert_eq!(base64("aGVsbG8="), b"hello".to_vec());
    assert_eq!(base64("AP8="), vec![0x00, 0xff]);
    assert_eq!(base64("+/+/"), vec![0xfb, 0xff, 0xbf]);
}

#[test]
fn base64_ignores_bytes_outside_the_alphabet() {
    assert_eq!(base64("T W\nF*u"), b"Man".to_vec());
    assert_eq!(base64("!!!"), Vec::<u8>::new());
    assert_eq!(base64(""), Vec::<u8>::new());
    assert_eq!(base64("é"), Vec::<u8>::new());
}

#[test]
fn base64_drops_trailing_partial_bits() {
    assert_eq!(base64("T").len(), 0);
    assert_eq!(base64("TW").len(), 1);
    assert_eq!(base64("TWF").len(), 2);
    assert_eq!(base64("TWFuT").len(), 3);
}

#[test]
fn standard_base64_with_padding_decodes_back() {
    assert_eq!(base64("aGVsbG8="), b"hello".to_vec());
    assert_eq!(base64("aGk="), b"hi".to_vec());
    assert_eq!(base64("aGV5"), b"hey".to_vec());
    assert_eq!(base64("aA=="), b"h".to_vec());
    assert_eq!(base64(""), Vec::<u8>::new());
    assert_eq!(base64("/+8A"), vec![0xff, 0xef, 0x00]);
}

#[test]
fn bytes_outside_the_alphabet_are_skipped_anywhere() {
    assert_eq!(base64(" aG\nVs-bG8 = "), b"hello".to_vec());
    assert_eq!(base64("a"), Vec::<u8>::new());
}

/// A client that keeps the styles it was sent since the last palette, as a
/// browser does, and checks every frame against them.
struct Client {
    palette: Option<WirePalette>,
    known: Vec<u32>,
}

impl Client {
    fn read(&mut self, messages: Vec<ServerMessage>) {
        for message in messages {
            match message {
                ServerMessage::Ready { palette, .. } => {
                    let kept = match &self.palette {
                        Some(previous) => previous.same(&palette),
                        None => false,
                    };
                    if !kept {
                        self.known.clear();
                    }
                    self.palette = Some(palette);
                }
                ServerMessage::Styles { styles, .. } => {
                    for style in styles {
                        self.known.push(style.id);
                    }
                }
                ServerMessage::Frame { rows, .. } => {
                    for row in rows {
                        for (_, _, id) in row.cells {
                            assert!(id == 0 || self.known.contains(&id), "style {id} was never sent");
                        }
                    }
                }
                _ => {}
            }
        }
    }
}

#[test]
fn every_frame_style_id_was_sent_since_the_last_palette() {
    let mut sent = Sent::new();
    let mut table = StyleTable::new();
    let mut client = Client { palette: None, known: Vec::new() };
    let mut screen = view(2, 2, "abcd", bold());
    client.read(sent.diff(&screen, &mut table, 2, 0));
    assert_eq!(client.known, vec![1]);
    screen.cells[1] = cell("x", red());
    client.read(sent.diff(&screen, &mut table, 2, 0));
    assert_eq!(client.known, vec![1, 2]);
    screen.palette.background = Some([4, 5, 6]);
    client.read(sent.diff(&screen, &mut table, 2, 0));
    assert_eq!(client.known, vec![1, 2]);
    screen.cells[2] = cell("y", plain());
    screen.cells[3] = cell("z", red());
    client.read(sent.diff(&screen, &mut table, 3, 0));
    screen.size = TerminalSize { cols: 1, rows: 4 };
    client.read(sent.diff(&screen, &mut table, 3, 0));
    assert_eq!(client.known, vec![1, 2]);
    assert_eq!(table.len(), 2);
}
