use pc_keyboard::{DecodedKey, KeyCode};
use swim_editor::display::{safe_add, PlotCmd, TextColor};
use swim_editor::document::Document;
use swim_editor::interface::{RawKey, SwimInterface};

#[test]
fn append_within_margin_advances_column() {
    let mut d = Document::default();
    d.append('h');
    assert_eq!(d.cursor_col(), 1);
    assert_eq!(d.cursor_row(), 0);
    assert_eq!(d.char_at(0, 0), 'h');
    d.append('i');
    assert_eq!(d.cursor_col(), 2);
    assert_eq!(d.cursor_row(), 0);
    assert_eq!(d.char_at(0, 1), 'i');
}

#[test]
fn wrap_on_margin_relocates_character() {
    let mut d = Document::default();
    // The right margin is four columns wide: the 29th character fills the
    // last writable column of row 0, the 30th wraps.
    for _ in 0..29 {
        d.append('a');
    }
    assert_eq!(d.cursor_col(), 29);
    assert_eq!(d.cursor_row(), 0);
    assert_eq!(d.char_at(0, 28), 'a');
    d.append('b');
    assert_eq!(d.cursor_row(), 1);
    assert_eq!(d.cursor_col(), 1);
    assert_eq!(d.char_at(1, 0), 'b');
}

#[test]
fn newline_wraps_without_storing_a_glyph() {
    let mut d = Document::default();
    d.append('\n');
    assert_eq!(d.cursor_row(), 1);
    assert_eq!(d.cursor_col(), 0);
    assert_eq!(d.char_at(1, 0), ' ');
}

#[test]
fn capacity_ceiling_drops_silently() {
    let mut d = Document::default();
    // Row index 7 is the last writable row (height 10, two rows of margin).
    for _ in 0..7 {
        d.append('\n');
    }
    assert_eq!(d.cursor_row(), 7);
    for _ in 0..29 {
        d.append('a');
    }
    assert_eq!(d.cursor_col(), 29);
    // A wrap is now required but no row remains: both a character and a
    // newline are dropped, leaving the document unchanged.
    d.append('z');
    assert_eq!(d.cursor_row(), 7);
    assert_eq!(d.cursor_col(), 29);
    assert_eq!(d.char_at(7, 28), 'a');
    d.append('\n');
    assert_eq!(d.cursor_row(), 7);
    assert_eq!(d.cursor_col(), 29);
}

#[test]
fn window_isolation_under_append() {
    let mut s = SwimInterface::default();
    s.modify_document('x');
    assert_eq!(s.window(0).char_at(0, 0), 'x');
    for w in 1..4 {
        assert!(s.window(w).is_empty());
        assert_eq!(s.window(w).char_at(0, 0), ' ');
        assert_eq!(s.window(w).origin_col(), 3);
        assert_eq!(s.window(w).origin_row(), 4);
    }
}

#[test]
fn focus_relocation_fires_once() {
    let mut s = SwimInterface::default();
    s.handle_raw(RawKey::F3);
    assert_eq!(s.current_window(), 2);
    assert_eq!(s.window(2).origin_row(), 13);
    assert_eq!(s.window(2).origin_col(), 3);
    let _ = s.handle_unicode('x');
    s.handle_raw(RawKey::F1);
    s.handle_raw(RawKey::F3);
    assert_eq!(s.window(2).origin_row(), 13);
    assert_eq!(s.window(2).origin_col(), 3);
}

#[test]
fn each_window_relocates_to_its_own_corner() {
    let mut s = SwimInterface::default();
    s.handle_raw(RawKey::F2);
    assert_eq!(s.window(1).origin_col(), 26);
    assert_eq!(s.window(1).origin_row(), 4);
    s.handle_raw(RawKey::F4);
    assert_eq!(s.window(3).origin_col(), 26);
    assert_eq!(s.window(3).origin_row(), 13);
    // F1's window keeps the default origin even on first focus.
    s.handle_raw(RawKey::F1);
    assert_eq!(s.window(0).origin_col(), 3);
    assert_eq!(s.window(0).origin_row(), 4);
}

#[test]
fn nonempty_window_keeps_its_origin() {
    let mut s = SwimInterface::default();
    // Focus window 1, type into it, focus away and back: the origin moved
    // on the first focus and never again.
    s.handle_raw(RawKey::F2);
    let _ = s.handle_unicode('q');
    s.handle_raw(RawKey::F1);
    s.handle_raw(RawKey::F2);
    assert_eq!(s.window(1).origin_col(), 26);
    assert_eq!(s.window(1).char_at(0, 0), 'q');
}

#[test]
fn raw_other_keys_are_ignored() {
    let mut s = SwimInterface::default();
    s.handle_raw(RawKey::Other);
    assert_eq!(s.current_window(), 0);
    for w in 0..4 {
        assert!(s.window(w).is_empty());
    }
}

#[test]
fn non_drawable_characters_are_ignored() {
    let mut s = SwimInterface::default();
    let cmds = s.handle_unicode('\u{7}');
    assert!(cmds.is_empty());
    assert!(s.window(0).is_empty());
}

#[test]
fn drawable_test_truncates_the_code_point() {
    // is_drawable works on the code point truncated to a byte: U+0141
    // truncates to 0x41, inside the printable range, and is committed;
    // U+20AC truncates to 0xAC, outside it, and is ignored.
    let mut s = SwimInterface::default();
    let _ = s.handle_unicode('\u{141}');
    assert_eq!(s.window(0).char_at(0, 0), '\u{141}');
    assert_eq!(s.window(0).cursor_col(), 1);
    let cmds = s.handle_unicode('\u{20ac}');
    assert!(cmds.is_empty());
    assert_eq!(s.window(0).cursor_col(), 1);
}

#[test]
fn decoded_keys_reach_the_editor() {
    let mut s = SwimInterface::default();
    let _ = s.key(DecodedKey::RawKey(KeyCode::F2));
    assert_eq!(s.current_window(), 1);
    assert_eq!(s.window(1).origin_col(), 26);
    let _ = s.key(DecodedKey::Unicode('k'));
    assert_eq!(s.window(1).char_at(0, 0), 'k');
    // A named key the editor does not handle changes nothing.
    let _ = s.key(DecodedKey::RawKey(KeyCode::Escape));
    assert_eq!(s.current_window(), 1);
}

#[test]
fn safe_add_wraps_at_the_limit() {
    assert_eq!(safe_add::<80>(3, 4), 7);
    assert_eq!(safe_add::<80>(79, 5), 4);
    assert_eq!(safe_add::<80>(80, 0), 0);
    assert_eq!(safe_add::<80>(160, 7), 7);
}

#[test]
fn end_to_end_scenario() {
    let mut s = SwimInterface::default();
    for c in ['h', 'i', '\n', 'x'] {
        let _ = s.key(DecodedKey::Unicode(c));
    }
    assert_eq!(s.window(0).char_at(0, 0), 'h');
    assert_eq!(s.window(0).char_at(0, 1), 'i');
    assert_eq!(s.window(0).char_at(1, 0), 'x');
    assert_eq!(s.window(0).cursor_row(), 1);
    assert_eq!(s.window(0).cursor_col(), 1);

    let cmds = s.tick();
    // Erase step: one glyph cell of the live row, then the cursor cell.
    assert_eq!(cmds[0], PlotCmd {
        glyph: ' ',
        x: 3,
        y: 4,
        fg: TextColor::Black,
        bg: TextColor::Black,
    });
    assert_eq!(cmds[1], PlotCmd {
        glyph: ' ',
        x: 4,
        y: 5,
        fg: TextColor::Black,
        bg: TextColor::Black,
    });
    // Redraw step: window 0's grid cells sit at origin (3, 4), row-major,
    // 33 cells per row, starting right after the two erase commands.
    let base = 2;
    assert_eq!(cmds[base], PlotCmd {
        glyph: 'h',
        x: 3,
        y: 4,
        fg: TextColor::Cyan,
        bg: TextColor::Black,
    });
    assert_eq!(cmds[base + 1].glyph, 'i');
    assert_eq!(cmds[base + 1].x, 4);
    assert_eq!(cmds[base + 33].glyph, 'x');
    assert_eq!(cmds[base + 33].x, 3);
    assert_eq!(cmds[base + 33].y, 5);
    // Every other cell of window 0, and every cell of windows 1 to 3, is
    // blank: no stray glyphs.
    for r in 0..10 {
        for c in 0..33 {
            if !((r, c) == (0, 0) || (r, c) == (0, 1) || (r, c) == (1, 0)) {
                assert_eq!(cmds[base + r * 33 + c].glyph, ' ');
            }
        }
    }
    for w in 1..4 {
        for i in 0..330 {
            assert_eq!(cmds[base + w * 330 + i].glyph, ' ');
        }
    }
    // The live cursor follows the four grids.
    let cursor = cmds[base + 4 * 330];
    assert_eq!(cursor, PlotCmd {
        glyph: '|',
        x: 4,
        y: 5,
        fg: TextColor::Cyan,
        bg: TextColor::Cyan,
    });
    // Borders: four neutral ones (two commands per border column, then two
    // per border row), one highlighted, then the four two-glyph labels.
    let borders = base + 4 * 330 + 1;
    assert_eq!(cmds.len(), borders + 5 * (2 * 33 + 2 * 10) + 8);
    assert_eq!(cmds[borders], PlotCmd {
        glyph: '.',
        x: 1,
        y: 2,
        fg: TextColor::White,
        bg: TextColor::Black,
    });
    let labels = cmds.len() - 8;
    assert_eq!(cmds[labels], PlotCmd {
        glyph: 'F',
        x: 17,
        y: 2,
        fg: TextColor::White,
        bg: TextColor::Black,
    });
    assert_eq!(cmds[labels + 1].glyph, '1');
    assert_eq!(cmds[labels + 7].glyph, '4');
    assert_eq!(cmds[labels + 7].x, 50);
    assert_eq!(cmds[labels + 7].y, 12);
}

#[test]
fn tick_reads_but_never_changes_state() {
    let s = SwimInterface::default();
    let first = s.tick();
    let second = s.tick();
    assert_eq!(first, second);
    // One erase command (the cursor cell alone, nothing typed), four full
    // 330-cell grids, the cursor, five borders, four two-glyph labels.
    assert_eq!(first.len(), 1 + 4 * 330 + 1 + 5 * (2 * 33 + 2 * 10) + 8);
}

#[test]
fn every_tick_command_stays_on_the_display() {
    let mut s = SwimInterface::default();
    // Push every window to its relocated origin and fill some text, then
    // check that every command addresses a real display cell.
    s.handle_raw(RawKey::F4);
    for _ in 0..40 {
        for cmd in s.handle_unicode('w') {
            assert!(cmd.x < 80);
            assert!(cmd.y < 25);
        }
    }
    s.handle_raw(RawKey::F2);
    let _ = s.handle_unicode('\n');
    for cmd in s.tick() {
        assert!(cmd.x < 80);
        assert!(cmd.y < 25);
    }
}
