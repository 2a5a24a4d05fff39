use temu::term::escape::decode;
use temu::term::grid::{Cell, Color, GridAction, Line, Terminal};
use termwiz::escape::csi::{Cursor, Edit, EraseInDisplay, EraseInLine};
use termwiz::escape::{Action, ControlCode, OneBased, CSI};

fn text_of(line: &Line) -> String {
    let mut out = String::new();
    line.write_text(&mut out);
    out
}

fn print(term: &mut Terminal, text: &str) {
    for c in text.chars() {
        term.perform_action(Action::Print(c));
    }
}

#[test]
fn new_grid_is_one_blank_line() {
    let term = Terminal::new(4);
    assert_eq!(term.rows().len(), 1);
    assert_eq!(text_of(&term.rows()[0]), "    ");
    assert_eq!(term.cursor(), (0, 0));
    assert_eq!(term.column(), 4);
    assert_eq!(term.current_seqno(), 0);
}

#[test]
fn cell_new_has_default_colors() {
    let cell = Cell::new('x');
    assert_eq!(cell.ch, 'x');
    assert_eq!(cell.fg, Color { r: 255, g: 255, b: 255 });
    assert_eq!(cell.bg, Color { r: 0, g: 0, b: 0 });
}

#[test]
fn line_new_is_blank_and_write_text_appends() {
    let line = Line::new(3);
    let mut out = String::from("ab");
    line.write_text(&mut out);
    assert_eq!(out, "ab   ");
    assert_eq!(line.seqno(), 0);
    assert_eq!(line.cells().len(), 3);
}

#[test]
fn print_shows_text_and_advances() {
    let mut term = Terminal::new(5);
    print(&mut term, "ls");
    assert_eq!(text_of(&term.rows()[0]), "ls   ");
    assert_eq!(term.cursor(), (2, 0));
    assert_eq!(term.cursor_pos(), 2);
}

#[test]
fn print_string_shows_every_character() {
    let mut term = Terminal::new(5);
    term.perform_action(Action::PrintString("abc".to_string()));
    assert_eq!(text_of(&term.rows()[0]), "abc  ");
    assert_eq!(term.cursor(), (3, 0));
}

#[test]
fn line_of_exactly_all_columns_does_not_spill() {
    let mut term = Terminal::new(3);
    print(&mut term, "abc");
    assert_eq!(term.rows().len(), 2);
    assert_eq!(text_of(&term.rows()[0]), "abc");
    assert_eq!(text_of(&term.rows()[1]), "   ");
    assert_eq!(term.cursor(), (0, 1));
}

#[test]
fn text_past_the_last_column_wraps() {
    let mut term = Terminal::new(3);
    print(&mut term, "abcd");
    assert_eq!(text_of(&term.rows()[0]), "abc");
    assert_eq!(text_of(&term.rows()[1]), "d  ");
    assert_eq!(term.cursor(), (1, 1));
    assert_eq!(term.cursor_pos(), 4);
}

#[test]
fn control_codes_move_the_cursor() {
    let mut term = Terminal::new(4);
    print(&mut term, "ab");
    term.perform_action(Action::Control(ControlCode::Backspace));
    assert_eq!(term.cursor(), (1, 0));
    term.perform_action(Action::Control(ControlCode::LineFeed));
    assert_eq!(term.cursor(), (1, 1));
    assert_eq!(term.rows().len(), 2);
    term.perform_action(Action::Control(ControlCode::CarriageReturn));
    assert_eq!(term.cursor(), (0, 1));
    term.perform_action(Action::Control(ControlCode::Backspace));
    assert_eq!(term.cursor(), (0, 1));
}

#[test]
fn other_control_codes_are_ignored() {
    let mut term = Terminal::new(4);
    print(&mut term, "ab");
    term.perform_action(Action::Control(ControlCode::Bell));
    assert_eq!(term.cursor(), (2, 0));
    assert_eq!(text_of(&term.rows()[0]), "ab  ");
    assert_eq!(decode(&Action::Control(ControlCode::Bell)), GridAction::Ignored);
}

#[test]
fn cursor_movements_stop_at_the_edges() {
    let mut term = Terminal::new(4);
    term.perform_action(Action::CSI(CSI::Cursor(Cursor::Right(2))));
    assert_eq!(term.cursor(), (2, 0));
    term.perform_action(Action::CSI(CSI::Cursor(Cursor::Right(9))));
    assert_eq!(term.cursor(), (3, 0));
    term.perform_action(Action::CSI(CSI::Cursor(Cursor::Left(1))));
    assert_eq!(term.cursor(), (2, 0));
    term.perform_action(Action::CSI(CSI::Cursor(Cursor::Left(7))));
    assert_eq!(term.cursor(), (0, 0));
    term.perform_action(Action::CSI(CSI::Cursor(Cursor::Down(3))));
    assert_eq!(term.cursor(), (0, 3));
    assert_eq!(term.rows().len(), 4);
    term.perform_action(Action::CSI(CSI::Cursor(Cursor::Up(2))));
    assert_eq!(term.cursor(), (0, 1));
    term.perform_action(Action::CSI(CSI::Cursor(Cursor::Up(5))));
    assert_eq!(term.cursor(), (0, 0));
    assert_eq!(term.rows().len(), 4);
}

#[test]
fn cursor_position_clamps_the_column() {
    let mut term = Terminal::new(4);
    term.perform_action(Action::CSI(CSI::Cursor(Cursor::Position {
        col: OneBased::new(9),
        line: OneBased::new(2),
    })));
    assert_eq!(term.cursor(), (3, 1));
    assert_eq!(term.rows().len(), 2);
    assert_eq!(term.cursor_pos(), 7);
}

#[test]
fn erase_display_leaves_one_blank_line() {
    let mut term = Terminal::new(3);
    print(&mut term, "abcd");
    term.perform_action(Action::CSI(CSI::Edit(Edit::EraseInDisplay(
        EraseInDisplay::EraseDisplay,
    ))));
    assert_eq!(term.rows().len(), 1);
    assert_eq!(text_of(&term.rows()[0]), "   ");
    assert_eq!(term.cursor(), (0, 0));
    print(&mut term, "xy");
    term.perform_action(Action::CSI(CSI::Edit(Edit::EraseInDisplay(
        EraseInDisplay::EraseToEndOfDisplay,
    ))));
    assert_eq!(term.rows().len(), 1);
    assert_eq!(text_of(&term.rows()[0]), "   ");
}

#[test]
fn other_erase_modes_are_ignored() {
    let mut term = Terminal::new(3);
    print(&mut term, "ab");
    term.perform_action(Action::CSI(CSI::Edit(Edit::EraseInDisplay(
        EraseInDisplay::EraseToStartOfDisplay,
    ))));
    term.perform_action(Action::CSI(CSI::Edit(Edit::EraseInLine(EraseInLine::EraseLine))));
    assert_eq!(text_of(&term.rows()[0]), "ab ");
    assert_eq!(term.cursor(), (2, 0));
}

#[test]
fn erase_to_end_of_line_blanks_from_the_cursor() {
    let mut term = Terminal::new(5);
    print(&mut term, "abcd");
    term.perform_action(Action::CSI(CSI::Cursor(Cursor::Left(3))));
    term.perform_action(Action::CSI(CSI::Edit(Edit::EraseInLine(
        EraseInLine::EraseToEndOfLine,
    ))));
    assert_eq!(text_of(&term.rows()[0]), "a    ");
    assert_eq!(term.cursor(), (1, 0));
}

#[test]
fn actions_the_grid_does_not_know_change_nothing() {
    let mut term = Terminal::new(4);
    print(&mut term, "ab");
    let seqno = term.current_seqno();
    term.perform_action(Action::CSI(CSI::Cursor(Cursor::SaveCursor)));
    term.perform_action(Action::XtGetTcap(vec!["colors".to_string()]));
    assert_eq!(term.cursor(), (2, 0));
    assert_eq!(text_of(&term.rows()[0]), "ab  ");
    assert_eq!(term.current_seqno(), seqno);
}

#[test]
fn empty_batch_leaves_the_grid_as_it_was() {
    let mut term = Terminal::new(4);
    print(&mut term, "abcde");
    let before: Vec<(String, u64)> =
        term.rows().iter().map(|line| (text_of(line), line.seqno())).collect();
    let cursor = term.cursor();
    let seqno = term.current_seqno();
    term.perform_actions(Vec::new());
    term.apply_all(&Vec::new());
    let after: Vec<(String, u64)> =
        term.rows().iter().map(|line| (text_of(line), line.seqno())).collect();
    assert_eq!(before, after);
    assert_eq!(term.cursor(), cursor);
    assert_eq!(term.current_seqno(), seqno);
}

#[test]
fn batch_is_carried_out_in_order() {
    let mut term = Terminal::new(4);
    term.perform_actions(vec![
        Action::Print('a'),
        Action::Control(ControlCode::LineFeed),
        Action::Control(ControlCode::CarriageReturn),
        Action::PrintString("bc".to_string()),
    ]);
    assert_eq!(text_of(&term.rows()[0]), "a   ");
    assert_eq!(text_of(&term.rows()[1]), "bc  ");
    assert_eq!(term.cursor(), (2, 1));
}

#[test]
fn grid_actions_apply_directly() {
    let mut term = Terminal::new(4);
    term.apply(&GridAction::PrintString(vec!['h', 'i']));
    term.apply(&GridAction::CursorPosition { col: 0, line: 2 });
    term.apply(&GridAction::Print('x'));
    term.apply(&GridAction::Ignored);
    assert_eq!(text_of(&term.rows()[0]), "hi  ");
    assert_eq!(text_of(&term.rows()[2]), "x   ");
    assert_eq!(term.rows().len(), 3);
    assert_eq!(term.cursor(), (1, 2));
}

#[test]
fn line_with_unchanged_seqno_is_unchanged() {
    let mut term = Terminal::new(4);
    print(&mut term, "abcd");
    let first_seqno = term.rows()[0].seqno();
    let first_text = text_of(&term.rows()[0]);
    print(&mut term, "ef");
    assert_eq!(term.rows()[0].seqno(), first_seqno);
    assert_eq!(text_of(&term.rows()[0]), first_text);
    assert!(term.rows()[1].seqno() > first_seqno);
    term.perform_action(Action::CSI(CSI::Cursor(Cursor::Position {
        col: OneBased::new(1),
        line: OneBased::new(1),
    })));
    print(&mut term, "z");
    assert!(term.rows()[0].seqno() > first_seqno);
    assert_eq!(text_of(&term.rows()[0]), "zbcd");
}

#[test]
fn current_cell_mut_writes_under_the_cursor() {
    let mut term = Terminal::new(3);
    term.cursor_right(1);
    let cell = term.current_cell_mut();
    cell.ch = 'q';
    cell.bg = Color { r: 1, g: 2, b: 3 };
    assert_eq!(text_of(&term.rows()[0]), " q ");
    assert_eq!(term.rows()[0].cells()[1].bg, Color { r: 1, g: 2, b: 3 });
    assert_eq!(term.rows()[0].seqno(), 1);
    assert_eq!(term.cursor(), (1, 0));
}

#[test]
fn primitive_moves_match_the_actions() {
    let mut term = Terminal::new(3);
    term.text('a');
    term.advance_cursor();
    term.advance_cursor();
    assert_eq!(term.cursor(), (0, 1));
    term.new_row();
    assert_eq!(term.rows().len(), 3);
    term.lf();
    term.lf();
    assert_eq!(term.cursor(), (0, 3));
    assert_eq!(term.rows().len(), 4);
    term.cursor_right(2);
    term.bs();
    term.cr();
    term.cursor_down(1);
    term.cursor_up(10);
    term.cursor_left(3);
    assert_eq!(term.cursor(), (0, 0));
    term.erase_all();
    assert_eq!(term.rows().len(), 1);
}

#[test]
fn decode_reads_positions_zero_based() {
    let action = Action::CSI(CSI::Cursor(Cursor::Position {
        col: OneBased::new(3),
        line: OneBased::new(7),
    }));
    assert_eq!(decode(&action), GridAction::CursorPosition { col: 2, line: 6 });
    assert_eq!(decode(&Action::Print('k')), GridAction::Print('k'));
    assert_eq!(
        decode(&Action::PrintString("ok".to_string())),
        GridAction::PrintString(vec!['o', 'k'])
    );
    assert_eq!(decode(&Action::CSI(CSI::Cursor(Cursor::Up(4)))), GridAction::CursorUp(4));
}

#[test]
fn resize_cuts_and_fills_lines() {
    let mut term = Terminal::new(4);
    print(&mut term, "abcdef");
    term.resize(2);
    assert_eq!(term.column(), 2);
    assert_eq!(text_of(&term.rows()[0]), "ab");
    assert_eq!(text_of(&term.rows()[1]), "ef");
    assert_eq!(term.cursor(), (1, 1));
    let seqno = term.current_seqno();
    term.resize(2);
    assert_eq!(term.current_seqno(), seqno);
    term.resize(5);
    assert_eq!(text_of(&term.rows()[0]), "ab   ");
    assert_eq!(text_of(&term.rows()[1]), "ef   ");
    assert_eq!(term.cursor(), (1, 1));
    assert_eq!(term.rows()[0].seqno(), term.current_seqno());
    print(&mut term, "xyzw");
    assert_eq!(text_of(&term.rows()[1]), "exyzw");
    assert_eq!(term.cursor(), (0, 2));
}
