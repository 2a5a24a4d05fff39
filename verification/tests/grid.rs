use temu::term::grid::Terminal;
use termwiz::escape::csi::Cursor;
use termwiz::escape::{Action, OneBased, CSI};

#[test]
fn grid() {
    let mut grid = Terminal::new(10);
    grid.perform_action(Action::CSI(CSI::Cursor(Cursor::Position {
        col: OneBased::from_zero_based(0),
        line: OneBased::from_zero_based(0),
    })));
    assert_eq!(grid.cursor(), (0, 0));
    assert_eq!(grid.cursor_pos(), 0);
    grid.perform_action(Action::CSI(CSI::Cursor(Cursor::Position {
        col: OneBased::from_zero_based(0),
        line: OneBased::from_zero_based(5),
    })));
    assert_eq!(grid.rows().len(), 6);
    assert_eq!(grid.cursor(), (0, 5));
    assert_eq!(grid.cursor_pos(), 5 * grid.column());
}
