//! Reading the escape-sequence parser's actions as actions on the grid.

use crate::term::grid::{GridAction, Terminal};
use termwiz::escape::csi::{Cursor, Edit};
use termwiz::escape::{Action, CSI};
use vstd::prelude::*;

verus! {

#[verifier::external_type_specification]
#[verifier::external_body]
pub struct ExAction(Action);

/// What an action says when it is not about moving the cursor. Control
/// codes and erase modes are given by their numbers.
pub enum PlainAction {
    Print(char),
    PrintString(Vec<char>),
    Control(u8),
    EraseInDisplay(u8),
    EraseInLine(u8),
    Other,
}

/// What an action says about moving the cursor. Positions are zero-based.
pub enum CursorAction {
    Position { col: u32, line: u32 },
    Up(u32),
    Down(u32),
    Right(u32),
    Left(u32),
    Other,
}

/// The printing, control or erasing that an action holds.
pub uninterp spec fn action_plain(action: Action) -> PlainAction;

/// The cursor movement that an action holds.
pub uninterp spec fn action_cursor(action: Action) -> CursorAction;

/// Tells the variants of `termwiz::escape::Action` apart that print,
/// control or erase, and hands out what they carry: the character or the
/// string's characters, the control code's byte, the erase mode's number.
#[verifier::external_body]
fn read_plain(action: &Action) -> (plain: PlainAction)
    ensures
        plain == action_plain(*action),
{
    match action {
        Action::Print(c) => PlainAction::Print(*c),
        Action::PrintString(s) => PlainAction::PrintString(s.chars().collect()),
        Action::Control(code) => PlainAction::Control(*code as u8),
        Action::CSI(CSI::Edit(Edit::EraseInDisplay(e))) => PlainAction::EraseInDisplay(*e as u8),
        Action::CSI(CSI::Edit(Edit::EraseInLine(e))) => PlainAction::EraseInLine(*e as u8),
        _ => PlainAction::Other,
    }
}

/// Tells the cursor movements of `termwiz::escape::Action` apart and hands
/// out their counts; a position is read with `OneBased::as_zero_based`.
#[verifier::external_body]
fn read_cursor(action: &Action) -> (cursor: CursorAction)
    ensures
        cursor == action_cursor(*action),
{
    match action {
        Action::CSI(CSI::Cursor(Cursor::Position { col, line })) => {
            CursorAction::Position { col: col.as_zero_based(), line: line.as_zero_based() }
        },
        Action::CSI(CSI::Cursor(Cursor::Up(n))) => CursorAction::Up(*n),
        Action::CSI(CSI::Cursor(Cursor::Down(n))) => CursorAction::Down(*n),
        Action::CSI(CSI::Cursor(Cursor::Right(n))) => CursorAction::Right(*n),
        Action::CSI(CSI::Cursor(Cursor::Left(n))) => CursorAction::Left(*n),
        _ => CursorAction::Other,
    }
}

/// Control code of backspace.
pub const BACKSPACE: u8 = 8;

/// Control code of line feed.
pub const LINE_FEED: u8 = 10;

/// Control code of carriage return.
pub const CARRIAGE_RETURN: u8 = 13;

/// What the grid does for a printing, control or erasing action. The grid
/// acts on backspace, line feed and carriage return; on erasing the display
/// whole (mode 2) or from the cursor on (mode 0), both of which erase all;
/// and on erasing the line from the cursor on (mode 0).
pub open spec fn plain_meaning(plain: PlainAction) -> GridAction {
    match plain {
        PlainAction::Print(c) => GridAction::Print(c),
        PlainAction::PrintString(run) => GridAction::PrintString(run),
        PlainAction::Control(code) => if code == BACKSPACE {
            GridAction::Backspace
        } else if code == LINE_FEED {
            GridAction::LineFeed
        } else if code == CARRIAGE_RETURN {
            GridAction::CarriageReturn
        } else {
            GridAction::Ignored
        },
        PlainAction::EraseInDisplay(mode) => if mode == 0 || mode == 2 {
            GridAction::EraseDisplay
        } else {
            GridAction::Ignored
        },
        PlainAction::EraseInLine(mode) => if mode == 0 {
            GridAction::EraseToEndOfLine
        } else {
            GridAction::Ignored
        },
        PlainAction::Other => GridAction::Ignored,
    }
}

/// What the grid does for a cursor movement.
pub open spec fn cursor_meaning(cursor: CursorAction) -> GridAction {
    match cursor {
        CursorAction::Position { col, line } => GridAction::CursorPosition { col, line },
        CursorAction::Up(n) => GridAction::CursorUp(n),
        CursorAction::Down(n) => GridAction::CursorDown(n),
        CursorAction::Right(n) => GridAction::CursorRight(n),
        CursorAction::Left(n) => GridAction::CursorLeft(n),
        CursorAction::Other => GridAction::Ignored,
    }
}

/// What the grid does for an action of the parser.
pub open spec fn decoded(action: Action) -> GridAction {
    if action_plain(action) is Other {
        cursor_meaning(action_cursor(action))
    } else {
        plain_meaning(action_plain(action))
    }
}

/// The grid's action for a printing, control or erasing action.
pub fn interpret_plain(plain: PlainAction) -> (meaning: GridAction)
    ensures
        meaning == plain_meaning(plain),
{
    match plain {
        PlainAction::Print(c) => GridAction::Print(c),
        PlainAction::PrintString(run) => GridAction::PrintString(run),
        PlainAction::Control(code) => if code == BACKSPACE {
            GridAction::Backspace
        } else if code == LINE_FEED {
            GridAction::LineFeed
        } else if code == CARRIAGE_RETURN {
            GridAction::CarriageReturn
        } else {
            GridAction::Ignored
        },
        PlainAction::EraseInDisplay(mode) => if mode == 0 || mode == 2 {
            GridAction::EraseDisplay
        } else {
            GridAction::Ignored
        },
        PlainAction::EraseInLine(mode) => if mode == 0 {
            GridAction::EraseToEndOfLine
        } else {
            GridAction::Ignored
        },
        PlainAction::Other => GridAction::Ignored,
    }
}

/// The grid's action for a cursor movement.
pub fn interpret_cursor(cursor: CursorAction) -> (meaning: GridAction)
    ensures
        meaning == cursor_meaning(cursor),
{
    match cursor {
        CursorAction::Position { col, line } => GridAction::CursorPosition { col, line },
        CursorAction::Up(n) => GridAction::CursorUp(n),
        CursorAction::Down(n) => GridAction::CursorDown(n),
        CursorAction::Right(n) => GridAction::CursorRight(n),
        CursorAction::Left(n) => GridAction::CursorLeft(n),
        CursorAction::Other => GridAction::Ignored,
    }
}

/// The grid's action for an action of the parser.
pub fn decode(action: &Action) -> (meaning: GridAction)
    ensures
        meaning == decoded(*action),
{
    match read_plain(action) {
        PlainAction::Other => interpret_cursor(read_cursor(action)),
        plain => interpret_plain(plain),
    }
}

/// The grid's actions for a batch of the parser's actions.
pub open spec fn decoded_all(actions: Seq<Action>) -> Seq<GridAction> {
    Seq::new(actions.len(), |i: int| decoded(actions[i]))
}

impl Terminal {
    /// Carries out one action of the parser. Actions that the grid does
    /// not act on change nothing.
    pub fn perform_action(&mut self, action: Action)
        requires
            old(self).wf(),
        ensures
            final(self).wf(),
            final(self)@ == old(self)@.apply(decoded(action)),
    {
        let meaning = decode(&action);
        self.apply(&meaning);
    }

    /// Carries out a batch of the parser's actions in order.
    pub fn perform_actions(&mut self, actions: Vec<Action>)
        requires
            old(self).wf(),
        ensures
            final(self).wf(),
            final(self)@ == old(self)@.apply_all(decoded_all(actions@)),
    {
        let mut done: usize = 0;
        let ghost all = decoded_all(actions@);
        assert(all.skip(0) =~= all);
        while done < actions.len()
            invariant
                done <= actions.len(),
                all == decoded_all(actions@),
                self.wf(),
                self@.apply_all(all.skip(done as int)) == old(self)@.apply_all(all),
            decreases actions.len() - done,
        {
            assert(all.skip(done as int).skip(1) =~= all.skip(done + 1));
            let meaning = decode(&actions[done]);
            self.apply(&meaning);
            done += 1;
        }
    }
}

} // verus!
