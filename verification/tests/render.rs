use swash::{CacheKey, FontRef};
use temu::cell::{FontMetrics, MouseTarget};
use temu::event::TemuEvent;
use temu::font_texture::AtlasBuilder;
use temu::render::{MouseStatus, Point, Reaction, Reconfigure, RenderLoop, WgpuContext};
use temu::scroll::ScrollState;
use temu::term::grid::Terminal;
use temu::term::{COLUMN, ROW};
use temu::viewport::Viewport;
use termwiz::escape::{Action, ControlCode};

const METRICS: FontMetrics = FontMetrics { cell_width: 576, cell_height: 1152, descent: 256 };

fn start() -> (RenderLoop, Terminal) {
    let font = FontRef { data: &[], offset: 0, key: CacheKey::new() };
    let texture = AtlasBuilder::new().finish(font);
    let ctx = WgpuContext::new(Viewport::new(800, 600), texture, METRICS);
    (RenderLoop::new(ctx), Terminal::new(COLUMN as usize))
}

fn scroll(state: &RenderLoop) -> ScrollState {
    state.ctx().cell_ctx().scroll_offset()
}

fn line_feeds(count: usize) -> Vec<Action> {
    (0..count).map(|_| Action::Control(ControlCode::LineFeed)).collect()
}

#[test]
fn cold_start() {
    let (mut state, mut term) = start();
    assert_eq!(term.column(), 80);
    assert_eq!(scroll(&state), ScrollState { top: 0, max: 0, page_size: ROW });
    assert_eq!(scroll(&state).page_size, 23);
    assert!(scroll(&state).is_pinned());
    assert_eq!(state.mouse(), MouseStatus::Hover(MouseTarget::Empty));
    assert!(state.frame_due());
    assert_eq!(state.begin_frame(&mut term), None);
    state.end_frame();
    assert!(!state.frame_due());
}

#[test]
fn echo_reaches_the_shell_and_the_grid() {
    let (mut state, mut term) = start();
    assert_eq!(state.handle_event(TemuEvent::Char('l'), &term), Reaction::Key('l'));
    assert_eq!(state.handle_event(TemuEvent::Char('s'), &term), Reaction::Key('s'));
    assert_eq!(state.handle_event(TemuEvent::Char('\r'), &term), Reaction::Key('\r'));
    state.end_frame();
    state.handle_actions(
        &mut term,
        vec![
            Action::PrintString("ls".to_string()),
            Action::Control(ControlCode::CarriageReturn),
            Action::Control(ControlCode::LineFeed),
            Action::PrintString("Cargo.toml".to_string()),
        ],
    );
    assert!(state.frame_due());
    let mut first = String::new();
    term.rows()[0].write_text(&mut first);
    assert!(first.starts_with("ls "));
    let mut second = String::new();
    term.rows()[1].write_text(&mut second);
    assert!(second.starts_with("Cargo.toml "));
}

#[test]
fn resize_round_trip() {
    let (mut state, mut term) = start();
    state.end_frame();
    state.handle_event(TemuEvent::Resize { width: 800, height: 600 }, &term);
    assert!(!state.frame_due());
    assert_eq!(state.begin_frame(&mut term), None);
    state.handle_event(TemuEvent::Resize { width: 1024, height: 768 }, &term);
    assert!(state.frame_due());
    assert_eq!(
        state.begin_frame(&mut term),
        Some(Reconfigure { width: 1024, height: 768, cols: 110, rows: 42 })
    );
    assert_eq!(state.ctx().viewport().width(), 1024);
    assert_eq!(state.ctx().viewport().height(), 768);
    assert_eq!(scroll(&state).page_size, 42);
    assert_eq!(state.ctx().cell_ctx().window_value().size, [1024, 768]);
    assert_eq!(state.ctx().cell_ctx().window_value().column, 110);
    assert_eq!(term.column(), 110);
    state.end_frame();
    state.handle_event(TemuEvent::Resize { width: 800, height: 600 }, &term);
    assert_eq!(
        state.begin_frame(&mut term),
        Some(Reconfigure { width: 800, height: 600, cols: 85, rows: 33 })
    );
    assert_eq!(state.ctx().viewport().width(), 800);
    assert_eq!(state.ctx().viewport().height(), 600);
    assert_eq!(scroll(&state).page_size, 33);
    assert_eq!(term.column(), 85);
    assert_eq!(state.begin_frame(&mut term), None);
    assert_eq!(term.column(), 85);
}

#[test]
fn last_of_several_resizes_is_configured() {
    let (mut state, mut term) = start();
    state.handle_event(TemuEvent::Resize { width: 1024, height: 768 }, &term);
    state.handle_event(TemuEvent::Resize { width: 640, height: 480 }, &term);
    let change = state.begin_frame(&mut term).unwrap();
    assert_eq!((change.width, change.height), (640, 480));
    assert_eq!(state.ctx().viewport().width(), 640);
}

#[test]
fn scrollback() {
    let (mut state, mut term) = start();
    state.handle_actions(&mut term, line_feeds(5 * ROW as usize - 1));
    assert_eq!(term.rows().len(), 115);
    assert_eq!(scroll(&state), ScrollState { top: 92, max: 92, page_size: 23 });
    for _ in 0..5 {
        assert_eq!(state.handle_event(TemuEvent::ScrollUp, &term), Reaction::Rebuild);
    }
    assert_eq!(scroll(&state).top, 87);
    assert!(state.frame_due());
    state.rebuild(&term, &Vec::new());
    assert_eq!(state.ctx().cell_ctx().ui_value().cursor_pos, [0, 114 - 87]);
    for _ in 0..5 {
        state.handle_event(TemuEvent::ScrollDown, &term);
    }
    assert_eq!(scroll(&state).top, 92);
    for _ in 0..3 {
        state.handle_event(TemuEvent::ScrollDown, &term);
    }
    assert_eq!(scroll(&state).top, 92);
    assert!(scroll(&state).is_pinned());
}

#[test]
fn new_output_pins_the_window_to_the_bottom() {
    let (mut state, mut term) = start();
    state.handle_actions(&mut term, line_feeds(99));
    for _ in 0..10 {
        state.handle_event(TemuEvent::ScrollUp, &term);
    }
    assert_eq!(scroll(&state).top, 67);
    state.end_frame();
    state.handle_actions(&mut term, line_feeds(1));
    assert_eq!(scroll(&state).top, 78);
    assert!(state.frame_due());
    for _ in 0..10 {
        state.handle_event(TemuEvent::ScrollDown, &term);
    }
    assert_eq!(scroll(&state).top, 78);
}

#[test]
fn scroll_up_at_the_top_stays_at_the_top() {
    let (mut state, mut term) = start();
    state.handle_event(TemuEvent::ScrollUp, &term);
    assert_eq!(scroll(&state).top, 0);
}

#[test]
fn mouse_focus() {
    let (mut state, mut term) = start();
    state.handle_actions(&mut term, line_feeds(91));
    state.end_frame();
    let mut frames = 0;
    let moves = [(100, 100), (780, 500), (790, 520), (785, 590), (400, 500), (10, 10)];
    for (x, y) in moves {
        assert_eq!(state.handle_event(TemuEvent::CursorMove { x, y }, &term), Reaction::Nothing);
        if state.frame_due() {
            frames += 1;
            state.end_frame();
        }
        let over = x >= 770;
        let color = if over { [204; 4] } else { [153; 4] };
        assert_eq!(state.ctx().cell_ctx().ui_value().scrollbar_fg, color);
        let target = if over { MouseTarget::ScrollBar } else { MouseTarget::Empty };
        assert_eq!(state.mouse(), MouseStatus::Hover(target));
    }
    assert_eq!(frames, 2);
}

#[test]
fn zero_size_resize_ignored() {
    let (mut state, mut term) = start();
    state.end_frame();
    assert_eq!(
        state.handle_event(TemuEvent::Resize { width: 0, height: 600 }, &term),
        Reaction::Nothing
    );
    assert!(!state.frame_due());
    assert_eq!(state.begin_frame(&mut term), None);
    state.handle_event(TemuEvent::Resize { width: 800, height: 0 }, &term);
    state.handle_event(TemuEvent::Resize { width: 0, height: 0 }, &term);
    assert!(!state.frame_due());
    assert_eq!(state.begin_frame(&mut term), None);
    assert_eq!(state.ctx().viewport().width(), 800);
    state.handle_event(TemuEvent::Resize { width: 640, height: 480 }, &term);
    assert!(state.frame_due());
    let change = state.begin_frame(&mut term).unwrap();
    assert_eq!((change.width, change.height), (640, 480));
}

#[test]
fn press_and_release_without_moving_is_a_click() {
    let (mut state, mut term) = start();
    state.handle_event(TemuEvent::CursorMove { x: 40, y: 50 }, &term);
    assert_eq!(state.handle_event(TemuEvent::Left(true), &term), Reaction::Nothing);
    let at = Point { x: 40, y: 50 };
    assert_eq!(
        state.mouse(),
        MouseStatus::Drag { target: MouseTarget::Empty, start: at, current: at }
    );
    assert_eq!(state.handle_event(TemuEvent::Left(false), &term), Reaction::Click(at));
    assert_eq!(state.mouse(), MouseStatus::Hover(MouseTarget::Empty));
    assert_eq!(state.handle_event(TemuEvent::Left(false), &term), Reaction::Click(at));
}

#[test]
fn dragging_the_thumb_scrolls() {
    let (mut state, mut term) = start();
    state.handle_actions(&mut term, line_feeds(91));
    assert_eq!(scroll(&state).top, 69);
    state.end_frame();
    state.handle_event(TemuEvent::CursorMove { x: 780, y: 500 }, &term);
    state.end_frame();
    state.handle_event(TemuEvent::Left(true), &term);
    assert!(!state.frame_due());
    // the thumb is 150 pixels high: 50 pixels are 23 lines
    let moved = state.handle_event(TemuEvent::CursorMove { x: 781, y: 450 }, &term);
    assert_eq!(moved, Reaction::Rebuild);
    assert_eq!(scroll(&state).top, 46);
    assert!(state.frame_due());
    state.end_frame();
    let still = state.handle_event(TemuEvent::CursorMove { x: 700, y: 450 }, &term);
    assert_eq!(still, Reaction::Nothing);
    assert_eq!(scroll(&state).top, 46);
    assert!(!state.frame_due());
    assert_eq!(state.handle_event(TemuEvent::Left(false), &term), Reaction::DragEnd);
    assert_eq!(state.mouse(), MouseStatus::Hover(MouseTarget::ScrollBar));
    assert!(!state.frame_due());
}

#[test]
fn dragging_from_elsewhere_does_not_scroll() {
    let (mut state, mut term) = start();
    state.handle_actions(&mut term, line_feeds(91));
    state.handle_event(TemuEvent::CursorMove { x: 100, y: 500 }, &term);
    state.handle_event(TemuEvent::Left(true), &term);
    state.end_frame();
    let moved = state.handle_event(TemuEvent::CursorMove { x: 780, y: 300 }, &term);
    assert_eq!(moved, Reaction::Nothing);
    assert_eq!(scroll(&state).top, 69);
    assert!(!state.frame_due());
    assert_eq!(state.handle_event(TemuEvent::Left(false), &term), Reaction::DragEnd);
}

#[test]
fn redraw_close_and_dpi() {
    let (mut state, mut term) = start();
    state.end_frame();
    assert_eq!(state.handle_event(TemuEvent::DpiChange { dpi: 192 }, &term), Reaction::Nothing);
    assert!(!state.frame_due());
    assert_eq!(state.handle_event(TemuEvent::Close, &term), Reaction::Exit);
    assert!(!state.frame_due());
    assert_eq!(state.handle_event(TemuEvent::Redraw, &term), Reaction::Nothing);
    assert!(state.frame_due());
}
