use swash::{CacheKey, FontRef};
use temu::cell::{
    count_cells, CellContext, CellVertex, FontMetrics, MouseTarget, ShapedGlyph, TextVertex,
};
use temu::font_texture::{AtlasBuilder, FontTexture, GlyphCacheInfo, Raster};
use temu::scroll::ScrollState;
use temu::term::grid::{Color, GridAction, Terminal};
use temu::viewport::Viewport;
use temu::wgpu_vec::GpuWrite;

const METRICS: FontMetrics = FontMetrics { cell_width: 576, cell_height: 1152, descent: 256 };

fn atlas() -> (FontTexture, GlyphCacheInfo, GlyphCacheInfo) {
    let font = FontRef { data: &[], offset: 0, key: CacheKey::new() };
    let mut builder = AtlasBuilder::new();
    let a = Raster { width: 8, height: 10, left: 1, top: 9, data: vec![255; 80] };
    let b = Raster { width: 6, height: 14, left: -1, top: 13, data: vec![255; 84] };
    let a = builder.add_glyph(10, &a).unwrap().unwrap();
    let b = builder.add_glyph(12, &b).unwrap().unwrap();
    (builder.finish(font), a, b)
}

fn context() -> (CellContext, GlyphCacheInfo, GlyphCacheInfo) {
    let (texture, a, b) = atlas();
    (CellContext::new(texture, METRICS, &Viewport::new(800, 600)), a, b)
}

fn glyph(id: u16, x: i32, y: i32) -> ShapedGlyph {
    ShapedGlyph { id, x, y, advance: 576 }
}

#[test]
fn new_context_shows_the_only_line() {
    let (ctx, _, _) = context();
    assert_eq!(ctx.scroll_offset(), ScrollState { top: 0, max: 0, page_size: 23 });
    assert!(ctx.cell_vertices().is_empty());
    assert!(ctx.text_vertices().is_empty());
    assert_eq!(ctx.window_value().size, [800, 600]);
    assert_eq!(ctx.window_value().cell_size, [576, 1152]);
    assert_eq!(ctx.window_value().column, 80);
    assert_eq!(ctx.ui_value().scrollbar_width, 30);
    assert_eq!(ctx.ui_value().scrollbar_fg, [153, 153, 153, 153]);
    assert_eq!(ctx.font_metrics(), METRICS);
}

#[test]
fn glyphs_are_placed_by_pen_offset_and_bearing() {
    let (mut ctx, a, b) = context();
    let mut term = Terminal::new(80);
    term.apply(&GridAction::PrintString(vec!['a', '?', 'a', 'b']));
    let shaped = vec![vec![glyph(10, 0, 0), glyph(11, 0, 0), glyph(10, 5, 3), glyph(12, 0, -2)]];
    let uploads = ctx.set_terminal(&term, &shaped);
    assert_eq!(uploads, (GpuWrite::Reuse, GpuWrite::Reuse));
    assert!(ctx.cell_vertices().is_empty());
    let white = [255, 255, 255];
    let expect = vec![
        TextVertex {
            offset: [64, 320],
            tex_offset: a.tex_position,
            tex_size: [8, 10],
            color: white,
            layer: a.layer,
        },
        TextVertex {
            offset: [2 * 576 + 5 + 64, 320 - 3],
            tex_offset: a.tex_position,
            tex_size: [8, 10],
            color: white,
            layer: a.layer,
        },
        TextVertex {
            offset: [3 * 576 - 64, 1152 - 256 - 13 * 64 + 2],
            tex_offset: b.tex_position,
            tex_size: [6, 14],
            color: white,
            layer: b.layer,
        },
    ];
    assert_eq!(ctx.text_vertices(), &expect[..]);
    assert_eq!(ctx.ui_value().cursor_pos, [4, 0]);
    assert_eq!(ctx.desired_size(), [80 * 576 + 30 * 64, 23 * 1152]);
}

#[test]
fn second_row_stands_one_cell_lower() {
    let (mut ctx, a, _) = context();
    let mut term = Terminal::new(80);
    term.apply(&GridAction::LineFeed);
    term.apply(&GridAction::Print('a'));
    let shaped = vec![vec![], vec![glyph(10, 0, 0)]];
    ctx.set_terminal(&term, &shaped);
    assert_eq!(ctx.text_vertices().len(), 1);
    assert_eq!(ctx.text_vertices()[0].offset, [64, 2 * 1152 - 256 - 9 * 64]);
    assert_eq!(ctx.text_vertices()[0].tex_offset, a.tex_position);
    assert_eq!(ctx.ui_value().cursor_pos, [1, 1]);
}

#[test]
fn glyph_takes_the_color_of_its_cell() {
    let (mut ctx, _, _) = context();
    let mut term = Terminal::new(4);
    term.cursor_right(1);
    term.current_cell_mut().fg = Color { r: 200, g: 100, b: 50 };
    let shaped = vec![vec![glyph(10, 0, 0), glyph(10, 0, 0)]];
    ctx.set_terminal(&term, &shaped);
    assert_eq!(ctx.text_vertices()[0].color, [255, 255, 255]);
    assert_eq!(ctx.text_vertices()[1].color, [200, 100, 50]);
}

#[test]
fn glyphs_without_a_cell_or_an_entry_are_left_out() {
    let (mut ctx, _, _) = context();
    let term = Terminal::new(2);
    let shaped = vec![vec![glyph(11, 0, 0), glyph(10, 0, 0), glyph(10, 0, 0), glyph(10, 0, 0)]];
    ctx.set_terminal(&term, &shaped);
    assert_eq!(ctx.text_vertices().len(), 1);
    assert_eq!(ctx.text_vertices()[0].offset[0], 576 + 64);
}

#[test]
fn rows_without_glyphs_get_no_text() {
    let (mut ctx, _, _) = context();
    let mut term = Terminal::new(4);
    term.cursor_down(2);
    ctx.set_terminal(&term, &vec![vec![glyph(10, 0, 0)]]);
    assert_eq!(ctx.text_vertices().len(), 1);
    ctx.set_terminal(&term, &Vec::new());
    assert!(ctx.text_vertices().is_empty());
}

#[test]
fn only_cells_with_a_background_of_their_own_get_an_instance() {
    let (mut ctx, _, _) = context();
    let mut term = Terminal::new(4);
    term.cursor_down(1);
    term.cursor_right(2);
    term.current_cell_mut().bg = Color { r: 9, g: 8, b: 7 };
    ctx.set_terminal(&term, &Vec::new());
    assert_eq!(ctx.cell_vertices(), &[CellVertex { color: [9, 8, 7, 255], cell: [2, 1] }]);
}

#[test]
fn rebuilding_twice_gives_the_same_instances() {
    let (mut ctx, _, _) = context();
    let mut term = Terminal::new(8);
    term.apply(&GridAction::PrintString(vec!['a', 'b', 'a']));
    term.current_cell_mut().bg = Color { r: 1, g: 1, b: 1 };
    let shaped = vec![vec![glyph(10, 0, 0), glyph(12, 1, 1), glyph(10, 0, 0)]];
    ctx.set_terminal(&term, &shaped);
    let cells = ctx.cell_vertices().to_vec();
    let text = ctx.text_vertices().to_vec();
    let ui = ctx.ui_value();
    assert_eq!(ctx.set_terminal(&term, &shaped), (GpuWrite::Reuse, GpuWrite::Reuse));
    assert_eq!(ctx.cell_vertices(), &cells[..]);
    assert_eq!(ctx.text_vertices(), &text[..]);
    assert_eq!(ctx.ui_value(), ui);
    assert_eq!(cells.len(), 1);
    assert_eq!(text.len(), 3);
}

#[test]
fn window_shows_the_rows_from_its_top_line() {
    let (mut ctx, _, _) = context();
    let mut term = Terminal::new(4);
    term.cursor_down(29);
    term.current_cell_mut().bg = Color { r: 5, g: 5, b: 5 };
    ctx.scroll_to_bottom(&term);
    assert_eq!(ctx.scroll_offset(), ScrollState { top: 7, max: 7, page_size: 23 });
    ctx.set_terminal(&term, &Vec::new());
    assert_eq!(ctx.cell_vertices(), &[CellVertex { color: [5, 5, 5, 255], cell: [0, 22] }]);
    assert_eq!(ctx.ui_value().cursor_pos, [0, 22]);
    ctx.scroll(-7, &term);
    ctx.set_terminal(&term, &Vec::new());
    assert!(ctx.cell_vertices().is_empty());
    assert_eq!(ctx.ui_value().cursor_pos, [0, 29]);
    assert_eq!(ctx.ui_value().scrollbar_top, 0);
    assert_eq!(ctx.ui_value().scrollbar_height, 23 * 600 / 30);
    term.cursor_up(29);
    ctx.scroll(3, &term);
    ctx.set_terminal(&term, &Vec::new());
    assert_eq!(ctx.ui_value().cursor_pos, [0, -3]);
}

#[test]
fn visible_range_follows_the_window() {
    let (mut ctx, _, _) = context();
    let mut term = Terminal::new(4);
    assert_eq!(ctx.visible_range(&term), (0, 1));
    term.cursor_down(29);
    assert_eq!(ctx.visible_range(&term), (0, 23));
    ctx.scroll_to_bottom(&term);
    assert_eq!(ctx.visible_range(&term), (7, 30));
    term.erase_all();
    assert_eq!(ctx.visible_range(&term), (1, 1));
    ctx.scroll(0, &term);
    assert_eq!(ctx.visible_range(&term), (0, 1));
}

#[test]
fn gpu_capacity_grows_and_never_shrinks() {
    let (mut ctx, _, _) = context();
    let mut term = Terminal::new(80);
    for _ in 0..5 {
        term.apply(&GridAction::PrintString(vec!['a'; 80]));
    }
    let line: Vec<ShapedGlyph> = (0..80).map(|_| glyph(10, 0, 0)).collect();
    let shaped = vec![line; 5];
    let uploads = ctx.set_terminal(&term, &shaped);
    assert_eq!(uploads, (GpuWrite::Reuse, GpuWrite::Reallocate { capacity: 512 }));
    assert_eq!(ctx.text_vertices().len(), 400);
    term.erase_all();
    let uploads = ctx.set_terminal(&term, &Vec::new());
    assert_eq!(uploads, (GpuWrite::Reuse, GpuWrite::Reuse));
    assert!(ctx.text_vertices().is_empty());
    let uploads = ctx.set_terminal(&term, &vec![vec![glyph(10, 0, 0); 80]]);
    assert_eq!(uploads, (GpuWrite::Reuse, GpuWrite::Reuse));
}

#[test]
fn cells_that_fit_a_window() {
    assert_eq!(count_cells(600, 1152), 33);
    assert_eq!(count_cells(768, 1152), 42);
    assert_eq!(count_cells(770, 576), 85);
    assert_eq!(count_cells(10, 1152), 1);
    assert_eq!(count_cells(0, 1152), 1);
    assert_eq!(count_cells(600, 0), 1);
    assert_eq!(count_cells(u32::MAX, 1), 65535);
}

#[test]
fn resize_takes_the_rows_that_fit() {
    let (mut ctx, _, _) = context();
    let mut term = Terminal::new(4);
    term.cursor_down(99);
    ctx.scroll_to_bottom(&term);
    assert_eq!(ctx.scroll_offset().top, 77);
    ctx.resize(1024, 768, &term);
    assert_eq!(ctx.window_value().size, [1024, 768]);
    assert_eq!(ctx.window_value().column, 4);
    assert_eq!(ctx.window_value().cell_size, [576, 1152]);
    assert_eq!(ctx.scroll_offset(), ScrollState { top: 58, max: 58, page_size: 42 });
    ctx.resize(800, 600, &term);
    assert_eq!(ctx.scroll_offset(), ScrollState { top: 58, max: 67, page_size: 33 });
}

#[test]
fn pointer_finds_the_thumb() {
    let (mut ctx, _, _) = context();
    let mut term = Terminal::new(4);
    term.cursor_down(91);
    ctx.scroll_to_bottom(&term);
    // 92 lines, 23 shown: the thumb is 150 pixels high and starts at 450
    assert_eq!(ctx.target_at(780, 500), MouseTarget::ScrollBar);
    assert_eq!(ctx.target_at(770, 450), MouseTarget::ScrollBar);
    assert_eq!(ctx.target_at(799, 599), MouseTarget::ScrollBar);
    assert_eq!(ctx.target_at(769, 500), MouseTarget::Empty);
    assert_eq!(ctx.target_at(800, 500), MouseTarget::Empty);
    assert_eq!(ctx.target_at(780, 449), MouseTarget::Empty);
    assert_eq!(ctx.target_at(780, 600), MouseTarget::Empty);
    assert_eq!(ctx.target_at(-5, 500), MouseTarget::Empty);
}

#[test]
fn hover_changes_the_thumb_color_once() {
    let (mut ctx, _, _) = context();
    assert!(ctx.hover(780, 300));
    assert_eq!(ctx.ui_value().scrollbar_fg, [204, 204, 204, 204]);
    assert!(!ctx.hover(790, 310));
    assert!(ctx.hover(100, 310));
    assert_eq!(ctx.ui_value().scrollbar_fg, [153, 153, 153, 153]);
    assert!(!ctx.hover(100, 100));
    assert!(ctx.set_focus(MouseTarget::ScrollBar));
    assert!(!ctx.set_focus(MouseTarget::ScrollBar));
}

#[test]
fn drag_moves_the_window() {
    let (mut ctx, _, _) = context();
    let mut term = Terminal::new(4);
    term.cursor_down(91);
    ctx.scroll_to_bottom(&term);
    assert_eq!(ctx.scroll_offset().top, 69);
    assert!(!ctx.drag(0));
    assert!(ctx.drag(-150));
    assert_eq!(ctx.scroll_offset().top, 0);
    assert!(ctx.drag(10));
    // 10 * 69 / 150 = 4.6
    assert_eq!(ctx.scroll_offset().top, 5);
    assert!(!ctx.drag(0));
}

#[test]
fn columns_beyond_what_a_window_can_show_are_left_out() {
    let (mut ctx, _, _) = context();
    let mut term = Terminal::new(65537);
    term.cursor_right(65534);
    term.current_cell_mut().bg = Color { r: 3, g: 3, b: 3 };
    term.cursor_right(1);
    term.current_cell_mut().bg = Color { r: 4, g: 4, b: 4 };
    let shaped = vec![vec![glyph(10, 0, 0); 65537]];
    ctx.set_terminal(&term, &shaped);
    assert_eq!(ctx.cell_vertices(), &[CellVertex { color: [3, 3, 3, 255], cell: [65534, 0] }]);
    assert_eq!(ctx.text_vertices().len(), 65535);
    assert_eq!(ctx.text_vertices()[65534].offset[0], 65534 * 576 + 64);
    assert_eq!(ctx.ui_value().cursor_pos, [65535, 0]);
    assert_eq!(ctx.desired_size()[0], 65535 * 576 + 30 * 64);
}
