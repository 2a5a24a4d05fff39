//! Turning the visible part of the grid into the instances that the GPU
//! draws: one per cell with a background of its own, one per glyph.
//!
//! Lengths that do not come in whole pixels (pen positions, advances, the
//! cell size, the descent) are in subpixels, of which a pixel has 64.

use crate::font_texture::{FontTexture, GlyphCacheInfo};
use crate::scroll::ScrollState;
use crate::term::grid::{
    lemma_same_seqno_same_line, Cell, Color, GridModel, LineModel, Terminal,
};
use crate::term::{default_background, COLUMN, ROW};
use crate::viewport::Viewport;
use crate::wgpu_cell::WgpuCell;
use crate::wgpu_vec::{grown, lemma_grown, GpuWrite, WgpuVec};
use vstd::prelude::*;

verus! {

/// Subpixels in one pixel.
pub const SUBPIXELS: u32 = 64;

/// The most rows and columns that a window can show: the pseudo-terminal
/// counts both in 16 bits.
pub const MAX_GRID_SIDE: usize = 65535;

/// One glyph as the shaper placed it, in subpixels.
#[derive(Clone, Copy, Debug, PartialEq, Eq, Structural)]
pub struct ShapedGlyph {
    /// The glyph's identifier in the font.
    pub id: u16,
    /// Horizontal offset from the pen position.
    pub x: i32,
    /// Vertical offset from the baseline, upwards.
    pub y: i32,
    /// How far the pen moves after the glyph.
    pub advance: i32,
}

/// The size of a cell and the font's descent, in subpixels.
#[derive(Clone, Copy, Debug, PartialEq, Eq, Structural)]
pub struct FontMetrics {
    /// Width of a cell: the advance of the reference glyph.
    pub cell_width: u32,
    /// Height of a cell: ascent plus descent.
    pub cell_height: u32,
    /// Distance from the baseline down to the cell's lower edge.
    pub descent: i32,
}

/// One cell background to draw.
#[derive(Clone, Copy, Debug, PartialEq, Eq)]
pub struct CellVertex {
    /// Red, green, blue, alpha.
    pub color: [u8; 4],
    /// Column and row of the cell in the window.
    pub cell: [u32; 2],
}

/// One glyph to draw.
#[derive(Clone, Copy, Debug, PartialEq, Eq)]
pub struct TextVertex {
    /// Top-left corner of the glyph's bitmap in the window, in subpixels.
    pub offset: [i64; 2],
    /// Top-left corner of the bitmap in its atlas layer, in pixels.
    pub tex_offset: [u32; 2],
    /// Width and height of the bitmap, in pixels.
    pub tex_size: [u32; 2],
    /// Red, green, blue of the text.
    pub color: [u8; 3],
    /// Atlas layer of the bitmap.
    pub layer: u32,
}

/// Pen position before glyph `index` of a line: the advances of the
/// glyphs before it, summed up from the line's left edge.
pub open spec fn pen_x(glyphs: Seq<ShapedGlyph>, index: int) -> int
    decreases index,
{
    if index <= 0 {
        0
    } else {
        pen_x(glyphs, index - 1) + glyphs[index - 1].advance
    }
}

/// Height of the baseline of window row `row` below the window's top.
pub open spec fn baseline_y(row: int, metrics: FontMetrics) -> int {
    (row + 1) * metrics.cell_height - metrics.descent
}

/// Whether a glyph is drawn: the atlas has it, with a bitmap that is not
/// empty.
pub open spec fn is_drawn(entries: Map<u16, GlyphCacheInfo>, glyph: ShapedGlyph) -> bool {
    &&& entries.dom().contains(glyph.id)
    &&& entries[glyph.id].tex_size[0] > 0
    &&& entries[glyph.id].tex_size[1] > 0
}

/// The instance of glyph `index` of a line in window row `row`: the
/// bitmap's corner is the pen position plus the glyph's offset plus the
/// bearing; the color is that of the glyph's cell.
pub open spec fn glyph_vertex(
    info: GlyphCacheInfo,
    glyphs: Seq<ShapedGlyph>,
    index: int,
    cell: Cell,
    row: int,
    metrics: FontMetrics,
) -> TextVertex {
    TextVertex {
        offset: [
            (pen_x(glyphs, index) + glyphs[index].x + info.glyph_position[0] * 64) as i64,
            (baseline_y(row, metrics) - info.glyph_position[1] * 64 - glyphs[index].y) as i64,
        ],
        tex_offset: info.tex_position,
        tex_size: info.tex_size,
        color: [cell.fg.r, cell.fg.g, cell.fg.b],
        layer: info.layer,
    }
}

/// The instances of the first `count` glyphs of a line in window row
/// `row`. Glyph and cell go together by their index.
pub open spec fn line_vertices(
    entries: Map<u16, GlyphCacheInfo>,
    glyphs: Seq<ShapedGlyph>,
    cells: Seq<Cell>,
    row: int,
    metrics: FontMetrics,
    count: int,
) -> Seq<TextVertex>
    decreases count,
{
    if count <= 0 {
        Seq::empty()
    } else {
        let before = line_vertices(entries, glyphs, cells, row, metrics, count - 1);
        if is_drawn(entries, glyphs[count - 1]) {
            before.push(
                glyph_vertex(
                    entries[glyphs[count - 1].id],
                    glyphs,
                    count - 1,
                    cells[count - 1],
                    row,
                    metrics,
                ),
            )
        } else {
            before
        }
    }
}

/// Number of cells of a line that a window can show: all of them, up to
/// the most columns that a window has.
pub open spec fn shown_cells(cells: Seq<Cell>) -> int {
    if cells.len() < MAX_GRID_SIDE {
        cells.len() as int
    } else {
        MAX_GRID_SIDE as int
    }
}

/// Number of glyphs of a line that have a cell which a window can show.
pub open spec fn paired(glyphs: Seq<ShapedGlyph>, cells: Seq<Cell>) -> int {
    if glyphs.len() < shown_cells(cells) {
        glyphs.len() as int
    } else {
        shown_cells(cells)
    }
}

/// The text instances of a line in window row `row`: those of all glyphs
/// that have a cell.
pub open spec fn line_text(
    entries: Map<u16, GlyphCacheInfo>,
    glyphs: Seq<ShapedGlyph>,
    cells: Seq<Cell>,
    row: int,
    metrics: FontMetrics,
) -> Seq<TextVertex> {
    line_vertices(entries, glyphs, cells, row, metrics, paired(glyphs, cells))
}

/// The background instance of the cell in column `col` of window row
/// `row`.
pub open spec fn cell_vertex(cell: Cell, col: int, row: int) -> CellVertex {
    CellVertex { color: [cell.bg.r, cell.bg.g, cell.bg.b, 255u8], cell: [col as u32, row as u32] }
}

/// The background instances of the first `count` cells of a line in
/// window row `row`: one for each cell whose background is not `default`.
pub open spec fn line_backgrounds(
    cells: Seq<Cell>,
    default: Color,
    row: int,
    count: int,
) -> Seq<CellVertex>
    decreases count,
{
    if count <= 0 {
        Seq::empty()
    } else {
        let before = line_backgrounds(cells, default, row, count - 1);
        if cells[count - 1].bg != default {
            before.push(cell_vertex(cells[count - 1], count - 1, row))
        } else {
            before
        }
    }
}

/// The pen stays within these bounds for as long as no more glyphs were
/// passed than a window has columns.
pub proof fn lemma_pen_bound(glyphs: Seq<ShapedGlyph>, index: int)
    requires
        0 <= index <= glyphs.len(),
    ensures
        -index * 0x8000_0000 <= pen_x(glyphs, index) <= index * 0x8000_0000,
    decreases index,
{
    if index > 0 {
        lemma_pen_bound(glyphs, index - 1);
    }
}

/// Appends the text instances of one line in window row `row` to `out`.
pub fn push_line_text(
    out: &mut WgpuVec<TextVertex>,
    texture: &FontTexture,
    glyphs: &Vec<ShapedGlyph>,
    cells: &Vec<Cell>,
    row: u32,
    metrics: FontMetrics,
)
    requires
        row < MAX_GRID_SIDE,
    ensures
        final(out).items() == old(out).items() + line_text(
            texture.entries(),
            glyphs@,
            cells@,
            row as int,
            metrics,
        ),
        final(out).capacity() == old(out).capacity(),
{
    let shown = if cells.len() < MAX_GRID_SIDE {
        cells.len()
    } else {
        MAX_GRID_SIDE
    };
    let count = if glyphs.len() < shown {
        glyphs.len()
    } else {
        shown
    };
    assert(0 <= (row + 1) * metrics.cell_height <= 0x1_0000 * 0xffff_ffff) by (nonlinear_arith)
        requires
            0 <= row < 0x1_0000,
            0 <= metrics.cell_height <= 0xffff_ffff,
    ;
    let baseline: i64 = (row as i64 + 1) * (metrics.cell_height as i64) - metrics.descent as i64;
    let mut pen: i64 = 0;
    let mut index: usize = 0;
    while index < count
        invariant
            index <= count <= MAX_GRID_SIDE,
            count == paired(glyphs@, cells@),
            pen == pen_x(glyphs@, index as int),
            baseline == baseline_y(row as int, metrics),
            -0x2_0000_0000_0000 <= baseline <= 0x2_0000_0000_0000,
            out.capacity() == old(out).capacity(),
            out.items() == old(out).items() + line_vertices(
                texture.entries(),
                glyphs@,
                cells@,
                row as int,
                metrics,
                index as int,
            ),
        decreases count - index,
    {
        let glyph = glyphs[index];
        proof {
            lemma_pen_bound(glyphs@, index as int);
        }
        match texture.glyph(glyph.id) {
            Some(info) => {
                if info.tex_size[0] > 0 && info.tex_size[1] > 0 {
                    let cell = cells[index];
                    out.push(
                        TextVertex {
                            offset: [
                                pen + glyph.x as i64 + info.glyph_position[0] as i64 * 64,
                                baseline - info.glyph_position[1] as i64 * 64 - glyph.y as i64,
                            ],
                            tex_offset: info.tex_position,
                            tex_size: info.tex_size,
                            color: [cell.fg.r, cell.fg.g, cell.fg.b],
                            layer: info.layer,
                        },
                    );
                }
            },
            None => {},
        }
        pen = pen + glyph.advance as i64;
        index += 1;
        assert(out.items() =~= old(out).items() + line_vertices(
            texture.entries(),
            glyphs@,
            cells@,
            row as int,
            metrics,
            index as int,
        ));
    }
}

/// Appends the background instances of one line in window row `row` to
/// `out`.
pub fn push_line_backgrounds(
    out: &mut WgpuVec<CellVertex>,
    cells: &Vec<Cell>,
    default: Color,
    row: u32,
)
    ensures
        final(out).items() == old(out).items() + line_backgrounds(
            cells@,
            default,
            row as int,
            shown_cells(cells@),
        ),
        final(out).capacity() == old(out).capacity(),
{
    let shown = if cells.len() < MAX_GRID_SIDE {
        cells.len()
    } else {
        MAX_GRID_SIDE
    };
    let mut col: usize = 0;
    while col < shown
        invariant
            col <= shown <= MAX_GRID_SIDE,
            shown == shown_cells(cells@),
            out.capacity() == old(out).capacity(),
            out.items() == old(out).items() + line_backgrounds(cells@, default, row as int, col as int),
        decreases shown - col,
    {
        let cell = cells[col];
        if cell.bg != default {
            out.push(
                CellVertex { color: [cell.bg.r, cell.bg.g, cell.bg.b, 255], cell: [col as u32, row] },
            );
        }
        col += 1;
        assert(out.items() =~= old(out).items() + line_backgrounds(
            cells@,
            default,
            row as int,
            col as int,
        ));
    }
}

/// Width of the scrollbar in pixels.
pub const SCROLLBAR_WIDTH: u32 = 30;

/// What the pointer is over.
#[derive(Clone, Copy, Debug, PartialEq, Eq, Structural)]
pub enum MouseTarget {
    /// Nothing that reacts.
    Empty,
    /// The scrollbar's thumb.
    ScrollBar,
}

/// What the UI pass draws besides cells and text: the cursor and the
/// scrollbar.
#[derive(Clone, Copy, Debug, PartialEq, Eq)]
pub struct Ui {
    /// Color of the cursor: red, green, blue, alpha.
    pub cursor_color: [u8; 4],
    /// Column and row of the cursor in the window. The row is negative
    /// while the cursor's line is above the window.
    pub cursor_pos: [i64; 2],
    /// Width of the scrollbar in pixels.
    pub scrollbar_width: u32,
    /// Height of the scrollbar's thumb in pixels.
    pub scrollbar_height: u32,
    /// Color of the thumb.
    pub scrollbar_fg: [u8; 4],
    /// Color of the track.
    pub scrollbar_bg: [u8; 4],
    /// Top edge of the thumb in pixels from the window's top.
    pub scrollbar_top: u32,
}

/// What the shaders need to know of the window.
#[derive(Clone, Copy, Debug, PartialEq, Eq)]
pub struct WindowSize {
    /// Width and height of the window in pixels.
    pub size: [u32; 2],
    /// Width and height of a cell in subpixels.
    pub cell_size: [u32; 2],
    /// Columns of the grid.
    pub column: u32,
}

/// Color of the scrollbar's thumb while the pointer is over it, or not.
pub open spec fn thumb_color(focused: bool) -> [u8; 4] {
    if focused {
        [204u8, 204u8, 204u8, 204u8]
    } else {
        [153u8, 153u8, 153u8, 153u8]
    }
}

/// Number of lines, counted in 32 bits.
pub open spec fn line_count(grid: GridModel) -> u32 {
    if grid.lines.len() > u32::MAX {
        u32::MAX
    } else {
        grid.lines.len() as u32
    }
}

/// Number of columns, counted in 32 bits.
pub open spec fn column_count(grid: GridModel) -> u32 {
    if grid.column > u32::MAX {
        u32::MAX
    } else {
        grid.column as u32
    }
}

/// Number of columns of the grid that a window can show.
pub open spec fn shown_columns(grid: GridModel) -> int {
    if grid.column < MAX_GRID_SIDE {
        grid.column
    } else {
        MAX_GRID_SIDE as int
    }
}

/// Number of lines of the grid that the window shows: those from the
/// window's top line on, at most a window full.
pub open spec fn visible_rows(scroll: ScrollState, total_lines: int) -> int {
    if scroll.top >= total_lines {
        0
    } else if total_lines - scroll.top < scroll.page_size {
        total_lines - scroll.top
    } else {
        scroll.page_size as int
    }
}

/// The background instances of the first `rows` window rows, the window's
/// top row showing line `top`.
pub open spec fn frame_backgrounds(
    lines: Seq<LineModel>,
    default: Color,
    top: int,
    rows: int,
) -> Seq<CellVertex>
    decreases rows,
{
    if rows <= 0 {
        Seq::empty()
    } else {
        frame_backgrounds(lines, default, top, rows - 1) + line_backgrounds(
            lines[top + rows - 1].cells,
            default,
            rows - 1,
            shown_cells(lines[top + rows - 1].cells),
        )
    }
}

/// The text instances of the first `rows` window rows, the window's top
/// row showing line `top`; `shaped` holds the glyphs of each window row.
pub open spec fn frame_text(
    entries: Map<u16, GlyphCacheInfo>,
    shaped: Seq<Vec<ShapedGlyph>>,
    lines: Seq<LineModel>,
    top: int,
    metrics: FontMetrics,
    rows: int,
) -> Seq<TextVertex>
    decreases rows,
{
    if rows <= 0 {
        Seq::empty()
    } else {
        frame_text(entries, shaped, lines, top, metrics, rows - 1) + line_text(
            entries,
            shaped[rows - 1]@,
            lines[top + rows - 1].cells,
            rows - 1,
            metrics,
        )
    }
}

/// Number of window rows that get text: those shown for which glyphs were
/// handed in.
pub open spec fn text_rows(visible: int, shaped: int) -> int {
    if shaped < visible {
        shaped
    } else {
        visible
    }
}

/// Number of cells of `cell` subpixels that fit into `pixels` pixels: at
/// least one, and no more than a window can have.
pub open spec fn cells_that_fit(pixels: u32, cell: u32) -> u32 {
    if cell == 0 || (pixels * 64) / (cell as int) < 1 {
        1
    } else if (pixels * 64) / (cell as int) > MAX_GRID_SIDE {
        MAX_GRID_SIDE as u32
    } else {
        ((pixels * 64) / (cell as int)) as u32
    }
}

/// Number of cells of `cell` subpixels that fit into `pixels` pixels.
pub fn count_cells(pixels: u32, cell: u32) -> (count: u32)
    ensures
        count == cells_that_fit(pixels, cell),
        1 <= count <= MAX_GRID_SIDE,
{
    if cell == 0 {
        return 1;
    }
    let fit = (pixels as u64 * 64) / cell as u64;
    if fit < 1 {
        1
    } else if fit > 65535 {
        65535
    } else {
        fit as u32
    }
}

/// What is at the pixel `(x, y)` of a window `width` pixels wide whose
/// scrollbar thumb starts at `thumb_top` and is `thumb_height` high: the
/// thumb, within the band of the scrollbar at the window's right edge, or
/// nothing.
pub open spec fn target_of(x: int, y: int, width: int, thumb_top: int, thumb_height: int) -> MouseTarget {
    if width - SCROLLBAR_WIDTH <= x < width && 0 <= x && thumb_top <= y < thumb_top
        + thumb_height {
        MouseTarget::ScrollBar
    } else {
        MouseTarget::Empty
    }
}

/// Everything the renderer keeps on the processor's side: the instances of
/// the last frame, the values of the two uniforms, the atlas, and where
/// the window stands in the scrollback.
pub struct CellContext {
    instances: WgpuVec<CellVertex>,
    text_instances: WgpuVec<TextVertex>,
    ui: WgpuCell<Ui>,
    window_size: WgpuCell<WindowSize>,
    metrics: FontMetrics,
    desired_size: [u64; 2],
    texture: FontTexture,
    prev_term_seqno: u64,
    scroll: ScrollState,
    focused: bool,
}

impl CellContext {
    /// The cell background instances of the last frame.
    pub closed spec fn cell_instances(&self) -> Seq<CellVertex> {
        self.instances.items()
    }

    /// The text instances of the last frame.
    pub closed spec fn text_instances(&self) -> Seq<TextVertex> {
        self.text_instances.items()
    }

    /// Capacity of the GPU buffer for cell backgrounds, in instances.
    pub closed spec fn cell_capacity(&self) -> int {
        self.instances.capacity()
    }

    /// Capacity of the GPU buffer for text, in instances.
    pub closed spec fn text_capacity(&self) -> int {
        self.text_instances.capacity()
    }

    /// The UI uniform.
    pub closed spec fn ui(&self) -> Ui {
        self.ui.value()
    }

    /// The window-size uniform.
    pub closed spec fn window(&self) -> WindowSize {
        self.window_size.value()
    }

    /// The cell size and the descent.
    pub closed spec fn metrics(&self) -> FontMetrics {
        self.metrics
    }

    /// The atlas: its bytes, its entries and the number of its layers.
    pub closed spec fn atlas(&self) -> FontTexture {
        self.texture
    }

    /// The atlas entries.
    pub open spec fn entries(&self) -> Map<u16, GlyphCacheInfo> {
        self.atlas().entries()
    }

    /// Where the window stands in the scrollback.
    pub closed spec fn scroll_state(&self) -> ScrollState {
        self.scroll
    }

    /// Whether the scrollbar is shown as under the pointer.
    pub closed spec fn focus(&self) -> bool {
        self.focused
    }

    /// Size that the grid and the scrollbar would need, in subpixels.
    pub closed spec fn spec_desired_size(&self) -> [u64; 2] {
        self.desired_size
    }

    /// Sequence number of the grid at the last rebuild.
    pub closed spec fn prev_seqno(&self) -> u64 {
        self.prev_term_seqno
    }

    /// Both GPU buffers hold at least one instance.
    pub closed spec fn buffers_wf(&self) -> bool {
        self.instances.wf() && self.text_instances.wf()
    }

    /// The context is well formed: the window is not scrolled past the
    /// newest lines and shows no more rows than a window can, and the
    /// thumb has the color that goes with the focus.
    pub open spec fn wf(&self) -> bool {
        &&& self.buffers_wf()
        &&& self.scroll_state().wf()
        &&& self.scroll_state().page_size <= MAX_GRID_SIDE
        &&& self.ui().scrollbar_fg == thumb_color(self.focus())
    }

    /// A context for the atlas `texture` and a window as `viewport` says:
    /// no instances yet, the window at the only line, the scrollbar out of
    /// focus.
    pub fn new(texture: FontTexture, metrics: FontMetrics, viewport: &Viewport) -> (ctx: Self)
        ensures
            ctx.wf(),
            ctx.cell_instances() == Seq::<CellVertex>::empty(),
            ctx.text_instances() == Seq::<TextVertex>::empty(),
            ctx.atlas() == texture,
            ctx.metrics() == metrics,
            ctx.scroll_state() == (ScrollState { top: 0, max: 0, page_size: ROW }),
            !ctx.focus(),
            ctx.window() == (WindowSize {
                size: [viewport.width(), viewport.height()],
                cell_size: [metrics.cell_width, metrics.cell_height],
                column: COLUMN,
            }),
            ctx.ui() == (Ui {
                cursor_color: [255u8, 255u8, 255u8, 255u8],
                cursor_pos: [0i64, 0i64],
                scrollbar_width: SCROLLBAR_WIDTH,
                scrollbar_height: viewport.height(),
                scrollbar_fg: thumb_color(false),
                scrollbar_bg: [255u8, 255u8, 255u8, 255u8],
                scrollbar_top: 0,
            }),
            ctx.cell_capacity() == crate::wgpu_vec::INITIAL_CAPACITY,
            ctx.text_capacity() == crate::wgpu_vec::INITIAL_CAPACITY,
            ctx.prev_seqno() == 0,
            ctx.spec_desired_size() == [0u64, 0u64],
    {
        let window = WindowSize {
            size: [viewport.width(), viewport.height()],
            cell_size: [metrics.cell_width, metrics.cell_height],
            column: COLUMN,
        };
        let ui = Ui {
            cursor_color: [255, 255, 255, 255],
            cursor_pos: [0, 0],
            scrollbar_width: SCROLLBAR_WIDTH,
            scrollbar_height: viewport.height(),
            scrollbar_fg: [153, 153, 153, 153],
            scrollbar_bg: [255, 255, 255, 255],
            scrollbar_top: 0,
        };
        let mut scroll = ScrollState::new();
        scroll.resize(1, ROW);
        CellContext {
            instances: WgpuVec::new(),
            text_instances: WgpuVec::new(),
            ui: WgpuCell::new(ui),
            window_size: WgpuCell::new(window),
            metrics,
            desired_size: [0, 0],
            texture,
            prev_term_seqno: 0,
            scroll,
            focused: false,
        }
    }

    /// Size that the grid and the scrollbar would need, in subpixels, as of
    /// the last rebuild.
    pub fn desired_size(&self) -> (size: [u64; 2])
        ensures
            size == self.spec_desired_size(),
    {
        self.desired_size
    }

    /// The cell size and the descent.
    pub fn font_metrics(&self) -> (metrics: FontMetrics)
        ensures
            metrics == self.metrics(),
    {
        self.metrics
    }

    /// Where the window stands in the scrollback.
    pub fn scroll_offset(&self) -> (state: ScrollState)
        ensures
            state == self.scroll_state(),
    {
        self.scroll
    }

    /// The atlas.
    pub fn font_texture(&self) -> (texture: &FontTexture)
        ensures
            *texture == self.atlas(),
    {
        &self.texture
    }

    /// The cell background instances to upload.
    pub fn cell_vertices(&self) -> (items: &[CellVertex])
        ensures
            items@ == self.cell_instances(),
    {
        self.instances.cpu_buffer()
    }

    /// The text instances to upload.
    pub fn text_vertices(&self) -> (items: &[TextVertex])
        ensures
            items@ == self.text_instances(),
    {
        self.text_instances.cpu_buffer()
    }

    /// The value of the UI uniform.
    pub fn ui_value(&self) -> (ui: Ui)
        ensures
            ui == self.ui(),
    {
        *self.ui.get()
    }

    /// The value of the window-size uniform.
    pub fn window_value(&self) -> (window: WindowSize)
        ensures
            window == self.window(),
    {
        *self.window_size.get()
    }

    /// The lines of the grid that the window shows: from the first of the
    /// pair up to, but not including, the second.
    pub fn visible_range(&self, term: &Terminal) -> (range: (usize, usize))
        ensures
            range.0 <= range.1 <= term@.lines.len(),
            range.1 - range.0 == visible_rows(self.scroll_state(), term@.lines.len() as int),
            range.0 == if self.scroll_state().top < term@.lines.len() {
                self.scroll_state().top as int
            } else {
                term@.lines.len() as int
            },
    {
        let total = term.rows().len();
        let top = self.scroll.top as usize;
        if top >= total {
            (total, total)
        } else if total - top < self.scroll.page_size as usize {
            (top, total)
        } else {
            (top, top + self.scroll.page_size as usize)
        }
    }

    /// Column of the grid's cursor, as far as 63 bits count.
    pub open spec fn cursor_col(grid: GridModel) -> i64 {
        if grid.cursor.0 > i64::MAX {
            i64::MAX
        } else {
            grid.cursor.0 as i64
        }
    }

    /// Row of the grid's cursor in the window: its line counted from the
    /// window's top line, negative above the window.
    pub open spec fn cursor_row(grid: GridModel, top: int) -> i64 {
        if grid.cursor.1 - top > i64::MAX {
            i64::MAX
        } else {
            (grid.cursor.1 - top) as i64
        }
    }

    /// `after` is this context after a rebuild from the grid `grid` with the
    /// glyphs `shaped`: the instances are those of the rows that the
    /// window shows, the UI uniform has the cursor and the thumb, both GPU
    /// capacities have grown as far as the instances need, and the rest is
    /// as it was.
    pub open spec fn rebuilt_to(
        &self,
        after: &CellContext,
        grid: GridModel,
        shaped: Seq<Vec<ShapedGlyph>>,
    ) -> bool {
        let scroll = self.scroll_state();
        let visible = visible_rows(scroll, grid.lines.len() as int);
        &&& after.wf()
        &&& after.scroll_state() == scroll
        &&& after.metrics() == self.metrics()
        &&& after.atlas() == self.atlas()
        &&& after.focus() == self.focus()
        &&& after.window() == self.window()
        &&& after.cell_instances() == frame_backgrounds(
            grid.lines,
            default_background(),
            scroll.top as int,
            visible,
        )
        &&& after.text_instances() == frame_text(
            self.entries(),
            shaped,
            grid.lines,
            scroll.top as int,
            self.metrics(),
            text_rows(visible, shaped.len() as int),
        )
        &&& after.cell_capacity() == grown(
            self.cell_capacity(),
            after.cell_instances().len() as int,
        )
        &&& after.text_capacity() == grown(
            self.text_capacity(),
            after.text_instances().len() as int,
        )
        &&& after.ui() == (Ui {
            cursor_pos: [Self::cursor_col(grid), Self::cursor_row(grid, scroll.top as int)],
            scrollbar_top: scroll.thumb_top(self.window().size[1]) as u32,
            scrollbar_height: scroll.thumb_height(self.window().size[1]) as u32,
            ..self.ui()
        })
        &&& after.prev_seqno() == grid.seqno
        &&& after.spec_desired_size() == [
            (shown_columns(grid) * self.metrics().cell_width + 64 * SCROLLBAR_WIDTH) as u64,
            (scroll.page_size * self.metrics().cell_height) as u64,
        ]
    }

    /// Rebuilds the instances and the UI uniform from the grid, for the
    /// rows that the window shows. `shaped` holds the glyphs of each of
    /// these rows, from the top one down; rows without glyphs get no text.
    /// Returns what to do with the GPU buffers of the cell backgrounds and
    /// of the text.
    pub fn set_terminal(&mut self, term: &Terminal, shaped: &Vec<Vec<ShapedGlyph>>) -> (uploads: (
        GpuWrite,
        GpuWrite,
    ))
        requires
            old(self).wf(),
            term.wf(),
        ensures
            old(self).rebuilt_to(final(self), term@, shaped@),
            final(self).cell_capacity() >= old(self).cell_capacity(),
            final(self).text_capacity() >= old(self).text_capacity(),
            uploads.0 == if old(self).cell_capacity() < final(self).cell_instances().len() {
                GpuWrite::Reallocate { capacity: final(self).cell_capacity() as usize }
            } else {
                GpuWrite::Reuse
            },
            uploads.1 == if old(self).text_capacity() < final(self).text_instances().len() {
                GpuWrite::Reallocate { capacity: final(self).text_capacity() as usize }
            } else {
                GpuWrite::Reuse
            },
    {
        let lines = term.rows();
        let total = lines.len();
        let top = self.scroll.top as usize;
        let range = self.visible_range(term);
        let visible: usize = range.1 - range.0;
        let default = Color { r: 0, g: 0, b: 0 };
        let metrics = self.metrics;
        self.instances.clear();
        self.text_instances.clear();
        let mut row: usize = 0;
        while row < visible
            invariant
                row <= visible <= MAX_GRID_SIDE,
                visible == 0 || top + visible <= total,
                total == lines@.len() == term@.lines.len(),
                forall|i: int| 0 <= i < lines@.len() ==> (#[trigger] lines@[i])@ == term@.lines[i],
                term.wf(),
                default == default_background(),
                metrics == self.metrics,
                self.instances.capacity() == old(self).instances.capacity(),
                self.text_instances.capacity() == old(self).text_instances.capacity(),
                self.texture == old(self).texture,
                self.scroll == old(self).scroll,
                self.ui == old(self).ui,
                self.window_size == old(self).window_size,
                self.focused == old(self).focused,
                self.metrics == old(self).metrics,
                self.instances.items() == frame_backgrounds(
                    term@.lines,
                    default,
                    top as int,
                    row as int,
                ),
                self.text_instances.items() == frame_text(
                    self.texture.entries(),
                    shaped@,
                    term@.lines,
                    top as int,
                    metrics,
                    text_rows(row as int, shaped@.len() as int),
                ),
            decreases visible - row,
        {
            let line = &lines[top + row];
            assert(line@ == term@.lines[top + row]);
            push_line_backgrounds(&mut self.instances, line.cells(), default, row as u32);
            if row < shaped.len() {
                push_line_text(
                    &mut self.text_instances,
                    &self.texture,
                    &shaped[row],
                    line.cells(),
                    row as u32,
                    metrics,
                );
            }
            row += 1;
        }
        let cursor = term.cursor();
        let cursor_row: i64 = if cursor.1 >= top {
            if (cursor.1 - top) as u64 > i64::MAX as u64 {
                i64::MAX
            } else {
                (cursor.1 - top) as i64
            }
        } else {
            -((top - cursor.1) as i64)
        };
        let height = self.window_size.get().size[1];
        let thumb = self.scroll.thumb(height);
        let ui = self.ui.as_mut();
        let cursor_col: i64 = if cursor.0 as u64 > i64::MAX as u64 {
            i64::MAX
        } else {
            cursor.0 as i64
        };
        ui.cursor_pos = [cursor_col, cursor_row];
        ui.scrollbar_top = thumb.0;
        ui.scrollbar_height = thumb.1;
        let columns = if term.column() < MAX_GRID_SIDE {
            term.column()
        } else {
            MAX_GRID_SIDE
        };
        assert(columns * metrics.cell_width <= 0xffff * 0xffff_ffff && self.scroll.page_size
            * metrics.cell_height <= 0xffff * 0xffff_ffff) by (nonlinear_arith)
            requires
                0 <= columns <= 0xffff,
                0 <= self.scroll.page_size <= 0xffff,
                0 <= metrics.cell_width <= 0xffff_ffff,
                0 <= metrics.cell_height <= 0xffff_ffff,
        ;
        self.desired_size = [
            columns as u64 * metrics.cell_width as u64 + 64 * SCROLLBAR_WIDTH as u64,
            self.scroll.page_size as u64 * metrics.cell_height as u64,
        ];
        self.prev_term_seqno = term.current_seqno();
        let cells = self.instances.write();
        let text = self.text_instances.write();
        (cells, text)
    }

    /// `after` has what this context has, but for the window-size uniform,
    /// where the window stands in the scrollback, the focus, and the
    /// thumb's color, which goes with the focus.
    pub open spec fn kept_but_window(&self, after: &CellContext) -> bool {
        &&& after.cell_instances() == self.cell_instances()
        &&& after.text_instances() == self.text_instances()
        &&& after.cell_capacity() == self.cell_capacity()
        &&& after.text_capacity() == self.text_capacity()
        &&& after.ui() == (Ui { scrollbar_fg: thumb_color(after.focus()), ..self.ui() })
        &&& after.metrics() == self.metrics()
        &&& after.atlas() == self.atlas()
        &&& after.prev_seqno() == self.prev_seqno()
        &&& after.spec_desired_size() == self.spec_desired_size()
    }

    /// `after` has what this context has, but for where the window stands
    /// in the scrollback, the focus, and the thumb's color, which goes
    /// with the focus.
    pub open spec fn kept_by(&self, after: &CellContext) -> bool {
        &&& self.kept_but_window(after)
        &&& after.window() == self.window()
    }

    /// Number of lines of the grid, counted in 32 bits.
    fn count_lines(term: &Terminal) -> (count: u32)
        ensures
            count == line_count(term@),
    {
        let lines = term.rows().len();
        if lines > u32::MAX as usize {
            u32::MAX
        } else {
            lines as u32
        }
    }

    /// Takes the window's new size in pixels and the grid's columns: the
    /// uniform gets both, and the window shows as many rows as fit its
    /// height.
    pub fn resize(&mut self, width: u32, height: u32, term: &Terminal)
        requires
            old(self).wf(),
        ensures
            final(self).wf(),
            final(self).window() == (WindowSize {
                size: [width, height],
                column: column_count(term@),
                ..old(self).window()
            }),
            final(self).scroll_state() == old(self).scroll_state().resized(
                line_count(term@),
                cells_that_fit(height, old(self).metrics().cell_height),
            ),
            final(self).focus() == old(self).focus(),
            old(self).kept_but_window(final(self)),
    {
        let column = term.column();
        let window = self.window_size.as_mut();
        window.size = [width, height];
        window.column = if column > u32::MAX as usize {
            u32::MAX
        } else {
            column as u32
        };
        let rows = count_cells(height, self.metrics.cell_height);
        self.scroll.resize(Self::count_lines(term), rows);
    }

    /// Scrolls by `offset` lines within the lines that the grid has now.
    pub fn scroll(&mut self, offset: i32, term: &Terminal)
        requires
            old(self).wf(),
        ensures
            final(self).wf(),
            old(self).kept_by(final(self)),
            final(self).focus() == old(self).focus(),
            final(self).scroll_state() == old(self).scroll_state().resized(
                line_count(term@),
                old(self).scroll_state().page_size,
            ).scrolled(offset as int),
    {
        self.scroll.resize(Self::count_lines(term), self.scroll.page_size);
        self.scroll.scroll(offset);
    }

    /// Moves the window to the newest lines of the grid.
    pub fn scroll_to_bottom(&mut self, term: &Terminal)
        requires
            old(self).wf(),
        ensures
            final(self).wf(),
            old(self).kept_by(final(self)),
            final(self).focus() == old(self).focus(),
            final(self).scroll_state() == old(self).scroll_state().followed(
                line_count(term@),
                old(self).scroll_state().page_size,
            ),
            final(self).scroll_state().pinned(),
    {
        self.scroll.follow(Self::count_lines(term), self.scroll.page_size);
    }

    /// Scrolls for a drag of the scrollbar's thumb by `delta_y` pixels.
    /// Says whether the window moved.
    pub fn drag(&mut self, delta_y: i32) -> (moved: bool)
        requires
            old(self).wf(),
        ensures
            final(self).wf(),
            old(self).kept_by(final(self)),
            final(self).focus() == old(self).focus(),
            final(self).scroll_state() == old(self).scroll_state().dragged(
                delta_y as int,
                old(self).window().size[1],
            ),
            moved == (final(self).scroll_state() != old(self).scroll_state()),
    {
        let before = self.scroll.top;
        let height = self.window_size.get().size[1];
        self.scroll.drag(delta_y, height);
        self.scroll.top != before
    }

    /// What is at the pixel `(x, y)` of the window.
    pub fn target_at(&self, x: i32, y: i32) -> (target: MouseTarget)
        requires
            self.wf(),
        ensures
            target == target_of(
                x as int,
                y as int,
                self.window().size[0] as int,
                self.scroll_state().thumb_top(self.window().size[1]),
                self.scroll_state().thumb_height(self.window().size[1]),
            ),
    {
        let size = self.window_size.get().size;
        let thumb = self.scroll.thumb(size[1]);
        let x = x as i64;
        let y = y as i64;
        let width = size[0] as i64;
        if width - SCROLLBAR_WIDTH as i64 <= x && x < width && 0 <= x && thumb.0 as i64 <= y && y
            < thumb.0 as i64 + thumb.1 as i64 {
            MouseTarget::ScrollBar
        } else {
            MouseTarget::Empty
        }
    }

    /// Shows the scrollbar as under the pointer, or not, as `target` says.
    /// Says whether that is a change.
    pub fn set_focus(&mut self, target: MouseTarget) -> (changed: bool)
        requires
            old(self).wf(),
        ensures
            final(self).wf(),
            final(self).focus() == (target == MouseTarget::ScrollBar),
            changed == (final(self).focus() != old(self).focus()),
            final(self).scroll_state() == old(self).scroll_state(),
            old(self).kept_by(final(self)),
    {
        let focused = match target {
            MouseTarget::ScrollBar => true,
            MouseTarget::Empty => false,
        };
        if focused == self.focused {
            return false;
        }
        self.focused = focused;
        let ui = self.ui.as_mut();
        ui.scrollbar_fg = if focused {
            [204, 204, 204, 204]
        } else {
            [153, 153, 153, 153]
        };
        true
    }

    /// Reacts to the pointer resting at the pixel `(x, y)`. Says whether
    /// the scrollbar's look changed.
    pub fn hover(&mut self, x: i32, y: i32) -> (changed: bool)
        requires
            old(self).wf(),
        ensures
            final(self).wf(),
            final(self).focus() == (target_of(
                x as int,
                y as int,
                old(self).window().size[0] as int,
                old(self).scroll_state().thumb_top(old(self).window().size[1]),
                old(self).scroll_state().thumb_height(old(self).window().size[1]),
            ) == MouseTarget::ScrollBar),
            changed == (final(self).focus() != old(self).focus()),
            final(self).scroll_state() == old(self).scroll_state(),
            old(self).kept_by(final(self)),
    {
        let target = self.target_at(x, y);
        self.set_focus(target)
    }
}

impl CellContext {
    /// The numbers of instances and the GPU capacities fit a `usize`.
    pub proof fn lemma_fits(&self)
        ensures
            self.cell_instances().len() <= usize::MAX,
            self.text_instances().len() <= usize::MAX,
            self.cell_capacity() <= usize::MAX,
            self.text_capacity() <= usize::MAX,
            self.wf() ==> self.cell_capacity() > 0 && self.text_capacity() > 0,
    {
        self.instances.lemma_fits();
        self.text_instances.lemma_fits();
    }
}

/// A line whose sequence number is the same in an earlier and a later
/// state of the grid yields the same instances in both, for the same
/// glyphs in the same window row.
pub proof fn lemma_unchanged_line_same_instances(
    earlier: GridModel,
    later: GridModel,
    line: int,
    entries: Map<u16, GlyphCacheInfo>,
    glyphs: Seq<ShapedGlyph>,
    default: Color,
    row: int,
    metrics: FontMetrics,
)
    requires
        earlier.wf(),
        later.evolved_from(earlier),
        later.seqno < u64::MAX,
        0 <= line < earlier.lines.len(),
        line < later.lines.len(),
        later.lines[line].seqno == earlier.lines[line].seqno,
    ensures
        line_text(entries, glyphs, later.lines[line].cells, row, metrics) == line_text(
            entries,
            glyphs,
            earlier.lines[line].cells,
            row,
            metrics,
        ),
        line_backgrounds(
            later.lines[line].cells,
            default,
            row,
            shown_cells(later.lines[line].cells),
        ) == line_backgrounds(
            earlier.lines[line].cells,
            default,
            row,
            shown_cells(earlier.lines[line].cells),
        ),
{
    lemma_same_seqno_same_line(earlier, later, line);
}

/// A second rebuild from the same grid and glyphs changes nothing: the
/// instances, the UI uniform and the GPU capacities are those of the
/// first.
pub proof fn lemma_rebuild_twice(
    first: CellContext,
    second: CellContext,
    third: CellContext,
    grid: GridModel,
    shaped: Seq<Vec<ShapedGlyph>>,
)
    requires
        first.wf(),
        first.rebuilt_to(&second, grid, shaped),
        second.rebuilt_to(&third, grid, shaped),
    ensures
        third.cell_instances() == second.cell_instances(),
        third.text_instances() == second.text_instances(),
        third.ui() == second.ui(),
        third.cell_capacity() == second.cell_capacity(),
        third.text_capacity() == second.text_capacity(),
        third.scroll_state() == second.scroll_state(),
{
    first.lemma_fits();
    second.lemma_fits();
    lemma_grown(first.cell_capacity(), second.cell_instances().len() as int);
    lemma_grown(first.text_capacity(), second.text_instances().len() as int);
}

/// Glyphs that are not drawn yield no instance: a line of which no glyph
/// is in the atlas with a bitmap that has pixels has no text instances.
pub proof fn lemma_undrawn_glyphs_no_text(
    entries: Map<u16, GlyphCacheInfo>,
    glyphs: Seq<ShapedGlyph>,
    cells: Seq<Cell>,
    row: int,
    metrics: FontMetrics,
    count: int,
)
    requires
        count <= glyphs.len(),
        forall|j: int| 0 <= j < count ==> !is_drawn(entries, #[trigger] glyphs[j]),
    ensures
        line_vertices(entries, glyphs, cells, row, metrics, count) == Seq::<TextVertex>::empty(),
    decreases count,
{
    if count > 0 {
        lemma_undrawn_glyphs_no_text(entries, glyphs, cells, row, metrics, count - 1);
    }
}

/// Whether `vertex` is the instance of one of the first `count` glyphs of
/// a line in window row `row`.
pub open spec fn from_glyph(
    vertex: TextVertex,
    entries: Map<u16, GlyphCacheInfo>,
    glyphs: Seq<ShapedGlyph>,
    cells: Seq<Cell>,
    row: int,
    metrics: FontMetrics,
    count: int,
) -> bool {
    exists|j: int|
        0 <= j < count && is_drawn(entries, glyphs[j]) && vertex == #[trigger] glyph_vertex(
            entries[glyphs[j].id],
            glyphs,
            j,
            cells[j],
            row,
            metrics,
        )
}

/// A line has at most one text instance for each glyph that has a cell,
/// and each instance is that of a glyph of this line, on the baseline of
/// the line's own window row: no text spills into another row.
pub proof fn lemma_text_stays_in_row(
    entries: Map<u16, GlyphCacheInfo>,
    glyphs: Seq<ShapedGlyph>,
    cells: Seq<Cell>,
    row: int,
    metrics: FontMetrics,
    count: int,
)
    requires
        0 <= count <= glyphs.len(),
        count <= cells.len(),
    ensures
        line_vertices(entries, glyphs, cells, row, metrics, count).len() <= count,
        forall|k: int|
            0 <= k < line_vertices(entries, glyphs, cells, row, metrics, count).len()
                ==> from_glyph(
                #[trigger] line_vertices(entries, glyphs, cells, row, metrics, count)[k],
                entries,
                glyphs,
                cells,
                row,
                metrics,
                count,
            ),
    decreases count,
{
    if count > 0 {
        lemma_text_stays_in_row(entries, glyphs, cells, row, metrics, count - 1);
        let before = line_vertices(entries, glyphs, cells, row, metrics, count - 1);
        let all = line_vertices(entries, glyphs, cells, row, metrics, count);
        assert forall|k: int| 0 <= k < all.len() implies from_glyph(
            #[trigger] all[k],
            entries,
            glyphs,
            cells,
            row,
            metrics,
            count,
        ) by {
            if k < before.len() {
                assert(all[k] == before[k]);
                assert(from_glyph(before[k], entries, glyphs, cells, row, metrics, count - 1));
                let j = choose|j: int|
                    0 <= j < count - 1 && is_drawn(entries, glyphs[j]) && before[k]
                        == #[trigger] glyph_vertex(
                        entries[glyphs[j].id],
                        glyphs,
                        j,
                        cells[j],
                        row,
                        metrics,
                    );
                assert(0 <= j < count);
            } else {
                assert(all[k] == glyph_vertex(
                    entries[glyphs[count - 1].id],
                    glyphs,
                    count - 1,
                    cells[count - 1],
                    row,
                    metrics,
                ));
            }
        }
    }
}

/// The pen moves on by a glyph's advance whether the glyph is drawn or
/// not.
pub proof fn lemma_pen_advances(glyphs: Seq<ShapedGlyph>, index: int)
    requires
        0 <= index < glyphs.len(),
    ensures
        pen_x(glyphs, index + 1) == pen_x(glyphs, index) + glyphs[index].advance,
{
}

/// Where every glyph advances the pen by the same amount, the pen stands
/// before glyph `index` at `index` times that amount.
pub proof fn lemma_even_pen(glyphs: Seq<ShapedGlyph>, index: int, advance: int)
    requires
        0 <= index <= glyphs.len(),
        forall|j: int| 0 <= j < index ==> (#[trigger] glyphs[j]).advance == advance,
    ensures
        pen_x(glyphs, index) == index * advance,
    decreases index,
{
    if index > 0 {
        lemma_even_pen(glyphs, index - 1, advance);
        assert(glyphs[index - 1].advance == advance);
        assert(index * advance == (index - 1) * advance + advance) by (nonlinear_arith);
    } else {
        assert(index * advance == 0) by (nonlinear_arith)
            requires
                index == 0,
        ;
    }
}

/// A glyph that is not drawn adds no instance to its line.
pub proof fn lemma_undrawn_glyph_skipped(
    entries: Map<u16, GlyphCacheInfo>,
    glyphs: Seq<ShapedGlyph>,
    cells: Seq<Cell>,
    row: int,
    metrics: FontMetrics,
    count: int,
)
    requires
        0 < count <= glyphs.len(),
        !is_drawn(entries, glyphs[count - 1]),
    ensures
        line_vertices(entries, glyphs, cells, row, metrics, count) == line_vertices(
            entries,
            glyphs,
            cells,
            row,
            metrics,
            count - 1,
        ),
{
}

/// A line of which every glyph is drawn has one instance for each glyph,
/// in the order of the glyphs, all in the line's own window row.
pub proof fn lemma_full_row(
    entries: Map<u16, GlyphCacheInfo>,
    glyphs: Seq<ShapedGlyph>,
    cells: Seq<Cell>,
    row: int,
    metrics: FontMetrics,
    count: int,
)
    requires
        0 <= count <= glyphs.len(),
        forall|j: int| 0 <= j < count ==> is_drawn(entries, #[trigger] glyphs[j]),
    ensures
        line_vertices(entries, glyphs, cells, row, metrics, count).len() == count,
        forall|k: int|
            0 <= k < count ==> #[trigger] line_vertices(entries, glyphs, cells, row, metrics, count)[k]
                == glyph_vertex(entries[glyphs[k].id], glyphs, k, cells[k], row, metrics),
    decreases count,
{
    if count > 0 {
        lemma_full_row(entries, glyphs, cells, row, metrics, count - 1);
        let before = line_vertices(entries, glyphs, cells, row, metrics, count - 1);
        let all = line_vertices(entries, glyphs, cells, row, metrics, count);
        assert(is_drawn(entries, glyphs[count - 1]));
        assert forall|k: int| 0 <= k < count implies #[trigger] all[k] == glyph_vertex(
            entries[glyphs[k].id],
            glyphs,
            k,
            cells[k],
            row,
            metrics,
        ) by {
            if k < count - 1 {
                assert(all[k] == before[k]);
            }
        }
    }
}

/// The instances of a frame come from the lines that the window shows and
/// from no others: grids that agree on these lines give the same
/// instances.
pub proof fn lemma_frame_reads_visible_lines(
    entries: Map<u16, GlyphCacheInfo>,
    shaped: Seq<Vec<ShapedGlyph>>,
    lines: Seq<LineModel>,
    others: Seq<LineModel>,
    default: Color,
    top: int,
    metrics: FontMetrics,
    rows: int,
)
    requires
        forall|i: int| top <= i < top + rows ==> (#[trigger] lines[i]).cells == others[i].cells,
    ensures
        frame_backgrounds(lines, default, top, rows) == frame_backgrounds(
            others,
            default,
            top,
            rows,
        ),
        frame_text(entries, shaped, lines, top, metrics, rows) == frame_text(
            entries,
            shaped,
            others,
            top,
            metrics,
            rows,
        ),
    decreases rows,
{
    if rows > 0 {
        lemma_frame_reads_visible_lines(
            entries,
            shaped,
            lines,
            others,
            default,
            top,
            metrics,
            rows - 1,
        );
        assert(lines[top + rows - 1].cells == others[top + rows - 1].cells);
    }
}

} // verus!
