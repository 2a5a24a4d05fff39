//! The decisions of the render loop: what each event of the window and
//! each batch of the shell's output does to the renderer's state, and what
//! it asks of the program that owns the window, the GPU and the shell.

use crate::cell::{
    cells_that_fit, column_count, count_cells, line_count, target_of, CellContext, FontMetrics,
    MouseTarget, ShapedGlyph, WindowSize, SCROLLBAR_WIDTH,
};
use crate::event::TemuEvent;
use crate::font_texture::FontTexture;
use crate::scroll::{
    bottom, clamp, lemma_scroll_up_then_down, lemma_scrolled_times, lemma_zero_drag, ScrollState,
};
use crate::term::escape::decoded_all;
use crate::term::grid::Terminal;
use crate::viewport::Viewport;
use crate::wgpu_vec::GpuWrite;
use termwiz::escape::Action;
use vstd::prelude::*;

verus! {

/// Whether every pass of the loop draws a frame, dirty or not.
pub const ALWAYS_REDRAW: bool = false;

/// A pixel of the window, counted from its top-left corner.
#[derive(Clone, Copy, Debug, PartialEq, Eq, Structural)]
pub struct Point {
    pub x: i32,
    pub y: i32,
}

/// What the pointer is doing.
#[derive(Clone, Copy, Debug, PartialEq, Eq, Structural)]
pub enum MouseStatus {
    /// The button is up and the pointer is over the target.
    Hover(MouseTarget),
    /// The button went down over `target` at `start`, and the pointer is
    /// now at `current`.
    Drag { target: MouseTarget, start: Point, current: Point },
}

/// What an event asks of the program around the loop.
#[derive(Clone, Copy, Debug, PartialEq, Eq, Structural)]
pub enum Reaction {
    /// Nothing.
    Nothing,
    /// The window shows other lines: rebuild the instances.
    Rebuild,
    /// Send the character to the shell.
    Key(char),
    /// The button was released where it went down.
    Click(Point),
    /// The button was released after the pointer moved.
    DragEnd,
    /// Leave the loop.
    Exit,
}

/// The surface has to be configured anew, and the shell told of the size.
#[derive(Clone, Copy, Debug, PartialEq, Eq, Structural)]
pub struct Reconfigure {
    /// Width of the window in pixels.
    pub width: u32,
    /// Height of the window in pixels.
    pub height: u32,
    /// Columns that fit beside the scrollbar.
    pub cols: u32,
    /// Rows that fit.
    pub rows: u32,
}

/// What the loop's decisions depend on.
pub struct LoopState {
    /// Where the window stands in the scrollback.
    pub scroll: ScrollState,
    /// What the pointer is doing.
    pub mouse: MouseStatus,
    /// Where the pointer was last seen.
    pub pointer: Point,
    /// Whether the scrollbar is shown as under the pointer.
    pub focus: bool,
    /// Whether a frame is to be drawn.
    pub dirty: bool,
    /// The size that the window last reported, zero sizes left out.
    pub requested: (u32, u32),
    /// The size that the surface is configured with.
    pub configured: (u32, u32),
    /// The cell size and the descent.
    pub metrics: FontMetrics,
}

/// The distance from `from` to `to`, kept within 32 bits.
pub open spec fn travel(from: int, to: int) -> int {
    clamp(to - from, i32::MIN as int, i32::MAX as int)
}

impl LoopState {
    /// The state is well formed: the window is not scrolled past the
    /// newest lines, shows no more rows than a window can, and no size is
    /// zero.
    pub open spec fn wf(self) -> bool {
        &&& self.scroll.wf()
        &&& self.scroll.page_size <= crate::cell::MAX_GRID_SIDE
        &&& self.requested.0 > 0 && self.requested.1 > 0
        &&& self.configured.0 > 0 && self.configured.1 > 0
    }

    /// What is at the pixel `(x, y)`.
    pub open spec fn target_at(self, x: int, y: int) -> MouseTarget {
        target_of(
            x,
            y,
            self.configured.0 as int,
            self.scroll.thumb_top(self.configured.1),
            self.scroll.thumb_height(self.configured.1),
        )
    }

    /// The state after the pointer moved to `(x, y)`. While the thumb is
    /// dragged the window scrolls with the pointer; while nothing is
    /// dragged the scrollbar shows whether the pointer is over the thumb.
    pub open spec fn after_move(self, x: i32, y: i32) -> LoopState {
        let to = Point { x, y };
        match self.mouse {
            MouseStatus::Drag { target, start, current } => {
                let scroll = if target == MouseTarget::ScrollBar {
                    self.scroll.dragged(travel(current.y as int, y as int), self.configured.1)
                } else {
                    self.scroll
                };
                LoopState {
                    scroll,
                    mouse: MouseStatus::Drag { target, start, current: to },
                    pointer: to,
                    dirty: self.dirty || scroll != self.scroll,
                    ..self
                }
            },
            MouseStatus::Hover(_) => {
                let target = self.target_at(x as int, y as int);
                let focus = target == MouseTarget::ScrollBar;
                LoopState {
                    mouse: MouseStatus::Hover(target),
                    pointer: to,
                    focus,
                    dirty: self.dirty || focus != self.focus,
                    ..self
                }
            },
        }
    }

    /// The state after the left button went down or up.
    pub open spec fn after_button(self, pressed: bool) -> LoopState {
        match self.mouse {
            MouseStatus::Hover(target) => if pressed {
                LoopState {
                    mouse: MouseStatus::Drag { target, start: self.pointer, current: self.pointer },
                    ..self
                }
            } else {
                self
            },
            MouseStatus::Drag { target, start, current } => if pressed {
                self
            } else {
                LoopState { mouse: MouseStatus::Hover(target), ..self }
            },
        }
    }

    /// The state after an event of the window, the grid having `lines`
    /// lines.
    pub open spec fn after(self, event: TemuEvent, lines: u32) -> LoopState {
        match event {
            TemuEvent::Resize { width, height } => if width == 0 || height == 0 {
                self
            } else {
                LoopState {
                    requested: (width, height),
                    dirty: self.dirty || self.requested != (width, height),
                    ..self
                }
            },
            TemuEvent::CursorMove { x, y } => self.after_move(x, y),
            TemuEvent::Left(pressed) => self.after_button(pressed),
            TemuEvent::Redraw => LoopState { dirty: true, ..self },
            TemuEvent::ScrollUp => LoopState {
                scroll: self.scroll.resized(lines, self.scroll.page_size).scrolled(-1),
                dirty: true,
                ..self
            },
            TemuEvent::ScrollDown => LoopState {
                scroll: self.scroll.resized(lines, self.scroll.page_size).scrolled(1),
                dirty: true,
                ..self
            },
            TemuEvent::Close => self,
            TemuEvent::Char(_) => self,
            TemuEvent::DpiChange { dpi } => self,
        }
    }

    /// What an event of the window asks of the program.
    pub open spec fn reaction(self, event: TemuEvent, lines: u32) -> Reaction {
        match event {
            TemuEvent::CursorMove { x, y } => if self.after_move(x, y).scroll != self.scroll {
                Reaction::Rebuild
            } else {
                Reaction::Nothing
            },
            TemuEvent::Left(pressed) => if pressed {
                Reaction::Nothing
            } else {
                match self.mouse {
                    MouseStatus::Drag { target, start, current } => if current != start {
                        Reaction::DragEnd
                    } else {
                        Reaction::Click(self.pointer)
                    },
                    MouseStatus::Hover(_) => Reaction::Click(self.pointer),
                }
            },
            TemuEvent::ScrollUp => Reaction::Rebuild,
            TemuEvent::ScrollDown => Reaction::Rebuild,
            TemuEvent::Close => Reaction::Exit,
            TemuEvent::Char(c) => Reaction::Key(c),
            _ => Reaction::Nothing,
        }
    }

    /// The state after new output of the shell went into the grid, which
    /// now has `lines` lines: the window shows the newest lines.
    pub open spec fn after_output(self, lines: u32) -> LoopState {
        LoopState {
            scroll: self.scroll.followed(lines, self.scroll.page_size),
            dirty: true,
            ..self
        }
    }

    /// Whether the surface has to be configured anew before the next
    /// frame.
    pub open spec fn stale(self) -> bool {
        self.requested != self.configured
    }

    /// The state once the next frame has begun, the grid having `lines`
    /// lines: the surface is configured with the size that the window last
    /// reported, and the window shows as many rows as fit.
    pub open spec fn after_begin_frame(self, lines: u32) -> LoopState {
        if self.stale() {
            LoopState {
                configured: self.requested,
                scroll: self.scroll.resized(
                    lines,
                    cells_that_fit(self.requested.1, self.metrics.cell_height),
                ),
                ..self
            }
        } else {
            self
        }
    }

    /// What the program has to configure before the next frame, if
    /// anything.
    pub open spec fn reconfigure(self) -> Option<Reconfigure> {
        if self.stale() {
            Some(
                Reconfigure {
                    width: self.requested.0,
                    height: self.requested.1,
                    cols: cells_that_fit(
                        if self.requested.0 > crate::cell::SCROLLBAR_WIDTH {
                            (self.requested.0 - crate::cell::SCROLLBAR_WIDTH) as u32
                        } else {
                            0
                        },
                        self.metrics.cell_width,
                    ),
                    rows: cells_that_fit(self.requested.1, self.metrics.cell_height),
                },
            )
        } else {
            None
        }
    }
}

/// The renderer's state on the processor's side: the configured size of
/// the surface and everything that the cell renderer keeps.
pub struct WgpuContext {
    viewport: Viewport,
    cell_ctx: CellContext,
}

impl WgpuContext {
    /// The size that the surface is configured with.
    pub closed spec fn configured(&self) -> (u32, u32) {
        (self.viewport.width(), self.viewport.height())
    }

    /// What the cell renderer keeps.
    pub closed spec fn cells(&self) -> CellContext {
        self.cell_ctx
    }

    /// The state is well formed: the cell renderer's is, no side of the
    /// surface is zero, and the window-size uniform holds the configured
    /// size.
    pub open spec fn wf(&self) -> bool {
        &&& self.cells().wf()
        &&& self.configured().0 > 0 && self.configured().1 > 0
        &&& self.cells().window().size == [self.configured().0, self.configured().1]
    }

    /// The state for a surface as `viewport` says and the atlas `texture`.
    pub fn new(viewport: Viewport, texture: FontTexture, metrics: FontMetrics) -> (ctx: Self)
        requires
            viewport.wf(),
        ensures
            ctx.wf(),
            ctx.configured() == (viewport.width(), viewport.height()),
            ctx.cells().metrics() == metrics,
            ctx.cells().atlas() == texture,
            ctx.cells().scroll_state() == (ScrollState { top: 0, max: 0, page_size: crate::term::ROW }),
            ctx.cells().cell_instances() == Seq::<crate::cell::CellVertex>::empty(),
            ctx.cells().text_instances() == Seq::<crate::cell::TextVertex>::empty(),
            ctx.cells().cell_capacity() == crate::wgpu_vec::INITIAL_CAPACITY,
            ctx.cells().text_capacity() == crate::wgpu_vec::INITIAL_CAPACITY,
            !ctx.cells().focus(),
    {
        let cell_ctx = CellContext::new(texture, metrics, &viewport);
        Self { viewport, cell_ctx }
    }

    /// Takes the window's new size: the surface is to be configured with
    /// it, and the cell renderer learns of it.
    pub fn resize(&mut self, width: u32, height: u32, term: &Terminal)
        requires
            old(self).wf(),
            width > 0,
            height > 0,
        ensures
            final(self).wf(),
            final(self).configured() == (width, height),
            final(self).cells().scroll_state() == old(self).cells().scroll_state().resized(
                line_count(term@),
                cells_that_fit(height, old(self).cells().metrics().cell_height),
            ),
            final(self).cells().focus() == old(self).cells().focus(),
            old(self).cells().kept_but_window(&final(self).cells()),
            final(self).cells().window() == (WindowSize {
                size: [width, height],
                column: column_count(term@),
                ..old(self).cells().window()
            }),
    {
        self.viewport.resize(width, height);
        self.cell_ctx.resize(width, height, term);
    }

    /// What the cell renderer keeps.
    pub fn cell_ctx(&self) -> (cell_ctx: &CellContext)
        ensures
            *cell_ctx == self.cells(),
    {
        &self.cell_ctx
    }

    /// The configured size of the surface.
    pub fn viewport(&self) -> (viewport: &Viewport)
        ensures
            (viewport.width(), viewport.height()) == self.configured(),
    {
        &self.viewport
    }
}

/// The render loop's state.
pub struct RenderLoop {
    ctx: WgpuContext,
    mouse: MouseStatus,
    pointer: Point,
    need_redraw: bool,
    current_size: (u32, u32),
}

impl View for RenderLoop {
    type V = LoopState;

    closed spec fn view(&self) -> LoopState {
        LoopState {
            scroll: self.ctx.cells().scroll_state(),
            mouse: self.mouse,
            pointer: self.pointer,
            focus: self.ctx.cells().focus(),
            dirty: self.need_redraw,
            requested: self.current_size,
            configured: self.ctx.configured(),
            metrics: self.ctx.cells().metrics(),
        }
    }
}

impl RenderLoop {
    /// The renderer's state.
    pub closed spec fn context(&self) -> WgpuContext {
        self.ctx
    }

    /// The loop is well formed: the renderer's state is, and what the
    /// decisions depend on is what that state holds.
    pub open spec fn wf(&self) -> bool {
        &&& self.context().wf()
        &&& self@.wf()
        &&& self@.scroll == self.context().cells().scroll_state()
        &&& self@.focus == self.context().cells().focus()
        &&& self@.configured == self.context().configured()
        &&& self@.metrics == self.context().cells().metrics()
    }

    /// A loop that has yet to draw its first frame: the pointer rests at
    /// the corner over nothing, and the window shows the newest lines.
    pub fn new(ctx: WgpuContext) -> (state: Self)
        requires
            ctx.wf(),
        ensures
            state.wf(),
            state.context() == ctx,
            state@ == (LoopState {
                scroll: ctx.cells().scroll_state(),
                mouse: MouseStatus::Hover(MouseTarget::Empty),
                pointer: Point { x: 0, y: 0 },
                focus: ctx.cells().focus(),
                dirty: true,
                requested: ctx.configured(),
                configured: ctx.configured(),
                metrics: ctx.cells().metrics(),
            }),
    {
        let current_size = (ctx.viewport().width(), ctx.viewport().height());
        Self {
            ctx,
            mouse: MouseStatus::Hover(MouseTarget::Empty),
            pointer: Point { x: 0, y: 0 },
            need_redraw: true,
            current_size,
        }
    }

    /// The renderer's state.
    pub fn ctx(&self) -> (ctx: &WgpuContext)
        ensures
            *ctx == self.context(),
    {
        &self.ctx
    }

    /// What the pointer is doing.
    pub fn mouse(&self) -> (mouse: MouseStatus)
        ensures
            mouse == self@.mouse,
    {
        self.mouse
    }

    /// Whether a frame is to be drawn now.
    pub fn frame_due(&self) -> (due: bool)
        ensures
            due == (self@.dirty || ALWAYS_REDRAW),
    {
        self.need_redraw || ALWAYS_REDRAW
    }

    /// Takes one event of the window. The instances stay as they are.
    pub fn handle_event(&mut self, event: TemuEvent, term: &Terminal) -> (reaction: Reaction)
        requires
            old(self).wf(),
        ensures
            final(self).wf(),
            final(self)@ == old(self)@.after(event, line_count(term@)),
            reaction == old(self)@.reaction(event, line_count(term@)),
            old(self).context().cells().kept_by(&final(self).context().cells()),
    {
        match event {
            TemuEvent::Resize { width, height } => {
                if width != 0 && height != 0 {
                    if self.current_size.0 != width || self.current_size.1 != height {
                        self.need_redraw = true;
                    }
                    self.current_size = (width, height);
                }
                Reaction::Nothing
            },
            TemuEvent::CursorMove { x, y } => {
                let to = Point { x, y };
                self.pointer = to;
                match self.mouse {
                    MouseStatus::Drag { target, start, current } => {
                        self.mouse = MouseStatus::Drag { target, start, current: to };
                        let moved = match target {
                            MouseTarget::ScrollBar => {
                                let delta = y as i64 - current.y as i64;
                                let delta: i32 = if delta < i32::MIN as i64 {
                                    i32::MIN
                                } else if delta > i32::MAX as i64 {
                                    i32::MAX
                                } else {
                                    delta as i32
                                };
                                self.ctx.cell_ctx.drag(delta)
                            },
                            MouseTarget::Empty => false,
                        };
                        if moved {
                            self.need_redraw = true;
                            Reaction::Rebuild
                        } else {
                            Reaction::Nothing
                        }
                    },
                    MouseStatus::Hover(_) => {
                        let target = self.ctx.cell_ctx.target_at(x, y);
                        if self.ctx.cell_ctx.set_focus(target) {
                            self.need_redraw = true;
                        }
                        self.mouse = MouseStatus::Hover(target);
                        Reaction::Nothing
                    },
                }
            },
            TemuEvent::Left(pressed) => {
                match self.mouse {
                    MouseStatus::Hover(target) => {
                        if pressed {
                            self.mouse = MouseStatus::Drag {
                                target,
                                start: self.pointer,
                                current: self.pointer,
                            };
                            Reaction::Nothing
                        } else {
                            Reaction::Click(self.pointer)
                        }
                    },
                    MouseStatus::Drag { target, start, current } => {
                        if pressed {
                            Reaction::Nothing
                        } else {
                            self.mouse = MouseStatus::Hover(target);
                            if current != start {
                                Reaction::DragEnd
                            } else {
                                Reaction::Click(self.pointer)
                            }
                        }
                    },
                }
            },
            TemuEvent::Redraw => {
                self.need_redraw = true;
                Reaction::Nothing
            },
            TemuEvent::ScrollUp => {
                self.ctx.cell_ctx.scroll(-1, term);
                self.need_redraw = true;
                Reaction::Rebuild
            },
            TemuEvent::ScrollDown => {
                self.ctx.cell_ctx.scroll(1, term);
                self.need_redraw = true;
                Reaction::Rebuild
            },
            TemuEvent::Close => Reaction::Exit,
            TemuEvent::Char(c) => Reaction::Key(c),
            TemuEvent::DpiChange { dpi } => Reaction::Nothing,
        }
    }

    /// Takes a batch of the shell's output: the grid carries out the
    /// actions, and the window moves to the newest lines. The instances
    /// stay as they are until they are rebuilt.
    pub fn handle_actions(&mut self, term: &mut Terminal, actions: Vec<Action>)
        requires
            old(self).wf(),
            old(term).wf(),
        ensures
            final(self).wf(),
            final(term).wf(),
            final(term)@ == old(term)@.apply_all(decoded_all(actions@)),
            final(self)@ == old(self)@.after_output(line_count(final(term)@)),
            old(self).context().cells().kept_by(&final(self).context().cells()),
    {
        term.perform_actions(actions);
        self.ctx.cell_ctx.scroll_to_bottom(term);
        self.need_redraw = true;
    }

    /// Begins a frame. Where the window's size is not the configured one,
    /// it becomes the configured one, the grid gets the columns that fit
    /// beside the scrollbar, the window shows the rows that fit, and the
    /// program is told what to configure.
    pub fn begin_frame(&mut self, term: &mut Terminal) -> (change: Option<Reconfigure>)
        requires
            old(self).wf(),
            old(term).wf(),
        ensures
            final(self).wf(),
            final(term).wf(),
            change == old(self)@.reconfigure(),
            final(term)@ == match change {
                Some(change) => old(term)@.resized(change.cols as int),
                None => old(term)@,
            },
            final(self)@ == old(self)@.after_begin_frame(line_count(old(term)@)),
            final(self)@.configured == old(self)@.requested,
            old(self).context().cells().kept_but_window(&final(self).context().cells()),
            final(self).context().cells().window() == match change {
                Some(change) => WindowSize {
                    size: [change.width, change.height],
                    column: change.cols,
                    ..old(self).context().cells().window()
                },
                None => old(self).context().cells().window(),
            },
    {
        let (width, height) = self.current_size;
        if self.ctx.viewport.width() == width && self.ctx.viewport.height() == height {
            return None;
        }
        let beside = if width > SCROLLBAR_WIDTH {
            width - SCROLLBAR_WIDTH
        } else {
            0
        };
        let cols = count_cells(beside, self.ctx.cell_ctx.font_metrics().cell_width);
        let rows = count_cells(height, self.ctx.cell_ctx.font_metrics().cell_height);
        term.resize(cols as usize);
        proof {
            crate::term::grid::lemma_resized(old(term)@, cols as int);
        }
        self.ctx.resize(width, height, term);
        Some(Reconfigure { width, height, cols, rows })
    }

    /// Rebuilds the instances for the frame. See
    /// [`CellContext::set_terminal`].
    pub fn rebuild(&mut self, term: &Terminal, shaped: &Vec<Vec<ShapedGlyph>>) -> (uploads: (
        GpuWrite,
        GpuWrite,
    ))
        requires
            old(self).wf(),
            term.wf(),
        ensures
            final(self).wf(),
            final(self)@ == old(self)@,
            old(self).context().cells().rebuilt_to(&final(self).context().cells(), term@, shaped@),
            final(self).context().cells().cell_capacity() >= old(
                self,
            ).context().cells().cell_capacity(),
            final(self).context().cells().text_capacity() >= old(
                self,
            ).context().cells().text_capacity(),
            uploads.0 == if old(self).context().cells().cell_capacity() < final(self).context().cells().cell_instances().len() {
                GpuWrite::Reallocate {
                    capacity: final(self).context().cells().cell_capacity() as usize,
                }
            } else {
                GpuWrite::Reuse
            },
            uploads.1 == if old(self).context().cells().text_capacity() < final(self).context().cells().text_instances().len() {
                GpuWrite::Reallocate {
                    capacity: final(self).context().cells().text_capacity() as usize,
                }
            } else {
                GpuWrite::Reuse
            },
    {
        self.ctx.cell_ctx.set_terminal(term, shaped)
    }

    /// Ends a frame that was drawn or left out: no frame is due until
    /// something changes.
    pub fn end_frame(&mut self)
        ensures
            final(self)@ == (LoopState { dirty: ALWAYS_REDRAW, ..old(self)@ }),
            final(self).context() == old(self).context(),
            old(self).wf() ==> final(self).wf(),
    {
        self.need_redraw = ALWAYS_REDRAW;
    }
}

impl LoopState {
    /// The state after the same event `count` times over.
    pub open spec fn after_repeated(self, event: TemuEvent, count: nat, lines: u32) -> LoopState
        decreases count,
    {
        if count == 0 {
            self
        } else {
            self.after(event, lines).after_repeated(event, (count - 1) as nat, lines)
        }
    }
}

/// Whatever the event, the window stays between the first line and the
/// newest page.
pub proof fn lemma_event_keeps_scroll_in_range(state: LoopState, event: TemuEvent, lines: u32)
    requires
        state.wf(),
    ensures
        state.after(event, lines).wf(),
        0 <= state.after(event, lines).scroll.top <= state.after(event, lines).scroll.max,
{
}

/// New output and the begin of a frame keep the window between the first
/// line and the newest page; new output puts it at the newest page.
pub proof fn lemma_output_and_frame_keep_scroll_in_range(state: LoopState, lines: u32)
    requires
        state.wf(),
    ensures
        state.after_output(lines).wf(),
        state.after_output(lines).scroll.pinned(),
        state.after_begin_frame(lines).wf(),
{
}

/// After the window reported a size without a zero side, the next frame
/// configures the surface with exactly that size, and asks the program to
/// do so unless the surface has it already. A size with a zero side
/// changes nothing.
pub proof fn lemma_resize_reaches_surface(
    state: LoopState,
    width: u32,
    height: u32,
    lines: u32,
    lines_at_frame: u32,
)
    requires
        state.wf(),
    ensures
        width == 0 || height == 0 ==> state.after(TemuEvent::Resize { width, height }, lines)
            == state,
        width > 0 && height > 0 ==> {
            let resized = state.after(TemuEvent::Resize { width, height }, lines);
            &&& resized.after_begin_frame(lines_at_frame).configured == (width, height)
            &&& (width, height) != state.configured ==> (resized.reconfigure() matches Some(change)
                && change.width == width && change.height == height)
            &&& (width, height) == state.configured ==> resized.reconfigure() is None
        },
{
}

/// Moving the pointer during a drag without changing its height leaves the
/// window where it is.
pub proof fn lemma_still_drag_keeps_scroll(state: LoopState, x: i32, lines: u32)
    requires
        state.wf(),
        state.mouse is Drag,
    ensures
        state.after(TemuEvent::CursorMove { x, y: state.mouse->current.y }, lines).scroll
            == state.scroll,
{
    lemma_zero_drag(state.scroll, state.configured.1);
}

/// Scroll events change nothing but the window's place and the dirty flag.
pub proof fn lemma_scroll_events(state: LoopState, up: bool, count: nat, lines: u32)
    requires
        state.wf(),
        state.scroll.max == bottom(lines as int, state.scroll.page_size as int),
    ensures
        state.after_repeated(
            if up {
                TemuEvent::ScrollUp
            } else {
                TemuEvent::ScrollDown
            },
            count,
            lines,
        ) == (LoopState {
            scroll: state.scroll.scrolled_times(
                if up {
                    -1
                } else {
                    1
                },
                count,
            ),
            dirty: state.dirty || count > 0,
            ..state
        }),
    decreases count,
{
    let event = if up {
        TemuEvent::ScrollUp
    } else {
        TemuEvent::ScrollDown
    };
    if count > 0 {
        assert(state.scroll.resized(lines, state.scroll.page_size) == state.scroll);
        lemma_scroll_events(state.after(event, lines), up, (count - 1) as nat, lines);
    }
}

/// As many scroll-down events as scroll-up events before them bring the
/// window back to where it was, provided the way up did not stop at the
/// first line and the grid got no new lines.
pub proof fn lemma_scroll_events_round_trip(state: LoopState, count: nat, lines: u32)
    requires
        state.wf(),
        state.scroll.max == bottom(lines as int, state.scroll.page_size as int),
        count <= state.scroll.top,
    ensures
        state.after_repeated(TemuEvent::ScrollUp, count, lines).after_repeated(
            TemuEvent::ScrollDown,
            count,
            lines,
        ).scroll == state.scroll,
{
    lemma_scroll_events(state, true, count, lines);
    let up = state.after_repeated(TemuEvent::ScrollUp, count, lines);
    lemma_scrolled_times(state.scroll, -1, count);
    lemma_scroll_events(up, false, count, lines);
    lemma_scroll_up_then_down(state.scroll, count);
}

} // verus!
