//! The scrollback viewport: which line is at the top of the window, how
//! far it may go, and what the scrollbar shows.

use vstd::prelude::*;

verus! {

/// `a / b` rounded to the nearest integer, halves away from zero.
pub open spec fn round_div(a: int, b: int) -> int
    recommends
        b > 0,
{
    if a >= 0 {
        a / b + if 2 * (a % b) >= b {
            1int
        } else {
            0int
        }
    } else {
        -((-a) / b + if 2 * ((-a) % b) >= b {
            1int
        } else {
            0int
        })
    }
}

/// `value` brought into `low ..= high`.
pub open spec fn clamp(value: int, low: int, high: int) -> int {
    if value < low {
        low
    } else if value > high {
        high
    } else {
        value
    }
}

/// Index of the first line of the window when it shows the newest lines:
/// the number of lines above the last `rows`.
pub open spec fn bottom(total_lines: int, rows: int) -> int {
    if total_lines > rows {
        total_lines - rows
    } else {
        0
    }
}

/// The rounded quotient is within half a unit of the exact one.
pub proof fn lemma_round_div_nearest(a: int, b: int)
    requires
        b > 0,
    ensures
        -b <= 2 * (b * round_div(a, b) - a) <= b,
        a == 0 ==> round_div(a, b) == 0,
        a > 0 ==> round_div(a, b) >= 0,
        a < 0 ==> round_div(a, b) <= 0,
{
    let m = if a >= 0 {
        a
    } else {
        -a
    };
    vstd::arithmetic::div_mod::lemma_fundamental_div_mod(m, b);
    vstd::arithmetic::div_mod::lemma_mod_bound(m, b);
    vstd::arithmetic::div_mod::lemma_div_pos_is_pos(m, b);
    let q = m / b;
    let r = m % b;
    assert(m == b * q + r);
    assert(b * (q + 1) == b * q + b) by (nonlinear_arith);
    if a == 0 {
        vstd::arithmetic::div_mod::lemma_div_basics(b);
    }
    if a < 0 {
        assert(b * (-(q + 1)) == -(b * (q + 1))) by (nonlinear_arith);
        assert(b * (-q) == -(b * q)) by (nonlinear_arith);
    }
}

/// Where the window stands in the scrollback.
#[derive(Clone, Copy, Debug, PartialEq, Eq, Structural)]
pub struct ScrollState {
    /// Index of the line at the top of the window.
    pub top: u32,
    /// The largest value that `top` may have: the window then shows the
    /// newest lines.
    pub max: u32,
    /// Number of lines that the window shows.
    pub page_size: u32,
}

impl ScrollState {
    /// The window does not go past the newest lines.
    pub open spec fn wf(self) -> bool {
        self.top <= self.max
    }

    /// The window shows the newest lines.
    pub open spec fn pinned(self) -> bool {
        self.top == self.max
    }

    /// Number of lines in all: those above the newest page, and that page.
    pub open spec fn total_lines(self) -> int {
        self.max + self.page_size
    }

    /// The state after scrolling by `offset` lines: down where it is
    /// positive, up where it is negative, and never past either end.
    pub open spec fn scrolled(self, offset: int) -> ScrollState {
        ScrollState { top: clamp(self.top + offset, 0, self.max as int) as u32, ..self }
    }

    /// The state with the window at the newest lines.
    pub open spec fn at_bottom(self) -> ScrollState {
        ScrollState { top: self.max, ..self }
    }

    /// The state for `total_lines` lines and a window of `rows` lines, with
    /// the window where it was or, where that is no longer possible, at the
    /// newest lines.
    pub open spec fn resized(self, total_lines: u32, rows: u32) -> ScrollState {
        let max = bottom(total_lines as int, rows as int) as u32;
        ScrollState {
            top: if self.top < max {
                self.top
            } else {
                max
            },
            max,
            page_size: rows,
        }
    }

    /// The state for `total_lines` lines and a window of `rows` lines, with
    /// the window at the newest lines.
    pub open spec fn followed(self, total_lines: u32, rows: u32) -> ScrollState {
        self.resized(total_lines, rows).at_bottom()
    }

    /// Top edge of the scrollbar thumb, in pixels from the top of a track
    /// `track` pixels high: the part of all lines that is above the window.
    pub open spec fn thumb_top(self, track: u32) -> int {
        if self.total_lines() == 0 {
            0
        } else {
            (self.top * track) / self.total_lines()
        }
    }

    /// Height of the scrollbar thumb in pixels: the part of all lines that
    /// the window shows.
    pub open spec fn thumb_height(self, track: u32) -> int {
        if self.total_lines() == 0 {
            track as int
        } else {
            (self.page_size * track) / self.total_lines()
        }
    }

    /// Lines to scroll for a drag of the thumb by `delta_y` pixels: the
    /// thumb's travel scaled to the lines above the newest page, rounded to
    /// a whole line. A thumb without height scrolls nothing.
    pub open spec fn drag_lines(self, delta_y: int, track: u32) -> int {
        if self.thumb_height(track) == 0 {
            0
        } else {
            round_div(delta_y * self.max, self.thumb_height(track))
        }
    }

    /// The state after dragging the thumb by `delta_y` pixels.
    pub open spec fn dragged(self, delta_y: int, track: u32) -> ScrollState {
        self.scrolled(self.drag_lines(delta_y, track))
    }

    /// The state before any line is known.
    pub fn new() -> (state: Self)
        ensures
            state == (ScrollState { top: 0, max: 1, page_size: 1 }),
    {
        Self { top: 0, max: 1, page_size: 1 }
    }

    /// Whether the window shows the newest lines.
    pub fn is_pinned(&self) -> (pinned: bool)
        ensures
            pinned == self.pinned(),
    {
        self.top == self.max
    }

    /// Scrolls by `offset` lines, stopping at either end.
    pub fn scroll(&mut self, offset: i32)
        ensures
            *final(self) == old(self).scrolled(offset as int),
            final(self).wf(),
    {
        let target = self.top as i64 + offset as i64;
        self.top = if target < 0 {
            0
        } else if target > self.max as i64 {
            self.max
        } else {
            target as u32
        };
    }

    /// Moves the window to the newest lines.
    pub fn scroll_to_bottom(&mut self)
        ensures
            *final(self) == old(self).at_bottom(),
            final(self).wf(),
            final(self).pinned(),
    {
        self.top = self.max;
    }

    /// Takes a new number of lines and window height, keeping the window
    /// where it was if that is still possible.
    pub fn resize(&mut self, total_lines: u32, rows: u32)
        ensures
            *final(self) == old(self).resized(total_lines, rows),
            final(self).wf(),
    {
        let max = if total_lines > rows {
            total_lines - rows
        } else {
            0
        };
        if self.top > max {
            self.top = max;
        }
        self.max = max;
        self.page_size = rows;
    }

    /// Takes a new number of lines and window height, and moves the window
    /// to the newest lines.
    pub fn follow(&mut self, total_lines: u32, rows: u32)
        ensures
            *final(self) == old(self).followed(total_lines, rows),
            final(self).wf(),
            final(self).pinned(),
    {
        self.resize(total_lines, rows);
        self.scroll_to_bottom();
    }

    /// The scrollbar thumb's top edge and height, in pixels, on a track
    /// `track` pixels high.
    pub fn thumb(&self, track: u32) -> (thumb: (u32, u32))
        requires
            self.wf(),
        ensures
            thumb.0 == self.thumb_top(track),
            thumb.1 == self.thumb_height(track),
            thumb.0 + thumb.1 <= track,
    {
        let total = self.max as u64 + self.page_size as u64;
        if total == 0 {
            return (0, track);
        }
        assert(self.top * track <= 0xffff_ffff * 0xffff_ffff && self.page_size * track <= 0xffff_ffff
            * 0xffff_ffff) by (nonlinear_arith)
            requires
                self.top <= 0xffff_ffff,
                self.page_size <= 0xffff_ffff,
                track <= 0xffff_ffff,
        ;
        let above = self.top as u64 * track as u64;
        let shown = self.page_size as u64 * track as u64;
        proof {
            let t = track as int;
            let n = total as int;
            assert(self.top * t + self.page_size * t <= n * t) by (nonlinear_arith)
                requires
                    self.top + self.page_size <= n,
                    t >= 0,
            ;
            vstd::arithmetic::div_mod::lemma_fundamental_div_mod(above as int, n);
            vstd::arithmetic::div_mod::lemma_fundamental_div_mod(shown as int, n);
            vstd::arithmetic::div_mod::lemma_mod_bound(above as int, n);
            vstd::arithmetic::div_mod::lemma_mod_bound(shown as int, n);
            let qa = above as int / n;
            let qs = shown as int / n;
            assert(n * qa + n * qs == n * (qa + qs)) by (nonlinear_arith);
            assert(n * (qa + qs) <= n * t);
            assert(qa + qs <= t) by (nonlinear_arith)
                requires
                    n * (qa + qs) <= n * t,
                    n > 0,
            ;
            vstd::arithmetic::div_mod::lemma_div_pos_is_pos(above as int, n);
            vstd::arithmetic::div_mod::lemma_div_pos_is_pos(shown as int, n);
        }
        ((above / total) as u32, (shown / total) as u32)
    }

    /// Scrolls for a drag of the thumb by `delta_y` pixels on a track
    /// `track` pixels high.
    pub fn drag(&mut self, delta_y: i32, track: u32)
        requires
            old(self).wf(),
        ensures
            *final(self) == old(self).dragged(delta_y as int, track),
            final(self).wf(),
    {
        let (_, height) = self.thumb(track);
        if height == 0 {
            return ;
        }
        let down = delta_y >= 0;
        let pixels: u64 = if down {
            delta_y as u64
        } else {
            (-(delta_y as i64)) as u64
        };
        assert(pixels * self.max <= 0x8000_0000 * 0xffff_ffff) by (nonlinear_arith)
            requires
                pixels <= 0x8000_0000,
                self.max <= 0xffff_ffff,
        ;
        let travel = pixels * self.max as u64;
        let lines = travel / height as u64 + if 2 * (travel % height as u64) >= height as u64 {
            1
        } else {
            0
        };
        proof {
            let a = delta_y as int * self.max as int;
            if down {
                assert(a == travel);
            } else {
                assert(pixels == -(delta_y as int));
                assert(-a == travel) by (nonlinear_arith)
                    requires
                        a == delta_y as int * self.max as int,
                        travel == pixels * self.max,
                        pixels == -(delta_y as int),
                ;
                assert(a <= 0) by (nonlinear_arith)
                    requires
                        a == delta_y as int * self.max as int,
                        delta_y < 0,
                        self.max >= 0,
                ;
                if a == 0 {
                    vstd::arithmetic::div_mod::lemma_div_basics(height as int);
                    vstd::arithmetic::div_mod::lemma_small_mod(0, height as nat);
                    assert(travel == 0);
                    assert(lines == 0);
                }
            }
            assert(self.drag_lines(delta_y as int, track) == if down {
                lines as int
            } else {
                -(lines as int)
            });
        }
        if down {
            self.top = if lines > (self.max - self.top) as u64 {
                self.max
            } else {
                self.top + lines as u32
            };
        } else {
            self.top = if lines > self.top as u64 {
                0
            } else {
                self.top - lines as u32
            };
        }
    }
}

impl ScrollState {
    /// The state after scrolling `count` times by `step` lines.
    pub open spec fn scrolled_times(self, step: int, count: nat) -> ScrollState
        decreases count,
    {
        if count == 0 {
            self
        } else {
            self.scrolled(step).scrolled_times(step, (count - 1) as nat)
        }
    }
}

/// However far the window is scrolled, it stays between the first line and
/// the newest page.
pub proof fn lemma_scrolled_in_range(state: ScrollState, offset: int)
    ensures
        state.scrolled(offset).wf(),
        state.scrolled(offset).max == state.max,
        state.scrolled(offset).page_size == state.page_size,
{
}

/// Scrolling line by line ends where one scroll by the whole distance
/// ends, as long as the steps all go the same way.
pub proof fn lemma_scrolled_times(state: ScrollState, step: int, count: nat)
    requires
        state.wf(),
        step == 1 || step == -1,
    ensures
        state.scrolled_times(step, count) == state.scrolled(step * count),
    decreases count,
{
    if count > 0 {
        lemma_scrolled_times(state.scrolled(step), step, (count - 1) as nat);
        assert(step * count == step + step * (count - 1)) by (nonlinear_arith);
        assert(step * (count - 1) >= 0 <==> step == 1 || count == 1) by (nonlinear_arith)
            requires
                step == 1 || step == -1,
                count >= 1,
        ;
    }
}

/// Scrolling up by some lines and then down by as many ends where it
/// began, provided the way up did not stop at the first line.
pub proof fn lemma_scroll_up_then_down(state: ScrollState, lines: nat)
    requires
        state.wf(),
        lines <= state.top,
    ensures
        state.scrolled(-(lines as int)).scrolled(lines as int) == state,
        state.scrolled_times(-1, lines).scrolled_times(1, lines) == state,
{
    lemma_scrolled_times(state, -1, lines);
    lemma_scrolled_times(state.scrolled(-(lines as int)), 1, lines);
    assert(-1 * lines == -(lines as int));
    assert(1 * lines == lines as int);
}

/// Where new lines arrived between the way up and the way down, the window
/// ends at the newest lines, wherever it began.
pub proof fn lemma_scroll_with_output_between(
    state: ScrollState,
    lines: nat,
    total_lines: u32,
    rows: u32,
)
    requires
        state.wf(),
    ensures
        state.scrolled_times(-1, lines).followed(total_lines, rows).scrolled_times(1, lines).pinned(),
{
    let after = state.scrolled_times(-1, lines).followed(total_lines, rows);
    lemma_scrolled_times(after, 1, lines);
    assert(1 * lines == lines as int);
}

/// A drag that does not move the pointer scrolls nothing.
pub proof fn lemma_zero_drag(state: ScrollState, track: u32)
    requires
        state.wf(),
    ensures
        state.dragged(0, track) == state,
{
    let height = state.thumb_height(track);
    if height != 0 {
        assert(0 * (state.max as int) == 0);
        if height > 0 {
            lemma_round_div_nearest(0, height);
        } else {
            assert(state.total_lines() != 0);
            assert(state.page_size * track >= 0) by (nonlinear_arith)
                requires
                    state.page_size >= 0,
                    track >= 0,
            ;
            vstd::arithmetic::div_mod::lemma_div_pos_is_pos(
                state.page_size * track,
                state.total_lines(),
            );
        }
    }
}

} // verus!
