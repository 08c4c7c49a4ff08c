//! The running simulation as a window sees it: the grid, the clock of its
//! generations, the window's size and the cursor, and what each event from
//! the window does to them.
//!
//! Time is a count of milliseconds from some fixed moment; whoever drives
//! the session reads the clock and hands the count in.

use crate::frame::{
    fill_instances, fill_overlay, hovered_of, instances_of, overlay_canvas, overlay_of,
};
use crate::geometry::{Canvas, CellInstance, Cursor, Rect, Vertex};
use crate::grid::{is_randomized, step, Grid};
use crate::layout::{button_rect, button_rect_of, layout_of};
use vstd::prelude::*;

verus! {

/// Number of columns of the grid.
pub const GRID_WIDTH: usize = 200;

/// Number of rows of the grid.
pub const GRID_HEIGHT: usize = GRID_WIDTH * 9 / 16;

/// The least time between two generations, in milliseconds.
pub const STEP_INTERVAL: u64 = 0;

/// The size of the window's drawing area, in pixels.
#[derive(Debug, Clone, Copy, PartialEq, Eq, Structural)]
pub struct WindowSize {
    pub width: u32,
    pub height: u32,
}

/// The simulation and what is needed to present it.
pub struct GameOfLifeApp {
    /// The grid.
    pub grid: Grid,
    /// When the grid was last advanced or randomized.
    pub last_step: u64,
    /// The window's size.
    pub window_size: WindowSize,
    /// Where the cursor was last seen, if it has been seen.
    pub cursor_position: Option<Cursor>,
    /// The instances of the last frame.
    pub instances: Vec<CellInstance>,
    /// The overlay of the last frame.
    pub ui_vertices: Vec<Vertex>,
}

/// The time that has passed since `earlier`, none if the clock went back.
pub open spec fn elapsed(now: u64, earlier: u64) -> int {
    if now >= earlier {
        now - earlier
    } else {
        0
    }
}

impl GameOfLifeApp {
    /// The session's invariant: that of its grid.
    pub open spec fn wf(&self) -> bool {
        self.grid.wf()
    }

    /// A session with a grid of `GRID_WIDTH` by `GRID_HEIGHT` dead cells.
    pub fn new(window_size: WindowSize, now: u64) -> (app: GameOfLifeApp)
        ensures
            app.wf(),
            app.grid@ == crate::grid::barren(GRID_WIDTH as int, GRID_HEIGHT as int),
            app.last_step == now,
            app.window_size == window_size,
            app.cursor_position is None,
            app.instances@.len() == 0,
            app.ui_vertices@.len() == 0,
    {
        GameOfLifeApp {
            grid: Grid::new(GRID_WIDTH, GRID_HEIGHT),
            last_step: now,
            window_size,
            cursor_position: None,
            instances: Vec::with_capacity(GRID_WIDTH * GRID_HEIGHT),
            ui_vertices: Vec::with_capacity(2048),
        }
    }

    /// Takes note of the window's new size.
    pub fn resize(&mut self, size: WindowSize)
        ensures
            final(self).window_size == size,
            final(self).grid == old(self).grid,
            final(self).last_step == old(self).last_step,
            final(self).cursor_position == old(self).cursor_position,
            final(self).instances == old(self).instances,
            final(self).ui_vertices == old(self).ui_vertices,
    {
        self.window_size = size;
    }

    /// Advances the grid by one generation if at least `STEP_INTERVAL` has
    /// passed since the last one, and says whether it did.
    pub fn update(&mut self, now: u64) -> (stepped: bool)
        requires
            old(self).wf(),
        ensures
            final(self).wf(),
            stepped == (elapsed(now, old(self).last_step) >= STEP_INTERVAL),
            stepped ==> final(self).grid@ == step(old(self).grid@) && final(self).last_step == now,
            !stepped ==> final(self).grid == old(self).grid && final(self).last_step == old(
                self,
            ).last_step,
            final(self).window_size == old(self).window_size,
            final(self).cursor_position == old(self).cursor_position,
            final(self).instances == old(self).instances,
            final(self).ui_vertices == old(self).ui_vertices,
    {
        if now.saturating_sub(self.last_step) >= STEP_INTERVAL {
            self.grid.advance();
            self.last_step = now;
            true
        } else {
            false
        }
    }

    /// Gives every cell a random state and starts the wait for the next
    /// generation anew.
    pub fn randomize(&mut self, now: u64)
        requires
            old(self).wf(),
        ensures
            final(self).wf(),
            final(self).grid.width() == old(self).grid.width(),
            final(self).grid.height() == old(self).grid.height(),
            is_randomized(final(self).grid@, old(self).grid.width(), old(self).grid.height()),
            final(self).last_step == now,
            final(self).window_size == old(self).window_size,
            final(self).cursor_position == old(self).cursor_position,
            final(self).instances == old(self).instances,
            final(self).ui_vertices == old(self).ui_vertices,
    {
        self.grid.randomize();
        self.last_step = now;
    }

    /// The primary pointer button was released at `position`: randomizes
    /// the grid if that is on the button, and says whether it did.
    pub fn handle_click(&mut self, position: Cursor, now: u64) -> (clicked: bool)
        requires
            old(self).wf(),
        ensures
            final(self).wf(),
            clicked == button_rect_of(old(self).window_size.width as int).holds_cursor(position),
            clicked ==> final(self).last_step == now && is_randomized(
                final(self).grid@,
                old(self).grid.width(),
                old(self).grid.height(),
            ),
            !clicked ==> final(self).grid == old(self).grid && final(self).last_step == old(
                self,
            ).last_step,
            final(self).grid.width() == old(self).grid.width(),
            final(self).grid.height() == old(self).grid.height(),
            final(self).window_size == old(self).window_size,
            final(self).cursor_position == old(self).cursor_position,
            final(self).instances == old(self).instances,
            final(self).ui_vertices == old(self).ui_vertices,
    {
        if self.button_rect().contains_cursor(position) {
            self.randomize(now);
            true
        } else {
            false
        }
    }

    /// The rectangle of the button, in window pixels.
    pub fn button_rect(&self) -> (rect: Rect)
        ensures
            rect == button_rect_of(self.window_size.width as int),
    {
        button_rect(self.window_size.width)
    }

    /// Rebuilds both streams of the frame from the grid, the window's size
    /// and the cursor, and returns the canvas of each: that of the
    /// instances first, that of the overlay second.
    pub fn build_frame(&mut self) -> (canvases: (Canvas, Canvas))
        requires
            old(self).wf(),
        ensures
            final(self).wf(),
            final(self).grid == old(self).grid,
            final(self).last_step == old(self).last_step,
            final(self).window_size == old(self).window_size,
            final(self).cursor_position == old(self).cursor_position,
            canvases.0 == old(self).frame_layout().canvas,
            canvases.0.wf(),
            canvases.1 == overlay_canvas(
                old(self).window_size.width as int,
                old(self).window_size.height as int,
            ),
            canvases.1.wf(),
            final(self).instances@ == instances_of(old(self).grid@, old(self).frame_layout()),
            final(self).ui_vertices@ == overlay_of(
                old(self).window_size.width as int,
                old(self).window_size.height as int,
                hovered_of(old(self).cursor_position, old(self).window_size.width as int),
            ),
    {
        let layout = fill_instances(
            &mut self.instances,
            &self.grid,
            self.window_size.width,
            self.window_size.height,
        );
        let overlay = fill_overlay(
            &mut self.ui_vertices,
            self.window_size.width,
            self.window_size.height,
            self.cursor_position,
        );
        (layout.canvas, overlay)
    }

    /// The placement of the grid in the window as it is.
    pub open spec fn frame_layout(&self) -> crate::layout::GridLayout {
        layout_of(
            self.window_size.width as int,
            self.window_size.height as int,
            self.grid.width(),
            self.grid.height(),
        )
    }
}

} // verus!
