//! What a window reports, and what the session makes of each report.

use crate::frame::{hovered_of, instances_of, overlay_canvas, overlay_of};
use crate::geometry::{Canvas, Cursor, Point};
use crate::grid::{barren, is_randomized, step};
use crate::layout::button_rect_of;
use crate::session::{
    elapsed, GameOfLifeApp, WindowSize, GRID_HEIGHT, GRID_WIDTH, STEP_INTERVAL,
};
use vstd::prelude::*;
use vstd::string::StrSliceExecFns;

verus! {

/// Whether a button or a key went down or came up.
#[derive(Debug, Clone, Copy, PartialEq, Eq, Structural)]
pub enum ElementState {
    Pressed,
    Released,
}

/// A button of the pointer. `Left` is the primary one.
#[derive(Debug, Clone, Copy, PartialEq, Eq, Structural)]
pub enum MouseButton {
    Left,
    Right,
    Middle,
    Other,
}

/// A key, as far as the session tells keys apart.
#[derive(Debug, Clone, PartialEq, Eq)]
pub enum Key {
    /// The space bar.
    Space,
    /// A key that stands for a text.
    Character(String),
    /// Any other key.
    Other,
}

/// An event of the window.
#[derive(Debug, Clone, PartialEq, Eq)]
pub enum WindowEvent {
    /// The user asked to close the window.
    CloseRequested,
    /// The window has a new size.
    Resized(WindowSize),
    /// The cursor moved to a pixel of the window.
    CursorMoved(Cursor),
    /// A button of the pointer went down or came up.
    MouseInput { state: ElementState, button: MouseButton },
    /// A key went down or came up.
    KeyboardInput { state: ElementState, key: Key },
    /// The window wants a new frame.
    RedrawRequested,
    /// Anything else.
    Other,
}

/// What is left to do after an event.
#[derive(Debug, Clone, Copy, PartialEq, Eq, Structural)]
pub enum Outcome {
    /// Nothing.
    Ignored,
    /// Leave the event loop.
    Exit,
    /// The window was resized: configure the surface anew where
    /// `configure` is set, and ask for a redraw.
    Resized { configure: bool },
    /// The grid was randomized.
    Randomized,
    /// The frame was rebuilt with these canvases, that of the instances
    /// first: render it.
    FrameReady { cells: Canvas, overlay: Canvas },
}

/// The number of a character, with the small letters of ASCII counted as
/// their capitals.
pub open spec fn ascii_folded(c: char) -> int {
    if 0x61 <= c as int <= 0x7a {
        c as int - 0x20
    } else {
        c as int
    }
}

/// Whether two texts are the same but for the case of ASCII letters.
pub open spec fn same_ignoring_ascii_case(a: Seq<char>, b: Seq<char>) -> bool {
    &&& a.len() == b.len()
    &&& forall|i: int| 0 <= i < a.len() ==> ascii_folded(#[trigger] a[i]) == ascii_folded(b[i])
}

/// Whether a key stands for `target`: the space bar for the word `SPACE`,
/// a character key for its own text, both without regard to the case of
/// ASCII letters.
pub open spec fn key_stands_for(key: Key, target: Seq<char>) -> bool {
    match key {
        Key::Space => same_ignoring_ascii_case(target, "SPACE"@),
        Key::Character(text) => same_ignoring_ascii_case(text@, target),
        Key::Other => false,
    }
}

/// Whether an event randomizes the grid: the release of the primary button
/// while the cursor, where it was last seen, is on the button; or the press
/// of the key `R` or of the space bar.
pub open spec fn randomizes(event: WindowEvent, last_cursor: Cursor, window_width: int) -> bool {
    match event {
        WindowEvent::MouseInput { state, button } => state == ElementState::Released && button
            == MouseButton::Left && button_rect_of(window_width).holds_cursor(last_cursor),
        WindowEvent::KeyboardInput { state, key } => state == ElementState::Pressed && (
        key_stands_for(key, "R"@) || key_stands_for(key, "SPACE"@)),
        _ => false,
    }
}

/// Where the cursor was last seen, after an event: a move of the cursor
/// takes it there, and nothing else moves it.
pub open spec fn cursor_after(last_cursor: Cursor, event: WindowEvent) -> Cursor {
    match event {
        WindowEvent::CursorMoved(position) => position,
        _ => last_cursor,
    }
}

/// The window's size after an event: it changes when the window is resized,
/// and not otherwise.
pub open spec fn window_after(size: WindowSize, event: WindowEvent) -> WindowSize {
    match event {
        WindowEvent::Resized(new_size) => new_size,
        _ => size,
    }
}

/// The number of a character, with the small letters of ASCII counted as
/// their capitals.
fn fold_ascii(c: char) -> (n: u32)
    ensures
        n == ascii_folded(c),
{
    let n = c as u32;
    if 0x61 <= n && n <= 0x7a {
        n - 0x20
    } else {
        n
    }
}

/// Whether two texts are the same but for the case of ASCII letters.
pub fn eq_ignore_ascii_case(a: &str, b: &str) -> (same: bool)
    ensures
        same == same_ignoring_ascii_case(a@, b@),
{
    let count = a.unicode_len();
    if count != b.unicode_len() {
        return false;
    }
    let mut i: usize = 0;
    while i < count
        invariant
            i <= count,
            count == a@.len(),
            count == b@.len(),
            forall|j: int| 0 <= j < i ==> ascii_folded(#[trigger] a@[j]) == ascii_folded(b@[j]),
        decreases count - i,
    {
        if fold_ascii(a.get_char(i)) != fold_ascii(b.get_char(i)) {
            return false;
        }
        i = i + 1;
    }
    true
}

/// Whether a key stands for `target`.
pub fn key_matches(key: &Key, target: &str) -> (matches: bool)
    ensures
        matches == key_stands_for(*key, target@),
{
    match key {
        Key::Space => eq_ignore_ascii_case(target, "SPACE"),
        Key::Character(text) => eq_ignore_ascii_case(text.as_str(), target),
        Key::Other => false,
    }
}

/// The session of one window: the simulation, and the place where the
/// cursor was last seen. Before the cursor has moved, that is the window's
/// top left corner.
pub struct Controller {
    pub app: GameOfLifeApp,
    pub last_cursor: Cursor,
}

impl Controller {
    /// The controller's invariant: that of its session.
    pub open spec fn wf(&self) -> bool {
        self.app.wf()
    }

    /// A controller for a new session.
    pub fn new(window_size: WindowSize, now: u64) -> (controller: Controller)
        ensures
            controller.wf(),
            controller.last_cursor == (Cursor { low: Point { x: 0, y: 0 }, high: Point { x: 0, y: 0 } }),
            controller.app.grid@ == barren(GRID_WIDTH as int, GRID_HEIGHT as int),
            controller.app.window_size == window_size,
            controller.app.last_step == now,
            controller.app.cursor_position is None,
            controller.app.instances@.len() == 0,
            controller.app.ui_vertices@.len() == 0,
    {
        Controller {
            app: GameOfLifeApp::new(window_size, now),
            last_cursor: Cursor::at(Point { x: 0, y: 0 }),
        }
    }

    /// Takes one event of the window at time `now` and says what is left
    /// to do.
    pub fn window_event(&mut self, event: &WindowEvent, now: u64) -> (outcome: Outcome)
        requires
            old(self).wf(),
        ensures
            final(self).wf(),
            final(self).app.grid.width() == old(self).app.grid.width(),
            final(self).app.grid.height() == old(self).app.grid.height(),
            outcome is Randomized <==> randomizes(
                *event,
                old(self).last_cursor,
                old(self).app.window_size.width as int,
            ),
            final(self).last_cursor == cursor_after(old(self).last_cursor, *event),
            final(self).app.window_size == window_after(old(self).app.window_size, *event),
            match *event {
                WindowEvent::CloseRequested => outcome is Exit && *final(self) == *old(self),
                WindowEvent::Resized(size) => {
                    &&& outcome == (Outcome::Resized {
                        configure: size.width != 0 && size.height != 0,
                    })
                    &&& *final(self) == (Controller {
                        app: GameOfLifeApp { window_size: size, ..old(self).app },
                        ..*old(self)
                    })
                },
                WindowEvent::CursorMoved(position) => {
                    &&& outcome is Ignored
                    &&& *final(self) == (Controller {
                        app: GameOfLifeApp { cursor_position: Some(position), ..old(self).app },
                        last_cursor: position,
                    })
                },
                WindowEvent::MouseInput { .. } | WindowEvent::KeyboardInput { .. } => {
                    if outcome is Randomized {
                        &&& is_randomized(
                            final(self).app.grid@,
                            old(self).app.grid.width(),
                            old(self).app.grid.height(),
                        )
                        &&& final(self).app.last_step == now
                        &&& final(self).last_cursor == old(self).last_cursor
                        &&& final(self).app.window_size == old(self).app.window_size
                        &&& final(self).app.cursor_position == old(self).app.cursor_position
                        &&& final(self).app.instances == old(self).app.instances
                        &&& final(self).app.ui_vertices == old(self).app.ui_vertices
                    } else {
                        outcome is Ignored && *final(self) == *old(self)
                    }
                },
                WindowEvent::RedrawRequested => {
                    let stepped = elapsed(now, old(self).app.last_step) >= STEP_INTERVAL;
                    let board = if stepped {
                        step(old(self).app.grid@)
                    } else {
                        old(self).app.grid@
                    };
                    let width = old(self).app.window_size.width as int;
                    let height = old(self).app.window_size.height as int;
                    &&& final(self).app.grid@ == board
                    &&& final(self).app.last_step == if stepped {
                        now
                    } else {
                        old(self).app.last_step
                    }
                    &&& final(self).app.window_size == old(self).app.window_size
                    &&& final(self).app.cursor_position == old(self).app.cursor_position
                    &&& final(self).last_cursor == old(self).last_cursor
                    &&& outcome == (Outcome::FrameReady {
                        cells: old(self).app.frame_layout().canvas,
                        overlay: overlay_canvas(width, height),
                    })
                    &&& final(self).app.instances@ == instances_of(
                        board,
                        old(self).app.frame_layout(),
                    )
                    &&& final(self).app.ui_vertices@ == overlay_of(
                        width,
                        height,
                        hovered_of(old(self).app.cursor_position, width),
                    )
                },
                WindowEvent::Other => outcome is Ignored && *final(self) == *old(self),
            },
    {
        match event {
            WindowEvent::CloseRequested => Outcome::Exit,
            WindowEvent::Resized(size) => {
                self.app.resize(*size);
                Outcome::Resized { configure: size.width != 0 && size.height != 0 }
            },
            WindowEvent::CursorMoved(position) => {
                self.last_cursor = *position;
                self.app.cursor_position = Some(*position);
                Outcome::Ignored
            },
            WindowEvent::MouseInput { state, button } => {
                if *button == MouseButton::Left && *state == ElementState::Released {
                    if self.app.handle_click(self.last_cursor, now) {
                        return Outcome::Randomized;
                    }
                }
                Outcome::Ignored
            },
            WindowEvent::KeyboardInput { state, key } => {
                if *state == ElementState::Pressed {
                    if key_matches(key, "R") || key_matches(key, "SPACE") {
                        self.app.randomize(now);
                        return Outcome::Randomized;
                    }
                }
                Outcome::Ignored
            },
            WindowEvent::RedrawRequested => {
                self.app.update(now);
                let (cells, overlay) = self.app.build_frame();
                Outcome::FrameReady { cells, overlay }
            },
            WindowEvent::Other => Outcome::Ignored,
        }
    }
}

/// A click goes by where the button is released, not by where it was
/// pressed. Take a press of the primary button with the cursor at
/// `pressed_at` and its release with the cursor at `released_at`, in a
/// window that keeps its size: neither the moves of the cursor nor the
/// press randomize the grid, and the release does so exactly when
/// `released_at` is on the button. So a press on the button that is let go
/// off it does nothing, and a press off the button that is let go on it
/// randomizes.
pub proof fn lemma_click_is_decided_on_release(
    last_cursor: Cursor,
    window_width: int,
    pressed_at: Cursor,
    released_at: Cursor,
)
    ensures
        ({
            let to_press = WindowEvent::CursorMoved(pressed_at);
            let press = WindowEvent::MouseInput {
                state: ElementState::Pressed,
                button: MouseButton::Left,
            };
            let to_release = WindowEvent::CursorMoved(released_at);
            let release = WindowEvent::MouseInput {
                state: ElementState::Released,
                button: MouseButton::Left,
            };
            let at_press = cursor_after(last_cursor, to_press);
            let after_press = cursor_after(at_press, press);
            let at_release = cursor_after(after_press, to_release);
            &&& !randomizes(to_press, last_cursor, window_width)
            &&& !randomizes(press, at_press, window_width)
            &&& !randomizes(to_release, after_press, window_width)
            &&& randomizes(release, at_release, window_width) <==> button_rect_of(
                window_width,
            ).holds_cursor(released_at)
        }),
{
}

} // verus!
