//! The decisions of the interactive viewer: what each input event and each
//! reading of the two timers does to the universe. The caller owns the window
//! and the clock; it hands events and elapsed times in and draws what comes out.

use vstd::prelude::*;
use crate::cell::Cell;
use crate::draw::DrawCommand;
use crate::model::UniverseView;
use crate::universe::Universe;

verus! {

/// Rows of the universe that the viewer starts with.
pub const GRID_HEIGHT: u32 = 64;

/// Columns of the universe that the viewer starts with.
pub const GRID_WIDTH: u32 = 115;

/// Least time in milliseconds between two generations.
pub const TICK_INTERVAL_MS: u128 = 100;

/// Least time in milliseconds between two pictures.
pub const RENDER_INTERVAL_MS: u128 = 8;

/// The keys that the viewer tells apart.
#[derive(Clone, Copy, PartialEq, Eq, Structural, Debug)]
pub enum Key {
    Space,
    Right,
    Escape,
    R,
    Other,
}

/// The mouse buttons that the viewer tells apart.
#[derive(Clone, Copy, PartialEq, Eq, Structural, Debug)]
pub enum MouseButton {
    Left,
    Middle,
    Right,
    Other,
}

/// An input event, as far as the viewer reads it.
#[derive(Clone, Copy, PartialEq, Eq, Structural, Debug)]
pub enum InputEvent {
    /// The window was closed.
    Quit,
    /// A key went down.
    KeyDown { key: Key },
    /// A mouse button went down at the pixel `(x, y)`.
    MouseButtonDown { button: MouseButton, x: i32, y: i32 },
    /// A mouse button went up.
    MouseButtonUp { button: MouseButton },
    /// The mouse moved to the pixel `(x, y)`.
    MouseMotion { x: i32, y: i32 },
    /// The wheel turned by `y` notches, upwards if positive.
    MouseWheel { y: i32 },
}

/// What a movement of the mouse does.
#[derive(Clone, Copy, PartialEq, Eq, Structural, Debug)]
pub enum Mode {
    /// Nothing.
    Idle,
    /// It moves the picture of the grid.
    Panning,
    /// It brings the cells that it passes to life.
    PaintingAlive,
    /// It kills the cells that it passes.
    PaintingDead,
}

/// Whether the viewer goes on after an event.
#[derive(Clone, Copy, PartialEq, Eq, Structural, Debug)]
pub enum Control {
    Continue,
    Quit,
}

/// Whether `event` ends the viewer: the window was closed or Escape pressed.
pub open spec fn is_quit(event: InputEvent) -> bool {
    event == InputEvent::Quit || event == (InputEvent::KeyDown { key: Key::Escape })
}

/// The mode that a mouse button starts when it goes down and ends when it
/// goes up, if it has one.
pub open spec fn mode_of_button(button: MouseButton) -> Option<Mode> {
    match button {
        MouseButton::Left => Some(Mode::PaintingAlive),
        MouseButton::Right => Some(Mode::PaintingDead),
        MouseButton::Middle => Some(Mode::Panning),
        MouseButton::Other => None,
    }
}

/// Whether a generation is due when `elapsed_ms` have passed since the last one.
pub open spec fn tick_due(elapsed_ms: int) -> bool {
    elapsed_ms >= TICK_INTERVAL_MS
}

/// Whether a picture is due when `elapsed_ms` have passed since the last one.
pub open spec fn render_due(elapsed_ms: int) -> bool {
    elapsed_ms >= RENDER_INTERVAL_MS
}

/// What the viewer's state is, as plain mathematics.
pub struct EngineView {
    /// The universe on show.
    pub universe: UniverseView,
    /// What a movement of the mouse does at present.
    pub mode: Mode,
    /// Pixel column of the mouse at the last button press or pan.
    pub previous_mouse_x: int,
    /// Pixel row of the mouse at the last button press or pan.
    pub previous_mouse_y: int,
}

impl EngineView {
    /// The values that the viewer's state can take.
    pub open spec fn wf(self) -> bool {
        &&& self.universe.wf()
        &&& i32::MIN <= self.previous_mouse_x <= i32::MAX
        &&& i32::MIN <= self.previous_mouse_y <= i32::MAX
    }

    /// The state that the viewer starts in: a universe of 64 rows and 115
    /// columns as it is created, and an idle mouse.
    pub open spec fn started() -> EngineView {
        EngineView {
            universe: UniverseView::created(GRID_HEIGHT as nat, GRID_WIDTH as nat),
            mode: Mode::Idle,
            previous_mouse_x: 0,
            previous_mouse_y: 0,
        }
    }

    /// The state with its universe replaced.
    pub open spec fn with_universe(self, universe: UniverseView) -> EngineView {
        EngineView { universe, ..self }
    }

    /// One generation forward whether the game runs or not; the game is
    /// paused afterwards.
    pub open spec fn single_step(self) -> EngineView {
        self.with_universe(self.universe.with_running(true).tick().with_running(false))
    }

    /// The state after a key went down.
    pub open spec fn key_down(self, key: Key) -> EngineView {
        match key {
            Key::Space => self.with_universe(self.universe.toggle_state()),
            Key::Right => self.single_step(),
            Key::R => self.with_universe(self.universe.reset()),
            Key::Escape => self,
            Key::Other => self,
        }
    }

    /// The state after a mouse button went down at `(x, y)`: the button's
    /// mode starts, a painting button paints the cell under the mouse at
    /// once, and the place of the mouse is kept.
    pub open spec fn button_down(self, button: MouseButton, x: int, y: int) -> EngineView {
        EngineView {
            universe: match button {
                MouseButton::Left => self.universe.paint(x, y, Cell::Alive),
                MouseButton::Right => self.universe.paint(x, y, Cell::Dead),
                MouseButton::Middle => self.universe,
                MouseButton::Other => self.universe,
            },
            mode: match mode_of_button(button) {
                Some(mode) => mode,
                None => self.mode,
            },
            previous_mouse_x: x,
            previous_mouse_y: y,
        }
    }

    /// The state after a mouse button went up: the button's mode ends if it
    /// is the present one.
    pub open spec fn button_up(self, button: MouseButton) -> EngineView {
        if mode_of_button(button) == Some(self.mode) {
            EngineView { mode: Mode::Idle, ..self }
        } else {
            self
        }
    }

    /// Whether the picture can follow the mouse to `(x, y)`: the way of the
    /// mouse and the offsets that it leads to fit in 32 bits.
    pub open spec fn can_pan_to(self, x: int, y: int) -> bool {
        &&& i32::MIN <= x - self.previous_mouse_x <= i32::MAX
        &&& i32::MIN <= y - self.previous_mouse_y <= i32::MAX
        &&& i32::MIN <= self.universe.x_offset + (x - self.previous_mouse_x) <= i32::MAX
        &&& i32::MIN <= self.universe.y_offset + (y - self.previous_mouse_y) <= i32::MAX
    }

    /// The state after the picture followed the mouse to `(x, y)`: it is moved
    /// by the way of the mouse, or stays where it cannot follow, and the
    /// place of the mouse is kept.
    pub open spec fn pan_to(self, x: int, y: int) -> EngineView {
        EngineView {
            universe: if self.can_pan_to(x, y) {
                self.universe.shift(x - self.previous_mouse_x, y - self.previous_mouse_y)
            } else {
                self.universe
            },
            previous_mouse_x: x,
            previous_mouse_y: y,
            ..self
        }
    }

    /// The state after the mouse moved to `(x, y)`. While panning the picture
    /// follows the mouse. While painting the cell under the mouse is painted.
    pub open spec fn mouse_motion(self, x: int, y: int) -> EngineView {
        match self.mode {
            Mode::Panning => self.pan_to(x, y),
            Mode::PaintingAlive => self.with_universe(self.universe.paint(x, y, Cell::Alive)),
            Mode::PaintingDead => self.with_universe(self.universe.paint(x, y, Cell::Dead)),
            Mode::Idle => self,
        }
    }

    /// The state after the wheel turned: one notch up adds a tenth to the
    /// scale, one notch down takes a tenth off, anything else does nothing.
    pub open spec fn mouse_wheel(self, y: int) -> EngineView {
        if y == 1 {
            self.with_universe(self.universe.increment_scale(1))
        } else if y == -1 {
            self.with_universe(self.universe.increment_scale(-1))
        } else {
            self
        }
    }

    /// The state after `event`.
    pub open spec fn handle_event(self, event: InputEvent) -> EngineView {
        match event {
            InputEvent::Quit => self,
            InputEvent::KeyDown { key } => self.key_down(key),
            InputEvent::MouseButtonDown { button, x, y } => self.button_down(button, x as int, y as int),
            InputEvent::MouseButtonUp { button } => self.button_up(button),
            InputEvent::MouseMotion { x, y } => self.mouse_motion(x as int, y as int),
            InputEvent::MouseWheel { y } => self.mouse_wheel(y as int),
        }
    }

    /// The state after the events are handled in turn, and whether one of
    /// them ended the viewer. Events behind that one are not handled.
    pub open spec fn handle_events(self, events: Seq<InputEvent>) -> (EngineView, Control)
        decreases events.len(),
    {
        if events.len() == 0 {
            (self, Control::Continue)
        } else if is_quit(events[0]) {
            (self, Control::Quit)
        } else {
            self.handle_event(events[0]).handle_events(events.skip(1))
        }
    }

    /// The state after the generation timer is read: one tick of the universe
    /// if a generation is due.
    pub open spec fn tick_if_due(self, elapsed_ms: int) -> EngineView {
        if tick_due(elapsed_ms) {
            self.with_universe(self.universe.tick())
        } else {
            self
        }
    }

    /// The state after one turn of the viewer's loop: the pending events are
    /// handled, and unless one of them ended the viewer the generation timer
    /// is read.
    pub open spec fn frame(self, events: Seq<InputEvent>, since_tick_ms: int) -> EngineView {
        if self.handle_events(events).1 == Control::Quit {
            self.handle_events(events).0
        } else {
            self.handle_events(events).0.tick_if_due(since_tick_ms)
        }
    }
}

/// What one turn of the viewer's loop asks of its caller.
#[derive(Debug)]
pub struct Frame {
    /// Whether the viewer goes on.
    pub control: Control,
    /// Whether a generation was due. The caller then restarts the generation timer.
    pub ticked: bool,
    /// The picture, if one was due. The caller then draws it and restarts the
    /// picture timer.
    pub picture: Option<Vec<DrawCommand>>,
}

/// The state of the interactive viewer: the universe on show and what the
/// mouse is doing to it.
pub struct Engine {
    universe: Universe,
    mode: Mode,
    previous_mouse_x: i32,
    previous_mouse_y: i32,
}

impl View for Engine {
    type V = EngineView;

    closed spec fn view(&self) -> EngineView {
        EngineView {
            universe: self.universe@,
            mode: self.mode,
            previous_mouse_x: self.previous_mouse_x as int,
            previous_mouse_y: self.previous_mouse_y as int,
        }
    }
}

impl Engine {
    /// The viewer's state at its start: a paused universe of 64 rows and 115
    /// columns in which every cell is dead, and an idle mouse.
    pub fn new() -> (engine: Engine)
        ensures
            engine@ == EngineView::started(),
            engine@.wf(),
    {
        Engine {
            universe: Universe::new(GRID_HEIGHT, GRID_WIDTH),
            mode: Mode::Idle,
            previous_mouse_x: 0,
            previous_mouse_y: 0,
        }
    }

    /// The universe on show.
    pub fn universe(&self) -> (universe: &Universe)
        ensures
            universe@ == self@.universe,
    {
        &self.universe
    }

    /// What a movement of the mouse does at present.
    pub fn mode(&self) -> (mode: Mode)
        ensures
            mode == self@.mode,
    {
        self.mode
    }

    /// Moves the picture by the way of the mouse from its last place to
    /// `(x, y)` if that fits, and keeps the new place.
    fn pan_to(&mut self, x: i32, y: i32)
        ensures
            final(self)@ == old(self)@.pan_to(x as int, y as int),
            final(self)@.wf(),
    {
        proof {
            use_type_invariant(&self.universe);
            self.universe.lemma_view_wf();
        }
        let dx: i64 = x as i64 - self.previous_mouse_x as i64;
        let dy: i64 = y as i64 - self.previous_mouse_y as i64;
        let new_x: i64 = self.universe.x_offset() as i64 + dx;
        let new_y: i64 = self.universe.y_offset() as i64 + dy;
        let low: i64 = i32::MIN as i64;
        let high: i64 = i32::MAX as i64;
        if low <= dx && dx <= high && low <= dy && dy <= high && low <= new_x && new_x <= high
            && low <= new_y && new_y <= high {
            self.universe.shift(dx as i32, dy as i32);
        }
        self.previous_mouse_x = x;
        self.previous_mouse_y = y;
    }

    /// Applies one input event to the viewer's state and says whether the
    /// viewer goes on. Closing the window and Escape end it and change nothing.
    pub fn handle_event(&mut self, event: InputEvent) -> (control: Control)
        ensures
            final(self)@ == old(self)@.handle_event(event),
            final(self)@.wf(),
            control == if is_quit(event) { Control::Quit } else { Control::Continue },
    {
        proof {
            use_type_invariant(&self.universe);
            self.universe.lemma_view_wf();
        }
        match event {
            InputEvent::Quit => {
                return Control::Quit;
            },
            InputEvent::KeyDown { key } => {
                match key {
                    Key::Space => {
                        self.universe.toggle_state();
                    },
                    Key::Right => {
                        self.universe.run();
                        self.universe.tick();
                        self.universe.pause();
                    },
                    Key::Escape => {
                        return Control::Quit;
                    },
                    Key::R => {
                        self.universe.reset();
                    },
                    Key::Other => {},
                }
            },
            InputEvent::MouseButtonDown { button, x, y } => {
                match button {
                    MouseButton::Left => {
                        self.mode = Mode::PaintingAlive;
                        self.universe.revive(x, y);
                    },
                    MouseButton::Right => {
                        self.mode = Mode::PaintingDead;
                        self.universe.kill(x, y);
                    },
                    MouseButton::Middle => {
                        self.mode = Mode::Panning;
                    },
                    MouseButton::Other => {},
                }
                self.previous_mouse_x = x;
                self.previous_mouse_y = y;
            },
            InputEvent::MouseButtonUp { button } => {
                let ended: bool = match button {
                    MouseButton::Left => self.mode == Mode::PaintingAlive,
                    MouseButton::Right => self.mode == Mode::PaintingDead,
                    MouseButton::Middle => self.mode == Mode::Panning,
                    MouseButton::Other => false,
                };
                if ended {
                    self.mode = Mode::Idle;
                }
            },
            InputEvent::MouseMotion { x, y } => {
                match self.mode {
                    Mode::Panning => {
                        self.pan_to(x, y);
                    },
                    Mode::PaintingAlive => {
                        self.universe.revive(x, y);
                    },
                    Mode::PaintingDead => {
                        self.universe.kill(x, y);
                    },
                    Mode::Idle => {},
                }
            },
            InputEvent::MouseWheel { y } => {
                if y == 1 {
                    self.universe.increment_scale(1);
                } else if y == -1 {
                    self.universe.increment_scale(-1);
                }
            },
        }
        Control::Continue
    }

    /// Applies the pending input events in turn, up to the first that ends
    /// the viewer, and says whether one did.
    pub fn handle_events(&mut self, events: &Vec<InputEvent>) -> (control: Control)
        ensures
            (final(self)@, control) == old(self)@.handle_events(events@),
            final(self)@.wf(),
    {
        proof {
            use_type_invariant(&self.universe);
            self.universe.lemma_view_wf();
        }
        let mut i: usize = 0;
        assert(events@.skip(0) =~= events@);
        while i < events.len()
            invariant
                i <= events.len(),
                self@.wf(),
                old(self)@.handle_events(events@) == self@.handle_events(events@.skip(i as int)),
            decreases events.len() - i,
        {
            assert(events@.skip(i as int)[0] == events@[i as int]);
            assert(events@.skip(i as int).skip(1) =~= events@.skip(i + 1));
            match self.handle_event(events[i]) {
                Control::Quit => {
                    return Control::Quit;
                },
                Control::Continue => {},
            }
            i += 1;
        }
        Control::Continue
    }

    /// Reads the generation timer: moves the universe on by one tick if at
    /// least 100 ms have passed since the last generation, and says whether
    /// it did. The caller then restarts the timer.
    pub fn tick_if_due(&mut self, elapsed_ms: u128) -> (due: bool)
        ensures
            due == tick_due(elapsed_ms as int),
            final(self)@ == old(self)@.tick_if_due(elapsed_ms as int),
            final(self)@.wf(),
    {
        proof {
            use_type_invariant(&self.universe);
            self.universe.lemma_view_wf();
        }
        if elapsed_ms >= TICK_INTERVAL_MS {
            self.universe.tick();
            true
        } else {
            false
        }
    }

    /// Reads the picture timer: returns the picture of the universe if at
    /// least 8 ms have passed since the last one. The caller then draws it
    /// and restarts the timer.
    pub fn render_if_due(&self, elapsed_ms: u128) -> (picture: Option<Vec<DrawCommand>>)
        ensures
            match picture {
                Some(commands) => render_due(elapsed_ms as int) && commands@ == self@.universe.render(),
                None => !render_due(elapsed_ms as int),
            },
    {
        if elapsed_ms >= RENDER_INTERVAL_MS {
            Some(self.universe.render())
        } else {
            None
        }
    }

    /// One turn of the viewer's loop. The pending events are handled in
    /// turn. If one of them ends the viewer, nothing else is done. If not, a
    /// generation is made if it is due after `since_tick_ms`, and then the
    /// picture if it is due after `since_render_ms`.
    pub fn frame(&mut self, events: &Vec<InputEvent>, since_tick_ms: u128, since_render_ms: u128) -> (frame:
        Frame)
        ensures
            final(self)@ == old(self)@.frame(events@, since_tick_ms as int),
            final(self)@.wf(),
            frame.control == old(self)@.handle_events(events@).1,
            frame.ticked == (frame.control == Control::Continue && tick_due(since_tick_ms as int)),
            match frame.picture {
                Some(commands) => frame.control == Control::Continue && render_due(since_render_ms as int)
                    && commands@ == final(self)@.universe.render(),
                None => frame.control == Control::Quit || !render_due(since_render_ms as int),
            },
    {
        match self.handle_events(events) {
            Control::Quit => Frame { control: Control::Quit, ticked: false, picture: None },
            Control::Continue => {
                let ticked = self.tick_if_due(since_tick_ms);
                let picture = self.render_if_due(since_render_ms);
                Frame { control: Control::Continue, ticked, picture }
            },
        }
    }
}

} // verus!
