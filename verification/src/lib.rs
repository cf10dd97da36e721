//! Conway's Game of Life on a torus of fixed size, with what an interactive
//! viewer needs around it: the map between screen pixels and cells, the
//! picture as a list of rectangles, and the handling of keyboard, mouse and
//! timers.
//!
//! The library does no input or output. A front end owns the window and the
//! clock: it hands events and elapsed times to an [`Engine`] and draws the
//! [`DrawCommand`]s that it gets back.
//!
//! Every executable function is specified over a mathematical model,
//! [`UniverseView`] for a [`Universe`] and [`EngineView`] for an [`Engine`].
//! The modules [`laws`] and [`patterns`] hold what is proved of the model
//! beyond the single functions.

pub mod cell;
pub mod draw;
pub mod engine;
pub mod laws;
pub mod model;
pub mod patterns;
pub mod universe;

pub use cell::Cell;
pub use draw::{DrawCommand, PixelRect, Rgb};
pub use engine::{Control, Engine, EngineView, Frame, InputEvent, Key, Mode, MouseButton};
pub use model::UniverseView;
pub use universe::Universe;
