//! A small windowing shell: exact coordinate mapping for pointer input,
//! the dispatch of platform signals to a click handler, the per-frame run
//! loop as a state machine, and the draw commands of a point-plotting frame.
//!
//! Everything here works on plain values. The platform side (window class,
//! message queue, rendering context, buffer swap) performs the actions that
//! this library decides on.

pub mod geometry;
pub mod render;
pub mod signal;
pub mod window;

pub use geometry::{normalize, DevicePoint, PixelPoint, Position, Ratio, Size};
pub use render::{Color, DrawCommand, PointPlot, Plotter, SurfaceFormat};
pub use signal::{react, Reaction, Signal};
pub use window::{ClickHandler, CreateOptions, LoopEvent, Phase, Step, TickHandler, Window};
