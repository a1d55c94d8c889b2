//! Terminal progress indicators: a determinate progress bar and an
//! indeterminate throbber.
//!
//! This crate holds the core of both: the state of each indicator, the
//! operations that callers perform on it, the decisions of the render loop and
//! of the animation driver, and the text of each painted line. Running the
//! background tasks and writing to the terminal is left to the caller.

pub mod bar;
pub mod palette;
pub mod ratio;
pub mod text;
pub mod throbber;

pub use bar::{BarConfig, BarPaint, BarState};
pub use crossterm::style::Color;
pub use throbber::{ThrobberConfig, ThrobberPaint, ThrobberState};
