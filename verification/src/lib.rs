//! Input viewer core for B0XX-class and Frame1-class controllers.
//!
//! The crate reads no device and opens no window. It holds what a viewer
//! decides: which port or pad is the controller ([`probe`]), how reports are
//! recovered from the byte stream of a serial port
//! ([`probe::frame_reader`]), what a report or a pad snapshot says of each
//! control ([`controllers`]), and what the display keeps between two frames
//! ([`ui`]). Whoever owns the port, the pad and the window carries out the
//! reads and hands in what came back.

pub mod b0xx_state;
pub mod colors;
pub mod config;
pub mod controllers;
pub mod error;
pub mod logger;
pub mod probe;
pub mod text;
pub mod ui;

pub use crate::error::{ViewerError, ViewerOptionConfigError, ViewerResult};
