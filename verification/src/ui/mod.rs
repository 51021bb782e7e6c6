//! What the display layer keeps between two frames.

pub mod app;
