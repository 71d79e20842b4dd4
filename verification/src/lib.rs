//! Renders a decoded video stream as truecolor terminal frames.
//!
//! The pipeline resolves a character-grid geometry from the terminal size and
//! the source aspect ratio, downsamples each decoded frame to that grid,
//! converts the grid into ANSI escape sequences, and paces emission so that
//! playback approximates the source frame rate. Decoding and all I/O stay
//! outside the library: callers feed decoded frames in and write the produced
//! bytes out.

pub mod geometry;
pub mod pacing;
pub mod pixels;
pub mod render;
pub mod player;
