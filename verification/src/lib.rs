//! A small library behind a drag-and-drop video converter.
//!
//! The converter itself is a GUI shell that hands a dropped file to an
//! external `ffmpeg` process.  Everything the shell decides is gathered
//! here and verified: the user-interface state machine, the derivation
//! of the output file's path from the source path, the argument lists
//! handed to `ffmpeg`, and the bookkeeping around the output directory.

pub mod format;
pub mod paths;
pub mod plan;
pub mod state;
