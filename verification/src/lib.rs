//! Turns cargo's JSON event stream into service messages for a
//! continuous-integration server.

pub mod cli;
pub mod comparison;
pub mod coverage;
pub mod escape;
pub mod event;
pub mod format;
pub mod json;
pub mod lines;
pub mod names;
pub mod number;
pub mod stream;
pub mod text;
