//! Options for a subtitling run and the command line they stand for.
//!
//! An [`App`] records what the user has chosen: the video, the model and two
//! switches. [`App::get_command`] turns that record into the one line of shell
//! text that would start the subtitling tool with those choices.

pub mod command;
pub mod options;
pub mod paths;
pub mod quality;

pub use options::{App, Options};
pub use quality::ModelQuality;
