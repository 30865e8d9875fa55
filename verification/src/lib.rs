//! Keyboard-driven prompt widgets for a terminal video-discovery tool.
//!
//! Every widget is a small state machine: it takes one input event at a time
//! and answers with the action the surrounding terminal loop has to perform.
//! Nothing in here touches the terminal itself.

pub mod input;
pub mod select;
pub mod multi;
pub mod text;
pub mod entry;
pub mod clock;
pub mod discover;
pub mod results;
pub mod redraw;
pub mod config;
pub mod sequencer;
pub mod questions;
pub mod dashboard;
