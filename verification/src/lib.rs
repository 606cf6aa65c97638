//! The state and the screens of the Kannaka terminal dashboard.
//!
//! Everything that the dashboard decides lives here: how keys edit the input
//! bar, which command a line of input stands for, how the replies of the
//! `kannaka` binary and the frames of the live bus are read, what the tabs
//! show. Starting processes, reading pipes and drawing on the terminal belong
//! to the program around this library, which hands in plain values and
//! carries out the effects that come back.

pub mod agents;
pub mod app;
pub mod bus;
pub mod chat;
pub mod clock;
pub mod command;
pub mod config;
pub mod dream;
pub mod effect;
pub mod input;
pub mod json;
pub mod laws;
pub mod live;
pub mod model;
pub mod reply;
pub mod round;
pub mod runs;
pub mod screen;
pub mod shade;
pub mod single;
pub mod style;
pub mod text;
