//! Hotkey logic for driving the drawing tools of a note-taking application
//! from the keyboard: which tool a key selects, when the canvas zooms, and the
//! exact keyboard and mouse input that the host program must synthesize.
//!
//! Everything here is pure decision logic over plain values. The host program
//! installs the keyboard hook, reads the events, and replays the returned
//! [`input::Action`]s through the operating system.

pub mod tools;
pub mod keys;
pub mod input;
pub mod controller;
pub mod overlay;
pub mod events;
pub mod laws;
