//! PicoPlay: the game console logic of a Raspberry Pi Pico handheld.
//!
//! The console shows a two-entry menu ("Retro Heroes" and "Other Games")
//! driven by three buttons, and runs the Retro Heroes battle game. Every
//! decision the console takes is a verified function from the current state
//! and the buttons that are held to the next state and the list of drawing
//! commands for the display.

pub mod draw;
pub mod text;
pub mod menu;
pub mod battle;
pub mod random;
pub mod console;
pub mod preview;
pub mod hardware;
pub mod network;
pub mod laws;
