//! Engine of an interactive control panel for boolean hardware settings.
//!
//! Each setting lives outside the program, in a file that holds the text
//! `0` or `1`. This crate holds everything about the panel that can be
//! decided without touching a file, a keyboard or a screen: how the text of
//! a backing file is understood, which setting is selected, what each input
//! event asks of the backing files, and which rows a frame shows.

pub mod engine;
pub mod input;
pub mod setting;
pub mod store;
pub mod value;
pub mod view_model;
