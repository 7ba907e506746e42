//! The core of a terminal emulator.
//!
//! A shell writes bytes to its terminal: text mixed with escape sequences.
//! The [`state::State`] takes these bytes chunk by chunk, lets the parser of
//! the `vte` crate decode them into [`action::Action`]s and has the
//! [`performer::Performer`] perform each on the [`screen::Screen`], the grid
//! of [`cell::Cell`]s that a renderer draws. In the other direction,
//! [`input::encode_key`] turns a key press into the bytes that the shell
//! expects, and [`utils::reader_step`] decides what the thread that reads
//! from the shell does after each read.
//!
//! The grid does not scroll and does not wrap: the cursor stops in the last
//! column and on the last row. Colours have four channels of one byte each,
//! and positions on the screen are whole pixels.
//!
//! What each type is, as a mathematical value, is its view; every function
//! says in its contract how the view changes, and [`laws`] states what holds
//! of these views in every state.

pub mod action;
pub mod cell;
pub mod input;
pub mod laws;
pub mod parser;
pub mod performer;
pub mod screen;
pub mod state;
pub mod utils;
