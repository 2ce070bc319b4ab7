//! A small declarative toolkit for user interfaces.
//!
//! An interface is a tree of [`components`], bound to the cells of a
//! [`state::Model`]. Components draw themselves into a list of drawing steps
//! and answer events with changes to the model and with the names of the
//! callbacks that are to run. What they draw, change and ask for is stated in
//! their contracts and proved; opening a window and running callbacks is left
//! to the application around the library.

pub mod components;
pub mod error;
pub mod geometry;
pub mod rendering;
pub mod rso;
pub mod scaffold;
pub mod state;
pub mod strings;
pub mod themes;
