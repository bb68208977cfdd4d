//! A reactive character-grid display engine for a small text screen, and
//! the screen of an internet radio built on it.
//!
//! The screen is a grid of `SCREEN_HEIGHT` rows by `SCREEN_WIDTH` columns.
//! Text is addressed by segments of cells, written through a wrapping text
//! writer, and kept up to date by a tree of widgets that repaint only what
//! changed.
//!
//! - `geometry`: cursor positions and segments of cells.
//! - `display`: the character device, and the writer that lays texts out on
//!   it.
//! - `text`: what a value looks like as text, and how a text is made to fit.
//! - `widgets`, `combinators`: the widgets and what they are combined with.
//! - `messages`, `state`: what the player sends, and what the screen knows
//!   of the player.
//! - `formats`, `clock`, `view`: the texts and the layout of the radio's
//!   screen.
//! - `event_loop`, `connection`: what an event does to state and screen, and
//!   how the connection to the player is handled.
//! - `drivers`: what the drivers of the hardware work out.
//!
//! Everything is stated over what a device or a display has been asked to
//! do: a device is known by the history of its requests, and a contract says
//! what a call adds to it.

use vstd::prelude::*;

pub mod clock;
pub mod combinators;
pub mod connection;
pub mod display;
pub mod drivers;
pub mod event_loop;
pub mod formats;
pub mod geometry;
pub mod messages;
pub mod state;
pub mod text;
pub mod view;
pub mod widgets;

verus! {

/// Number of character cells in one row of the screen.
pub const SCREEN_WIDTH: u8 = 20;

/// Number of rows of the screen.
pub const SCREEN_HEIGHT: u8 = 4;

/// A temperature in whole degrees Celsius; 255 stands for "not known".
#[derive(Clone, Copy, Debug, PartialEq, Eq, Structural)]
pub struct Temperature(pub u8);

/// Something that can be asked for the temperature of the device.
pub trait TemperatureSource {
    /// The temperature as it is now.
    fn get_temperature(&mut self) -> Temperature;
}

} // verus!
