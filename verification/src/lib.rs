//! GPIO and pin configuration for the ESP32, as register programs.
//!
//! Every configuration step of a pin is computed here as a list of register
//! operations whose effect on each register field is stated and proved; the
//! peripheral access that carries the operations out lives outside this crate.
pub mod bits;

pub mod registers;
pub mod pins;
pub mod gpio;
pub mod config;
pub mod digital;
pub mod independence;
pub mod layout;
