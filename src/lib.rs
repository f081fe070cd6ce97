//! Rope length measurement: an encoder pulse accumulator that converts wheel
//! travel into a length, a protocol driver for an HD44780-class character
//! display on an 8-bit parallel bus, and the decisions of the measuring loop
//! that connects them.
pub mod counted_length;
pub mod display;
pub mod controller;
