//! Percent change between two numbers, typed into linked text fields.
//!
//! Three fields stand one above the other: the initial value, the final
//! value, and the change from the one to the other as a share of the first.
//! The first two are typed in; the third follows them. This library holds the
//! state of the three fields and decides what every key press does to it. A
//! program around it draws the fields, reads the keyboard, and works out the
//! quotient, which is floating point.
//!
//! - [`number`]: which texts are numbers.
//! - [`text`]: lines and the text that they make.
//! - [`input`]: key presses and the commands that they stand for.
//! - [`buffer`]: what a field shows, and how editing changes it.
//! - [`area`]: the text area that holds a buffer.
//! - [`field`]: one field.
//! - [`focus`]: which field has the focus.
//! - [`state`]: the three fields together, and the handling of events.
//! - [`report`]: what is written out at the end, and what a frame shows.

pub mod area;
pub mod buffer;
pub mod field;
pub mod focus;
pub mod input;
pub mod number;
pub mod report;
pub mod state;
pub mod text;
