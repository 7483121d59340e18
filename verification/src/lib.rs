//! Driver for a numeric keypad of three columns and four rows.
//!
//! The keys are wired as a matrix: every key joins one row line to one column
//! line. A scan pulls the columns low one after another and looks at the row
//! lines while each column is low. A row that reads low then gives away the
//! key that joins it to that column.
//!
//! [`Keypad`] owns the seven pins and does the scanning; `Keypad::read_char`
//! is what most programs want. The layout of the keys and the rules that turn
//! a bitmask into a character are in [`keymap`]. What a scan does at the pins,
//! step by step, and how it packs what it reads into a bitmask is in [`scan`].
//!
//! ```ignore
//! let mut keypad = Keypad::new((row0, row1, row2, row3), (left, middle, right));
//! loop {
//!     match keypad.read_char(&mut delay) {
//!         NO_KEY => {}
//!         SEVERAL_KEYS => beep(),
//!         key => entry.push(key),
//!     }
//! }
//! ```
//!
//! The pins and the delay come from `embedded_hal`. The keypad takes them as
//! they are: it does not set them up, it does no debouncing, and it is not
//! made to tell several keys apart that are down together.

pub mod keymap;
pub mod keypad;
mod pins;
pub mod scan;

pub use keypad::{Columns, Keypad, Rows};
