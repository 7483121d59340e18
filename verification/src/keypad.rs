//! The keypad and its pins.
//!
//! A [`Keypad`] keeps a history of what it has asked of its pins and of what it
//! has read from them. The history is there for the contracts only: it takes no
//! room in the compiled keypad. Each method that touches a pin adds to it, step
//! by step, what it does, and says in its contract what it has added. What the
//! pins do with what they are asked is their own affair; the history does not
//! hold it.

use crate::keymap::{decode, key_char, label, HASH, NO_KEY, NO_SINGLE_KEY, SEVERAL_KEYS, STAR};
use crate::pins::{drive_high, drive_low, pause, sample};
use crate::scan::{
    lemma_column_mask_holds_the_levels, lemma_scan_mask_holds_the_columns, merge_columns,
    pack_column, reads_low, sample_events, scan_events, PinEvent, SETTLE_MS,
};
use embedded_hal::blocking::delay::DelayMs;
use embedded_hal::digital::v2::{InputPin, OutputPin};
use vstd::prelude::*;

verus! {

/// The four row pins, top row first.
pub type Rows<R0, R1, R2, R3> = (R0, R1, R2, R3);

/// The three column pins, left column first.
pub type Columns<C0, C1, C2> = (C0, C1, C2);

/// A keypad: the four row pins it reads, the three column pins it drives, and
/// the history of what it has done with them.
pub struct Keypad<R0, R1, R2, R3, C0, C1, C2> {
    rows: Rows<R0, R1, R2, R3>,
    columns: Columns<C0, C1, C2>,
    history: Ghost<Seq<PinEvent>>,
}

impl<R0, R1, R2, R3, C0, C1, C2> Keypad<R0, R1, R2, R3, C0, C1, C2> {
    /// The row pins that the keypad holds.
    pub closed spec fn rows(&self) -> Rows<R0, R1, R2, R3> {
        self.rows
    }

    /// The column pins that the keypad holds.
    pub closed spec fn columns(&self) -> Columns<C0, C1, C2> {
        self.columns
    }

    /// What the keypad has asked of its pins and read from them since it was
    /// made, oldest first.
    pub closed spec fn history(&self) -> Seq<PinEvent> {
        self.history@
    }

    /// The code of the single key that is down in the bitmask `value`: the
    /// digit on the key, [`STAR`] or [`HASH`]. Any bitmask but those of the
    /// twelve single keys gives [`NO_SINGLE_KEY`].
    pub fn convert(&self, value: u16) -> (code: i16)
        ensures
            code == decode(value),
    {
        match value {
            0x001 => 1,
            0x002 => 4,
            0x004 => 7,
            0x008 => STAR,
            0x010 => 2,
            0x020 => 5,
            0x040 => 8,
            0x080 => 0,
            0x100 => 3,
            0x200 => 6,
            0x400 => 9,
            0x800 => HASH,
            _ => NO_SINGLE_KEY,
        }
    }

    /// The character of the single key that is down in the bitmask
    /// `raw_value`, which has to be that of one of the twelve keys.
    pub fn get_char(&self, raw_value: u16) -> (key: char)
        requires
            decode(raw_value) != NO_SINGLE_KEY,
        ensures
            key == label(decode(raw_value)),
    {
        let value: i16 = self.convert(raw_value);
        if value == STAR {
            '*'
        } else if value == HASH {
            '#'
        } else {
            (48u8 + value as u8) as char
        }
    }

    /// The character that the bitmask `raw` stands for: [`NO_KEY`] where no bit
    /// is set, the character of the key where `raw` is one of the twelve single
    /// keys, and [`SEVERAL_KEYS`] for every other bitmask.
    pub fn key_char(&self, raw: u16) -> (key: char)
        ensures
            key == key_char(raw),
    {
        if raw == 0 {
            NO_KEY
        } else if self.convert(raw) == NO_SINGLE_KEY {
            SEVERAL_KEYS
        } else {
            self.get_char(raw)
        }
    }
}

impl<
    R0: InputPin,
    R1: InputPin,
    R2: InputPin,
    R3: InputPin,
    C0: OutputPin,
    C1: OutputPin,
    C2: OutputPin,
> Keypad<R0, R1, R2, R3, C0, C1, C2> {
    /// Makes a keypad of pins that are set up already: the rows as inputs that
    /// are pulled up, the columns as outputs. Nothing is asked of the pins
    /// here.
    pub fn new(rows: Rows<R0, R1, R2, R3>, columns: Columns<C0, C1, C2>) -> (keypad: Self)
        ensures
            keypad.rows() == rows,
            keypad.columns() == columns,
            keypad.history() == Seq::<PinEvent>::empty(),
    {
        Self { rows, columns, history: Ghost(Seq::empty()) }
    }

    /// Scans the keypad once and gives the character of what is down: that of
    /// the key where exactly one is, [`NO_KEY`] where none is and
    /// [`SEVERAL_KEYS`] where more than one is.
    ///
    /// The scan is that of [`Keypad::read`]. It depends on nothing that an
    /// earlier scan found.
    pub fn read_char<D: DelayMs<u16> + ?Sized>(&mut self, delay: &mut D) -> (key: char)
        ensures
            exists|raw: u16|
                {
                    &&& raw <= 0xFFF
                    &&& final(self).history() == old(self).history() + #[trigger] scan_events(raw)
                    &&& key == key_char(raw)
                },
            final(self).rows() == old(self).rows(),
    {
        let raw = self.read(delay);
        self.key_char(raw)
    }

    /// Scans the keypad once and gives the bitmask of the keys that are down:
    /// bit `r + 4 * c` is set exactly if row `r` read low while column `c` was
    /// low.
    ///
    /// The columns are taken from the left one to the right one. Each is
    /// driven low, given [`SETTLE_MS`] to settle, read and driven high again
    /// before the next one, so that one column is low at a time and the last
    /// thing asked of every column is to be high. A column that refuses a
    /// level does not stop the scan, and a row that cannot be read counts as
    /// high.
    pub fn read<D: DelayMs<u16> + ?Sized>(&mut self, delay: &mut D) -> (raw: u16)
        ensures
            raw <= 0xFFF,
            final(self).history() == old(self).history() + scan_events(raw),
            final(self).rows() == old(self).rows(),
    {
        let _ = drive_low(&mut self.columns.0);
        self.history = Ghost(self.history@.push(PinEvent::ColumnLow { column: 0 }));
        let column0 = self.read_column(delay);
        let _ = drive_high(&mut self.columns.0);
        self.history = Ghost(self.history@.push(PinEvent::ColumnHigh { column: 0 }));

        let _ = drive_low(&mut self.columns.1);
        self.history = Ghost(self.history@.push(PinEvent::ColumnLow { column: 1 }));
        let column1 = self.read_column(delay);
        let _ = drive_high(&mut self.columns.1);
        self.history = Ghost(self.history@.push(PinEvent::ColumnHigh { column: 1 }));

        let _ = drive_low(&mut self.columns.2);
        self.history = Ghost(self.history@.push(PinEvent::ColumnLow { column: 2 }));
        let column2 = self.read_column(delay);
        let _ = drive_high(&mut self.columns.2);
        self.history = Ghost(self.history@.push(PinEvent::ColumnHigh { column: 2 }));

        proof {
            lemma_scan_mask_holds_the_columns(column0, column1, column2);
        }
        merge_columns(column0, column1, column2)
    }

    /// Reads the column that is low now: waits for it to settle, then reads the
    /// four rows from the top one down. Bit `r` of the result is set exactly if
    /// row `r` read low.
    fn read_column<D: DelayMs<u16> + ?Sized>(&mut self, delay: &mut D) -> (bits: u16)
        ensures
            bits <= 0xF,
            final(self).history() == old(self).history() + sample_events(bits),
            final(self).rows() == old(self).rows(),
    {
        pause(delay, SETTLE_MS);
        self.history = Ghost(self.history@.push(PinEvent::Settle { ms: SETTLE_MS }));
        let low0 = reads_low(sample(&self.rows.0));
        self.history = Ghost(self.history@.push(PinEvent::RowRead { row: 0, low: low0 }));
        let low1 = reads_low(sample(&self.rows.1));
        self.history = Ghost(self.history@.push(PinEvent::RowRead { row: 1, low: low1 }));
        let low2 = reads_low(sample(&self.rows.2));
        self.history = Ghost(self.history@.push(PinEvent::RowRead { row: 2, low: low2 }));
        let low3 = reads_low(sample(&self.rows.3));
        self.history = Ghost(self.history@.push(PinEvent::RowRead { row: 3, low: low3 }));
        proof {
            lemma_column_mask_holds_the_levels(low0, low1, low2, low3);
        }
        pack_column(low0, low1, low2, low3)
    }
}

} // verus!
